//! The elevated install step for a staged Windows download: what must be
//! staged, and the text of the install script and of its launcher.

use vstd::prelude::*;
use crate::text::{append_str, decimal_digits, to_owned_string, unsigned_decimal_string};
use crate::uninstaller::{escape_powershell_string, escape_spec};

verus! {

/// Why the staged folder cannot be installed.
#[derive(Debug, Clone)]
pub enum InstallError {
    /// The staged folder is missing; holds it as displayed.
    StagedFolderMissing(String),
    /// `pbxctrl.exe` is not staged; holds its path as displayed.
    MissingExecutable(String),
    /// `pbxctrl.dat` is not staged; holds its path as displayed.
    MissingData(String),
}

pub enum InstallErrorModel {
    StagedFolderMissing(Seq<char>),
    MissingExecutable(Seq<char>),
    MissingData(Seq<char>),
}

impl View for InstallError {
    type V = InstallErrorModel;

    open spec fn view(&self) -> InstallErrorModel {
        match self {
            InstallError::StagedFolderMissing(p) => InstallErrorModel::StagedFolderMissing(p@),
            InstallError::MissingExecutable(p) => InstallErrorModel::MissingExecutable(p@),
            InstallError::MissingData(p) => InstallErrorModel::MissingData(p@),
        }
    }
}

impl InstallError {
    pub fn message(&self) -> (res: String)
        ensures
            res@ == match self@ {
                InstallErrorModel::StagedFolderMissing(p) => "Staged folder does not exist: "@ + p,
                InstallErrorModel::MissingExecutable(p) => "Staged folder is missing pbxctrl.exe: "@ + p,
                InstallErrorModel::MissingData(p) => "Staged folder is missing pbxctrl.dat: "@ + p,
            },
    {
        let (prefix, p) = match self {
            InstallError::StagedFolderMissing(p) => ("Staged folder does not exist: ", p),
            InstallError::MissingExecutable(p) => ("Staged folder is missing pbxctrl.exe: ", p),
            InstallError::MissingData(p) => ("Staged folder is missing pbxctrl.dat: ", p),
        };
        let mut s = to_owned_string(prefix);
        append_str(&mut s, p.as_str());
        s
    }
}

/// Checks, in this order, that the staged folder, its `pbxctrl.exe` and its
/// `pbxctrl.dat` exist; each error holds the path (as displayed) that was
/// found missing.
pub fn check_staged_folder(
    staged_exists: bool,
    exe_exists: bool,
    dat_exists: bool,
    staged_text: &str,
    exe_text: &str,
    dat_text: &str,
) -> (res: Result<(), InstallError>)
    ensures
        res is Ok <==> (staged_exists && exe_exists && dat_exists),
        res matches Err(e) ==> e@ == if !staged_exists {
            InstallErrorModel::StagedFolderMissing(staged_text@)
        } else if !exe_exists {
            InstallErrorModel::MissingExecutable(exe_text@)
        } else {
            InstallErrorModel::MissingData(dat_text@)
        },
{
    if !staged_exists {
        return Err(InstallError::StagedFolderMissing(to_owned_string(staged_text)));
    }
    if !exe_exists {
        return Err(InstallError::MissingExecutable(to_owned_string(exe_text)));
    }
    if !dat_exists {
        return Err(InstallError::MissingData(to_owned_string(dat_text)));
    }
    Ok(())
}

/// The script text before the staged folder.
pub const INSTALL_SCRIPT_HEAD: &'static str = r#"$ErrorActionPreference = "Stop"

$StagedDir = ""#;

/// The script text between the staged folder and the install folder.
pub const INSTALL_SCRIPT_MIDDLE: &'static str = r#""
$InstallDir = ""#;

/// The script text after the install folder.
pub const INSTALL_SCRIPT_TAIL: &'static str = r#""
$ServiceName = "PBX"
$DisplayName = "Vodia PBX"
$PbxExe = Join-Path $InstallDir "pbxctrl.exe"
$PbxDat = Join-Path $InstallDir "pbxctrl.dat"
$OpusDll = Join-Path $InstallDir "opus.dll"
$InstallLog = Join-Path $InstallDir "installation.txt"

Write-Host "Vodia PBX Installer"
Write-Host "Staged folder: $StagedDir"
Write-Host "Install folder: $InstallDir"
Write-Host ""

Write-Host "Checking for existing Vodia PBX installation..."

$service = Get-Service -Name $ServiceName -ErrorAction SilentlyContinue

if ($service) {
    Write-Host "ERROR: A PBX service already exists."
    Write-Host "Service name: $ServiceName"
    Write-Host "Service status: $($service.Status)"
    Write-Host ""
    Write-Host "This installer will not install over an existing PBX service."
    Write-Host "Please uninstall the existing PBX installation first, then run this installer again."
    exit 10
}

if (Test-Path $InstallDir) {
    $ExistingPbxExe = Join-Path $InstallDir "pbxctrl.exe"

    if (Test-Path $ExistingPbxExe) {
        Write-Host "ERROR: A Vodia PBX installation already exists at:"
        Write-Host $InstallDir
        Write-Host ""
        Write-Host "This installer will not install over an existing PBX folder."
        Write-Host "Please uninstall the existing PBX installation first, then run this installer again."
        exit 11
    }
}

Write-Host ""
Write-Host "Creating install directory..."
New-Item -ItemType Directory -Force -Path $InstallDir | Out-Null

Write-Host "Copying staged files to install directory..."

Get-ChildItem -LiteralPath $StagedDir -Force | ForEach-Object {
    $name = $_.Name

    if ($name -eq "install-vodia-pbx.ps1" -or
        $name -eq "run-install-vodia-pbx.cmd" -or
        $name -eq "installation.txt" -or
        $name -like "*.log") {
        return
    }

    $destination = Join-Path $InstallDir $name

    if ($_.PSIsContainer) {
        Copy-Item -LiteralPath $_.FullName -Destination $destination -Recurse -Force
    } else {
        Copy-Item -LiteralPath $_.FullName -Destination $destination -Force
    }
}

Write-Host ""
Write-Host "Validating installed files..."

if (!(Test-Path $PbxExe)) {
    Write-Host "ERROR: pbxctrl.exe was not installed."
    exit 20
}

if (!(Test-Path $PbxDat)) {
    Write-Host "ERROR: pbxctrl.dat was not installed."
    exit 21
}

if (!(Test-Path $OpusDll)) {
    Write-Host "WARNING: opus.dll was not found. Continuing anyway."
}

Write-Host "Installed pbxctrl.exe: $PbxExe"
Write-Host "Installed pbxctrl.dat: $PbxDat"

Write-Host ""
Write-Host "Preparing first-run setup.json..."

$AdminUser = "vodia"

$RandomPart = -join ((48..57) + (65..90) + (97..122) | Get-Random -Count 16 | ForEach-Object { [char]$_ })
$AdminPassword = "$RandomPart!"

$Md5 = [System.Security.Cryptography.MD5]::Create()
$PasswordBytes = [System.Text.Encoding]::UTF8.GetBytes($AdminPassword)
$HashBytes = $Md5.ComputeHash($PasswordBytes)
$PasswordHash = ([System.BitConverter]::ToString($HashBytes)).Replace("-", "").ToLowerInvariant()

$SetupJsonPath = Join-Path $InstallDir "setup.json"

$SetupJsonContent = @"
{
  "settings": {
    "pw_pass": "$PasswordHash",
    "pw_user": "$AdminUser",
    "sys_name": "Vodia PBX"
  }
}
"@

$Utf8NoBom = New-Object System.Text.UTF8Encoding($false)
[System.IO.File]::WriteAllText($SetupJsonPath, $SetupJsonContent, $Utf8NoBom)

Write-Host "setup.json written to: $SetupJsonPath"

Write-Host ""
Write-Host "Starting PBX once to generate the initial configuration..."
Write-Host "This can take up to 30 seconds."

$FirstRunOut = Join-Path $InstallDir "first-run.stdout.log"
$FirstRunErr = Join-Path $InstallDir "first-run.stderr.log"

$FirstRunArgString = "--no-daemon --dir `"$InstallDir`""

$process = Start-Process `
    -FilePath $PbxExe `
    -ArgumentList $FirstRunArgString `
    -WorkingDirectory $InstallDir `
    -RedirectStandardOutput $FirstRunOut `
    -RedirectStandardError $FirstRunErr `
    -PassThru `
    -WindowStyle Hidden

Start-Sleep -Seconds 15

if (!$process.HasExited) {
    Write-Host "Stopping first-run PBX process..."
    Stop-Process -Id $process.Id -Force -ErrorAction SilentlyContinue
    Start-Sleep -Seconds 2
}

$PbxXml = Join-Path $InstallDir "pbx.xml"

if (!(Test-Path $PbxXml)) {
    Write-Host "WARNING: pbx.xml was not created during first run."
    Write-Host "First-run stdout:"
    if (Test-Path $FirstRunOut) { Get-Content $FirstRunOut -ErrorAction SilentlyContinue | Out-Host }
    Write-Host "First-run stderr:"
    if (Test-Path $FirstRunErr) { Get-Content $FirstRunErr -ErrorAction SilentlyContinue | Out-Host }
} else {
    Write-Host "pbx.xml created: $PbxXml"

    $PbxXmlText = Get-Content -LiteralPath $PbxXml -Raw

    $DetectedUser = $AdminUser

    if ($PbxXmlText -match "<pw_user>(.*?)</pw_user>") {
        $DetectedUser = $Matches[1]
        Write-Host "Detected admin username in pbx.xml: $DetectedUser"
    } else {
        Write-Host "No pw_user found in pbx.xml."
    }

    if ($DetectedUser -ne $AdminUser) {
        Write-Host "WARNING: setup.json requested username '$AdminUser', but pbx.xml shows '$DetectedUser'."
        Write-Host "The PBX may have ignored setup.json or reused an existing configuration."
    }

    if ($PbxXmlText -match '<pw_pass encrypted="true">(.*?)</pw_pass>') {
        Write-Host "Detected encrypted admin password in pbx.xml."
        Write-Host "Assuming setup.json password was accepted."
    } else {
        Write-Host "WARNING: No encrypted pw_pass found in pbx.xml."
        Write-Host "The generated password may not have been applied."
    }

    $AdminUser = $DetectedUser
}

Write-Host ""
Write-Host "Creating Windows service..."

$BinPath = "`"$PbxExe`" --dir `"$InstallDir`""

New-Service `
    -Name $ServiceName `
    -BinaryPathName $BinPath `
    -DisplayName $DisplayName `
    -StartupType Automatic

Write-Host "Service created: $ServiceName"

Write-Host ""
Write-Host "Configuring Windows Firewall..."

try {
    $ExistingRule = Get-NetFirewallRule -DisplayName "Vodia PBX" -ErrorAction SilentlyContinue

    if (!$ExistingRule) {
        New-NetFirewallRule `
            -DisplayName "Vodia PBX" `
            -Direction Inbound `
            -Program $PbxExe `
            -Action Allow `
            -Profile Any | Out-Null

        Write-Host "Firewall rule created."
    } else {
        Write-Host "Firewall rule already exists."
    }
} catch {
    Write-Host "WARNING: Failed to create firewall rule."
    Write-Host $_
}

Write-Host ""
Write-Host "Starting PBX service..."

Start-Service -Name $ServiceName

Start-Sleep -Seconds 3

$service = Get-Service -Name $ServiceName -ErrorAction SilentlyContinue

if ($service) {
    Write-Host "Service status: $($service.Status)"
} else {
    Write-Host "WARNING: Service was not found after creation."
}

Write-Host ""
Write-Host "Writing installation details..."

$LocalUrl = "http://localhost"
$HttpsLocalUrl = "https://localhost"

$InstallText = @"
Vodia PBX Installation

Install directory:
$InstallDir

Service name:
$ServiceName

Service display name:
$DisplayName

Access URLs:
$LocalUrl
$HttpsLocalUrl

Admin username:
$AdminUser

Admin password:
$AdminPassword

Important notes:
- These credentials were generated by this installer and written to setup.json before first startup.
- The password was written to setup.json as an MD5 hash.
- Change this password after first login if required by your security policy.
- Keep this file secure. It contains the generated admin password.

Useful commands:

Stop service:
Stop-Service PBX

Start service:
Start-Service PBX

Delete service:
sc.exe delete PBX

Remove install folder:
Remove-Item -Recurse -Force "$InstallDir"

Uninstall manually:
Stop-Service PBX -ErrorAction SilentlyContinue
sc.exe delete PBX
Start-Sleep -Seconds 3
Remove-Item -Recurse -Force "$InstallDir" -ErrorAction SilentlyContinue
Get-NetFirewallRule -DisplayName "*Vodia*" -ErrorAction SilentlyContinue | Remove-NetFirewallRule
"@

[System.IO.File]::WriteAllText($InstallLog, $InstallText, $Utf8NoBom)

$StagedInstallText = Join-Path $StagedDir "installation.txt"
[System.IO.File]::WriteAllText($StagedInstallText, $InstallText, $Utf8NoBom)

Write-Host ""
Write-Host "Cleaning up staged download folder..."

try {
    Remove-Item -Recurse -Force $StagedDir -ErrorAction Stop
    Write-Host "Cleaned up staged download folder:"
    Write-Host $StagedDir
} catch {
    Write-Host "WARNING: Installed successfully, but could not remove staged download folder:"
    Write-Host $StagedDir
    Write-Host $_
}

Write-Host ""
Write-Host "Installation complete."
Write-Host ""
Write-Host "Open:"
Write-Host $LocalUrl
Write-Host ""
Write-Host "Username: $AdminUser"
Write-Host "Password: $AdminPassword"
Write-Host ""
Write-Host "Installation details saved to:"
Write-Host $InstallLog
Write-Host ""
"#;

/// The launcher text before the script path.
pub const INSTALL_LAUNCHER_HEAD: &'static str = r#"@echo off
        powershell.exe -NoProfile -ExecutionPolicy Bypass -File ""#;

/// The launcher text after the script path.
pub const INSTALL_LAUNCHER_TAIL: &'static str = r#""
        set EXITCODE=%ERRORLEVEL%
        echo.
        echo Installer finished with exit code %EXITCODE%.
        echo.
        pause
        exit /b %EXITCODE%
        "#;

/// The PowerShell script that installs the files staged in `staged_dir` into
/// `install_dir`, refusing to install over an existing `PBX` service or
/// installation, writes `setup.json`, runs the PBX once, creates and starts
/// the service and writes `installation.txt`.
pub fn install_script(staged_dir: &str, install_dir: &str) -> (res: String)
    ensures
        res@ == INSTALL_SCRIPT_HEAD@ + escape_spec(staged_dir@) + INSTALL_SCRIPT_MIDDLE@ + escape_spec(
            install_dir@,
        ) + INSTALL_SCRIPT_TAIL@,
{
    let mut s = to_owned_string(INSTALL_SCRIPT_HEAD);
    let staged = escape_powershell_string(staged_dir);
    append_str(&mut s, staged.as_str());
    append_str(&mut s, INSTALL_SCRIPT_MIDDLE);
    let install = escape_powershell_string(install_dir);
    append_str(&mut s, install.as_str());
    append_str(&mut s, INSTALL_SCRIPT_TAIL);
    s
}

/// The batch file that runs the install script at `script_path`, reports
/// its exit code and waits for a key.
pub fn install_launcher(script_path: &str) -> (res: String)
    ensures
        res@ == INSTALL_LAUNCHER_HEAD@ + script_path@ + INSTALL_LAUNCHER_TAIL@,
{
    let mut s = to_owned_string(INSTALL_LAUNCHER_HEAD);
    append_str(&mut s, script_path);
    append_str(&mut s, INSTALL_LAUNCHER_TAIL);
    s
}

/// The file name of the install script written at time `timestamp`.
pub fn install_script_file_name(timestamp: u64) -> (res: String)
    ensures
        res@ == "install-vodia-pbx-"@ + decimal_digits(timestamp as nat) + ".ps1"@,
{
    let mut s = to_owned_string("install-vodia-pbx-");
    let n = unsigned_decimal_string(timestamp);
    append_str(&mut s, n.as_str());
    append_str(&mut s, ".ps1");
    s
}

/// The file name of the install launcher written at time `timestamp`.
pub fn install_launcher_file_name(timestamp: u64) -> (res: String)
    ensures
        res@ == "run-install-vodia-pbx-"@ + decimal_digits(timestamp as nat) + ".cmd"@,
{
    let mut s = to_owned_string("run-install-vodia-pbx-");
    let n = unsigned_decimal_string(timestamp);
    append_str(&mut s, n.as_str());
    append_str(&mut s, ".cmd");
    s
}

} // verus!
