//! The text of the uninstall script and of its launcher, and the quoting of
//! values placed in PowerShell double-quoted strings.

use vstd::prelude::*;
use crate::text::{
    append_str, chars_of, decimal_digits, push_char, to_owned_string, unsigned_decimal_string,
};

verus! {

// ---------------------------------------------------------------------------
// Quoting for PowerShell double-quoted strings

/// The escaped form of one character: a backtick before each backtick and
/// double quote.
pub open spec fn escape_char_spec(c: char) -> Seq<char> {
    if c == '`' {
        seq!['`', '`']
    } else if c == '"' {
        seq!['`', '"']
    } else {
        seq![c]
    }
}

/// `value` with every backtick and double quote preceded by a backtick.
pub open spec fn escape_spec(s: Seq<char>) -> Seq<char>
    decreases s.len(),
{
    if s.len() == 0 {
        Seq::empty()
    } else {
        escape_char_spec(s[0]) + escape_spec(s.skip(1))
    }
}

/// Escaping works character by character.
pub proof fn lemma_escape_concat(a: Seq<char>, b: Seq<char>)
    ensures
        escape_spec(a + b) == escape_spec(a) + escape_spec(b),
    decreases a.len(),
{
    if a.len() == 0 {
        assert(a + b == b);
        assert(escape_spec(a) =~= Seq::<char>::empty());
        assert(escape_spec(a) + escape_spec(b) =~= escape_spec(b));
    } else {
        lemma_escape_concat(a.skip(1), b);
        assert((a + b).skip(1) == a.skip(1) + b);
        assert((a + b)[0] == a[0]);
        assert(escape_char_spec(a[0]) + (escape_spec(a.skip(1)) + escape_spec(b)) =~= (escape_char_spec(
            a[0],
        ) + escape_spec(a.skip(1))) + escape_spec(b));
    }
}

/// How the body of a PowerShell double-quoted string reads as far as
/// backticks and quotes go: a backtick takes the next character literally;
/// an unescaped `"` would end the string early (`None`), as would a
/// backtick with nothing after it.
pub open spec fn read_quoted_body(s: Seq<char>) -> Option<Seq<char>>
    decreases s.len(),
{
    if s.len() == 0 {
        Some(Seq::empty())
    } else if s[0] == '`' {
        if s.len() < 2 {
            None
        } else {
            match read_quoted_body(s.skip(2)) {
                Some(rest) => Some(seq![s[1]] + rest),
                None => None,
            }
        }
    } else if s[0] == '"' {
        None
    } else {
        match read_quoted_body(s.skip(1)) {
            Some(rest) => Some(seq![s[0]] + rest),
            None => None,
        }
    }
}

/// An escaped value, placed between double quotes, reads back as the value:
/// no quote in it ends the string and no backtick is lost.
pub proof fn lemma_escape_reads_back(s: Seq<char>)
    ensures
        read_quoted_body(escape_spec(s)) == Some(s),
    decreases s.len(),
{
    if s.len() == 0 {
        assert(escape_spec(s) =~= Seq::<char>::empty());
        assert(s =~= Seq::<char>::empty());
    } else {
        lemma_escape_reads_back(s.skip(1));
        let e = escape_spec(s);
        let c = s[0];
        let rest = escape_spec(s.skip(1));
        if c == '`' || c == '"' {
            assert(e.skip(2) =~= rest);
            assert(e[0] == '`' && e[1] == c);
        } else {
            assert(e.skip(1) =~= rest);
            assert(e[0] == c);
        }
        assert(seq![c] + s.skip(1) =~= s);
    }
}

/// `value` quoted for a PowerShell double-quoted string: backticks and
/// double quotes get a backtick in front.
pub fn escape_powershell_string(value: &str) -> (res: String)
    ensures
        res@ == escape_spec(value@),
{
    let cs = chars_of(value);
    let mut res = String::new();
    let mut i: usize = 0;
    assert(cs@.take(0) =~= Seq::<char>::empty());
    assert(escape_spec(Seq::<char>::empty()) =~= Seq::<char>::empty());
    while i < cs.len()
        invariant
            cs@ == value@,
            i <= cs@.len(),
            res@ == escape_spec(cs@.take(i as int)),
        decreases cs@.len() - i,
    {
        let c = cs[i];
        proof {
            lemma_escape_concat(cs@.take(i as int), seq![c]);
            assert(cs@.take(i + 1) =~= cs@.take(i as int) + seq![c]);
            assert(seq![c].skip(1) =~= Seq::<char>::empty());
            assert(escape_spec(seq![c]) =~= escape_char_spec(c) + escape_spec(Seq::<char>::empty()));
        }
        if c == '`' {
            push_char(&mut res, '`');
            push_char(&mut res, '`');
        } else if c == '"' {
            push_char(&mut res, '`');
            push_char(&mut res, '"');
        } else {
            push_char(&mut res, c);
        }
        assert(res@ =~= escape_spec(cs@.take(i + 1)));
        i += 1;
    }
    assert(cs@.take(cs@.len() as int) == cs@);
    res
}

// ---------------------------------------------------------------------------
// Uninstall script and launcher

/// The script text before the install directory.
pub const UNINSTALL_SCRIPT_HEAD: &'static str = r#"$ErrorActionPreference = "Continue"

$InstallDir = ""#;

/// The script text after the install directory.
pub const UNINSTALL_SCRIPT_TAIL: &'static str = r#""
$ServiceName = "PBX"

Write-Host "Vodia PBX Uninstaller"
Write-Host "Install directory: $InstallDir"
Write-Host ""

Write-Host "Stopping PBX service if it exists..."
Stop-Service $ServiceName -ErrorAction SilentlyContinue

Start-Sleep -Seconds 3

Write-Host "Deleting PBX service if it exists..."
sc.exe delete $ServiceName | Out-Host

Write-Host "Removing Vodia PBX installation folder..."
Remove-Item -Recurse -Force $InstallDir -ErrorAction SilentlyContinue

Write-Host "Removing Vodia firewall rules..."
Get-NetFirewallRule -DisplayName "*Vodia*" -ErrorAction SilentlyContinue | Remove-NetFirewallRule

Write-Host ""
Write-Host "Uninstall complete."
Write-Host ""
Read-Host "Press Enter to continue"
"#;

/// The launcher text before the script path.
pub const UNINSTALL_LAUNCHER_HEAD: &'static str = r#"@echo off
    powershell.exe -NoProfile -ExecutionPolicy Bypass -File ""#;

/// The launcher text after the script path.
pub const UNINSTALL_LAUNCHER_TAIL: &'static str = r#""
    exit /b %ERRORLEVEL%
    "#;

/// The PowerShell script that stops and deletes the `PBX` service, removes
/// `install_dir` and the Vodia firewall rules.
pub fn uninstall_script(install_dir: &str) -> (res: String)
    ensures
        res@ == UNINSTALL_SCRIPT_HEAD@ + escape_spec(install_dir@) + UNINSTALL_SCRIPT_TAIL@,
{
    let mut s = to_owned_string(UNINSTALL_SCRIPT_HEAD);
    let escaped = escape_powershell_string(install_dir);
    append_str(&mut s, escaped.as_str());
    append_str(&mut s, UNINSTALL_SCRIPT_TAIL);
    s
}

/// The batch file that runs the script at `script_path`.
pub fn uninstall_launcher(script_path: &str) -> (res: String)
    ensures
        res@ == UNINSTALL_LAUNCHER_HEAD@ + script_path@ + UNINSTALL_LAUNCHER_TAIL@,
{
    let mut s = to_owned_string(UNINSTALL_LAUNCHER_HEAD);
    append_str(&mut s, script_path);
    append_str(&mut s, UNINSTALL_LAUNCHER_TAIL);
    s
}

/// The arguments with which `cmd.exe` runs the batch file at `cmd_path` and
/// stays open: `/k "<cmd_path>"`.
pub fn cmd_keep_open_args(cmd_path: &str) -> (res: String)
    ensures
        res@ == "/k \""@ + cmd_path@ + "\""@,
{
    let mut s = to_owned_string("/k \"");
    append_str(&mut s, cmd_path);
    append_str(&mut s, "\"");
    s
}

/// The file name of the uninstall script written at time `timestamp`.
pub fn uninstall_script_file_name(timestamp: u64) -> (res: String)
    ensures
        res@ == "uninstall-vodia-pbx-"@ + decimal_digits(timestamp as nat) + ".ps1"@,
{
    let mut s = to_owned_string("uninstall-vodia-pbx-");
    let n = unsigned_decimal_string(timestamp);
    append_str(&mut s, n.as_str());
    append_str(&mut s, ".ps1");
    s
}

/// The file name of the uninstall launcher written at time `timestamp`.
pub fn uninstall_launcher_file_name(timestamp: u64) -> (res: String)
    ensures
        res@ == "run-uninstall-vodia-pbx-"@ + decimal_digits(timestamp as nat) + ".cmd"@,
{
    let mut s = to_owned_string("run-uninstall-vodia-pbx-");
    let n = unsigned_decimal_string(timestamp);
    append_str(&mut s, n.as_str());
    append_str(&mut s, ".cmd");
    s
}

} // verus!
