# vodia_pbx_wizard

A Windows installer wizard for Vodia PBX builds: it finds the files of a
version (a Windows setup package or the files listed in the version's XML
manifest), stages them, and launches an elevated install or uninstall step.

- `src/` is the library, verified with Verus: release and manifest URLs,
  reading the manifest, which download links are trusted, safe staged and
  extracted paths, the setup-package probe, the PowerShell script texts and
  their quoting, the command line, and the state of the installer window.
- `app/` is the program around it: networking, archives, the file system,
  the window, and starting elevated processes.
- `tests/` exercise the library on concrete values.
