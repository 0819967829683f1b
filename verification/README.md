# eclipse_installer

The Eclipse Linux TUI installer, with its logic verified in Verus.

- `src/` is the verified library: the install configuration and partition
  paths (`config`), the wizard's screens as state machines with what each one
  shows (`wizard`), the commands and file operations of the eleven
  installation stages in order (`install`, `initramfs`), the files written
  into the target (`target_files`), the log lines (`log`), and the text
  helpers they share (`text`, `sort`). The only outside call is the username
  check through the `regex` crate.
- `app/` is the program around it: the terminal front end (ratatui and
  crossterm), signal handling (nix), the logger, and the thread that runs
  the commands and writes the files that the library plans.
- `tests/` runs the library on concrete values.
