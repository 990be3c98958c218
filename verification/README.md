# resize_rabbit

A Windows tray tool that moves and resizes game windows to saved profiles.

- `src/` is the verified library (Verus): the profile list operations, the
  decisions of an apply request (`apply_run`), the window watcher (`watch`),
  window selection and style changes (`window_manager`), the IPC command
  parser (`ipc`), the tray menu and its texts read from locale files (`tray`,
  `json_text`), the update check dialogs (`updates`), shortcut bindings,
  the saved window placement check, log rotation and locale listing.
- `app/` is the Tauri program around it: Win32 calls, files, the named pipe,
  threads, the tray and shortcut managers. It performs the actions the
  library asks for and reports their outcomes back.
- `tests/` exercises the library on concrete values.
