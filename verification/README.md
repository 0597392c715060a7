# floating_lyrics

A desktop overlay that shows synced lyrics in a transparent, always-on-top
window, with a tray menu, a mini-window mode, per-mode settings and an updater
for its bundled lyrics server.

- `src/` is the verified library (Verus): window modes and their settings,
  the tray menu's entries and actions, hover-hide and always-on-top
  decisions, connectivity and welcome-page decisions, release selection,
  checksum checking and the updater's state machine. Every public function
  carries a contract; laws that span several functions are public proof
  functions next to them.
- `app/` is the desktop shell: Tauri windows, tray, threads, files, HTTP and
  the Windows API. It keeps the library's state behind one lock and hands it
  plain values.
- `tests/` runs the library on concrete values.
