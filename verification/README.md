# AI Assistant Client — verified core

The decisions of the AI Assistant Client's desktop launcher, Windows
installer and chat command, written in Verus and proved against their
contracts.

- `src/http.rs` — the local page server: the request target (second word of
  the first line, Unicode white space), the page it names, and the exact
  reply header and body.
- `src/folders.rs` — the folder layout shared by installer and launcher.
- `src/desktop.rs` — the launcher's flags, data folder, messages and how it
  opens the page.
- `src/installer.rs` — the installer's flags, its install and uninstall
  plans, the uninstall entry, and its command-line run as a state machine.
- `src/panel.rs` — the setup panel's controls and its state machine.
- `src/chat.rs` — the chat-completions address and the reading of a reply.
- `src/wide.rs`, `src/text.rs` — UTF-16 for Win32 calls, decimal numerals.

`app/` holds the programs around it: sockets, files, the registry tool,
Win32 windows and COM, HTTP and the Tauri shell. `tests/` runs the library
on concrete inputs.
