# buttre_platform

The platform layer of buttre, a Vietnamese input method (Telex, VNI, Chữ Nôm
and custom keyboards): everything between the keyboard engine and the
operating system's input-method plumbing, written as verified Rust.

The keyboard engine itself is not part of this crate. Every function that
consumes its output takes the engine's actions as plain values, and every
decision the hosts make about them is a function from state and input to
state and output, with its contract proved.

## Layout

- `src/` — the verified library.
  - `candidates`, `candidate_panel`: the Nôm candidate list, its highlight
    and paging, and what the Windows panel draws of it.
  - `engine_bridge`: engine actions to input-method operations, for every
    host that composes with a preedit (and the no-preedit diff mode).
  - `ibus_engine`, `ibus_props`: the IBus engine's key routing, signals,
    property menu and lookup table.
  - `wayland_v1`: the Wayland input-method (v1) engine: requests, byte
    offsets and key forwarding.
  - `tsf_keys`, `tsf_session`, `tsf_registry`, `input`, `transport_claim`:
    the Windows text service (key claims and edit-session plans), its
    COM bookkeeping, language profiles, synthesized keyboard input and the
    claim that arbitrates between the text service and the hook.
  - `method_sync`, `watch`, `kwin_ime`, `backend_detect`, `method_owner`,
    `platform`, `autostart`: the shared method and enabled files, the file
    watcher's routing, session detection and who owns the method choice.
  - `ui`: tray icons (greyscale OFF variant), tooltips, check marks, menu.
  - `tray_events`: the tray loop's decisions: settings changed on disk,
    the deferred learning reload, menu clicks and hotkeys.
  - `explain`: the command line and screen replay of the diagnosis tool.
  - `keysym`, `text`: X11 keysyms and the string helpers the rest uses.
- `tests/` — tests of the library on concrete values.
- `app/` — the Linux host: files, the session bus, the watcher, the command
  line.
