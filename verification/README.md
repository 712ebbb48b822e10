# tauri-egui

Native egui windows inside tauri's event loop, with the decisions of the plugin
verified by Verus.

- `src/` is the library. It calls no windowing or rendering library: a turn of the
  event loop hands out actions and takes back how they turned out.
  - `plugin` the plugin and the handle that asks for windows
  - `turn` one turn of the event loop, step by step
  - `frame`, `message`, `setup`, `window`, `shared` what the steps are made of
  - `run`, `outcome` what a whole turn does, from the event to its end
  - `laws` what holds of every turn, `history` what holds over several
- `app/` performs the actions with tauri's runtime, glutin, glow, GTK and egui.
- `tests/` runs the library against a scripted outside.
