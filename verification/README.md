# bevy_state_ui

Renders a Bevy UI directly from application state: the UI tree of a state is
despawned and rendered again whenever the state changes, and only then.

- `src/` is the verified library: the render decision
  (`render::ui_state_render`), the hash-based run condition
  (`change_hash::ui_state_changed`) and the plugin settings
  (`config::PluginConfig`), each with its contract, and the laws that tie
  successive frames together.
- `app/` is the Bevy side: the plugin, the render system that despawns and
  spawns entities as the library decides, and the `StateRender` trait that a
  state implements to describe its UI.
- `tests/` runs the library on concrete frames.
