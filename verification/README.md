# opendeck_k1pro

Core of the StreamDock K1 Pro plugin for OpenDeck, verified with Verus.

- `src/` is the verified library: key and event-code mappings (`mappings`),
  vendor reports (`protocol`), host-library command sequences (`commands`),
  host / standalone mode decisions (`mode`), backlight controls
  (`backlight`), key images (`key_image`), device discovery (`discovery`)
  and raw text conversions (`text`).
- `app/` is the plugin program: it loads `libtransport.so`, runs the
  OpenDeck websocket connection, the device tasks and the watcher, and
  carries out what the library decides.
- `tests/` exercises the library on concrete values.
