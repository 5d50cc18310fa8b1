# OpenLogi

Configuration, gesture and device-state logic for Logitech mice and keyboards,
written and verified in Verus, with a thin program around it.

## Layout

- `src/` is the verified library.
  - `binding`, `bindings`, `button_map`: what buttons do, swipes and pans, and the
    projection of the configuration onto the input paths.
  - `config`, `color`: per-device settings, per-application overlays, schema
    migration.
  - `hook_runtime`, `gesture_coordinator`, `watchers::gesture`: what an input event
    does, for the OS hook and for HID++ capture, and which of the two has a gesture.
  - `device`, `device_order`, `hid`: devices, their keys, and what they report.
  - `orchestrator`, `agent`, `event_monitor`, `ipc`: the background agent.
  - `gui`: the window's state and what its views show.
  - `text`, `text_map`, `arith`, `clock`: building blocks.
  - `shared`: what threads share without locks, and the records of what was done to it.
- `tests/` exercises the library from outside.
- `app/` is the program: files, threads, tasks, serde and floating point.

Contracts speak of mathematical models: each stateful type has a view, and each
operation says what the view becomes. Properties that span several operations are
stated as public proof functions whose names begin with `law_`.
