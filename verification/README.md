# autorec_turbo

Verified core of a one-click OBS configurator: it installs OBS, backs up the user's
configuration, writes a ready-made scene collection with branded HTML overlays and an
output profile, activates them in `global.ini`, and checks a licence key.

- `src/` is the library, written in Verus and verified:
  - `text`: the string operations it relies on (trim, lines, join, replace), with specs.
  - `ini`: `set_ini_value` and its laws, each proved under the conditions its doc comment
    gives:
    - what was set reads back, when section, key and value hold no line feed, the value
      does not end with `\r`, and the line `key=value` neither begins with `[` nor reads,
      trimmed, as `[section]`;
    - every other key keeps its value, when moreover no line of the text begins with
      white space, neither key holds `=`, the key's first non-blank character is not
      `[`, and the other value does not end with `\r`;
    - setting the same value twice changes nothing, when the read-back conditions hold,
      the text holds no `\r` and it does not end with an empty line.
  - `color`: `#RRGGBB` to the ABGR integer OBS uses.
  - `overlay`: the four overlay templates and their rendering.
  - `scene`: the scene collection as data, with each capture source's settings per platform.
  - `license`: machine id and the decisions around the licence service.
  - `system`: platform paths, `ioreg`/`hdiutil` output parsing, profile and `global.ini` text.
  - `install`: the installer as a state machine, one step per call.
- `app/` drives the library: it runs programs, touches files, serialises the scene
  collection to JSON and talks to the licence service.
- `tests/` exercises the library on concrete values.
