# vkinit

Decisions taken while setting up Vulkan, proved with Verus.

- `src/` is the verified library: device extension and feature flag sets
  (`extensions`, `features`), the optional instance extensions, the API
  version check and the check of requested extensions and layers
  (`instance`), what a logical device is created with (`device`), result
  code mappings (`errors`, `device_selector`), the memory heap listing
  (`memory`), and the Vulkan names and constants taken from ash (`names`,
  `vulkan`).
- `app/` is the Vulkan side: driver queries through ash, instance and device
  creation, and logging, handing plain values to the library.
- `tests/` runs the library on concrete values.
