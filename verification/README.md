# qubicon_vulkan

A thin Vulkan wrapper whose decisions are verified with Verus.

- `src/` is the verified library. It holds the plain data model of physical
  devices, logical devices, memory, buffers, images, descriptors and command
  buffers, and every decision the wrapper takes before it talks to the driver:
  checking queue requests and allocations, choosing the memory type of a
  resource, counting shared mappings, laying out create infos the way the driver
  takes them, reading versions and format names. Calls into `ash`, `arrayvec`
  and `bitvec` that only compute stand behind small trusted wrappers whose
  contracts say what those crates do.
- `app/` is the driver side: loading Vulkan through `ash`, creating, binding,
  mapping and destroying driver objects, recording commands and submitting
  them. It asks the library for every decision and hands it plain values.
- `tests/` runs the library on concrete values.
