# rendering_project

The verified core of a small Vulkan renderer, and of the reader it uses for the Vulkan registry
(`vk.xml`).

`src/` is checked by Verus:

- `xml_parser`: a tokeniser and an XML reader for the registry, with the reader's error messages;
- `registry` and `format_parser`: reading the registry's root element and its formats section,
  the attributes of a format, and the text of the generated enums;
- `renderer`: the renderer's errors and the translation of what Vulkan reports about devices and
  surfaces into plain values, the layers and extensions the instance is set up with, the choice of
  the physical device and its queue families, the queues of the logical device, and the choice of
  the swapchain's format and presentation mode;
- `string_handler`: building strings, and the checks that turn texts into C strings.

`app/` holds what talks to the outside world: reading files, the Vulkan and GLFW calls, the window,
and the debug messenger. It hands the library plain values and acts on what the library decides.

`tests/` runs the library on concrete values.
