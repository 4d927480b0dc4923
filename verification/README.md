# blazing_fast_engine

The verified core of a small Vulkan/winit game engine and its tile-map demo.

- `src/` is the library, verified with Verus:
  - `engine::application_context`: window settings (`ContextBuilder`), the registry
    of open windows (`ContextManager<C>`) and the dispatch of window events to
    actions; closing the last window ends the event loop.
  - `engine::context_builder`: the plain window-settings builder.
  - `engine::input`: key and mouse-button tracking (held, pressed this frame,
    released this frame) as a small state machine over key and button numbers.
  - `engine::sprite_batch`, `engine::vulkan_context`: the batch's capacity and
    texture-slot rules, the choice of physical device, and the frame start/end
    decisions around the swapchain.
  - `tilemap`: a row-major grid of tile ids and colours (colours as `f32` bit patterns).
  - `world`: the fixed layout of the demo world (border, house).
  - `entity`, `buffer`, `index_buffer`, `engine::sync`: small shared types.
- `app/` is the program: windowing (winit), rendering (vulkano), cameras (glam,
  floating point), image loading, noise terrain, entity serialisation (serde,
  bincode, typetag).
- `tests/` exercises the library on concrete values.
