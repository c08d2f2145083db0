# glium vertex buffers

A verified library (Verus) for the vertex buffers of an OpenGL wrapper:

- `src/binding.rs`: `BindingType`, the types of vertex attributes, and the
  `Attribute` trait with its impls for the integer scalars and their tuples and
  arrays; each impl states the binding type it returns and its byte size.
- `src/vertex_buffer.rs`: `VertexBuffer<T>`, the description of a buffer object
  (name, element count, usage, vertex layout, vertex size), which part of the
  buffer a read of elements covers, and which vertex array objects use a buffer.
- `app/`: the calls into the graphics driver (through the `gl` crate) that
  create, fill, read and map buffer objects, and the `f32` attributes.
