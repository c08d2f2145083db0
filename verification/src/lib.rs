//! Vertex buffers: the layout of the vertices held in a buffer object of the
//! graphics card, the types of vertex attributes, and the bookkeeping that goes
//! with a buffer (which part of it a read covers, which vertex array objects use it).
pub mod binding;
pub mod vertex_buffer;

pub use binding::{Attribute, BindingType};
pub use vertex_buffer::{
    fits_in_memory, get_bindings, get_elements_size, BufferUsage, VertexBindings, VertexBuffer,
    VertexBufferView, VertexFormat,
};
