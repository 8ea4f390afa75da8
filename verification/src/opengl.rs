pub mod vertex_attribute;
pub mod vertex_layout;
pub mod vertex_array_object;
pub mod buffer_object;
pub mod texture;
pub mod texture_builder;
pub mod texture_manager;
pub mod shader;
pub mod shader_uniform_matrix;
pub mod shader_uniform_value;
pub mod blend_guard;
