pub mod camera;
pub mod component;
pub mod crc_utils;
pub mod geometry;
pub mod gl_blend_guard;
pub mod gl_buffer;
pub mod gl_enums;
pub mod gl_font;
pub mod gl_shader;
pub mod gl_shader_manager;
pub mod gl_texture;
pub mod gl_types;
pub mod gl_utils;
pub mod gl_vertex;
pub mod gl_vertex_array;
pub mod gl_vertex_attribute;
pub mod input;
pub mod mesh;
pub mod meshes;
pub mod opengl;
pub mod operation_status;
pub mod projection;
pub mod research;
pub mod sdl_window;
pub mod serialization;
pub mod str_map;
pub mod string_utils;
pub mod sys_event;
pub mod text;
pub mod unicode;
