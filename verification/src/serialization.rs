pub mod vertex_attribute;
