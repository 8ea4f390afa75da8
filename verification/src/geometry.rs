pub mod buffer_geometry;
