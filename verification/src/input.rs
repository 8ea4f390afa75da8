pub mod mouse_adapter;
