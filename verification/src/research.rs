pub mod shader_program;
