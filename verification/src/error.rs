pub mod memory_error;
