pub mod control;
pub mod cpu;
pub mod cpu_instruction;
pub mod flag;
pub mod ld;
pub mod register;
