pub mod bus;
pub mod e_ram;
pub mod echo_ram;
pub mod h_ram;
pub mod interrupt;
pub mod io;
pub mod memory_bus;
pub mod not_usable;
pub mod oam;
pub mod rom;
pub mod v_ram;
pub mod w_ram;
