pub mod cpu_bus;
pub mod laws;
