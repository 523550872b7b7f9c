pub mod clock;
pub mod laws;
pub mod process;
