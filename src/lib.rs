pub mod cpu;
pub mod instruction;
pub mod memory;
pub mod registers;
