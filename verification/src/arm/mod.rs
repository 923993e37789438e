pub mod alu;
pub mod arm;
pub mod registers;
pub mod transfer;
pub mod thumb;
