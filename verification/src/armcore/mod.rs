pub mod registers;
pub mod thumb;
