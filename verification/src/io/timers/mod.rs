pub mod registers;
