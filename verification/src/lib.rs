pub mod byte_source;
pub mod decimal;
pub mod decoder;
pub mod instruction;
pub mod registers;
