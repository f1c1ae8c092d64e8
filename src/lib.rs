pub mod cursor;
pub mod decoder;
pub mod instruction;
pub mod model;
pub mod properties;
pub mod registers;
