pub mod bits;
pub mod compare;
pub mod cursor;
pub mod float;
pub mod text;
pub mod vector;
