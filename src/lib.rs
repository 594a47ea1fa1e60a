pub mod text;
pub mod slices;
pub mod moves;
pub mod borrowing;
