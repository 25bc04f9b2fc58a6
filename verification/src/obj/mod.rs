pub mod line;
pub mod load;
pub mod mtl;
pub mod parse;
pub mod text;
pub mod write;
