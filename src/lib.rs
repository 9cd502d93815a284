pub mod go;
pub mod summon;
pub mod table;
pub mod laws;
