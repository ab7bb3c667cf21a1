pub mod data;
pub mod error;
pub mod events;
pub mod imports;
pub mod info;
pub mod launcher;
pub mod level;
pub mod python3_original;
pub mod text;
