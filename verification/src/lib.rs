//! Thumbnail generation for files: request and response models, the rules
//! that decide how a thumbnail is produced, and the verified byte and string
//! logic behind them.

pub mod error;
pub mod hashing;
pub mod imaging;
pub mod media;
pub mod models;
pub mod pipeline;
pub mod plans;
pub mod pngtext;
pub mod runner;
pub mod text;
