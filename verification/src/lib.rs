pub mod text;
pub mod effects;
pub mod clock;
pub mod random;
pub mod gsi;
pub mod config;
pub mod runtime;
pub mod events;
pub mod assets;
pub mod audio;
pub mod overlay;
pub mod engine;
