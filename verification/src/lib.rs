//! Verified core of a keyboard-driven markdown viewer.
pub mod base64;
pub mod desktop;
pub mod document;
pub mod fonts;
pub mod keys;
pub mod text;
pub mod theme;
pub mod window;
