//! The two client languages: JavaScript with JSDoc types, and TypeScript.

pub mod common;
pub mod definitions;
pub mod js;
pub mod ts;
