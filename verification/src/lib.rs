//! Rendering of the TanStack Query bindings (query keys, queries,
//! mutation keys, mutations), the TanStack import and the events object
//! that accompany the generated JavaScript (JSDoc) and TypeScript clients.

pub mod text;
pub mod outside;
pub mod context;
pub mod lang;
pub mod jsdoc;
pub mod laws;
pub mod entry_laws;
