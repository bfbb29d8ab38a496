//! Autómata jerárquico de tres niveles: documento, página y bloque.

pub mod document;
pub mod block;
pub mod page;
