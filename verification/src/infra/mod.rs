//! Lógica pura de los adaptadores de infraestructura.

pub mod fallback;
pub mod layout;
pub mod error;
pub mod provider;
pub mod output;
pub mod table;
pub mod manifest;
pub mod threading;
pub mod input;
pub mod composer;
pub mod orientacion;
pub mod orientacion_lineas;
pub mod ocr;
