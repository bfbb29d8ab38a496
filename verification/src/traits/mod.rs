//! Tipos de datos asociados a los puertos del dominio.

pub mod composer;
pub mod model_provider;
