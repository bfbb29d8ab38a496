//! Servicios de dominio: reglas de negocio puras sobre las entidades.

pub mod confidence;
pub mod resolver_selection;
