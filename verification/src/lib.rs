//! Núcleo verificado del reconstructor de documentos: clasificación de
//! bloques, autómatas de documento, página y bloque, heurísticas de calidad
//! y la lógica pura de los adaptadores de infraestructura.

pub mod block_type;
pub mod texto;
pub mod error;
pub mod fsm;
pub mod resolved;
pub mod services;
pub mod eval;
pub mod report;
pub mod traits;
pub mod config;
pub mod document;
pub mod infra;
pub mod orchestrator;
pub mod etapas;
pub mod metricas;

