use vstd::prelude::*;

use crate::block_type::BlockType;
use crate::fsm::block::BlockState;
use crate::resolved::ResolvedContent;

verus! {

/// Errores de la lógica de dominio: violaciones de invariantes de negocio,
/// no fallos de infraestructura.
#[derive(Debug, Clone, PartialEq)]
pub enum DomainError<C = ResolvedContent> {
    /// Evento no válido para el estado actual del autómata de bloque, que
    /// se devuelve con el error.
    TransicionInvalida { estado: BlockState<C> },
    /// El tipo de bloque no tiene estrategia de resolución asignada.
    SinEstrategia { tipo_bloque: BlockType },
    /// Configuración inválida detectada en el dominio.
    ConfiguracionInvalida { mensaje: String },
    /// Documento de entrada sin páginas.
    DocumentoVacio,
    /// Región con coordenadas inválidas.
    RegionInvalida { region_id: String, detalle: String },
    /// Evento no válido para el estado actual del autómata de página.
    TransicionInvalidaPagina { estado: String },
    /// Evento no válido para el estado actual del autómata de documento.
    TransicionInvalidaDocumento { estado: String },
    /// Error originado en la capa de infraestructura.
    Infraestructura(String),
}

} // verus!
