use vstd::prelude::*;

use crate::block_type::BlockType;

verus! {

/// Estrategia con la que se resolvió un bloque.
#[derive(Debug, Clone, Copy, PartialEq, Eq, Structural)]
pub enum StrategyKind {
    PaddleOcr,
    SlaNetTable,
    RasterPreserve,
    Retry,
}

pub open spec fn estrategia_nombre_spec(s: StrategyKind) -> Seq<char> {
    match s {
        StrategyKind::PaddleOcr => "PaddleOcr"@,
        StrategyKind::SlaNetTable => "SlaNetTable"@,
        StrategyKind::RasterPreserve => "RasterPreserve"@,
        StrategyKind::Retry => "Retry"@,
    }
}

/// Estrategia que corresponde a cada clase de región: OCR para las
/// textuales, reconocimiento de tabla para las tablas y preservación raster
/// para el resto.
pub open spec fn estrategia_para_spec(t: BlockType) -> StrategyKind {
    if t.textual() {
        StrategyKind::PaddleOcr
    } else if t.tabla() {
        StrategyKind::SlaNetTable
    } else {
        StrategyKind::RasterPreserve
    }
}

/// Celdas de una tabla reconocida, fila a fila, con sus dimensiones.
#[derive(Debug, Clone, PartialEq)]
pub struct TableData {
    pub cells: Vec<Vec<String>>,
    pub filas: u32,
    pub columnas: u32,
}

/// Contenido que entrega un resolutor para un bloque.
#[derive(Debug, Clone, PartialEq)]
pub enum ResolvedContent {
    Text { texto: String },
    Table { datos: TableData },
    Raster { imagen_bytes: Vec<u8>, ancho: u32, alto: u32 },
}

impl StrategyKind {
    /// Nombre con que se muestra la estrategia.
    pub fn nombre(&self) -> (r: &'static str)
        ensures r@ == estrategia_nombre_spec(*self),
    {
        match self {
            StrategyKind::PaddleOcr => "PaddleOcr",
            StrategyKind::SlaNetTable => "SlaNetTable",
            StrategyKind::RasterPreserve => "RasterPreserve",
            StrategyKind::Retry => "Retry",
        }
    }

    /// Estrategia inicial para una región según su clase.
    pub fn para_bloque(tipo: BlockType) -> (r: StrategyKind)
        ensures
            r == estrategia_para_spec(tipo),
            r is PaddleOcr <==> (tipo is Text || tipo is Title || tipo is List || tipo is Caption),
            r is SlaNetTable <==> tipo is Table,
    {
        proof { ley_estrategia_por_clase(tipo); }
        if tipo.es_textual() {
            StrategyKind::PaddleOcr
        } else if tipo.es_tabla() {
            StrategyKind::SlaNetTable
        } else {
            StrategyKind::RasterPreserve
        }
    }
}

/// Estrategia inicial de cada clase: el OCR es exactamente para texto
/// corrido, títulos, listas y pies de figura; el reconocimiento de tablas
/// solo para tablas; toda otra clase se preserva como raster.
pub proof fn ley_estrategia_por_clase(t: BlockType)
    ensures
        estrategia_para_spec(t) is PaddleOcr <==> (t is Text || t is Title || t is List || t is Caption),
        estrategia_para_spec(t) is SlaNetTable <==> t is Table,
        estrategia_para_spec(t) is RasterPreserve
            <==> (t is Figure || t is Unknown || t is Header || t is Footer || t is PageNumber || t is Formula),
{
}

} // verus!
