use vstd::prelude::*;

verus! {

/// Clases de región que el detector de layout puede predecir.
#[derive(Debug, Clone, Copy, PartialEq, Eq, Hash, Structural)]
pub enum BlockType {
    Text,
    Title,
    Table,
    Figure,
    List,
    Header,
    Footer,
    PageNumber,
    Caption,
    Formula,
    Unknown,
}

/// Etiqueta en minúsculas con la que se muestra cada clase.
pub open spec fn etiqueta_spec(t: BlockType) -> Seq<char> {
    match t {
        BlockType::Text => "text"@,
        BlockType::Title => "title"@,
        BlockType::Table => "table"@,
        BlockType::Figure => "figure"@,
        BlockType::List => "list"@,
        BlockType::Header => "header"@,
        BlockType::Footer => "footer"@,
        BlockType::PageNumber => "page_number"@,
        BlockType::Caption => "caption"@,
        BlockType::Formula => "formula"@,
        BlockType::Unknown => "unknown"@,
    }
}

/// Nombre de la variante, como lo muestran las trazas de depuración.
pub open spec fn variante_spec(t: BlockType) -> Seq<char> {
    match t {
        BlockType::Text => "Text"@,
        BlockType::Title => "Title"@,
        BlockType::Table => "Table"@,
        BlockType::Figure => "Figure"@,
        BlockType::List => "List"@,
        BlockType::Header => "Header"@,
        BlockType::Footer => "Footer"@,
        BlockType::PageNumber => "PageNumber"@,
        BlockType::Caption => "Caption"@,
        BlockType::Formula => "Formula"@,
        BlockType::Unknown => "Unknown"@,
    }
}

impl BlockType {
    pub open spec fn textual(self) -> bool {
        self is Text || self is Title || self is List || self is Caption
    }

    pub open spec fn raster(self) -> bool {
        self is Figure || self is Unknown
    }

    pub open spec fn tabla(self) -> bool {
        self is Table
    }

    /// La región va al pipeline de OCR secuencial.
    pub fn es_textual(&self) -> (r: bool)
        ensures
            r == self.textual(),
            r <==> (*self is Text || *self is Title || *self is List || *self is Caption),
    {
        matches!(self, BlockType::Text | BlockType::Title | BlockType::List | BlockType::Caption)
    }

    /// La región carece de semántica textual y se conserva como píxeles.
    pub fn es_raster(&self) -> (r: bool)
        ensures r == self.raster(),
    {
        matches!(self, BlockType::Figure | BlockType::Unknown)
    }

    /// La región demanda reconocimiento estructural de tabla.
    pub fn es_tabla(&self) -> (r: bool)
        ensures r == self.tabla(),
    {
        matches!(self, BlockType::Table)
    }

    /// Nombre de la variante (`Text`, `PageNumber`, ...).
    pub fn variante(&self) -> (r: &'static str)
        ensures r@ == variante_spec(*self),
    {
        match self {
            BlockType::Text => "Text",
            BlockType::Title => "Title",
            BlockType::Table => "Table",
            BlockType::Figure => "Figure",
            BlockType::List => "List",
            BlockType::Header => "Header",
            BlockType::Footer => "Footer",
            BlockType::PageNumber => "PageNumber",
            BlockType::Caption => "Caption",
            BlockType::Formula => "Formula",
            BlockType::Unknown => "Unknown",
        }
    }

    /// Etiqueta textual de la clase (la forma en que se muestra).
    pub fn etiqueta(&self) -> (r: &'static str)
        ensures r@ == etiqueta_spec(*self),
    {
        match self {
            BlockType::Text => "text",
            BlockType::Title => "title",
            BlockType::Table => "table",
            BlockType::Figure => "figure",
            BlockType::List => "list",
            BlockType::Header => "header",
            BlockType::Footer => "footer",
            BlockType::PageNumber => "page_number",
            BlockType::Caption => "caption",
            BlockType::Formula => "formula",
            BlockType::Unknown => "unknown",
        }
    }
}

/// Las tres familias de estrategia son disjuntas: ninguna clase es a la vez
/// textual, raster o tabla.
pub proof fn ley_familias_disjuntas(t: BlockType)
    ensures
        !(t.textual() && t.raster()),
        !(t.textual() && t.tabla()),
        !(t.raster() && t.tabla()),
{
}

} // verus!
