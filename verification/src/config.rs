use vstd::prelude::*;

verus! {

/// Parámetros generales del pipeline.
#[derive(Debug, Clone)]
pub struct GeneralConfig {
    pub models_dir: String,
    pub log_level: String,
    /// Hilos del pool de cómputo; 0 deja que el pool elija según la máquina.
    pub num_threads: usize,
    /// Páginas rasterizadas que pueden estar en memoria a la vez.
    pub max_concurrent_pages: usize,
    /// Intentar aceleración por GPU antes de caer al procesador.
    pub use_gpu: bool,
}

/// Parámetros de la ingesta de documentos.
#[derive(Debug, Clone)]
pub struct InputConfig {
    pub rasterization_dpi: u32,
    pub supported_formats: Vec<String>,
}

impl GeneralConfig {
    /// Configuración general por defecto: modelos en `models`, registro en
    /// nivel `info`, hilos y páginas concurrentes a elección de la máquina y
    /// sin GPU.
    pub fn por_defecto() -> (r: Self)
        ensures
            r.models_dir@ == "models"@,
            r.log_level@ == "info"@,
            r.num_threads == 0,
            r.max_concurrent_pages == 0,
            !r.use_gpu,
    {
        GeneralConfig {
            models_dir: String::from_str("models"),
            log_level: String::from_str("info"),
            num_threads: 0,
            max_concurrent_pages: 0,
            use_gpu: false,
        }
    }
}

/// Formatos de entrada admitidos por defecto, en orden.
pub open spec fn formatos_por_defecto() -> Seq<Seq<char>> {
    seq!["pdf"@, "png"@, "jpg"@, "jpeg"@, "tiff"@, "webp"@]
}

impl InputConfig {
    /// Ingesta por defecto: PDF rasterizado a 300 DPI y los formatos de
    /// imagen habituales.
    pub fn por_defecto() -> (r: Self)
        ensures
            r.rasterization_dpi == 300,
            r.supported_formats@.map_values(|f: String| f@) == formatos_por_defecto(),
    {
        let mut formatos: Vec<String> = Vec::new();
        formatos.push(String::from_str("pdf"));
        formatos.push(String::from_str("png"));
        formatos.push(String::from_str("jpg"));
        formatos.push(String::from_str("jpeg"));
        formatos.push(String::from_str("tiff"));
        formatos.push(String::from_str("webp"));
        assert(formatos@.map_values(|f: String| f@) =~= formatos_por_defecto());
        InputConfig { rasterization_dpi: 300, supported_formats: formatos }
    }
}

} // verus!
