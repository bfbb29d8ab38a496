use vstd::prelude::*;

verus! {

/// Artefacto requerido, tal como lo declara el manifiesto de modelos.
#[derive(Debug, Clone)]
pub struct ModelEntry {
    pub id: String,
    pub nombre: String,
    pub repo: String,
    pub path_repo: String,
    pub path_local: String,
    pub sha256: String,
    pub size_mb: u32,
}

/// Progreso de la descarga de un modelo.
#[derive(Debug, Clone)]
pub struct DownloadProgress {
    pub model_id: String,
    pub bytes_descargados: u64,
    pub bytes_totales: u64,
}

/// Estado de un modelo en disco.
#[derive(Debug, Clone, Copy, PartialEq, Eq, Structural)]
pub enum ModelStatus {
    /// Presente e íntegro.
    Valido,
    Faltante,
    Corrupto,
}

} // verus!
