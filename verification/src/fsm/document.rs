use vstd::prelude::*;

use crate::error::DomainError;
use crate::texto::{agregar_decimal, agregar_str, cadena, cociente_redondeado, decimal, redondear_cociente};

verus! {

/// Progreso de una descarga de modelo, expuesto a la interfaz.
#[derive(Debug, Clone, PartialEq, Eq)]
pub struct DownloadProgress {
    pub modelo: String,
    pub bytes_descargados: u64,
    pub bytes_totales: u64,
}

/// Porcentaje descargado redondeado al entero más cercano (empates al par),
/// o 0 cuando el total aún no se conoce.
pub open spec fn porcentaje_spec(descargados: nat, totales: nat) -> nat {
    if totales == 0 {
        0
    } else {
        cociente_redondeado(100 * descargados, totales)
    }
}

impl DownloadProgress {
    /// Porcentaje descargado, redondeado como se muestra en pantalla.
    pub fn porcentaje(&self) -> (r: u128)
        ensures r == porcentaje_spec(self.bytes_descargados as nat, self.bytes_totales as nat),
    {
        if self.bytes_totales == 0 {
            return 0;
        }
        redondear_cociente(100u128 * (self.bytes_descargados as u128), self.bytes_totales as u128)
    }
}

/// Etapa de escritura de salidas en curso.
#[derive(Debug, Clone, Copy, PartialEq, Eq, Structural)]
pub enum OutputStage {
    Pdf,
    Txt,
    Json,
}

/// Nombre de la etapa tal como se muestra en las trazas.
pub open spec fn etapa_nombre_spec(e: OutputStage) -> Seq<char> {
    match e {
        OutputStage::Pdf => "Pdf"@,
        OutputStage::Txt => "Txt"@,
        OutputStage::Json => "Json"@,
    }
}

impl OutputStage {
    pub fn nombre(&self) -> (r: &'static str)
        ensures r@ == etapa_nombre_spec(*self),
    {
        match self {
            OutputStage::Pdf => "Pdf",
            OutputStage::Txt => "Txt",
            OutputStage::Json => "Json",
        }
    }
}

/// Estado raíz de la aplicación (nivel 1 del autómata jerárquico).
#[derive(Debug, Clone, PartialEq, Eq)]
pub enum DocumentState {
    Idle,
    CheckingModels,
    DownloadingModels { progreso: DownloadProgress },
    Validating { ruta_entrada: String },
    Processing { total_paginas: usize, paginas_completadas: usize },
    Generating { etapa: OutputStage },
    Complete,
    Error { error: String, puede_reintentar: bool },
}

pub open spec fn estado_nombre_spec(s: DocumentState) -> Seq<char> {
    match s {
        DocumentState::Idle => "Idle"@,
        DocumentState::CheckingModels => "CheckingModels"@,
        DocumentState::DownloadingModels { .. } => "DownloadingModels"@,
        DocumentState::Validating { .. } => "Validating"@,
        DocumentState::Processing { .. } => "Processing"@,
        DocumentState::Generating { .. } => "Generating"@,
        DocumentState::Complete => "Complete"@,
        DocumentState::Error { .. } => "Error"@,
    }
}

impl DocumentState {
    pub fn nombre(&self) -> (r: &'static str)
        ensures r@ == estado_nombre_spec(*self),
    {
        match self {
            DocumentState::Idle => "Idle",
            DocumentState::CheckingModels => "CheckingModels",
            DocumentState::DownloadingModels { .. } => "DownloadingModels",
            DocumentState::Validating { .. } => "Validating",
            DocumentState::Processing { .. } => "Processing",
            DocumentState::Generating { .. } => "Generating",
            DocumentState::Complete => "Complete",
            DocumentState::Error { .. } => "Error",
        }
    }
}

/// Sucesos internos o externos que hacen avanzar el autómata de documento.
#[derive(Debug)]
pub enum DocumentEvent {
    AppIniciada,
    ModelosListos,
    ModelosFaltantes { progreso: DownloadProgress },
    ProgresoDescarga(DownloadProgress),
    DescargaCompletada,
    DescargaFallida(String),
    ArchivoSeleccionado(String),
    EntradaValida { num_paginas: usize },
    EntradaInvalida(String),
    PaginaCompletada,
    TodasLasPaginasCompletadas,
    ErrorIrrecuperable(String),
    EtapaGeneracion(OutputStage),
    SalidasEscritas,
    EscrituraFallida(String),
    Reiniciar,
    Reintentar,
}

/// `prefijo(contenido)`.
pub open spec fn entre_parentesis(prefijo: Seq<char>, contenido: Seq<char>) -> Seq<char> {
    prefijo + "("@ + contenido + ")"@
}

pub open spec fn evento_nombre_spec(e: DocumentEvent) -> Seq<char> {
    match e {
        DocumentEvent::AppIniciada => "AppIniciada"@,
        DocumentEvent::ModelosListos => "ModelosListos"@,
        DocumentEvent::ModelosFaltantes { .. } => "ModelosFaltantes"@,
        DocumentEvent::ProgresoDescarga(p) => entre_parentesis(
            "ProgresoDescarga"@,
            p.modelo@ + ": "@ + decimal(porcentaje_spec(p.bytes_descargados as nat, p.bytes_totales as nat)) + "%"@,
        ),
        DocumentEvent::DescargaCompletada => "DescargaCompletada"@,
        DocumentEvent::DescargaFallida(e) => entre_parentesis("DescargaFallida"@, e@),
        DocumentEvent::ArchivoSeleccionado(p) => entre_parentesis("ArchivoSeleccionado"@, p@),
        DocumentEvent::EntradaValida { num_paginas } => entre_parentesis(
            "EntradaValida"@,
            decimal(num_paginas as nat) + " pags"@,
        ),
        DocumentEvent::EntradaInvalida(e) => entre_parentesis("EntradaInvalida"@, e@),
        DocumentEvent::PaginaCompletada => "PaginaCompletada"@,
        DocumentEvent::TodasLasPaginasCompletadas => "TodasLasPaginasCompletadas"@,
        DocumentEvent::ErrorIrrecuperable(e) => entre_parentesis("ErrorIrrecuperable"@, e@),
        DocumentEvent::EtapaGeneracion(e) => entre_parentesis("EtapaGeneracion"@, etapa_nombre_spec(e)),
        DocumentEvent::SalidasEscritas => "SalidasEscritas"@,
        DocumentEvent::EscrituraFallida(e) => entre_parentesis("EscrituraFallida"@, e@),
        DocumentEvent::Reiniciar => "Reiniciar"@,
        DocumentEvent::Reintentar => "Reintentar"@,
    }
}

fn con_parentesis(prefijo: &str, contenido: &str) -> (r: String)
    ensures r@ == entre_parentesis(prefijo@, contenido@),
{
    let mut v: Vec<char> = Vec::new();
    agregar_str(&mut v, prefijo);
    agregar_str(&mut v, "(");
    agregar_str(&mut v, contenido);
    agregar_str(&mut v, ")");
    assert(v@ =~= entre_parentesis(prefijo@, contenido@));
    cadena(&v)
}

impl DocumentEvent {
    /// Nombre legible del evento, con su dato principal entre paréntesis.
    pub fn nombre(&self) -> (r: String)
        ensures r@ == evento_nombre_spec(*self),
    {
        match self {
            DocumentEvent::AppIniciada => String::from_str("AppIniciada"),
            DocumentEvent::ModelosListos => String::from_str("ModelosListos"),
            DocumentEvent::ModelosFaltantes { .. } => String::from_str("ModelosFaltantes"),
            DocumentEvent::ProgresoDescarga(p) => {
                let mut v: Vec<char> = Vec::new();
                agregar_str(&mut v, "ProgresoDescarga(");
                agregar_str(&mut v, p.modelo.as_str());
                agregar_str(&mut v, ": ");
                agregar_decimal(&mut v, p.porcentaje());
                agregar_str(&mut v, "%)");
                proof {
                    reveal_strlit("ProgresoDescarga(");
                    reveal_strlit("ProgresoDescarga");
                    reveal_strlit("(");
                    reveal_strlit("%)");
                    reveal_strlit("%");
                    reveal_strlit(")");
                }
                assert(v@ =~= evento_nombre_spec(*self));
                cadena(&v)
            },
            DocumentEvent::DescargaCompletada => String::from_str("DescargaCompletada"),
            DocumentEvent::DescargaFallida(e) => con_parentesis("DescargaFallida", e.as_str()),
            DocumentEvent::ArchivoSeleccionado(p) => con_parentesis("ArchivoSeleccionado", p.as_str()),
            DocumentEvent::EntradaValida { num_paginas } => {
                let mut v: Vec<char> = Vec::new();
                agregar_str(&mut v, "EntradaValida(");
                agregar_decimal(&mut v, *num_paginas as u128);
                agregar_str(&mut v, " pags)");
                proof {
                    reveal_strlit("EntradaValida(");
                    reveal_strlit("EntradaValida");
                    reveal_strlit("(");
                    reveal_strlit(" pags)");
                    reveal_strlit(" pags");
                    reveal_strlit(")");
                }
                assert(v@ =~= evento_nombre_spec(*self));
                cadena(&v)
            },
            DocumentEvent::EntradaInvalida(e) => con_parentesis("EntradaInvalida", e.as_str()),
            DocumentEvent::PaginaCompletada => String::from_str("PaginaCompletada"),
            DocumentEvent::TodasLasPaginasCompletadas => String::from_str("TodasLasPaginasCompletadas"),
            DocumentEvent::ErrorIrrecuperable(e) => con_parentesis("ErrorIrrecuperable", e.as_str()),
            DocumentEvent::EtapaGeneracion(e) => con_parentesis("EtapaGeneracion", e.nombre()),
            DocumentEvent::SalidasEscritas => String::from_str("SalidasEscritas"),
            DocumentEvent::EscrituraFallida(e) => con_parentesis("EscrituraFallida", e.as_str()),
            DocumentEvent::Reiniciar => String::from_str("Reiniciar"),
            DocumentEvent::Reintentar => String::from_str("Reintentar"),
        }
    }
}

/// Tabla de transiciones del autómata de documento: el estado siguiente, o
/// `None` cuando el evento no es válido en ese estado.
pub open spec fn siguiente_documento(s: DocumentState, e: DocumentEvent) -> Option<DocumentState> {
    match (s, e) {
        (DocumentState::Idle, DocumentEvent::AppIniciada) => Some(DocumentState::CheckingModels),
        (DocumentState::CheckingModels, DocumentEvent::ModelosListos) => Some(DocumentState::Idle),
        (DocumentState::CheckingModels, DocumentEvent::ModelosFaltantes { progreso }) =>
            Some(DocumentState::DownloadingModels { progreso }),
        (DocumentState::DownloadingModels { .. }, DocumentEvent::ProgresoDescarga(progreso)) =>
            Some(DocumentState::DownloadingModels { progreso }),
        (DocumentState::DownloadingModels { .. }, DocumentEvent::DescargaCompletada) =>
            Some(DocumentState::Idle),
        (DocumentState::DownloadingModels { .. }, DocumentEvent::DescargaFallida(error)) =>
            Some(DocumentState::Error { error, puede_reintentar: true }),
        (DocumentState::Idle, DocumentEvent::ArchivoSeleccionado(ruta)) =>
            Some(DocumentState::Validating { ruta_entrada: ruta }),
        (DocumentState::Validating { .. }, DocumentEvent::EntradaValida { num_paginas }) =>
            Some(DocumentState::Processing { total_paginas: num_paginas, paginas_completadas: 0 }),
        (DocumentState::Validating { .. }, DocumentEvent::EntradaInvalida(error)) =>
            Some(DocumentState::Error { error, puede_reintentar: false }),
        (DocumentState::Processing { total_paginas, paginas_completadas }, DocumentEvent::PaginaCompletada) =>
            Some(DocumentState::Processing {
                total_paginas,
                paginas_completadas: (paginas_completadas + 1) as usize,
            }),
        (DocumentState::Processing { .. }, DocumentEvent::TodasLasPaginasCompletadas) =>
            Some(DocumentState::Generating { etapa: OutputStage::Pdf }),
        (DocumentState::Processing { .. }, DocumentEvent::ErrorIrrecuperable(error)) =>
            Some(DocumentState::Error { error, puede_reintentar: false }),
        (DocumentState::Generating { .. }, DocumentEvent::EtapaGeneracion(etapa)) =>
            Some(DocumentState::Generating { etapa }),
        (DocumentState::Generating { .. }, DocumentEvent::SalidasEscritas) => Some(DocumentState::Complete),
        (DocumentState::Generating { .. }, DocumentEvent::EscrituraFallida(error)) =>
            Some(DocumentState::Error { error, puede_reintentar: false }),
        (DocumentState::Complete, DocumentEvent::Reiniciar) => Some(DocumentState::Idle),
        (DocumentState::Error { .. }, DocumentEvent::Reiniciar) => Some(DocumentState::Idle),
        (DocumentState::Error { puede_reintentar: true, .. }, DocumentEvent::Reintentar) =>
            Some(DocumentState::CheckingModels),
        _ => None,
    }
}

/// El único caso en que avanzar el autómata desbordaría un contador.
pub open spec fn desborda_contador(s: DocumentState, e: DocumentEvent) -> bool {
    &&& s matches DocumentState::Processing { paginas_completadas, .. }
    &&& paginas_completadas == usize::MAX
    &&& e is PaginaCompletada
}

/// Resuelve el estado siguiente del procesamiento a partir del evento.
///
/// Devuelve `TransicionInvalidaDocumento` con el nombre del estado actual
/// cuando el evento no es válido en ese estado.
pub fn transition(estado: &DocumentState, evento: DocumentEvent) -> (r: Result<DocumentState, DomainError>)
    requires
        !desborda_contador(*estado, evento),
    ensures
        r is Ok <==> siguiente_documento(*estado, evento) is Some,
        r matches Ok(n) ==> siguiente_documento(*estado, evento) == Some(n),
        r matches Err(err) ==> (err matches DomainError::TransicionInvalidaDocumento { estado: nom }
            && nom@ == estado_nombre_spec(*estado)),
        (*estado is Complete && !(evento is Reiniciar)) ==> r is Err,
        (evento is Reintentar && !(*estado matches DocumentState::Error { puede_reintentar: true, .. })) ==> r is Err,
{
    match (estado, evento) {
        (DocumentState::Idle, DocumentEvent::AppIniciada) => Ok(DocumentState::CheckingModels),
        (DocumentState::CheckingModels, DocumentEvent::ModelosListos) => Ok(DocumentState::Idle),
        (DocumentState::CheckingModels, DocumentEvent::ModelosFaltantes { progreso }) => {
            Ok(DocumentState::DownloadingModels { progreso })
        },
        (DocumentState::DownloadingModels { .. }, DocumentEvent::ProgresoDescarga(progreso)) => {
            Ok(DocumentState::DownloadingModels { progreso })
        },
        (DocumentState::DownloadingModels { .. }, DocumentEvent::DescargaCompletada) => {
            Ok(DocumentState::Idle)
        },
        (DocumentState::DownloadingModels { .. }, DocumentEvent::DescargaFallida(error)) => {
            Ok(DocumentState::Error { error, puede_reintentar: true })
        },
        (DocumentState::Idle, DocumentEvent::ArchivoSeleccionado(ruta)) => {
            Ok(DocumentState::Validating { ruta_entrada: ruta })
        },
        (DocumentState::Validating { .. }, DocumentEvent::EntradaValida { num_paginas }) => {
            Ok(DocumentState::Processing { total_paginas: num_paginas, paginas_completadas: 0 })
        },
        (DocumentState::Validating { .. }, DocumentEvent::EntradaInvalida(error)) => {
            Ok(DocumentState::Error { error, puede_reintentar: false })
        },
        (
            DocumentState::Processing { total_paginas, paginas_completadas },
            DocumentEvent::PaginaCompletada,
        ) => Ok(DocumentState::Processing {
            total_paginas: *total_paginas,
            paginas_completadas: paginas_completadas + 1,
        }),
        (DocumentState::Processing { .. }, DocumentEvent::TodasLasPaginasCompletadas) => {
            Ok(DocumentState::Generating { etapa: OutputStage::Pdf })
        },
        (DocumentState::Processing { .. }, DocumentEvent::ErrorIrrecuperable(error)) => {
            Ok(DocumentState::Error { error, puede_reintentar: false })
        },
        (DocumentState::Generating { .. }, DocumentEvent::EtapaGeneracion(etapa)) => {
            Ok(DocumentState::Generating { etapa })
        },
        (DocumentState::Generating { .. }, DocumentEvent::SalidasEscritas) => {
            Ok(DocumentState::Complete)
        },
        (DocumentState::Generating { .. }, DocumentEvent::EscrituraFallida(error)) => {
            Ok(DocumentState::Error { error, puede_reintentar: false })
        },
        (DocumentState::Complete, DocumentEvent::Reiniciar) => Ok(DocumentState::Idle),
        (DocumentState::Error { .. }, DocumentEvent::Reiniciar) => Ok(DocumentState::Idle),
        (DocumentState::Error { puede_reintentar: true, .. }, DocumentEvent::Reintentar) => {
            Ok(DocumentState::CheckingModels)
        },
        (estado, _) => Err(DomainError::TransicionInvalidaDocumento {
            estado: String::from_str(estado.nombre()),
        }),
    }
}

/// Aplica una secuencia de eventos desde `s`; `None` si alguno es rechazado.
pub open spec fn aplicar_documento(s: DocumentState, eventos: Seq<DocumentEvent>) -> Option<DocumentState>
    decreases eventos.len(),
{
    if eventos.len() == 0 {
        Some(s)
    } else {
        match siguiente_documento(s, eventos[0]) {
            Some(n) => aplicar_documento(n, eventos.drop_first()),
            None => None,
        }
    }
}

/// `Reiniciar` se acepta exactamente en `Complete` y en `Error`, y siempre
/// devuelve el autómata a `Idle`.
pub proof fn ley_reiniciar(s: DocumentState)
    ensures
        siguiente_documento(s, DocumentEvent::Reiniciar) is Some <==> (s is Complete || s is Error),
        (s is Complete || s is Error) ==> siguiente_documento(s, DocumentEvent::Reiniciar)
            == Some(DocumentState::Idle),
{
}

/// `Reintentar` solo se acepta en un error marcado como reintentable, y lleva
/// a verificar de nuevo los modelos.
pub proof fn ley_reintentar(s: DocumentState)
    ensures
        siguiente_documento(s, DocumentEvent::Reintentar) is Some
            <==> (s matches DocumentState::Error { puede_reintentar, .. } && puede_reintentar),
        siguiente_documento(s, DocumentEvent::Reintentar) is Some
            ==> siguiente_documento(s, DocumentEvent::Reintentar) == Some(DocumentState::CheckingModels),
{
}

/// Solo un fallo de descarga produce un error reintentable; toda otra
/// transición a `Error` lo marca como no reintentable.
pub proof fn ley_solo_descarga_reintentable(s: DocumentState, e: DocumentEvent)
    ensures
        (siguiente_documento(s, e) matches Some(DocumentState::Error { puede_reintentar, .. })
            && puede_reintentar) ==> (s is DownloadingModels && e is DescargaFallida),
{
}

/// Desde cualquier estado se puede volver a `Idle` con a lo sumo dos eventos.
pub proof fn ley_recuperable(s: DocumentState)
    ensures
        exists|eventos: Seq<DocumentEvent>|
            eventos.len() <= 2 && #[trigger] aplicar_documento(s, eventos) == Some(DocumentState::Idle),
{
    reveal_with_fuel(aplicar_documento, 3);
    let vacio = Seq::<DocumentEvent>::empty();
    let motivo: String = arbitrary();
    match s {
        DocumentState::Idle => {
            assert(aplicar_documento(s, vacio) == Some(DocumentState::Idle));
        },
        DocumentState::CheckingModels => {
            let ev = seq![DocumentEvent::ModelosListos];
            assert(ev.drop_first() =~= vacio);
            assert(aplicar_documento(s, ev) == Some(DocumentState::Idle));
        },
        DocumentState::DownloadingModels { .. } => {
            let ev = seq![DocumentEvent::DescargaCompletada];
            assert(ev.drop_first() =~= vacio);
            assert(aplicar_documento(s, ev) == Some(DocumentState::Idle));
        },
        DocumentState::Validating { .. } => {
            let ev = seq![DocumentEvent::EntradaInvalida(motivo), DocumentEvent::Reiniciar];
            assert(ev.drop_first().drop_first() =~= vacio);
            assert(aplicar_documento(s, ev) == Some(DocumentState::Idle));
        },
        DocumentState::Processing { .. } => {
            let ev = seq![DocumentEvent::ErrorIrrecuperable(motivo), DocumentEvent::Reiniciar];
            assert(ev.drop_first().drop_first() =~= vacio);
            assert(aplicar_documento(s, ev) == Some(DocumentState::Idle));
        },
        DocumentState::Generating { .. } => {
            let ev = seq![DocumentEvent::EscrituraFallida(motivo), DocumentEvent::Reiniciar];
            assert(ev.drop_first().drop_first() =~= vacio);
            assert(aplicar_documento(s, ev) == Some(DocumentState::Idle));
        },
        DocumentState::Complete | DocumentState::Error { .. } => {
            let ev = seq![DocumentEvent::Reiniciar];
            assert(ev.drop_first() =~= vacio);
            assert(aplicar_documento(s, ev) == Some(DocumentState::Idle));
        },
    }
}

/// Durante el procesamiento, `n` eventos `PaginaCompletada` suman `n` al
/// contador de páginas completadas y no alteran el total.
pub proof fn ley_contador_paginas(total: usize, completadas: usize, n: nat)
    requires
        completadas + n <= usize::MAX,
    ensures
        aplicar_documento(
            DocumentState::Processing { total_paginas: total, paginas_completadas: completadas },
            Seq::new(n, |i: int| DocumentEvent::PaginaCompletada),
        ) == Some(DocumentState::Processing {
            total_paginas: total,
            paginas_completadas: (completadas + n) as usize,
        }),
    decreases n,
{
    let eventos = Seq::new(n, |i: int| DocumentEvent::PaginaCompletada);
    if n > 0 {
        let resto = Seq::new((n - 1) as nat, |i: int| DocumentEvent::PaginaCompletada);
        assert(eventos.drop_first() =~= resto);
        ley_contador_paginas(total, (completadas + 1) as usize, (n - 1) as nat);
    }
}

} // verus!
