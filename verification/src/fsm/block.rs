use vstd::prelude::*;

use crate::error::DomainError;
use crate::resolved::{estrategia_nombre_spec, StrategyKind};
use crate::texto::{agregar_dos_decimales, agregar_str, cadena, dos_decimales};

verus! {

/// Estado de la resolución de una región (nivel 3 del autómata).
///
/// `C` es el contenido que entrega el resolutor; el autómata lo transporta
/// sin inspeccionarlo. Las confianzas se expresan en millonésimas
/// (`1_000_000` equivale a certeza total).
#[derive(Debug, Clone, PartialEq)]
pub enum BlockState<C> {
    Detected,
    Resolving { estrategia: StrategyKind },
    LowConfidence { resultado: Box<C>, confianza: u32, retries_restantes: u32 },
    Resolved { contenido: Box<C>, confianza: u32, estrategia: StrategyKind },
    StrategyError { error: String, puede_fallback: bool },
    Fallback { crop_bytes: Vec<u8> },
    /// Región descartada sin abortar la composición del resto del documento.
    Unresolvable { razon: String },
    Composed,
}

pub open spec fn bloque_nombre_spec<C>(s: BlockState<C>) -> Seq<char> {
    match s {
        BlockState::Detected => "Detected"@,
        BlockState::Resolving { .. } => "Resolving"@,
        BlockState::LowConfidence { .. } => "LowConfidence"@,
        BlockState::Resolved { .. } => "Resolved"@,
        BlockState::StrategyError { .. } => "StrategyError"@,
        BlockState::Fallback { .. } => "Fallback"@,
        BlockState::Unresolvable { .. } => "Unresolvable"@,
        BlockState::Composed => "Composed"@,
    }
}

impl<C> BlockState<C> {
    pub open spec fn terminal(&self) -> bool {
        self is Composed || self is Unresolvable
    }

    /// Un bloque compuesto o irresoluble ya no admite eventos.
    pub fn es_terminal(&self) -> (r: bool)
        ensures r == self.terminal(),
    {
        matches!(self, BlockState::Composed | BlockState::Unresolvable { .. })
    }

    pub fn nombre(&self) -> (r: &'static str)
        ensures r@ == bloque_nombre_spec(*self),
    {
        match self {
            BlockState::Detected => "Detected",
            BlockState::Resolving { .. } => "Resolving",
            BlockState::LowConfidence { .. } => "LowConfidence",
            BlockState::Resolved { .. } => "Resolved",
            BlockState::StrategyError { .. } => "StrategyError",
            BlockState::Fallback { .. } => "Fallback",
            BlockState::Unresolvable { .. } => "Unresolvable",
            BlockState::Composed => "Composed",
        }
    }
}

/// Sucesos del motor de inferencia o del orquestador sobre una región.
#[derive(Debug)]
pub enum BlockEvent<C> {
    EstrategiaSeleccionada(StrategyKind),
    InferenciaOk { contenido: C, confianza: u32 },
    InferenciaFallida(String),
    ReintentoOk { contenido: C, confianza: u32 },
    ReintentoFallido,
    AplicarFallback { crop_bytes: Vec<u8> },
    CropFallido,
    Compuesto,
}

pub open spec fn bloque_evento_nombre_spec<C>(e: BlockEvent<C>) -> Seq<char> {
    match e {
        BlockEvent::EstrategiaSeleccionada(s) => "EstrategiaSeleccionada("@ + estrategia_nombre_spec(s) + ")"@,
        BlockEvent::InferenciaOk { confianza, .. } => "InferenciaOk(conf="@ + dos_decimales(confianza as nat) + ")"@,
        BlockEvent::InferenciaFallida(e) => "InferenciaFallida("@ + e@ + ")"@,
        BlockEvent::ReintentoOk { confianza, .. } => "ReintentoOk(conf="@ + dos_decimales(confianza as nat) + ")"@,
        BlockEvent::ReintentoFallido => "ReintentoFallido"@,
        BlockEvent::AplicarFallback { .. } => "AplicarFallback"@,
        BlockEvent::CropFallido => "CropFallido"@,
        BlockEvent::Compuesto => "Compuesto"@,
    }
}

fn nombre_compuesto(prefijo: &str, centro: &str) -> (r: String)
    ensures r@ == prefijo@ + centro@ + ")"@,
{
    let mut v: Vec<char> = Vec::new();
    agregar_str(&mut v, prefijo);
    agregar_str(&mut v, centro);
    agregar_str(&mut v, ")");
    assert(v@ =~= prefijo@ + centro@ + ")"@);
    cadena(&v)
}

fn nombre_con_confianza(prefijo: &str, confianza: u32) -> (r: String)
    ensures r@ == prefijo@ + dos_decimales(confianza as nat) + ")"@,
{
    let mut v: Vec<char> = Vec::new();
    agregar_str(&mut v, prefijo);
    agregar_dos_decimales(&mut v, confianza);
    agregar_str(&mut v, ")");
    assert(v@ =~= prefijo@ + dos_decimales(confianza as nat) + ")"@);
    cadena(&v)
}

impl<C> BlockEvent<C> {
    /// Nombre legible del evento para la traza de auditoría.
    pub fn nombre(&self) -> (r: String)
        ensures r@ == bloque_evento_nombre_spec(*self),
    {
        match self {
            BlockEvent::EstrategiaSeleccionada(s) => nombre_compuesto("EstrategiaSeleccionada(", s.nombre()),
            BlockEvent::InferenciaOk { confianza, .. } => nombre_con_confianza("InferenciaOk(conf=", *confianza),
            BlockEvent::InferenciaFallida(e) => nombre_compuesto("InferenciaFallida(", e.as_str()),
            BlockEvent::ReintentoOk { confianza, .. } => nombre_con_confianza("ReintentoOk(conf=", *confianza),
            BlockEvent::ReintentoFallido => String::from_str("ReintentoFallido"),
            BlockEvent::AplicarFallback { .. } => String::from_str("AplicarFallback"),
            BlockEvent::CropFallido => String::from_str("CropFallido"),
            BlockEvent::Compuesto => String::from_str("Compuesto"),
        }
    }
}

pub open spec fn motivo_reintento_fallido() -> Seq<char> {
    "Reintento fallido: confianza insuficiente tras retry"@
}

pub open spec fn motivo_reintento_insuficiente() -> Seq<char> {
    "Reintento completado pero confianza sigue por debajo del threshold"@
}

pub open spec fn motivo_irrecuperable() -> Seq<char> {
    "Error en estrategia y crop fallido: bloque irrecuperable"@
}

/// Pares (estado, evento) que el autómata de bloque acepta.
pub open spec fn acepta_bloque<C>(s: BlockState<C>, e: BlockEvent<C>) -> bool {
    match (s, e) {
        (BlockState::Detected, BlockEvent::EstrategiaSeleccionada(_)) => true,
        (BlockState::Resolving { .. }, BlockEvent::InferenciaOk { .. }) => true,
        (BlockState::Resolving { .. }, BlockEvent::InferenciaFallida(_)) => true,
        (BlockState::LowConfidence { .. }, BlockEvent::ReintentoOk { .. }) => true,
        (BlockState::LowConfidence { .. }, BlockEvent::ReintentoFallido) => true,
        (BlockState::StrategyError { puede_fallback, .. }, BlockEvent::AplicarFallback { .. }) => puede_fallback,
        (BlockState::StrategyError { .. }, BlockEvent::CropFallido) => true,
        (BlockState::Resolved { .. }, BlockEvent::Compuesto) => true,
        (BlockState::Fallback { .. }, BlockEvent::Compuesto) => true,
        _ => false,
    }
}

/// `n` es el estado al que lleva el evento `e` desde `s` con el umbral dado.
pub open spec fn siguiente_bloque<C>(s: BlockState<C>, e: BlockEvent<C>, umbral: u32, n: BlockState<C>) -> bool {
    match (s, e) {
        (BlockState::Detected, BlockEvent::EstrategiaSeleccionada(estrategia)) =>
            n == BlockState::<C>::Resolving { estrategia },
        (BlockState::Resolving { estrategia }, BlockEvent::InferenciaOk { contenido, confianza }) =>
            if confianza >= umbral {
                n == BlockState::Resolved { contenido: Box::new(contenido), confianza, estrategia }
            } else {
                n == BlockState::LowConfidence { resultado: Box::new(contenido), confianza, retries_restantes: 1 }
            },
        (BlockState::Resolving { .. }, BlockEvent::InferenciaFallida(error)) =>
            n == BlockState::<C>::StrategyError { error, puede_fallback: true },
        (BlockState::LowConfidence { .. }, BlockEvent::ReintentoOk { contenido, confianza }) =>
            if confianza >= umbral {
                n == BlockState::Resolved { contenido: Box::new(contenido), confianza, estrategia: StrategyKind::Retry }
            } else {
                n matches BlockState::StrategyError { error, puede_fallback }
                    && puede_fallback && error@ == motivo_reintento_insuficiente()
            },
        (BlockState::LowConfidence { .. }, BlockEvent::ReintentoFallido) =>
            n matches BlockState::StrategyError { error, puede_fallback }
                && puede_fallback && error@ == motivo_reintento_fallido(),
        (BlockState::StrategyError { puede_fallback: true, .. }, BlockEvent::AplicarFallback { crop_bytes }) =>
            n == BlockState::<C>::Fallback { crop_bytes },
        (BlockState::StrategyError { .. }, BlockEvent::CropFallido) =>
            n matches BlockState::Unresolvable { razon } && razon@ == motivo_irrecuperable(),
        (BlockState::Resolved { .. }, BlockEvent::Compuesto) => n is Composed,
        (BlockState::Fallback { .. }, BlockEvent::Compuesto) => n is Composed,
        _ => false,
    }
}

/// Hace avanzar el ciclo de vida de una región con el evento dado.
///
/// `umbral` es la confianza mínima (en millonésimas) para aceptar una
/// inferencia. Si el evento no es válido en ese estado, devuelve
/// `TransicionInvalida` con el estado recibido, sin cambios (el estado se
/// recibe por valor para poder devolverlo tal cual).
pub fn transition<C>(estado: BlockState<C>, evento: BlockEvent<C>, umbral: u32) -> (r: Result<BlockState<C>, DomainError<C>>)
    ensures
        r is Ok <==> acepta_bloque(estado, evento),
        r matches Ok(n) ==> siguiente_bloque(estado, evento, umbral, n),
        !acepta_bloque(estado, evento)
            ==> r == Err::<BlockState<C>, DomainError<C>>(DomainError::TransicionInvalida { estado }),
        estado.terminal() ==> r is Err,
{
    match (estado, evento) {
        (BlockState::Detected, BlockEvent::EstrategiaSeleccionada(estrategia)) => {
            Ok(BlockState::Resolving { estrategia })
        },
        (BlockState::Resolving { estrategia }, BlockEvent::InferenciaOk { contenido, confianza }) => {
            if confianza >= umbral {
                Ok(BlockState::Resolved { contenido: Box::new(contenido), confianza, estrategia })
            } else {
                Ok(BlockState::LowConfidence { resultado: Box::new(contenido), confianza, retries_restantes: 1 })
            }
        },
        (BlockState::Resolving { .. }, BlockEvent::InferenciaFallida(error)) => {
            Ok(BlockState::StrategyError { error, puede_fallback: true })
        },
        (BlockState::LowConfidence { .. }, BlockEvent::ReintentoOk { contenido, confianza }) => {
            if confianza >= umbral {
                Ok(BlockState::Resolved { contenido: Box::new(contenido), confianza, estrategia: StrategyKind::Retry })
            } else {
                Ok(BlockState::StrategyError {
                    error: String::from_str("Reintento completado pero confianza sigue por debajo del threshold"),
                    puede_fallback: true,
                })
            }
        },
        (BlockState::LowConfidence { .. }, BlockEvent::ReintentoFallido) => {
            Ok(BlockState::StrategyError {
                error: String::from_str("Reintento fallido: confianza insuficiente tras retry"),
                puede_fallback: true,
            })
        },
        (BlockState::StrategyError { puede_fallback: true, .. }, BlockEvent::AplicarFallback { crop_bytes }) => {
            Ok(BlockState::Fallback { crop_bytes })
        },
        (BlockState::StrategyError { .. }, BlockEvent::CropFallido) => {
            Ok(BlockState::Unresolvable {
                razon: String::from_str("Error en estrategia y crop fallido: bloque irrecuperable"),
            })
        },
        (BlockState::Resolved { .. }, BlockEvent::Compuesto) => Ok(BlockState::Composed),
        (BlockState::Fallback { .. }, BlockEvent::Compuesto) => Ok(BlockState::Composed),
        (estado, _) => Err(DomainError::TransicionInvalida { estado }),
    }
}

/// Un bloque compuesto o irresoluble no acepta ningún evento más.
pub proof fn ley_terminal_definitivo<C>(s: BlockState<C>, e: BlockEvent<C>)
    requires s.terminal(),
    ensures !acepta_bloque(s, e),
{
}

/// Todo estado no terminal acepta algún evento: el autómata solo se detiene
/// en `Composed` o `Unresolvable`.
pub proof fn ley_sin_bloqueo<C>(s: BlockState<C>)
    requires !s.terminal(),
    ensures exists|e: BlockEvent<C>| #[trigger] acepta_bloque(s, e),
{
    match s {
        BlockState::Detected => {
            assert(acepta_bloque(s, BlockEvent::<C>::EstrategiaSeleccionada(StrategyKind::PaddleOcr)));
        },
        BlockState::Resolving { .. } => {
            assert(acepta_bloque(s, BlockEvent::<C>::InferenciaFallida(arbitrary())));
        },
        BlockState::LowConfidence { .. } => {
            assert(acepta_bloque(s, BlockEvent::<C>::ReintentoFallido));
        },
        BlockState::StrategyError { .. } => {
            assert(acepta_bloque(s, BlockEvent::<C>::CropFallido));
        },
        BlockState::Resolved { .. } | BlockState::Fallback { .. } => {
            assert(acepta_bloque(s, BlockEvent::<C>::Compuesto));
        },
        _ => {},
    }
}

/// Un bloque solo queda `Resolved` con una confianza que alcanza el umbral,
/// y solo pasa a `LowConfidence` con una que no lo alcanza.
pub proof fn ley_umbral<C>(s: BlockState<C>, e: BlockEvent<C>, umbral: u32, n: BlockState<C>)
    requires siguiente_bloque(s, e, umbral, n),
    ensures
        n matches BlockState::Resolved { confianza, .. } ==> confianza >= umbral,
        n matches BlockState::LowConfidence { confianza, .. } ==> confianza < umbral,
{
}

/// Tras un error de estrategia con fallback permitido, aplicar el recorte y
/// componer deja siempre el bloque compuesto con ese recorte conservado en el
/// paso intermedio.
pub proof fn ley_fallback_compone<C>(error: String, crop: Vec<u8>, umbral: u32, m: BlockState<C>, n: BlockState<C>)
    requires
        siguiente_bloque(
            (BlockState::<C>::StrategyError { error, puede_fallback: true }),
            (BlockEvent::<C>::AplicarFallback { crop_bytes: crop }),
            umbral,
            m,
        ),
        siguiente_bloque(m, BlockEvent::<C>::Compuesto, umbral, n),
    ensures
        m == (BlockState::<C>::Fallback { crop_bytes: crop }),
        n is Composed,
{
}

} // verus!
