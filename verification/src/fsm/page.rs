use vstd::prelude::*;

use crate::error::DomainError;
use crate::fsm::block::BlockState;
use crate::texto::{agregar_decimal, agregar_entero, agregar_str, cadena, decimal, entero};

verus! {

/// Estado del procesamiento de una página (nivel 2 del autómata): impone el
/// orden orientación, layout, resolución de bloques y composición.
#[derive(Debug, Clone, PartialEq, Eq)]
pub enum PageState {
    Pending,
    Orienting,
    /// La página sigue en el pipeline aunque falló la corrección de
    /// orientación (degradación segura).
    Degraded { razon: String },
    DetectingLayout,
    /// Punto de sincronización de los autómatas de bloque de la página.
    ResolvingBlocks { total_bloques: usize, bloques_terminados: usize },
    Composing,
    Done,
    Error { razon: String },
}

pub open spec fn pagina_nombre_spec(s: PageState) -> Seq<char> {
    match s {
        PageState::Pending => "Pending"@,
        PageState::Orienting => "Orienting"@,
        PageState::Degraded { .. } => "Degraded"@,
        PageState::DetectingLayout => "DetectingLayout"@,
        PageState::ResolvingBlocks { .. } => "ResolvingBlocks"@,
        PageState::Composing => "Composing"@,
        PageState::Done => "Done"@,
        PageState::Error { .. } => "Error"@,
    }
}

impl PageState {
    pub open spec fn terminal(&self) -> bool {
        self is Done || self is Error
    }

    /// Una página terminada o en error ya no admite eventos.
    pub fn es_terminal(&self) -> (r: bool)
        ensures r == self.terminal(),
    {
        matches!(self, PageState::Done | PageState::Error { .. })
    }

    pub fn nombre(&self) -> (r: &'static str)
        ensures r@ == pagina_nombre_spec(*self),
    {
        match self {
            PageState::Pending => "Pending",
            PageState::Orienting => "Orienting",
            PageState::Degraded { .. } => "Degraded",
            PageState::DetectingLayout => "DetectingLayout",
            PageState::ResolvingBlocks { .. } => "ResolvingBlocks",
            PageState::Composing => "Composing",
            PageState::Done => "Done",
            PageState::Error { .. } => "Error",
        }
    }
}

/// Notificaciones de progreso de la página. El ángulo de orientación se
/// expresa en grados enteros.
#[derive(Debug)]
pub enum PageEvent<C> {
    IniciarProcesamiento,
    OrientacionCompletada { angulo_grados: i32 },
    OrientacionFallida { razon: String },
    ContinuarDegradado,
    LayoutDetectado { num_regiones: usize },
    LayoutFallido { razon: String },
    BloqueTerminado { estado_final: BlockState<C> },
    TodosLosBloquesTerminados,
    ComposicionCompletada,
    ComposicionFallida { razon: String },
}

pub open spec fn pagina_evento_nombre_spec<C>(e: PageEvent<C>) -> Seq<char> {
    match e {
        PageEvent::IniciarProcesamiento => "IniciarProcesamiento"@,
        PageEvent::OrientacionCompletada { angulo_grados } =>
            "OrientacionCompletada("@ + entero(angulo_grados as int) + "°)"@,
        PageEvent::OrientacionFallida { razon } => "OrientacionFallida("@ + razon@ + ")"@,
        PageEvent::ContinuarDegradado => "ContinuarDegradado"@,
        PageEvent::LayoutDetectado { num_regiones } =>
            "LayoutDetectado("@ + decimal(num_regiones as nat) + " regiones)"@,
        PageEvent::LayoutFallido { razon } => "LayoutFallido("@ + razon@ + ")"@,
        PageEvent::BloqueTerminado { .. } => "BloqueTerminado"@,
        PageEvent::TodosLosBloquesTerminados => "TodosLosBloquesTerminados"@,
        PageEvent::ComposicionCompletada => "ComposicionCompletada"@,
        PageEvent::ComposicionFallida { razon } => "ComposicionFallida("@ + razon@ + ")"@,
    }
}

fn con_razon(prefijo: &str, razon: &str) -> (r: String)
    ensures r@ == prefijo@ + razon@ + ")"@,
{
    let mut v: Vec<char> = Vec::new();
    agregar_str(&mut v, prefijo);
    agregar_str(&mut v, razon);
    agregar_str(&mut v, ")");
    assert(v@ =~= prefijo@ + razon@ + ")"@);
    cadena(&v)
}

impl<C> PageEvent<C> {
    /// Nombre legible del evento, con su dato principal entre paréntesis.
    pub fn nombre(&self) -> (r: String)
        ensures r@ == pagina_evento_nombre_spec(*self),
    {
        match self {
            PageEvent::IniciarProcesamiento => String::from_str("IniciarProcesamiento"),
            PageEvent::OrientacionCompletada { angulo_grados } => {
                let mut v: Vec<char> = Vec::new();
                agregar_str(&mut v, "OrientacionCompletada(");
                agregar_entero(&mut v, *angulo_grados as i64);
                agregar_str(&mut v, "°)");
                assert(v@ =~= pagina_evento_nombre_spec(*self));
                cadena(&v)
            },
            PageEvent::OrientacionFallida { razon } => con_razon("OrientacionFallida(", razon.as_str()),
            PageEvent::ContinuarDegradado => String::from_str("ContinuarDegradado"),
            PageEvent::LayoutDetectado { num_regiones } => {
                let mut v: Vec<char> = Vec::new();
                agregar_str(&mut v, "LayoutDetectado(");
                agregar_decimal(&mut v, *num_regiones as u128);
                agregar_str(&mut v, " regiones)");
                assert(v@ =~= pagina_evento_nombre_spec(*self));
                cadena(&v)
            },
            PageEvent::LayoutFallido { razon } => con_razon("LayoutFallido(", razon.as_str()),
            PageEvent::BloqueTerminado { .. } => String::from_str("BloqueTerminado"),
            PageEvent::TodosLosBloquesTerminados => String::from_str("TodosLosBloquesTerminados"),
            PageEvent::ComposicionCompletada => String::from_str("ComposicionCompletada"),
            PageEvent::ComposicionFallida { razon } => con_razon("ComposicionFallida(", razon.as_str()),
        }
    }
}

/// Tabla de transiciones del autómata de página.
pub open spec fn siguiente_pagina<C>(s: PageState, e: PageEvent<C>) -> Option<PageState> {
    match (s, e) {
        (PageState::Pending, PageEvent::IniciarProcesamiento) => Some(PageState::Orienting),
        (PageState::Orienting, PageEvent::OrientacionCompletada { .. }) => Some(PageState::DetectingLayout),
        (PageState::Orienting, PageEvent::OrientacionFallida { razon }) => Some(PageState::Degraded { razon }),
        (PageState::Degraded { .. }, PageEvent::ContinuarDegradado) => Some(PageState::DetectingLayout),
        (PageState::DetectingLayout, PageEvent::LayoutDetectado { num_regiones }) =>
            Some(PageState::ResolvingBlocks { total_bloques: num_regiones, bloques_terminados: 0 }),
        (PageState::DetectingLayout, PageEvent::LayoutFallido { razon }) => Some(PageState::Error { razon }),
        (PageState::ResolvingBlocks { total_bloques, bloques_terminados }, PageEvent::BloqueTerminado { .. }) =>
            Some(PageState::ResolvingBlocks {
                total_bloques,
                bloques_terminados: (bloques_terminados + 1) as usize,
            }),
        (PageState::ResolvingBlocks { .. }, PageEvent::TodosLosBloquesTerminados) => Some(PageState::Composing),
        (PageState::Composing, PageEvent::ComposicionCompletada) => Some(PageState::Done),
        (PageState::Composing, PageEvent::ComposicionFallida { razon }) => Some(PageState::Error { razon }),
        _ => None,
    }
}

/// El único caso en que avanzar el autómata desbordaría el contador de bloques.
pub open spec fn desborda_bloques<C>(s: PageState, e: PageEvent<C>) -> bool {
    &&& s matches PageState::ResolvingBlocks { bloques_terminados, .. }
    &&& bloques_terminados == usize::MAX
    &&& e is BloqueTerminado
}

/// Evalúa un evento contra el estado de la página y devuelve la fase
/// siguiente, o `TransicionInvalidaPagina` con el nombre del estado actual si
/// el evento rompe la secuencia del pipeline.
pub fn transition<C>(estado: &PageState, evento: PageEvent<C>) -> (r: Result<PageState, DomainError>)
    requires
        !desborda_bloques(*estado, evento),
    ensures
        r is Ok <==> siguiente_pagina(*estado, evento) is Some,
        r matches Ok(n) ==> siguiente_pagina(*estado, evento) == Some(n),
        r matches Err(err) ==> (err matches DomainError::TransicionInvalidaPagina { estado: nom }
            && nom@ == pagina_nombre_spec(*estado)),
        estado.terminal() ==> r is Err,
{
    match (estado, evento) {
        (PageState::Pending, PageEvent::IniciarProcesamiento) => Ok(PageState::Orienting),
        (PageState::Orienting, PageEvent::OrientacionCompletada { .. }) => Ok(PageState::DetectingLayout),
        (PageState::Orienting, PageEvent::OrientacionFallida { razon }) => Ok(PageState::Degraded { razon }),
        (PageState::Degraded { .. }, PageEvent::ContinuarDegradado) => Ok(PageState::DetectingLayout),
        (PageState::DetectingLayout, PageEvent::LayoutDetectado { num_regiones }) => {
            Ok(PageState::ResolvingBlocks { total_bloques: num_regiones, bloques_terminados: 0 })
        },
        (PageState::DetectingLayout, PageEvent::LayoutFallido { razon }) => Ok(PageState::Error { razon }),
        (
            PageState::ResolvingBlocks { total_bloques, bloques_terminados },
            PageEvent::BloqueTerminado { .. },
        ) => Ok(PageState::ResolvingBlocks {
            total_bloques: *total_bloques,
            bloques_terminados: bloques_terminados + 1,
        }),
        (PageState::ResolvingBlocks { .. }, PageEvent::TodosLosBloquesTerminados) => Ok(PageState::Composing),
        (PageState::Composing, PageEvent::ComposicionCompletada) => Ok(PageState::Done),
        (PageState::Composing, PageEvent::ComposicionFallida { razon }) => Ok(PageState::Error { razon }),
        (estado, _) => Err(DomainError::TransicionInvalidaPagina { estado: String::from_str(estado.nombre()) }),
    }
}

/// Aplica una secuencia de eventos desde `s`; `None` si alguno es rechazado.
pub open spec fn aplicar_pagina<C>(s: PageState, eventos: Seq<PageEvent<C>>) -> Option<PageState>
    decreases eventos.len(),
{
    if eventos.len() == 0 {
        Some(s)
    } else {
        match siguiente_pagina(s, eventos[0]) {
            Some(n) => aplicar_pagina(n, eventos.drop_first()),
            None => None,
        }
    }
}

/// Una página terminada (`Done` o `Error`) no acepta ningún evento más.
pub proof fn ley_pagina_terminal<C>(s: PageState, e: PageEvent<C>)
    requires s.terminal(),
    ensures siguiente_pagina(s, e) is None,
{
}

/// Degradación segura: un fallo de orientación seguido de `ContinuarDegradado`
/// deja la página en la misma fase que una orientación exitosa.
pub proof fn ley_degradacion_segura<C>(razon: String, angulo: i32)
    ensures
        aplicar_pagina(
            PageState::Orienting,
            seq![PageEvent::<C>::OrientacionFallida { razon }, PageEvent::<C>::ContinuarDegradado],
        ) == Some(PageState::DetectingLayout),
        aplicar_pagina(
            PageState::Orienting,
            seq![PageEvent::<C>::OrientacionCompletada { angulo_grados: angulo }],
        ) == Some(PageState::DetectingLayout),
{
    reveal_with_fuel(aplicar_pagina, 3);
    let ev = seq![PageEvent::<C>::OrientacionFallida { razon }, PageEvent::<C>::ContinuarDegradado];
    assert(ev.drop_first().drop_first() =~= Seq::<PageEvent<C>>::empty());
    let ev2 = seq![PageEvent::<C>::OrientacionCompletada { angulo_grados: angulo }];
    assert(ev2.drop_first() =~= Seq::<PageEvent<C>>::empty());
}

/// Durante la resolución, cada `BloqueTerminado` suma uno al contador de
/// bloques terminados sin alterar el total.
pub proof fn ley_contador_bloques<C>(total: usize, terminados: usize, bloques: Seq<BlockState<C>>)
    requires
        terminados + bloques.len() <= usize::MAX,
    ensures
        aplicar_pagina(
            PageState::ResolvingBlocks { total_bloques: total, bloques_terminados: terminados },
            bloques.map_values(|b: BlockState<C>| PageEvent::BloqueTerminado { estado_final: b }),
        ) == Some(PageState::ResolvingBlocks {
            total_bloques: total,
            bloques_terminados: (terminados + bloques.len()) as usize,
        }),
    decreases bloques.len(),
{
    let eventos = bloques.map_values(|b: BlockState<C>| PageEvent::BloqueTerminado { estado_final: b });
    if bloques.len() > 0 {
        assert(eventos.drop_first() =~= bloques.drop_first().map_values(
            |b: BlockState<C>| PageEvent::BloqueTerminado { estado_final: b },
        ));
        ley_contador_bloques(total, (terminados + 1) as usize, bloques.drop_first());
    }
}

} // verus!
