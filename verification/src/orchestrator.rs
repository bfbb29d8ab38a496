use vstd::prelude::*;

use crate::block_type::{variante_spec, BlockType};
use crate::error::DomainError;
use crate::fsm::block::{
    acepta_bloque, bloque_evento_nombre_spec, bloque_nombre_spec, siguiente_bloque, transition, BlockEvent,
    BlockState,
};
use crate::resolved::{estrategia_para_spec, StrategyKind};
use crate::services::confidence::{decision_spec, ConfidenceDecision, ConfidenceEvaluator, CONFIANZA_ALTA};
use crate::texto::{agregar_str, cadena};

verus! {

/// Transición registrada en la traza de auditoría de un bloque: nombres del
/// estado de partida, del de llegada y del evento.
#[derive(Debug, Clone)]
pub struct TransicionRegistrada {
    pub desde: String,
    pub hasta: String,
    pub evento: String,
}

pub open spec fn triple(t: TransicionRegistrada) -> (Seq<char>, Seq<char>, Seq<char>) {
    (t.desde@, t.hasta@, t.evento@)
}

pub open spec fn vista_traza(h: Seq<TransicionRegistrada>) -> Seq<(Seq<char>, Seq<char>, Seq<char>)> {
    h.map_values(|t: TransicionRegistrada| triple(t))
}

/// Efecto de un evento: si el estado `m` lo acepta, el autómata pasa a `n`;
/// si lo rechaza, el evento se ignora y el estado no cambia.
pub open spec fn paso(m: BlockState<()>, e: BlockEvent<()>, umbral: u32, n: BlockState<()>) -> bool {
    if acepta_bloque(m, e) {
        siguiente_bloque(m, e, umbral, n)
    } else {
        n == m
    }
}

/// `estados` es la sucesión de estados que recorre el autómata, desde
/// `Detected`, al recibir `eventos` en orden.
pub open spec fn ejecucion(estados: Seq<BlockState<()>>, eventos: Seq<BlockEvent<()>>, umbral: u32) -> bool {
    &&& estados.len() == eventos.len() + 1
    &&& estados[0] == BlockState::<()>::Detected
    &&& forall|i: int| 0 <= i < eventos.len() ==> #[trigger] paso(estados[i], eventos[i], umbral, estados[i + 1])
}

/// Traza de una ejecución: una entrada por cada evento aceptado, con los
/// nombres del estado de partida, del de llegada y del evento.
pub open spec fn registro(estados: Seq<BlockState<()>>, eventos: Seq<BlockEvent<()>>) -> Seq<(Seq<char>, Seq<char>, Seq<char>)>
    decreases eventos.len(),
{
    if eventos.len() == 0 {
        Seq::empty()
    } else {
        let k = eventos.len() - 1;
        registro(estados, eventos.drop_last()) + if acepta_bloque(estados[k], eventos[k]) {
            seq![(bloque_nombre_spec(estados[k]), bloque_nombre_spec(estados[k + 1]), bloque_evento_nombre_spec(eventos[k]))]
        } else {
            Seq::empty()
        }
    }
}

proof fn lema_registro_prefijo(estados: Seq<BlockState<()>>, x: BlockState<()>, eventos: Seq<BlockEvent<()>>)
    requires eventos.len() < estados.len(),
    ensures registro(estados.push(x), eventos) == registro(estados, eventos),
    decreases eventos.len(),
{
    if eventos.len() > 0 {
        lema_registro_prefijo(estados, x, eventos.drop_last());
        let k = eventos.len() - 1;
        assert(estados.push(x)[k] == estados[k]);
        assert(estados.push(x)[k + 1] == estados[k + 1]);
    }
}

/// Aplica en orden los eventos al autómata de bloque, ignorando los que el
/// estado vigente rechaza, y registra cada transición aceptada. Devuelve el
/// estado final, la traza y la sucesión de estados recorrida.
fn aplicar_eventos(eventos: Vec<BlockEvent<()>>, umbral: u32) -> (r: (BlockState<()>, Vec<TransicionRegistrada>, Ghost<Seq<BlockState<()>>>))
    ensures
        ejecucion(r.2@, eventos@, umbral),
        r.2@.last() == r.0,
        vista_traza(r.1@) == registro(r.2@, eventos@),
{
    let ghost todos = eventos@;
    let ghost n = todos.len();
    let mut pendientes = eventos;
    let mut estado: BlockState<()> = BlockState::Detected;
    let mut hist: Vec<TransicionRegistrada> = Vec::new();
    let ghost mut estados: Seq<BlockState<()>> = seq![BlockState::<()>::Detected];
    proof {
        assert(todos.take(0) =~= Seq::<BlockEvent<()>>::empty());
        assert(vista_traza(hist@) =~= Seq::empty());
    }
    while pendientes.len() > 0
        invariant
            n == todos.len(),
            pendientes@.len() <= n,
            pendientes@ == todos.subrange(n - pendientes@.len(), n as int),
            ejecucion(estados, todos.take(n - pendientes@.len()), umbral),
            estados.last() == estado,
            vista_traza(hist@) == registro(estados, todos.take(n - pendientes@.len())),
        decreases pendientes@.len(),
    {
        let ghost i = n - pendientes@.len();
        let ghost antes_e = estado;
        let ghost antes_h = vista_traza(hist@);
        let ghost antes_s = estados;
        let evento = pendientes.remove(0);
        let ghost ev_spec = evento;
        proof {
            assert(evento == todos[i]);
            assert(pendientes@ =~= todos.subrange(n - pendientes@.len(), n as int));
            assert(todos.take(i + 1).drop_last() =~= todos.take(i));
            assert(todos.take(i + 1)[i] == evento);
        }
        let nombre_evento = evento.nombre();
        let desde = String::from_str(estado.nombre());
        match transition(estado, evento, umbral) {
            Ok(nuevo) => {
                let hasta = String::from_str(nuevo.nombre());
                hist.push(TransicionRegistrada { desde, hasta, evento: nombre_evento });
                proof {
                    estados = antes_s.push(nuevo);
                    lema_registro_prefijo(antes_s, nuevo, todos.take(i));
                    assert(vista_traza(hist@) =~= antes_h.push(
                        (bloque_nombre_spec(antes_e), bloque_nombre_spec(nuevo), bloque_evento_nombre_spec(ev_spec)),
                    ));
                    assert(estados[i] == antes_e);
                    assert(registro(estados, todos.take(i + 1)) =~= vista_traza(hist@));
                    assert forall|k: int| 0 <= k < i + 1 implies #[trigger] paso(estados[k], todos.take(i + 1)[k], umbral, estados[k + 1]) by {
                        if k < i {
                            assert(todos.take(i + 1)[k] == todos.take(i)[k]);
                            assert(paso(antes_s[k], todos.take(i)[k], umbral, antes_s[k + 1]));
                        }
                    }
                }
                estado = nuevo;
            },
            Err(DomainError::TransicionInvalida { estado: previo }) => {
                estado = previo;
                proof {
                    estados = antes_s.push(antes_e);
                    lema_registro_prefijo(antes_s, antes_e, todos.take(i));
                    assert(estados[i] == antes_e);
                    assert(registro(estados, todos.take(i + 1)) =~= vista_traza(hist@));
                    assert forall|k: int| 0 <= k < i + 1 implies #[trigger] paso(estados[k], todos.take(i + 1)[k], umbral, estados[k + 1]) by {
                        if k < i {
                            assert(todos.take(i + 1)[k] == todos.take(i)[k]);
                            assert(paso(antes_s[k], todos.take(i)[k], umbral, antes_s[k + 1]));
                        }
                    }
                }
            },
            Err(_) => {
                proof { assert(false); }
                estado = BlockState::Detected;
            },
        }
    }
    proof {
        assert(todos.take(n as int) =~= todos);
    }
    (estado, hist, Ghost(estados))
}

/// Resultado de invocar un resolutor sobre el recorte de una región: el
/// contenido con su confianza (en millonésimas) y el texto que contiene
/// (vacío si no es texto), o el error del resolutor.
pub enum Inferencia<C> {
    Exito { contenido: C, confianza: u32, texto: String },
    Fallo { error: String },
}

/// Cómo queda resuelto un bloque: con el contenido de una inferencia, o
/// preservado como recorte raster.
pub enum Desenlace<C> {
    Resuelto { contenido: C, confianza: u32, estrategia: StrategyKind },
    Raster { crop: Vec<u8> },
}

/// Resultado de resolver una región: su desenlace, el estado final del
/// autómata y la traza de transiciones aceptadas.
pub struct ResolucionBloque<C> {
    pub desenlace: Desenlace<C>,
    pub estado_final: BlockState<()>,
    pub historial: Vec<TransicionRegistrada>,
}

/// Parámetros de calidad de la resolución: el evaluador, el umbral de
/// aceptación del autómata y los reintentos permitidos.
pub struct PoliticaResolucion {
    pub evaluador: ConfidenceEvaluator,
    pub umbral: u32,
    pub max_retries: u32,
}

/// La primera inferencia tiene calidad insuficiente.
pub open spec fn primera_baja<C>(p: PoliticaResolucion, primera: Option<Inferencia<C>>) -> bool {
    primera matches Some(Inferencia::Exito { confianza, texto, .. })
        && decision_spec(p.evaluador, confianza, texto@) is Baja
}

/// Hay que invocar de nuevo al resolutor: la región no se preserva como
/// raster, la primera inferencia tuvo calidad baja y se permiten reintentos.
pub open spec fn requiere_reintento_spec<C>(tipo: BlockType, p: PoliticaResolucion, primera: Option<Inferencia<C>>) -> bool {
    &&& !(estrategia_para_spec(tipo) is RasterPreserve)
    &&& primera_baja(p, primera)
    &&& p.max_retries > 0
}

/// El reintento fue aceptado: se hizo y su confianza no es baja.
pub open spec fn reintento_aceptado<C>(tipo: BlockType, p: PoliticaResolucion, primera: Option<Inferencia<C>>, reintento: Option<Inferencia<C>>) -> bool {
    &&& requiere_reintento_spec(tipo, p, primera)
    &&& reintento matches Some(Inferencia::Exito { confianza, .. })
    &&& !(decision_spec(p.evaluador, confianza, Seq::empty()) is Baja)
}

pub open spec fn es_fallback(e: BlockEvent<()>, crop: Seq<u8>) -> bool {
    e matches BlockEvent::AplicarFallback { crop_bytes } && crop_bytes@ == crop
}

/// Motivo con que una clase que no se infiere (figura, desconocida) pasa del
/// intento de resolución al recorte raster.
pub open spec fn motivo_preservacion_raster() -> Seq<char> {
    "Clase sin inferencia: se preserva como raster"@
}

pub open spec fn mensaje_sin_resolutor(tipo: BlockType) -> Seq<char> {
    "Sin resolver para tipo "@ + variante_spec(tipo)
}

/// Eventos que el orquestador aplica al autómata de una región según lo que
/// devolvieron los resolutores.
pub open spec fn eventos_del_plan<C>(
    tipo: BlockType,
    p: PoliticaResolucion,
    primera: Option<Inferencia<C>>,
    reintento: Option<Inferencia<C>>,
    crop: Seq<u8>,
    ev: Seq<BlockEvent<()>>,
) -> bool {
    let est = estrategia_para_spec(tipo);
    &&& ev.len() >= 3
    &&& ev[0] == BlockEvent::<()>::EstrategiaSeleccionada(est)
    &&& ev.last() is Compuesto
    &&& if est is RasterPreserve {
        ev.len() == 4 && (ev[1] matches BlockEvent::InferenciaFallida(m) && m@ == motivo_preservacion_raster())
            && es_fallback(ev[2], crop)
    } else {
        match primera {
            None => ev.len() == 4 && (ev[1] matches BlockEvent::InferenciaFallida(m) && m@ == mensaje_sin_resolutor(tipo))
                && es_fallback(ev[2], crop),
            Some(Inferencia::Fallo { error }) => ev.len() == 4 && ev[1] == BlockEvent::<()>::InferenciaFallida(error)
                && es_fallback(ev[2], crop),
            Some(Inferencia::Exito { confianza, .. }) => {
                &&& ev[1] == BlockEvent::<()>::InferenciaOk { contenido: (), confianza }
                &&& if !primera_baja(p, primera) {
                    ev.len() == 3
                } else if reintento_aceptado(tipo, p, primera, reintento) {
                    ev.len() == 4 && (reintento matches Some(Inferencia::Exito { confianza: c2, .. })
                        && ev[2] == BlockEvent::<()>::ReintentoOk { contenido: (), confianza: c2 })
                } else {
                    ev.len() == 5 && ev[2] is ReintentoFallido && es_fallback(ev[3], crop)
                }
            },
        }
    }
}

/// Desenlace que corresponde a lo que devolvieron los resolutores.
pub open spec fn desenlace_spec<C>(
    tipo: BlockType,
    p: PoliticaResolucion,
    primera: Option<Inferencia<C>>,
    reintento: Option<Inferencia<C>>,
    crop: Seq<u8>,
    d: Desenlace<C>,
) -> bool {
    let est = estrategia_para_spec(tipo);
    if !(est is RasterPreserve) && (primera matches Some(Inferencia::Exito { .. })) && !primera_baja(p, primera) {
        primera matches Some(Inferencia::Exito { contenido, confianza, .. })
            && d == Desenlace::Resuelto { contenido, confianza, estrategia: est }
    } else if reintento_aceptado(tipo, p, primera, reintento) {
        reintento matches Some(Inferencia::Exito { contenido, confianza, .. })
            && d == Desenlace::Resuelto { contenido, confianza, estrategia: StrategyKind::Retry }
    } else {
        d matches Desenlace::Raster { crop: c } && c@ == crop
    }
}

/// Decide si el orquestador debe invocar de nuevo al resolutor tras la
/// primera inferencia.
pub fn requiere_reintento<C>(tipo: BlockType, politica: &PoliticaResolucion, primera: &Option<Inferencia<C>>) -> (r: bool)
    ensures r == requiere_reintento_spec(tipo, *politica, *primera),
{
    if StrategyKind::para_bloque(tipo) == StrategyKind::RasterPreserve {
        return false;
    }
    match primera {
        Some(Inferencia::Exito { confianza, texto, .. }) => {
            politica.max_retries > 0
                && politica.evaluador.evaluar(*confianza, texto.as_str()) == ConfidenceDecision::Baja
        },
        _ => false,
    }
}

fn fallback(crop: &Vec<u8>) -> (r: BlockEvent<()>)
    ensures es_fallback(r, crop@),
{
    let c = crop.clone();
    assert(c@ =~= crop@);
    BlockEvent::AplicarFallback { crop_bytes: c }
}

/// En una ejecución cuyo primer evento se acepta, la traza no es vacía y su
/// última entrada llega al estado en que queda el autómata.
proof fn lema_traza_termina(estados: Seq<BlockState<()>>, ev: Seq<BlockEvent<()>>, umbral: u32)
    requires
        ev.len() >= 1,
        estados.len() >= ev.len() + 1,
        acepta_bloque(estados[0], ev[0]),
        forall|i: int| 0 <= i < ev.len() ==> #[trigger] paso(estados[i], ev[i], umbral, estados[i + 1]),
    ensures
        registro(estados, ev).len() > 0,
        registro(estados, ev).last().1 == bloque_nombre_spec(estados[ev.len() as int]),
    decreases ev.len(),
{
    let k = ev.len() - 1;
    if ev.len() > 1 {
        let previos = ev.drop_last();
        assert forall|i: int| 0 <= i < previos.len() implies #[trigger] paso(estados[i], previos[i], umbral, estados[i + 1]) by {
            assert(paso(estados[i], ev[i], umbral, estados[i + 1]));
        }
        lema_traza_termina(estados, previos, umbral);
        assert(paso(estados[k], ev[k], umbral, estados[k + 1]));
    }
}

/// El plan de eventos lleva la región hasta `Composed` cuando la clase se
/// preserva como raster, cuando no hubo inferencia exitosa, y cuando el umbral
/// del autómata no supera ni el del evaluador ni el de confianza alta (así
/// toda inferencia que el evaluador no declara baja es aceptada por el
/// autómata).
proof fn lema_plan_compone<C>(
    tipo: BlockType,
    p: PoliticaResolucion,
    primera: Option<Inferencia<C>>,
    reintento: Option<Inferencia<C>>,
    crop: Seq<u8>,
    ev: Seq<BlockEvent<()>>,
    estados: Seq<BlockState<()>>,
)
    requires
        eventos_del_plan(tipo, p, primera, reintento, crop, ev),
        ejecucion(estados, ev, p.umbral),
    ensures
        ((p.umbral <= p.evaluador.threshold && p.umbral <= CONFIANZA_ALTA)
            || estrategia_para_spec(tipo) is RasterPreserve
            || !(primera matches Some(Inferencia::Exito { .. }))) ==> estados.last() is Composed,
{
    paso_en(estados, ev, p.umbral, 0);
    paso_en(estados, ev, p.umbral, 1);
    paso_en(estados, ev, p.umbral, 2);
    if ev.len() > 3 {
        paso_en(estados, ev, p.umbral, 3);
    }
    if ev.len() > 4 {
        paso_en(estados, ev, p.umbral, 4);
    }
}

proof fn paso_en(estados: Seq<BlockState<()>>, ev: Seq<BlockEvent<()>>, umbral: u32, i: int)
    requires
        ejecucion(estados, ev, umbral),
        0 <= i < ev.len(),
    ensures
        paso(estados[i], ev[i], umbral, estados[i + 1]),
{
}

/// Resuelve una región recorriendo su autómata: elige la estrategia según la
/// clase, y según lo que devolvieron el resolutor (`primera`, `None` si no hay
/// resolutor para la clase) y el reintento (`reintento`, `None` si no se hizo)
/// aplica los eventos del plan; el bloque queda resuelto con la inferencia
/// aceptada o preservado como recorte raster. Nunca falla. Una clase que no
/// se infiere pasa, por transiciones que el autómata acepta, de `Resolving`
/// al error de estrategia, al recorte y a `Composed`; la traza termina en el
/// estado final del autómata.
pub fn resolver_bloque<C>(
    tipo: BlockType,
    politica: &PoliticaResolucion,
    primera: Option<Inferencia<C>>,
    reintento: Option<Inferencia<C>>,
    crop: Vec<u8>,
) -> (r: ResolucionBloque<C>)
    ensures
        desenlace_spec(tipo, *politica, primera, reintento, crop@, r.desenlace),
        exists|ev: Seq<BlockEvent<()>>, estados: Seq<BlockState<()>>| {
            &&& eventos_del_plan(tipo, *politica, primera, reintento, crop@, ev)
            &&& #[trigger] ejecucion(estados, ev, politica.umbral)
            &&& estados.last() == r.estado_final
            &&& vista_traza(r.historial@) == registro(estados, ev)
        },
        r.historial@.len() > 0,
        r.historial@.last().hasta@ == bloque_nombre_spec(r.estado_final),
        (politica.umbral <= politica.evaluador.threshold && politica.umbral <= CONFIANZA_ALTA)
            ==> r.estado_final is Composed,
        (estrategia_para_spec(tipo) is RasterPreserve || !(primera matches Some(Inferencia::Exito { .. })))
            ==> r.estado_final is Composed,
{
    let estrategia = StrategyKind::para_bloque(tipo);
    let mut eventos: Vec<BlockEvent<()>> = Vec::new();
    eventos.push(BlockEvent::EstrategiaSeleccionada(estrategia));
    let desenlace: Desenlace<C>;
    if estrategia == StrategyKind::RasterPreserve {
        eventos.push(BlockEvent::InferenciaFallida(String::from_str("Clase sin inferencia: se preserva como raster")));
        eventos.push(fallback(&crop));
        eventos.push(BlockEvent::Compuesto);
        desenlace = Desenlace::Raster { crop };
    } else {
        match primera {
            None => {
                let mut v: Vec<char> = Vec::new();
                agregar_str(&mut v, "Sin resolver para tipo ");
                agregar_str(&mut v, tipo.variante());
                eventos.push(BlockEvent::InferenciaFallida(cadena(&v)));
                eventos.push(fallback(&crop));
                eventos.push(BlockEvent::Compuesto);
                desenlace = Desenlace::Raster { crop };
            },
            Some(Inferencia::Fallo { error }) => {
                eventos.push(BlockEvent::InferenciaFallida(error));
                eventos.push(fallback(&crop));
                eventos.push(BlockEvent::Compuesto);
                desenlace = Desenlace::Raster { crop };
            },
            Some(Inferencia::Exito { contenido, confianza, texto }) => {
                eventos.push(BlockEvent::InferenciaOk { contenido: (), confianza });
                let decision = politica.evaluador.evaluar(confianza, texto.as_str());
                if decision != ConfidenceDecision::Baja {
                    eventos.push(BlockEvent::Compuesto);
                    desenlace = Desenlace::Resuelto { contenido, confianza, estrategia };
                } else {
                    let aceptado = match &reintento {
                        Some(Inferencia::Exito { confianza: c2, .. }) => {
                            politica.max_retries > 0 && politica.evaluador.evaluar(*c2, "") != ConfidenceDecision::Baja
                        },
                        _ => false,
                    };
                    proof { reveal_strlit(""); }
                    if aceptado {
                        match reintento {
                            Some(Inferencia::Exito { contenido: c2, confianza: conf2, .. }) => {
                                eventos.push(BlockEvent::ReintentoOk { contenido: (), confianza: conf2 });
                                eventos.push(BlockEvent::Compuesto);
                                desenlace = Desenlace::Resuelto {
                                    contenido: c2,
                                    confianza: conf2,
                                    estrategia: StrategyKind::Retry,
                                };
                            },
                            _ => {
                                desenlace = Desenlace::Raster { crop };
                            },
                        }
                    } else {
                        eventos.push(BlockEvent::ReintentoFallido);
                        eventos.push(fallback(&crop));
                        eventos.push(BlockEvent::Compuesto);
                        desenlace = Desenlace::Raster { crop };
                    }
                }
            },
        }
    }
    let ghost ev = eventos@;
    let (estado_final, historial, estados) = aplicar_eventos(eventos, politica.umbral);
    proof {
        assert(eventos_del_plan(tipo, *politica, primera, reintento, crop@, ev));
        let est = estados@;
        lema_traza_termina(est, ev, politica.umbral);
        assert(est[ev.len() as int] == est.last());
        let h = historial@;
        assert(vista_traza(h).len() == h.len());
        assert(vista_traza(h)[h.len() - 1] == triple(h[h.len() - 1]));
        lema_plan_compone(tipo, *politica, primera, reintento, crop@, ev, est);
    }
    ResolucionBloque { desenlace, estado_final, historial }
}

/// Una región de texto corrido, título, lista o pie de figura cuya
/// inferencia el evaluador no declara baja queda resuelta con ese contenido,
/// esa confianza y la estrategia de OCR.
pub proof fn ley_ocr_de_clases_textuales<C>(
    tipo: BlockType,
    p: PoliticaResolucion,
    contenido: C,
    confianza: u32,
    texto: String,
    reintento: Option<Inferencia<C>>,
    crop: Seq<u8>,
    d: Desenlace<C>,
)
    requires
        tipo is Text || tipo is Title || tipo is List || tipo is Caption,
        !(decision_spec(p.evaluador, confianza, texto@) is Baja),
        desenlace_spec(tipo, p, Some(Inferencia::Exito { contenido, confianza, texto }), reintento, crop, d),
    ensures
        d == (Desenlace::Resuelto { contenido, confianza, estrategia: StrategyKind::PaddleOcr }),
{
}

} // verus!
