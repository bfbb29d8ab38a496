use vstd::prelude::*;

use crate::texto::caracteres;

verus! {

/// Decisión de calidad que dicta la siguiente transición del bloque.
#[derive(Debug, Clone, Copy, PartialEq, Eq, Structural)]
pub enum ConfidenceDecision {
    Alta,
    Moderada,
    /// Fuerza reintentos o el fallback raster.
    Baja,
}

/// Confianza (en millonésimas) a partir de la cual una inferencia es `Alta`.
pub const CONFIANZA_ALTA: u32 = 800_000;

/// Un millón de millonésimas: la unidad de las confianzas y proporciones.
pub const UNIDAD: u32 = 1_000_000;

/// Código de control Unicode (categoría general `Cc`).
pub open spec fn es_control(c: char) -> bool {
    (c as u32) <= 0x1f || (0x7f <= (c as u32) && (c as u32) <= 0x9f)
}

/// Carácter que delata un decodificador colapsado: el de reemplazo U+FFFD o
/// un control distinto de salto de línea, retorno, tabulador o espacio.
pub open spec fn es_invalido(c: char) -> bool {
    c == '\u{FFFD}' || (es_control(c) && !(c == '\n' || c == '\r' || c == '\t' || c == ' '))
}

/// Cantidad de caracteres inválidos de un texto.
pub open spec fn invalidos(s: Seq<char>) -> nat
    decreases s.len(),
{
    if s.len() == 0 {
        0
    } else {
        invalidos(s.drop_last()) + if es_invalido(s.last()) { 1nat } else { 0nat }
    }
}

/// Texto no vacío cuya proporción de caracteres inválidos supera la máxima
/// tolerada (en millonésimas).
pub open spec fn texto_ilegible(s: Seq<char>, max_ratio: u32) -> bool {
    s.len() > 0 && invalidos(s) * (UNIDAD as nat) > (max_ratio as nat) * s.len()
}

/// Árbitro de calidad de las inferencias con umbrales de negocio, ambos en
/// millonésimas.
#[derive(Debug, Clone)]
pub struct ConfidenceEvaluator {
    pub threshold: u32,
    pub max_unrecognizable_ratio: u32,
}

/// La decisión que corresponde a una inferencia: la heurística léxica tiene
/// prioridad sobre la confianza del modelo.
pub open spec fn decision_spec(ev: ConfidenceEvaluator, confianza: u32, texto: Seq<char>) -> ConfidenceDecision {
    if texto_ilegible(texto, ev.max_unrecognizable_ratio) {
        ConfidenceDecision::Baja
    } else if confianza >= CONFIANZA_ALTA {
        ConfidenceDecision::Alta
    } else if confianza >= ev.threshold {
        ConfidenceDecision::Moderada
    } else {
        ConfidenceDecision::Baja
    }
}

fn invalido(c: char) -> (r: bool)
    ensures r == es_invalido(c),
{
    let u = c as u32;
    c == '\u{FFFD}' || ((u <= 0x1f || (0x7f <= u && u <= 0x9f)) && !(c == '\n' || c == '\r' || c == '\t' || c == ' '))
}

impl ConfidenceEvaluator {
    /// Construye el evaluador con sus dos umbrales.
    pub fn new(threshold: u32, max_unrecognizable_ratio: u32) -> (r: Self)
        ensures r.threshold == threshold, r.max_unrecognizable_ratio == max_unrecognizable_ratio,
    {
        ConfidenceEvaluator { threshold, max_unrecognizable_ratio }
    }

    /// Umbrales por defecto: 0.60 de confianza y 0.30 de caracteres inválidos.
    pub fn por_defecto() -> (r: Self)
        ensures r.threshold == 600_000, r.max_unrecognizable_ratio == 300_000,
    {
        Self::new(600_000, 300_000)
    }

    /// Dictamina la viabilidad del resultado de una inferencia.
    pub fn evaluar(&self, confianza: u32, texto: &str) -> (r: ConfidenceDecision)
        ensures r == decision_spec(*self, confianza, texto@),
    {
        if self.texto_ilegible(texto) {
            return ConfidenceDecision::Baja;
        }
        if confianza >= CONFIANZA_ALTA {
            ConfidenceDecision::Alta
        } else if confianza >= self.threshold {
            ConfidenceDecision::Moderada
        } else {
            ConfidenceDecision::Baja
        }
    }

    fn texto_ilegible(&self, texto: &str) -> (r: bool)
        ensures r == texto_ilegible(texto@, self.max_unrecognizable_ratio),
    {
        let cs = caracteres(texto);
        let total = cs.len();
        if total == 0 {
            return false;
        }
        let mut malos: usize = 0;
        let mut i: usize = 0;
        while i < total
            invariant
                total == cs@.len(),
                i <= total,
                malos == invalidos(cs@.subrange(0, i as int)),
                malos <= i,
            decreases total - i,
        {
            assert(cs@.subrange(0, i as int + 1).drop_last() =~= cs@.subrange(0, i as int));
            if invalido(cs[i]) {
                malos = malos + 1;
            }
            i = i + 1;
        }
        assert(cs@.subrange(0, total as int) =~= cs@);
        let m: u128 = malos as u128;
        let t: u128 = total as u128;
        let r: u128 = self.max_unrecognizable_ratio as u128;
        assert(m * 1_000_000 <= 0x1_0000_0000_0000_0000 * 1_000_000) by (nonlinear_arith)
            requires m <= 0x1_0000_0000_0000_0000u128;
        assert(r * t <= 0x1_0000_0000 * 0x1_0000_0000_0000_0000) by (nonlinear_arith)
            requires r <= 0x1_0000_0000u128, t <= 0x1_0000_0000_0000_0000u128;
        (malos as u128) * (UNIDAD as u128) > (self.max_unrecognizable_ratio as u128) * (total as u128)
    }
}

/// Con el mismo texto, subir la confianza nunca empeora la decisión.
pub proof fn ley_monotona_en_confianza(ev: ConfidenceEvaluator, texto: Seq<char>, c1: u32, c2: u32)
    requires c1 <= c2,
    ensures
        decision_spec(ev, c1, texto) is Alta ==> decision_spec(ev, c2, texto) is Alta,
        decision_spec(ev, c2, texto) is Baja ==> decision_spec(ev, c1, texto) is Baja,
{
}

/// Subir el umbral nunca mejora la decisión: lo que era `Baja` sigue siéndolo.
pub proof fn ley_monotona_en_umbral(texto: Seq<char>, c: u32, t1: u32, t2: u32, ratio: u32)
    requires t1 <= t2,
    ensures
        decision_spec(ConfidenceEvaluator { threshold: t1, max_unrecognizable_ratio: ratio }, c, texto) is Baja
            ==> decision_spec(ConfidenceEvaluator { threshold: t2, max_unrecognizable_ratio: ratio }, c, texto) is Baja,
{
}

/// Un texto vacío nunca activa la heurística léxica.
pub proof fn ley_texto_vacio(ev: ConfidenceEvaluator, c: u32)
    ensures
        decision_spec(ev, c, Seq::empty()) == (if c >= CONFIANZA_ALTA {
            ConfidenceDecision::Alta
        } else if c >= ev.threshold {
            ConfidenceDecision::Moderada
        } else {
            ConfidenceDecision::Baja
        }),
{
}

} // verus!
