use vstd::prelude::*;

use crate::infra::orientacion::OrientationResult;

verus! {

/// Recortes de línea que se clasifican en una misma inferencia.
pub const BATCH_SIZE: usize = 32;

/// Probabilidad mínima (en millonésimas) para dar una línea por invertida.
pub const CONFIDENCE_THRESHOLD: u32 = 900_000;

/// Lote `k` de una partición de `n` recortes: empieza en `k * BATCH_SIZE` y
/// tiene `BATCH_SIZE` recortes, salvo el último, que lleva los que quedan.
pub open spec fn lote(n: nat, k: int) -> (usize, usize) {
    let resto = n - k * BATCH_SIZE;
    ((k * BATCH_SIZE) as usize, (if resto >= BATCH_SIZE { BATCH_SIZE as int } else { resto }) as usize)
}

/// Partición de `n` recortes en lotes consecutivos de `BATCH_SIZE`.
pub open spec fn es_particion(lotes: Seq<(usize, usize)>, n: nat) -> bool {
    &&& lotes.len() == ((n + BATCH_SIZE - 1) as nat) / (BATCH_SIZE as nat)
    &&& forall|k: int| 0 <= k < lotes.len() ==> #[trigger] lotes[k] == lote(n, k)
}

/// Inicio y longitud de cada lote de recortes.
pub fn lotes(n: usize) -> (r: Vec<(usize, usize)>)
    ensures es_particion(r@, n as nat),
{
    let mut r: Vec<(usize, usize)> = Vec::new();
    let mut inicio: usize = 0;
    while inicio < n
        invariant
            inicio <= n,
            inicio == if r@.len() * BATCH_SIZE <= n { r@.len() * BATCH_SIZE } else { n as int },
            forall|k: int| 0 <= k < r@.len() ==> #[trigger] r@[k] == lote(n as nat, k),
            r@.len() > 0 ==> (r@.len() - 1) * BATCH_SIZE < n,
        decreases n - inicio,
    {
        let resto = n - inicio;
        let largo = if resto >= BATCH_SIZE { BATCH_SIZE } else { resto };
        r.push((inicio, largo));
        if resto >= BATCH_SIZE {
            inicio = inicio + BATCH_SIZE;
        } else {
            inicio = n;
        }
    }
    proof {
        let m = r@.len();
        if n == 0 {
            assert(m == 0);
        } else {
            assert(m > 0);
            assert((m - 1) * BATCH_SIZE < n <= m * BATCH_SIZE);
            assert(((n + BATCH_SIZE - 1) as nat) / (BATCH_SIZE as nat) == m) by (nonlinear_arith)
                requires (m - 1) * 32 < n, n <= m * 32, m > 0;
        }
    }
    r
}

/// Decisión para una línea a partir de las probabilidades (en millonésimas)
/// de estar derecha y de estar invertida; sin ellas, la línea queda como
/// está y marcada como dudosa.
pub open spec fn decision_linea(probs: Option<(u32, u32)>) -> OrientationResult {
    match probs {
        None => OrientationResult { angulo_grados: 0, confianza: 0, incierto: true },
        Some((p0, p1)) =>
            if p1 > p0 && p1 >= CONFIDENCE_THRESHOLD {
                OrientationResult { angulo_grados: 180, confianza: p1, incierto: false }
            } else {
                OrientationResult { angulo_grados: 0, confianza: p0, incierto: p0 < CONFIDENCE_THRESHOLD }
            },
    }
}

/// Una línea se invierte (180 grados) exactamente cuando la probabilidad de
/// estar invertida supera a la de estar derecha y alcanza el umbral; la
/// confianza informada es la de la orientación elegida, y la decisión es
/// dudosa exactamente cuando esa confianza no alcanza el umbral.
pub proof fn ley_giro_de_linea(p0: u32, p1: u32)
    ensures
        ({
            let r = decision_linea(Some((p0, p1)));
            &&& r.angulo_grados == 180 <==> (p1 > p0 && p1 >= CONFIDENCE_THRESHOLD)
            &&& r.angulo_grados == 0 || r.angulo_grados == 180
            &&& r.confianza == if r.angulo_grados == 180 { p1 } else { p0 }
            &&& r.incierto <==> r.confianza < CONFIDENCE_THRESHOLD
        }),
{
}

pub fn decidir_linea(probs: Option<(u32, u32)>) -> (r: OrientationResult)
    ensures r == decision_linea(probs),
{
    match probs {
        None => OrientationResult::sin_rotacion(0, true),
        Some((p0, p1)) => {
            if p1 > p0 && p1 >= CONFIDENCE_THRESHOLD {
                OrientationResult { angulo_grados: 180, confianza: p1, incierto: false }
            } else {
                OrientationResult::sin_rotacion(p0, p0 < CONFIDENCE_THRESHOLD)
            }
        },
    }
}

} // verus!
