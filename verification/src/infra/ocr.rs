use vstd::prelude::*;

use crate::infra::composer::anexar;
use crate::texto::{agregar_str, cadena};

verus! {

/// Lado máximo del tensor del detector de líneas.
pub const LADO_MAXIMO_DETECCION: u32 = 960;

/// Alto fijo de una línea para el reconocedor.
pub const REC_HEIGHT: u32 = 48;

/// Lado del tensor de detección: el múltiplo de 32 que cubre el lado
/// original, sin pasar de `LADO_MAXIMO_DETECCION`.
pub open spec fn lado_deteccion_spec(orig: nat) -> nat {
    let redondeado = (orig + 31) / 32 * 32;
    if redondeado <= LADO_MAXIMO_DETECCION { redondeado as nat } else { LADO_MAXIMO_DETECCION as nat }
}

pub fn lado_deteccion(orig: u32) -> (r: u32)
    requires orig + 31 <= u32::MAX,
    ensures r == lado_deteccion_spec(orig as nat),
{
    let redondeado = (orig + 31) / 32 * 32;
    if redondeado <= LADO_MAXIMO_DETECCION { redondeado } else { LADO_MAXIMO_DETECCION }
}

/// Ancho al que se escala una línea para reconocerla con alto `REC_HEIGHT`
/// conservando la proporción (al menos 1).
pub open spec fn ancho_reconocimiento_spec(ancho: nat, alto: nat) -> nat {
    let a = (ancho * REC_HEIGHT as nat) / (if alto >= 1 { alto } else { 1 });
    if a >= 1 { a } else { 1 }
}

pub fn ancho_reconocimiento(ancho: u32, alto: u32) -> (r: u32)
    requires ancho * REC_HEIGHT <= u32::MAX,
    ensures r == ancho_reconocimiento_spec(ancho as nat, alto as nat),
{
    let divisor = if alto >= 1 { alto } else { 1 };
    let a = ancho * REC_HEIGHT / divisor;
    if a >= 1 { a } else { 1 }
}

/// El lado de detección es un múltiplo de 32 que no pasa de 960: el menor
/// que cubre el lado original si este no pasa de 960, y 960 si lo pasa.
pub proof fn ley_lado_deteccion(orig: nat)
    ensures
        lado_deteccion_spec(orig) % 32 == 0,
        lado_deteccion_spec(orig) <= 960,
        orig <= 960 ==> orig <= lado_deteccion_spec(orig) < orig + 32,
        orig > 960 ==> lado_deteccion_spec(orig) == 960,
{
    let q = (orig + 31) / 32;
    assert(q * 32 <= orig + 31 < q * 32 + 32) by (nonlinear_arith)
        requires q == (orig + 31) / 32;
    assert((q * 32) % 32 == 0) by (nonlinear_arith);
}

/// El ancho de reconocimiento es al menos 1 y, con alto positivo, es el
/// cociente entero de `ancho * 48` entre el alto (si ese cociente no es 0).
pub proof fn ley_ancho_reconocimiento(ancho: nat, alto: nat)
    ensures
        ancho_reconocimiento_spec(ancho, alto) >= 1,
        (alto >= 1 && ancho * 48 >= alto) ==> ({
            let r = ancho_reconocimiento_spec(ancho, alto);
            r * alto <= ancho * 48 < (r + 1) * alto
        }),
        (alto >= 1 && ancho * 48 < alto) ==> ancho_reconocimiento_spec(ancho, alto) == 1,
{
    if alto >= 1 {
        let a = (ancho * 48) / alto;
        assert(a * alto <= ancho * 48 < (a + 1) * alto) by (nonlinear_arith)
            requires a == (ancho * 48) / alto, alto >= 1;
        if ancho * 48 >= alto {
            assert(a >= 1) by (nonlinear_arith)
                requires a == (ancho * 48) / alto, alto >= 1, ancho * 48 >= alto;
        } else {
            assert(a == 0) by (nonlinear_arith)
                requires a == (ancho * 48) / alto, alto >= 1, ancho * 48 < alto;
        }
    }
}

// ---------------------------------------------------------------------------
// Segmentación de líneas sobre el mapa de probabilidad binarizado.
// ---------------------------------------------------------------------------

/// Celda `(x, y)` del mapa binarizado de `w` columnas, fila a fila; lo que
/// cae fuera del mapa cuenta como inactivo.
pub open spec fn activo(m: Seq<bool>, w: int, x: int, y: int) -> bool {
    0 <= y * w + x < m.len() && m[y * w + x]
}

pub open spec fn fila_activa(m: Seq<bool>, w: int, y: int) -> bool {
    exists|x: int| 0 <= x < w && #[trigger] activo(m, w, x, y)
}

/// La columna `x` tiene alguna celda activa entre las filas `y0` y `y1`
/// (excluida).
pub open spec fn columna_activa(m: Seq<bool>, w: int, x: int, y0: int, y1: int) -> bool {
    exists|r: int| y0 <= r < y1 && #[trigger] activo(m, w, x, r)
}

/// Primera columna activa de la franja desde `x` (0 si no hay).
pub open spec fn primera_columna(m: Seq<bool>, w: int, y0: int, y1: int, x: int) -> int
    decreases w - x,
{
    if x >= w {
        0
    } else if columna_activa(m, w, x, y0, y1) {
        x
    } else {
        primera_columna(m, w, y0, y1, x + 1)
    }
}

/// Última columna activa de la franja antes de `k` (la última columna del
/// mapa si no hay).
pub open spec fn ultima_columna(m: Seq<bool>, w: int, y0: int, y1: int, k: int) -> int
    decreases k,
{
    if k <= 0 {
        if w > 0 { w - 1 } else { 0 }
    } else if columna_activa(m, w, k - 1, y0, y1) {
        k - 1
    } else {
        ultima_columna(m, w, y0, y1, k - 1)
    }
}

/// Franja de filas `[y0, y1)` con las columnas extremas `x0..=x1` en que
/// aparece texto.
#[derive(Debug, Clone, Copy, PartialEq, Eq, Structural)]
pub struct Tramo {
    pub y0: usize,
    pub y1: usize,
    pub x0: usize,
    pub x1: usize,
}

pub open spec fn tramo_de(m: Seq<bool>, w: int, y0: int, y1: int) -> Tramo {
    Tramo {
        y0: y0 as usize,
        y1: y1 as usize,
        x0: primera_columna(m, w, y0, y1, 0) as usize,
        x1: ultima_columna(m, w, y0, y1, w) as usize,
    }
}

/// Recorrido de las primeras `h` filas: la fila donde empezó la franja
/// abierta (si la hay) y las franjas ya cerradas. Una franja se abre en la
/// primera fila activa y se cierra en la siguiente fila inactiva; la que
/// sigue abierta al acabar el mapa no se cierra.
pub open spec fn barrido(m: Seq<bool>, w: int, h: nat) -> (Option<int>, Seq<Tramo>)
    decreases h,
{
    if h == 0 {
        (None, Seq::empty())
    } else {
        let (abierta, tramos) = barrido(m, w, (h - 1) as nat);
        let y = h - 1;
        if fila_activa(m, w, y) {
            if abierta is None { (Some(y), tramos) } else { (abierta, tramos) }
        } else {
            match abierta {
                Some(y0) => (None, tramos.push(tramo_de(m, w, y0, y))),
                None => (None, tramos),
            }
        }
    }
}

/// Propiedades de las franjas del barrido de las primeras `h` filas.
pub open spec fn franjas_bien_formadas(m: Seq<bool>, w: int, h: nat, abierta: Option<int>, ts: Seq<Tramo>) -> bool {
    &&& forall|i: int| 0 <= i < ts.len() ==> (#[trigger] ts[i]).y0 < ts[i].y1 < h
    &&& forall|i: int, y: int| 0 <= i < ts.len() && (#[trigger] ts[i]).y0 <= y < ts[i].y1 ==> #[trigger] fila_activa(m, w, y)
    &&& forall|i: int| 0 <= i < ts.len() ==> !fila_activa(m, w, (#[trigger] ts[i]).y1 as int)
    &&& forall|i: int, j: int| 0 <= i < j < ts.len() ==> (#[trigger] ts[i]).y1 < (#[trigger] ts[j]).y0
    &&& abierta matches Some(y0) ==> {
        &&& 0 <= y0 < h
        &&& forall|y: int| y0 <= y < h ==> #[trigger] fila_activa(m, w, y)
        &&& ts.len() > 0 ==> ts.last().y1 < y0
    }
}

/// Cada franja es un tramo máximo de filas activas: empieza tras una fila
/// inactiva (o tras la franja anterior), todas sus filas tienen texto y la
/// fila que la cierra no; las franjas van en orden y no se tocan.
pub proof fn ley_franjas(m: Seq<bool>, w: int, h: nat)
    requires h <= usize::MAX,
    ensures franjas_bien_formadas(m, w, h, barrido(m, w, h).0, barrido(m, w, h).1),
    decreases h,
{
    if h > 0 {
        let hp = (h - 1) as nat;
        ley_franjas(m, w, hp);
        let (abierta, ts) = barrido(m, w, hp);
        let y = h - 1;
        if !fila_activa(m, w, y) {
            if let Some(y0) = abierta {
                let t = tramo_de(m, w, y0, y);
                let nuevos = ts.push(t);
                assert(t.y0 == y0 && t.y1 == y);
                assert forall|i: int, yy: int| 0 <= i < nuevos.len() && (#[trigger] nuevos[i]).y0 <= yy < nuevos[i].y1
                    implies #[trigger] fila_activa(m, w, yy) by {
                    if i < ts.len() {
                        assert(nuevos[i] == ts[i]);
                    }
                }
                assert forall|i: int, j: int| 0 <= i < j < nuevos.len() implies (#[trigger] nuevos[i]).y1 < (#[trigger] nuevos[j]).y0 by {
                    assert(nuevos[i] == ts[i]);
                    if j < ts.len() {
                        assert(nuevos[j] == ts[j]);
                    } else {
                        if i < ts.len() - 1 {
                            assert(ts[i].y1 < ts[ts.len() - 1].y0);
                        }
                    }
                }
            }
        }
    }
}

/// La fila `y0` empieza un tramo: es la primera o la anterior no tiene texto.
pub open spec fn es_inicio(m: Seq<bool>, w: int, y0: int) -> bool {
    y0 == 0 || !fila_activa(m, w, y0 - 1)
}

/// `[y0, y1)` es un tramo máximo de filas con texto cerrado por la fila
/// `y1`, que no tiene texto.
pub open spec fn tramo_maximo(m: Seq<bool>, w: int, y0: int, y1: int) -> bool {
    &&& 0 <= y0 < y1
    &&& es_inicio(m, w, y0)
    &&& forall|y: int| y0 <= y < y1 ==> #[trigger] fila_activa(m, w, y)
    &&& !fila_activa(m, w, y1)
}

/// Completitud del barrido de las primeras `h` filas: cada franja (y la
/// abierta) empieza un tramo, una fila final con texto deja una franja
/// abierta, y todo tramo máximo cerrado dentro de esas filas está entre las
/// franjas.
pub open spec fn franjas_completas(m: Seq<bool>, w: int, h: nat, abierta: Option<int>, ts: Seq<Tramo>) -> bool {
    &&& forall|i: int| 0 <= i < ts.len() ==> es_inicio(m, w, (#[trigger] ts[i]).y0 as int)
    &&& abierta matches Some(y0) ==> es_inicio(m, w, y0)
    &&& (h > 0 && fila_activa(m, w, h - 1)) ==> abierta is Some
    &&& forall|y0: int, y1: int| y1 < h && #[trigger] tramo_maximo(m, w, y0, y1)
        ==> exists|i: int| 0 <= i < ts.len() && ts[i].y0 == y0 && ts[i].y1 == y1
}

/// Las franjas son exactamente los tramos máximos cerrados: cada una empieza
/// tras una fila sin texto (o en la primera) y no falta ninguno.
pub proof fn ley_franjas_completas(m: Seq<bool>, w: int, h: nat)
    requires h <= usize::MAX,
    ensures franjas_completas(m, w, h, barrido(m, w, h).0, barrido(m, w, h).1),
    decreases h,
{
    if h > 0 {
        let hp = (h - 1) as nat;
        ley_franjas_completas(m, w, hp);
        ley_franjas(m, w, hp);
        let (abierta, ts) = barrido(m, w, hp);
        let (abierta2, ts2) = barrido(m, w, h);
        let y = h - 1;
        if fila_activa(m, w, y) {
            assert(ts2 == ts);
            if abierta is None && y > 0 {
                assert(!fila_activa(m, w, y - 1));
            }
            assert forall|y0: int, y1: int| y1 < h && #[trigger] tramo_maximo(m, w, y0, y1)
                implies exists|i: int| 0 <= i < ts2.len() && ts2[i].y0 == y0 && ts2[i].y1 == y1 by {
                assert(y1 != y);
                assert(y1 < hp);
            }
        } else {
            match abierta {
                Some(y0a) => {
                    let t = tramo_de(m, w, y0a, y);
                    assert(ts2 == ts.push(t));
                    assert(t.y0 == y0a && t.y1 == y);
                    assert forall|i: int| 0 <= i < ts2.len() implies es_inicio(m, w, (#[trigger] ts2[i]).y0 as int) by {
                        if i < ts.len() { assert(ts2[i] == ts[i]); }
                    }
                    assert forall|y0: int, y1: int| y1 < h && #[trigger] tramo_maximo(m, w, y0, y1)
                        implies exists|i: int| 0 <= i < ts2.len() && ts2[i].y0 == y0 && ts2[i].y1 == y1 by {
                        if y1 < hp {
                            let i = choose|i: int| 0 <= i < ts.len() && ts[i].y0 == y0 && ts[i].y1 == y1;
                            assert(ts2[i] == ts[i]);
                        } else {
                            assert(y1 == y);
                            if y0 < y0a {
                                assert(fila_activa(m, w, y0a - 1));
                            } else if y0a < y0 {
                                assert(fila_activa(m, w, y0 - 1));
                            }
                            assert(ts2[ts.len() as int] == t);
                        }
                    }
                },
                None => {
                    assert(ts2 == ts);
                    assert forall|y0: int, y1: int| y1 < h && #[trigger] tramo_maximo(m, w, y0, y1)
                        implies exists|i: int| 0 <= i < ts2.len() && ts2[i].y0 == y0 && ts2[i].y1 == y1 by {
                        if y1 == y {
                            assert(fila_activa(m, w, y - 1));
                        }
                    }
                },
            }
        }
    }
}

proof fn lema_indice(w: usize, h: usize, x: usize, y: usize)
    requires x < w, y < h,
    ensures y * w + x < w * h,
{
    assert(y * w + x < w * h) by (nonlinear_arith)
        requires x < w, y < h;
}

fn celda(m: &[bool], w: usize, h: usize, x: usize, y: usize) -> (r: bool)
    requires x < w, y < h, w * h <= usize::MAX,
    ensures r == activo(m@, w as int, x as int, y as int),
{
    proof { lema_indice(w, h, x, y); }
    let idx = y * w + x;
    idx < m.len() && m[idx]
}

fn es_fila_activa(m: &[bool], w: usize, h: usize, y: usize) -> (r: bool)
    requires y < h, w * h <= usize::MAX,
    ensures r == fila_activa(m@, w as int, y as int),
{
    let mut x: usize = 0;
    while x < w
        invariant
            x <= w,
            y < h,
            w * h <= usize::MAX,
            forall|x2: int| 0 <= x2 < x ==> !#[trigger] activo(m@, w as int, x2, y as int),
        decreases w - x,
    {
        if celda(m, w, h, x, y) {
            return true;
        }
        x = x + 1;
    }
    false
}

fn es_columna_activa(m: &[bool], w: usize, h: usize, x: usize, y0: usize, y1: usize) -> (r: bool)
    requires x < w, y0 <= y1 <= h, w * h <= usize::MAX,
    ensures r == columna_activa(m@, w as int, x as int, y0 as int, y1 as int),
{
    let mut y = y0;
    while y < y1
        invariant
            y0 <= y <= y1 <= h,
            x < w,
            w * h <= usize::MAX,
            forall|r: int| y0 <= r < y ==> !#[trigger] activo(m@, w as int, x as int, r),
        decreases y1 - y,
    {
        if celda(m, w, h, x, y) {
            return true;
        }
        y = y + 1;
    }
    false
}

fn primera(m: &[bool], w: usize, h: usize, y0: usize, y1: usize) -> (r: usize)
    requires y0 <= y1 <= h, w * h <= usize::MAX,
    ensures r == primera_columna(m@, w as int, y0 as int, y1 as int, 0),
{
    let mut x: usize = 0;
    while x < w
        invariant
            x <= w,
            y0 <= y1 <= h,
            w * h <= usize::MAX,
            primera_columna(m@, w as int, y0 as int, y1 as int, 0) == primera_columna(m@, w as int, y0 as int, y1 as int, x as int),
        decreases w - x,
    {
        if es_columna_activa(m, w, h, x, y0, y1) {
            return x;
        }
        x = x + 1;
    }
    0
}

fn ultima(m: &[bool], w: usize, h: usize, y0: usize, y1: usize) -> (r: usize)
    requires y0 <= y1 <= h, w * h <= usize::MAX,
    ensures r == ultima_columna(m@, w as int, y0 as int, y1 as int, w as int),
{
    let mut k: usize = w;
    while k > 0
        invariant
            k <= w,
            y0 <= y1 <= h,
            w * h <= usize::MAX,
            ultima_columna(m@, w as int, y0 as int, y1 as int, w as int) == ultima_columna(m@, w as int, y0 as int, y1 as int, k as int),
        decreases k,
    {
        if es_columna_activa(m, w, h, k - 1, y0, y1) {
            return k - 1;
        }
        k = k - 1;
    }
    if w > 0 { w - 1 } else { 0 }
}

pub open spec fn como_int(o: Option<usize>) -> Option<int> {
    match o {
        Some(v) => Some(v as int),
        None => None,
    }
}

/// Franjas de texto de un mapa binarizado de `ancho × alto` celdas.
pub fn segmentar_lineas(mascara: &[bool], ancho: usize, alto: usize) -> (r: Vec<Tramo>)
    requires ancho * alto <= usize::MAX,
    ensures r@ == barrido(mascara@, ancho as int, alto as nat).1,
{
    let mut tramos: Vec<Tramo> = Vec::new();
    let mut abierta: Option<usize> = None;
    let mut y: usize = 0;
    while y < alto
        invariant
            y <= alto,
            ancho * alto <= usize::MAX,
            barrido(mascara@, ancho as int, y as nat) == (como_int(abierta), tramos@),
            abierta matches Some(y0) ==> y0 < y,
        decreases alto - y,
    {
        let activa = es_fila_activa(mascara, ancho, alto, y);
        if activa {
            if abierta.is_none() {
                abierta = Some(y);
            }
        } else {
            match abierta {
                Some(y0) => {
                    let x0 = primera(mascara, ancho, alto, y0, y);
                    let x1 = ultima(mascara, ancho, alto, y0, y);
                    tramos.push(Tramo { y0, y1: y, x0, x1 });
                    abierta = None;
                },
                None => {},
            }
        }
        y = y + 1;
    }
    tramos
}

// ---------------------------------------------------------------------------
// Decodificación CTC voraz y ensamblado del texto.
// ---------------------------------------------------------------------------

/// Decodificación de la secuencia de índices más probables de cada paso:
/// el texto, los pasos que aportaron un carácter y el último índice visto.
/// El índice 0 es el separador; un índice que repite el anterior no aporta,
/// y tampoco uno que no está en el diccionario.
pub open spec fn ctc(indices: Seq<usize>, vocab: usize, dict: Seq<String>) -> (Seq<char>, Seq<usize>, usize)
    decreases indices.len(),
{
    if indices.len() == 0 {
        (Seq::empty(), Seq::empty(), vocab)
    } else {
        let (texto, pasos, ultimo) = ctc(indices.drop_last(), vocab, dict);
        let idx = indices.last();
        if idx != 0 && idx != ultimo && idx < dict.len() {
            (texto + dict[idx as int]@, pasos.push((indices.len() - 1) as usize), idx)
        } else {
            (texto, pasos, idx)
        }
    }
}

/// El paso `s` aporta un símbolo: su índice no es el separador, no repite el
/// del paso anterior (antes del primero, el tamaño del vocabulario) y tiene
/// entrada en el diccionario.
pub open spec fn aporta(indices: Seq<usize>, vocab: usize, entradas: nat, s: int) -> bool {
    let anterior = if s == 0 { vocab } else { indices[s - 1] };
    indices[s] != 0 && indices[s] != anterior && indices[s] < entradas
}

/// Las entradas del diccionario que corresponden a los pasos dados.
pub open spec fn piezas(indices: Seq<usize>, dict: Seq<String>, pasos: Seq<usize>) -> Seq<Seq<char>> {
    pasos.map_values(|p: usize| dict[indices[p as int] as int]@)
}

proof fn lema_ctc_alt(indices: Seq<usize>, vocab: usize, dict: Seq<String>)
    requires
        indices.len() <= usize::MAX,
    ensures
        ({
            let (texto, pasos, ultimo) = ctc(indices, vocab, dict);
            &&& ultimo == if indices.len() == 0 { vocab } else { indices.last() }
            &&& forall|i: int, j: int| 0 <= i < j < pasos.len() ==> pasos[i] < pasos[j]
            &&& forall|k: int| 0 <= k < pasos.len() ==> pasos[k] < indices.len()
            &&& forall|k: int| 0 <= k < pasos.len() ==> #[trigger] aporta(indices, vocab, dict.len(), pasos[k] as int)
            &&& forall|s: int| 0 <= s < indices.len() && #[trigger] aporta(indices, vocab, dict.len(), s)
                ==> pasos.contains(s as usize)
            &&& texto == piezas(indices, dict, pasos).flatten_alt()
        }),
    decreases indices.len(),
{
    if indices.len() > 0 {
        let n = indices.len();
        let pre = indices.drop_last();
        lema_ctc_alt(pre, vocab, dict);
        let (t0, p0, u0) = ctc(pre, vocab, dict);
        let (texto, pasos, ultimo) = ctc(indices, vocab, dict);
        assert forall|s: int| 0 <= s < n - 1 implies
            aporta(pre, vocab, dict.len(), s) == aporta(indices, vocab, dict.len(), s) by {
            assert(pre[s] == indices[s]);
            if s > 0 { assert(pre[s - 1] == indices[s - 1]); }
        }
        if n > 1 { assert(u0 == indices[n - 2]); }
        assert forall|k: int| 0 <= k < p0.len() implies piezas(pre, dict, p0)[k] == piezas(indices, dict, p0)[k] by {
            assert(p0[k] < pre.len());
            assert(pre[p0[k] as int] == indices[p0[k] as int]);
        }
        assert(piezas(pre, dict, p0) =~= piezas(indices, dict, p0));
        let idx = indices.last();
        if aporta(indices, vocab, dict.len(), n - 1) {
            assert(pasos == p0.push((n - 1) as usize));
            assert(piezas(indices, dict, pasos) =~= piezas(indices, dict, p0).push(dict[idx as int]@));
            assert(piezas(indices, dict, pasos).drop_last() =~= piezas(indices, dict, p0));
            assert forall|s: int| 0 <= s < n && #[trigger] aporta(indices, vocab, dict.len(), s)
                implies pasos.contains(s as usize) by {
                if s < n - 1 {
                    assert(aporta(pre, vocab, dict.len(), s));
                    let k = choose|k: int| 0 <= k < p0.len() && p0[k] == s as usize;
                    assert(pasos[k] == s as usize);
                } else {
                    assert(pasos[p0.len() as int] == s as usize);
                }
            }
        } else {
            assert(pasos == p0);
            assert forall|s: int| 0 <= s < n && #[trigger] aporta(indices, vocab, dict.len(), s)
                implies pasos.contains(s as usize) by {
                assert(aporta(pre, vocab, dict.len(), s));
            }
        }
    }
}

/// Decodificación voraz: un paso aporta su símbolo exactamente cuando su
/// índice no es el separador, no repite el del paso anterior y tiene entrada
/// en el diccionario (la última entrada, el espacio, incluida); los pasos
/// que aportan quedan en orden, y el texto es la concatenación de sus
/// entradas del diccionario.
pub proof fn ley_decodificacion_ctc(indices: Seq<usize>, vocab: usize, dict: Seq<String>)
    requires
        indices.len() <= usize::MAX,
    ensures
        ({
            let (texto, pasos, _) = ctc(indices, vocab, dict);
            &&& forall|i: int, j: int| 0 <= i < j < pasos.len() ==> pasos[i] < pasos[j]
            &&& forall|s: int| 0 <= s < indices.len() ==>
                (pasos.contains(s as usize) <==> aporta(indices, vocab, dict.len(), s))
            &&& texto == piezas(indices, dict, pasos).flatten()
        }),
{
    lema_ctc_alt(indices, vocab, dict);
    let (texto, pasos, _) = ctc(indices, vocab, dict);
    piezas(indices, dict, pasos).lemma_flatten_and_flatten_alt_are_equivalent();
    assert forall|s: int| 0 <= s < indices.len() implies
        (pasos.contains(s as usize) <==> aporta(indices, vocab, dict.len(), s)) by {
        if pasos.contains(s as usize) {
            let k = choose|k: int| 0 <= k < pasos.len() && pasos[k] == s as usize;
            assert(aporta(indices, vocab, dict.len(), pasos[k] as int));
        }
    }
}

/// Texto reconocido en una línea y pasos cuyos caracteres lo forman (para
/// promediar sus probabilidades).
pub fn decodificar_ctc(indices: &[usize], vocab: usize, dict: &[String]) -> (r: (String, Vec<usize>))
    ensures
        r.0@ == ctc(indices@, vocab, dict@).0,
        r.1@ == ctc(indices@, vocab, dict@).1,
        forall|s: int| 0 <= s < indices@.len() ==>
            (r.1@.contains(s as usize) <==> aporta(indices@, vocab, dict@.len(), s)),
        r.0@ == piezas(indices@, dict@, r.1@).flatten(),
{
    proof {
        assert(indices@.len() == indices.len());
        ley_decodificacion_ctc(indices@, vocab, dict@);
    }
    let mut texto: Vec<char> = Vec::new();
    let mut pasos: Vec<usize> = Vec::new();
    let mut ultimo = vocab;
    let mut t: usize = 0;
    while t < indices.len()
        invariant
            t <= indices@.len(),
            ctc(indices@.subrange(0, t as int), vocab, dict@) == (texto@, pasos@, ultimo),
        decreases indices.len() - t,
    {
        assert(indices@.subrange(0, t + 1).drop_last() =~= indices@.subrange(0, t as int));
        let idx = indices[t];
        if idx != 0 && idx != ultimo && idx < dict.len() {
            agregar_str(&mut texto, dict[idx].as_str());
            pasos.push(t);
        }
        ultimo = idx;
        t = t + 1;
    }
    assert(indices@.subrange(0, indices@.len() as int) =~= indices@);
    (cadena(&texto), pasos)
}

/// Textos de las líneas no vacías, uno por línea.
pub open spec fn unir_lineas_spec(textos: Seq<String>) -> Seq<char>
    decreases textos.len(),
{
    if textos.len() == 0 {
        Seq::empty()
    } else {
        let previo = unir_lineas_spec(textos.drop_last());
        if textos.last()@.len() == 0 { previo } else { anexar(previo, '\n', textos.last()@) }
    }
}

/// Une dos textos ya unidos: el segundo, si no es vacío, va tras el primero
/// separado por un salto de línea (sin salto si el primero es vacío).
pub open spec fn juntar(a: Seq<char>, b: Seq<char>) -> Seq<char> {
    if b.len() == 0 { a } else if a.len() == 0 { b } else { a + seq!['\n'] + b }
}

/// Unir las líneas respeta la concatenación: unir dos tandas de líneas
/// seguidas es juntar lo que da cada tanda; una sola línea se une a sí misma.
/// Así, el resultado son los textos no vacíos, en orden, separados por un
/// salto de línea.
pub proof fn ley_union_de_lineas(a: Seq<String>, b: Seq<String>, t: String)
    ensures
        unir_lineas_spec(a + b) == juntar(unir_lineas_spec(a), unir_lineas_spec(b)),
        unir_lineas_spec(seq![t]) == t@,
    decreases b.len(),
{
    assert(seq![t].drop_last() =~= Seq::<String>::empty());
    assert(seq![t].last() == t);
    assert(unir_lineas_spec(Seq::<String>::empty()) == Seq::<char>::empty());
    if t@.len() == 0 {
        assert(t@ =~= Seq::<char>::empty());
    }
    if b.len() == 0 {
        assert(a + b =~= a);
    } else {
        let b1 = b.drop_last();
        ley_union_de_lineas(a, b1, t);
        assert((a + b).drop_last() =~= a + b1);
        assert((a + b).last() == b.last());
        let ua = unir_lineas_spec(a);
        let ub1 = unir_lineas_spec(b1);
        let x = b.last()@;
        if x.len() > 0 {
            if ub1.len() > 0 && ua.len() > 0 {
                assert(juntar(ua, ub1).push('\n') + x =~= ua + seq!['\n'] + (ub1.push('\n') + x));
            } else if ub1.len() > 0 {
                assert(juntar(ua, ub1) == ub1);
            }
        }
    }
}

pub fn unir_lineas(textos: &[String]) -> (r: String)
    ensures r@ == unir_lineas_spec(textos@),
{
    let mut acc: Vec<char> = Vec::new();
    let mut i: usize = 0;
    while i < textos.len()
        invariant
            i <= textos@.len(),
            acc@ == unir_lineas_spec(textos@.subrange(0, i as int)),
        decreases textos.len() - i,
    {
        assert(textos@.subrange(0, i + 1).drop_last() =~= textos@.subrange(0, i as int));
        let ghost previo = acc@;
        let t = crate::texto::caracteres(textos[i].as_str());
        if t.len() > 0 {
            if acc.len() > 0 {
                acc.push('\n');
            }
            agregar_str(&mut acc, textos[i].as_str());
            assert(acc@ =~= anexar(previo, '\n', textos@[i as int]@));
        }
        i = i + 1;
    }
    assert(textos@.subrange(0, textos@.len() as int) =~= textos@);
    cadena(&acc)
}

// ---------------------------------------------------------------------------
// Diccionario del reconocedor.
// ---------------------------------------------------------------------------

/// Posición del primer `c` en `s` (`-1` si no aparece).
pub open spec fn primera_posicion(s: Seq<char>, c: char) -> int
    decreases s.len(),
{
    if s.len() == 0 {
        -1
    } else if s[0] == c {
        0
    } else {
        let k = primera_posicion(s.drop_first(), c);
        if k < 0 { -1 } else { k + 1 }
    }
}

/// Quita un `'\r'` final.
pub open spec fn sin_retorno(s: Seq<char>) -> Seq<char> {
    if s.len() > 0 && s.last() == '\r' { s.drop_last() } else { s }
}

/// Líneas de un texto como las entrega `str::lines`: se corta en cada
/// `'\n'` (quitando el `'\r'` que lo preceda) y el último fin de línea es
/// opcional.
pub open spec fn lineas(s: Seq<char>) -> Seq<Seq<char>>
    decreases s.len(),
{
    if s.len() == 0 {
        Seq::empty()
    } else {
        let k = primera_posicion(s, '\n');
        if k < 0 {
            seq![s]
        } else {
            proof { lema_primera_posicion(s, '\n'); }
            seq![sin_retorno(s.subrange(0, k))] + lineas(s.subrange(k + 1, s.len() as int))
        }
    }
}

pub proof fn lema_primera_posicion(s: Seq<char>, c: char)
    ensures
        -1 <= primera_posicion(s, c) < s.len(),
        primera_posicion(s, c) >= 0 ==> s[primera_posicion(s, c)] == c,
        forall|i: int| 0 <= i < s.len() && (primera_posicion(s, c) < 0 || i < primera_posicion(s, c)) ==> s[i] != c,
    decreases s.len(),
{
    if s.len() > 0 && s[0] != c {
        lema_primera_posicion(s.drop_first(), c);
        assert forall|i: int| 0 < i < s.len() implies s[i] == s.drop_first()[i - 1] by {}
    }
}

proof fn lema_primera_en(s: Seq<char>, c: char, i: int)
    requires
        0 <= i < s.len(),
        s[i] == c,
        forall|j: int| 0 <= j < i ==> s[j] != c,
    ensures
        primera_posicion(s, c) == i,
    decreases i,
{
    if i > 0 {
        assert forall|j: int| 0 <= j < i - 1 implies s.drop_first()[j] != c by {
            assert(s.drop_first()[j] == s[j + 1]);
        }
        lema_primera_en(s.drop_first(), c, i - 1);
    }
}

proof fn lema_sin_c(s: Seq<char>, c: char)
    requires forall|j: int| 0 <= j < s.len() ==> s[j] != c,
    ensures primera_posicion(s, c) == -1,
    decreases s.len(),
{
    if s.len() > 0 {
        assert forall|j: int| 0 <= j < s.len() - 1 implies s.drop_first()[j] != c by {
            assert(s.drop_first()[j] == s[j + 1]);
        }
        lema_sin_c(s.drop_first(), c);
    }
}

pub open spec fn vistas(v: Seq<String>) -> Seq<Seq<char>> {
    v.map_values(|t: String| t@)
}

/// Diccionario del reconocedor: un espacio (el separador), los símbolos
/// del archivo, uno por línea, y otro espacio al final.
pub fn diccionario(contenido: &str) -> (r: Vec<String>)
    ensures vistas(r@) == seq![" "@] + lineas(contenido@) + seq![" "@],
{
    let s = crate::texto::caracteres(contenido);
    let mut r: Vec<String> = Vec::new();
    r.push(String::from_str(" "));
    let mut inicio: usize = 0;
    let mut i: usize = 0;
    proof {
        assert(vistas(r@) =~= seq![" "@]);
        assert(s@.subrange(0, s@.len() as int) =~= s@);
    }
    while i < s.len()
        invariant
            inicio <= i <= s@.len(),
            s@ == contenido@,
            forall|j: int| inicio <= j < i ==> s@[j] != '\n',
            vistas(r@) + lineas(s@.subrange(inicio as int, s@.len() as int)) == seq![" "@] + lineas(s@),
        decreases s.len() - i,
    {
        if s[i] == '\n' {
            let ghost resto = s@.subrange(inicio as int, s@.len() as int);
            proof {
                assert forall|j: int| 0 <= j < i - inicio implies resto[j] != '\n' by {
                    assert(resto[j] == s@[inicio + j]);
                }
                lema_primera_en(resto, '\n', i - inicio);
                assert(resto.subrange(0, i - inicio) =~= s@.subrange(inicio as int, i as int));
                assert(resto.subrange(i - inicio + 1, resto.len() as int) =~= s@.subrange(i + 1, s@.len() as int));
            }
            let fin = if i > inicio && s[i - 1] == '\r' { i - 1 } else { i };
            let mut linea: Vec<char> = Vec::new();
            let mut k = inicio;
            while k < fin
                invariant
                    inicio <= k <= fin <= i < s@.len(),
                    linea@ == s@.subrange(inicio as int, k as int),
                decreases fin - k,
            {
                linea.push(s[k]);
                assert(s@.subrange(inicio as int, k + 1) =~= s@.subrange(inicio as int, k as int).push(s@[k as int]));
                k = k + 1;
            }
            proof {
                assert(linea@ =~= sin_retorno(s@.subrange(inicio as int, i as int)));
            }
            let ghost antes = vistas(r@);
            r.push(cadena(&linea));
            proof {
                assert(vistas(r@) =~= antes.push(linea@));
                assert(lineas(resto) == seq![linea@] + lineas(s@.subrange(i + 1, s@.len() as int)));
                assert(vistas(r@) + lineas(s@.subrange(i + 1, s@.len() as int)) =~= antes + lineas(resto));
            }
            inicio = i + 1;
        }
        i = i + 1;
    }
    let ghost resto = s@.subrange(inicio as int, s@.len() as int);
    if inicio < s.len() {
        proof {
            assert forall|j: int| 0 <= j < resto.len() implies resto[j] != '\n' by {
                assert(resto[j] == s@[inicio + j]);
            }
            lema_sin_c(resto, '\n');
        }
        let mut linea: Vec<char> = Vec::new();
        let mut k = inicio;
        while k < s.len()
            invariant
                inicio <= k <= s@.len(),
                linea@ == s@.subrange(inicio as int, k as int),
            decreases s.len() - k,
        {
            linea.push(s[k]);
            assert(s@.subrange(inicio as int, k + 1) =~= s@.subrange(inicio as int, k as int).push(s@[k as int]));
            k = k + 1;
        }
        let ghost antes = vistas(r@);
        r.push(cadena(&linea));
        proof {
            assert(vistas(r@) =~= antes.push(linea@));
            assert(lineas(resto) == seq![resto]);
            assert(vistas(r@) =~= antes + lineas(resto));
        }
    } else {
        proof {
            assert(resto.len() == 0);
            assert(vistas(r@) + lineas(resto) =~= vistas(r@));
        }
    }
    let ghost antes = vistas(r@);
    r.push(String::from_str(" "));
    proof {
        assert(vistas(r@) =~= antes.push(" "@));
    }
    r
}

} // verus!
