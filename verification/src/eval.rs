use vstd::prelude::*;

use crate::texto::caracteres;

verus! {

/// Distancia de Levenshtein: mínimo de inserciones, borrados y sustituciones
/// de un carácter que llevan de `a` a `b`.
pub open spec fn levenshtein(a: Seq<char>, b: Seq<char>) -> nat
    decreases a.len() + b.len(),
{
    if a.len() == 0 {
        b.len()
    } else if b.len() == 0 {
        a.len()
    } else {
        let borrar = levenshtein(a.drop_last(), b) + 1;
        let insertar = levenshtein(a, b.drop_last()) + 1;
        let sustituir = levenshtein(a.drop_last(), b.drop_last()) + if a.last() == b.last() { 0nat } else { 1nat };
        if borrar <= insertar && borrar <= sustituir {
            borrar
        } else if insertar <= sustituir {
            insertar
        } else {
            sustituir
        }
    }
}

/// La distancia nunca supera la longitud de la cadena más larga.
pub proof fn lema_levenshtein_acotada(a: Seq<char>, b: Seq<char>)
    ensures
        levenshtein(a, b) <= if a.len() >= b.len() { a.len() } else { b.len() },
    decreases a.len() + b.len(),
{
    if a.len() > 0 && b.len() > 0 {
        lema_levenshtein_acotada(a.drop_last(), b.drop_last());
    }
}

/// La distancia de una cadena a sí misma es cero.
pub proof fn ley_levenshtein_identidad(a: Seq<char>)
    ensures levenshtein(a, a) == 0,
    decreases a.len(),
{
    if a.len() > 0 {
        ley_levenshtein_identidad(a.drop_last());
    }
}

/// Distancia de edición entre dos secuencias de caracteres, por programación
/// dinámica con dos filas.
pub fn edit_distance(a: &[char], b: &[char]) -> (r: usize)
    requires
        a@.len() < usize::MAX,
        b@.len() < usize::MAX,
    ensures
        r == levenshtein(a@, b@),
{
    let m = a.len();
    let n = b.len();

    let mut prev: Vec<usize> = Vec::new();
    let mut j: usize = 0;
    while j <= n
        invariant
            n == b@.len(),
            n < usize::MAX,
            j <= n + 1,
            prev@.len() == j,
            forall|k: int| 0 <= k < j ==> prev@[k] == k,
        decreases n + 1 - j,
    {
        prev.push(j);
        j = j + 1;
    }
    proof {
        assert forall|k: int| 0 <= k <= n implies prev@[k] == levenshtein(a@.take(0), b@.take(k)) by {
            assert(a@.take(0).len() == 0);
        }
    }
    let mut curr: Vec<usize> = Vec::new();
    let mut k: usize = 0;
    while k <= n
        invariant
            n < usize::MAX,
            k <= n + 1,
            curr@.len() == k,
        decreases n + 1 - k,
    {
        curr.push(0);
        k = k + 1;
    }

    let mut i: usize = 1;
    while i <= m
        invariant
            m == a@.len(),
            n == b@.len(),
            m < usize::MAX,
            n < usize::MAX,
            1 <= i <= m + 1,
            prev@.len() == n + 1,
            curr@.len() == n + 1,
            forall|k: int| 0 <= k <= n ==> #[trigger] prev@[k] == levenshtein(a@.take(i - 1), b@.take(k)),
        decreases m + 1 - i,
    {
        let ai = a[i - 1];
        proof {
            assert(a@.take(i as int).len() == i);
            assert(a@.take(i as int).drop_last() =~= a@.take(i - 1));
            assert(a@.take(i as int).last() == ai);
            assert(b@.take(0).len() == 0);
        }
        curr.set(0, i);
        let mut j: usize = 1;
        while j <= n
            invariant
                m == a@.len(),
                n == b@.len(),
                m < usize::MAX,
                n < usize::MAX,
                1 <= i <= m,
                1 <= j <= n + 1,
                ai == a@[i - 1],
                a@.take(i as int).drop_last() == a@.take(i - 1),
                a@.take(i as int).last() == ai,
                a@.take(i as int).len() == i,
                prev@.len() == n + 1,
                curr@.len() == n + 1,
                forall|k: int| 0 <= k <= n ==> #[trigger] prev@[k] == levenshtein(a@.take(i - 1), b@.take(k)),
                forall|k: int| 0 <= k < j ==> #[trigger] curr@[k] == levenshtein(a@.take(i as int), b@.take(k)),
            decreases n + 1 - j,
        {
            let bj = b[j - 1];
            proof {
                assert(b@.take(j as int).drop_last() =~= b@.take(j - 1));
                assert(b@.take(j as int).last() == bj);
                assert(b@.take(j as int).len() == j);
                lema_levenshtein_acotada(a@.take(i - 1), b@.take(j as int));
                lema_levenshtein_acotada(a@.take(i as int), b@.take(j - 1));
                lema_levenshtein_acotada(a@.take(i - 1), b@.take(j - 1));
            }
            let cost: usize = if ai == bj { 0 } else { 1 };
            let borrar = prev[j] + 1;
            let insertar = curr[j - 1] + 1;
            let sustituir = prev[j - 1] + cost;
            let mejor = if borrar <= insertar && borrar <= sustituir {
                borrar
            } else if insertar <= sustituir {
                insertar
            } else {
                sustituir
            };
            curr.set(j, mejor);
            j = j + 1;
        }
        std::mem::swap(&mut prev, &mut curr);
        i = i + 1;
    }
    proof {
        assert(a@.take(m as int) =~= a@);
        assert(b@.take(n as int) =~= b@);
    }
    prev[n]
}

/// La distancia de edición es simétrica: transformar `a` en `b` cuesta lo
/// mismo que transformar `b` en `a`.
pub proof fn ley_levenshtein_simetrica(a: Seq<char>, b: Seq<char>)
    ensures levenshtein(a, b) == levenshtein(b, a),
    decreases a.len() + b.len(),
{
    if a.len() > 0 && b.len() > 0 {
        ley_levenshtein_simetrica(a.drop_last(), b);
        ley_levenshtein_simetrica(a, b.drop_last());
        ley_levenshtein_simetrica(a.drop_last(), b.drop_last());
    }
}

/// La distancia es nula exactamente cuando los dos textos son iguales.
pub proof fn ley_levenshtein_nula(a: Seq<char>, b: Seq<char>)
    ensures levenshtein(a, b) == 0 <==> a == b,
    decreases a.len() + b.len(),
{
    if a == b {
        ley_levenshtein_identidad(a);
    } else if a.len() > 0 && b.len() > 0 {
        ley_levenshtein_nula(a.drop_last(), b.drop_last());
        if levenshtein(a, b) == 0 {
            assert(a.drop_last() == b.drop_last());
            assert(a.last() == b.last());
            assert(a =~= a.drop_last().push(a.last()));
            assert(b =~= b.drop_last().push(b.last()));
        }
    } else if a.len() == 0 {
        assert(b.len() > 0) by {
            if b.len() == 0 { assert(a =~= b); }
        }
    } else {
        assert(a.len() > 0);
    }
}

/// La distancia nunca es menor que la diferencia de longitudes: cada
/// operación cambia la longitud en uno a lo sumo.
pub proof fn ley_levenshtein_cota_inferior(a: Seq<char>, b: Seq<char>)
    ensures
        levenshtein(a, b) >= a.len() - b.len(),
        levenshtein(a, b) >= b.len() - a.len(),
    decreases a.len() + b.len(),
{
    if a.len() > 0 && b.len() > 0 {
        ley_levenshtein_cota_inferior(a.drop_last(), b);
        ley_levenshtein_cota_inferior(a, b.drop_last());
        ley_levenshtein_cota_inferior(a.drop_last(), b.drop_last());
    }
}

/// Proporción `numerador / denominador` con denominador positivo.
#[derive(Debug, Clone, Copy, PartialEq, Eq, Structural)]
pub struct Razon {
    pub numerador: usize,
    pub denominador: usize,
}

/// Tasa de error por carácter de `predicho` frente a `referencia`: la
/// distancia de edición sobre la longitud de la referencia; con referencia
/// vacía vale 0 si la predicción también lo es y 1 si no.
pub open spec fn cer_spec(predicho: Seq<char>, referencia: Seq<char>) -> Razon {
    if referencia.len() == 0 {
        Razon { numerador: if predicho.len() == 0 { 0 } else { 1 }, denominador: 1 }
    } else {
        Razon { numerador: levenshtein(predicho, referencia) as usize, denominador: referencia.len() as usize }
    }
}

/// Tasa de error por carácter (CER) del texto inferido frente al de
/// referencia, como razón exacta. Puede superar 1 con muchas inserciones.
pub fn cer(predicted: &str, ground_truth: &str) -> (r: Razon)
    requires
        predicted@.len() < usize::MAX,
        ground_truth@.len() < usize::MAX,
    ensures
        r == cer_spec(predicted@, ground_truth@),
        r.denominador > 0,
{
    let gt = caracteres(ground_truth);
    let pred = caracteres(predicted);
    if gt.len() == 0 {
        return Razon { numerador: if pred.len() == 0 { 0 } else { 1 }, denominador: 1 };
    }
    let d = edit_distance(pred.as_slice(), gt.as_slice());
    Razon { numerador: d, denominador: gt.len() }
}

proof fn lema_levenshtein_vacia(b: Seq<char>)
    ensures levenshtein(Seq::empty(), b) == b.len(),
{
}

/// Con una predicción vacía y una referencia no vacía, el CER vale 1: hay
/// que insertar cada carácter de la referencia.
pub proof fn ley_cer_prediccion_vacia(referencia: Seq<char>)
    requires referencia.len() > 0,
    ensures
        cer_spec(Seq::empty(), referencia).numerador == cer_spec(Seq::empty(), referencia).denominador,
{
    lema_levenshtein_vacia(referencia);
}

/// Un texto idéntico a su referencia tiene CER nulo.
pub proof fn ley_cer_identicos(s: Seq<char>)
    ensures cer_spec(s, s).numerador == 0,
{
    ley_levenshtein_identidad(s);
}

} // verus!
