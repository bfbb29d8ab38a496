use vstd::prelude::*;

verus! {

/// Imagen rasterizada de una página, tal como sale del lector de entrada.
#[derive(Debug, Clone)]
pub struct PageImage {
    pub datos: Vec<u8>,
    pub ancho: u32,
    pub alto: u32,
    pub numero_pagina: u32,
}

/// La página `a` va antes que la `b` por número (y, a igual número, por su
/// posición de llegada).
pub open spec fn antes(numeros: Seq<u32>, a: usize, b: usize) -> bool {
    numeros[a as int] < numeros[b as int] || (numeros[a as int] == numeros[b as int] && a < b)
}

/// `x` aparece en `orden`.
pub open spec fn aparece(orden: Seq<usize>, x: int) -> bool {
    exists|i: int| 0 <= i < orden.len() && orden[i] == x
}

/// `orden` recorre cada posición `0..n` exactamente una vez, de menor a
/// mayor número de página y, a igual número, en el orden de llegada.
pub open spec fn orden_estable(numeros: Seq<u32>, orden: Seq<usize>) -> bool {
    &&& orden.len() == numeros.len()
    &&& forall|i: int| 0 <= i < orden.len() ==> #[trigger] orden[i] < numeros.len()
    &&& forall|i: int, j: int| 0 <= i < j < orden.len() ==> antes(numeros, #[trigger] orden[i], #[trigger] orden[j])
    &&& forall|x: int| 0 <= x < numeros.len() ==> #[trigger] aparece(orden, x)
}

/// Orden en que quedan las páginas procesadas (que pueden llegar en
/// cualquier orden): por número de página, conservando el orden de llegada
/// entre iguales.
pub fn orden_de_paginas(numeros: &[u32]) -> (r: Vec<usize>)
    ensures orden_estable(numeros@, r@),
{
    let n = numeros.len();
    let mut r: Vec<usize> = Vec::new();
    let mut i: usize = 0;
    while i < n
        invariant
            n == numeros@.len(),
            i <= n,
            r@.len() == i,
            forall|a: int| 0 <= a < r@.len() ==> #[trigger] r@[a] < i,
            forall|a: int, b: int| 0 <= a < b < r@.len() ==> antes(numeros@, #[trigger] r@[a], #[trigger] r@[b]),
            forall|x: int| 0 <= x < i ==> #[trigger] aparece(r@, x),
        decreases n - i,
    {
        let mut pos: usize = 0;
        while pos < r.len() && (numeros[r[pos]] <= numeros[i])
            invariant
                n == numeros@.len(),
                i < n,
                pos <= r@.len(),
                forall|a: int| 0 <= a < r@.len() ==> #[trigger] r@[a] < i,
                forall|a: int| 0 <= a < pos ==> antes(numeros@, #[trigger] r@[a], i),
            decreases r@.len() - pos,
        {
            pos = pos + 1;
        }
        let ghost viejo = r@;
        proof {
            if pos < viejo.len() {
                assert(!antes(numeros@, viejo[pos as int], i));
            }
        }
        r.insert(pos, i);
        proof {
            assert(r@ == viejo.insert(pos as int, i));
            assert forall|a: int| 0 <= a < r@.len() implies #[trigger] r@[a] < i + 1 by {
                if a < pos { assert(r@[a] == viejo[a]); }
                else if a > pos { assert(r@[a] == viejo[a - 1]); }
            }
            assert forall|a: int, b: int| 0 <= a < b < r@.len() implies antes(numeros@, #[trigger] r@[a], #[trigger] r@[b]) by {
                if b < pos {
                    assert(r@[a] == viejo[a] && r@[b] == viejo[b]);
                } else if b == pos {
                    assert(r@[a] == viejo[a]);
                } else if a < pos {
                    assert(r@[a] == viejo[a] && r@[b] == viejo[b - 1]);
                    assert(antes(numeros@, viejo[a], i));
                } else if a == pos {
                    assert(r@[b] == viejo[b - 1]);
                    if b - 1 > pos {
                        assert(antes(numeros@, viejo[pos as int], viejo[b - 1]));
                    }
                } else {
                    assert(r@[a] == viejo[a - 1] && r@[b] == viejo[b - 1]);
                }
            }
            assert forall|x: int| 0 <= x < i + 1 implies #[trigger] aparece(r@, x) by {
                if x == i {
                    assert(r@[pos as int] == i);
                } else {
                    assert(aparece(viejo, x));
                    let a = choose|a: int| 0 <= a < viejo.len() && viejo[a] == x;
                    if a < pos {
                        assert(r@[a] == x);
                    } else {
                        assert(r@[a + 1] == x);
                    }
                }
            }
        }
        i = i + 1;
    }
    r
}

} // verus!
