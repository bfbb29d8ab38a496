use vstd::prelude::*;

use crate::block_type::BlockType;
use crate::texto::{agregar_decimal, agregar_str, cadena, decimal, ley_decimal};

verus! {

/// Clase del modelo de layout correspondiente a cada índice de salida.
pub open spec fn clase_spec(clase: usize) -> BlockType {
    if clase == 0 { BlockType::Caption }
    else if clase == 1 { BlockType::Footer }
    else if clase == 2 { BlockType::Formula }
    else if clase == 3 { BlockType::List }
    else if clase == 4 { BlockType::Footer }
    else if clase == 5 { BlockType::Header }
    else if clase == 6 { BlockType::Figure }
    else if clase == 7 || clase == 10 { BlockType::Title }
    else if clase == 8 { BlockType::Table }
    else if clase == 9 { BlockType::Text }
    else { BlockType::Unknown }
}

/// Traduce el índice de clase del detector de layout a la clase de región.
pub fn clase_a_block_type(clase: usize) -> (r: BlockType)
    ensures
        r == clase_spec(clase),
        r is Figure <==> clase == 6,
        r is Text <==> clase == 9,
        r is Title <==> (clase == 7 || clase == 10),
        r is Table <==> clase == 8,
        r is Unknown <==> clase > 10,
{
    proof { ley_clases_del_detector(clase); }
    match clase {
        0 => BlockType::Caption,
        1 => BlockType::Footer,
        2 => BlockType::Formula,
        3 => BlockType::List,
        4 => BlockType::Footer,
        5 => BlockType::Header,
        6 => BlockType::Figure,
        7 | 10 => BlockType::Title,
        8 => BlockType::Table,
        9 => BlockType::Text,
        _ => BlockType::Unknown,
    }
}

/// Clases del detector de layout: qué índices producen cada clase de región.
/// Solo el índice 6 es una figura; el cuerpo de texto es el 9, los títulos el
/// 7 y el 10, la tabla el 8; los índices fuera de la tabla del detector son
/// desconocidos.
pub proof fn ley_clases_del_detector(clase: usize)
    ensures
        clase_spec(clase) is Caption <==> clase == 0,
        clase_spec(clase) is Footer <==> (clase == 1 || clase == 4),
        clase_spec(clase) is Formula <==> clase == 2,
        clase_spec(clase) is List <==> clase == 3,
        clase_spec(clase) is Header <==> clase == 5,
        clase_spec(clase) is Figure <==> clase == 6,
        clase_spec(clase) is Title <==> (clase == 7 || clase == 10),
        clase_spec(clase) is Table <==> clase == 8,
        clase_spec(clase) is Text <==> clase == 9,
        clase_spec(clase) is Unknown <==> clase > 10,
        !(clase_spec(clase) is PageNumber),
{
}

/// Matriz cuadrada de solapes entre detecciones: `s[i][j]` dice si la
/// intersección sobre unión de `i` y `j` supera el umbral.
pub open spec fn es_cuadrada(s: Seq<Vec<bool>>) -> bool {
    forall|i: int| 0 <= i < s.len() ==> #[trigger] s[i]@.len() == s.len()
}

/// La detección `i` solapa con alguna de las ya conservadas.
pub open spec fn suprimida(s: Seq<Vec<bool>>, marcas: Seq<bool>, i: int) -> bool {
    exists|j: int| 0 <= j < marcas.len() && #[trigger] marcas[j] && s[j]@[i]
}

/// Supresión de no máximos voraz sobre las detecciones ordenadas de mayor a
/// menor confianza: se conserva cada una que no solapa con una conservada
/// antes que ella.
pub open spec fn marcas_nms(s: Seq<Vec<bool>>, n: nat) -> Seq<bool>
    decreases n,
{
    if n == 0 {
        Seq::empty()
    } else {
        let previas = marcas_nms(s, (n - 1) as nat);
        previas.push(!suprimida(s, previas, n - 1))
    }
}

/// Posiciones marcadas, en orden.
pub open spec fn marcadas(marcas: Seq<bool>) -> Seq<usize>
    decreases marcas.len(),
{
    if marcas.len() == 0 {
        Seq::empty()
    } else {
        let previas = marcadas(marcas.drop_last());
        if marcas.last() { previas.push((marcas.len() - 1) as usize) } else { previas }
    }
}

proof fn lema_largo_marcas(s: Seq<Vec<bool>>, n: nat)
    ensures marcas_nms(s, n).len() == n,
    decreases n,
{
    if n > 0 {
        lema_largo_marcas(s, (n - 1) as nat);
    }
}

/// Posiciones (en el orden de confianza decreciente) de las detecciones que
/// sobreviven a la supresión de no máximos.
pub fn nms(solapa: &Vec<Vec<bool>>) -> (r: Vec<usize>)
    requires es_cuadrada(solapa@),
    ensures r@ == marcadas(marcas_nms(solapa@, solapa@.len())),
{
    let n = solapa.len();
    let mut suprimido: Vec<bool> = Vec::new();
    let mut j: usize = 0;
    while j < n
        invariant
            j <= n,
            suprimido@.len() == j,
            forall|k: int| 0 <= k < j ==> !#[trigger] suprimido@[k],
        decreases n - j,
    {
        suprimido.push(false);
        j = j + 1;
    }
    let mut r: Vec<usize> = Vec::new();
    let mut i: usize = 0;
    proof { lema_largo_marcas(solapa@, 0); }
    while i < n
        invariant
            i <= n == solapa@.len(),
            es_cuadrada(solapa@),
            suprimido@.len() == n,
            marcas_nms(solapa@, i as nat).len() == i,
            forall|k: int| i <= k < n ==>
                #[trigger] suprimido@[k] == suprimida(solapa@, marcas_nms(solapa@, i as nat), k),
            r@ == marcadas(marcas_nms(solapa@, i as nat)),
        decreases n - i,
    {
        let ghost previas = marcas_nms(solapa@, i as nat);
        let ghost nuevas = marcas_nms(solapa@, (i + 1) as nat);
        let conservar = !suprimido[i];
        assert(nuevas == previas.push(conservar));
        assert(nuevas.drop_last() =~= previas);
        if conservar {
            r.push(i);
            let mut k: usize = i + 1;
            while k < n
                invariant
                    i < k <= n == solapa@.len(),
                    es_cuadrada(solapa@),
                    suprimido@.len() == n,
                    nuevas == previas.push(true),
                    previas.len() == i,
                    forall|q: int| k <= q < n ==>
                        #[trigger] suprimido@[q] == suprimida(solapa@, previas, q),
                    forall|q: int| i < q < k ==>
                        #[trigger] suprimido@[q] == suprimida(solapa@, nuevas, q),
                decreases n - k,
            {
                let ghost antes = suprimido@[k as int];
                assert(solapa@[i as int]@.len() == n);
                if solapa[i][k] {
                    suprimido.set(k, true);
                    assert(nuevas[i as int] && solapa@[i as int]@[k as int]);
                }
                proof {
                    if !solapa@[i as int]@[k as int] {
                        if suprimida(solapa@, nuevas, k as int) {
                            let w = choose|w: int| 0 <= w < nuevas.len() && #[trigger] nuevas[w] && solapa@[w]@[k as int];
                            assert(w < i);
                            assert(previas[w]);
                        }
                        if antes {
                            let w = choose|w: int| 0 <= w < previas.len() && #[trigger] previas[w] && solapa@[w]@[k as int];
                            assert(nuevas[w]);
                        }
                    } else {
                        assert(nuevas[i as int] && solapa@[i as int]@[k as int]);
                    }
                }
                k = k + 1;
            }
        } else {
            proof {
                assert forall|q: int| i + 1 <= q < n implies
                    #[trigger] suprimido@[q] == suprimida(solapa@, nuevas, q) by {
                    if suprimida(solapa@, nuevas, q) {
                        let w = choose|w: int| 0 <= w < nuevas.len() && #[trigger] nuevas[w] && solapa@[w]@[q];
                        assert(w < i);
                        assert(previas[w]);
                    }
                    if suprimida(solapa@, previas, q) {
                        let w = choose|w: int| 0 <= w < previas.len() && #[trigger] previas[w] && solapa@[w]@[q];
                        assert(nuevas[w]);
                    }
                }
            }
        }
        i = i + 1;
    }
    r
}

/// Tras la supresión, ninguna detección conservada solapa con otra
/// conservada de mayor confianza, y toda detección descartada solapa con
/// alguna conservada de mayor confianza.
pub proof fn ley_nms(s: Seq<Vec<bool>>, n: nat)
    ensures
        marcas_nms(s, n).len() == n,
        forall|i: int, j: int| 0 <= i < j < n && #[trigger] marcas_nms(s, n)[i] && #[trigger] marcas_nms(s, n)[j]
            ==> !s[i]@[j],
        forall|j: int| 0 <= j < n && !#[trigger] marcas_nms(s, n)[j]
            ==> exists|i: int| 0 <= i < j && marcas_nms(s, n)[i] && s[i]@[j],
    decreases n,
{
    lema_largo_marcas(s, n);
    if n > 0 {
        let previas = marcas_nms(s, (n - 1) as nat);
        let m = marcas_nms(s, n);
        ley_nms(s, (n - 1) as nat);
        assert(m == previas.push(!suprimida(s, previas, n - 1)));
        assert forall|i: int, j: int| 0 <= i < j < n && #[trigger] m[i] && #[trigger] m[j] implies !s[i]@[j] by {
            assert(m[i] == previas[i]);
            if j < n - 1 {
                assert(m[j] == previas[j]);
                assert(previas[i] && previas[j]);
            } else {
                if s[i]@[j] {
                    assert(previas[i] && s[i]@[n - 1]);
                    assert(suprimida(s, previas, n - 1));
                }
            }
        }
        assert forall|j: int| 0 <= j < n && !#[trigger] m[j] implies exists|i: int| 0 <= i < j && m[i] && s[i]@[j] by {
            if j < n - 1 {
                assert(m[j] == previas[j]);
                let i = choose|i: int| 0 <= i < j && previas[i] && s[i]@[j];
                assert(m[i] == previas[i]);
            } else {
                assert(suprimida(s, previas, j));
                let i = choose|i: int| 0 <= i < previas.len() && #[trigger] previas[i] && s[i]@[j];
                assert(m[i] == previas[i]);
            }
        }
    }
}

/// Identificador de la región `idx` de la página.
pub open spec fn id_region_spec(numero_pagina: nat, idx: nat) -> Seq<char> {
    "blk_"@ + decimal(numero_pagina) + "_"@ + decimal(idx)
}

/// Regiones distintas reciben identificadores distintos: el identificador
/// determina la página y la posición de la región.
pub proof fn ley_id_region_inyectivo(p1: nat, i1: nat, p2: nat, i2: nat)
    ensures
        id_region_spec(p1, i1) == id_region_spec(p2, i2) ==> p1 == p2 && i1 == i2,
{
    reveal_strlit("blk_");
    reveal_strlit("_");
    let d1 = decimal(p1);
    let d2 = decimal(p2);
    let e1 = decimal(i1);
    let e2 = decimal(i2);
    ley_decimal(p1, p2);
    ley_decimal(p2, p1);
    ley_decimal(i1, i2);
    let s1 = id_region_spec(p1, i1);
    let s2 = id_region_spec(p2, i2);
    if s1 == s2 {
        assert(s1 =~= "blk_"@ + d1 + "_"@ + e1);
        assert(s2 =~= "blk_"@ + d2 + "_"@ + e2);
        if d1.len() < d2.len() {
            assert(s1[4 + d1.len() as int] == '_');
            assert(s2[4 + d1.len() as int] == d2[d1.len() as int]);
            assert(crate::texto::es_cifra(d2[d1.len() as int]));
        } else if d2.len() < d1.len() {
            assert(s2[4 + d2.len() as int] == '_');
            assert(s1[4 + d2.len() as int] == d1[d2.len() as int]);
            assert(crate::texto::es_cifra(d1[d2.len() as int]));
        }
        assert(d1.len() == d2.len());
        assert(s1.subrange(4, 4 + d1.len() as int) =~= d1);
        assert(s2.subrange(4, 4 + d2.len() as int) =~= d2);
        assert(s1.subrange(5 + d1.len() as int, s1.len() as int) =~= e1);
        assert(s2.subrange(5 + d2.len() as int, s2.len() as int) =~= e2);
    }
}

pub fn id_region(numero_pagina: u32, idx: usize) -> (r: String)
    ensures r@ == id_region_spec(numero_pagina as nat, idx as nat),
{
    let mut v: Vec<char> = Vec::new();
    agregar_str(&mut v, "blk_");
    agregar_decimal(&mut v, numero_pagina as u128);
    agregar_str(&mut v, "_");
    agregar_decimal(&mut v, idx as u128);
    assert(v@ =~= id_region_spec(numero_pagina as nat, idx as nat));
    cadena(&v)
}

} // verus!
