use vstd::prelude::*;

use crate::resolved::ResolvedContent;
use crate::texto::{agregar_str, cadena, iguales};

verus! {

/// Une las celdas de una fila con `" | "`.
pub open spec fn unir_celdas(fila: Seq<String>) -> Seq<char>
    decreases fila.len(),
{
    if fila.len() == 0 {
        Seq::empty()
    } else if fila.len() == 1 {
        fila[0]@
    } else {
        unir_celdas(fila.drop_last()) + " | "@ + fila.last()@
    }
}

/// Añade `pieza` al texto acumulado, separándola con `sep` si el acumulado
/// no está vacío.
pub open spec fn anexar(acc: Seq<char>, sep: char, pieza: Seq<char>) -> Seq<char> {
    if acc.len() == 0 { pieza } else { acc.push(sep) + pieza }
}

/// Añade las filas de una tabla, una por línea.
pub open spec fn anexar_filas(acc: Seq<char>, filas: Seq<Vec<String>>) -> Seq<char>
    decreases filas.len(),
{
    if filas.len() == 0 {
        acc
    } else {
        anexar(anexar_filas(acc, filas.drop_last()), '\n', unir_celdas(filas.last()@))
    }
}

/// Aporte de un contenido al texto de la página: el texto separado por un
/// espacio, cada fila de tabla en su línea y nada por una imagen.
pub open spec fn anexar_contenido(acc: Seq<char>, c: ResolvedContent) -> Seq<char> {
    match c {
        ResolvedContent::Text { texto } => anexar(acc, ' ', texto@),
        ResolvedContent::Table { datos } => anexar_filas(acc, datos.cells@),
        ResolvedContent::Raster { .. } => acc,
    }
}

/// Si `id` es el identificador de alguna de las regiones.
pub open spec fn region_presente(ids: Seq<String>, id: Seq<char>) -> bool {
    exists|i: int| 0 <= i < ids.len() && #[trigger] ids[i]@ == id
}

/// Texto seleccionable de una página: los bloques cuya región está en la
/// página, en orden.
pub open spec fn texto_de_pagina(ids: Seq<String>, bloques: Seq<(String, ResolvedContent)>) -> Seq<char>
    decreases bloques.len(),
{
    if bloques.len() == 0 {
        Seq::empty()
    } else {
        let previo = texto_de_pagina(ids, bloques.drop_last());
        if region_presente(ids, bloques.last().0@) {
            anexar_contenido(previo, bloques.last().1)
        } else {
            previo
        }
    }
}

fn contiene_id(ids: &[String], id: &String) -> (r: bool)
    ensures r == region_presente(ids@, id@),
{
    let mut i: usize = 0;
    while i < ids.len()
        invariant
            i <= ids@.len(),
            forall|j: int| 0 <= j < i ==> ids@[j]@ != id@,
        decreases ids.len() - i,
    {
        if iguales(ids[i].as_str(), id.as_str()) {
            return true;
        }
        i = i + 1;
    }
    false
}

fn anexar_en(acc: &mut Vec<char>, sep: char, pieza: &Vec<char>)
    ensures final(acc)@ == anexar(old(acc)@, sep, pieza@),
{
    if acc.len() > 0 {
        acc.push(sep);
    }
    let mut i: usize = 0;
    let ghost base = acc@;
    while i < pieza.len()
        invariant
            i <= pieza@.len(),
            acc@ == base + pieza@.subrange(0, i as int),
        decreases pieza.len() - i,
    {
        acc.push(pieza[i]);
        assert(pieza@.subrange(0, i + 1) =~= pieza@.subrange(0, i as int).push(pieza@[i as int]));
        i = i + 1;
    }
    assert(pieza@.subrange(0, pieza@.len() as int) =~= pieza@);
}

fn fila_unida(fila: &Vec<String>) -> (r: Vec<char>)
    ensures r@ == unir_celdas(fila@),
{
    let mut v: Vec<char> = Vec::new();
    let mut i: usize = 0;
    while i < fila.len()
        invariant
            i <= fila@.len(),
            v@ == unir_celdas(fila@.subrange(0, i as int)),
        decreases fila.len() - i,
    {
        let ghost previo = fila@.subrange(0, i as int);
        let ghost siguiente = fila@.subrange(0, i + 1);
        assert(siguiente.drop_last() =~= previo);
        if i > 0 {
            agregar_str(&mut v, " | ");
        }
        agregar_str(&mut v, fila[i].as_str());
        i = i + 1;
    }
    assert(fila@.subrange(0, fila@.len() as int) =~= fila@);
    v
}

/// Compone el PDF de cada página con texto seleccionable; aquí vive la parte
/// que decide qué texto queda extraído.
pub struct PrintPdfComposer;

impl PrintPdfComposer {
    /// Texto extraído de una página a partir de los identificadores de sus
    /// regiones y de los bloques resueltos (identificador de región y
    /// contenido). Los bloques sin región en la página no aportan texto.
    pub fn texto_extraido(&self, ids_regiones: &[String], bloques: &[(String, ResolvedContent)]) -> (r: String)
        ensures r@ == texto_de_pagina(ids_regiones@, bloques@),
    {
        let mut acc: Vec<char> = Vec::new();
        let mut i: usize = 0;
        while i < bloques.len()
            invariant
                i <= bloques@.len(),
                acc@ == texto_de_pagina(ids_regiones@, bloques@.subrange(0, i as int)),
            decreases bloques.len() - i,
        {
            let ghost previo = bloques@.subrange(0, i as int);
            assert(bloques@.subrange(0, i + 1).drop_last() =~= previo);
            let (id, contenido) = &bloques[i];
            if contiene_id(ids_regiones, id) {
                match contenido {
                    ResolvedContent::Text { texto } => {
                        let pieza = crate::texto::caracteres(texto.as_str());
                        anexar_en(&mut acc, ' ', &pieza);
                    },
                    ResolvedContent::Table { datos } => {
                        let ghost inicio = acc@;
                        let mut f: usize = 0;
                        while f < datos.cells.len()
                            invariant
                                f <= datos.cells@.len(),
                                acc@ == anexar_filas(inicio, datos.cells@.subrange(0, f as int)),
                            decreases datos.cells.len() - f,
                        {
                            assert(datos.cells@.subrange(0, f + 1).drop_last() =~= datos.cells@.subrange(0, f as int));
                            let fila = fila_unida(&datos.cells[f]);
                            anexar_en(&mut acc, '\n', &fila);
                            f = f + 1;
                        }
                        assert(datos.cells@.subrange(0, datos.cells@.len() as int) =~= datos.cells@);
                    },
                    ResolvedContent::Raster { .. } => {},
                }
            }
            i = i + 1;
        }
        assert(bloques@.subrange(0, bloques@.len() as int) =~= bloques@);
        cadena(&acc)
    }
}

} // verus!
