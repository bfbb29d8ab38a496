use vstd::prelude::*;

use crate::eval::Razon;

verus! {

/// Clase del contenido con que quedó un bloque.
#[derive(Debug, Clone, Copy, PartialEq, Eq, Structural)]
pub enum ClaseContenido {
    Texto,
    Tabla,
    Raster,
}

/// Estado en que terminó un bloque.
#[derive(Debug, Clone, Copy, PartialEq, Eq, Structural)]
pub enum EstadoFinal {
    Compuesto,
    Irresoluble,
    Otro,
}

/// Conteos de bloques de un documento.
#[derive(Debug, Clone, Copy, PartialEq, Eq, Structural)]
pub struct ConteoBloques {
    pub total_bloques_detectados: u32,
    pub bloques_resueltos_texto: u32,
    pub bloques_resueltos_tabla: u32,
    pub bloques_fallback_raster: u32,
    pub bloques_irresolubles: u32,
}

pub open spec fn suma(s: Seq<u32>) -> nat
    decreases s.len(),
{
    if s.len() == 0 { 0 } else { suma(s.drop_last()) + (s.last() as nat) }
}

/// Bloques compuestos con contenido de la clase dada.
pub open spec fn compuestos(bs: Seq<(ClaseContenido, EstadoFinal)>, c: ClaseContenido) -> nat
    decreases bs.len(),
{
    if bs.len() == 0 {
        0
    } else {
        compuestos(bs.drop_last(), c) + if bs.last() == (c, EstadoFinal::Compuesto) { 1nat } else { 0nat }
    }
}

pub open spec fn irresolubles(bs: Seq<(ClaseContenido, EstadoFinal)>) -> nat
    decreases bs.len(),
{
    if bs.len() == 0 {
        0
    } else {
        irresolubles(bs.drop_last()) + if bs.last().1 == EstadoFinal::Irresoluble { 1nat } else { 0nat }
    }
}

proof fn lema_cotas(bs: Seq<(ClaseContenido, EstadoFinal)>)
    ensures
        compuestos(bs, ClaseContenido::Texto) <= bs.len(),
        compuestos(bs, ClaseContenido::Tabla) <= bs.len(),
        compuestos(bs, ClaseContenido::Raster) <= bs.len(),
        irresolubles(bs) <= bs.len(),
    decreases bs.len(),
{
    if bs.len() > 0 {
        lema_cotas(bs.drop_last());
    }
}

/// Cuenta las regiones detectadas en todas las páginas (`regiones` trae
/// cuántas tiene cada una) y clasifica los bloques resueltos: los
/// compuestos según su contenido y los que quedaron sin resolver.
pub fn contar_bloques(regiones: &[u32], bloques: &[(ClaseContenido, EstadoFinal)]) -> (r: ConteoBloques)
    requires
        suma(regiones@) <= u32::MAX,
        bloques@.len() <= u32::MAX,
    ensures
        r.total_bloques_detectados == suma(regiones@),
        r.bloques_resueltos_texto == compuestos(bloques@, ClaseContenido::Texto),
        r.bloques_resueltos_tabla == compuestos(bloques@, ClaseContenido::Tabla),
        r.bloques_fallback_raster == compuestos(bloques@, ClaseContenido::Raster),
        r.bloques_irresolubles == irresolubles(bloques@),
{
    let mut total: u32 = 0;
    let mut i: usize = 0;
    while i < regiones.len()
        invariant
            i <= regiones@.len(),
            suma(regiones@) <= u32::MAX,
            total == suma(regiones@.subrange(0, i as int)),
            suma(regiones@.subrange(0, i as int)) <= suma(regiones@),
        decreases regiones.len() - i,
    {
        assert(regiones@.subrange(0, i + 1).drop_last() =~= regiones@.subrange(0, i as int));
        proof { lema_suma_prefijo(regiones@, i + 1); }
        total = total + regiones[i];
        i = i + 1;
    }
    assert(regiones@.subrange(0, regiones@.len() as int) =~= regiones@);
    let mut r = ConteoBloques {
        total_bloques_detectados: total,
        bloques_resueltos_texto: 0,
        bloques_resueltos_tabla: 0,
        bloques_fallback_raster: 0,
        bloques_irresolubles: 0,
    };
    let mut j: usize = 0;
    while j < bloques.len()
        invariant
            j <= bloques@.len() <= u32::MAX,
            r.total_bloques_detectados == suma(regiones@),
            r.bloques_resueltos_texto == compuestos(bloques@.subrange(0, j as int), ClaseContenido::Texto),
            r.bloques_resueltos_tabla == compuestos(bloques@.subrange(0, j as int), ClaseContenido::Tabla),
            r.bloques_fallback_raster == compuestos(bloques@.subrange(0, j as int), ClaseContenido::Raster),
            r.bloques_irresolubles == irresolubles(bloques@.subrange(0, j as int)),
        decreases bloques.len() - j,
    {
        let ghost previo = bloques@.subrange(0, j as int);
        assert(bloques@.subrange(0, j + 1).drop_last() =~= previo);
        proof { lema_cotas(previo); }
        let (clase, estado) = bloques[j];
        match estado {
            EstadoFinal::Compuesto => match clase {
                ClaseContenido::Texto => r.bloques_resueltos_texto = r.bloques_resueltos_texto + 1,
                ClaseContenido::Tabla => r.bloques_resueltos_tabla = r.bloques_resueltos_tabla + 1,
                ClaseContenido::Raster => r.bloques_fallback_raster = r.bloques_fallback_raster + 1,
            },
            EstadoFinal::Irresoluble => r.bloques_irresolubles = r.bloques_irresolubles + 1,
            EstadoFinal::Otro => {},
        }
        j = j + 1;
    }
    assert(bloques@.subrange(0, bloques@.len() as int) =~= bloques@);
    r
}

/// Proporción de bloques detectados que terminaron preservados como
/// raster (0 si no se detectó ninguno).
pub open spec fn tasa_fallback_spec(c: ConteoBloques) -> Razon {
    if c.total_bloques_detectados == 0 {
        Razon { numerador: 0, denominador: 1 }
    } else {
        Razon { numerador: c.bloques_fallback_raster as usize, denominador: c.total_bloques_detectados as usize }
    }
}

pub fn tasa_fallback(c: &ConteoBloques) -> (r: Razon)
    ensures
        r == tasa_fallback_spec(*c),
        r.denominador > 0,
{
    if c.total_bloques_detectados == 0 {
        Razon { numerador: 0, denominador: 1 }
    } else {
        Razon { numerador: c.bloques_fallback_raster as usize, denominador: c.total_bloques_detectados as usize }
    }
}

proof fn lema_suma_prefijo(s: Seq<u32>, k: int)
    requires 0 <= k <= s.len(),
    ensures suma(s.subrange(0, k)) <= suma(s),
    decreases s.len() - k,
{
    if k < s.len() {
        lema_suma_prefijo(s, k + 1);
        assert(s.subrange(0, k + 1).drop_last() =~= s.subrange(0, k));
    } else {
        assert(s.subrange(0, k) =~= s);
    }
}

} // verus!
