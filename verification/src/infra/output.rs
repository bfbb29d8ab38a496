use vstd::prelude::*;

use crate::traits::composer::ComposedPage;
use crate::texto::{agregar_decimal, agregar_str, cadena, decimal};

verus! {

/// Encabezado que precede al texto de cada página en la salida de texto plano.
pub open spec fn encabezado_pagina(n: nat) -> Seq<char> {
    "--- Página "@ + decimal(n) + " ---\n"@
}

/// Texto plano de un documento: cada página precedida de su encabezado y
/// separada de la anterior por un salto de línea.
pub open spec fn texto_plano(paginas: Seq<ComposedPage>) -> Seq<char>
    decreases paginas.len(),
{
    if paginas.len() == 0 {
        Seq::empty()
    } else {
        let ultima = paginas.last();
        texto_plano(paginas.drop_last())
            + (if paginas.len() > 1 { "\n"@ } else { Seq::empty() })
            + encabezado_pagina(ultima.numero_pagina as nat)
            + ultima.texto_extraido@
    }
}

proof fn lema_texto_plano_no_vacio(paginas: Seq<ComposedPage>)
    requires paginas.len() > 0,
    ensures texto_plano(paginas).len() > 0,
{
    reveal_strlit("--- Página ");
    assert(texto_plano(paginas).len() >= encabezado_pagina(paginas.last().numero_pagina as nat).len());
}

/// Ruta de salida con la extensión dada (`ruta` + `ext`).
pub open spec fn con_extension(ruta: Seq<char>, ext: Seq<char>) -> Seq<char> {
    ruta + ext
}

fn agregar_extension(ruta: &str, ext: &str) -> (r: String)
    ensures r@ == con_extension(ruta@, ext@),
{
    let mut v: Vec<char> = Vec::new();
    agregar_str(&mut v, ruta);
    agregar_str(&mut v, ext);
    cadena(&v)
}

/// Generador de la salida en texto plano.
pub struct TxtOutputGenerator;

impl TxtOutputGenerator {
    /// Contenido del archivo de texto para las páginas compuestas.
    pub fn contenido(&self, paginas: &[ComposedPage]) -> (r: String)
        ensures r@ == texto_plano(paginas@),
    {
        let mut v: Vec<char> = Vec::new();
        let mut i: usize = 0;
        while i < paginas.len()
            invariant
                i <= paginas@.len(),
                v@ == texto_plano(paginas@.subrange(0, i as int)),
            decreases paginas@.len() - i,
        {
            let ghost previo = v@;
            let p = &paginas[i];
            assert(paginas@.subrange(0, i as int + 1).drop_last() =~= paginas@.subrange(0, i as int));
            if i > 0 {
                proof { lema_texto_plano_no_vacio(paginas@.subrange(0, i as int)); }
                agregar_str(&mut v, "\n");
            }
            agregar_str(&mut v, "--- Página ");
            agregar_decimal(&mut v, p.numero_pagina as u128);
            agregar_str(&mut v, " ---\n");
            agregar_str(&mut v, p.texto_extraido.as_str());
            assert(v@ =~= texto_plano(paginas@.subrange(0, i as int + 1)));
            i = i + 1;
        }
        assert(paginas@.subrange(0, paginas@.len() as int) =~= paginas@);
        cadena(&v)
    }

    /// Archivo de salida: el prefijo con extensión `.txt`.
    pub fn ruta(&self, ruta_salida: &str) -> (r: String)
        ensures r@ == con_extension(ruta_salida@, ".txt"@),
    {
        agregar_extension(ruta_salida, ".txt")
    }
}

/// Archivo de la página `n` cuando el documento tiene varias: `ruta_p{n}.pdf`.
pub open spec fn ruta_pdf_pagina(ruta: Seq<char>, n: nat) -> Seq<char> {
    ruta + "_p"@ + decimal(n) + ".pdf"@
}

/// Generador de la salida PDF: un archivo si hay una sola página, uno por
/// página si hay varias.
pub struct PdfOutputGenerator;

impl PdfOutputGenerator {
    /// Archivo en que se escribe cada página, en el orden de `paginas`.
    pub fn rutas(&self, paginas: &[ComposedPage], ruta_salida: &str) -> (r: Vec<String>)
        ensures
            r@.len() == paginas@.len(),
            paginas@.len() == 1 ==> r@[0]@ == con_extension(ruta_salida@, ".pdf"@),
            paginas@.len() > 1 ==> forall|i: int| 0 <= i < r@.len() ==>
                #[trigger] r@[i]@ == ruta_pdf_pagina(ruta_salida@, paginas@[i].numero_pagina as nat),
    {
        let mut r: Vec<String> = Vec::new();
        if paginas.len() == 1 {
            r.push(agregar_extension(ruta_salida, ".pdf"));
            return r;
        }
        let mut i: usize = 0;
        while i < paginas.len()
            invariant
                paginas@.len() != 1,
                i <= paginas@.len(),
                r@.len() == i,
                forall|k: int| 0 <= k < i ==>
                    #[trigger] r@[k]@ == ruta_pdf_pagina(ruta_salida@, paginas@[k].numero_pagina as nat),
            decreases paginas@.len() - i,
        {
            let mut v: Vec<char> = Vec::new();
            agregar_str(&mut v, ruta_salida);
            agregar_str(&mut v, "_p");
            agregar_decimal(&mut v, paginas[i].numero_pagina as u128);
            agregar_str(&mut v, ".pdf");
            assert(v@ =~= ruta_pdf_pagina(ruta_salida@, paginas@[i as int].numero_pagina as nat));
            r.push(cadena(&v));
            i = i + 1;
        }
        r
    }
}

/// Generador de la traza JSON del documento.
pub struct JsonOutputGenerator;

impl JsonOutputGenerator {
    /// Archivo de salida: el prefijo con extensión `.json`.
    pub fn ruta(&self, ruta_salida: &str) -> (r: String)
        ensures r@ == con_extension(ruta_salida@, ".json"@),
    {
        agregar_extension(ruta_salida, ".json")
    }
}

} // verus!
