use vstd::prelude::*;

verus! {

/// Página ya compuesta: su PDF independiente y el texto que contiene.
#[derive(Debug, Clone)]
pub struct ComposedPage {
    pub numero_pagina: u32,
    pub pdf_bytes: Vec<u8>,
    pub texto_extraido: String,
}

} // verus!
