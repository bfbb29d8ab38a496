use vstd::prelude::*;

verus! {

/// Primer resolutor, en orden de registro, que acepta la clase de la
/// región: `aceptan[i]` dice si el `i`-ésimo la acepta.
pub fn primer_aceptante(aceptan: &[bool]) -> (r: Option<usize>)
    ensures
        match r {
            Some(i) => i < aceptan@.len() && aceptan@[i as int]
                && forall|j: int| 0 <= j < i ==> !#[trigger] aceptan@[j],
            None => forall|j: int| 0 <= j < aceptan@.len() ==> !#[trigger] aceptan@[j],
        },
{
    let mut i: usize = 0;
    while i < aceptan.len()
        invariant
            i <= aceptan@.len(),
            forall|j: int| 0 <= j < i ==> !#[trigger] aceptan@[j],
        decreases aceptan.len() - i,
    {
        if aceptan[i] {
            return Some(i);
        }
        i = i + 1;
    }
    None
}

} // verus!
