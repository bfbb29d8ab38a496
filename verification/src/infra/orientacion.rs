use vstd::prelude::*;

verus! {

/// Lado del recorte cuadrado que recibe el clasificador de orientación.
pub const INPUT_SIZE: u32 = 224;

/// Confianza mínima (en millonésimas) para girar una página.
pub const CONFIDENCE_THRESHOLD: u32 = 850_000;

/// Orientación estimada: ángulo en grados, confianza en millonésimas y si la
/// estimación es dudosa.
#[derive(Debug, Clone, Copy, PartialEq, Eq, Structural)]
pub struct OrientationResult {
    pub angulo_grados: i32,
    pub confianza: u32,
    pub incierto: bool,
}

impl OrientationResult {
    /// Resultado que deja la imagen como está.
    pub fn sin_rotacion(confianza: u32, incierto: bool) -> (r: Self)
        ensures r == (OrientationResult { angulo_grados: 0, confianza, incierto }),
    {
        OrientationResult { angulo_grados: 0, confianza, incierto }
    }
}

/// Ángulo asociado a cada clase del clasificador (las clases por encima de
/// la última se leen como la última).
pub open spec fn angulo_de_clase(clase: nat) -> int {
    if clase == 0 { 0 } else if clase == 1 { 90 } else if clase == 2 { 180 } else { 270 }
}

/// Decisión sobre una página: el resultado y cuántos cuartos de vuelta hay
/// que girar la imagen (`None` si se deja como está).
pub open spec fn decision_pagina(clase: nat, confianza: nat) -> (OrientationResult, Option<u32>) {
    if confianza < CONFIDENCE_THRESHOLD || clase == 0 {
        (OrientationResult { angulo_grados: 0, confianza: confianza as u32, incierto: confianza < CONFIDENCE_THRESHOLD }, None)
    } else {
        (
            OrientationResult { angulo_grados: angulo_de_clase(clase) as i32, confianza: confianza as u32, incierto: false },
            if clase <= 3 { Some(clase as u32) } else { None },
        )
    }
}

/// Decide la corrección de una página a partir de la clase más probable del
/// clasificador y su probabilidad (en millonésimas).
pub fn decidir_pagina(clase: usize, confianza: u32) -> (r: (OrientationResult, Option<u32>))
    ensures
        r == decision_pagina(clase as nat, confianza as nat),
        r.1 is Some <==> (confianza >= CONFIDENCE_THRESHOLD && 1 <= clase <= 3),
        forall|k: u32| r.1 == Some(k) ==> k == clase && r.0.angulo_grados == 90 * k,
{
    if confianza < CONFIDENCE_THRESHOLD || clase == 0 {
        return (OrientationResult::sin_rotacion(confianza, confianza < CONFIDENCE_THRESHOLD), None);
    }
    let angulo: i32 = if clase == 1 { 90 } else if clase == 2 { 180 } else { 270 };
    let giro: Option<u32> = if clase == 1 { Some(1) } else if clase == 2 { Some(2) } else if clase == 3 { Some(3) } else { None };
    (OrientationResult { angulo_grados: angulo, confianza, incierto: false }, giro)
}

/// La página se gira solo con una clase de giro (1, 2 o 3) clasificada con
/// confianza suficiente; entonces se aplican exactamente `clase` cuartos de
/// vuelta, y el ángulo informado es el de esos cuartos de vuelta. Si no se
/// gira, el resultado dice 0 grados salvo para una clase fuera de la tabla.
pub proof fn ley_giro_de_pagina(clase: nat, confianza: nat)
    requires
        confianza <= u32::MAX,
    ensures
        ({
            let (res, giro) = decision_pagina(clase, confianza);
            &&& giro is Some <==> (confianza >= CONFIDENCE_THRESHOLD && 1 <= clase <= 3)
            &&& forall|k: u32| giro == Some(k) ==> k == clase && res.angulo_grados == 90 * k
            &&& (giro is None && clase <= 3) ==> res.angulo_grados == 0
            &&& res.confianza == confianza
            &&& res.incierto <==> confianza < CONFIDENCE_THRESHOLD
        }),
{
}

/// Tamaño al que se escala la página antes de recortar su centro: el lado
/// menor pasa a medir `INPUT_SIZE` conservando la proporción.
pub open spec fn escala_preproceso(w: nat, h: nat) -> (nat, nat) {
    if w <= h {
        (INPUT_SIZE as nat, (h * INPUT_SIZE as nat) / w)
    } else {
        ((w * INPUT_SIZE as nat) / h, INPUT_SIZE as nat)
    }
}

/// Desplazamiento del recorte centrado sobre un lado escalado.
pub open spec fn desplazamiento(lado: nat) -> nat {
    if lado >= INPUT_SIZE { ((lado - INPUT_SIZE) as nat) / 2 } else { 0 }
}

/// Dimensiones escaladas y desplazamientos del recorte central para una
/// página de `w × h` píxeles.
pub fn geometria_preproceso(w: u32, h: u32) -> (r: (u32, u32, u32, u32))
    requires
        w > 0,
        h > 0,
        w <= h ==> h * INPUT_SIZE <= u32::MAX,
        w > h ==> w * INPUT_SIZE <= u32::MAX,
    ensures
        (r.0 as nat, r.1 as nat) == escala_preproceso(w as nat, h as nat),
        r.2 == desplazamiento(r.0 as nat),
        r.3 == desplazamiento(r.1 as nat),
{
    let (nw, nh) = if w <= h { (INPUT_SIZE, h * INPUT_SIZE / w) } else { (w * INPUT_SIZE / h, INPUT_SIZE) };
    let x_off = nw.saturating_sub(INPUT_SIZE) / 2;
    let y_off = nh.saturating_sub(INPUT_SIZE) / 2;
    (nw, nh, x_off, y_off)
}

} // verus!
