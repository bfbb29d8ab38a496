use vstd::prelude::*;

use crate::fsm::page::{siguiente_pagina, PageEvent, PageState};

verus! {

/// Razón con que se descarta una página en la que no se detectó ninguna
/// región.
pub open spec fn razon_sin_regiones() -> Seq<char> {
    "Sin regiones detectadas"@
}

/// Estados que se anuncian tras intentar corregir la orientación: si falló,
/// la página sigue degradada con la imagen original.
pub open spec fn estados_tras_orientacion(r: Result<(), String>) -> Seq<PageState> {
    match r {
        Ok(()) => seq![PageState::DetectingLayout],
        Err(e) => seq![PageState::Degraded { razon: e }, PageState::DetectingLayout],
    }
}

pub fn tras_orientacion(r: &Result<(), String>) -> (v: Vec<PageState>)
    ensures v@ == estados_tras_orientacion(*r),
{
    let mut v: Vec<PageState> = Vec::new();
    match r {
        Ok(()) => {},
        Err(e) => v.push(PageState::Degraded { razon: e.clone() }),
    }
    v.push(PageState::DetectingLayout);
    proof {
        assert(v@ =~= estados_tras_orientacion(*r));
    }
    v
}

/// Estados que se anuncian tras la detección de layout (con el número de
/// regiones o el error) y si la página sigue adelante; `sin_regiones` es
/// el texto de error cuando no se detectó ninguna región.
pub open spec fn estados_tras_layout(r: Result<usize, String>, sin_regiones: String) -> (Seq<PageState>, bool) {
    match r {
        Ok(n) => if n > 0 {
            (seq![PageState::ResolvingBlocks { total_bloques: n, bloques_terminados: 0 }], true)
        } else {
            (seq![PageState::Error { razon: sin_regiones }], false)
        },
        Err(e) => (seq![PageState::Error { razon: e }], false),
    }
}

pub fn tras_layout(r: &Result<usize, String>) -> (v: (Vec<PageState>, bool))
    ensures
        exists|m: String| m@ == razon_sin_regiones() && #[trigger] estados_tras_layout(*r, m) == (v.0@, v.1),
{
    let sin_regiones = String::from_str("Sin regiones detectadas");
    let ghost m = sin_regiones;
    let mut v: Vec<PageState> = Vec::new();
    let sigue = match r {
        Ok(n) => {
            if *n > 0 {
                v.push(PageState::ResolvingBlocks { total_bloques: *n, bloques_terminados: 0 });
                true
            } else {
                v.push(PageState::Error { razon: sin_regiones });
                false
            }
        },
        Err(e) => {
            v.push(PageState::Error { razon: e.clone() });
            false
        },
    };
    proof {
        assert(v@ =~= estados_tras_layout(*r, m).0);
        assert(estados_tras_layout(*r, m) == (v@, sigue));
    }
    (v, sigue)
}

/// Estado que se anuncia cuando todos los bloques están resueltos.
pub fn tras_resolucion() -> (v: Vec<PageState>)
    ensures v@ == seq![PageState::Composing],
{
    let mut v: Vec<PageState> = Vec::new();
    v.push(PageState::Composing);
    proof { assert(v@ =~= seq![PageState::Composing]); }
    v
}

/// Estado final de la página tras componerla.
pub open spec fn estado_tras_composicion(r: Result<(), String>) -> PageState {
    match r {
        Ok(()) => PageState::Done,
        Err(e) => PageState::Error { razon: e },
    }
}

pub fn tras_composicion(r: &Result<(), String>) -> (v: Vec<PageState>)
    ensures v@ == seq![estado_tras_composicion(*r)],
{
    let mut v: Vec<PageState> = Vec::new();
    match r {
        Ok(()) => v.push(PageState::Done),
        Err(e) => v.push(PageState::Error { razon: e.clone() }),
    }
    proof { assert(v@ =~= seq![estado_tras_composicion(*r)]); }
    v
}

/// El autómata de página admite pasar de `a` a `b` con algún evento.
pub open spec fn paso_valido(a: PageState, b: PageState) -> bool {
    exists|e: PageEvent<()>| #[trigger] siguiente_pagina(a, e) == Some(b)
}

/// Secuencia consecutiva de estados del autómata.
pub open spec fn es_recorrido(s: Seq<PageState>) -> bool {
    forall|i: int| 0 <= i < s.len() - 1 ==> paso_valido(#[trigger] s[i], s[i + 1])
}

/// Secuencia de estados que se anuncian para una página, dados los
/// resultados de orientación, layout (con el estado de error ya elegido) y
/// composición; la composición sólo cuenta si el layout dejó seguir.
pub open spec fn recorrido_pagina(o: Result<(), String>, layout: (Seq<PageState>, bool), c: Result<(), String>) -> Seq<PageState> {
    let inicio = seq![PageState::Orienting] + estados_tras_orientacion(o) + layout.0;
    if layout.1 {
        inicio + seq![PageState::Composing, estado_tras_composicion(c)]
    } else {
        inicio
    }
}

/// Los estados que el orquestador anuncia para una página recorren el
/// autómata de página desde `Orienting` y acaban en un estado terminal, que
/// es `Done` exactamente cuando el layout encontró regiones y la
/// composición tuvo éxito.
pub proof fn ley_recorrido_pagina(o: Result<(), String>, l: Result<usize, String>, sin_regiones: String, c: Result<(), String>)
    ensures
        ({
            let s = recorrido_pagina(o, estados_tras_layout(l, sin_regiones), c);
            &&& s[0] == PageState::Orienting
            &&& es_recorrido(s)
            &&& s.last().terminal()
            &&& (s.last() == PageState::Done <==> (l matches Ok(n) && n > 0 && c is Ok))
        }),
{
    let lay = estados_tras_layout(l, sin_regiones);
    let s = recorrido_pagina(o, lay, c);
    let pre = seq![PageState::Orienting] + estados_tras_orientacion(o);
    assert(siguiente_pagina(PageState::Orienting, PageEvent::<()>::OrientacionCompletada { angulo_grados: 0 })
        == Some(PageState::DetectingLayout));
    match o {
        Ok(()) => {
            assert(pre =~= seq![PageState::Orienting, PageState::DetectingLayout]);
        },
        Err(e) => {
            assert(pre =~= seq![PageState::Orienting, PageState::Degraded { razon: e }, PageState::DetectingLayout]);
            assert(siguiente_pagina(PageState::Orienting, PageEvent::<()>::OrientacionFallida { razon: e })
                == Some(PageState::Degraded { razon: e }));
            assert(siguiente_pagina(PageState::Degraded { razon: e }, PageEvent::<()>::ContinuarDegradado)
                == Some(PageState::DetectingLayout));
        },
    }
    let k = pre.len();
    let estado_layout = lay.0[0];
    match l {
        Ok(n) => {
            if n > 0 {
                assert(siguiente_pagina(PageState::DetectingLayout, PageEvent::<()>::LayoutDetectado { num_regiones: n })
                    == Some(estado_layout));
                assert(siguiente_pagina(estado_layout, PageEvent::<()>::TodosLosBloquesTerminados)
                    == Some(PageState::Composing));
                match c {
                    Ok(()) => {
                        assert(siguiente_pagina(PageState::Composing, PageEvent::<()>::ComposicionCompletada)
                            == Some(PageState::Done));
                    },
                    Err(e) => {
                        assert(siguiente_pagina(PageState::Composing, PageEvent::<()>::ComposicionFallida { razon: e })
                            == Some(PageState::Error { razon: e }));
                    },
                }
                assert(s =~= pre + seq![estado_layout, PageState::Composing, estado_tras_composicion(c)]);
            } else {
                let razon = sin_regiones;
                assert(siguiente_pagina(PageState::DetectingLayout, PageEvent::<()>::LayoutFallido { razon })
                    == Some(estado_layout));
                assert(s =~= pre + seq![estado_layout]);
            }
        },
        Err(e) => {
            assert(siguiente_pagina(PageState::DetectingLayout, PageEvent::<()>::LayoutFallido { razon: e })
                == Some(estado_layout));
            assert(s =~= pre + seq![estado_layout]);
        },
    }
    assert forall|i: int| 0 <= i < s.len() - 1 implies paso_valido(#[trigger] s[i], s[i + 1]) by {
        if i < k - 1 {
            assert(s[i] == pre[i] && s[i + 1] == pre[i + 1]);
        }
    }
}

} // verus!
