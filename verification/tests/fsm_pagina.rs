use reconstructor::etapas::{tras_composicion, tras_layout, tras_orientacion, tras_resolucion};
use reconstructor::fsm::block::BlockState;
use reconstructor::fsm::page::{transition, PageEvent, PageState};
use reconstructor::resolved::ResolvedContent;

type Evento = PageEvent<ResolvedContent>;

#[test]
fn flujo_completo_sin_degradacion() {
    let s0 = PageState::Pending;

    let s1 = transition(&s0, Evento::IniciarProcesamiento).unwrap();
    assert_eq!(s1, PageState::Orienting);

    let s2 = transition(&s1, Evento::OrientacionCompletada { angulo_grados: 0 }).unwrap();
    assert_eq!(s2, PageState::DetectingLayout);

    let s3 = transition(&s2, Evento::LayoutDetectado { num_regiones: 3 }).unwrap();
    assert!(matches!(
        s3,
        PageState::ResolvingBlocks { total_bloques: 3, bloques_terminados: 0 }
    ));

    let s4 = transition(&s3, Evento::TodosLosBloquesTerminados).unwrap();
    assert_eq!(s4, PageState::Composing);

    let s5 = transition(&s4, Evento::ComposicionCompletada).unwrap();
    assert_eq!(s5, PageState::Done);
    assert!(s5.es_terminal());
}

#[test]
fn orientacion_fallida_produce_degraded() {
    let estado = PageState::Orienting;
    let resultado = transition(&estado, Evento::OrientacionFallida { razon: "modelo fallo".into() }).unwrap();
    assert!(matches!(resultado, PageState::Degraded { .. }));
}

#[test]
fn degraded_continua_a_detecting_layout() {
    let estado = PageState::Degraded { razon: "test".into() };
    let resultado = transition(&estado, Evento::ContinuarDegradado).unwrap();
    assert_eq!(resultado, PageState::DetectingLayout);
}

#[test]
fn layout_fallido_produce_error_terminal() {
    let estado = PageState::DetectingLayout;
    let resultado = transition(&estado, Evento::LayoutFallido { razon: "sin regiones".into() }).unwrap();
    assert!(matches!(resultado, PageState::Error { .. }));
    assert!(resultado.es_terminal());
}

#[test]
fn composicion_fallida_produce_error_terminal() {
    let estado = PageState::Composing;
    let resultado = transition(&estado, Evento::ComposicionFallida { razon: "disco lleno".into() }).unwrap();
    assert!(matches!(resultado, PageState::Error { .. }));
    assert!(resultado.es_terminal());
}

#[test]
fn done_no_acepta_eventos() {
    let resultado = transition(&PageState::Done, Evento::IniciarProcesamiento);
    assert!(resultado.is_err());
}

#[test]
fn pending_evento_incorrecto_retorna_error() {
    let resultado = transition(&PageState::Pending, Evento::ComposicionCompletada);
    assert!(resultado.is_err());
}

#[test]
fn done_es_terminal() {
    assert!(PageState::Done.es_terminal());
}

#[test]
fn error_es_terminal() {
    assert!(PageState::Error { razon: "test".into() }.es_terminal());
}

#[test]
fn pending_no_es_terminal() {
    assert!(!PageState::Pending.es_terminal());
}

#[test]
fn bloque_terminado_incrementa_contador() {
    let estado = PageState::ResolvingBlocks { total_bloques: 3, bloques_terminados: 1 };
    let resultado = transition(&estado, Evento::BloqueTerminado { estado_final: BlockState::Composed }).unwrap();
    assert!(matches!(
        resultado,
        PageState::ResolvingBlocks { total_bloques: 3, bloques_terminados: 2 }
    ));
}

// --- Estados anunciados por el orquestador ---

#[test]
fn orientacion_falla_pagina_continua_degradada() {
    let v = tras_orientacion(&Err("modelo fallo".to_string()));
    assert_eq!(v, vec![PageState::Degraded { razon: "modelo fallo".into() }, PageState::DetectingLayout]);
    assert_eq!(tras_orientacion(&Ok(())), vec![PageState::DetectingLayout]);
}

#[test]
fn layout_sin_regiones_skipea_pagina() {
    let (v, sigue) = tras_layout(&Ok(0));
    assert!(!sigue);
    assert_eq!(v, vec![PageState::Error { razon: "Sin regiones detectadas".into() }]);
    let (v, sigue) = tras_layout(&Err("onnx".to_string()));
    assert!(!sigue);
    assert_eq!(v, vec![PageState::Error { razon: "onnx".into() }]);
    let (v, sigue) = tras_layout(&Ok(2));
    assert!(sigue);
    assert_eq!(v, vec![PageState::ResolvingBlocks { total_bloques: 2, bloques_terminados: 0 }]);
}

#[test]
fn recorrido_anunciado_es_valido_en_el_automata() {
    // Orienting → Degraded → DetectingLayout → ResolvingBlocks → Composing → Done
    let mut estados = vec![PageState::Orienting];
    estados.extend(tras_orientacion(&Err("x".to_string())));
    let (v, sigue) = tras_layout(&Ok(2));
    estados.extend(v);
    assert!(sigue);
    estados.extend(tras_resolucion());
    estados.extend(tras_composicion(&Ok(())));
    let eventos = vec![
        Evento::OrientacionFallida { razon: "x".into() },
        Evento::ContinuarDegradado,
        Evento::LayoutDetectado { num_regiones: 2 },
        Evento::TodosLosBloquesTerminados,
        Evento::ComposicionCompletada,
    ];
    let mut actual = PageState::Orienting;
    for (i, e) in eventos.into_iter().enumerate() {
        actual = transition(&actual, e).unwrap();
        assert_eq!(actual, estados[i + 1]);
    }
    assert!(actual.es_terminal());
}

#[test]
fn nombre_de_eventos_de_pagina() {
    assert_eq!(Evento::OrientacionCompletada { angulo_grados: 90 }.nombre(), "OrientacionCompletada(90°)");
    assert_eq!(Evento::LayoutDetectado { num_regiones: 4 }.nombre(), "LayoutDetectado(4 regiones)");
    assert_eq!(PageState::ResolvingBlocks { total_bloques: 1, bloques_terminados: 0 }.nombre(), "ResolvingBlocks");
}
