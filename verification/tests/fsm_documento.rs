use reconstructor::fsm::document::{transition, DocumentEvent, DocumentState, DownloadProgress, OutputStage};

fn progreso_dummy() -> DownloadProgress {
    DownloadProgress {
        modelo: "test_model".into(),
        bytes_descargados: 50,
        bytes_totales: 100,
    }
}

#[test]
fn app_iniciada_va_a_checking_models() {
    let resultado = transition(&DocumentState::Idle, DocumentEvent::AppIniciada).unwrap();
    assert_eq!(resultado, DocumentState::CheckingModels);
}

#[test]
fn modelos_listos_vuelve_a_idle() {
    let resultado = transition(&DocumentState::CheckingModels, DocumentEvent::ModelosListos).unwrap();
    assert_eq!(resultado, DocumentState::Idle);
}

#[test]
fn modelos_faltantes_va_a_downloading() {
    let resultado = transition(
        &DocumentState::CheckingModels,
        DocumentEvent::ModelosFaltantes { progreso: progreso_dummy() },
    )
    .unwrap();
    assert!(matches!(resultado, DocumentState::DownloadingModels { .. }));
}

#[test]
fn descarga_completada_vuelve_a_idle() {
    let estado = DocumentState::DownloadingModels { progreso: progreso_dummy() };
    let resultado = transition(&estado, DocumentEvent::DescargaCompletada).unwrap();
    assert_eq!(resultado, DocumentState::Idle);
}

#[test]
fn descarga_fallida_va_a_error_reintentar() {
    let estado = DocumentState::DownloadingModels { progreso: progreso_dummy() };
    let resultado = transition(&estado, DocumentEvent::DescargaFallida("sin internet".into())).unwrap();
    assert!(matches!(resultado, DocumentState::Error { puede_reintentar: true, .. }));
}

#[test]
fn flujo_completo_de_procesamiento() {
    let s0 = DocumentState::Idle;

    let s1 = transition(&s0, DocumentEvent::ArchivoSeleccionado("doc.pdf".into())).unwrap();
    assert!(matches!(s1, DocumentState::Validating { .. }));

    let s2 = transition(&s1, DocumentEvent::EntradaValida { num_paginas: 3 }).unwrap();
    assert!(matches!(
        s2,
        DocumentState::Processing { total_paginas: 3, paginas_completadas: 0 }
    ));

    let s3 = transition(&s2, DocumentEvent::TodasLasPaginasCompletadas).unwrap();
    assert!(matches!(s3, DocumentState::Generating { etapa: OutputStage::Pdf }));

    let s4 = transition(&s3, DocumentEvent::SalidasEscritas).unwrap();
    assert_eq!(s4, DocumentState::Complete);
}

#[test]
fn entrada_invalida_va_a_error() {
    let estado = DocumentState::Validating { ruta_entrada: "bad.xyz".into() };
    let resultado = transition(&estado, DocumentEvent::EntradaInvalida("formato no soportado".into())).unwrap();
    assert!(matches!(resultado, DocumentState::Error { .. }));
}

#[test]
fn complete_reiniciar_vuelve_a_idle() {
    let resultado = transition(&DocumentState::Complete, DocumentEvent::Reiniciar).unwrap();
    assert_eq!(resultado, DocumentState::Idle);
}

#[test]
fn error_reintentar_va_a_checking_models() {
    let estado = DocumentState::Error {
        error: "sin internet".into(),
        puede_reintentar: true,
    };
    let resultado = transition(&estado, DocumentEvent::Reintentar).unwrap();
    assert_eq!(resultado, DocumentState::CheckingModels);
}

#[test]
fn complete_no_acepta_eventos_invalidos() {
    let resultado = transition(&DocumentState::Complete, DocumentEvent::AppIniciada);
    assert!(resultado.is_err());
}

#[test]
fn checking_models_no_acepta_archivo_seleccionado() {
    let resultado = transition(
        &DocumentState::CheckingModels,
        DocumentEvent::ArchivoSeleccionado("doc.pdf".into()),
    );
    assert!(resultado.is_err());
}

// --- Propiedades adicionales ---

#[test]
fn porcentaje_de_descarga_redondeado() {
    let p = DownloadProgress { modelo: "m".into(), bytes_descargados: 75, bytes_totales: 100 };
    assert_eq!(p.porcentaje(), 75);
    let p = DownloadProgress { modelo: "m".into(), bytes_descargados: 1, bytes_totales: 3 };
    assert_eq!(p.porcentaje(), 33);
    let p = DownloadProgress { modelo: "m".into(), bytes_descargados: 0, bytes_totales: 0 };
    assert_eq!(p.porcentaje(), 0);
}

#[test]
fn error_no_reintentable_no_acepta_reintentar() {
    let estado = DocumentState::Error { error: "x".into(), puede_reintentar: false };
    assert!(transition(&estado, DocumentEvent::Reintentar).is_err());
}

#[test]
fn reiniciar_desde_error_vuelve_a_idle() {
    let estado = DocumentState::Error { error: "x".into(), puede_reintentar: false };
    assert_eq!(transition(&estado, DocumentEvent::Reiniciar).unwrap(), DocumentState::Idle);
}

#[test]
fn nombres_de_estado_y_evento() {
    assert_eq!(DocumentState::CheckingModels.nombre(), "CheckingModels");
    assert_eq!(DocumentEvent::EntradaValida { num_paginas: 3 }.nombre(), "EntradaValida(3 pags)");
    assert_eq!(DocumentEvent::DescargaFallida("x".into()).nombre(), "DescargaFallida(x)");
}

#[test]
fn paginas_completadas_incrementan_el_contador() {
    let mut s = DocumentState::Processing { total_paginas: 3, paginas_completadas: 0 };
    for _ in 0..2 {
        s = transition(&s, DocumentEvent::PaginaCompletada).unwrap();
    }
    assert_eq!(s, DocumentState::Processing { total_paginas: 3, paginas_completadas: 2 });
}

#[test]
fn todo_estado_vuelve_a_idle_en_dos_eventos() {
    let s = transition(&DocumentState::Validating { ruta_entrada: "x".into() }, DocumentEvent::EntradaInvalida("m".into())).unwrap();
    assert_eq!(transition(&s, DocumentEvent::Reiniciar).unwrap(), DocumentState::Idle);
    let s = transition(
        &DocumentState::Generating { etapa: OutputStage::Txt },
        DocumentEvent::EscrituraFallida("disco".into()),
    )
    .unwrap();
    assert!(matches!(s, DocumentState::Error { puede_reintentar: false, .. }));
    assert_eq!(transition(&s, DocumentEvent::Reiniciar).unwrap(), DocumentState::Idle);
}
