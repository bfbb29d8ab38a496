use reconstructor::error::DomainError;
use reconstructor::fsm::block::{transition, BlockEvent, BlockState};
use reconstructor::resolved::{ResolvedContent, StrategyKind};

/// Umbral de confianza de las pruebas, en millonésimas (0.60).
const THRESHOLD: u32 = 600_000;

type Estado = BlockState<ResolvedContent>;
type Evento = BlockEvent<ResolvedContent>;

fn contenido_texto() -> ResolvedContent {
    ResolvedContent::Text { texto: "hola mundo".into() }
}

fn crop_dummy() -> Vec<u8> {
    vec![0u8; 16]
}

#[test]
fn detected_estrategia_seleccionada_va_a_resolving() {
    let resultado = transition(
        Estado::Detected,
        Evento::EstrategiaSeleccionada(StrategyKind::PaddleOcr),
        THRESHOLD,
    );
    assert!(matches!(
        resultado.unwrap(),
        BlockState::Resolving { estrategia: StrategyKind::PaddleOcr }
    ));
}

#[test]
fn resolving_inferencia_ok_alta_confianza_va_a_resolved() {
    let estado = Estado::Resolving { estrategia: StrategyKind::PaddleOcr };
    let resultado = transition(
        estado,
        Evento::InferenciaOk { contenido: contenido_texto(), confianza: 900_000 },
        THRESHOLD,
    );
    assert!(matches!(resultado.unwrap(), BlockState::Resolved { confianza, .. } if confianza == 900_000));
}

#[test]
fn resolving_inferencia_ok_baja_confianza_va_a_lowconfidence() {
    let estado = Estado::Resolving { estrategia: StrategyKind::PaddleOcr };
    let resultado = transition(
        estado,
        Evento::InferenciaOk { contenido: contenido_texto(), confianza: 400_000 },
        THRESHOLD,
    );
    assert!(matches!(resultado.unwrap(), BlockState::LowConfidence { confianza, .. } if confianza == 400_000));
}

#[test]
fn resolving_inferencia_fallida_va_a_strategyerror() {
    let estado = Estado::Resolving { estrategia: StrategyKind::PaddleOcr };
    let resultado = transition(estado, Evento::InferenciaFallida("OOM".into()), THRESHOLD);
    assert!(matches!(resultado.unwrap(), BlockState::StrategyError { .. }));
}

#[test]
fn lowconfidence_reintento_ok_va_a_resolved() {
    let estado = Estado::LowConfidence {
        resultado: Box::new(contenido_texto()),
        confianza: 400_000,
        retries_restantes: 1,
    };
    let resultado = transition(
        estado,
        Evento::ReintentoOk { contenido: contenido_texto(), confianza: 750_000 },
        THRESHOLD,
    );
    assert!(matches!(
        resultado.unwrap(),
        BlockState::Resolved { estrategia: StrategyKind::Retry, .. }
    ));
}

#[test]
fn lowconfidence_reintento_fallido_va_a_strategyerror() {
    let estado = Estado::LowConfidence {
        resultado: Box::new(contenido_texto()),
        confianza: 400_000,
        retries_restantes: 0,
    };
    let resultado = transition(estado, Evento::ReintentoFallido, THRESHOLD);
    assert!(matches!(resultado.unwrap(), BlockState::StrategyError { .. }));
}

#[test]
fn strategyerror_aplicar_fallback_va_a_fallback() {
    let estado = Estado::StrategyError { error: "fallo".into(), puede_fallback: true };
    let resultado = transition(estado, Evento::AplicarFallback { crop_bytes: crop_dummy() }, THRESHOLD);
    assert!(matches!(resultado.unwrap(), BlockState::Fallback { .. }));
}

#[test]
fn strategyerror_crop_fallido_va_a_unresolvable() {
    let estado = Estado::StrategyError { error: "fallo".into(), puede_fallback: true };
    let resultado = transition(estado, Evento::CropFallido, THRESHOLD);
    assert!(matches!(resultado.unwrap(), BlockState::Unresolvable { .. }));
}

#[test]
fn resolved_compuesto_va_a_composed() {
    let estado = Estado::Resolved {
        contenido: Box::new(contenido_texto()),
        confianza: 850_000,
        estrategia: StrategyKind::PaddleOcr,
    };
    let resultado = transition(estado, Evento::Compuesto, THRESHOLD);
    assert_eq!(resultado.unwrap(), BlockState::Composed);
}

#[test]
fn fallback_compuesto_va_a_composed() {
    let estado = Estado::Fallback { crop_bytes: crop_dummy() };
    let resultado = transition(estado, Evento::Compuesto, THRESHOLD);
    assert_eq!(resultado.unwrap(), BlockState::Composed);
}

#[test]
fn composed_es_terminal() {
    assert!(Estado::Composed.es_terminal());
}

#[test]
fn unresolvable_es_terminal() {
    assert!(Estado::Unresolvable { razon: "test".into() }.es_terminal());
}

#[test]
fn detected_no_es_terminal() {
    assert!(!Estado::Detected.es_terminal());
}

#[test]
fn detected_evento_invalido_retorna_error() {
    let resultado = transition(Estado::Detected, Evento::Compuesto, THRESHOLD);
    assert!(resultado.is_err());
}

#[test]
fn composed_no_acepta_eventos() {
    let resultado = transition(
        Estado::Composed,
        Evento::EstrategiaSeleccionada(StrategyKind::PaddleOcr),
        THRESHOLD,
    );
    assert!(resultado.is_err());
}

#[test]
fn confianza_exactamente_en_threshold_va_a_resolved() {
    let estado = Estado::Resolving { estrategia: StrategyKind::PaddleOcr };
    let resultado = transition(
        estado,
        Evento::InferenciaOk { contenido: contenido_texto(), confianza: THRESHOLD },
        THRESHOLD,
    );
    assert!(matches!(resultado.unwrap(), BlockState::Resolved { .. }));
}

#[test]
fn confianza_justo_debajo_del_threshold_va_a_lowconfidence() {
    let estado = Estado::Resolving { estrategia: StrategyKind::PaddleOcr };
    let resultado = transition(
        estado,
        Evento::InferenciaOk { contenido: contenido_texto(), confianza: THRESHOLD - 1_000 },
        THRESHOLD,
    );
    assert!(matches!(resultado.unwrap(), BlockState::LowConfidence { .. }));
}

// --- Propiedades adicionales ---

#[test]
fn nombre_de_evento_con_confianza_en_dos_decimales() {
    let e = Evento::InferenciaOk { contenido: contenido_texto(), confianza: 876_000 };
    assert_eq!(e.nombre(), "InferenciaOk(conf=0.88)");
    let e = Evento::EstrategiaSeleccionada(StrategyKind::SlaNetTable);
    assert_eq!(e.nombre(), "EstrategiaSeleccionada(SlaNetTable)");
}

#[test]
fn fallback_no_permitido_rechaza_aplicar_fallback() {
    let estado = Estado::StrategyError { error: "fallo".into(), puede_fallback: false };
    let resultado = transition(estado, Evento::AplicarFallback { crop_bytes: crop_dummy() }, THRESHOLD);
    assert!(resultado.is_err());
}

#[test]
fn error_de_transicion_devuelve_el_estado_recibido() {
    let estado = Estado::StrategyError { error: "fallo".into(), puede_fallback: false };
    let resultado = transition(estado.clone(), Evento::AplicarFallback { crop_bytes: crop_dummy() }, THRESHOLD);
    assert_eq!(resultado, Err(DomainError::TransicionInvalida { estado }));
    assert_eq!(
        transition(Estado::Composed, Evento::Compuesto, THRESHOLD),
        Err(DomainError::TransicionInvalida { estado: Estado::Composed })
    );
}
