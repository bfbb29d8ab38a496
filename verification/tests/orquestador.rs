use reconstructor::block_type::BlockType;
use reconstructor::config::GeneralConfig;
use reconstructor::document::orden_de_paginas;
use reconstructor::error::DomainError;
use reconstructor::fsm::block::BlockState;
use reconstructor::infra::error::InfraError;
use reconstructor::infra::threading::{inicializar_thread_pool, num_threads_efectivos};
use reconstructor::eval::Razon;
use reconstructor::metricas::{contar_bloques, tasa_fallback, ClaseContenido, ConteoBloques, EstadoFinal};
use reconstructor::services::resolver_selection::primer_aceptante;
use reconstructor::orchestrator::{requiere_reintento, resolver_bloque, Desenlace, Inferencia, PoliticaResolucion};
use reconstructor::resolved::StrategyKind;
use reconstructor::services::confidence::ConfidenceEvaluator;

fn politica() -> PoliticaResolucion {
    PoliticaResolucion {
        evaluador: ConfidenceEvaluator::new(600_000, 300_000),
        umbral: 600_000,
        max_retries: 1,
    }
}

fn exito(texto: &str, confianza: u32) -> Option<Inferencia<String>> {
    Some(Inferencia::Exito { contenido: texto.to_string(), confianza, texto: texto.to_string() })
}

fn historial(r: &reconstructor::orchestrator::ResolucionBloque<String>) -> Vec<(String, String)> {
    r.historial.iter().map(|t| (t.desde.clone(), t.hasta.clone())).collect()
}

fn par(a: &str, b: &str) -> (String, String) {
    (a.to_string(), b.to_string())
}

#[test]
fn figura_va_directo_a_raster_sin_ocr() {
    let r = resolver_bloque::<String>(BlockType::Figure, &politica(), None, None, vec![1, 2, 3]);
    assert!(matches!(r.desenlace, Desenlace::Raster { ref crop } if crop == &vec![1, 2, 3]));
    assert_eq!(r.estado_final, BlockState::Composed);
    assert_eq!(
        historial(&r),
        vec![
            par("Detected", "Resolving"),
            par("Resolving", "StrategyError"),
            par("StrategyError", "Fallback"),
            par("Fallback", "Composed"),
        ]
    );
    assert_eq!(r.historial[0].evento, "EstrategiaSeleccionada(RasterPreserve)");
    assert_eq!(r.historial[1].evento, "InferenciaFallida(Clase sin inferencia: se preserva como raster)");
    assert_eq!(r.historial[3].evento, "Compuesto");
}

#[test]
fn clase_desconocida_tambien_se_compone_como_raster_con_cualquier_umbral() {
    let p = PoliticaResolucion { evaluador: ConfidenceEvaluator::new(950_000, 300_000), umbral: 990_000, max_retries: 0 };
    let r = resolver_bloque::<String>(BlockType::Unknown, &p, None, None, vec![]);
    assert!(matches!(r.desenlace, Desenlace::Raster { ref crop } if crop.is_empty()));
    assert_eq!(r.estado_final, BlockState::Composed);
    assert_eq!(r.historial.last().unwrap().hasta, "Composed");
}

#[test]
fn umbral_del_automata_sobre_confianza_alta_deja_el_bloque_sin_componer() {
    // Con un umbral del autómata por encima de la confianza alta, una
    // inferencia `Alta` no alcanza el umbral y el bloque queda en baja
    // confianza; la traza termina en ese estado.
    let p = PoliticaResolucion { evaluador: ConfidenceEvaluator::new(900_000, 300_000), umbral: 900_000, max_retries: 1 };
    let r = resolver_bloque(BlockType::Text, &p, exito("hola", 850_000), None, vec![]);
    assert!(matches!(r.desenlace, Desenlace::Resuelto { confianza: 850_000, .. }));
    assert!(matches!(r.estado_final, BlockState::LowConfidence { .. }));
    assert_eq!(r.historial.last().unwrap().hasta, "LowConfidence");
}

#[test]
fn texto_con_confianza_alta_queda_resuelto() {
    let r = resolver_bloque(BlockType::Text, &politica(), exito("hola", 950_000), None, vec![]);
    assert!(matches!(
        r.desenlace,
        Desenlace::Resuelto { ref contenido, confianza: 950_000, estrategia: StrategyKind::PaddleOcr } if contenido == "hola"
    ));
    assert_eq!(r.estado_final, BlockState::Composed);
    assert_eq!(historial(&r).len(), 3);
}

#[test]
fn bloque_con_baja_confianza_activa_fallback() {
    let p = politica();
    let primera = exito("x", 300_000);
    assert!(requiere_reintento(BlockType::Text, &p, &primera));
    let r = resolver_bloque(BlockType::Text, &p, primera, exito("x", 200_000), vec![9]);
    assert!(matches!(r.desenlace, Desenlace::Raster { .. }));
    assert_eq!(r.estado_final, BlockState::Composed);
    assert_eq!(
        historial(&r),
        vec![
            par("Detected", "Resolving"),
            par("Resolving", "LowConfidence"),
            par("LowConfidence", "StrategyError"),
            par("StrategyError", "Fallback"),
            par("Fallback", "Composed"),
        ]
    );
}

#[test]
fn reintento_aceptado_queda_resuelto_por_reintento() {
    let r = resolver_bloque(BlockType::Title, &politica(), exito("x", 300_000), exito("y", 900_000), vec![]);
    assert!(matches!(
        r.desenlace,
        Desenlace::Resuelto { ref contenido, confianza: 900_000, estrategia: StrategyKind::Retry } if contenido == "y"
    ));
    assert_eq!(r.estado_final, BlockState::Composed);
}

#[test]
fn resolutor_ausente_o_fallido_termina_en_raster() {
    let r = resolver_bloque::<String>(BlockType::Table, &politica(), None, None, vec![5]);
    assert!(matches!(r.desenlace, Desenlace::Raster { .. }));
    assert_eq!(r.historial[1].evento, "InferenciaFallida(Sin resolver para tipo Table)");
    let r = resolver_bloque::<String>(
        BlockType::Table,
        &politica(),
        Some(Inferencia::Fallo { error: "OOM".into() }),
        None,
        vec![5],
    );
    assert_eq!(r.historial[1].evento, "InferenciaFallida(OOM)");
    assert_eq!(r.estado_final, BlockState::Composed);
}

#[test]
fn conteo_de_bloques_del_documento() {
    let c = contar_bloques(
        &[3, 2],
        &[
            (ClaseContenido::Texto, EstadoFinal::Compuesto),
            (ClaseContenido::Tabla, EstadoFinal::Compuesto),
            (ClaseContenido::Raster, EstadoFinal::Compuesto),
            (ClaseContenido::Texto, EstadoFinal::Irresoluble),
            (ClaseContenido::Texto, EstadoFinal::Otro),
        ],
    );
    assert_eq!(
        c,
        ConteoBloques {
            total_bloques_detectados: 5,
            bloques_resueltos_texto: 1,
            bloques_resueltos_tabla: 1,
            bloques_fallback_raster: 1,
            bloques_irresolubles: 1,
        }
    );
}

#[test]
fn hilos_configurados() {
    let mut config = GeneralConfig {
        models_dir: "models".into(),
        log_level: "info".into(),
        num_threads: 3,
        max_concurrent_pages: 2,
        use_gpu: false,
    };
    assert_eq!(num_threads_efectivos(&config), 3);
    assert_eq!(inicializar_thread_pool(&config), Some(3));
    config.num_threads = 0;
    assert!(num_threads_efectivos(&config) >= 1);
    assert_eq!(inicializar_thread_pool(&config), None);
}

#[test]
fn clases_de_bloque() {
    assert!(BlockType::Title.es_textual());
    assert!(BlockType::Figure.es_raster());
    assert!(!BlockType::Figure.es_textual());
    assert_eq!(BlockType::PageNumber.etiqueta(), "page_number");
    assert_eq!(BlockType::PageNumber.variante(), "PageNumber");
}

#[test]
fn errores_de_infraestructura_hacia_el_dominio() {
    let e = InfraError::Onnx("sin sesión".into());
    assert_eq!(e.mensaje(), "Error ONNX: sin sesión");
    assert_eq!(e.a_dominio(), DomainError::Infraestructura("Error ONNX: sin sesión".into()));
    let h = InfraError::HashIncorrecto { esperado: "a".into(), obtenido: "b".into() };
    assert_eq!(h.mensaje(), "Hash incorrecto: esperado=a, obtenido=b");
}

#[test]
fn tasa_de_fallback_exacta() {
    let c = ConteoBloques {
        total_bloques_detectados: 20,
        bloques_resueltos_texto: 15,
        bloques_resueltos_tabla: 2,
        bloques_fallback_raster: 3,
        bloques_irresolubles: 0,
    };
    assert_eq!(tasa_fallback(&c), Razon { numerador: 3, denominador: 20 });
    let vacio = ConteoBloques { total_bloques_detectados: 0, ..c };
    assert_eq!(tasa_fallback(&vacio), Razon { numerador: 0, denominador: 1 });
}

#[test]
fn prioridad_es_orden_de_registro() {
    assert_eq!(primer_aceptante(&[false, true, true]), Some(1));
    assert_eq!(primer_aceptante(&[false, false]), None);
    assert_eq!(primer_aceptante(&[]), None);
}

#[test]
fn multiples_paginas_ordenadas_correctamente() {
    assert_eq!(orden_de_paginas(&[3, 1, 2]), vec![1, 2, 0]);
    assert_eq!(orden_de_paginas(&[2, 1, 2, 1]), vec![1, 3, 0, 2]);
    assert_eq!(orden_de_paginas(&[]), Vec::<usize>::new());
}

fn conteo(total: u32, fallback: u32) -> ConteoBloques {
    ConteoBloques {
        total_bloques_detectados: total,
        bloques_resueltos_texto: 0,
        bloques_resueltos_tabla: 0,
        bloques_fallback_raster: fallback,
        bloques_irresolubles: 0,
    }
}

fn fallback_rate(c: &ConteoBloques) -> f64 {
    let r = tasa_fallback(c);
    r.numerador as f64 / r.denominador as f64
}

#[test]
fn fallback_rate_sin_bloques() {
    assert_eq!(fallback_rate(&conteo(0, 0)), 0.0);
}

#[test]
fn fallback_rate_todos_fallback() {
    assert!((fallback_rate(&conteo(10, 10)) - 1.0).abs() < 1e-9);
}

#[test]
fn fallback_rate_mitad() {
    assert!((fallback_rate(&conteo(8, 4)) - 0.5).abs() < 1e-9);
}
