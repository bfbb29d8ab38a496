use reconstructor::infra::ocr::{
    ancho_reconocimiento, decodificar_ctc, diccionario, lado_deteccion, segmentar_lineas, unir_lineas, Tramo,
};
use reconstructor::infra::orientacion::{decidir_pagina, geometria_preproceso, OrientationResult};
use reconstructor::infra::orientacion_lineas::{decidir_linea, lotes, BATCH_SIZE, CONFIDENCE_THRESHOLD};

#[test]
fn batch_de_chunks_produce_n_resultados_por_chunk() {
    assert_eq!(BATCH_SIZE, 32);
}

#[test]
fn umbral_confianza_es_noventa_por_ciento() {
    assert!((CONFIDENCE_THRESHOLD as f32 / 1_000_000.0 - 0.90).abs() < 1e-6);
}

#[test]
fn softmax_binario_clase_1_detecta_180() {
    let a = 0.1_f32;
    let b = 3.0_f32;
    let max_v = a.max(b);
    let ea = (a - max_v).exp();
    let eb = (b - max_v).exp();
    let sum = ea + eb;
    let p1 = eb / sum;

    assert!(p1 > 0.90, "clase 180° debe tener prob alta: {p1}");
    assert!(p1 >= CONFIDENCE_THRESHOLD as f32 / 1_000_000.0);
    let p0 = ea / sum;
    let r = decidir_linea(Some(((p0 * 1_000_000.0) as u32, (p1 * 1_000_000.0) as u32)));
    assert_eq!(r.angulo_grados, 180);
    assert!(!r.incierto);
}

#[test]
fn lotes_de_recortes() {
    assert_eq!(lotes(0), vec![]);
    assert_eq!(lotes(5), vec![(0, 5)]);
    assert_eq!(lotes(32), vec![(0, 32)]);
    assert_eq!(lotes(70), vec![(0, 32), (32, 32), (64, 6)]);
}

#[test]
fn decision_por_linea() {
    assert_eq!(decidir_linea(None), OrientationResult { angulo_grados: 0, confianza: 0, incierto: true });
    assert_eq!(
        decidir_linea(Some((200_000, 800_000))),
        OrientationResult { angulo_grados: 0, confianza: 200_000, incierto: true }
    );
    assert_eq!(
        decidir_linea(Some((950_000, 50_000))),
        OrientationResult { angulo_grados: 0, confianza: 950_000, incierto: false }
    );
}

#[test]
fn decision_por_pagina() {
    assert_eq!(decidir_pagina(2, 900_000), (OrientationResult { angulo_grados: 180, confianza: 900_000, incierto: false }, Some(2)));
    assert_eq!(decidir_pagina(3, 849_999), (OrientationResult { angulo_grados: 0, confianza: 849_999, incierto: true }, None));
    assert_eq!(decidir_pagina(0, 990_000), (OrientationResult { angulo_grados: 0, confianza: 990_000, incierto: false }, None));
    assert_eq!(decidir_pagina(7, 990_000), (OrientationResult { angulo_grados: 270, confianza: 990_000, incierto: false }, None));
}

#[test]
fn geometria_del_recorte_central() {
    assert_eq!(geometria_preproceso(448, 896), (224, 448, 0, 112));
    assert_eq!(geometria_preproceso(1000, 500), (448, 224, 112, 0));
    assert_eq!(geometria_preproceso(224, 224), (224, 224, 0, 0));
}

#[test]
fn lados_de_los_tensores() {
    assert_eq!(lado_deteccion(100), 128);
    assert_eq!(lado_deteccion(128), 128);
    assert_eq!(lado_deteccion(2480), 960);
    assert_eq!(lado_deteccion(0), 0);
    assert_eq!(ancho_reconocimiento(200, 50), 192);
    assert_eq!(ancho_reconocimiento(1, 100), 1);
    assert_eq!(ancho_reconocimiento(10, 0), 480);
}

#[test]
fn segmentacion_de_franjas_de_texto() {
    // Mapa de 4 columnas por 6 filas: franja en filas 1-2 (columnas 1..=2) y
    // franja abierta en la última fila, que no se cierra.
    let w = 4;
    let filas = [
        [false, false, false, false],
        [false, true, false, false],
        [false, false, true, false],
        [false, false, false, false],
        [false, false, false, false],
        [true, false, false, false],
    ];
    let mascara: Vec<bool> = filas.iter().flat_map(|f| f.iter().copied()).collect();
    let tramos = segmentar_lineas(&mascara, w, 6);
    assert_eq!(tramos, vec![Tramo { y0: 1, y1: 3, x0: 1, x1: 2 }]);
    // Un mapa más corto que lo declarado cuenta como inactivo.
    assert_eq!(segmentar_lineas(&[true, true], 2, 3), vec![Tramo { y0: 0, y1: 1, x0: 0, x1: 1 }]);
}

#[test]
fn decodificacion_ctc() {
    let dict: Vec<String> = vec![" ".into(), "h".into(), "o".into(), "l".into(), "a".into(), " ".into()];
    // separador, repeticiones e índice fuera del diccionario
    let indices = [1, 1, 0, 2, 2, 3, 0, 3, 4, 9];
    let (texto, pasos) = decodificar_ctc(&indices, 6, &dict);
    assert_eq!(texto, "holla");
    assert_eq!(pasos, vec![0, 3, 5, 7, 8]);
}

#[test]
fn lineas_unidas_sin_vacias() {
    let textos = vec!["uno".to_string(), String::new(), "dos".to_string()];
    assert_eq!(unir_lineas(&textos), "uno\ndos");
    assert_eq!(unir_lineas(&[]), "");
}

#[test]
fn diccionario_del_reconocedor() {
    assert_eq!(diccionario("a\nb\r\nc"), vec![" ", "a", "b", "c", " "]);
    assert_eq!(diccionario("a\n"), vec![" ", "a", " "]);
    assert_eq!(diccionario(""), vec![" ", " "]);
    assert_eq!(diccionario("x\n\ny\r"), vec![" ", "x", "", "y\r", " "]);
}
