use reconstructor::eval::{cer, edit_distance, Razon};
use reconstructor::report::{escape_html, formatear_marca_tiempo, timestamp_actual};
use reconstructor::services::confidence::{ConfidenceDecision, ConfidenceEvaluator};

fn evaluador() -> ConfidenceEvaluator {
    ConfidenceEvaluator::new(600_000, 300_000)
}

fn valor(r: Razon) -> f64 {
    r.numerador as f64 / r.denominador as f64
}

#[test]
fn confianza_alta_returna_alta() {
    assert_eq!(evaluador().evaluar(950_000, "texto limpio"), ConfidenceDecision::Alta);
}

#[test]
fn confianza_exactamente_08_returna_alta() {
    assert_eq!(evaluador().evaluar(800_000, "texto"), ConfidenceDecision::Alta);
}

#[test]
fn confianza_moderada_returna_moderada() {
    assert_eq!(evaluador().evaluar(700_000, "texto"), ConfidenceDecision::Moderada);
}

#[test]
fn confianza_exactamente_en_threshold_returna_moderada() {
    assert_eq!(evaluador().evaluar(600_000, "texto"), ConfidenceDecision::Moderada);
}

#[test]
fn confianza_baja_returna_baja() {
    assert_eq!(evaluador().evaluar(400_000, "texto"), ConfidenceDecision::Baja);
}

#[test]
fn confianza_cero_returna_baja() {
    assert_eq!(evaluador().evaluar(0, "texto"), ConfidenceDecision::Baja);
}

#[test]
fn texto_con_muchos_replacement_chars_fuerza_baja_aunque_confianza_alta() {
    let texto = "\u{FFFD}\u{FFFD}\u{FFFD}\u{FFFD}\u{FFFD}texto";
    assert_eq!(evaluador().evaluar(950_000, texto), ConfidenceDecision::Baja);
}

#[test]
fn texto_con_pocos_replacement_chars_no_activa_heuristica() {
    let texto = "texto limpio con un \u{FFFD}";
    assert_eq!(evaluador().evaluar(900_000, texto), ConfidenceDecision::Alta);
}

#[test]
fn texto_vacio_no_activa_heuristica() {
    assert_eq!(evaluador().evaluar(850_000, ""), ConfidenceDecision::Alta);
}

#[test]
fn texto_solo_whitespace_no_cuenta_como_invalido() {
    let texto = "linea 1\nlinea 2\tcon tab";
    assert_eq!(evaluador().evaluar(900_000, texto), ConfidenceDecision::Alta);
}

#[test]
fn threshold_alto_clasifica_mas_como_baja() {
    let eval = ConfidenceEvaluator::new(850_000, 300_000);
    assert_eq!(eval.evaluar(750_000, "texto"), ConfidenceDecision::Baja);
}

#[test]
fn threshold_bajo_clasifica_mas_como_moderada() {
    let eval = ConfidenceEvaluator::new(400_000, 300_000);
    assert_eq!(eval.evaluar(500_000, "texto"), ConfidenceDecision::Moderada);
}

#[test]
fn evaluador_por_defecto_usa_sesenta_y_treinta_por_ciento() {
    let e = ConfidenceEvaluator::por_defecto();
    assert_eq!(e.threshold, 600_000);
    assert_eq!(e.max_unrecognizable_ratio, 300_000);
}

#[test]
fn caracteres_de_control_cuentan_como_invalidos() {
    // 2 de 4 caracteres son de control: 50 % > 30 %.
    assert_eq!(evaluador().evaluar(950_000, "\u{1}a\u{2}b"), ConfidenceDecision::Baja);
    // Exactamente en el límite (3 de 10 = 30 %) no se fuerza baja.
    assert_eq!(evaluador().evaluar(950_000, "\u{FFFD}\u{FFFD}\u{FFFD}abcdefg"), ConfidenceDecision::Alta);
}

#[test]
fn subir_la_confianza_nunca_empeora_la_decision() {
    let e = evaluador();
    let orden = |d: ConfidenceDecision| match d {
        ConfidenceDecision::Baja => 0,
        ConfidenceDecision::Moderada => 1,
        ConfidenceDecision::Alta => 2,
    };
    let mut previo = 0;
    for c in (0..=1_000_000u32).step_by(50_000) {
        let d = orden(e.evaluar(c, "texto"));
        assert!(d >= previo);
        previo = d;
    }
}

#[test]
fn cer_textos_identicos() {
    assert_eq!(valor(cer("hola mundo", "hola mundo")), 0.0);
}

#[test]
fn cer_predicho_vacio_gt_no_vacio() {
    let gt = "abc";
    assert_eq!(valor(cer("", gt)), 1.0);
}

#[test]
fn cer_ambos_vacios() {
    assert_eq!(valor(cer("", "")), 0.0);
}

#[test]
fn cer_un_caracter_diferente() {
    let c = valor(cer("gola mundo", "hola mundo"));
    assert!((c - 0.1).abs() < 1e-9, "esperado 0.1, obtenido {c}");
}

#[test]
fn cer_inserciones_extra() {
    let c = valor(cer("abcXd", "abcd"));
    assert!((c - 0.25).abs() < 1e-9, "esperado 0.25, obtenido {c}");
}

#[test]
fn cer_puede_superar_uno() {
    let c = valor(cer("xxxxx", "a"));
    assert!(c > 1.0, "CER debe poder superar 1.0 con muchas inserciones");
}

#[test]
fn cer_con_referencia_vacia_y_prediccion_no_vacia_es_uno() {
    assert_eq!(cer("abc", ""), Razon { numerador: 1, denominador: 1 });
}

#[test]
fn distancia_de_edicion_clasica() {
    let a: Vec<char> = "kitten".chars().collect();
    let b: Vec<char> = "sitting".chars().collect();
    assert_eq!(edit_distance(&a, &b), 3);
    assert_eq!(edit_distance(&b, &a), 3);
    assert_eq!(edit_distance(&a, &a), 0);
    assert_eq!(edit_distance(&[], &b), 7);
}

#[test]
fn escape_html_escapa_caracteres() {
    assert_eq!(escape_html("<b>test & 'x'</b>"), "&lt;b&gt;test &amp; 'x'&lt;/b&gt;");
}

#[test]
fn escape_html_escapa_comillas_dobles_y_conserva_el_resto() {
    assert_eq!(escape_html("a\"b"), "a&quot;b");
    assert_eq!(escape_html("sin especiales"), "sin especiales");
}

#[test]
fn marca_de_tiempo_con_segundos_fijos() {
    assert_eq!(
        formatear_marca_tiempo(1_700_000_000),
        "Unix epoch +1700000000s (ejecutar date -d @1700000000 para convertir)"
    );
    assert!(timestamp_actual().starts_with("Unix epoch +"));
}
