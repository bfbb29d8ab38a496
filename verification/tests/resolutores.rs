use std::io::Cursor;

use reconstructor::block_type::BlockType;
use reconstructor::infra::composer::PrintPdfComposer;
use reconstructor::infra::fallback::{dimensiones_png, RasterFallbackResolver, CONFIANZA_RASTER};
use reconstructor::infra::layout::{clase_a_block_type, id_region, nms};
use reconstructor::infra::table::{
    colspan_de_token, contadores_caben_en_u32, es_token_td, parsear_estructura, pasos_hasta_eos, TOKEN_EOS, TOKEN_PAD,
};
use reconstructor::infra::error::InfraError;
use reconstructor::resolved::{ResolvedContent, StrategyKind, TableData};

fn png_sintetico(width: u32, height: u32) -> Vec<u8> {
    let img = image::RgbImage::new(width, height);
    let dyn_img = image::DynamicImage::ImageRgb8(img);
    let mut bytes = Vec::new();
    dyn_img
        .write_to(&mut Cursor::new(&mut bytes), image::ImageFormat::Png)
        .expect("encode PNG");
    bytes
}

/// Resolutor de tablas mínimo: acepta solo las regiones de tabla.
struct Stub;

impl Stub {
    fn puede_resolver(&self, tipo: BlockType) -> bool {
        tipo.es_tabla()
    }
}

/// Confianza de la estructura: promedio de las probabilidades de los pasos
/// que no son relleno, acotado a [0, 0.95].
fn confianza_estructura(posiciones: &[usize], probs: &[f32]) -> f32 {
    if posiciones.is_empty() {
        return 0.0;
    }
    let suma: f32 = posiciones.iter().map(|&i| probs[i]).sum();
    (suma / posiciones.len() as f32).clamp(0.0, 0.95)
}

#[test]
fn puede_resolver_siempre_true() {
    let r = RasterFallbackResolver;
    assert!(r.puede_resolver(BlockType::Figure));
    assert!(r.puede_resolver(BlockType::Text));
    assert!(r.puede_resolver(BlockType::Table));
    assert!(r.puede_resolver(BlockType::Unknown));
}

#[test]
fn resolver_bytes_vacios_retorna_dimensiones_cero() {
    let r = RasterFallbackResolver;
    let (content, conf) = r.resolver(&[]).unwrap();
    assert_eq!(conf as f64 / 1_000_000.0, 1.0);
    match content {
        ResolvedContent::Raster { imagen_bytes, ancho, alto } => {
            assert!(imagen_bytes.is_empty());
            assert_eq!(ancho, 0);
            assert_eq!(alto, 0);
        }
        _ => panic!("se esperaba Raster"),
    }
}

#[test]
fn resolver_png_valido_extrae_dimensiones() {
    let r = RasterFallbackResolver;
    let png = png_sintetico(64, 32);
    let (content, conf) = r.resolver(&png).unwrap();
    assert_eq!(conf, CONFIANZA_RASTER);
    match content {
        ResolvedContent::Raster { imagen_bytes, ancho, alto } => {
            assert_eq!(imagen_bytes, png);
            assert_eq!(ancho, 64);
            assert_eq!(alto, 32);
        }
        _ => panic!("se esperaba Raster"),
    }
}

#[test]
fn dimensiones_de_bytes_que_no_son_png() {
    assert_eq!(dimensiones_png(b"GIF89a no es png, ni siquiera de lejos"), (0, 0));
    let mut png = png_sintetico(300, 7);
    assert_eq!(dimensiones_png(&png), (300, 7));
    png.truncate(23);
    assert_eq!(dimensiones_png(&png), (0, 0));
}

#[test]
fn puede_resolver_solo_tablas() {
    let s = Stub;
    assert!(s.puede_resolver(BlockType::Table));
    assert!(!s.puede_resolver(BlockType::Text));
    assert!(!s.puede_resolver(BlockType::Figure));
}

#[test]
fn parsear_estructura_tabla_simple() {
    let tokens = vec![3, 5, 6, 5, 6, 4];
    let probs = vec![0.9_f32; tokens.len()];

    let tabla = parsear_estructura(&tokens).unwrap();
    let confianza = confianza_estructura(&tabla.posiciones_con_contenido, &probs);

    assert_eq!(tabla.filas, 1);
    assert_eq!(tabla.columnas, 2);
    assert_eq!(tabla.celdas.len(), 1);
    assert_eq!(tabla.celdas[0].len(), 2);
    assert!(confianza > 0.0 && confianza <= 0.95);
}

#[test]
fn parsear_estructura_tabla_2x3() {
    let fila = vec![3usize, 5, 6, 5, 6, 5, 6, 4];
    let tokens: Vec<usize> = fila.iter().chain(fila.iter()).copied().collect();

    let tabla = parsear_estructura(&tokens).unwrap();

    assert_eq!(tabla.filas, 2);
    assert_eq!(tabla.columnas, 3);
}

#[test]
fn parsear_sin_tokens_retorna_error() {
    let result = parsear_estructura(&[]);
    assert!(result.is_err(), "se esperaba error con secuencia vacía");
}

#[test]
fn confianza_se_calcula_como_promedio() {
    let tokens = vec![3usize, 5, 6, 4];
    let probs = vec![0.8_f32, 0.9, 0.85, 0.75];

    let tabla = parsear_estructura(&tokens).unwrap();
    let confianza = confianza_estructura(&tabla.posiciones_con_contenido, &probs);

    let expected_avg = (0.8_f32 + 0.9 + 0.85 + 0.75) / 4.0;
    let expected = expected_avg.clamp(0.0, 0.95);
    assert!((confianza - expected).abs() < 1e-5);
}

#[test]
fn estructura_sin_filas_informa_dimensiones() {
    let r = parsear_estructura(&[5, 6]);
    assert_eq!(
        r.err(),
        Some(InfraError::Onnx("Estructura de tabla vacía: filas=0, columnas=0".into()))
    );
}

#[test]
fn colspan_y_posiciones_de_celdas() {
    assert!(es_token_td(5) && es_token_td(17) && !es_token_td(6) && !es_token_td(18));
    assert_eq!(colspan_de_token(8), 3);
    assert_eq!(colspan_de_token(13), 1);
    // <tr><td colspan=3></td><td></td></tr> con relleno final
    let tabla = parsear_estructura(&[3, 8, 6, 5, 6, 4, TOKEN_PAD]).unwrap();
    assert_eq!((tabla.filas, tabla.columnas), (1, 4));
    assert_eq!(tabla.posiciones_td, vec![1, 3]);
    assert_eq!(tabla.posiciones_con_contenido, vec![0, 1, 2, 3, 4, 5]);
    // Una fila sin cerrar también cuenta su ancho.
    assert_eq!(parsear_estructura(&[3, 5, 3, 5, 5]).unwrap().columnas, 2);
}

#[test]
fn decodificacion_voraz_se_detiene_en_fin_de_secuencia() {
    assert_eq!(pasos_hasta_eos(&[3, 5, TOKEN_EOS, 7, 7]), 3);
    assert_eq!(pasos_hasta_eos(&[3, 5, 6]), 3);
    assert_eq!(pasos_hasta_eos(&[]), 0);
    assert_eq!(pasos_hasta_eos(&[TOKEN_EOS]), 1);
}

#[test]
fn clases_del_detector_de_layout() {
    assert_eq!(clase_a_block_type(0), BlockType::Caption);
    assert_eq!(clase_a_block_type(4), BlockType::Footer);
    assert_eq!(clase_a_block_type(7), BlockType::Title);
    assert_eq!(clase_a_block_type(10), BlockType::Title);
    assert_eq!(clase_a_block_type(8), BlockType::Table);
    assert_eq!(clase_a_block_type(9), BlockType::Text);
    assert_eq!(clase_a_block_type(11), BlockType::Unknown);
}

#[test]
fn supresion_de_no_maximos_voraz() {
    // 0 solapa con 1; 1 solapa con 2; 2 sobrevive porque 1 fue suprimida.
    let solapa = vec![
        vec![false, true, false],
        vec![true, false, true],
        vec![false, true, false],
    ];
    assert_eq!(nms(&solapa), vec![0, 2]);
    assert_eq!(nms(&vec![]), Vec::<usize>::new());
    let todas = vec![vec![true; 3]; 3];
    assert_eq!(nms(&todas), vec![0]);
}

#[test]
fn identificador_de_region() {
    assert_eq!(id_region(3, 12), "blk_3_12");
}

#[test]
fn estrategia_por_clase_de_region() {
    assert_eq!(StrategyKind::para_bloque(BlockType::Title), StrategyKind::PaddleOcr);
    assert_eq!(StrategyKind::para_bloque(BlockType::Table), StrategyKind::SlaNetTable);
    assert_eq!(StrategyKind::para_bloque(BlockType::Figure), StrategyKind::RasterPreserve);
    assert_eq!(StrategyKind::para_bloque(BlockType::Unknown), StrategyKind::RasterPreserve);
    assert_eq!(StrategyKind::Retry.nombre(), "Retry");
}

#[test]
fn texto_extraido_de_una_pagina() {
    let ids = vec!["blk_1_0".to_string(), "blk_1_1".to_string(), "blk_1_2".to_string()];
    let tabla = TableData {
        cells: vec![vec!["a".into(), "b".into()], vec!["c".into(), "d".into()]],
        filas: 2,
        columnas: 2,
    };
    let bloques = vec![
        ("blk_1_0".to_string(), ResolvedContent::Text { texto: "Título".into() }),
        ("blk_9_9".to_string(), ResolvedContent::Text { texto: "huérfano".into() }),
        ("blk_1_1".to_string(), ResolvedContent::Table { datos: tabla }),
        ("blk_1_2".to_string(), ResolvedContent::Raster { imagen_bytes: vec![], ancho: 0, alto: 0 }),
        ("blk_1_2".to_string(), ResolvedContent::Text { texto: "fin".into() }),
    ];
    let texto = PrintPdfComposer.texto_extraido(&ids, &bloques);
    assert_eq!(texto, "Título\na | b\nc | d fin");
    assert_eq!(PrintPdfComposer.texto_extraido(&ids, &[]), "");
}

#[test]
fn secuencias_reales_mantienen_los_contadores_en_u32() {
    assert!(contadores_caben_en_u32(&[]));
    assert!(contadores_caben_en_u32(&[3, 5, 6, 5, 6, 4, 3, 10, 10, 4, 2]));
}
