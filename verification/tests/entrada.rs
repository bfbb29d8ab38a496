use std::io::Cursor;

use image::{DynamicImage, ImageFormat};
use reconstructor::infra::error::InfraError;
use reconstructor::config::{GeneralConfig, InputConfig};
use reconstructor::document::PageImage;
use reconstructor::infra::input::{
    clasificar_extension, extension, formato_por_extension, pagina_de_imagen, paginas_de_decodificacion, FormatoImagen,
    ImageInputReader, PdfiumPageReader,
};

fn crear_png(width: u32, height: u32) -> Vec<u8> {
    let img = image::RgbImage::new(width, height);
    let dyn_img = DynamicImage::ImageRgb8(img);
    let mut bytes = Vec::new();
    dyn_img.write_to(&mut Cursor::new(&mut bytes), ImageFormat::Png).unwrap();
    bytes
}

#[test]
fn leer_png_sintetico() {
    let reader = ImageInputReader;
    let png = crear_png(100, 200);
    let paginas = reader.leer_bytes(&png, "png").unwrap();

    assert_eq!(paginas.len(), 1);
    assert_eq!(paginas[0].ancho, 100);
    assert_eq!(paginas[0].alto, 200);
    assert_eq!(paginas[0].numero_pagina, 1);
    assert!(!paginas[0].datos.is_empty());
}

#[test]
fn leer_pdf_retorna_error() {
    let reader = ImageInputReader;
    let result = reader.extension_de_archivo("documento.pdf");
    assert!(result.is_err());
    assert_eq!(result, Err(InfraError::Pdf("pdfium no disponible en esta compilación".into())));
}

#[test]
fn leer_jpeg_sintetico() {
    let reader = ImageInputReader;
    let img = DynamicImage::ImageRgb8(image::RgbImage::new(50, 50));
    let mut bytes = Vec::new();
    img.write_to(&mut Cursor::new(&mut bytes), ImageFormat::Jpeg).unwrap();

    let paginas = reader.leer_bytes(&bytes, "jpg").unwrap();
    assert_eq!(paginas.len(), 1);
    assert_eq!(paginas[0].numero_pagina, 1);
}

#[test]
fn extension_desconocida_usa_autodetect() {
    let reader = ImageInputReader;
    let png = crear_png(30, 30);
    let paginas = reader.leer_bytes(&png, "xyz").unwrap();
    assert_eq!(paginas.len(), 1);
}

#[test]
fn bytes_que_no_son_imagen_dan_error_de_imagen() {
    let reader = ImageInputReader;
    assert!(matches!(reader.leer_bytes(b"no es una imagen", "png"), Err(InfraError::Imagen(_))));
}

#[test]
fn extension_de_rutas() {
    assert_eq!(extension("/a/b/foto.PNG"), Some("PNG".to_string()));
    assert_eq!(extension("archivo.tar.gz"), Some("gz".to_string()));
    assert_eq!(extension(".oculto"), None);
    assert_eq!(extension("sin_punto"), None);
    assert_eq!(extension("dir/x.jpg/"), Some("jpg".to_string()));
    assert_eq!(extension("a/.."), None);
    let reader = ImageInputReader;
    assert_eq!(reader.extension_de_archivo("/x/Foto.JPG"), Ok("jpg".to_string()));
    assert_eq!(reader.extension_de_archivo("/x/sin"), Ok(String::new()));
    assert_eq!(reader.extension_de_archivo("/x/DOC.Pdf"), Err(InfraError::Pdf("pdfium no disponible en esta compilación".into())));
}

#[test]
fn formatos_por_extension() {
    assert_eq!(formato_por_extension("tif"), Some(FormatoImagen::Tiff));
    assert_eq!(formato_por_extension("jpeg"), Some(FormatoImagen::Jpeg));
    assert_eq!(formato_por_extension("webp"), Some(FormatoImagen::WebP));
    assert_eq!(formato_por_extension("PNG"), None);
}

#[test]
fn constructor_acepta_dpi_personalizado() {
    let reader = PdfiumPageReader::new(150);
    assert_eq!(reader.dpi, 150);
}

#[test]
fn constructor_default_usa_300_dpi() {
    let reader = PdfiumPageReader::default_dpi();
    assert_eq!(reader.dpi, 300);
}

#[test]
fn bytes_vacios_retorna_error() {
    let reader = PdfiumPageReader::new(300);
    let result = reader.comprobar_bytes(&[]);
    assert!(result.is_err(), "bytes vacíos deben retornar error");
    let msg = result.unwrap_err().mensaje();
    assert!(msg.contains("vacío") || msg.contains("PDF"), "mensaje: {msg}");
    assert!(reader.comprobar_bytes(b"%PDF").is_ok());
}

#[test]
fn paginas_rasterizadas_se_numeran_desde_uno() {
    let reader = PdfiumPageReader::default_dpi();
    assert_eq!(reader.numero_de_pagina(0), 1);
    assert_eq!(reader.numero_de_pagina(41), 42);
    assert!(matches!(reader.reunir_paginas(vec![]), Err(InfraError::Pdf(ref m)) if m == "PDF sin páginas"));
    let una = vec![PageImage { datos: vec![1], ancho: 1, alto: 1, numero_pagina: 1 }];
    assert_eq!(reader.reunir_paginas(una.clone()).unwrap().len(), 1);
}

#[test]
fn configuracion_de_entrada_por_defecto() {
    let c = InputConfig::por_defecto();
    assert_eq!(c.rasterization_dpi, 300);
    assert_eq!(c.supported_formats, vec!["pdf", "png", "jpg", "jpeg", "tiff", "webp"]);
    let g = GeneralConfig::por_defecto();
    assert_eq!((g.models_dir.as_str(), g.log_level.as_str(), g.num_threads, g.max_concurrent_pages, g.use_gpu), ("models", "info", 0, 0, false));
}

#[test]
fn decision_por_extension_y_pagina_unica() {
    assert_eq!(clasificar_extension("pdf".into()), Err(InfraError::Pdf("pdfium no disponible en esta compilación".into())));
    assert_eq!(clasificar_extension("png".into()), Ok("png".to_string()));
    assert_eq!(clasificar_extension("PDF".into()), Ok("PDF".to_string()));
    let p = pagina_de_imagen(vec![1, 2], 3, 4, 1);
    assert_eq!((p.datos, p.ancho, p.alto, p.numero_pagina), (vec![1, 2], 3, 4, 1));
}

#[test]
fn paginas_de_una_decodificacion() {
    let v = paginas_de_decodificacion(Ok((vec![9, 8, 7], 640, 480))).unwrap();
    assert_eq!(v.len(), 1);
    assert_eq!((v[0].datos.clone(), v[0].ancho, v[0].alto, v[0].numero_pagina), (vec![9, 8, 7], 640, 480, 1));
    let r = paginas_de_decodificacion(Err("formato no soportado".to_string()));
    assert!(matches!(r, Err(InfraError::Imagen(m)) if m == "formato no soportado"));
}

#[test]
fn pagina_leida_es_png_con_las_dimensiones_de_la_imagen() {
    let reader = ImageInputReader;
    let img = DynamicImage::ImageRgb8(image::RgbImage::new(37, 11));
    let mut jpeg = Vec::new();
    img.write_to(&mut Cursor::new(&mut jpeg), ImageFormat::Jpeg).unwrap();
    let paginas = reader.leer_bytes(&jpeg, "jpeg").unwrap();
    assert_eq!((paginas[0].ancho, paginas[0].alto), (37, 11));
    assert_ne!(paginas[0].datos, jpeg);
    let releida = image::load_from_memory_with_format(&paginas[0].datos, ImageFormat::Png).unwrap();
    assert_eq!((releida.width(), releida.height()), (37, 11));
}
