use reconstructor::infra::output::{JsonOutputGenerator, PdfOutputGenerator, TxtOutputGenerator};
use reconstructor::traits::composer::ComposedPage;

fn pagina(n: u32, texto: &str) -> ComposedPage {
    ComposedPage {
        numero_pagina: n,
        pdf_bytes: vec![],
        texto_extraido: texto.to_string(),
    }
}

#[test]
fn genera_txt_con_separadores() {
    let gen = TxtOutputGenerator;
    let paginas = vec![pagina(1, "Hola mundo"), pagina(2, "Segunda página")];
    let contenido = gen.contenido(&paginas);
    assert!(contenido.contains("--- Página 1 ---"));
    assert!(contenido.contains("Hola mundo"));
    assert!(contenido.contains("--- Página 2 ---"));
    assert!(contenido.contains("Segunda página"));
    assert_eq!(contenido, "--- Página 1 ---\nHola mundo\n--- Página 2 ---\nSegunda página");
    assert_eq!(gen.ruta("/tmp/salida"), "/tmp/salida.txt");
}

#[test]
fn genera_txt_vacio_sin_paginas() {
    let gen = TxtOutputGenerator;
    let contenido = gen.contenido(&[]);
    assert!(contenido.is_empty());
}

#[test]
fn una_pagina_genera_archivo_unico() {
    let gen = PdfOutputGenerator;
    let paginas = vec![ComposedPage {
        numero_pagina: 1,
        pdf_bytes: b"fake-pdf".to_vec(),
        texto_extraido: String::new(),
    }];
    assert_eq!(gen.rutas(&paginas, "/tmp/test_pdf_gen_single"), vec!["/tmp/test_pdf_gen_single.pdf"]);
}

#[test]
fn multiples_paginas_generan_archivos_por_pagina() {
    let gen = PdfOutputGenerator;
    let paginas = vec![
        ComposedPage { numero_pagina: 1, pdf_bytes: b"p1".to_vec(), texto_extraido: String::new() },
        ComposedPage { numero_pagina: 2, pdf_bytes: b"p2".to_vec(), texto_extraido: String::new() },
    ];
    assert_eq!(
        gen.rutas(&paginas, "/tmp/test_pdf_gen_multi"),
        vec!["/tmp/test_pdf_gen_multi_p1.pdf", "/tmp/test_pdf_gen_multi_p2.pdf"]
    );
}

#[test]
fn genera_json_valido() {
    let gen = JsonOutputGenerator;
    assert_eq!(gen.ruta("/tmp/test_json_gen"), "/tmp/test_json_gen.json");
}
