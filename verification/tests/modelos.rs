use reconstructor::infra::error::InfraError;
use reconstructor::infra::manifest::ModelManifest;
use reconstructor::infra::provider::{a_hex, estado_modelo, sha256_hex, HuggingFaceModelProvider};
use reconstructor::traits::model_provider::{ModelEntry, ModelStatus};

fn entry_test(path_local: &str, sha256: &str) -> ModelEntry {
    ModelEntry {
        id: "test_model".to_string(),
        nombre: "Test Model".to_string(),
        repo: "owner/repo".to_string(),
        path_repo: "model.onnx".to_string(),
        path_local: path_local.to_string(),
        sha256: sha256.to_string(),
        size_mb: 1,
    }
}

fn entrada(id: &str, path_local: &str) -> ModelEntry {
    ModelEntry {
        id: id.to_string(),
        nombre: id.to_string(),
        repo: "r".to_string(),
        path_repo: "p".to_string(),
        path_local: path_local.to_string(),
        sha256: String::new(),
        size_mb: 0,
    }
}

#[test]
fn verificar_modelo_faltante() {
    let provider = HuggingFaceModelProvider;
    let entry = entry_test("/ruta/que/no/existe.onnx", "");
    let existe = std::path::Path::new(&entry.path_local).exists();
    let resultados = provider.verificar_modelos(&[entry], &[(existe, None)]);
    assert_eq!(resultados[0].1, ModelStatus::Faltante);
    assert_eq!(resultados[0].0, "test_model");
}

#[test]
fn verificar_modelo_existente_sin_hash() {
    let provider = HuggingFaceModelProvider;
    let entry = entry_test("/tmp/test_modelo.onnx", "");
    let resultados = provider.verificar_modelos(&[entry], &[(true, Some(b"fake model data".to_vec()))]);
    assert_eq!(resultados[0].1, ModelStatus::Valido);
}

#[test]
fn verificar_integridad_hash_correcto() {
    let provider = HuggingFaceModelProvider;
    let contenido = b"hola mundo";
    let hash_esperado = sha256_hex(contenido);
    assert!(provider.verificar_integridad(contenido, &hash_esperado));
}

#[test]
fn verificar_integridad_hash_incorrecto() {
    let provider = HuggingFaceModelProvider;
    assert!(!provider.verificar_integridad(b"datos reales", "hashfalsoxyz"));
}

#[test]
fn huella_sha256_conocida() {
    assert_eq!(sha256_hex(b"abc"), "ba7816bf8f01cfea414140de5dae2223b00361a396177a9cb410ff61f20015ad");
    assert_eq!(sha256_hex(b""), "e3b0c44298fc1c149afbf4c8996fb92427ae41e4649b934ca495991b7852b855");
    assert_eq!(a_hex(&[0x00, 0x0f, 0xa0, 0xff]), "000fa0ff");
}

#[test]
fn estado_de_modelo_con_huella() {
    let provider = HuggingFaceModelProvider;
    let datos = b"pesos";
    let bien = entry_test("m.onnx", &sha256_hex(datos));
    assert_eq!(provider.verificar_entrada(&bien, true, Some(datos)), ModelStatus::Valido);
    assert_eq!(provider.verificar_entrada(&bien, true, Some(b"otros")), ModelStatus::Corrupto);
    assert_eq!(provider.verificar_entrada(&bien, true, None), ModelStatus::Corrupto);
    assert_eq!(provider.verificar_entrada(&bien, false, Some(datos)), ModelStatus::Faltante);
    assert!(provider.verificar_integridad(b"cualquiera", ""));
}

#[test]
fn verificacion_de_descarga() {
    let provider = HuggingFaceModelProvider;
    let entry = entry_test("m.onnx", "abc");
    match provider.verificar_descarga(&entry, b"x") {
        Err(InfraError::HashIncorrecto { esperado, obtenido }) => {
            assert_eq!(esperado, "abc");
            assert_eq!(obtenido, sha256_hex(b"x"));
        }
        otro => panic!("se esperaba HashIncorrecto: {otro:?}"),
    }
    assert!(provider.verificar_descarga(&entry_test("m.onnx", ""), b"x").is_ok());
    assert_eq!(
        provider.url_descarga(&entry),
        "https://huggingface.co/owner/repo/resolve/main/model.onnx"
    );
}

#[test]
fn cargar_con_base_dir_resuelve_paths_relativos() {
    let entries = vec![
        entrada("ocr_det", "models/ocr/det.onnx"),
        entrada("layout", "models/layout/doclayout_yolo.onnx"),
    ];
    let entries = ModelManifest::cargar_con_base_dir(entries, "/data/models");

    let det = entries.iter().find(|e| e.id == "ocr_det").unwrap();
    assert_eq!(det.path_local, "/data/models/ocr/det.onnx");

    let layout = entries.iter().find(|e| e.id == "layout").unwrap();
    assert_eq!(layout.path_local, "/data/models/layout/doclayout_yolo.onnx");
}

#[test]
fn rutas_locales_fuera_de_models_y_absolutas() {
    assert_eq!(ModelManifest::ruta_local("otros/a.onnx", "/data"), "/data/otros/a.onnx");
    assert_eq!(ModelManifest::ruta_local("/abs/a.onnx", "/data"), "/abs/a.onnx");
    assert_eq!(ModelManifest::ruta_local("models/a.onnx", "/data/"), "/data/a.onnx");
}

#[test]
fn manifiesto_ordenado_por_identificador() {
    let entries = vec![entrada("ocr_det", "a"), entrada("layout", "b"), entrada("ocr_rec", "c")];
    let ordenadas = ModelManifest::ordenar_por_id(entries);
    let ids: Vec<&str> = ordenadas.iter().map(|e| e.id.as_str()).collect();
    assert_eq!(ids, vec!["layout", "ocr_det", "ocr_rec"]);
}

#[test]
fn progreso_y_errores_de_descarga() {
    let provider = HuggingFaceModelProvider;
    let entry = entry_test("m.onnx", "");
    let p = provider.progreso_tras_bloque(&entry, 100, 28, 1000);
    assert_eq!((p.model_id.as_str(), p.bytes_descargados, p.bytes_totales), ("test_model", 128, 1000));
    assert_eq!(
        provider.error_http("404 Not Found", "https://x/y"),
        InfraError::Red("HTTP 404 Not Found al descargar https://x/y".into())
    );
}

#[test]
fn estado_segun_huella_leida() {
    assert_eq!(estado_modelo("abc", true, Some("abc")), ModelStatus::Valido);
    assert_eq!(estado_modelo("abc", true, Some("abd")), ModelStatus::Corrupto);
    assert_eq!(estado_modelo("abc", true, None), ModelStatus::Corrupto);
    assert_eq!(estado_modelo("", true, None), ModelStatus::Valido);
    assert_eq!(estado_modelo("abc", false, Some("abc")), ModelStatus::Faltante);
}
