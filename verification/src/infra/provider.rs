use vstd::prelude::*;
use sha2::Digest;

use crate::infra::error::InfraError;
use crate::traits::model_provider::{DownloadProgress, ModelEntry, ModelStatus};
use crate::texto::{agregar_str, cadena, iguales};

verus! {

/// Resumen SHA-256 de una secuencia de bytes.
pub uninterp spec fn sha256_spec(datos: Seq<u8>) -> Seq<u8>;

/// Resumen SHA-256 de `datos` calculado por `sha2::Sha256::digest`: el
/// resultado es función de los bytes y mide siempre 32 bytes.
#[verifier::external_body]
fn sha256(datos: &[u8]) -> (r: Vec<u8>)
    ensures
        r@ == sha256_spec(datos@),
        r@.len() == 32,
{
    sha2::Sha256::digest(datos).to_vec()
}

/// Cifra hexadecimal en minúscula de un valor entre 0 y 15.
pub open spec fn hex_digito(d: nat) -> char {
    if d < 10 {
        ((d + 48) as u8) as char
    } else {
        ((d + 87) as u8) as char
    }
}

/// Bytes escritos en hexadecimal con minúsculas, dos cifras por byte.
pub open spec fn hex(b: Seq<u8>) -> Seq<char>
    decreases b.len(),
{
    if b.len() == 0 {
        Seq::empty()
    } else {
        hex(b.drop_last()) + seq![hex_digito((b.last() / 16) as nat), hex_digito((b.last() % 16) as nat)]
    }
}

fn cifra_hex(d: u8) -> (c: char)
    requires d < 16,
    ensures c == hex_digito(d as nat),
{
    if d < 10 {
        (d + 48) as char
    } else {
        (d + 87) as char
    }
}

/// Codifica bytes en hexadecimal con minúsculas.
pub fn a_hex(b: &[u8]) -> (r: String)
    ensures r@ == hex(b@),
{
    let mut v: Vec<char> = Vec::new();
    let mut i: usize = 0;
    while i < b.len()
        invariant
            i <= b@.len(),
            v@ == hex(b@.subrange(0, i as int)),
        decreases b@.len() - i,
    {
        let x = b[i];
        v.push(cifra_hex(x / 16));
        v.push(cifra_hex(x % 16));
        assert(b@.subrange(0, i as int + 1).drop_last() =~= b@.subrange(0, i as int));
        i = i + 1;
    }
    assert(b@.subrange(0, b@.len() as int) =~= b@);
    cadena(&v)
}

/// Huella SHA-256 en hexadecimal de un contenido.
pub open spec fn huella(datos: Seq<u8>) -> Seq<char> {
    hex(sha256_spec(datos))
}

/// Huella SHA-256 en hexadecimal con minúsculas (64 caracteres) de un
/// contenido, tal como la publican los manifiestos.
pub fn sha256_hex(datos: &[u8]) -> (r: String)
    ensures r@ == huella(datos@),
{
    let d = sha256(datos);
    a_hex(d.as_slice())
}

/// Estado de un modelo según lo observado en disco: si el archivo existe y,
/// cuando hubo que leerlo, su contenido (`None` si no pudo leerse).
pub open spec fn estado_modelo_spec(sha_esperado: Seq<char>, existe: bool, contenido: Option<Seq<u8>>) -> ModelStatus {
    if !existe {
        ModelStatus::Faltante
    } else if sha_esperado.len() == 0 {
        ModelStatus::Valido
    } else {
        match contenido {
            Some(c) => if huella(c) == sha_esperado { ModelStatus::Valido } else { ModelStatus::Corrupto },
            None => ModelStatus::Corrupto,
        }
    }
}

/// Estado de un modelo a partir de la huella esperada, de si su archivo
/// existe y de la huella de su contenido (`None` si no se pudo leer).
pub open spec fn estado_por_huella(sha_esperado: Seq<char>, existe: bool, huella_leida: Option<Seq<char>>) -> ModelStatus {
    if !existe {
        ModelStatus::Faltante
    } else if sha_esperado.len() == 0 {
        ModelStatus::Valido
    } else {
        match huella_leida {
            Some(h) => if h == sha_esperado { ModelStatus::Valido } else { ModelStatus::Corrupto },
            None => ModelStatus::Corrupto,
        }
    }
}

/// Estado de un modelo dada la huella hexadecimal de su contenido.
pub fn estado_modelo(sha_esperado: &str, existe: bool, huella_leida: Option<&str>) -> (r: ModelStatus)
    ensures r == estado_por_huella(sha_esperado@, existe, match huella_leida { Some(h) => Some(h@), None => None }),
{
    if !existe {
        return ModelStatus::Faltante;
    }
    if sha_esperado.is_empty() {
        return ModelStatus::Valido;
    }
    match huella_leida {
        Some(h) => if iguales(h, sha_esperado) { ModelStatus::Valido } else { ModelStatus::Corrupto },
        None => ModelStatus::Corrupto,
    }
}

/// Proveedor de modelos que los descarga del repositorio público de
/// HuggingFace.
pub struct HuggingFaceModelProvider;

/// URL de descarga directa de un modelo.
pub open spec fn url_spec(repo: Seq<char>, path_repo: Seq<char>) -> Seq<char> {
    "https://huggingface.co/"@ + repo + "/resolve/main/"@ + path_repo
}

impl HuggingFaceModelProvider {
    /// Estado de un modelo: falta si el archivo no existe; es válido si existe
    /// y el manifiesto no fija huella; si la fija, es válido solo cuando la
    /// huella del contenido leído coincide (un archivo ilegible está corrupto).
    pub fn verificar_entrada(&self, entry: &ModelEntry, existe: bool, contenido: Option<&[u8]>) -> (r: ModelStatus)
        ensures
            r == estado_modelo_spec(
                entry.sha256@,
                existe,
                match contenido { Some(c) => Some(c@), None => None },
            ),
    {
        if !existe || entry.sha256.as_str().is_empty() {
            return estado_modelo(entry.sha256.as_str(), existe, None);
        }
        match contenido {
            Some(c) => {
                let h = sha256_hex(c);
                estado_modelo(entry.sha256.as_str(), existe, Some(h.as_str()))
            },
            None => estado_modelo(entry.sha256.as_str(), existe, None),
        }
    }

    /// Estado de cada modelo del manifiesto, con su identificador, a partir
    /// de lo observado en disco para cada uno (si su archivo existe y, si se
    /// leyó, su contenido).
    pub fn verificar_modelos(&self, entries: &[ModelEntry], observado: &[(bool, Option<Vec<u8>>)]) -> (r: Vec<(String, ModelStatus)>)
        requires entries@.len() == observado@.len(),
        ensures
            r@.len() == entries@.len(),
            forall|i: int| 0 <= i < r@.len() ==> {
                &&& (#[trigger] r@[i]).0@ == entries@[i].id@
                &&& r@[i].1 == estado_modelo_spec(
                    entries@[i].sha256@,
                    observado@[i].0,
                    match observado@[i].1 { Some(c) => Some(c@), None => None },
                )
            },
    {
        let mut r: Vec<(String, ModelStatus)> = Vec::new();
        let mut i: usize = 0;
        while i < entries.len()
            invariant
                i <= entries@.len() == observado@.len(),
                r@.len() == i,
                forall|k: int| 0 <= k < i ==> {
                    &&& (#[trigger] r@[k]).0@ == entries@[k].id@
                    &&& r@[k].1 == estado_modelo_spec(
                        entries@[k].sha256@,
                        observado@[k].0,
                        match observado@[k].1 { Some(c) => Some(c@), None => None },
                    )
                },
            decreases entries.len() - i,
        {
            let (existe, contenido) = &observado[i];
            let estado = match contenido {
                Some(c) => self.verificar_entrada(&entries[i], *existe, Some(c.as_slice())),
                None => self.verificar_entrada(&entries[i], *existe, None),
            };
            r.push((entries[i].id.clone(), estado));
            i = i + 1;
        }
        r
    }

    /// Integridad de un contenido: sin huella esperada se acepta; si no, la
    /// huella del contenido debe coincidir.
    pub fn verificar_integridad(&self, contenido: &[u8], sha256_esperado: &str) -> (r: bool)
        ensures r == (sha256_esperado@.len() == 0 || huella(contenido@) == sha256_esperado@),
    {
        if sha256_esperado.is_empty() {
            return true;
        }
        let h = sha256_hex(contenido);
        let esperado = String::from_str(sha256_esperado);
        h == esperado
    }

    /// URL de descarga directa de un modelo del manifiesto.
    pub fn url_descarga(&self, entry: &ModelEntry) -> (r: String)
        ensures r@ == url_spec(entry.repo@, entry.path_repo@),
    {
        let mut v: Vec<char> = Vec::new();
        agregar_str(&mut v, "https://huggingface.co/");
        agregar_str(&mut v, entry.repo.as_str());
        agregar_str(&mut v, "/resolve/main/");
        agregar_str(&mut v, entry.path_repo.as_str());
        assert(v@ =~= url_spec(entry.repo@, entry.path_repo@));
        cadena(&v)
    }

    /// Progreso que se comunica tras recibir un bloque de `n` bytes, con
    /// `descargados` bytes recibidos antes y `total` anunciados por el
    /// servidor (0 si no los anunció).
    pub fn progreso_tras_bloque(&self, entry: &ModelEntry, descargados: u64, n: u64, total: u64) -> (r: DownloadProgress)
        requires descargados + n <= u64::MAX,
        ensures
            r.model_id@ == entry.id@,
            r.bytes_descargados == descargados + n,
            r.bytes_totales == total,
    {
        DownloadProgress { model_id: entry.id.clone(), bytes_descargados: descargados + n, bytes_totales: total }
    }

    /// Error de red para una respuesta HTTP que no fue satisfactoria, con el
    /// estado tal como lo muestra el cliente y la URL pedida.
    pub fn error_http(&self, estado: &str, url: &str) -> (r: InfraError)
        ensures r matches InfraError::Red(m) && m@ == "HTTP "@ + estado@ + " al descargar "@ + url@,
    {
        let mut v: Vec<char> = Vec::new();
        agregar_str(&mut v, "HTTP ");
        agregar_str(&mut v, estado);
        agregar_str(&mut v, " al descargar ");
        agregar_str(&mut v, url);
        assert(v@ =~= "HTTP "@ + estado@ + " al descargar "@ + url@);
        InfraError::Red(cadena(&v))
    }

    /// Comprobación posterior a una descarga: si el manifiesto fija huella y
    /// la del contenido descargado difiere, `HashIncorrecto` con ambas.
    pub fn verificar_descarga(&self, entry: &ModelEntry, contenido: &[u8]) -> (r: Result<(), InfraError>)
        ensures
            r is Ok <==> (entry.sha256@.len() == 0 || huella(contenido@) == entry.sha256@),
            r matches Err(InfraError::HashIncorrecto { esperado, obtenido })
                ==> esperado@ == entry.sha256@ && obtenido@ == huella(contenido@),
            r matches Err(e) ==> e is HashIncorrecto,
    {
        if entry.sha256.as_str().is_empty() {
            return Ok(());
        }
        let h = sha256_hex(contenido);
        if h == entry.sha256 {
            Ok(())
        } else {
            Err(InfraError::HashIncorrecto { esperado: entry.sha256.clone(), obtenido: h })
        }
    }
}

} // verus!
