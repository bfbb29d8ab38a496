use vstd::prelude::*;

use crate::document::PageImage;
use crate::infra::error::InfraError;
use crate::texto::{cadena, caracteres, iguales};

verus! {

/// Formatos de imagen que el lector decodifica indicando el formato.
#[derive(Debug, Clone, Copy, PartialEq, Eq, Structural)]
pub enum FormatoImagen {
    Png,
    Jpeg,
    WebP,
    Tiff,
}

/// Formato asociado a una extensión (ya en minúsculas); `None` si hay que
/// detectarlo por el contenido.
pub open spec fn formato_spec(ext: Seq<char>) -> Option<FormatoImagen> {
    if ext == "png"@ {
        Some(FormatoImagen::Png)
    } else if ext == "jpg"@ || ext == "jpeg"@ {
        Some(FormatoImagen::Jpeg)
    } else if ext == "webp"@ {
        Some(FormatoImagen::WebP)
    } else if ext == "tiff"@ || ext == "tif"@ {
        Some(FormatoImagen::Tiff)
    } else {
        None
    }
}

pub fn formato_por_extension(ext: &str) -> (r: Option<FormatoImagen>)
    ensures r == formato_spec(ext@),
{
    if iguales(ext, "png") {
        Some(FormatoImagen::Png)
    } else if iguales(ext, "jpg") || iguales(ext, "jpeg") {
        Some(FormatoImagen::Jpeg)
    } else if iguales(ext, "webp") {
        Some(FormatoImagen::WebP)
    } else if iguales(ext, "tiff") || iguales(ext, "tif") {
        Some(FormatoImagen::Tiff)
    } else {
        None
    }
}

/// Posición del último `c` en `s` (`-1` si no aparece).
pub open spec fn ultima_posicion(s: Seq<char>, c: char) -> int
    decreases s.len(),
{
    if s.len() == 0 {
        -1
    } else if s.last() == c {
        s.len() - 1
    } else {
        ultima_posicion(s.drop_last(), c)
    }
}

/// Componentes normales de una ruta Unix: los tramos entre `/` que no son
/// vacíos ni `.`.
pub open spec fn componentes(s: Seq<char>) -> Seq<Seq<char>>
    decreases s.len(),
{
    let k = ultima_posicion(s, '/');
    let ultimo = s.subrange(k + 1, s.len() as int);
    let previos = if k < 0 {
        Seq::<Seq<char>>::empty()
    } else {
        proof { lema_ultima_posicion(s, '/'); }
        componentes(s.subrange(0, k))
    };
    if ultimo.len() == 0 || ultimo == "."@ {
        previos
    } else {
        previos.push(ultimo)
    }
}

/// Nombre del archivo de una ruta (su último componente), salvo que sea `..`.
pub open spec fn nombre_archivo(ruta: Seq<char>) -> Option<Seq<char>> {
    let cs = componentes(ruta);
    if cs.len() == 0 || cs.last() == ".."@ {
        None
    } else {
        Some(cs.last())
    }
}

/// Extensión de una ruta como la entiende `Path::extension` en Unix: lo que
/// sigue al último punto del nombre del archivo, si ese punto no es el
/// primer carácter del nombre.
pub open spec fn extension_spec(ruta: Seq<char>) -> Option<Seq<char>> {
    match nombre_archivo(ruta) {
        None => None,
        Some(nombre) => {
            let k = ultima_posicion(nombre, '.');
            if k <= 0 { None } else { Some(nombre.subrange(k + 1, nombre.len() as int)) }
        },
    }
}

pub proof fn lema_ultima_posicion(s: Seq<char>, c: char)
    ensures
        -1 <= ultima_posicion(s, c) < s.len(),
        ultima_posicion(s, c) >= 0 ==> s[ultima_posicion(s, c)] == c,
        forall|i: int| ultima_posicion(s, c) < i < s.len() ==> s[i] != c,
    decreases s.len(),
{
    if s.len() > 0 && s.last() != c {
        lema_ultima_posicion(s.drop_last(), c);
        assert forall|i: int| 0 <= i < s.len() - 1 implies s.drop_last()[i] == s[i] by {}
    }
}

fn buscar_ultimo(v: &Vec<char>, fin: usize, c: char) -> (r: Option<usize>)
    requires fin <= v@.len(),
    ensures
        match r {
            Some(k) => k < fin && ultima_posicion(v@.subrange(0, fin as int), c) == k,
            None => ultima_posicion(v@.subrange(0, fin as int), c) == -1,
        },
{
    let mut i = fin;
    while i > 0
        invariant
            i <= fin <= v@.len(),
            ultima_posicion(v@.subrange(0, fin as int), c) == ultima_posicion(v@.subrange(0, i as int), c),
        decreases i,
    {
        assert(v@.subrange(0, i as int).drop_last() =~= v@.subrange(0, i - 1));
        if v[i - 1] == c {
            return Some(i - 1);
        }
        i = i - 1;
    }
    None
}

fn tramo(v: &Vec<char>, desde: usize, hasta: usize) -> (r: Vec<char>)
    requires desde <= hasta <= v@.len(),
    ensures r@ == v@.subrange(desde as int, hasta as int),
{
    let mut r: Vec<char> = Vec::new();
    let mut i = desde;
    while i < hasta
        invariant
            desde <= i <= hasta <= v@.len(),
            r@ == v@.subrange(desde as int, i as int),
        decreases hasta - i,
    {
        r.push(v[i]);
        assert(v@.subrange(desde as int, i + 1) =~= v@.subrange(desde as int, i as int).push(v@[i as int]));
        i = i + 1;
    }
    r
}

fn es_punto(v: &Vec<char>) -> (r: bool)
    ensures r == (v@ == "."@),
{
    proof { reveal_strlit("."); }
    if v.len() == 1 && v[0] == '.' {
        assert(v@ =~= "."@);
        true
    } else {
        false
    }
}

fn es_dos_puntos(v: &Vec<char>) -> (r: bool)
    ensures r == (v@ == ".."@),
{
    proof { reveal_strlit(".."); }
    if v.len() == 2 && v[0] == '.' && v[1] == '.' {
        assert(v@ =~= ".."@);
        true
    } else {
        false
    }
}

/// Último componente normal de `v[..fin]`, si lo hay.
fn ultimo_componente(v: &Vec<char>, fin: usize) -> (r: Option<Vec<char>>)
    requires fin <= v@.len(),
    ensures
        match r {
            Some(u) => componentes(v@.subrange(0, fin as int)).len() > 0
                && u@ == componentes(v@.subrange(0, fin as int)).last(),
            None => componentes(v@.subrange(0, fin as int)).len() == 0,
        },
    decreases fin,
{
    let ghost s = v@.subrange(0, fin as int);
    let k = buscar_ultimo(v, fin, '/');
    let inicio: usize = match k { Some(k) => k + 1, None => 0 };
    let ultimo = tramo(v, inicio, fin);
    proof {
        lema_ultima_posicion(s, '/');
        assert(s.subrange(ultima_posicion(s, '/') + 1, s.len() as int) =~= ultimo@);
    }
    if ultimo.len() == 0 || es_punto(&ultimo) {
        match k {
            Some(k) => {
                proof { assert(s.subrange(0, k as int) =~= v@.subrange(0, k as int)); }
                ultimo_componente(v, k)
            },
            None => None,
        }
    } else {
        Some(ultimo)
    }
}

/// Extensión del archivo de una ruta, según `Path::extension`.
pub fn extension(ruta: &str) -> (r: Option<String>)
    ensures
        match r {
            Some(e) => extension_spec(ruta@) == Some(e@),
            None => extension_spec(ruta@) is None,
        },
{
    let v = caracteres(ruta);
    proof { assert(v@.subrange(0, v@.len() as int) =~= ruta@); }
    match ultimo_componente(&v, v.len()) {
        None => None,
        Some(nombre) => {
            if es_dos_puntos(&nombre) {
                return None;
            }
            match buscar_ultimo(&nombre, nombre.len(), '.') {
                Some(k) => {
                    proof { assert(nombre@.subrange(0, nombre@.len() as int) =~= nombre@); }
                    if k == 0 {
                        None
                    } else {
                        let e = tramo(&nombre, k + 1, nombre.len());
                        Some(cadena(&e))
                    }
                },
                None => {
                    proof { assert(nombre@.subrange(0, nombre@.len() as int) =~= nombre@); }
                    None
                },
            }
        },
    }
}

/// Texto en minúsculas según las reglas de Unicode.
pub uninterp spec fn minusculas_spec(s: Seq<char>) -> Seq<char>;

/// `str::to_lowercase`: el resultado es función del texto.
#[verifier::external_body]
fn minusculas(s: &str) -> (r: String)
    ensures r@ == minusculas_spec(s@),
{
    s.to_lowercase()
}

/// Extensión en minúsculas con la que se elige el decodificador (vacía si la
/// ruta no tiene extensión).
pub open spec fn extension_normalizada(ruta: Seq<char>) -> Seq<char> {
    match extension_spec(ruta) {
        Some(e) => minusculas_spec(e),
        None => minusculas_spec(Seq::empty()),
    }
}

/// Página PNG que `image` obtiene de los bytes decodificándolos con el
/// formato dado: los bytes PNG re-codificados, el ancho y el alto; `None` si
/// no decodifica o no se re-codifica.
pub uninterp spec fn pagina_png_con_formato(bytes: Seq<u8>, formato: FormatoImagen) -> Option<(Seq<u8>, u32, u32)>;

/// Lo mismo, detectando el formato por el contenido.
pub uninterp spec fn pagina_png_detectando(bytes: Seq<u8>) -> Option<(Seq<u8>, u32, u32)>;

/// `image::load_from_memory_with_format` seguido de `DynamicImage::write_to`
/// en PNG, `width` y `height`: con los límites por defecto, el resultado
/// depende solo de los bytes y del formato; el error se conserva por su
/// mensaje, del que nada se promete.
#[verifier::external_body]
fn decodificar_en_png_con_formato(bytes: &[u8], formato: FormatoImagen) -> (r: Result<(Vec<u8>, u32, u32), String>)
    ensures
        match r {
            Ok((d, w, h)) => pagina_png_con_formato(bytes@, formato) == Some((d@, w, h)),
            Err(_) => pagina_png_con_formato(bytes@, formato) is None,
        },
{
    let f = match formato {
        FormatoImagen::Png => image::ImageFormat::Png,
        FormatoImagen::Jpeg => image::ImageFormat::Jpeg,
        FormatoImagen::WebP => image::ImageFormat::WebP,
        FormatoImagen::Tiff => image::ImageFormat::Tiff,
    };
    let img = image::load_from_memory_with_format(bytes, f).map_err(|e| e.to_string())?;
    let mut datos: Vec<u8> = Vec::new();
    img.write_to(&mut std::io::Cursor::new(&mut datos), image::ImageFormat::Png).map_err(|e| e.to_string())?;
    Ok((datos, img.width(), img.height()))
}

/// `image::load_from_memory` seguido de `DynamicImage::write_to` en PNG,
/// `width` y `height`: el resultado depende solo de los bytes; el error se
/// conserva por su mensaje, del que nada se promete.
#[verifier::external_body]
fn decodificar_en_png_detectando(bytes: &[u8]) -> (r: Result<(Vec<u8>, u32, u32), String>)
    ensures
        match r {
            Ok((d, w, h)) => pagina_png_detectando(bytes@) == Some((d@, w, h)),
            Err(_) => pagina_png_detectando(bytes@) is None,
        },
{
    let img = image::load_from_memory(bytes).map_err(|e| e.to_string())?;
    let mut datos: Vec<u8> = Vec::new();
    img.write_to(&mut std::io::Cursor::new(&mut datos), image::ImageFormat::Png).map_err(|e| e.to_string())?;
    Ok((datos, img.width(), img.height()))
}

/// Rasterizador de PDF: entrega cada página como imagen a la resolución
/// pedida.
#[derive(Debug, Clone, Copy, PartialEq, Eq, Structural)]
pub struct PdfiumPageReader {
    pub dpi: u16,
}

/// Resolución con que se rasteriza por defecto.
pub const DPI_POR_DEFECTO: u16 = 300;

impl PdfiumPageReader {
    pub fn new(dpi: u16) -> (r: Self)
        ensures r.dpi == dpi,
    {
        PdfiumPageReader { dpi }
    }

    pub fn default_dpi() -> (r: Self)
        ensures r.dpi == DPI_POR_DEFECTO,
    {
        Self::new(DPI_POR_DEFECTO)
    }

    /// Un documento sin bytes se rechaza antes de abrirlo.
    pub fn comprobar_bytes(&self, bytes: &[u8]) -> (r: Result<(), InfraError>)
        ensures
            r is Ok <==> bytes@.len() > 0,
            r matches Err(e) ==> (e matches InfraError::Pdf(m) && m@ == "PDF vacío"@),
    {
        if bytes.len() == 0 {
            Err(InfraError::Pdf(String::from_str("PDF vacío")))
        } else {
            Ok(())
        }
    }

    /// Número de la página en posición `idx` (las páginas se numeran
    /// desde 1).
    pub fn numero_de_pagina(&self, idx: usize) -> (r: u32)
        requires idx < u32::MAX,
        ensures r == idx + 1,
    {
        (idx + 1) as u32
    }

    /// Las páginas rasterizadas, o `Pdf("PDF sin páginas")` si no hay
    /// ninguna.
    pub fn reunir_paginas(&self, paginas: Vec<PageImage>) -> (r: Result<Vec<PageImage>, InfraError>)
        ensures
            paginas@.len() > 0 ==> r == Ok::<Vec<PageImage>, InfraError>(paginas),
            paginas@.len() == 0 ==> (r matches Err(InfraError::Pdf(m)) && m@ == "PDF sin páginas"@),
    {
        if paginas.len() == 0 {
            Err(InfraError::Pdf(String::from_str("PDF sin páginas")))
        } else {
            Ok(paginas)
        }
    }
}

/// Lector de imágenes rasterizadas (PNG, JPEG, WebP, TIFF).
pub struct ImageInputReader;

pub open spec fn mensaje_sin_pdf() -> Seq<char> {
    "pdfium no disponible en esta compilación"@
}

/// Decisión sobre la extensión (ya en minúsculas) de un archivo de
/// entrada: un PDF no lo procesa este lector.
pub fn clasificar_extension(ext: String) -> (r: Result<String, InfraError>)
    ensures
        ext@ == "pdf"@ ==> (r matches Err(InfraError::Pdf(m)) && m@ == mensaje_sin_pdf()),
        ext@ != "pdf"@ ==> r == Ok::<String, InfraError>(ext),
{
    if iguales(ext.as_str(), "pdf") {
        Err(InfraError::Pdf(String::from_str("pdfium no disponible en esta compilación")))
    } else {
        Ok(ext)
    }
}

/// Página de una imagen decodificada: sus bytes PNG, sus dimensiones y su
/// número.
pub fn pagina_de_imagen(datos: Vec<u8>, ancho: u32, alto: u32, numero_pagina: u32) -> (r: PageImage)
    ensures r == (PageImage { datos, ancho, alto, numero_pagina }),
{
    PageImage { datos, ancho, alto, numero_pagina }
}

/// Página que se obtiene de los bytes con el decodificador que elige la
/// extensión (o, si no la reconoce, detectando el formato).
pub open spec fn pagina_leida(bytes: Seq<u8>, extension: Seq<char>) -> Option<(Seq<u8>, u32, u32)> {
    match formato_spec(extension) {
        Some(f) => pagina_png_con_formato(bytes, f),
        None => pagina_png_detectando(bytes),
    }
}

/// Las páginas de una imagen ya decodificada y re-codificada en PNG: una
/// sola, numerada 1; un fallo de decodificación es un error de imagen con
/// su mensaje.
pub fn paginas_de_decodificacion(resultado: Result<(Vec<u8>, u32, u32), String>) -> (r: Result<Vec<PageImage>, InfraError>)
    ensures
        match resultado {
            Ok((d, w, h)) => r matches Ok(v) && v@.len() == 1
                && v@[0] == (PageImage { datos: d, ancho: w, alto: h, numero_pagina: 1 }),
            Err(m) => r == Err::<Vec<PageImage>, InfraError>(InfraError::Imagen(m)),
        },
{
    match resultado {
        Ok((datos, ancho, alto)) => {
            let mut v: Vec<PageImage> = Vec::new();
            v.push(pagina_de_imagen(datos, ancho, alto, 1));
            Ok(v)
        },
        Err(m) => Err(InfraError::Imagen(m)),
    }
}

impl ImageInputReader {
    /// Extensión con la que se leerá un archivo, o el error de PDF si la ruta
    /// es de un PDF (que este lector no procesa).
    pub fn extension_de_archivo(&self, ruta: &str) -> (r: Result<String, InfraError>)
        ensures
            extension_normalizada(ruta@) == "pdf"@ ==> (r matches Err(InfraError::Pdf(m)) && m@ == mensaje_sin_pdf()),
            extension_normalizada(ruta@) != "pdf"@ ==> (r matches Ok(e) && e@ == extension_normalizada(ruta@)),
    {
        let ext = match extension(ruta) {
            Some(e) => minusculas(e.as_str()),
            None => minusculas(""),
        };
        proof {
            reveal_strlit("");
            assert(Seq::<char>::empty() =~= ""@);
            assert(ext@ == extension_normalizada(ruta@));
        }
        clasificar_extension(ext)
    }

    /// Decodifica una imagen en memoria y la entrega como única página,
    /// re-codificada en PNG, con sus dimensiones. El decodificador se elige
    /// por la extensión; si no la reconoce, se detecta por el contenido.
    pub fn leer_bytes(&self, bytes: &[u8], extension: &str) -> (r: Result<Vec<PageImage>, InfraError>)
        ensures
            match pagina_leida(bytes@, extension@) {
                Some((d, w, h)) => r matches Ok(v) && v@.len() == 1 && v@[0].datos@ == d
                    && v@[0].ancho == w && v@[0].alto == h && v@[0].numero_pagina == 1,
                None => r matches Err(InfraError::Imagen(_)),
            },
    {
        let resultado = match formato_por_extension(extension) {
            Some(f) => decodificar_en_png_con_formato(bytes, f),
            None => decodificar_en_png_detectando(bytes),
        };
        paginas_de_decodificacion(resultado)
    }
}

} // verus!
