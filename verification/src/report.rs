use vstd::prelude::*;

use crate::texto::{agregar_decimal, agregar_str, cadena, caracteres, decimal};

verus! {

/// Escapa un carácter para insertarlo en HTML.
pub open spec fn escapar_char(c: char) -> Seq<char> {
    if c == '&' {
        "&amp;"@
    } else if c == '<' {
        "&lt;"@
    } else if c == '>' {
        "&gt;"@
    } else if c == '"' {
        "&quot;"@
    } else {
        seq![c]
    }
}

/// Texto con `&`, `<`, `>` y `"` reemplazados por sus entidades HTML; el
/// resto de los caracteres se conserva.
pub open spec fn escapar(s: Seq<char>) -> Seq<char>
    decreases s.len(),
{
    if s.len() == 0 {
        Seq::empty()
    } else {
        escapar(s.drop_last()) + escapar_char(s.last())
    }
}

/// Escapa los caracteres especiales de HTML de un texto.
pub fn escape_html(s: &str) -> (r: String)
    ensures r@ == escapar(s@),
{
    let cs = caracteres(s);
    let mut v: Vec<char> = Vec::new();
    let mut i: usize = 0;
    while i < cs.len()
        invariant
            cs@ == s@,
            i <= cs@.len(),
            v@ == escapar(cs@.subrange(0, i as int)),
        decreases cs@.len() - i,
    {
        let c = cs[i];
        let ghost previo = v@;
        if c == '&' {
            agregar_str(&mut v, "&amp;");
        } else if c == '<' {
            agregar_str(&mut v, "&lt;");
        } else if c == '>' {
            agregar_str(&mut v, "&gt;");
        } else if c == '"' {
            agregar_str(&mut v, "&quot;");
        } else {
            v.push(c);
        }
        assert(cs@.subrange(0, i as int + 1).drop_last() =~= cs@.subrange(0, i as int));
        assert(v@ =~= previo + escapar_char(c));
        i = i + 1;
    }
    assert(cs@.subrange(0, cs@.len() as int) =~= cs@);
    cadena(&v)
}

/// El texto escapado no contiene `<`, `>` ni `"`.
pub proof fn ley_escape_sin_especiales(s: Seq<char>)
    ensures
        forall|i: int| 0 <= i < escapar(s).len() ==> {
            let c = #[trigger] escapar(s)[i];
            c != '<' && c != '>' && c != '"'
        },
    decreases s.len(),
{
    if s.len() > 0 {
        ley_escape_sin_especiales(s.drop_last());
        let a = escapar(s.drop_last());
        let b = escapar_char(s.last());
        reveal_strlit("&amp;");
        reveal_strlit("&lt;");
        reveal_strlit("&gt;");
        reveal_strlit("&quot;");
        assert forall|i: int| 0 <= i < escapar(s).len() implies {
            let c = #[trigger] escapar(s)[i];
            c != '<' && c != '>' && c != '"'
        } by {
            if i < a.len() {
                assert(escapar(s)[i] == a[i]);
            } else {
                assert(escapar(s)[i] == b[i - a.len()]);
            }
        }
    }
}

/// Marca de tiempo del informe: segundos desde la época Unix y la orden para
/// convertirlos.
pub open spec fn marca_tiempo(segundos: nat) -> Seq<char> {
    "Unix epoch +"@ + decimal(segundos) + "s (ejecutar date -d @"@ + decimal(segundos) + " para convertir)"@
}

/// Texto de la marca de tiempo para los segundos dados.
pub fn formatear_marca_tiempo(segundos: u64) -> (r: String)
    ensures r@ == marca_tiempo(segundos as nat),
{
    let mut v: Vec<char> = Vec::new();
    agregar_str(&mut v, "Unix epoch +");
    agregar_decimal(&mut v, segundos as u128);
    agregar_str(&mut v, "s (ejecutar date -d @");
    agregar_decimal(&mut v, segundos as u128);
    agregar_str(&mut v, " para convertir)");
    assert(v@ =~= marca_tiempo(segundos as nat));
    cadena(&v)
}

#[verifier::external_type_specification]
#[verifier::external_body]
pub struct ExSystemTime(std::time::SystemTime);

/// Hora actual del sistema (`SystemTime::now`); nada se promete de su valor.
#[verifier::external_body]
fn ahora() -> std::time::SystemTime {
    std::time::SystemTime::now()
}

/// Segundos enteros transcurridos desde la época Unix hasta `t`
/// (`SystemTime::duration_since(UNIX_EPOCH)`), o `None` si `t` es anterior;
/// nada se promete del valor, que depende del reloj.
#[verifier::external_body]
fn segundos_desde_epoch(t: &std::time::SystemTime) -> Option<u64> {
    t.duration_since(std::time::UNIX_EPOCH).ok().map(|d| d.as_secs())
}

/// Marca de tiempo del momento actual (0 segundos si el reloj es anterior a
/// la época Unix).
pub fn timestamp_actual() -> (r: String)
    ensures exists|s: u64| r@ == marca_tiempo(s as nat),
{
    let t = ahora();
    let segundos = match segundos_desde_epoch(&t) {
        Some(s) => s,
        None => 0,
    };
    formatear_marca_tiempo(segundos)
}

} // verus!
