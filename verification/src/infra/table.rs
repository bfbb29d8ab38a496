use vstd::prelude::*;

use crate::infra::error::InfraError;
use crate::texto::{agregar_decimal, agregar_str, cadena, decimal};

verus! {

pub const TOKEN_PAD: usize = 0;
pub const TOKEN_EOS: usize = 2;
pub const TOKEN_TR: usize = 3;
pub const TOKEN_TR_CLOSE: usize = 4;

/// Tokens de celda (`<td>` con o sin `colspan`/`rowspan`) del vocabulario de
/// estructura de tablas.
pub open spec fn es_td(t: usize) -> bool {
    t == 5 || (7 <= t && t <= 17)
}

/// Columnas que ocupa una celda según su token.
pub open spec fn colspan(t: usize) -> nat {
    if t == 7 || t == 15 || t == 17 { 2 }
    else if t == 8 || t == 16 { 3 }
    else if t == 9 { 4 }
    else if t == 10 { 5 }
    else { 1 }
}

pub fn es_token_td(token_idx: usize) -> (r: bool)
    ensures r == es_td(token_idx),
{
    matches!(token_idx, 5 | 7 | 8 | 9 | 10 | 11 | 12 | 13 | 14 | 15 | 16 | 17)
}

pub fn colspan_de_token(token_idx: usize) -> (r: u32)
    ensures r == colspan(token_idx),
{
    match token_idx {
        7 => 2,
        8 => 3,
        9 => 4,
        10 => 5,
        15 => 2,
        16 => 3,
        17 => 2,
        _ => 1,
    }
}

/// Vocabulario del reconocedor de estructura: la etiqueta HTML de cada token.
pub open spec fn vocabulario_estructura() -> Seq<Seq<char>> {
    seq![
        "<pad>"@, "<unk>"@, "<eos>"@,
        "<tr>"@, "</tr>"@,
        "<td>"@, "</td>"@,
        "<td colspan=2>"@, "<td colspan=3>"@, "<td colspan=4>"@, "<td colspan=5>"@,
        "<td rowspan=2>"@, "<td rowspan=3>"@, "<td rowspan=4>"@, "<td rowspan=5>"@,
        "<td colspan=2 rowspan=2>"@, "<td colspan=3 rowspan=2>"@, "<td colspan=2 rowspan=3>"@,
        "<thead>"@, "</thead>"@, "<tbody>"@, "</tbody>"@,
    ]
}

/// La etiqueta abre una celda.
pub open spec fn abre_celda(etiqueta: Seq<char>) -> bool {
    etiqueta.len() >= 4 && etiqueta.subrange(0, 3) == "<td"@ && (etiqueta[3] == '>' || etiqueta[3] == ' ')
}

/// Columnas que una etiqueta de celda dice ocupar: el dígito de su atributo
/// `colspan`, o una si no lo tiene.
pub open spec fn colspan_escrito(etiqueta: Seq<char>) -> nat {
    if etiqueta.len() > 12 && etiqueta.subrange(0, 12) == "<td colspan="@ {
        ((etiqueta[12] as int) - ('0' as int)) as nat
    } else {
        1
    }
}

/// Los tokens de celda son exactamente los del vocabulario cuya etiqueta
/// abre una celda, y cada uno ocupa las columnas que declara su atributo
/// `colspan` (una si no lo tiene). Los índices fuera del vocabulario no son
/// celdas.
pub proof fn ley_colspan_del_vocabulario(t: usize)
    ensures
        t < vocabulario_estructura().len() ==> (es_td(t) <==> abre_celda(vocabulario_estructura()[t as int])),
        t >= vocabulario_estructura().len() ==> !es_td(t),
        es_td(t) ==> colspan(t) == colspan_escrito(vocabulario_estructura()[t as int]),
{
    reveal_strlit("<pad>"); reveal_strlit("<unk>"); reveal_strlit("<eos>");
    reveal_strlit("<tr>"); reveal_strlit("</tr>");
    reveal_strlit("<td>"); reveal_strlit("</td>");
    reveal_strlit("<td colspan=2>"); reveal_strlit("<td colspan=3>");
    reveal_strlit("<td colspan=4>"); reveal_strlit("<td colspan=5>");
    reveal_strlit("<td rowspan=2>"); reveal_strlit("<td rowspan=3>");
    reveal_strlit("<td rowspan=4>"); reveal_strlit("<td rowspan=5>");
    reveal_strlit("<td colspan=2 rowspan=2>"); reveal_strlit("<td colspan=3 rowspan=2>");
    reveal_strlit("<td colspan=2 rowspan=3>");
    reveal_strlit("<thead>"); reveal_strlit("</thead>"); reveal_strlit("<tbody>"); reveal_strlit("</tbody>");
    reveal_strlit("<td"); reveal_strlit("<td colspan=");
    let v = vocabulario_estructura();
    assert(v.len() == 22);
    if t < 22 {
        let e = v[t as int];
        if e.len() >= 3 {
            if e.subrange(0, 3) == "<td"@ {
                assert(e[0] == e.subrange(0, 3)[0] && e[1] == e.subrange(0, 3)[1] && e[2] == e.subrange(0, 3)[2]);
                assert(e[0] == '<' && e[1] == 't' && e[2] == 'd');
            } else if 5 <= t <= 17 && t != 6 {
                assert(e.subrange(0, 3) =~= "<td"@);
            }
        }
        if e.len() > 12 {
            if e.subrange(0, 12) == "<td colspan="@ {
                assert(e[4] == e.subrange(0, 12)[4] && e[5] == e.subrange(0, 12)[5]);
                assert(e[4] == 'c' && e[5] == 'o');
            } else if t == 7 || t == 8 || t == 9 || t == 10 || t == 15 || t == 16 || t == 17 {
                assert(e.subrange(0, 12) =~= "<td colspan="@);
            }
        }
    }
}

/// Estado del recorrido de la secuencia de estructura: filas abiertas, ancho
/// máximo visto, columnas de la fila en curso y si hay una fila abierta.
pub struct Recorrido {
    pub filas: nat,
    pub max_cols: nat,
    pub cols: nat,
    pub en_fila: bool,
}

pub open spec fn max_nat(a: nat, b: nat) -> nat {
    if a >= b { a } else { b }
}

/// Efecto de un token: `<tr>` cierra la fila abierta (si la hay) y abre otra;
/// `</tr>` cierra la fila en curso; una celda suma su `colspan`.
pub open spec fn paso(r: Recorrido, t: usize) -> Recorrido {
    if t == TOKEN_TR {
        Recorrido {
            filas: r.filas + 1,
            max_cols: if r.en_fila { max_nat(r.max_cols, r.cols) } else { r.max_cols },
            cols: 0,
            en_fila: true,
        }
    } else if t == TOKEN_TR_CLOSE {
        Recorrido { max_cols: max_nat(r.max_cols, r.cols), en_fila: false, ..r }
    } else if es_td(t) {
        Recorrido { cols: r.cols + colspan(t), ..r }
    } else {
        r
    }
}

pub open spec fn recorrer(tokens: Seq<usize>) -> Recorrido
    decreases tokens.len(),
{
    if tokens.len() == 0 {
        Recorrido { filas: 0, max_cols: 0, cols: 0, en_fila: false }
    } else {
        paso(recorrer(tokens.drop_last()), tokens.last())
    }
}

/// Filas y columnas de la tabla descrita por la secuencia: el número de
/// `<tr>` y el ancho máximo de fila (contando la fila que quede abierta).
pub open spec fn dimensiones_tabla(tokens: Seq<usize>) -> (nat, nat) {
    let r = recorrer(tokens);
    (r.filas, if r.en_fila { max_nat(r.max_cols, r.cols) } else { r.max_cols })
}

/// Posiciones de la secuencia que son celdas, en orden.
pub open spec fn posiciones_td(tokens: Seq<usize>) -> Seq<usize>
    decreases tokens.len(),
{
    if tokens.len() == 0 {
        Seq::empty()
    } else {
        let previas = posiciones_td(tokens.drop_last());
        if es_td(tokens.last()) { previas.push((tokens.len() - 1) as usize) } else { previas }
    }
}

/// Posiciones de la secuencia que no son relleno, en orden.
pub open spec fn posiciones_no_relleno(tokens: Seq<usize>) -> Seq<usize>
    decreases tokens.len(),
{
    if tokens.len() == 0 {
        Seq::empty()
    } else {
        let previas = posiciones_no_relleno(tokens.drop_last());
        if tokens.last() != TOKEN_PAD { previas.push((tokens.len() - 1) as usize) } else { previas }
    }
}

/// Estructura de una tabla reconocida: dimensiones, la grilla de celdas
/// (vacías hasta que el OCR las llene), las posiciones de la secuencia que
/// son celdas (allí están sus cajas) y las que no son relleno (sus
/// probabilidades forman la confianza).
pub struct EstructuraTabla {
    pub filas: u32,
    pub columnas: u32,
    pub celdas: Vec<Vec<String>>,
    pub posiciones_td: Vec<usize>,
    pub posiciones_con_contenido: Vec<usize>,
}

pub open spec fn mensaje_tabla_vacia(filas: nat, columnas: nat) -> Seq<char> {
    "Estructura de tabla vacía: filas="@ + decimal(filas) + ", columnas="@ + decimal(columnas)
}

/// Los contadores de filas y de columnas de la fila en curso caben en `u32`
/// en cada prefijo de la secuencia.
pub open spec fn contadores_caben(tokens: Seq<usize>) -> bool {
    forall|k: int|
        0 <= k <= tokens.len() ==> {
            let r = #[trigger] recorrer(tokens.subrange(0, k));
            r.filas <= u32::MAX && r.cols <= u32::MAX
        }
}

/// Dice si la secuencia mantiene sus contadores dentro de `u32`, la
/// condición con que `parsear_estructura` puede recorrerla.
pub fn contadores_caben_en_u32(tokens: &[usize]) -> (r: bool)
    ensures r == contadores_caben(tokens@),
{
    let mut filas: u64 = 0;
    let mut cols: u64 = 0;
    let mut en_fila = false;
    let mut i: usize = 0;
    proof {
        assert(recorrer(tokens@.subrange(0, 0)) == Recorrido { filas: 0, max_cols: 0, cols: 0, en_fila: false });
    }
    while i < tokens.len()
        invariant
            i <= tokens@.len(),
            ({
                let r = recorrer(tokens@.subrange(0, i as int));
                &&& filas == r.filas
                &&& cols == r.cols
                &&& en_fila == r.en_fila
            }),
            forall|k: int|
                0 <= k <= i ==> {
                    let r = #[trigger] recorrer(tokens@.subrange(0, k));
                    r.filas <= u32::MAX && r.cols <= u32::MAX
                },
        decreases tokens@.len() - i,
    {
        let tok = tokens[i];
        let ghost previo = recorrer(tokens@.subrange(0, i as int));
        proof {
            let prefijo = tokens@.subrange(0, i as int + 1);
            assert(prefijo.drop_last() =~= tokens@.subrange(0, i as int));
            assert(prefijo.last() == tok);
            assert(previo.filas <= u32::MAX && previo.cols <= u32::MAX);
        }
        if tok == TOKEN_TR {
            en_fila = true;
            cols = 0;
            filas = filas + 1;
        } else if tok == TOKEN_TR_CLOSE {
            en_fila = false;
        } else if es_token_td(tok) {
            cols = cols + colspan_de_token(tok) as u64;
        }
        let ghost siguiente = recorrer(tokens@.subrange(0, i as int + 1));
        assert(filas == siguiente.filas && cols == siguiente.cols && en_fila == siguiente.en_fila);
        if filas > 0xffff_ffffu64 || cols > 0xffff_ffffu64 {
            return false;
        }
        i = i + 1;
    }
    true
}

/// Interpreta la secuencia de tokens de estructura decodificada.
///
/// Falla con `Onnx` si la secuencia es vacía o si describe una tabla sin
/// filas o sin columnas. Los contadores son `u32`: la secuencia no debe
/// llevarlos más allá de `u32::MAX`.
pub fn parsear_estructura(tokens: &[usize]) -> (r: Result<EstructuraTabla, InfraError>)
    requires
        contadores_caben(tokens@),
    ensures
        tokens@.len() == 0 ==> (r matches Err(InfraError::Onnx(m)) && m@ == "Secuencia de tokens vacía"@),
        tokens@.len() > 0 ==> ({
            let (f, c) = dimensiones_tabla(tokens@);
            &&& (r is Ok <==> (f > 0 && c > 0))
            &&& (r matches Err(e) ==> (e matches InfraError::Onnx(m) && m@ == mensaje_tabla_vacia(f, c)))
        }),
        r matches Ok(t) ==> (t.filas as nat, t.columnas as nat) == dimensiones_tabla(tokens@),
        r matches Ok(t) ==> grilla_vacia(t.celdas@, t.filas as nat, t.columnas as nat),
        r matches Ok(t) ==> t.posiciones_td@ == posiciones_td(tokens@),
        r matches Ok(t) ==> t.posiciones_con_contenido@ == posiciones_no_relleno(tokens@),
{
    if tokens.len() == 0 {
        return Err(InfraError::Onnx(String::from_str("Secuencia de tokens vacía")));
    }
    let mut filas: u32 = 0;
    let mut max_cols: u32 = 0;
    let mut cols: u32 = 0;
    let mut en_fila = false;
    let mut tds: Vec<usize> = Vec::new();
    let mut contenido: Vec<usize> = Vec::new();
    let mut i: usize = 0;
    while i < tokens.len()
        invariant
            contadores_caben(tokens@),
            i <= tokens@.len(),
            ({
                let r = recorrer(tokens@.subrange(0, i as int));
                &&& filas == r.filas
                &&& max_cols == r.max_cols
                &&& cols == r.cols
                &&& en_fila == r.en_fila
            }),
            tds@ == posiciones_td(tokens@.subrange(0, i as int)),
            contenido@ == posiciones_no_relleno(tokens@.subrange(0, i as int)),
        decreases tokens@.len() - i,
    {
        let tok = tokens[i];
        let ghost prefijo = tokens@.subrange(0, i as int + 1);
        proof {
            assert(prefijo.drop_last() =~= tokens@.subrange(0, i as int));
            assert(prefijo.last() == tok);
            let siguiente = recorrer(tokens@.subrange(0, i as int + 1));
            assert(siguiente.filas <= u32::MAX && siguiente.cols <= u32::MAX);
        }
        if tok == TOKEN_TR {
            if en_fila && cols > max_cols {
                max_cols = cols;
            }
            en_fila = true;
            cols = 0;
            filas = filas + 1;
        } else if tok == TOKEN_TR_CLOSE {
            if cols > max_cols {
                max_cols = cols;
            }
            en_fila = false;
        } else if es_token_td(tok) {
            cols = cols + colspan_de_token(tok);
        }
        if es_token_td(tok) {
            tds.push(i);
        }
        if tok != TOKEN_PAD {
            contenido.push(i);
        }
        i = i + 1;
    }
    proof {
        assert(tokens@.subrange(0, tokens@.len() as int) =~= tokens@);
    }
    if en_fila && cols > max_cols {
        max_cols = cols;
    }
    if filas == 0 || max_cols == 0 {
        let mut v: Vec<char> = Vec::new();
        agregar_str(&mut v, "Estructura de tabla vacía: filas=");
        agregar_decimal(&mut v, filas as u128);
        agregar_str(&mut v, ", columnas=");
        agregar_decimal(&mut v, max_cols as u128);
        assert(v@ =~= mensaje_tabla_vacia(filas as nat, max_cols as nat));
        return Err(InfraError::Onnx(cadena(&v)));
    }
    let celdas = celdas_vacias(filas, max_cols);
    Ok(EstructuraTabla { filas, columnas: max_cols, celdas, posiciones_td: tds, posiciones_con_contenido: contenido })
}

/// Pasos que conserva la decodificación voraz de la secuencia de
/// estructura: hasta el primer fin de secuencia inclusive, o todos si no lo
/// hay.
pub open spec fn pasos_conservados(s: Seq<usize>, r: nat) -> bool {
    &&& r <= s.len()
    &&& forall|j: int| 0 <= j < r - 1 ==> #[trigger] s[j] != TOKEN_EOS
    &&& r < s.len() ==> r >= 1 && s[r - 1] == TOKEN_EOS
}

pub fn pasos_hasta_eos(indices: &[usize]) -> (r: usize)
    ensures pasos_conservados(indices@, r as nat),
{
    let mut i: usize = 0;
    while i < indices.len()
        invariant
            i <= indices@.len(),
            forall|j: int| 0 <= j < i ==> #[trigger] indices@[j] != TOKEN_EOS,
        decreases indices.len() - i,
    {
        if indices[i] == TOKEN_EOS {
            return i + 1;
        }
        i = i + 1;
    }
    i
}

/// `c` es una grilla de `filas` × `columnas` celdas vacías.
pub open spec fn grilla_vacia(c: Seq<Vec<String>>, filas: nat, columnas: nat) -> bool {
    &&& c.len() == filas
    &&& forall|i: int| 0 <= i < filas ==> #[trigger] c[i]@.len() == columnas
    &&& forall|i: int, j: int| 0 <= i < filas && 0 <= j < columnas ==> (#[trigger] c[i]@[j])@ == Seq::<char>::empty()
}

/// Grilla de `filas` × `columnas` celdas vacías.
pub fn celdas_vacias(filas: u32, columnas: u32) -> (r: Vec<Vec<String>>)
    ensures
        grilla_vacia(r@, filas as nat, columnas as nat),
{
    let mut r: Vec<Vec<String>> = Vec::new();
    let mut i: u32 = 0;
    while i < filas
        invariant
            i <= filas,
            r@.len() == i,
            forall|k: int| 0 <= k < i ==> #[trigger] r@[k]@.len() == columnas,
            forall|k: int, j: int| 0 <= k < i && 0 <= j < columnas ==> (#[trigger] r@[k]@[j])@ == Seq::<char>::empty(),
        decreases filas - i,
    {
        let mut fila: Vec<String> = Vec::new();
        let mut j: u32 = 0;
        while j < columnas
            invariant
                j <= columnas,
                fila@.len() == j,
                forall|k: int| 0 <= k < j ==> #[trigger] fila@[k]@ == Seq::<char>::empty(),
            decreases columnas - j,
        {
            fila.push(String::new());
            j = j + 1;
        }
        r.push(fila);
        i = i + 1;
    }
    r
}

} // verus!
