use vstd::prelude::*;

use crate::texto::{agregar_str, cadena, caracteres};
use crate::traits::model_provider::ModelEntry;

verus! {

/// `a` precede estrictamente a `b` en orden lexicográfico por punto de código
/// (el orden de `String`: un prefijo propio va antes).
pub open spec fn lex_menor(a: Seq<char>, b: Seq<char>) -> bool
    decreases a.len(),
{
    if a.len() == 0 {
        b.len() > 0
    } else if b.len() == 0 {
        false
    } else if a[0] < b[0] {
        true
    } else if a[0] == b[0] {
        lex_menor(a.drop_first(), b.drop_first())
    } else {
        false
    }
}

proof fn lema_lex_irreflexivo(a: Seq<char>)
    ensures !lex_menor(a, a),
    decreases a.len(),
{
    if a.len() > 0 {
        lema_lex_irreflexivo(a.drop_first());
    }
}

proof fn lema_lex_transitivo(a: Seq<char>, b: Seq<char>, c: Seq<char>)
    requires lex_menor(a, b), lex_menor(b, c),
    ensures lex_menor(a, c),
    decreases a.len(),
{
    if a.len() > 0 && b.len() > 0 && c.len() > 0 && a[0] == b[0] && b[0] == c[0] {
        lema_lex_transitivo(a.drop_first(), b.drop_first(), c.drop_first());
    }
}

proof fn lema_lex_total(a: Seq<char>, b: Seq<char>)
    ensures lex_menor(a, b) || lex_menor(b, a) || a == b,
    decreases a.len(),
{
    if a.len() > 0 && b.len() > 0 && a[0] == b[0] {
        lema_lex_total(a.drop_first(), b.drop_first());
        if a.drop_first() == b.drop_first() {
            assert(a =~= seq![a[0]] + a.drop_first());
            assert(b =~= seq![b[0]] + b.drop_first());
        }
    } else if a.len() == 0 && b.len() == 0 {
        assert(a =~= b);
    }
}

/// Entradas ordenadas por identificador, de menor a mayor.
pub open spec fn ordenadas_por_id(s: Seq<ModelEntry>) -> bool {
    forall|i: int, j: int| 0 <= i < j < s.len() ==> !lex_menor(#[trigger] s[j].id@, #[trigger] s[i].id@)
}

fn precede(a: &String, b: &String) -> (r: bool)
    ensures r == lex_menor(a@, b@),
{
    let x = caracteres(a.as_str());
    let y = caracteres(b.as_str());
    let mut i: usize = 0;
    assert(x@.subrange(0, x@.len() as int) =~= x@);
    assert(y@.subrange(0, y@.len() as int) =~= y@);
    while i < x.len() && i < y.len()
        invariant
            x@ == a@,
            y@ == b@,
            i <= x@.len(),
            i <= y@.len(),
            x@.subrange(0, i as int) == y@.subrange(0, i as int),
            lex_menor(a@, b@) == lex_menor(x@.subrange(i as int, x@.len() as int), y@.subrange(i as int, y@.len() as int)),
        decreases x@.len() - i,
    {
        let cx = x[i];
        let cy = y[i];
        let ghost rx = x@.subrange(i as int, x@.len() as int);
        let ghost ry = y@.subrange(i as int, y@.len() as int);
        assert(rx[0] == cx && ry[0] == cy);
        if cx < cy {
            return true;
        }
        if cx != cy {
            return false;
        }
        assert(rx.drop_first() =~= x@.subrange(i + 1, x@.len() as int));
        assert(ry.drop_first() =~= y@.subrange(i + 1, y@.len() as int));
        assert(x@.subrange(0, i + 1) =~= x@.subrange(0, i as int).push(cx));
        assert(y@.subrange(0, i + 1) =~= y@.subrange(0, i as int).push(cy));
        i = i + 1;
    }
    i == x.len() && i < y.len()
}

/// Prefijo que el manifiesto usa para las rutas relativas al directorio de
/// modelos.
pub open spec fn prefijo_modelos() -> Seq<char> {
    seq!['m', 'o', 'd', 'e', 'l', 's', '/']
}

/// Ruta relativa al directorio de modelos: sin el prefijo `models/` si lo tiene.
pub open spec fn relativa_a_modelos(p: Seq<char>) -> Seq<char> {
    if p.len() >= 7 && p.subrange(0, 7) == prefijo_modelos() {
        p.subrange(7, p.len() as int)
    } else {
        p
    }
}

/// Unión de rutas al estilo de `Path::join` en Unix: una ruta absoluta
/// reemplaza a la base; si no, se agrega un separador cuando la base no
/// termina en uno.
pub open spec fn unir_ruta(base: Seq<char>, rel: Seq<char>) -> Seq<char> {
    if rel.len() > 0 && rel[0] == '/' {
        rel
    } else if base.len() == 0 || base.last() == '/' {
        base + rel
    } else {
        base + "/"@ + rel
    }
}

/// Ruta local de un modelo resuelta contra el directorio de modelos del host.
pub open spec fn ruta_resuelta(path_local: Seq<char>, models_dir: Seq<char>) -> Seq<char> {
    unir_ruta(models_dir, relativa_a_modelos(path_local))
}

/// Cargador del manifiesto de modelos.
pub struct ModelManifest;

impl ModelManifest {
    /// Resuelve una ruta del manifiesto (`models/...`) contra el directorio de
    /// modelos elegido por el host.
    pub fn ruta_local(path_local: &str, models_dir: &str) -> (r: String)
        ensures r@ == ruta_resuelta(path_local@, models_dir@),
    {
        let p = caracteres(path_local);
        let coincide = p.len() >= 7 && p[0] == 'm' && p[1] == 'o' && p[2] == 'd' && p[3] == 'e'
            && p[4] == 'l' && p[5] == 's' && p[6] == '/';
        proof {
            if p@.len() >= 7 && p@.subrange(0, 7) == prefijo_modelos() {
                assert(p@[0] == p@.subrange(0, 7)[0]);
                assert(p@[1] == p@.subrange(0, 7)[1]);
                assert(p@[2] == p@.subrange(0, 7)[2]);
                assert(p@[3] == p@.subrange(0, 7)[3]);
                assert(p@[4] == p@.subrange(0, 7)[4]);
                assert(p@[5] == p@.subrange(0, 7)[5]);
                assert(p@[6] == p@.subrange(0, 7)[6]);
            }
        }
        let mut rel: Vec<char> = Vec::new();
        let inicio: usize = if coincide { 7 } else { 0 };
        proof {
            if coincide {
                assert(p@.subrange(0, 7) =~= prefijo_modelos());
            }
        }
        let mut i = inicio;
        while i < p.len()
            invariant
                inicio <= i <= p@.len(),
                rel@ == p@.subrange(inicio as int, i as int),
            decreases p@.len() - i,
        {
            rel.push(p[i]);
            assert(p@.subrange(inicio as int, i + 1) =~= p@.subrange(inicio as int, i as int).push(p@[i as int]));
            i = i + 1;
        }
        assert(rel@ == relativa_a_modelos(path_local@));
        let base = caracteres(models_dir);
        let mut v: Vec<char> = Vec::new();
        if rel.len() > 0 && rel[0] == '/' {
            let mut j: usize = 0;
            while j < rel.len()
                invariant
                    j <= rel@.len(),
                    v@ == rel@.subrange(0, j as int),
                decreases rel@.len() - j,
            {
                v.push(rel[j]);
                assert(rel@.subrange(0, j + 1) =~= rel@.subrange(0, j as int).push(rel@[j as int]));
                j = j + 1;
            }
            assert(rel@.subrange(0, rel@.len() as int) =~= rel@);
        } else {
            agregar_str(&mut v, models_dir);
            if !(base.len() == 0 || base[base.len() - 1] == '/') {
                agregar_str(&mut v, "/");
            }
            let mut j: usize = 0;
            let ghost antes = v@;
            while j < rel.len()
                invariant
                    j <= rel@.len(),
                    v@ == antes + rel@.subrange(0, j as int),
                decreases rel@.len() - j,
            {
                v.push(rel[j]);
                assert(rel@.subrange(0, j + 1) =~= rel@.subrange(0, j as int).push(rel@[j as int]));
                j = j + 1;
            }
            assert(rel@.subrange(0, rel@.len() as int) =~= rel@);
        }
        assert(v@ =~= ruta_resuelta(path_local@, models_dir@));
        cadena(&v)
    }

    /// Resuelve la ruta local de cada entrada contra el directorio de modelos.
    pub fn cargar_con_base_dir(entries: Vec<ModelEntry>, models_dir: &str) -> (r: Vec<ModelEntry>)
        ensures
            r@.len() == entries@.len(),
            forall|i: int| 0 <= i < r@.len() ==> {
                let (a, b) = (#[trigger] r@[i], entries@[i]);
                &&& a.path_local@ == ruta_resuelta(b.path_local@, models_dir@)
                &&& a.id == b.id && a.nombre == b.nombre && a.repo == b.repo
                &&& a.path_repo == b.path_repo && a.sha256 == b.sha256 && a.size_mb == b.size_mb
            },
    {
        let mut r: Vec<ModelEntry> = Vec::new();
        let mut i: usize = 0;
        while i < entries.len()
            invariant
                i <= entries@.len(),
                r@.len() == i,
                forall|k: int| 0 <= k < i ==> {
                    let (a, b) = (#[trigger] r@[k], entries@[k]);
                    &&& a.path_local@ == ruta_resuelta(b.path_local@, models_dir@)
                    &&& a.id == b.id && a.nombre == b.nombre && a.repo == b.repo
                    &&& a.path_repo == b.path_repo && a.sha256 == b.sha256 && a.size_mb == b.size_mb
                },
            decreases entries@.len() - i,
        {
            let e = &entries[i];
            let nueva = ModelEntry {
                id: e.id.clone(),
                nombre: e.nombre.clone(),
                repo: e.repo.clone(),
                path_repo: e.path_repo.clone(),
                path_local: Self::ruta_local(e.path_local.as_str(), models_dir),
                sha256: e.sha256.clone(),
                size_mb: e.size_mb,
            };
            r.push(nueva);
            i = i + 1;
        }
        r
    }

    /// Ordena las entradas del manifiesto por identificador.
    pub fn ordenar_por_id(entries: Vec<ModelEntry>) -> (r: Vec<ModelEntry>)
        ensures
            ordenadas_por_id(r@),
            r@.to_multiset() == entries@.to_multiset(),
    {
        broadcast use vstd::seq_lib::group_to_multiset_ensures, vstd::multiset::group_multiset_axioms;
        let mut pendientes = entries;
        let mut r: Vec<ModelEntry> = Vec::new();
        assert(r@.to_multiset() =~= vstd::multiset::Multiset::empty());
        assert(pendientes@.to_multiset().add(r@.to_multiset()) =~= entries@.to_multiset());
        while pendientes.len() > 0
            invariant
                ordenadas_por_id(r@),
                pendientes@.to_multiset().add(r@.to_multiset()) == entries@.to_multiset(),
            decreases pendientes@.len(),
        {
            let ghost antes_p = pendientes@;
            let ghost antes_r = r@;
            let e = pendientes.pop().unwrap();
            assert(antes_p == pendientes@.push(e));
            let mut k: usize = 0;
            loop
                invariant
                    r@ == antes_r,
                    k <= r@.len(),
                    forall|i: int| 0 <= i < k ==> !lex_menor(e.id@, #[trigger] r@[i].id@),
                ensures
                    k <= r@.len(),
                    k < r@.len() ==> lex_menor(e.id@, r@[k as int].id@),
                    forall|i: int| 0 <= i < k ==> !lex_menor(e.id@, #[trigger] r@[i].id@),
                decreases r@.len() - k,
            {
                if k >= r.len() {
                    break;
                }
                if precede(&e.id, &r[k].id) {
                    break;
                }
                k = k + 1;
            }
            proof {
                let s = r@.insert(k as int, e);
                r@.insert_ensures(k as int, e);
                assert forall|i: int, j: int| 0 <= i < j < s.len() implies
                    !lex_menor(#[trigger] s[j].id@, #[trigger] s[i].id@) by {
                    if j == k {
                        assert(s[i] == r@[i]);
                    } else if i == k {
                        assert(s[j] == r@[j - 1]);
                        if lex_menor(r@[j - 1].id@, e.id@) {
                            lema_lex_transitivo(r@[j - 1].id@, e.id@, r@[k as int].id@);
                            if j - 1 == k {
                                lema_lex_irreflexivo(r@[k as int].id@);
                            }
                        }
                    } else if j < k {
                        assert(s[i] == r@[i] && s[j] == r@[j]);
                    } else if i < k {
                        assert(s[i] == r@[i] && s[j] == r@[j - 1]);
                    } else {
                        assert(s[i] == r@[i - 1] && s[j] == r@[j - 1]);
                    }
                }
            }
            r.insert(k, e);
            proof {
                vstd::seq_lib::to_multiset_insert(antes_r, k as int, e);
                vstd::seq_lib::to_multiset_build(pendientes@, e);
                assert(antes_p.to_multiset() =~= pendientes@.to_multiset().insert(e));
                assert(r@.to_multiset() =~= antes_r.to_multiset().insert(e));
                assert(pendientes@.to_multiset().add(r@.to_multiset()) =~= antes_p.to_multiset().add(antes_r.to_multiset()));
            }
        }
        assert(pendientes@ =~= Seq::<ModelEntry>::empty());
        assert(pendientes@.to_multiset() =~= vstd::multiset::Multiset::empty());
        assert(r@.to_multiset() =~= entries@.to_multiset());
        r
    }
}

} // verus!
