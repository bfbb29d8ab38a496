use vstd::prelude::*;
use vstd::std_specs::iter::IteratorSpec;

verus! {

/// Cifra decimal (`'0'..='9'`) de un valor entre 0 y 9.
pub open spec fn digito(d: nat) -> char {
    if d == 0 { '0' }
    else if d == 1 { '1' }
    else if d == 2 { '2' }
    else if d == 3 { '3' }
    else if d == 4 { '4' }
    else if d == 5 { '5' }
    else if d == 6 { '6' }
    else if d == 7 { '7' }
    else if d == 8 { '8' }
    else { '9' }
}

/// Representación decimal sin ceros a la izquierda de un natural.
pub open spec fn decimal(n: nat) -> Seq<char>
    decreases n,
{
    if n < 10 {
        seq![digito(n)]
    } else {
        decimal(n / 10).push(digito(n % 10))
    }
}

/// Carácter que es una cifra decimal.
pub open spec fn es_cifra(c: char) -> bool {
    '0' <= c && c <= '9'
}

/// La representación decimal no es vacía, solo tiene cifras, y dos
/// naturales distintos tienen representaciones distintas.
pub proof fn ley_decimal(n: nat, m: nat)
    ensures
        decimal(n).len() >= 1,
        forall|i: int| 0 <= i < decimal(n).len() ==> es_cifra(#[trigger] decimal(n)[i]),
        decimal(n) == decimal(m) ==> n == m,
    decreases n + m,
{
    if n >= 10 {
        ley_decimal(n / 10, 0);
    }
    if n >= 10 && m >= 10 {
        ley_decimal(n / 10, m / 10);
        if decimal(n) == decimal(m) {
            assert(decimal(n).last() == digito(n % 10));
            assert(decimal(m).last() == digito(m % 10));
            assert(decimal(n).drop_last() =~= decimal(n / 10));
            assert(decimal(m).drop_last() =~= decimal(m / 10));
            assert(n % 10 == m % 10);
            assert(n / 10 == m / 10);
            assert(n == (n / 10) * 10 + n % 10);
            assert(m == (m / 10) * 10 + m % 10);
        }
    } else if n >= 10 && m < 10 {
        ley_decimal(n / 10, 0);
        assert(decimal(n).len() >= 2);
    } else if n < 10 && m >= 10 {
        ley_decimal(m / 10, 0);
        assert(decimal(m).len() >= 2);
    } else {
        if decimal(n) == decimal(m) {
            assert(decimal(n)[0] == digito(n));
            assert(decimal(m)[0] == digito(m));
        }
    }
}

fn cifra(d: u128) -> (c: char)
    requires d < 10,
    ensures c == digito(d as nat),
{
    if d == 0 { '0' }
    else if d == 1 { '1' }
    else if d == 2 { '2' }
    else if d == 3 { '3' }
    else if d == 4 { '4' }
    else if d == 5 { '5' }
    else if d == 6 { '6' }
    else if d == 7 { '7' }
    else if d == 8 { '8' }
    else { '9' }
}

/// Agrega al final de `v` los caracteres de la representación decimal de `n`.
pub fn agregar_decimal(v: &mut Vec<char>, n: u128)
    ensures final(v)@ == old(v)@ + decimal(n as nat),
    decreases n,
{
    if n < 10 {
        v.push(cifra(n));
        assert(decimal(n as nat) == seq![digito(n as nat)]);
    } else {
        agregar_decimal(v, n / 10);
        v.push(cifra(n % 10));
        assert(decimal(n as nat) == decimal((n / 10) as nat).push(digito((n % 10) as nat)));
    }
}

/// Agrega al final de `v` los caracteres de `s`.
pub fn agregar_str(v: &mut Vec<char>, s: &str)
    ensures final(v)@ == old(v)@ + s@,
{
    broadcast use vstd::string::group_string_axioms;
    let ghost inicial = v@;
    let mut it = s.chars();
    assert(it.remaining() == s@);
    loop
        invariant
            inicial + s@ == v@ + it.remaining(),
            it.obeys_prophetic_iter_laws(),
            it.decrease() is Some,
        ensures
            v@ == inicial + s@,
        decreases it.decrease()->0,
    {
        let ghost antes = it.remaining();
        match it.next() {
            Some(c) => {
                v.push(c);
                assert(antes == seq![c] + it.remaining());
                assert(inicial + s@ =~= v@ + it.remaining());
            },
            None => {
                assert(v@ =~= inicial + s@);
                break;
            },
        }
    }
}

/// Caracteres de `s`, en orden.
pub fn caracteres(s: &str) -> (r: Vec<char>)
    ensures r@ == s@,
{
    let mut v: Vec<char> = Vec::new();
    agregar_str(&mut v, s);
    assert(v@ == Seq::<char>::empty() + s@);
    v
}

/// Construye una `String` a partir de sus caracteres (std: `FromIterator<char>`).
#[verifier::external_body]
pub(crate) fn cadena(v: &Vec<char>) -> (r: String)
    ensures r@ == v@,
{
    v.iter().collect()
}

/// Cociente `num / den` redondeado al entero más cercano, con los empates
/// hacia el par (la regla con que se formatean números con decimales fijos).
pub open spec fn cociente_redondeado(num: nat, den: nat) -> nat
    recommends den > 0,
{
    let q = num / den;
    let r = num % den;
    if 2 * r > den || (2 * r == den && q % 2 == 1) {
        q + 1
    } else {
        q
    }
}

pub fn redondear_cociente(num: u128, den: u128) -> (r: u128)
    requires
        den > 0,
        num < u128::MAX,
    ensures
        r == cociente_redondeado(num as nat, den as nat),
{
    let q: u128 = num / den;
    let resto: u128 = num % den;
    assert(q <= num) by (nonlinear_arith)
        requires den >= 1, q == num / den;
    if resto > den - resto || (resto == den - resto && q % 2 == 1) {
        q + 1
    } else {
        q
    }
}

/// Valor en millonésimas escrito con dos decimales (`0.90`), redondeando la
/// última cifra con empates al par.
pub open spec fn dos_decimales(millonesimas: nat) -> Seq<char> {
    let centesimas = cociente_redondeado(millonesimas, 10000);
    decimal(centesimas / 100) + "."@ + seq![digito((centesimas % 100) / 10), digito(centesimas % 10)]
}

pub fn agregar_dos_decimales(v: &mut Vec<char>, millonesimas: u32)
    ensures final(v)@ == old(v)@ + dos_decimales(millonesimas as nat),
{
    let c = redondear_cociente(millonesimas as u128, 10000);
    assert(c <= 429497) by (nonlinear_arith)
        requires c == cociente_redondeado(millonesimas as nat, 10000), millonesimas <= u32::MAX;
    agregar_decimal(v, c / 100);
    agregar_str(v, ".");
    v.push(cifra((c % 100) / 10));
    v.push(cifra(c % 10));
    proof { reveal_strlit("."); }
    assert(final(v)@ =~= old(v)@ + dos_decimales(millonesimas as nat));
}

/// Representación decimal de un entero con signo (`-` delante si es negativo).
pub open spec fn entero(i: int) -> Seq<char> {
    if i < 0 {
        "-"@ + decimal((-i) as nat)
    } else {
        decimal(i as nat)
    }
}

pub fn agregar_entero(v: &mut Vec<char>, i: i64)
    ensures final(v)@ == old(v)@ + entero(i as int),
{
    if i < 0 {
        agregar_str(v, "-");
        let magnitud: u128 = (0i128 - (i as i128)) as u128;
        agregar_decimal(v, magnitud);
        proof { reveal_strlit("-"); }
        assert(final(v)@ =~= old(v)@ + entero(i as int));
    } else {
        agregar_decimal(v, i as u128);
    }
}

/// Igualdad de dos textos carácter a carácter.
pub fn iguales(a: &str, b: &str) -> (r: bool)
    ensures r == (a@ == b@),
{
    let x = caracteres(a);
    let y = caracteres(b);
    if x.len() != y.len() {
        return false;
    }
    let mut i: usize = 0;
    while i < x.len()
        invariant
            x@ == a@,
            y@ == b@,
            x@.len() == y@.len(),
            i <= x@.len(),
            forall|k: int| 0 <= k < i ==> x@[k] == y@[k],
        decreases x@.len() - i,
    {
        if x[i] != y[i] {
            return false;
        }
        i = i + 1;
    }
    assert(x@ =~= y@);
    true
}

} // verus!
