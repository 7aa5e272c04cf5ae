//! Texto como secuencia de caracteres: recorte, búsquedas y conversiones.
//!
//! Todo lo que el dominio compara o valida de una cadena se expresa aquí sobre
//! su vista, una `Seq<char>`.

use vstd::prelude::*;

verus! {

// ─────────────────────────────────────────────────────────────────────────
// Espacios y recorte
// ─────────────────────────────────────────────────────────────────────────

/// La propiedad `White_Space` de Unicode, que es la que usa `char::is_whitespace`.
pub open spec fn es_espacio_spec(c: char) -> bool {
    ||| ('\u{9}' <= c && c <= '\u{d}')
    ||| c == ' '
    ||| c == '\u{85}'
    ||| c == '\u{a0}'
    ||| c == '\u{1680}'
    ||| ('\u{2000}' <= c && c <= '\u{200a}')
    ||| c == '\u{2028}'
    ||| c == '\u{2029}'
    ||| c == '\u{202f}'
    ||| c == '\u{205f}'
    ||| c == '\u{3000}'
}

/// ¿Es un carácter de espacio en blanco?
pub fn es_espacio(c: char) -> (r: bool)
    ensures
        r == es_espacio_spec(c),
{
    ('\u{9}' <= c && c <= '\u{d}') || c == ' ' || c == '\u{85}' || c == '\u{a0}' || c == '\u{1680}'
        || ('\u{2000}' <= c && c <= '\u{200a}') || c == '\u{2028}' || c == '\u{2029}' || c
        == '\u{202f}' || c == '\u{205f}' || c == '\u{3000}'
}

/// Primera posición desde `i` que no es un espacio (o el final).
pub open spec fn saltar_espacios(s: Seq<char>, i: int) -> int
    decreases s.len() - i,
{
    if 0 <= i < s.len() && es_espacio_spec(s[i]) {
        saltar_espacios(s, i + 1)
    } else {
        i
    }
}

/// Hacia atrás desde `j`, sin bajar de `lo`: la posición tras el último
/// carácter que no es un espacio.
pub open spec fn retroceder_espacios(s: Seq<char>, lo: int, j: int) -> int
    decreases j - lo,
{
    if lo < j && j <= s.len() && es_espacio_spec(s[j - 1]) {
        retroceder_espacios(s, lo, j - 1)
    } else {
        j
    }
}

/// El texto sin los espacios del principio ni del final (lo que hace `str::trim`).
pub open spec fn recortado(s: Seq<char>) -> Seq<char> {
    let i = saltar_espacios(s, 0);
    s.subrange(i, retroceder_espacios(s, i, s.len() as int))
}

pub proof fn lema_saltar_espacios(s: Seq<char>, i: int)
    requires
        0 <= i <= s.len(),
    ensures
        i <= saltar_espacios(s, i) <= s.len(),
        forall|k: int| i <= k < saltar_espacios(s, i) ==> es_espacio_spec(#[trigger] s[k]),
        saltar_espacios(s, i) < s.len() ==> !es_espacio_spec(s[saltar_espacios(s, i)]),
    decreases s.len() - i,
{
    if i < s.len() && es_espacio_spec(s[i]) {
        lema_saltar_espacios(s, i + 1);
    }
}

pub proof fn lema_retroceder_espacios(s: Seq<char>, lo: int, j: int)
    requires
        0 <= lo <= j <= s.len(),
    ensures
        lo <= retroceder_espacios(s, lo, j) <= j,
        forall|k: int| retroceder_espacios(s, lo, j) <= k < j ==> es_espacio_spec(#[trigger] s[k]),
        lo < retroceder_espacios(s, lo, j) ==> !es_espacio_spec(s[retroceder_espacios(s, lo, j) - 1]),
    decreases j - lo,
{
    if lo < j && es_espacio_spec(s[j - 1]) {
        lema_retroceder_espacios(s, lo, j - 1);
    }
}

/// Lo recortado es un trozo del original, sin espacios en los bordes.
pub proof fn lema_recortado(s: Seq<char>)
    ensures
        ({
            let i = saltar_espacios(s, 0);
            let j = retroceder_espacios(s, i, s.len() as int);
            &&& 0 <= i <= j <= s.len()
            &&& recortado(s) == s.subrange(i, j)
            &&& forall|k: int| 0 <= k < i ==> es_espacio_spec(#[trigger] s[k])
            &&& forall|k: int| j <= k < s.len() ==> es_espacio_spec(#[trigger] s[k])
        }),
        recortado(s).len() > 0 ==> !es_espacio_spec(recortado(s)[0]) && !es_espacio_spec(
            recortado(s)[recortado(s).len() - 1],
        ),
        recortado(s).len() <= s.len(),
{
    lema_saltar_espacios(s, 0);
    let i = saltar_espacios(s, 0);
    lema_retroceder_espacios(s, i, s.len() as int);
}

/// Un texto sin espacios en los bordes queda igual al recortarlo.
pub proof fn lema_sin_espacios_en_los_bordes(s: Seq<char>)
    requires
        s.len() > 0 ==> !es_espacio_spec(s[0]) && !es_espacio_spec(s[s.len() - 1]),
    ensures
        recortado(s) == s,
{
    lema_saltar_espacios(s, 0);
    if s.len() > 0 {
        lema_retroceder_espacios(s, 0, s.len() as int);
        assert(s.subrange(0, s.len() as int) =~= s);
    } else {
        assert(s =~= seq![]);
    }
}

/// Un trozo de un vector de caracteres.
pub fn trozo(v: &Vec<char>, i: usize, j: usize) -> (r: Vec<char>)
    requires
        i <= j <= v.len(),
    ensures
        r@ == v@.subrange(i as int, j as int),
{
    let mut r: Vec<char> = Vec::new();
    let mut k = i;
    while k < j
        invariant
            i <= k <= j <= v.len(),
            r@ == v@.subrange(i as int, k as int),
        decreases j - k,
    {
        r.push(v[k]);
        k = k + 1;
    }
    r
}

/// Recorta los espacios del principio y del final.
pub fn recortar(v: &Vec<char>) -> (r: Vec<char>)
    ensures
        r@ == recortado(v@),
{
    let n = v.len();
    let mut i: usize = 0;
    while i < n && es_espacio(v[i])
        invariant
            0 <= i <= n == v.len(),
            saltar_espacios(v@, i as int) == saltar_espacios(v@, 0),
        decreases n - i,
    {
        i = i + 1;
    }
    let mut j: usize = n;
    while j > i && es_espacio(v[j - 1])
        invariant
            i <= j <= n == v.len(),
            saltar_espacios(v@, 0) == i,
            retroceder_espacios(v@, i as int, j as int) == retroceder_espacios(v@, i as int, n as int),
        decreases j,
    {
        j = j - 1;
    }
    trozo(v, i, j)
}

/// Los caracteres de un texto, ya recortados.
pub fn recortar_texto(s: &str) -> (r: Vec<char>)
    ensures
        r@ == recortado(s@),
{
    recortar(&caracteres(s))
}

// ─────────────────────────────────────────────────────────────────────────
// Conversiones
// ─────────────────────────────────────────────────────────────────────────

/// Los caracteres de un texto, en un vector.
pub fn caracteres(s: &str) -> (v: Vec<char>)
    ensures
        v@ == s@,
{
    let mut v: Vec<char> = Vec::new();
    for c in it: s.chars()
        invariant
            v@ == it.seq().take(it.index() as int),
    {
        v.push(c);
    }
    v
}

/// `String::push`: añade un carácter al final.
#[verifier::external_body]
pub(crate) fn agregar_caracter(s: &mut String, c: char)
    ensures
        final(s)@ == old(s)@.push(c),
{
    s.push(c);
}

/// Un `String` con esos caracteres.
pub fn a_texto(v: &[char]) -> (s: String)
    ensures
        s@ == v@,
{
    let mut s = String::new();
    let mut k: usize = 0;
    while k < v.len()
        invariant
            k <= v.len(),
            s@ == v@.subrange(0, k as int),
        decreases v.len() - k,
    {
        agregar_caracter(&mut s, v[k]);
        k = k + 1;
    }
    s
}

/// Copia de un texto.
pub fn copiar(s: &str) -> (r: String)
    ensures
        r@ == s@,
{
    s.to_owned()
}

/// Lo que devuelve `str::to_lowercase`: la correspondencia de minúsculas de
/// Unicode aplicada a cada carácter.
pub uninterp spec fn minusculas(s: Seq<char>) -> Seq<char>;

/// Lo que devuelve `str::to_uppercase`.
pub uninterp spec fn mayusculas(s: Seq<char>) -> Seq<char>;

/// Lo que devuelve `char::is_alphanumeric`: propiedad `Alphabetic` o `Numeric`
/// de Unicode.
pub uninterp spec fn alfanumerico(c: char) -> bool;

/// `str::to_lowercase`. El resultado es función del texto y de nada más.
#[verifier::external_body]
pub(crate) fn a_minusculas(s: &str) -> (r: String)
    ensures
        r@ == minusculas(s@),
{
    s.to_lowercase()
}

/// `str::to_uppercase`. El resultado es función del texto y de nada más.
#[verifier::external_body]
pub(crate) fn a_mayusculas(s: &str) -> (r: String)
    ensures
        r@ == mayusculas(s@),
{
    s.to_uppercase()
}

/// `char::is_alphanumeric`.
#[verifier::external_body]
pub(crate) fn es_alfanumerico(c: char) -> (r: bool)
    ensures
        r == alfanumerico(c),
{
    c.is_alphanumeric()
}

// ─────────────────────────────────────────────────────────────────────────
// Búsquedas y comparaciones
// ─────────────────────────────────────────────────────────────────────────

/// ¿Hay algún espacio en el texto?
pub open spec fn hay_espacio(s: Seq<char>) -> bool {
    exists|k: int| 0 <= k < s.len() && es_espacio_spec(#[trigger] s[k])
}

pub fn tiene_espacio(v: &[char]) -> (r: bool)
    ensures
        r == hay_espacio(v@),
{
    let mut k: usize = 0;
    while k < v.len()
        invariant
            k <= v.len(),
            forall|m: int| 0 <= m < k ==> !es_espacio_spec(#[trigger] v@[m]),
        decreases v.len() - k,
    {
        if es_espacio(v[k]) {
            return true;
        }
        k = k + 1;
    }
    false
}

pub fn contiene(v: &[char], c: char) -> (r: bool)
    ensures
        r == v@.contains(c),
{
    let mut k: usize = 0;
    while k < v.len()
        invariant
            k <= v.len(),
            forall|m: int| 0 <= m < k ==> #[trigger] v@[m] != c,
        decreases v.len() - k,
    {
        if v[k] == c {
            assert(v@[k as int] == c);
            return true;
        }
        k = k + 1;
    }
    false
}

/// Posición de la primera aparición de `c`, si la hay.
pub open spec fn primera_posicion(s: Seq<char>, c: char) -> Option<int> {
    if s.contains(c) {
        Some(choose|k: int| 0 <= k < s.len() && s[k] == c && forall|m: int| 0 <= m < k ==> s[m] != c)
    } else {
        None
    }
}

pub fn buscar(v: &[char], c: char) -> (r: Option<usize>)
    ensures
        match r {
            Some(k) => k < v.len() && v@[k as int] == c && forall|m: int| 0 <= m < k ==> v@[m] != c,
            None => !v@.contains(c),
        },
        r matches Some(k) ==> primera_posicion(v@, c) == Some(k as int),
        r is None ==> primera_posicion(v@, c) is None,
{
    let mut k: usize = 0;
    while k < v.len()
        invariant
            k <= v.len(),
            forall|m: int| 0 <= m < k ==> #[trigger] v@[m] != c,
        decreases v.len() - k,
    {
        if v[k] == c {
            proof {
                let w = choose|j: int|
                    0 <= j < v@.len() && v@[j] == c && forall|m: int| 0 <= m < j ==> v@[m] != c;
                assert(0 <= k < v@.len() && v@[k as int] == c && forall|m: int|
                    0 <= m < k ==> v@[m] != c);
                if w < k {
                } else if w > k {
                    assert(v@[k as int] != c);
                }
            }
            return Some(k);
        }
        k = k + 1;
    }
    None
}

pub fn iguales(a: &[char], b: &[char]) -> (r: bool)
    ensures
        r == (a@ == b@),
{
    if a.len() != b.len() {
        return false;
    }
    let mut k: usize = 0;
    while k < a.len()
        invariant
            k <= a.len() == b.len(),
            forall|m: int| 0 <= m < k ==> a@[m] == b@[m],
        decreases a.len() - k,
    {
        if a[k] != b[k] {
            return false;
        }
        k = k + 1;
    }
    assert(a@ =~= b@);
    true
}

pub fn empieza_con(v: &[char], p: &[char]) -> (r: bool)
    ensures
        r == p@.is_prefix_of(v@),
{
    if p.len() > v.len() {
        return false;
    }
    let mut k: usize = 0;
    while k < p.len()
        invariant
            k <= p.len() <= v.len(),
            forall|m: int| 0 <= m < k ==> p@[m] == v@[m],
        decreases p.len() - k,
    {
        if p[k] != v[k] {
            assert(p@[k as int] != v@.subrange(0, p@.len() as int)[k as int]);
            return false;
        }
        k = k + 1;
    }
    assert(p@ =~= v@.subrange(0, p@.len() as int));
    true
}

/// Compara un texto con una cadena.
pub fn es_igual_a(v: &[char], s: &str) -> (r: bool)
    ensures
        r == (v@ == s@),
{
    let w = caracteres(s);
    iguales(v, w.as_slice())
}


/// Dos textos con los mismos caracteres.
pub fn texto_igual(a: &str, b: &str) -> (r: bool)
    ensures
        r == (a@ == b@),
{
    let va = caracteres(a);
    let vb = caracteres(b);
    iguales(va.as_slice(), vb.as_slice())
}

/// La concatenación de dos trozos.
pub fn unir(a: &[char], b: &[char]) -> (r: Vec<char>)
    ensures
        r@ == a@ + b@,
{
    let mut r: Vec<char> = Vec::new();
    let mut k: usize = 0;
    while k < a.len()
        invariant
            k <= a.len(),
            r@ == a@.subrange(0, k as int),
        decreases a.len() - k,
    {
        r.push(a[k]);
        k = k + 1;
    }
    let mut m: usize = 0;
    while m < b.len()
        invariant
            m <= b.len(),
            r@ == a@ + b@.subrange(0, m as int),
        decreases b.len() - m,
    {
        r.push(b[m]);
        m = m + 1;
    }
    assert(a@ =~= a@.subrange(0, a@.len() as int));
    assert(b@ =~= b@.subrange(0, b@.len() as int));
    r
}

/// Dos textos seguidos.
pub fn juntar(a: &str, b: &str) -> (r: String)
    ensures
        r@ == a@ + b@,
{
    let va = caracteres(a);
    let vb = caracteres(b);
    a_texto(unir(va.as_slice(), vb.as_slice()).as_slice())
}

/// Añade un trozo al final de un vector.
pub fn extender(v: &mut Vec<char>, b: &[char])
    ensures
        final(v)@ == old(v)@ + b@,
{
    let mut m: usize = 0;
    while m < b.len()
        invariant
            m <= b.len(),
            v@ == old(v)@ + b@.subrange(0, m as int),
        decreases b.len() - m,
    {
        v.push(b[m]);
        m = m + 1;
    }
    assert(b@ =~= b@.subrange(0, b@.len() as int));
}

// ─────────────────────────────────────────────────────────────────────────
// Longitud en bytes
// ─────────────────────────────────────────────────────────────────────────

/// Cuántos bytes ocupa un carácter en UTF-8.
pub open spec fn ancho_utf8(c: char) -> nat {
    if (c as u32) < 0x80 {
        1
    } else if (c as u32) < 0x800 {
        2
    } else if (c as u32) < 0x10000 {
        3
    } else {
        4
    }
}

/// Cuántos bytes ocupa un texto en UTF-8: lo que devuelve `str::len`.
pub open spec fn longitud_utf8(s: Seq<char>) -> nat
    decreases s.len(),
{
    if s.len() == 0 {
        0
    } else {
        longitud_utf8(s.drop_last()) + ancho_utf8(s.last())
    }
}

fn ancho(c: char) -> (r: usize)
    ensures
        r == ancho_utf8(c),
{
    let u = c as u32;
    if u < 0x80 {
        1
    } else if u < 0x800 {
        2
    } else if u < 0x10000 {
        3
    } else {
        4
    }
}

pub proof fn lema_longitud_utf8_crece(s: Seq<char>, i: int, j: int)
    requires
        0 <= i <= j <= s.len(),
    ensures
        longitud_utf8(s.take(i)) <= longitud_utf8(s.take(j)),
    decreases j - i,
{
    if i < j {
        assert(s.take(j).drop_last() =~= s.take(j - 1));
        lema_longitud_utf8_crece(s, i, j - 1);
    }
}

/// ¿Ocupa el texto más de `tope` bytes en UTF-8?
pub fn supera_en_bytes(v: &[char], tope: usize) -> (r: bool)
    ensures
        r == (longitud_utf8(v@) > tope),
{
    let tope_ancho = tope as u128;
    let mut total: u128 = 0;
    let mut k: usize = 0;
    while k < v.len()
        invariant
            k <= v.len(),
            total == longitud_utf8(v@.take(k as int)),
            total <= tope_ancho,
            tope_ancho == tope,
        decreases v.len() - k,
    {
        assert(v@.take(k + 1).drop_last() =~= v@.take(k as int));
        total = total + ancho(v[k]) as u128;
        k = k + 1;
        if total > tope_ancho {
            proof {
                lema_longitud_utf8_crece(v@, k as int, v@.len() as int);
                assert(v@.take(v@.len() as int) =~= v@);
            }
            return true;
        }
    }
    assert(v@.take(v@.len() as int) =~= v@);
    false
}

// ─────────────────────────────────────────────────────────────────────────
// Números en decimal
// ─────────────────────────────────────────────────────────────────────────

pub open spec fn digito_spec(d: nat) -> char {
    if d == 0 {
        '0'
    } else if d == 1 {
        '1'
    } else if d == 2 {
        '2'
    } else if d == 3 {
        '3'
    } else if d == 4 {
        '4'
    } else if d == 5 {
        '5'
    } else if d == 6 {
        '6'
    } else if d == 7 {
        '7'
    } else if d == 8 {
        '8'
    } else {
        '9'
    }
}

/// La escritura decimal de un número, sin ceros a la izquierda.
pub open spec fn decimal_spec(n: nat) -> Seq<char>
    decreases n,
{
    if n < 10 {
        seq![digito_spec(n)]
    } else {
        decimal_spec(n / 10).push(digito_spec(n % 10))
    }
}

fn digito(d: usize) -> (c: char)
    requires
        d < 10,
    ensures
        c == digito_spec(d as nat),
{
    if d == 0 {
        '0'
    } else if d == 1 {
        '1'
    } else if d == 2 {
        '2'
    } else if d == 3 {
        '3'
    } else if d == 4 {
        '4'
    } else if d == 5 {
        '5'
    } else if d == 6 {
        '6'
    } else if d == 7 {
        '7'
    } else if d == 8 {
        '8'
    } else {
        '9'
    }
}

fn escribir_decimal(v: &mut Vec<char>, n: usize)
    ensures
        final(v)@ == old(v)@ + decimal_spec(n as nat),
    decreases n,
{
    if n >= 10 {
        escribir_decimal(v, n / 10);
    }
    v.push(digito(n % 10));
    proof {
        if n < 10 {
            assert(decimal_spec(n as nat) == seq![digito_spec(n as nat)]);
        }
    }
}

/// El número en decimal, como caracteres.
pub fn decimal(n: usize) -> (r: Vec<char>)
    ensures
        r@ == decimal_spec(n as nat),
{
    let mut v: Vec<char> = Vec::new();
    escribir_decimal(&mut v, n);
    assert(v@ =~= decimal_spec(n as nat));
    v
}

} // verus!
