//! Operaciones básicas sobre texto: caracteres, recorte de espacios,
//! formato decimal y comparación lexicográfica.

use vstd::prelude::*;

verus! {

// ─── Acceso a caracteres y construcción de cadenas ──────────────────────────

/// Copia los caracteres de `s` en un vector.
pub fn caracteres(s: &str) -> (v: Vec<char>)
    ensures
        v@ == s@,
{
    let mut v: Vec<char> = Vec::new();
    for c in it: s.chars()
        invariant
            v@ == it.seq().take(it.index() as int),
            it.seq() == s@,
    {
        v.push(c);
    }
    v
}

/// Añade un carácter al final de una cadena (`String::push`).
#[verifier::external_body]
pub(crate) fn agregar_caracter(s: &mut String, c: char)
    ensures
        final(s)@ == old(s)@.push(c),
{
    s.push(c);
}

/// Añade un texto al final de una cadena (`String::push_str`).
#[verifier::external_body]
pub(crate) fn agregar_texto(s: &mut String, t: &str)
    ensures
        final(s)@ == old(s)@ + t@,
{
    s.push_str(t);
}

/// El texto empieza por `p`.
pub open spec fn empieza_por(s: Seq<char>, p: Seq<char>) -> bool {
    p.len() <= s.len() && s.take(p.len() as int) == p
}

/// Añade al final de `s` los caracteres de `v[desde..hasta]`.
pub fn agregar_tramo(s: &mut String, v: &Vec<char>, desde: usize, hasta: usize)
    requires
        desde <= hasta <= v.len(),
    ensures
        final(s)@ == old(s)@ + v@.subrange(desde as int, hasta as int),
{
    let mut i = desde;
    while i < hasta
        invariant
            desde <= i <= hasta <= v.len(),
            s@ == old(s)@ + v@.subrange(desde as int, i as int),
        decreases hasta - i,
    {
        agregar_caracter(s, v[i]);
        assert(v@.subrange(desde as int, i + 1) == v@.subrange(desde as int, i as int).push(v@[i as int]));
        i = i + 1;
    }
}

/// Copia una cadena.
pub fn copiar(t: &str) -> (s: String)
    ensures
        s@ == t@,
{
    let mut s = String::new();
    agregar_texto(&mut s, t);
    s
}

/// Compara dos textos carácter a carácter.
pub fn texto_igual(a: &str, b: &str) -> (r: bool)
    ensures
        r == (a@ == b@),
{
    let va = caracteres(a);
    let vb = caracteres(b);
    if va.len() != vb.len() {
        return false;
    }
    let mut i: usize = 0;
    while i < va.len()
        invariant
            va@ == a@,
            vb@ == b@,
            va.len() == vb.len(),
            i <= va.len(),
            forall|j: int| 0 <= j < i ==> va@[j] == vb@[j],
        decreases va.len() - i,
    {
        if va[i] != vb[i] {
            return false;
        }
        i = i + 1;
    }
    assert(va@ =~= vb@);
    true
}

/// Resultado de `str::to_uppercase` (mayúsculas Unicode completas).
pub uninterp spec fn mayusculas_unicode(s: Seq<char>) -> Seq<char>;

/// `s.to_uppercase()`. Se confía en que el resultado es `mayusculas_unicode`
/// del texto: una función determinista del texto según las tablas Unicode de
/// la biblioteca estándar, que aquí no se describen.
#[verifier::external_body]
pub(crate) fn a_mayusculas(s: &str) -> (r: String)
    ensures
        r@ == mayusculas_unicode(s@),
{
    s.to_uppercase()
}

/// `sub` aparece en `s` a partir de alguna posición.
pub open spec fn contiene(s: Seq<char>, sub: Seq<char>) -> bool {
    exists|i: int| 0 <= i && i + sub.len() <= s.len() && #[trigger] s.subrange(i, i + sub.len()) == sub
}

/// Un texto aparece en cualquier texto que lo lleve en medio.
pub proof fn lema_contiene_medio(a: Seq<char>, b: Seq<char>, c: Seq<char>)
    ensures
        contiene(a + b + c, b),
{
    let s = a + b + c;
    assert(s.subrange(a.len() as int, (a.len() + b.len()) as int) =~= b);
}

/// Lo que aparece en `m` aparece en `a + m + c`.
pub proof fn lema_contiene_dentro(a: Seq<char>, m: Seq<char>, c: Seq<char>, b: Seq<char>)
    requires
        contiene(m, b),
    ensures
        contiene(a + m + c, b),
{
    let i = choose|i: int| 0 <= i && i + b.len() <= m.len() && #[trigger] m.subrange(i, i + b.len()) == b;
    let s = a + m + c;
    assert(s.subrange(a.len() + i, a.len() + i + b.len()) =~= m.subrange(i, i + b.len()));
}

fn coincide_en(v: &Vec<char>, w: &Vec<char>, i: usize) -> (r: bool)
    requires
        i + w.len() <= v.len(),
    ensures
        r == (v@.subrange(i as int, i + w.len()) == w@),
{
    let mut k: usize = 0;
    while k < w.len()
        invariant
            i + w.len() <= v.len(),
            k <= w.len(),
            forall|j: int| 0 <= j < k ==> v@[i + j] == w@[j],
        decreases w.len() - k,
    {
        if v[i + k] != w[k] {
            assert(v@.subrange(i as int, i + w.len())[k as int] != w@[k as int]);
            return false;
        }
        k = k + 1;
    }
    assert(v@.subrange(i as int, i + w.len()) =~= w@);
    true
}

/// `s.contains(sub)`.
pub fn contiene_texto(s: &str, sub: &str) -> (r: bool)
    ensures
        r == contiene(s@, sub@),
{
    let v = caracteres(s);
    let w = caracteres(sub);
    if w.len() > v.len() {
        return false;
    }
    if w.len() == 0 {
        assert(s@.subrange(0int, 0int + sub@.len()) =~= sub@);
        assert(contiene(s@, sub@));
        return true;
    }
    let mut i: usize = 0;
    let limite = v.len() - w.len();
    while i <= limite
        invariant
            limite == v.len() - w.len(),
            w.len() > 0,
            v@ == s@,
            w@ == sub@,
            w.len() <= v.len(),
            i <= v.len() - w.len() + 1,
            forall|j: int| 0 <= j < i ==> #[trigger] v@.subrange(j, j + w.len()) != w@,
        decreases limite + 1 - i,
    {
        if coincide_en(&v, &w, i) {
            return true;
        }
        i = i + 1;
    }
    assert forall|j: int| 0 <= j && j + sub@.len() <= s@.len() implies #[trigger] s@.subrange(j, j + sub@.len()) != sub@ by {
        assert(j < i);
    }
    false
}

// ─── Espacios en blanco (Unicode White_Space, como `char::is_whitespace`) ───

/// Caracteres con la propiedad Unicode `White_Space`.
pub open spec fn es_espacio(c: char) -> bool {
    let u = c as u32;
    ||| 0x09 <= u <= 0x0D
    ||| u == 0x20
    ||| u == 0x85
    ||| u == 0xA0
    ||| u == 0x1680
    ||| 0x2000 <= u <= 0x200A
    ||| u == 0x2028
    ||| u == 0x2029
    ||| u == 0x202F
    ||| u == 0x205F
    ||| u == 0x3000
}

pub fn es_espacio_exec(c: char) -> (r: bool)
    ensures
        r == es_espacio(c),
{
    let u = c as u32;
    (0x09 <= u && u <= 0x0D) || u == 0x20 || u == 0x85 || u == 0xA0 || u == 0x1680
        || (0x2000 <= u && u <= 0x200A) || u == 0x2028 || u == 0x2029 || u == 0x202F
        || u == 0x205F || u == 0x3000
}

/// Quita los espacios iniciales.
pub open spec fn recortar_inicio(s: Seq<char>) -> Seq<char>
    decreases s.len(),
{
    if s.len() > 0 && es_espacio(s[0]) {
        recortar_inicio(s.drop_first())
    } else {
        s
    }
}

/// Quita los espacios finales.
pub open spec fn recortar_final(s: Seq<char>) -> Seq<char>
    decreases s.len(),
{
    if s.len() > 0 && es_espacio(s.last()) {
        recortar_final(s.drop_last())
    } else {
        s
    }
}

/// `str::trim`: quita los espacios de ambos extremos.
pub open spec fn recortar(s: Seq<char>) -> Seq<char> {
    recortar_final(recortar_inicio(s))
}

/// Todos los caracteres son espacios.
pub open spec fn solo_espacios(s: Seq<char>) -> bool {
    forall|i: int| 0 <= i < s.len() ==> es_espacio(#[trigger] s[i])
}

proof fn lema_recortar_inicio_vacio(s: Seq<char>)
    ensures
        (recortar_inicio(s).len() == 0) == solo_espacios(s),
        recortar_inicio(s).len() > 0 ==> !es_espacio(recortar_inicio(s)[0]),
    decreases s.len(),
{
    if s.len() > 0 && es_espacio(s[0]) {
        lema_recortar_inicio_vacio(s.drop_first());
        if solo_espacios(s.drop_first()) {
            assert forall|i: int| 0 <= i < s.len() implies es_espacio(#[trigger] s[i]) by {
                if i > 0 {
                    assert(s[i] == s.drop_first()[i - 1]);
                }
            }
        }
        if solo_espacios(s) {
            assert forall|i: int| 0 <= i < s.drop_first().len() implies es_espacio(
                #[trigger] s.drop_first()[i],
            ) by {
                assert(s.drop_first()[i] == s[i + 1]);
            }
        }
    }
}

proof fn lema_recortar_final_no_vacio(s: Seq<char>)
    ensures
        s.len() > 0 && !es_espacio(s[0]) ==> recortar_final(s).len() > 0,
    decreases s.len(),
{
    if s.len() > 0 && es_espacio(s.last()) {
        lema_recortar_final_no_vacio(s.drop_last());
    }
}

/// El recorte queda vacío exactamente cuando todo son espacios.
pub proof fn lema_recortar_vacio(s: Seq<char>)
    ensures
        (recortar(s).len() == 0) == solo_espacios(s),
{
    lema_recortar_inicio_vacio(s);
    lema_recortar_final_no_vacio(recortar_inicio(s));
}

/// `s.trim().is_empty()`.
pub fn vacio_tras_recortar(s: &str) -> (r: bool)
    ensures
        r == (recortar(s@).len() == 0),
        r == solo_espacios(s@),
{
    proof {
        lema_recortar_vacio(s@);
    }
    let v = caracteres(s);
    let mut i: usize = 0;
    while i < v.len()
        invariant
            v@ == s@,
            i <= v.len(),
            forall|j: int| 0 <= j < i ==> es_espacio(#[trigger] v@[j]),
        decreases v.len() - i,
    {
        if !es_espacio_exec(v[i]) {
            assert(!es_espacio(s@[i as int]));
            proof {
                lema_recortar_vacio(s@);
            }
            return false;
        }
        i = i + 1;
    }
    true
}

/// Índices de inicio y fin del texto recortado.
fn limites_recorte(v: &Vec<char>) -> (r: (usize, usize))
    ensures
        r.0 <= r.1 <= v.len(),
        v@.subrange(r.0 as int, r.1 as int) == recortar(v@),
{
    let mut i: usize = 0;
    assert(v@.subrange(0, v.len() as int) == v@);
    while i < v.len() && es_espacio_exec(v[i])
        invariant
            i <= v.len(),
            recortar_inicio(v@) == recortar_inicio(v@.subrange(i as int, v.len() as int)),
        decreases v.len() - i,
    {
        assert(v@.subrange(i as int, v.len() as int).drop_first() == v@.subrange(i + 1, v.len() as int));
        i = i + 1;
    }
    assert(recortar_inicio(v@.subrange(i as int, v.len() as int)) == v@.subrange(i as int, v.len() as int));
    let mut j: usize = v.len();
    while j > i && es_espacio_exec(v[j - 1])
        invariant
            i <= j <= v.len(),
            recortar(v@) == recortar_final(v@.subrange(i as int, j as int)),
        decreases j,
    {
        assert(v@.subrange(i as int, j as int).drop_last() == v@.subrange(i as int, j - 1));
        j = j - 1;
    }
    (i, j)
}

/// `s.trim().to_string()`.
pub fn recortado(s: &str) -> (r: String)
    ensures
        r@ == recortar(s@),
{
    let v = caracteres(s);
    let (i, j) = limites_recorte(&v);
    let mut r = String::new();
    agregar_tramo(&mut r, &v, i, j);
    r
}

// ─── Formato decimal ─────────────────────────────────────────────────────────

/// Carácter ASCII de un dígito decimal.
pub open spec fn digito(d: nat) -> char {
    (48 + d) as char
}

/// Representación decimal de un natural, sin ceros a la izquierda.
pub open spec fn decimal(n: nat) -> Seq<char>
    decreases n,
{
    if n < 10 {
        seq![digito(n)]
    } else {
        decimal(n / 10).push(digito(n % 10))
    }
}

/// Representación decimal con signo (`format!("{}", n)`).
pub open spec fn decimal_entero(n: int) -> Seq<char> {
    if n < 0 {
        seq!['-'] + decimal((-n) as nat)
    } else {
        decimal(n as nat)
    }
}

/// Rellena con ceros por la izquierda hasta `ancho`.
pub open spec fn rellenar_ceros(s: Seq<char>, ancho: nat) -> Seq<char> {
    if s.len() >= ancho {
        s
    } else {
        Seq::new((ancho - s.len()) as nat, |i: int| '0') + s
    }
}

/// `format!("{:0w$}", n)`: el signo cuenta dentro del ancho.
pub open spec fn entero_con_ceros(n: int, ancho: nat) -> Seq<char> {
    if n < 0 {
        seq!['-'] + rellenar_ceros(decimal((-n) as nat), if ancho >= 1 { (ancho - 1) as nat } else { 0 })
    } else {
        rellenar_ceros(decimal(n as nat), ancho)
    }
}

pub fn caracter_digito(d: u8) -> (c: char)
    requires
        d < 10,
    ensures
        c == digito(d as nat),
{
    let b: u8 = 48 + d;
    let c = b as char;
    assert(c == digito(d as nat)) by {
        assert(c as u32 == b as u32);
    }
    c
}

/// Escribe la representación decimal de `n` al final de `s`.
pub fn escribir_decimal(s: &mut String, n: u128)
    ensures
        final(s)@ == old(s)@ + decimal(n as nat),
    decreases n,
{
    if n < 10 {
        let c = caracter_digito(n as u8);
        agregar_caracter(s, c);
        assert(decimal(n as nat) == seq![digito(n as nat)]);
    } else {
        escribir_decimal(s, n / 10);
        let c = caracter_digito((n % 10) as u8);
        agregar_caracter(s, c);
        assert(decimal(n as nat) == decimal((n / 10) as nat).push(digito((n % 10) as nat)));
    }
}

/// `n.to_string()` para enteros sin signo.
pub fn decimal_u128(n: u128) -> (s: String)
    ensures
        s@ == decimal(n as nat),
{
    let mut s = String::new();
    escribir_decimal(&mut s, n);
    s
}

/// `n.to_string()` para enteros con signo.
pub fn decimal_i64(n: i64) -> (s: String)
    ensures
        s@ == decimal_entero(n as int),
{
    let mut s = String::new();
    if n < 0 {
        agregar_caracter(&mut s, '-');
        let m: u128 = (0 - (n as i128)) as u128;
        escribir_decimal(&mut s, m);
    } else {
        escribir_decimal(&mut s, n as u128);
    }
    s
}

pub proof fn lema_decimal_no_vacio(n: nat)
    ensures
        decimal(n).len() >= 1,
    decreases n,
{
    if n >= 10 {
        lema_decimal_no_vacio(n / 10);
    }
}

/// Escribe `ancho - longitud` ceros.
fn escribir_ceros(s: &mut String, cuantos: usize)
    ensures
        final(s)@ == old(s)@ + Seq::new(cuantos as nat, |i: int| '0'),
{
    let mut k: usize = 0;
    while k < cuantos
        invariant
            k <= cuantos,
            s@ == old(s)@ + Seq::new(k as nat, |i: int| '0'),
        decreases cuantos - k,
    {
        agregar_caracter(s, '0');
        k = k + 1;
        assert(Seq::new(k as nat, |i: int| '0') =~= Seq::new((k - 1) as nat, |i: int| '0').push('0'));
    }
}

/// Escribe `n` rellenado con ceros hasta `ancho` caracteres.
pub fn escribir_con_ceros(s: &mut String, n: u128, ancho: usize)
    ensures
        final(s)@ == old(s)@ + rellenar_ceros(decimal(n as nat), ancho as nat),
{
    let d = decimal_u128(n);
    let v = caracteres(d.as_str());
    if v.len() < ancho {
        escribir_ceros(s, ancho - v.len());
    }
    agregar_texto(s, d.as_str());
    assert(s@ == old(s)@ + rellenar_ceros(decimal(n as nat), ancho as nat));
}

/// `format!("{:0w$}", n)` para enteros con signo.
pub fn entero_ceros_i64(n: i64, ancho: usize) -> (s: String)
    ensures
        s@ == entero_con_ceros(n as int, ancho as nat),
{
    let mut s = String::new();
    if n < 0 {
        agregar_caracter(&mut s, '-');
        let m: u128 = (0 - (n as i128)) as u128;
        let a = if ancho >= 1 { ancho - 1 } else { 0 };
        escribir_con_ceros(&mut s, m, a);
    } else {
        escribir_con_ceros(&mut s, n as u128, ancho);
    }
    s
}

// ─── Longitud UTF-8 y prefijos por bytes ─────────────────────────────────────

/// Bytes que ocupa un carácter en UTF-8.
pub open spec fn bytes_utf8(c: char) -> nat {
    let u = c as u32;
    if u < 0x80 {
        1
    } else if u < 0x800 {
        2
    } else if u < 0x10000 {
        3
    } else {
        4
    }
}

/// Longitud en bytes UTF-8 (`str::len`).
pub open spec fn longitud_utf8(s: Seq<char>) -> nat
    decreases s.len(),
{
    if s.len() == 0 {
        0
    } else {
        bytes_utf8(s[0]) + longitud_utf8(s.drop_first())
    }
}

/// El prefijo de `s` que ocupa exactamente `n` bytes (`&s[..n]`), si `n`
/// cae en un límite de carácter; `None` si no (el corte entraría en pánico).
pub open spec fn prefijo_bytes(s: Seq<char>, n: nat) -> Option<Seq<char>>
    decreases s.len(),
{
    if n == 0 {
        Some(Seq::empty())
    } else if s.len() == 0 {
        None
    } else if bytes_utf8(s[0]) > n {
        None
    } else {
        match prefijo_bytes(s.drop_first(), (n - bytes_utf8(s[0])) as nat) {
            Some(p) => Some(seq![s[0]] + p),
            None => None,
        }
    }
}

pub fn bytes_utf8_exec(c: char) -> (r: usize)
    ensures
        r == bytes_utf8(c),
{
    let u = c as u32;
    if u < 0x80 {
        1
    } else if u < 0x800 {
        2
    } else if u < 0x10000 {
        3
    } else {
        4
    }
}

/// La longitud UTF-8 es aditiva.
pub proof fn lema_longitud_concat(a: Seq<char>, b: Seq<char>)
    ensures
        longitud_utf8(a + b) == longitud_utf8(a) + longitud_utf8(b),
    decreases a.len(),
{
    if a.len() > 0 {
        assert((a + b).drop_first() == a.drop_first() + b);
        lema_longitud_concat(a.drop_first(), b);
    } else {
        assert(a + b == b);
    }
}

/// Longitud de un prefijo que crece en un carácter.
pub proof fn lema_longitud_prefijo(s: Seq<char>, i: int)
    requires
        0 <= i < s.len(),
    ensures
        longitud_utf8(s.take(i + 1)) == longitud_utf8(s.take(i)) + bytes_utf8(s[i]),
{
    assert(s.take(i + 1) == s.take(i) + seq![s[i]]);
    lema_longitud_concat(s.take(i), seq![s[i]]);
    assert(seq![s[i]].drop_first() =~= Seq::<char>::empty());
    assert(longitud_utf8(Seq::<char>::empty()) == 0);
    assert(longitud_utf8(seq![s[i]]) == bytes_utf8(s[i]) + longitud_utf8(seq![s[i]].drop_first()));
}

pub proof fn lema_longitud_division(s: Seq<char>, k: int)
    requires
        0 <= k <= s.len(),
    ensures
        longitud_utf8(s) == longitud_utf8(s.subrange(0, k)) + longitud_utf8(s.subrange(k, s.len() as int)),
{
    assert(s == s.subrange(0, k) + s.subrange(k, s.len() as int));
    lema_longitud_concat(s.subrange(0, k), s.subrange(k, s.len() as int));
}

/// `&s[..n]` cuando el corte es válido; `None` donde `&s[..n]` entraría en pánico.
pub fn prefijo_de_bytes(s: &str, n: usize) -> (r: Option<String>)
    ensures
        match r {
            Some(p) => prefijo_bytes(s@, n as nat) == Some(p@),
            None => prefijo_bytes(s@, n as nat) is None,
        },
{
    let v = caracteres(s);
    let mut i: usize = 0;
    let mut usados: usize = 0;
    assert(v@.subrange(0, v.len() as int) == v@);
    assert(v@.subrange(0, 0) + v@ == v@);
    while usados < n && i < v.len() && bytes_utf8_exec(v[i]) <= n - usados
        invariant
            v@ == s@,
            i <= v.len(),
            usados <= n,
            prefijo_bytes(s@, n as nat) == match prefijo_bytes(v@.subrange(i as int, v.len() as int), (n - usados) as nat) {
                Some(p) => Some(v@.subrange(0, i as int) + p),
                None => None::<Seq<char>>,
            },
        decreases v.len() - i,
    {
        let ghost resto = v@.subrange(i as int, v.len() as int);
        assert(resto.drop_first() == v@.subrange(i + 1, v.len() as int));
        assert(v@.subrange(0, i + 1) == v@.subrange(0, i as int) + seq![v@[i as int]]);
        usados = usados + bytes_utf8_exec(v[i]);
        i = i + 1;
        proof {
            match prefijo_bytes(v@.subrange(i as int, v.len() as int), (n - usados) as nat) {
                Some(p) => {
                    assert(v@.subrange(0, i as int) + p == v@.subrange(0, i - 1) + (seq![v@[i - 1]] + p));
                }
                None => {}
            }
        }
    }
    if usados == n {
        let mut r = String::new();
        agregar_tramo(&mut r, &v, 0, i);
        assert(v@.subrange(0, i as int) + Seq::<char>::empty() == v@.subrange(0, i as int));
        Some(r)
    } else {
        None
    }
}

// ─── Orden lexicográfico (orden de bytes UTF-8 = orden de puntos de código) ──

/// `a < b` entre cadenas de Rust.
pub open spec fn menor_lex(a: Seq<char>, b: Seq<char>) -> bool
    decreases a.len(),
{
    if a.len() == 0 {
        b.len() > 0
    } else if b.len() == 0 {
        false
    } else if a[0] != b[0] {
        a[0] < b[0]
    } else {
        menor_lex(a.drop_first(), b.drop_first())
    }
}

/// `a < b` entre textos.
pub fn es_menor(a: &str, b: &str) -> (r: bool)
    ensures
        r == menor_lex(a@, b@),
{
    let va = caracteres(a);
    let vb = caracteres(b);
    let mut i: usize = 0;
    assert(va@.subrange(0, va.len() as int) == va@);
    assert(vb@.subrange(0, vb.len() as int) == vb@);
    while i < va.len() && i < vb.len() && va[i] == vb[i]
        invariant
            va@ == a@,
            vb@ == b@,
            i <= va.len(),
            i <= vb.len(),
            menor_lex(a@, b@) == menor_lex(va@.subrange(i as int, va.len() as int), vb@.subrange(i as int, vb.len() as int)),
        decreases va.len() - i,
    {
        assert(va@.subrange(i as int, va.len() as int).drop_first() == va@.subrange(i + 1, va.len() as int));
        assert(vb@.subrange(i as int, vb.len() as int).drop_first() == vb@.subrange(i + 1, vb.len() as int));
        i = i + 1;
    }
    if i == va.len() {
        i < vb.len()
    } else if i == vb.len() {
        false
    } else {
        va[i] < vb[i]
    }
}

} // verus!

verus! {

/// `menor_lex` es transitivo.
pub proof fn lema_menor_transitivo(a: Seq<char>, b: Seq<char>, c: Seq<char>)
    requires
        menor_lex(a, b),
        menor_lex(b, c),
    ensures
        menor_lex(a, c),
    decreases a.len(),
{
    if a.len() > 0 && b.len() > 0 && c.len() > 0 {
        if a[0] == b[0] && b[0] == c[0] {
            lema_menor_transitivo(a.drop_first(), b.drop_first(), c.drop_first());
        }
    }
}

/// `menor_lex` es total entre textos distintos.
pub proof fn lema_menor_total(a: Seq<char>, b: Seq<char>)
    requires
        a != b,
    ensures
        menor_lex(a, b) || menor_lex(b, a),
    decreases a.len(),
{
    if a.len() > 0 && b.len() > 0 && a[0] == b[0] {
        if a.drop_first() == b.drop_first() {
            assert(a == seq![a[0]] + a.drop_first());
            assert(b == seq![b[0]] + b.drop_first());
        }
        lema_menor_total(a.drop_first(), b.drop_first());
    } else if a.len() == 0 && b.len() == 0 {
        assert(a =~= b);
    }
}

/// Vista de una secuencia de cadenas.
pub open spec fn vistas(v: Seq<String>) -> Seq<Seq<char>> {
    v.map_values(|s: String| s@)
}

} // verus!

verus! {

/// Posición de la primera aparición de `c`.
pub open spec fn primer_indice(s: Seq<char>, c: char) -> Option<int>
    decreases s.len(),
{
    if s.len() == 0 {
        None
    } else if s[0] == c {
        Some(0)
    } else {
        match primer_indice(s.drop_first(), c) {
            Some(i) => Some(i + 1),
            None => None,
        }
    }
}

proof fn lema_primer_indice(s: Seq<char>, c: char, n: int)
    requires
        0 <= n <= s.len(),
        forall|t: int| 0 <= t < n ==> s[t] != c,
        n == s.len() || s[n] == c,
    ensures
        primer_indice(s, c) == if n == s.len() { None } else { Some(n) },
    decreases s.len(),
{
    if s.len() > 0 && n > 0 {
        assert forall|t: int| 0 <= t < n - 1 implies s.drop_first()[t] != c by {
            assert(s.drop_first()[t] == s[t + 1]);
        }
        if n < s.len() {
            assert(s.drop_first()[n - 1] == s[n]);
        }
        lema_primer_indice(s.drop_first(), c, n - 1);
    }
}

/// Busca `c` en `v` desde la posición `desde`.
pub fn buscar_caracter(v: &Vec<char>, desde: usize, c: char) -> (r: Option<usize>)
    requires
        desde <= v.len(),
    ensures
        match r {
            Some(i) => primer_indice(v@.skip(desde as int), c) == Some(i - desde) && desde <= i < v.len(),
            None => primer_indice(v@.skip(desde as int), c) is None,
        },
{
    let mut i = desde;
    while i < v.len() && v[i] != c
        invariant
            desde <= i <= v.len(),
            forall|t: int| desde <= t < i ==> v@[t] != c,
        decreases v.len() - i,
    {
        i = i + 1;
    }
    let ghost s = v@.skip(desde as int);
    proof {
        assert forall|t: int| 0 <= t < i - desde implies s[t] != c by {
            assert(s[t] == v@[t + desde]);
        }
        if i < v.len() {
            assert(s[i - desde] == v@[i as int]);
        }
        lema_primer_indice(s, c, i - desde);
    }
    if i < v.len() {
        Some(i)
    } else {
        None
    }
}

} // verus!

verus! {

/// `s.replacen(de, por, 1)`.
pub open spec fn sustituir_primera(s: Seq<char>, de: Seq<char>, por: Seq<char>) -> Seq<char>
    decreases s.len(),
{
    if de.len() <= s.len() && s.take(de.len() as int) == de {
        por + s.skip(de.len() as int)
    } else if s.len() == 0 {
        s
    } else {
        seq![s[0]] + sustituir_primera(s.drop_first(), de, por)
    }
}

/// `s.replace(de, por)` con `de` no vacío.
pub open spec fn sustituir_todas(s: Seq<char>, de: Seq<char>, por: Seq<char>) -> Seq<char>
    decreases s.len(),
{
    if de.len() > 0 && de.len() <= s.len() && s.take(de.len() as int) == de {
        por + sustituir_todas(s.skip(de.len() as int), de, por)
    } else if s.len() == 0 {
        s
    } else {
        seq![s[0]] + sustituir_todas(s.drop_first(), de, por)
    }
}

proof fn lema_coincide_prefijo(s: Seq<char>, i: int, de: Seq<char>)
    requires
        0 <= i <= s.len(),
    ensures
        (de.len() <= s.len() - i && s.subrange(i, i + de.len()) == de) == (de.len() <= s.skip(i).len()
            && s.skip(i).take(de.len() as int) == de),
{
    if de.len() <= s.len() - i {
        assert(s.subrange(i, i + de.len()) == s.skip(i).take(de.len() as int));
    }
}

/// `s.replacen(de, por, 1)`.
pub fn reemplazar_primera(s: &str, de: &str, por: &str) -> (r: String)
    ensures
        r@ == sustituir_primera(s@, de@, por@),
{
    let v = caracteres(s);
    let w = caracteres(de);
    let mut r = String::new();
    let mut i: usize = 0;
    assert(v@.skip(0) == v@);
    while i <= v.len()
        invariant
            v@ == s@,
            w@ == de@,
            i <= v.len() + 1,
            i <= v.len() ==> sustituir_primera(v@, w@, por@) == r@ + sustituir_primera(v@.skip(i as int), w@, por@),
            i == v.len() + 1 ==> r@ == sustituir_primera(v@, w@, por@),
            r@ == v@.take(if i <= v.len() { i as int } else { v.len() as int }),
        decreases v.len() + 1 - i,
    {
        proof {
            lema_coincide_prefijo(v@, i as int, w@);
        }
        if w.len() <= v.len() - i && coincide_en(&v, &w, i) {
            agregar_texto(&mut r, por);
            agregar_tramo(&mut r, &v, i + w.len(), v.len());
            assert(v@.skip(i as int).skip(w.len() as int) == v@.subrange(i + w.len(), v.len() as int));
            return r;
        }
        if i == v.len() {
            assert(v@.skip(i as int).len() == 0);
            assert(v@.take(i as int) == v@);
            return r;
        }
        proof {
            assert(v@.skip(i as int).drop_first() == v@.skip(i + 1));
            assert(v@.take(i + 1) == v@.take(i as int).push(v@[i as int]));
        }
        agregar_caracter(&mut r, v[i]);
        i = i + 1;
    }
    r
}

/// `s.replace(de, por)` con `de` no vacío.
pub fn reemplazar_todas(s: &str, de: &str, por: &str) -> (r: String)
    requires
        de@.len() > 0,
    ensures
        r@ == sustituir_todas(s@, de@, por@),
{
    let v = caracteres(s);
    let w = caracteres(de);
    let mut r = String::new();
    let mut i: usize = 0;
    assert(v@.skip(0) == v@);
    while i < v.len()
        invariant
            v@ == s@,
            w@ == de@,
            w.len() > 0,
            i <= v.len(),
            sustituir_todas(v@, w@, por@) == r@ + sustituir_todas(v@.skip(i as int), w@, por@),
        decreases v.len() - i,
    {
        proof {
            lema_coincide_prefijo(v@, i as int, w@);
        }
        if w.len() <= v.len() - i && coincide_en(&v, &w, i) {
            agregar_texto(&mut r, por);
            assert(v@.skip(i as int).skip(w.len() as int) == v@.skip(i + w.len()));
            i = i + w.len();
        } else {
            assert(v@.skip(i as int).drop_first() == v@.skip(i + 1));
            agregar_caracter(&mut r, v[i]);
            i = i + 1;
        }
    }
    assert(v@.skip(i as int).len() == 0);
    r
}

} // verus!
