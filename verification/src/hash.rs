//! Resumen SHA-256 y su representación hexadecimal.

use sha2::{Digest, Sha256};
use vstd::prelude::*;

use crate::texto::{agregar_caracter, prefijo_bytes};

verus! {

/// Resumen SHA-256 de la codificación UTF-8 de un texto.
pub uninterp spec fn sha256_utf8(texto: Seq<char>) -> Seq<u8>;

/// Calcula el SHA-256 de los bytes UTF-8 de `texto` con `sha2::Sha256`
/// (`new`, `update`, `finalize`). Se confía en que el resultado es el valor
/// `sha256_utf8` del texto y en que mide 32 bytes, como fija el tipo de salida
/// `U32` de `Sha256`; la corrección del algoritmo no se demuestra aquí.
#[verifier::external_body]
pub(crate) fn sha256_texto(texto: &str) -> (r: Vec<u8>)
    ensures
        r@ == sha256_utf8(texto@),
        r@.len() == 32,
{
    let mut hasher = Sha256::new();
    hasher.update(texto.as_bytes());
    hasher.finalize().to_vec()
}

/// Dígito hexadecimal en minúscula.
pub open spec fn digito_hex(d: nat) -> char {
    if d < 10 {
        (48 + d) as char
    } else {
        (87 + d) as char
    }
}

/// Codificación hexadecimal en minúsculas, dos dígitos por byte (`hex::encode`).
pub open spec fn hex_minusculas(b: Seq<u8>) -> Seq<char>
    decreases b.len(),
{
    if b.len() == 0 {
        Seq::empty()
    } else {
        hex_minusculas(b.drop_last()) + seq![digito_hex((b.last() / 16) as nat), digito_hex((b.last() % 16) as nat)]
    }
}

/// Todos los caracteres son ASCII.
pub open spec fn es_ascii(s: Seq<char>) -> bool {
    forall|i: int| 0 <= i < s.len() ==> (#[trigger] s[i] as u32) < 0x80
}

pub proof fn lema_hex_forma(b: Seq<u8>)
    ensures
        hex_minusculas(b).len() == 2 * b.len(),
        es_ascii(hex_minusculas(b)),
    decreases b.len(),
{
    if b.len() > 0 {
        lema_hex_forma(b.drop_last());
        let h = hex_minusculas(b.drop_last());
        let d = seq![digito_hex((b.last() / 16) as nat), digito_hex((b.last() % 16) as nat)];
        assert forall|i: int| 0 <= i < (h + d).len() implies ((#[trigger] (h + d)[i]) as u32) < 0x80 by {
            if i < h.len() {
                assert((h + d)[i] == h[i]);
            }
        }
    }
}

/// En un texto ASCII, `&s[..n]` es el prefijo de `n` caracteres.
pub proof fn lema_prefijo_ascii(s: Seq<char>, n: nat)
    requires
        es_ascii(s),
        n <= s.len(),
    ensures
        prefijo_bytes(s, n) == Some(s.take(n as int)),
    decreases n,
{
    if n > 0 {
        assert(es_ascii(s.drop_first())) by {
            assert forall|i: int| 0 <= i < s.drop_first().len() implies ((#[trigger] s.drop_first()[i]) as u32) < 0x80 by {
                assert(s.drop_first()[i] == s[i + 1]);
            }
        }
        assert((s[0] as u32) < 0x80);
        lema_prefijo_ascii(s.drop_first(), (n - 1) as nat);
        assert(seq![s[0]] + s.drop_first().take(n - 1) == s.take(n as int));
    }
}

fn caracter_hex(d: u8) -> (c: char)
    requires
        d < 16,
    ensures
        c == digito_hex(d as nat),
{
    if d < 10 {
        let b: u8 = 48 + d;
        let c = b as char;
        assert(c as u32 == b as u32);
        c
    } else {
        let b: u8 = 87 + d;
        let c = b as char;
        assert(c as u32 == b as u32);
        c
    }
}

/// `hex::encode(bytes)`: hexadecimal en minúsculas.
pub fn a_hex(bytes: &Vec<u8>) -> (s: String)
    ensures
        s@ == hex_minusculas(bytes@),
{
    let mut s = String::new();
    let mut i: usize = 0;
    while i < bytes.len()
        invariant
            i <= bytes.len(),
            s@ == hex_minusculas(bytes@.take(i as int)),
        decreases bytes.len() - i,
    {
        let b = bytes[i];
        agregar_caracter(&mut s, caracter_hex(b / 16));
        agregar_caracter(&mut s, caracter_hex(b % 16));
        assert(bytes@.take(i + 1).drop_last() == bytes@.take(i as int));
        i = i + 1;
    }
    assert(bytes@.take(bytes.len() as int) == bytes@);
    s
}

/// Resumen SHA-256 de un texto en hexadecimal.
pub open spec fn sha256_hex(texto: Seq<char>) -> Seq<char> {
    hex_minusculas(sha256_utf8(texto))
}

/// SHA-256 de `texto` en hexadecimal minúsculo (64 caracteres).
pub fn sha256_hex_texto(texto: &str) -> (s: String)
    ensures
        s@ == sha256_hex(texto@),
        s@.len() == 64,
        es_ascii(s@),
{
    let d = sha256_texto(texto);
    proof {
        lema_hex_forma(d@);
    }
    a_hex(&d)
}

} // verus!
