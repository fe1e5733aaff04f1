//! Clave de cifrado de la base de datos (SQLCipher): generación de los 32
//! bytes aleatorios y su forma hexadecimal, y comprobación de la clave leída
//! del fichero `.fks`.

use rand_core::{OsRng, RngCore};
use vstd::prelude::*;

use crate::hash::{a_hex, hex_minusculas, lema_hex_forma};
use crate::texto::{agregar_texto, copiar, decimal, decimal_u128, solo_espacios, vacio_tras_recortar};

verus! {

/// Nombre del fichero que guarda la clave (oculto por empezar por punto).
pub const KEY_BLOB_FILE: &'static str = ".fks";

/// Longitud de la clave en bytes.
pub const LONGITUD_CLAVE: usize = 32;

/// `OsRng.fill_bytes` sobre un vector de `n` ceros: `n` bytes aleatorios del
/// sistema operativo. Solo se afirma la longitud.
#[verifier::external_body]
fn bytes_aleatorios(n: usize) -> (r: Vec<u8>)
    ensures
        r@.len() == n,
{
    let mut v = vec![0u8; n];
    OsRng.fill_bytes(&mut v);
    v
}

/// Genera una clave nueva de 32 bytes aleatorios.
pub fn generate_random_key() -> (r: Vec<u8>)
    ensures
        r@.len() == LONGITUD_CLAVE,
{
    bytes_aleatorios(LONGITUD_CLAVE)
}

/// Clave nueva: los bytes que se guardan en el fichero y su forma
/// hexadecimal (64 caracteres), que es la que recibe `PRAGMA key`.
pub fn nueva_clave() -> (r: (Vec<u8>, String))
    ensures
        r.0@.len() == LONGITUD_CLAVE,
        r.1@ == hex_minusculas(r.0@),
        r.1@.len() == 2 * LONGITUD_CLAVE,
{
    let raw = generate_random_key();
    proof {
        lema_hex_forma(raw@);
    }
    let h = a_hex(&raw);
    (raw, h)
}

/// Mensaje de error de una clave de longitud distinta de 32 bytes.
pub open spec fn msg_longitud_clave(n: nat) -> Seq<char> {
    "La clave de base de datos tiene una longitud inesperada ("@ + decimal(n) + " bytes)."@
}

/// Clave leída del fichero `.fks`: si mide 32 bytes, su forma hexadecimal;
/// si no, el error de longitud.
pub fn load_key(raw: &Vec<u8>) -> (r: Result<String, String>)
    ensures
        match r {
            Ok(h) => raw@.len() == LONGITUD_CLAVE && h@ == hex_minusculas(raw@),
            Err(msg) => raw@.len() != LONGITUD_CLAVE && msg@ == msg_longitud_clave(raw@.len()),
        },
{
    if raw.len() != LONGITUD_CLAVE {
        let mut msg = copiar("La clave de base de datos tiene una longitud inesperada (");
        agregar_texto(&mut msg, decimal_u128(raw.len() as u128).as_str());
        agregar_texto(&mut msg, " bytes).");
        return Err(msg);
    }
    Ok(a_hex(raw))
}

/// Mensaje de error del fichero de clave vacío (Windows, DPAPI).
pub open spec fn msg_blob_vacio() -> Seq<char> {
    "El fichero de clave de base de datos está vacío o corrupto."@
}

/// Mensaje de error de una clave descifrada de longitud distinta de 32 bytes (Windows).
pub open spec fn msg_longitud_descifrada(n: nat) -> Seq<char> {
    msg_longitud_clave(n) + " El fichero puede estar corrupto."@
}

/// Comprobación previa al descifrado en Windows: el blob cifrado no puede estar vacío.
pub fn comprobar_blob_cifrado(cifrado: &Vec<u8>) -> (r: Result<(), String>)
    ensures
        r is Ok <==> cifrado@.len() > 0,
        r matches Err(msg) ==> msg@ == msg_blob_vacio(),
{
    if cifrado.len() == 0 {
        return Err(copiar("El fichero de clave de base de datos está vacío o corrupto."));
    }
    Ok(())
}

/// Clave descifrada con DPAPI (Windows): si mide 32 bytes, su forma
/// hexadecimal; si no, el error de longitud.
pub fn clave_descifrada(descifrado: &Vec<u8>) -> (r: Result<String, String>)
    ensures
        match r {
            Ok(h) => descifrado@.len() == LONGITUD_CLAVE && h@ == hex_minusculas(descifrado@),
            Err(msg) => descifrado@.len() != LONGITUD_CLAVE && msg@ == msg_longitud_descifrada(descifrado@.len()),
        },
{
    if descifrado.len() != LONGITUD_CLAVE {
        let mut msg = copiar("La clave de base de datos tiene una longitud inesperada (");
        agregar_texto(&mut msg, decimal_u128(descifrado.len() as u128).as_str());
        agregar_texto(&mut msg, " bytes). El fichero puede estar corrupto.");
        proof {
            reveal_strlit(" bytes). El fichero puede estar corrupto.");
            reveal_strlit(" bytes).");
            reveal_strlit(" El fichero puede estar corrupto.");
        }
        assert(msg@ =~= msg_longitud_descifrada(descifrado@.len()));
        return Err(msg);
    }
    Ok(a_hex(descifrado))
}

/// De dónde sale la clave con que se abre la base de datos al arrancar.
pub enum OrigenClave {
    /// Base de datos heredada de la ruta antigua: se abre sin cifrar.
    SinCifrar,
    /// Clave dada por la variable de entorno de desarrollo.
    Entorno(String),
    /// Clave del fichero `.fks`, que se crea si no existe.
    Provisionar,
}

/// Elige el origen de la clave: sin cifrar si hay base de datos en la ruta
/// antigua y la ruta no está forzada; si no, la clave del entorno cuando no
/// está en blanco; si no, la del fichero de claves.
pub fn origen_clave(legado_existe: bool, ruta_forzada: bool, clave_entorno: Option<String>) -> (r: OrigenClave)
    ensures
        legado_existe && !ruta_forzada ==> r is SinCifrar,
        !(legado_existe && !ruta_forzada) ==> match clave_entorno {
            Some(k) => if solo_espacios(k@) { r is Provisionar } else { r matches OrigenClave::Entorno(e) && e@ == k@ },
            None => r is Provisionar,
        },
{
    if legado_existe && !ruta_forzada {
        return OrigenClave::SinCifrar;
    }
    match clave_entorno {
        Some(k) => {
            if vacio_tras_recortar(k.as_str()) {
                OrigenClave::Provisionar
            } else {
                OrigenClave::Entorno(k)
            }
        },
        None => OrigenClave::Provisionar,
    }
}

/// La base de datos de la ruta antigua se copia a la nueva si existe, la
/// nueva aún no existe y la ruta no está forzada por el entorno.
pub fn debe_migrar(legado_existe: bool, nueva_existe: bool, ruta_forzada: bool) -> (r: bool)
    ensures
        r == (legado_existe && !nueva_existe && !ruta_forzada),
{
    legado_existe && !nueva_existe && !ruta_forzada
}

} // verus!
