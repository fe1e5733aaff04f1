//! Contraseñas con Argon2id: cálculo del hash PHC y verificación.

use argon2::password_hash::{PasswordHash, PasswordHasher, PasswordVerifier, SaltString};
use argon2::{Algorithm, Argon2, Params, Version};
use rand_core::OsRng;
use vstd::prelude::*;

use crate::texto::{agregar_texto, copiar, empieza_por, longitud_utf8};

verus! {

#[verifier::external_type_specification]
#[verifier::external_body]
pub struct ExArgon2<'k>(Argon2<'k>);

/// Memoria de Argon2 en bloques de 1 KiB.
pub const MEMORIA_ARGON2: u32 = 19456;
/// Número de pasadas.
pub const ITERACIONES_ARGON2: u32 = 3;
/// Grado de paralelismo.
pub const PARALELISMO_ARGON2: u32 = 1;
/// Longitud del hash en bytes.
pub const LONGITUD_HASH_ARGON2: usize = 32;

/// Condiciones con las que `Params::new(m, t, p, Some(salida))` acepta los parámetros.
pub open spec fn parametros_validos(m: u32, t: u32, p: u32, salida: usize) -> bool {
    &&& m >= 8
    &&& m >= 8 * p
    &&& t >= 1
    &&& 1 <= p <= 0xFF_FFFF
    &&& 4 <= salida <= 0xFFFF_FFFF
}

/// La instancia que da `Argon2::new(Algorithm::Argon2id, Version::V0x13,
/// params)` con `params = Params::new(m, t, p, Some(salida))`: ni la una ni la
/// otra llamada dependen de nada más que de estos valores (el testigo de
/// capacidades de la CPU que guarda la instancia no lleva datos).
pub uninterp spec fn argon2id_con(m: u32, t: u32, p: u32, salida: usize) -> Argon2<'static>;

/// `argon2::Params::new(m, t, p, Some(salida))` y, si acepta los parámetros,
/// `Argon2::new(Algorithm::Argon2id, Version::V0x13, params)`, instancia sin
/// clave secreta. Se confía en lo que muestra su código: `Params::new` acepta
/// exactamente los parámetros de `parametros_validos`, y la instancia es la
/// que nombra `argon2id_con`. El error se devuelve como texto (`Display` de
/// `argon2::Error`).
#[verifier::external_body]
fn nueva_argon2id(m: u32, t: u32, p: u32, salida: usize) -> (r: Result<Argon2<'static>, String>)
    requires
        p <= 0x1FFF_FFFF,
    ensures
        match r {
            Ok(a) => parametros_validos(m, t, p, salida) && a == argon2id_con(m, t, p, salida),
            Err(_) => !parametros_validos(m, t, p, salida),
        },
{
    match Params::new(m, t, p, Some(salida)) {
        Ok(params) => Ok(Argon2::new(Algorithm::Argon2id, Version::V0x13, params)),
        Err(e) => Err(e.to_string()),
    }
}

/// `PasswordHash::new(texto)` analiza el texto como cadena PHC.
pub uninterp spec fn phc_valido(texto: Seq<char>) -> bool;

/// La contraseña verifica contra el hash PHC (`verify_password` de una
/// instancia de Argon2 sin clave secreta, que usa el algoritmo, la versión,
/// los parámetros y la sal del propio hash).
pub uninterp spec fn argon2_verifica(hash: Seq<char>, contrasena: Seq<char>) -> bool;

/// `SaltString::generate(&mut OsRng)` (sal aleatoria de 16 bytes),
/// `argon2.hash_password(contrasena.as_bytes(), &sal)` y `to_string()`, con
/// la instancia de la aplicación. Se confía en lo que muestra el código de
/// `argon2` y `password-hash`:
/// - con una sal de 16 bytes, una salida de 32 bytes y esos parámetros, el
///   cálculo solo falla si la contraseña ocupa más de `MAX_PWD_LEN`
///   (0xFFFF_FFFF) bytes (`verify_inputs`);
/// - la cadena PHC que sale se vuelve a analizar sin error y la misma
///   contraseña verifica contra ella (la verificación repite el cálculo con
///   los parámetros y la sal escritos en la cadena).
/// Nada se afirma de los bytes del hash, que dependen de la sal aleatoria.
#[verifier::external_body]
fn calcular_hash(argon2: &Argon2<'static>, contrasena: &str) -> (r: Result<String, String>)
    requires
        *argon2 == argon2id_con(MEMORIA_ARGON2, ITERACIONES_ARGON2, PARALELISMO_ARGON2, LONGITUD_HASH_ARGON2),
    ensures
        r is Ok <==> longitud_utf8(contrasena@) <= 0xFFFF_FFFF,
        r matches Ok(h) ==> phc_valido(h@) && argon2_verifica(h@, contrasena@),
{
    let sal = SaltString::generate(&mut OsRng);
    match argon2.hash_password(contrasena.as_bytes(), &sal) {
        Ok(h) => Ok(h.to_string()),
        Err(e) => Err(e.to_string()),
    }
}

/// `PasswordHash::new(almacenado)` y, si analiza, `argon2.verify_password`.
/// Se confía en que el análisis falla exactamente cuando `phc_valido` es
/// falso y en que el resultado de la verificación es `argon2_verifica`; la
/// instancia no tiene clave secreta, así que no influye en el resultado.
#[verifier::external_body]
fn verificar_argon2(argon2: &Argon2<'static>, almacenado: &str, candidata: &str) -> (r: Result<bool, String>)
    ensures
        match r {
            Ok(b) => phc_valido(almacenado@) && b == argon2_verifica(almacenado@, candidata@),
            Err(_) => !phc_valido(almacenado@),
        },
{
    match PasswordHash::new(almacenado) {
        Ok(h) => Ok(argon2.verify_password(candidata.as_bytes(), &h).is_ok()),
        Err(e) => Err(e.to_string()),
    }
}

/// Instancia Argon2id (versión 0x13) con los parámetros de la aplicación.
fn argon2_instance() -> (r: Result<Argon2<'static>, String>)
    ensures
        r == Ok::<Argon2<'static>, String>(
            argon2id_con(MEMORIA_ARGON2, ITERACIONES_ARGON2, PARALELISMO_ARGON2, LONGITUD_HASH_ARGON2),
        ),
{
    match nueva_argon2id(MEMORIA_ARGON2, ITERACIONES_ARGON2, PARALELISMO_ARGON2, LONGITUD_HASH_ARGON2) {
        Ok(a) => Ok(a),
        Err(e) => {
            let mut msg = copiar("Parámetros Argon2 inválidos: ");
            agregar_texto(&mut msg, e.as_str());
            Err(msg)
        },
    }
}

/// Resultado de verificar `contrasena` contra el hash `almacenado`:
/// `None` si el hash no es una cadena PHC válida.
pub open spec fn verificacion(almacenado: Seq<char>, contrasena: Seq<char>) -> Option<bool> {
    if phc_valido(almacenado) {
        Some(argon2_verifica(almacenado, contrasena))
    } else {
        None
    }
}

/// Resultado de `hash_password` según lo que devolvió el cálculo del hash:
/// la cadena PHC, o el error con su explicación delante.
pub fn resultado_hash(calculado: Result<String, String>) -> (r: Result<String, String>)
    ensures
        match calculado {
            Ok(h) => r == Ok::<String, String>(h),
            Err(e) => r matches Err(m) && m@ == "No se pudo calcular hash Argon2: "@ + e@,
        },
{
    match calculado {
        Ok(h) => Ok(h),
        Err(e) => {
            let mut msg = copiar("No se pudo calcular hash Argon2: ");
            agregar_texto(&mut msg, e.as_str());
            Err(msg)
        },
    }
}

/// Hash Argon2id (formato PHC) de la contraseña, con sal aleatoria. La
/// contraseña verifica siempre contra el hash que devuelve; solo falla si
/// la contraseña ocupa más de 0xFFFF_FFFF bytes.
pub fn hash_password(plain_password: &str) -> (r: Result<String, String>)
    ensures
        r is Ok <==> longitud_utf8(plain_password@) <= 0xFFFF_FFFF,
        match r {
            Ok(h) => verificacion(h@, plain_password@) == Some(true),
            Err(msg) => empieza_por(msg@, "No se pudo calcular hash Argon2: "@),
        },
{
    let argon2 = match argon2_instance() {
        Ok(a) => a,
        Err(e) => return Err(e),
    };
    let r = resultado_hash(calcular_hash(&argon2, plain_password));
    proof {
        if r is Err {
            let m = r->Err_0;
            assert(m@.take("No se pudo calcular hash Argon2: "@.len() as int) =~= "No se pudo calcular hash Argon2: "@);
        }
    }
    r
}

/// Comprueba una contraseña contra un hash PHC almacenado: `Ok(true)` si
/// coincide, `Ok(false)` si no, y error si el hash no se puede analizar.
pub fn verify_password(stored_hash: &str, candidate_password: &str) -> (r: Result<bool, String>)
    ensures
        match r {
            Ok(b) => verificacion(stored_hash@, candidate_password@) == Some(b),
            Err(msg) => verificacion(stored_hash@, candidate_password@) is None
                && empieza_por(msg@, "Hash de contraseña inválido: "@),
        },
{
    let argon2 = match argon2_instance() {
        Ok(a) => a,
        Err(e) => return Err(e),
    };
    match verificar_argon2(&argon2, stored_hash, candidate_password) {
        Ok(b) => Ok(b),
        Err(e) => {
            let mut msg = copiar("Hash de contraseña inválido: ");
            let ghost p = msg@;
            agregar_texto(&mut msg, e.as_str());
            assert(msg@.take(p.len() as int) == p);
            Err(msg)
        },
    }
}

} // verus!
