//! Base de datos SQLite: URL de conexión y órdenes `PRAGMA` de seguridad que
//! se ejecutan al abrir el pool.

use vstd::prelude::*;

use crate::texto::{agregar_texto, copiar, reemplazar_todas, solo_espacios, sustituir_todas, vacio_tras_recortar};

verus! {

/// `sqlite://` seguido de la ruta con las barras invertidas cambiadas por `/`.
pub open spec fn url_sqlite(ruta: Seq<char>) -> Seq<char> {
    "sqlite://"@ + sustituir_todas(ruta, "\\"@, "/"@)
}

/// URL de conexión SQLite para la ruta (ya convertida a texto) de la base de datos.
pub fn sqlite_url(database_path: &str) -> (r: String)
    ensures
        r@ == url_sqlite(database_path@),
{
    proof {
        reveal_strlit("\\");
    }
    let normalizada = reemplazar_todas(database_path, "\\", "/");
    let mut r = copiar("sqlite://");
    agregar_texto(&mut r, normalizada.as_str());
    r
}

/// `PRAGMA key = '...';` con las comillas simples de la clave duplicadas.
pub open spec fn pragma_clave(clave: Seq<char>) -> Seq<char> {
    "PRAGMA key = '"@ + sustituir_todas(clave, "'"@, "''"@) + "';"@
}

/// Órdenes `PRAGMA` de seguridad, en el orden en que se ejecutan:
/// `trusted_schema = OFF` siempre y, si hay una clave que no sea solo
/// espacios, la clave de SQLCipher y su modo de compatibilidad.
pub open spec fn pragmas_seguridad(clave: Option<Seq<char>>) -> Seq<Seq<char>> {
    let base = seq!["PRAGMA trusted_schema = OFF;"@];
    match clave {
        Some(k) => if solo_espacios(k) {
            base
        } else {
            base + seq![pragma_clave(k), "PRAGMA cipher_compatibility = 4;"@]
        },
        None => base,
    }
}

/// Vista de una clave opcional.
pub open spec fn vista_clave(clave: Option<&str>) -> Option<Seq<char>> {
    match clave {
        Some(k) => Some(k@),
        None => None,
    }
}

/// Órdenes `PRAGMA` que `apply_security_pragmas` ejecuta sobre el pool.
pub fn security_pragmas(encryption_key: Option<&str>) -> (r: Vec<String>)
    ensures
        crate::texto::vistas(r@) == pragmas_seguridad(vista_clave(encryption_key)),
{
    let mut r: Vec<String> = Vec::new();
    r.push(copiar("PRAGMA trusted_schema = OFF;"));
    match encryption_key {
        Some(k) => {
            if !vacio_tras_recortar(k) {
                proof {
                    reveal_strlit("'");
                }
                let escapada = reemplazar_todas(k, "'", "''");
                let mut p = copiar("PRAGMA key = '");
                agregar_texto(&mut p, escapada.as_str());
                agregar_texto(&mut p, "';");
                r.push(p);
                r.push(copiar("PRAGMA cipher_compatibility = 4;"));
            }
        },
        None => {},
    }
    assert(crate::texto::vistas(r@) =~= pragmas_seguridad(vista_clave(encryption_key)));
    r
}

} // verus!
