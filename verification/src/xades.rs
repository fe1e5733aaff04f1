//! Firma XAdES de Facturae: comprobaciones de la entrada y del certificado
//! PKCS#12. La firma en sí aún no está implementada.

use std::path::Path;
use vstd::prelude::*;

use crate::texto::{agregar_caracter, caracteres, copiar, solo_espacios, texto_igual, vacio_tras_recortar};

verus! {

/// Certificado con el que se firma y su contraseña.
pub struct XadesSignInput {
    pub cert_path: String,
    pub cert_password: String,
}

/// Errores de la firma XAdES.
pub enum ErrorFirma {
    Validation(String),
    Certificate(String),
    Io(String),
    NotImplemented(String),
}

/// Lo que `std` documenta de una extensión `e` de la ruta `ruta`: es la parte
/// del nombre del fichero que sigue a su último punto, así que no contiene
/// ni puntos ni `/`, y el punto seguido de `e` aparece en la ruta (el nombre
/// del fichero es un tramo de ella).
pub open spec fn extension_en_ruta(ruta: Seq<char>, e: Seq<char>) -> bool {
    &&& forall|i: int| 0 <= i < e.len() ==> e[i] != '.' && e[i] != '/'
    &&& exists|k: int| 0 <= k && k + e.len() + 1 <= ruta.len()
        && #[trigger] ruta.subrange(k, k + e.len() + 1) == seq!['.'] + e
}

/// `Path::new(ruta).extension()` convertida a texto. Se confía en lo que
/// documenta `std` (`extension_en_ruta`). No se afirma dónde queda la
/// extensión dentro de la ruta (`Path` descarta al final un `/` o un `/.`,
/// de modo que `cert.p12/` tiene la extensión `p12`) ni cuándo no hay
/// extensión: eso depende de cómo la plataforma separa los componentes.
#[verifier::external_body]
fn extension_de(ruta: &str) -> (r: Option<String>)
    ensures
        r matches Some(e) ==> extension_en_ruta(ruta@, e@),
{
    Path::new(ruta).extension().and_then(|v| v.to_str()).map(|v| v.to_string())
}

/// Minúscula ASCII de un carácter (`to_ascii_lowercase`).
pub open spec fn minuscula_ascii(c: char) -> char {
    if 'A' <= c && c <= 'Z' {
        ((c as u32) + 32) as char
    } else {
        c
    }
}

/// `s.to_ascii_lowercase()`.
pub open spec fn minusculas_ascii(s: Seq<char>) -> Seq<char> {
    s.map_values(|c: char| minuscula_ascii(c))
}

fn minuscula_ascii_exec(c: char) -> (r: char)
    ensures
        r == minuscula_ascii(c),
{
    if 'A' <= c && c <= 'Z' {
        let u = (c as u32) + 32;
        let b = u as u8;
        let r = b as char;
        assert(r as u32 == u);
        r
    } else {
        c
    }
}

/// Copia de `s` con las letras ASCII en minúscula.
pub fn a_minusculas_ascii(s: &str) -> (r: String)
    ensures
        r@ == minusculas_ascii(s@),
{
    let v = caracteres(s);
    let mut r = String::new();
    let mut i: usize = 0;
    while i < v.len()
        invariant
            v@ == s@,
            i <= v.len(),
            r@ == minusculas_ascii(v@.take(i as int)),
        decreases v.len() - i,
    {
        agregar_caracter(&mut r, minuscula_ascii_exec(v[i]));
        assert(minusculas_ascii(v@.take(i + 1)) =~= minusculas_ascii(v@.take(i as int)).push(minuscula_ascii(v@[i as int])));
        i = i + 1;
    }
    assert(v@.take(v.len() as int) == v@);
    r
}

/// Mensaje del certificado que no está en el disco.
pub open spec fn msg_sin_certificado(ruta: Seq<char>) -> Seq<char> {
    "No existe el certificado en la ruta: "@ + ruta
}

/// Mensaje del certificado con extensión no admitida.
pub open spec fn msg_extension() -> Seq<char> {
    "El certificado debe tener extensión .p12 o .pfx"@
}

/// La extensión (tal como la da `Path::extension`) es `p12` o `pfx`, sin
/// distinguir mayúsculas.
pub open spec fn extension_valida(extension: Option<Seq<char>>) -> bool {
    match extension {
        Some(e) => minusculas_ascii(e) == "p12"@ || minusculas_ascii(e) == "pfx"@,
        None => false,
    }
}

pub open spec fn vista_extension(extension: Option<&str>) -> Option<Seq<char>> {
    match extension {
        Some(e) => Some(e@),
        None => None,
    }
}

/// Resultado de comprobar el certificado.
pub open spec fn resultado_certificado(r: Result<(), ErrorFirma>, ruta: Seq<char>, existe: bool, extension: Option<Seq<char>>) -> bool {
    if !existe {
        r matches Err(ErrorFirma::Certificate(m)) && m@ == msg_sin_certificado(ruta)
    } else if !extension_valida(extension) {
        r matches Err(ErrorFirma::Certificate(m)) && m@ == msg_extension()
    } else {
        r is Ok
    }
}

/// Comprueba el certificado con lo que dijo el sistema: si el fichero
/// existe y la extensión de su ruta.
pub fn comprobar_certificado(cert_path: &str, existe: bool, extension: Option<&str>) -> (r: Result<(), ErrorFirma>)
    ensures
        resultado_certificado(r, cert_path@, existe, vista_extension(extension)),
{
    if !existe {
        let mut m = copiar("No existe el certificado en la ruta: ");
        crate::texto::agregar_texto(&mut m, cert_path);
        return Err(ErrorFirma::Certificate(m));
    }
    let minusculas = match extension {
        Some(e) => a_minusculas_ascii(e),
        None => String::new(),
    };
    proof {
        reveal_strlit("p12");
        reveal_strlit("pfx");
        if extension is None {
            assert(minusculas@.len() == 0);
        }
    }
    if !texto_igual(minusculas.as_str(), "p12") && !texto_igual(minusculas.as_str(), "pfx") {
        return Err(ErrorFirma::Certificate(copiar("El certificado debe tener extensión .p12 o .pfx")));
    }
    Ok(())
}

/// Comprueba la ruta del certificado: debe existir (`existe`, lo que dijo
/// el sistema de ficheros) y tener extensión `.p12` o `.pfx`, sin distinguir
/// mayúsculas. La extensión la da `Path::extension`.
pub fn validate_certificate_path(cert_path: &str, existe: bool) -> (r: Result<(), ErrorFirma>)
    ensures
        exists|extension: Option<Seq<char>>| #[trigger] resultado_certificado(r, cert_path@, existe, extension)
            && (extension matches Some(e) ==> extension_en_ruta(cert_path@, e)),
{
    let extension = extension_de(cert_path);
    let r = match &extension {
        Some(e) => comprobar_certificado(cert_path, existe, Some(e.as_str())),
        None => comprobar_certificado(cert_path, existe, None),
    };
    proof {
        let v = match extension {
            Some(e) => Some(e@),
            None => None,
        };
        assert(resultado_certificado(r, cert_path@, existe, v));
    }
    r
}

/// Mensaje de la firma pendiente de implementar.
pub open spec fn msg_pendiente() -> Seq<char> {
    "Firma XAdES pendiente: parseo PKCS#12, creación de SignedProperties, SignedInfo y Reference para Facturae 3.2.x"@
}

/// Resultado de la firma: errores de validación de la entrada, del
/// certificado y de su lectura, en ese orden; si todo va bien, la firma aún
/// no está implementada.
pub open spec fn resultado_firma(
    r: Result<String, ErrorFirma>,
    xml: Seq<char>,
    input: XadesSignInput,
    existe: bool,
    extension: Option<Seq<char>>,
    lectura: Result<(), String>,
) -> bool {
    if solo_espacios(xml) {
        r matches Err(ErrorFirma::Validation(m)) && m@ == "El XML a firmar no puede estar vacío"@
    } else if solo_espacios(input.cert_password@) {
        r matches Err(ErrorFirma::Validation(m)) && m@ == "La contraseña del certificado es obligatoria"@
    } else if !existe {
        r matches Err(ErrorFirma::Certificate(m)) && m@ == msg_sin_certificado(input.cert_path@)
    } else if !extension_valida(extension) {
        r matches Err(ErrorFirma::Certificate(m)) && m@ == msg_extension()
    } else {
        match lectura {
            Err(e) => r matches Err(ErrorFirma::Io(m)) && m@ == e@,
            Ok(()) => r matches Err(ErrorFirma::NotImplemented(m)) && m@ == msg_pendiente(),
        }
    }
}

/// Firma XAdES con lo que dijo el sistema de ficheros: si el certificado
/// existe, la extensión de su ruta y el resultado de leerlo.
pub fn firmar_con(
    unsigned_xml: &str,
    input: &XadesSignInput,
    existe: bool,
    extension: Option<&str>,
    lectura: Result<(), String>,
) -> (r: Result<String, ErrorFirma>)
    ensures
        resultado_firma(r, unsigned_xml@, *input, existe, vista_extension(extension), lectura),
{
    if vacio_tras_recortar(unsigned_xml) {
        return Err(ErrorFirma::Validation(copiar("El XML a firmar no puede estar vacío")));
    }
    if vacio_tras_recortar(input.cert_password.as_str()) {
        return Err(ErrorFirma::Validation(copiar("La contraseña del certificado es obligatoria")));
    }
    match comprobar_certificado(input.cert_path.as_str(), existe, extension) {
        Ok(()) => {},
        Err(e) => return Err(e),
    }
    match lectura {
        Ok(()) => {},
        Err(e) => return Err(ErrorFirma::Io(e)),
    }
    Err(
        ErrorFirma::NotImplemented(
            copiar(
                "Firma XAdES pendiente: parseo PKCS#12, creación de SignedProperties, SignedInfo y Reference para Facturae 3.2.x",
            ),
        ),
    )
}

/// Firma XAdES del XML: comprueba que el XML y la contraseña no estén en
/// blanco, la ruta del certificado (la extensión la da `Path::extension`) y
/// su lectura (`lectura`, el resultado de leer el fichero); si todo va
/// bien, la firma aún no está implementada.
pub fn sign_xml_xades(
    unsigned_xml: &str,
    input: &XadesSignInput,
    existe: bool,
    lectura: Result<(), String>,
) -> (r: Result<String, ErrorFirma>)
    ensures
        exists|extension: Option<Seq<char>>| #[trigger] resultado_firma(r, unsigned_xml@, *input, existe, extension, lectura)
            && (extension matches Some(e) ==> extension_en_ruta(input.cert_path@, e)),
{
    let extension = extension_de(input.cert_path.as_str());
    let r = match &extension {
        Some(e) => firmar_con(unsigned_xml, input, existe, Some(e.as_str()), lectura),
        None => firmar_con(unsigned_xml, input, existe, None, lectura),
    };
    proof {
        let v = match extension {
            Some(e) => Some(e@),
            None => None,
        };
        assert(resultado_firma(r, unsigned_xml@, *input, existe, v, lectura));
    }
    r
}

} // verus!
