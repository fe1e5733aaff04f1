//! Código QR de verificación tributaria (AEAT, RD 1007/2023): URL de
//! notariado y su imagen en SVG o PNG.

use base64::{engine::general_purpose::STANDARD, Engine};
use image::{DynamicImage, GrayImage, ImageFormat};
use qrcodegen::{QrCode, QrCodeEcc};
use vstd::prelude::*;
use vstd::string::StrSliceExecFns;
use vstd::utf8::encode_utf8;

use crate::error::{AppError, AppResult};
use crate::texto::{
    agregar_texto, copiar, empieza_por, decimal, decimal_u128, digito, entero_ceros_i64, entero_con_ceros,
    escribir_decimal, longitud_utf8, prefijo_bytes, prefijo_de_bytes,
};

verus! {

// ─── Importes ────────────────────────────────────────────────────────────────

/// Importe en euros con dos decimales de una cantidad en céntimos
/// (`format!("{:.2}", centimos as f64 / 100.0)`), con `sep` como separador decimal.
pub open spec fn importe_con_separador(c: int, sep: char) -> Seq<char> {
    let a = if c < 0 { -c } else { c };
    let signo: Seq<char> = if c < 0 { seq!['-'] } else { Seq::empty() };
    signo + decimal((a / 100) as nat) + seq![sep] + seq![digito(((a % 100) / 10) as nat), digito((a % 10) as nat)]
}

/// Escribe un importe en céntimos como euros con dos decimales. Coincide con
/// el formato `{:.2}` del valor `centimos / 100.0` en punto flotante mientras
/// ese valor es exacto a la centésima (importes de hasta 10^13 euros).
pub fn escribir_importe(s: &mut String, centimos: i64, sep: char)
    ensures
        final(s)@ == old(s)@ + importe_con_separador(centimos as int, sep),
{
    if centimos < 0 {
        crate::texto::agregar_caracter(s, '-');
    }
    let a: u128 = if centimos < 0 { (0 - (centimos as i128)) as u128 } else { centimos as u128 };
    escribir_decimal(s, a / 100);
    crate::texto::agregar_caracter(s, sep);
    crate::texto::agregar_caracter(s, crate::texto::caracter_digito(((a % 100) / 10) as u8));
    crate::texto::agregar_caracter(s, crate::texto::caracter_digito((a % 10) as u8));
}

// ─── URL del QR ──────────────────────────────────────────────────────────────

/// `&hash[..hash.len().min(8)]`: el hash completo si ocupa 8 bytes o menos.
pub open spec fn hash_corto(hash: Seq<char>) -> Option<Seq<char>> {
    if longitud_utf8(hash) <= 8 {
        Some(hash)
    } else {
        prefijo_bytes(hash, 8)
    }
}

/// URL de verificación de la AEAT (notariado).
pub open spec fn url_notariado(
    nif: Seq<char>,
    prefijo: Seq<char>,
    numero: int,
    fecha: Seq<char>,
    total_centimos: int,
    hash_corto: Seq<char>,
) -> Seq<char> {
    "https://www2.agenciatributaria.gob.es/wlpl/TIKE-CONT/v1/qr/notariado?nif="@ + nif + "&numserie="@
        + prefijo + entero_con_ceros(numero, 4) + "&fecha="@ + fecha + "&importe="@
        + importe_con_separador(total_centimos, '.') + "&hash="@ + hash_corto
}

/// Construye la URL del QR de notariado:
/// `nif`, serie y número (`PREFIJO` + número con 4 cifras), fecha de emisión,
/// total en euros con 2 decimales y los 8 primeros caracteres del hash de la factura.
pub fn url_qr_notariado(
    nif: &str,
    prefijo: &str,
    numero: i64,
    fecha: &str,
    total_centimos: i64,
    hash_registro: &str,
) -> (r: String)
    requires
        hash_corto(hash_registro@) is Some,
    ensures
        r@ == url_notariado(nif@, prefijo@, numero as int, fecha@, total_centimos as int, hash_corto(hash_registro@)->0),
{
    let mut url = copiar("https://www2.agenciatributaria.gob.es/wlpl/TIKE-CONT/v1/qr/notariado?nif=");
    agregar_texto(&mut url, nif);
    agregar_texto(&mut url, "&numserie=");
    agregar_texto(&mut url, prefijo);
    agregar_texto(&mut url, entero_ceros_i64(numero, 4).as_str());
    agregar_texto(&mut url, "&fecha=");
    agregar_texto(&mut url, fecha);
    agregar_texto(&mut url, "&importe=");
    escribir_importe(&mut url, total_centimos, '.');
    agregar_texto(&mut url, "&hash=");
    let v = crate::texto::caracteres(hash_registro);
    let corto = match prefijo_de_bytes(hash_registro, 8) {
        Some(p) => p,
        None => copiar(hash_registro),
    };
    proof {
        lema_prefijo_total(hash_registro@);
    }
    agregar_texto(&mut url, corto.as_str());
    url
}

/// Si el texto ocupa `n <= 8` bytes, cortarlo a 8 bytes falla o lo deja entero.
proof fn lema_prefijo_total(s: Seq<char>)
    ensures
        prefijo_bytes(s, 8) is Some ==> (longitud_utf8(s) <= 8 ==> prefijo_bytes(s, 8)->0 == s),
{
    if prefijo_bytes(s, 8) is Some && longitud_utf8(s) <= 8 {
        lema_prefijo_exacto(s, 8);
    }
}

/// Un prefijo de `n` bytes de un texto de `n` bytes o menos es el texto entero.
proof fn lema_prefijo_exacto(s: Seq<char>, n: nat)
    requires
        prefijo_bytes(s, n) is Some,
        longitud_utf8(s) <= n,
    ensures
        prefijo_bytes(s, n)->0 == s,
        longitud_utf8(s) == n,
    decreases s.len(),
{
    if n == 0 {
        if s.len() > 0 {
            assert(longitud_utf8(s) >= crate::texto::bytes_utf8(s[0]));
        }
    } else if s.len() > 0 {
        let b = crate::texto::bytes_utf8(s[0]);
        lema_prefijo_exacto(s.drop_first(), (n - b) as nat);
        assert(seq![s[0]] + s.drop_first() == s);
    }
}

} // verus!

verus! {

// ─── Matriz del código QR ───────────────────────────────────────────────────

/// Módulos de un código QR: `modulos[y * tamano + x]` es `true` si el módulo
/// de la columna `x` y la fila `y` es oscuro.
pub struct MatrizQr {
    pub tamano: i32,
    pub modulos: Vec<bool>,
}

/// Código QR (corrección de errores media) que `qrcodegen` genera para un
/// texto: lado y módulos por filas, o `None` si el texto no cabe.
pub uninterp spec fn qr_medio(texto: Seq<char>) -> Option<(int, Seq<bool>)>;

/// `QrCode::encode_text(texto, QrCodeEcc::Medium)` y lectura de sus módulos
/// con `size` y `get_module`. Se confía en que el resultado es `qr_medio` del
/// texto y en lo que documenta `qrcodegen`: el lado está entre 21 y 177
/// módulos. El error devuelve el texto `Debug` de `DataTooLong`.
#[verifier::external_body]
fn codificar_qr(texto: &str) -> (r: Result<MatrizQr, String>)
    ensures
        match r {
            Ok(m) => qr_medio(texto@) == Some((m.tamano as int, m.modulos@)) && 21 <= m.tamano <= 177
                && m.modulos@.len() == m.tamano * m.tamano,
            Err(_) => qr_medio(texto@) is None,
        },
{
    match QrCode::encode_text(texto, QrCodeEcc::Medium) {
        Ok(qr) => {
            let n = qr.size();
            let modulos = (0..n).flat_map(|y| (0..n).map(move |x| (x, y))).map(|(x, y)| qr.get_module(x, y)).collect();
            Ok(MatrizQr { tamano: n, modulos })
        },
        Err(e) => Err(format!("{e:?}")),
    }
}

/// Bytes PNG (escala de grises de 8 bits) que `image` produce para una imagen.
pub uninterp spec fn png_gris(ancho: u32, alto: u32, pixeles: Seq<u8>) -> Seq<u8>;

/// `GrayImage::from_raw` + `DynamicImage::write_to(.., ImageFormat::Png)`
/// sobre un `Vec` en memoria. Se confía en lo que muestra el código de
/// `image` y `png`: `from_raw` acepta un búfer de `ancho * alto` bytes, y el
/// codificador PNG de una imagen `L8` solo falla si un lado es cero, si el
/// búfer no tiene el tamaño de la imagen o si el escritor falla, y escribir
/// en un `Vec` no falla. Los bytes son `png_gris` de la imagen.
#[verifier::external_body]
fn codificar_png_gris(ancho: u32, alto: u32, pixeles: Vec<u8>) -> (r: Result<Vec<u8>, String>)
    requires
        1 <= ancho,
        1 <= alto,
        pixeles@.len() == ancho * alto,
    ensures
        r is Ok,
        r matches Ok(b) ==> b@ == png_gris(ancho, alto, pixeles@),
{
    match GrayImage::from_raw(ancho, alto, pixeles) {
        Some(img) => {
            let mut png: Vec<u8> = Vec::new();
            match DynamicImage::from(img).write_to(&mut std::io::Cursor::new(&mut png), ImageFormat::Png) {
                Ok(()) => Ok(png),
                Err(e) => Err(e.to_string()),
            }
        },
        None => Err(String::new()),
    }
}

/// Símbolo Base64 (alfabeto estándar de RFC 4648) de un valor de 6 bits.
pub open spec fn simbolo_base64(v: int) -> char {
    if v < 26 {
        (65 + v) as char
    } else if v < 52 {
        (97 + v - 26) as char
    } else if v < 62 {
        (48 + v - 52) as char
    } else if v == 62 {
        '+'
    } else {
        '/'
    }
}

/// Codificación Base64 estándar (RFC 4648, con relleno `=`): cada grupo de
/// tres bytes da cuatro símbolos de 6 bits; un grupo final de uno o dos
/// bytes se completa con ceros y se rellena con `=`.
pub open spec fn base64_estandar(d: Seq<u8>) -> Seq<char>
    decreases d.len(),
{
    if d.len() == 0 {
        Seq::empty()
    } else if d.len() == 1 {
        let a = d[0] as int;
        seq![simbolo_base64(a / 4), simbolo_base64((a % 4) * 16), '=', '=']
    } else if d.len() == 2 {
        let a = d[0] as int;
        let b = d[1] as int;
        seq![simbolo_base64(a / 4), simbolo_base64((a % 4) * 16 + b / 16), simbolo_base64((b % 16) * 4), '=']
    } else {
        let a = d[0] as int;
        let b = d[1] as int;
        let c = d[2] as int;
        seq![
            simbolo_base64(a / 4),
            simbolo_base64((a % 4) * 16 + b / 16),
            simbolo_base64((b % 16) * 4 + c / 64),
            simbolo_base64(c % 64),
        ] + base64_estandar(d.skip(3))
    }
}

/// `base64::engine::general_purpose::STANDARD.encode(datos)`. Se confía en
/// que el resultado es la codificación `base64_estandar` de los bytes.
#[verifier::external_body]
fn a_base64(datos: &Vec<u8>) -> (r: String)
    ensures
        r@ == base64_estandar(datos@),
{
    STANDARD.encode(datos)
}

/// Margen blanco alrededor del código, en módulos.
pub const BORDE_QR: u32 = 4;
/// Píxeles por módulo en la imagen PNG.
pub const ESCALA_PNG: u32 = 8;
/// Unidades por módulo en el SVG.
pub const MODULO_SVG: u32 = 4;

/// Lado de la imagen PNG en píxeles.
pub open spec fn lado_png(n: int) -> int {
    (n + 2 * BORDE_QR) * ESCALA_PNG
}

/// Valor del píxel `(px, py)`: negro si cae en un módulo oscuro, blanco si no.
pub open spec fn pixel_qr(n: int, modulos: Seq<bool>, px: int, py: int) -> u8 {
    let x = px / (ESCALA_PNG as int) - BORDE_QR;
    let y = py / (ESCALA_PNG as int) - BORDE_QR;
    if 0 <= x < n && 0 <= y < n && modulos[y * n + x] {
        0
    } else {
        255
    }
}

/// Píxeles de la imagen del código, por filas.
pub open spec fn imagen_qr(n: int, modulos: Seq<bool>) -> Seq<u8> {
    let lado = lado_png(n);
    Seq::new((lado * lado) as nat, |i: int| pixel_qr(n, modulos, i % lado, i / lado))
}

proof fn lema_indice_modulo(n: int, x: int, y: int)
    by (nonlinear_arith)
    requires
        0 <= x < n,
        0 <= y < n,
        n <= 177,
    ensures
        0 <= y * n,
        0 <= y * n + x < n * n,
        n * n <= 31329,
{
}

proof fn lema_division_fila(i: int, lado: int)
    by (nonlinear_arith)
    requires
        0 <= i,
        0 < lado,
    ensures
        i == (i / lado) * lado + i % lado,
        0 <= i % lado < lado,
        0 <= i / lado,
{
}

/// Dibuja el código con su margen blanco, un bloque de 8×8 píxeles por módulo.
fn rasterizar(m: &MatrizQr) -> (p: Vec<u8>)
    requires
        21 <= m.tamano <= 177,
        m.modulos@.len() == m.tamano * m.tamano,
    ensures
        p@ == imagen_qr(m.tamano as int, m.modulos@),
{
    let n = m.tamano as u32;
    let lado: u32 = (n + 2 * BORDE_QR) * ESCALA_PNG;
    assert(lado * lado <= 1480 * 1480) by (nonlinear_arith)
        requires
            lado <= 1480;
    let total: u32 = lado * lado;
    let mut p: Vec<u8> = Vec::new();
    let mut i: u32 = 0;
    while i < total
        invariant
            n == m.tamano,
            21 <= n <= 177,
            m.modulos@.len() == n * n,
            lado == (n + 2 * BORDE_QR) * ESCALA_PNG,
            total == lado * lado,
            i <= total,
            p@ == imagen_qr(n as int, m.modulos@).take(i as int),
        decreases total - i,
    {
        let px = i % lado;
        let py = i / lado;
        proof {
            lema_division_fila(i as int, lado as int);
        }
        let bx = px / ESCALA_PNG;
        let by = py / ESCALA_PNG;
        let mut v: u8 = 255;
        if bx >= BORDE_QR && by >= BORDE_QR && bx - BORDE_QR < n && by - BORDE_QR < n {
            let x = bx - BORDE_QR;
            let y = by - BORDE_QR;
            proof {
                lema_indice_modulo(n as int, x as int, y as int);
            }
            let idx = (y * n + x) as usize;
            if m.modulos[idx] {
                v = 0;
            }
        }
        assert(v == pixel_qr(n as int, m.modulos@, px as int, py as int));
        p.push(v);
        assert(imagen_qr(n as int, m.modulos@).take(i + 1) == imagen_qr(n as int, m.modulos@).take(i as int).push(v));
        i = i + 1;
    }
    assert(imagen_qr(n as int, m.modulos@).take(total as int) == imagen_qr(n as int, m.modulos@));
    p
}

/// `Data URL` PNG de un código QR.
pub open spec fn data_url_png(n: int, modulos: Seq<bool>) -> Seq<char> {
    let lado = lado_png(n);
    "data:image/png;base64,"@ + base64_estandar(png_gris(lado as u32, lado as u32, imagen_qr(n, modulos)))
}

/// Data URL de la imagen según el resultado de su codificación PNG: los
/// bytes en Base64 tras `data:image/png;base64,`, o el error de codificación.
pub fn data_url_de_png(png: Result<Vec<u8>, String>) -> (r: AppResult<String>)
    ensures
        match png {
            Ok(b) => r matches Ok(s) && s@ == "data:image/png;base64,"@ + base64_estandar(b@),
            Err(e) => r matches Err(AppError::Internal(m)) && m@ == "Error codificando QR a PNG: "@ + e@,
        },
{
    match png {
        Ok(b) => {
            let mut s = copiar("data:image/png;base64,");
            agregar_texto(&mut s, a_base64(&b).as_str());
            Ok(s)
        },
        Err(e) => {
            let mut msg = copiar("Error codificando QR a PNG: ");
            agregar_texto(&mut msg, e.as_str());
            Err(AppError::Internal(msg))
        },
    }
}

/// Genera el código QR como imagen PNG (8 píxeles por módulo y 4 módulos de
/// margen) y lo devuelve como Data URL (`data:image/png;base64,...`). Falla
/// solo si el texto no cabe en un código QR.
pub fn qr_to_png_data_url(data: &str) -> (r: AppResult<String>)
    ensures
        match qr_medio(data@) {
            Some((n, m)) => r matches Ok(s) && s@ == data_url_png(n, m),
            None => r matches Err(AppError::Internal(msg)) && empieza_por(msg@, "Error generando QR: "@),
        },
{
    let m = match codificar_qr(data) {
        Ok(m) => m,
        Err(e) => {
            let mut msg = copiar("Error generando QR: ");
            let ghost p = msg@;
            agregar_texto(&mut msg, e.as_str());
            assert(msg@.take(p.len() as int) == p);
            return Err(AppError::Internal(msg));
        },
    };
    let n = m.tamano as u32;
    let lado: u32 = (n + 2 * BORDE_QR) * ESCALA_PNG;
    let pixeles = rasterizar(&m);
    assert(pixeles@.len() == lado * lado);
    let png = codificar_png_gris(lado, lado, pixeles);
    data_url_de_png(png)
}

} // verus!

verus! {

/// QR legal de una factura: la imagen como Data URL y la URL que codifica.
pub struct QrLegalResponse {
    pub svg_data_url: String,
    pub url: String,
}

/// `Data URL` del documento SVG de un código QR: sus bytes UTF-8 en Base64.
pub open spec fn data_url_svg(n: int, modulos: Seq<bool>) -> Seq<char> {
    "data:image/svg+xml;base64,"@ + base64_estandar(encode_utf8(svg_qr(n, modulos)))
}

/// QR legal de una factura a partir de sus datos: la URL de verificación de
/// la AEAT y su código QR en SVG como Data URL
/// (`data:image/svg+xml;base64,...`). Falla solo si la URL no cabe en un
/// código QR.
pub fn qr_legal(
    nif: &str,
    prefijo: &str,
    numero: i64,
    fecha: &str,
    total_centimos: i64,
    hash_registro: &str,
) -> (r: AppResult<QrLegalResponse>)
    requires
        hash_corto(hash_registro@) is Some,
    ensures
        ({
            let url = url_notariado(nif@, prefijo@, numero as int, fecha@, total_centimos as int, hash_corto(hash_registro@)->0);
            match qr_medio(url) {
                Some((n, m)) => r matches Ok(q) && q.url@ == url && q.svg_data_url@ == data_url_svg(n, m),
                None => r matches Err(AppError::Internal(msg)) && empieza_por(msg@, "Error generando QR: "@),
            }
        }),
{
    let url = url_qr_notariado(nif, prefijo, numero, fecha, total_centimos, hash_registro);
    match qr_to_svg(url.as_str()) {
        Ok(svg) => {
            let bytes = svg.as_str().as_bytes_vec();
            let mut svg_data_url = copiar("data:image/svg+xml;base64,");
            agregar_texto(&mut svg_data_url, a_base64(&bytes).as_str());
            Ok(QrLegalResponse { svg_data_url, url })
        },
        Err(e) => Err(e),
    }
}

/// Rectángulo negro del módulo `i` (fila `i / n`, columna `i % n`).
pub open spec fn rect_modulo(n: int, i: int) -> Seq<char> {
    let px = (i % n + BORDE_QR) * MODULO_SVG;
    let py = (i / n + BORDE_QR) * MODULO_SVG;
    "<rect x=\""@ + decimal(px as nat) + "\" y=\""@ + decimal(py as nat) + "\" width=\""@
        + decimal(MODULO_SVG as nat) + "\" height=\""@ + decimal(MODULO_SVG as nat)
        + "\" fill=\"black\"/>"@
}

/// Rectángulos de los módulos oscuros entre los `k` primeros, por filas.
pub open spec fn rects_modulos(n: int, modulos: Seq<bool>, k: nat) -> Seq<char>
    decreases k,
{
    if k == 0 {
        Seq::empty()
    } else {
        rects_modulos(n, modulos, (k - 1) as nat) + if modulos[k - 1] {
            rect_modulo(n, k - 1)
        } else {
            Seq::empty()
        }
    }
}

/// Documento SVG del código: fondo blanco y un cuadrado de 4 unidades por
/// módulo oscuro, con 4 módulos de margen.
pub open spec fn svg_qr(n: int, modulos: Seq<bool>) -> Seq<char> {
    let dim = ((n + 2 * BORDE_QR) * MODULO_SVG) as nat;
    "<svg xmlns=\"http://www.w3.org/2000/svg\" version=\"1.1\" viewBox=\"0 0 "@ + decimal(dim) + " "@
        + decimal(dim) + "\" shape-rendering=\"crispEdges\">"@ + "<rect width=\""@ + decimal(dim)
        + "\" height=\""@ + decimal(dim) + "\" fill=\"white\"/>"@ + rects_modulos(n, modulos, (n * n) as nat)
        + "</svg>"@
}

proof fn lema_division_modulo(i: int, n: int)
    by (nonlinear_arith)
    requires
        0 <= i < n * n,
        0 < n <= 177,
    ensures
        0 <= i % n < n,
        0 <= i / n < n,
        n * n <= 31329,
{
}

/// Genera el código QR como documento SVG.
pub fn qr_to_svg(data: &str) -> (r: AppResult<String>)
    ensures
        match r {
            Ok(s) => qr_medio(data@) matches Some((n, m)) && s@ == svg_qr(n, m),
            Err(AppError::Internal(msg)) => qr_medio(data@) is None && empieza_por(msg@, "Error generando QR: "@),
            Err(_) => false,
        },
{
    let m = match codificar_qr(data) {
        Ok(m) => m,
        Err(e) => {
            let mut msg = copiar("Error generando QR: ");
            let ghost p = msg@;
            agregar_texto(&mut msg, e.as_str());
            assert(msg@.take(p.len() as int) == p);
            return Err(AppError::Internal(msg));
        },
    };
    let n = m.tamano as u32;
    let dim: u32 = (n + 2 * BORDE_QR) * MODULO_SVG;
    let mut svg = copiar("<svg xmlns=\"http://www.w3.org/2000/svg\" version=\"1.1\" viewBox=\"0 0 ");
    agregar_texto(&mut svg, decimal_u128(dim as u128).as_str());
    agregar_texto(&mut svg, " ");
    agregar_texto(&mut svg, decimal_u128(dim as u128).as_str());
    agregar_texto(&mut svg, "\" shape-rendering=\"crispEdges\">");
    agregar_texto(&mut svg, "<rect width=\"");
    agregar_texto(&mut svg, decimal_u128(dim as u128).as_str());
    agregar_texto(&mut svg, "\" height=\"");
    agregar_texto(&mut svg, decimal_u128(dim as u128).as_str());
    agregar_texto(&mut svg, "\" fill=\"white\"/>");
    let ghost inicio = svg@;
    let total = m.modulos.len();
    let mut i: usize = 0;
    while i < total
        invariant
            n == m.tamano,
            21 <= n <= 177,
            total == m.modulos@.len(),
            total == n * n,
            i <= total,
            svg@ == inicio + rects_modulos(n as int, m.modulos@, i as nat),
        decreases total - i,
    {
        if m.modulos[i] {
            proof {
                lema_division_modulo(i as int, n as int);
            }
            let iu = i as u32;
            let px: u32 = (iu % n + BORDE_QR) * MODULO_SVG;
            let py: u32 = (iu / n + BORDE_QR) * MODULO_SVG;
            agregar_texto(&mut svg, "<rect x=\"");
            agregar_texto(&mut svg, decimal_u128(px as u128).as_str());
            agregar_texto(&mut svg, "\" y=\"");
            agregar_texto(&mut svg, decimal_u128(py as u128).as_str());
            agregar_texto(&mut svg, "\" width=\"");
            agregar_texto(&mut svg, decimal_u128(MODULO_SVG as u128).as_str());
            agregar_texto(&mut svg, "\" height=\"");
            agregar_texto(&mut svg, decimal_u128(MODULO_SVG as u128).as_str());
            agregar_texto(&mut svg, "\" fill=\"black\"/>");
        }
        i = i + 1;
    }
    agregar_texto(&mut svg, "</svg>");
    Ok(svg)
}

} // verus!
