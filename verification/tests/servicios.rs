use base64::engine::general_purpose::STANDARD;
use base64::Engine;
use factelo::aeat::{endpoint_aeat, entorno_aeat, resultado_envio};
use factelo::auth::{hash_password, resultado_hash, verify_password};
use factelo::db::{security_pragmas, sqlite_url};
use factelo::error::AppError;
use factelo::keychain::{clave_descifrada, comprobar_blob_cifrado, generate_random_key, load_key, nueva_clave, KEY_BLOB_FILE};
use factelo::qr::{data_url_de_png, qr_legal, qr_to_png_data_url, qr_to_svg, url_qr_notariado};
use factelo::xades::{
    a_minusculas_ascii, comprobar_certificado, firmar_con, sign_xml_xades, validate_certificate_path, ErrorFirma,
    XadesSignInput,
};
use image::{DynamicImage, GrayImage, ImageFormat, Luma};
use qrcodegen::{QrCode, QrCodeEcc};

#[test]
fn entorno_y_endpoint_de_aeat() {
    assert_eq!(entorno_aeat(Some("produccion"), Some("sandbox".to_string())), "produccion");
    assert_eq!(entorno_aeat(None, Some("produccion".to_string())), "produccion");
    assert_eq!(entorno_aeat(None, None), "sandbox");
    assert_eq!(endpoint_aeat("produccion"), "https://verifactu.aeat.es/api/facturae");
    assert_eq!(endpoint_aeat("Produccion"), "https://verifactu-sandbox.aeat.es/api/facturae");
}

#[test]
fn respuesta_de_aeat() {
    assert_eq!(resultado_envio(Ok((200, "ok".to_string()))), Ok("ok".to_string()));
    assert_eq!(resultado_envio(Ok((299, String::new()))), Ok(String::new()));
    assert_eq!(resultado_envio(Ok((300, "x".to_string()))), Err("Error AEAT: 300".to_string()));
    assert_eq!(resultado_envio(Ok((199, "x".to_string()))), Err("Error AEAT: 199".to_string()));
    assert_eq!(resultado_envio(Err("timeout".to_string())), Err("Error HTTP: timeout".to_string()));
}

#[test]
fn url_y_pragmas_de_sqlite() {
    assert_eq!(sqlite_url("C:\\datos\\factelo.db"), "sqlite://C:/datos/factelo.db");
    assert_eq!(sqlite_url("/home/u/f.db"), "sqlite:///home/u/f.db");
    assert_eq!(security_pragmas(None), vec!["PRAGMA trusted_schema = OFF;".to_string()]);
    assert_eq!(security_pragmas(Some("  ")), vec!["PRAGMA trusted_schema = OFF;".to_string()]);
    assert_eq!(
        security_pragmas(Some("ab'c")),
        vec![
            "PRAGMA trusted_schema = OFF;".to_string(),
            "PRAGMA key = 'ab''c';".to_string(),
            "PRAGMA cipher_compatibility = 4;".to_string(),
        ]
    );
}

#[test]
fn claves_de_la_base_de_datos() {
    assert_eq!(KEY_BLOB_FILE, ".fks");
    assert_eq!(generate_random_key().len(), 32);
    let (raw, h) = nueva_clave();
    assert_eq!(raw.len(), 32);
    assert_eq!(h, hex::encode(&raw));
    let bytes: Vec<u8> = (0u8..32).collect();
    assert_eq!(load_key(&bytes), Ok(hex::encode(&bytes)));
    assert_eq!(
        load_key(&vec![1, 2, 3]),
        Err("La clave de base de datos tiene una longitud inesperada (3 bytes).".to_string())
    );
    assert_eq!(
        clave_descifrada(&vec![0; 31]),
        Err("La clave de base de datos tiene una longitud inesperada (31 bytes). El fichero puede estar corrupto."
            .to_string())
    );
    assert_eq!(clave_descifrada(&bytes), Ok(hex::encode(&bytes)));
    assert_eq!(
        comprobar_blob_cifrado(&vec![]),
        Err("El fichero de clave de base de datos está vacío o corrupto.".to_string())
    );
    assert_eq!(comprobar_blob_cifrado(&vec![9]), Ok(()));
}

#[test]
fn contrasena_verifica_contra_su_hash() {
    let h = hash_password("secreto correcto").unwrap();
    assert!(h.starts_with("$argon2id$v=19$m=19456,t=3,p=1$"));
    assert_eq!(verify_password(&h, "secreto correcto"), Ok(true));
}

#[test]
fn contrasena_incorrecta_no_verifica() {
    let h = hash_password("uno").unwrap();
    assert_eq!(verify_password(&h, "dos"), Ok(false));
}

#[test]
fn hash_almacenado_invalido() {
    let e = verify_password("no es un hash", "x").unwrap_err();
    assert!(e.starts_with("Hash de contraseña inválido: "), "{e}");
}

fn firma(password: &str, ruta: &str) -> XadesSignInput {
    XadesSignInput { cert_path: ruta.to_string(), cert_password: password.to_string() }
}

fn texto(e: ErrorFirma) -> (&'static str, String) {
    match e {
        ErrorFirma::Validation(m) => ("validation", m),
        ErrorFirma::Certificate(m) => ("certificate", m),
        ErrorFirma::Io(m) => ("io", m),
        ErrorFirma::NotImplemented(m) => ("pendiente", m),
    }
}

#[test]
fn comprobaciones_de_la_firma_xades() {
    let r = sign_xml_xades("  ", &firma("x", "c.p12"), true, Ok(()));
    assert_eq!(texto(r.unwrap_err()), ("validation", "El XML a firmar no puede estar vacío".to_string()));
    let r = sign_xml_xades("<a/>", &firma(" ", "c.p12"), true, Ok(()));
    assert_eq!(texto(r.unwrap_err()), ("validation", "La contraseña del certificado es obligatoria".to_string()));
    let r = sign_xml_xades("<a/>", &firma("x", "/c.p12"), false, Ok(()));
    assert_eq!(texto(r.unwrap_err()), ("certificate", "No existe el certificado en la ruta: /c.p12".to_string()));
    let r = sign_xml_xades("<a/>", &firma("x", "/c.pem"), true, Ok(()));
    assert_eq!(texto(r.unwrap_err()), ("certificate", "El certificado debe tener extensión .p12 o .pfx".to_string()));
    let r = sign_xml_xades("<a/>", &firma("x", "/c.PFX"), true, Err("permiso denegado".to_string()));
    assert_eq!(texto(r.unwrap_err()), ("io", "permiso denegado".to_string()));
    let r = sign_xml_xades("<a/>", &firma("x", "/dir/c.P12"), true, Ok(()));
    let (clase, m) = texto(r.unwrap_err());
    assert_eq!(clase, "pendiente");
    assert!(m.starts_with("Firma XAdES pendiente"));
}

#[test]
fn extension_del_certificado() {
    assert!(validate_certificate_path("/a/b.pfx", true).is_ok());
    assert!(validate_certificate_path("/a/.p12", true).is_err());
    assert!(validate_certificate_path("/a/b.p12.bak", true).is_err());
    // `Path` descarta la barra final: la extensión sigue siendo `p12`.
    assert!(validate_certificate_path("/a/cert.p12/", true).is_ok());
    assert_eq!(a_minusculas_ascii("AbÇ.P12"), "abÇ.p12");
}

/// SVG del código QR según la forma documentada, construido aquí con `qrcodegen`.
fn svg_de_referencia(data: &str) -> String {
    let qr = QrCode::encode_text(data, QrCodeEcc::Medium).unwrap();
    let size = qr.size();
    let total = (size + 8) as u32;
    let dim = total * 4;
    let mut svg = format!(
        "<svg xmlns=\"http://www.w3.org/2000/svg\" version=\"1.1\" viewBox=\"0 0 {dim} {dim}\" shape-rendering=\"crispEdges\">"
    );
    svg.push_str(&format!("<rect width=\"{dim}\" height=\"{dim}\" fill=\"white\"/>"));
    for y in 0..size {
        for x in 0..size {
            if qr.get_module(x, y) {
                let px = (x as u32 + 4) * 4;
                let py = (y as u32 + 4) * 4;
                svg.push_str(&format!("<rect x=\"{px}\" y=\"{py}\" width=\"4\" height=\"4\" fill=\"black\"/>"));
            }
        }
    }
    svg.push_str("</svg>");
    svg
}

/// PNG del código QR (8 píxeles por módulo, 4 módulos de margen) como Data URL.
fn png_de_referencia(data: &str) -> String {
    let qr = QrCode::encode_text(data, QrCodeEcc::Medium).unwrap();
    let size = qr.size() as u32;
    let total = (size + 8) * 8;
    let mut img = GrayImage::new(total, total);
    for p in img.pixels_mut() {
        *p = Luma([255u8]);
    }
    for y in 0..qr.size() {
        for x in 0..qr.size() {
            if qr.get_module(x, y) {
                for dy in 0..8 {
                    for dx in 0..8 {
                        img.put_pixel((4 + x as u32) * 8 + dx, (4 + y as u32) * 8 + dy, Luma([0u8]));
                    }
                }
            }
        }
    }
    let mut png: Vec<u8> = Vec::new();
    DynamicImage::from(img).write_to(&mut std::io::Cursor::new(&mut png), ImageFormat::Png).unwrap();
    format!("data:image/png;base64,{}", STANDARD.encode(&png))
}

#[test]
fn qr_en_svg() {
    let data = "https://example.com/?a=1";
    let svg = qr_to_svg(data).unwrap();
    assert_eq!(svg, svg_de_referencia(data));
    assert!(!svg.contains('\\') && !svg.contains('\n'));
}

#[test]
fn qr_en_png() {
    let data = "hola";
    assert_eq!(qr_to_png_data_url(data).unwrap(), png_de_referencia(data));
}

#[test]
fn qr_demasiado_largo() {
    let data = "x".repeat(5000);
    match qr_to_svg(&data) {
        Err(AppError::Internal(m)) => assert!(m.starts_with("Error generando QR: ")),
        _ => panic!("se esperaba un error"),
    }
}

#[test]
fn url_de_notariado() {
    let hash = "0123456789abcdef0123";
    let url = url_qr_notariado("B12345678", "F", 7, "2024-05-06", 12150, hash);
    assert_eq!(
        url,
        "https://www2.agenciatributaria.gob.es/wlpl/TIKE-CONT/v1/qr/notariado?nif=B12345678&numserie=F0007&fecha=2024-05-06&importe=121.50&hash=01234567"
    );
    let corto = url_qr_notariado("B1", "", 12345, "f", -5, "abc");
    assert!(corto.ends_with("numserie=12345&fecha=f&importe=-0.05&hash=abc"));
    let q = qr_legal("B12345678", "F", 7, "2024-05-06", 12150, hash).unwrap();
    assert_eq!(q.url, url);
    assert_eq!(
        q.svg_data_url,
        format!("data:image/svg+xml;base64,{}", STANDARD.encode(svg_de_referencia(&url).as_bytes()))
    );
    assert!(q.svg_data_url.starts_with("data:image/svg+xml;base64,PHN2ZyB4bWxucz0"));
}

#[test]
fn resultado_del_calculo_del_hash() {
    assert_eq!(resultado_hash(Ok("$h".to_string())), Ok("$h".to_string()));
    assert_eq!(
        resultado_hash(Err("salt".to_string())),
        Err("No se pudo calcular hash Argon2: salt".to_string())
    );
}

#[test]
fn certificado_segun_su_extension() {
    assert!(comprobar_certificado("c", true, Some("P12")).is_ok());
    assert!(comprobar_certificado("c", true, Some("pfx")).is_ok());
    assert_eq!(
        texto(comprobar_certificado("c", true, None).unwrap_err()),
        ("certificate", "El certificado debe tener extensión .p12 o .pfx".to_string())
    );
    assert_eq!(
        texto(comprobar_certificado("c", false, Some("p12")).unwrap_err()),
        ("certificate", "No existe el certificado en la ruta: c".to_string())
    );
    let r = firmar_con("<a/>", &firma("x", "c"), true, Some("pfx"), Ok(()));
    assert_eq!(texto(r.unwrap_err()).0, "pendiente");
    let r = firmar_con("<a/>", &firma("x", "c"), true, Some("key"), Ok(()));
    assert_eq!(texto(r.unwrap_err()).0, "certificate");
}

#[test]
fn data_url_de_los_bytes_png() {
    assert_eq!(data_url_de_png(Ok(vec![1, 2, 3])).unwrap(), "data:image/png;base64,AQID");
    assert_eq!(data_url_de_png(Ok(b"Ma".to_vec())).unwrap(), "data:image/png;base64,TWE=");
    assert_eq!(data_url_de_png(Ok(b"M".to_vec())).unwrap(), "data:image/png;base64,TQ==");
    assert_eq!(data_url_de_png(Ok(vec![0xfb, 0xff, 0xbf])).unwrap(), "data:image/png;base64,+/+/");
    match data_url_de_png(Err("sin memoria".to_string())) {
        Err(AppError::Internal(m)) => assert_eq!(m, "Error codificando QR a PNG: sin memoria"),
        _ => panic!("se esperaba un error interno"),
    }
}
