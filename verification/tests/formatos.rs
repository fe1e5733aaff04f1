use factelo::facturae::{
    correction_method_description_for, correction_method_for, decimal_from_cents, envolver_facturae,
    iso2_to_iso3, parse_nif_country, reason_description_for,
};
use factelo::pdf::{
    argumentos_autofirma, autofirma_binary_path, candidatos_autofirma, candidatos_navegador,
    comprobar_salida_autofirma, contar_iguales, current_timestamp_filename_segment, current_timestamp_string,
    elegir_existente, error_abrir_archivo, error_lanzar_autofirma, error_salida_autofirma, format_currency,
    format_postal_city, format_unix_timestamp_approx, formato_porcentaje_grupo, label_for_metodo_pago,
    nombre_fichero_facturae, nombre_fichero_factura, nombre_fichero_informe, orden_abrir_archivo,
    quitar_caracter, sanitize_filename_segment, tabla_calor, totales_iva, validar_factura_id, HeatmapCeldaPdf,
    LineaCalculada, SistemaOperativo,
};

#[test]
fn nif_con_y_sin_prefijo_de_pais() {
    let p = parse_nif_country("  fr12345678901 ");
    assert_eq!((p.country_code.as_str(), p.nif.as_str()), ("FRA", "12345678901"));
    let p = parse_nif_country("B12345678");
    assert_eq!((p.country_code.as_str(), p.nif.as_str()), ("ESP", "B12345678"));
    let p = parse_nif_country("ES");
    assert_eq!((p.country_code.as_str(), p.nif.as_str()), ("ESP", "ES"));
    let p = parse_nif_country("XX999");
    assert_eq!((p.country_code.as_str(), p.nif.as_str()), ("XX", "999"));
    let p = parse_nif_country("xy123");
    assert_eq!((p.country_code.as_str(), p.nif.as_str()), ("XY", "123"));
    let p = parse_nif_country("NL123456789B01");
    assert_eq!((p.country_code.as_str(), p.nif.as_str()), ("NLD", "123456789B01"));
    let p = parse_nif_country("el094259216");
    assert_eq!((p.country_code.as_str(), p.nif.as_str()), ("GRC", "094259216"));
}

#[test]
fn codigos_de_pais() {
    assert_eq!(iso2_to_iso3("ES"), "ESP");
    assert_eq!(iso2_to_iso3("BR"), "BRA");
    assert_eq!(iso2_to_iso3("NL"), "NLD");
    assert_eq!(iso2_to_iso3("ZW"), "ZWE");
    assert_eq!(iso2_to_iso3("UK"), "GBR");
    assert_eq!(iso2_to_iso3("es"), "es");
    assert_eq!(iso2_to_iso3("XX"), "XX");
    assert_eq!(iso2_to_iso3("ESP"), "ESP");
}

#[test]
fn codigos_de_rectificacion() {
    assert_eq!(reason_description_for("01"), "Número de factura");
    assert_eq!(reason_description_for("14"), "Otras causas");
    assert_eq!(reason_description_for("99"), "Rectificación");
    assert_eq!(correction_method_for("03"), "03");
    assert_eq!(correction_method_for("04"), "04");
    assert_eq!(correction_method_for("01"), "01");
    assert_eq!(correction_method_for(""), "01");
    assert_eq!(correction_method_description_for("03"), "Rectificación por descuento global");
    assert_eq!(correction_method_description_for("04"), "Autorización de la Agencia Tributaria");
    assert_eq!(correction_method_description_for("02"), "Rectificación íntegra");
}

#[test]
fn importe_de_centimos() {
    let d = decimal_from_cents(-1234);
    assert_eq!((d.mantisa, d.escala), (-1234, 2));
    assert_eq!(rust_decimal::Decimal::from_i128_with_scale(d.mantisa, d.escala).to_string(), "-12.34");
}

#[test]
fn envoltura_facturae() {
    assert_eq!(
        envolver_facturae("<Facturae><A/></Facturae>"),
        "<?xml version=\"1.0\" encoding=\"UTF-8\"?><fe:Facturae xmlns:fe=\"http://www.facturae.es/Facturae/2014/v3.2.2/Facturae\" xmlns:ds=\"http://www.w3.org/2000/09/xmldsig#\"><A/></fe:Facturae>"
    );
}

#[test]
fn moneda_como_formato_decimal() {
    for c in [0i64, 5, 99, 100, 12345, -1, -250, 123456789012] {
        assert_eq!(format_currency(c), format!("{:.2} €", c as f64 / 100.0).replace('.', ","));
    }
    assert_eq!(format_currency(123456), "1234,56 €");
}

#[test]
fn codigo_postal_y_poblacion() {
    assert_eq!(format_postal_city(Some("28001"), Some("Madrid")), "28001 Madrid");
    assert_eq!(format_postal_city(Some(""), Some("Madrid")), "Madrid");
    assert_eq!(format_postal_city(Some("28001"), Some("")), "");
    assert_eq!(format_postal_city(Some("28001"), None), "28001");
    assert_eq!(format_postal_city(None, None), "");
}

#[test]
fn metodos_de_pago() {
    assert_eq!(label_for_metodo_pago(Some("transferencia")), "Transferencia bancaria");
    assert_eq!(label_for_metodo_pago(Some("recibo_domiciliado")), "Recibo domiciliado");
    assert_eq!(label_for_metodo_pago(Some("bizum")), "bizum");
    assert_eq!(label_for_metodo_pago(None), "");
}

#[test]
fn nombres_de_fichero() {
    assert_eq!(sanitize_filename_segment("A/B c.ñ"), "A_B_c__");
    assert_eq!(sanitize_filename_segment(""), "valor");
    for entrada in ["", "a b/c", "ñ€\u{0}", "ok-_9"] {
        let r = sanitize_filename_segment(entrada);
        assert!(!r.is_empty() && r.chars().all(|c| c.is_ascii_alphanumeric() || c == '-' || c == '_'));
    }
    assert_eq!(quitar_caracter("2024-05-06", '-'), "20240506");
    assert_eq!(nombre_fichero_factura("F/1", 7, "2024-05-06"), "factura_F_1_7_20240506.pdf");
    assert_eq!(nombre_fichero_facturae("FV", 12, "2024-05-06"), "facturae_FV_12_20240506.xml");
    assert_eq!(nombre_fichero_informe("1700000000000"), "informe_estadistico_1700000000000.pdf");
}

#[test]
fn fechas_unix() {
    assert_eq!(format_unix_timestamp_approx(0), "01/01/1970 00:00");
    assert_eq!(format_unix_timestamp_approx(951782400), "29/02/2000 00:00");
    assert_eq!(format_unix_timestamp_approx(1700000000), "14/11/2023 22:13");
    assert_eq!(format_unix_timestamp_approx(4102444799), "31/12/2099 23:59");
    assert_eq!(current_timestamp_string(Some(42)), "42");
    assert_eq!(current_timestamp_string(None), "0");
    assert_eq!(current_timestamp_filename_segment(Some(1700000000123)), "1700000000123");
    assert_eq!(current_timestamp_filename_segment(None), "0");
}

fn l(base: i64, cuota: i64, clave: i32) -> LineaCalculada {
    LineaCalculada { base, cuota, clave_iva: clave }
}

#[test]
fn totales_y_grupos_de_iva() {
    let t = totales_iva(&vec![l(10000, 2100, 2100), l(5000, 500, 1000), l(2000, 420, 2100), l(300, 0, 0)]);
    assert_eq!((t.subtotal, t.total_iva, t.total), (17300, 3020, 20320));
    let grupos: Vec<(i32, i64, i64)> = t.grupos.iter().map(|g| (g.clave, g.base, g.cuota)).collect();
    assert_eq!(grupos, vec![(2100, 12000, 2520), (1000, 5000, 500), (0, 300, 0)]);
    assert_eq!(t.grupos.iter().map(|g| g.base).sum::<i64>(), t.subtotal);
    assert_eq!(t.grupos.iter().map(|g| g.cuota).sum::<i64>(), t.total_iva);
    let t = totales_iva(&vec![l(0, 0, 400)]);
    assert!(t.grupos.is_empty());
}

#[test]
fn porcentaje_como_formato_sin_decimales() {
    for clave in [0i32, 400, 1000, 2100, 550, 1050, 1150, 2149, 2151, -40, -150, 99] {
        assert_eq!(formato_porcentaje_grupo(clave), format!("{:.0}%", clave as f64 / 100.0), "clave {clave}");
    }
}

fn celda(mes: &str, concepto: &str, total: i64) -> HeatmapCeldaPdf {
    HeatmapCeldaPdf { anio_mes: mes.to_string(), concepto: concepto.to_string(), total_facturado: total }
}

#[test]
fn mapa_de_calor() {
    let h = vec![
        celda("2024-02", "B", 300),
        celda("2024-01", "A", 100),
        celda("2024-02", "A", 0),
        celda("2024-01", "A", 250),
    ];
    let t = tabla_calor(&h);
    assert_eq!(t.meses, vec!["2024-01".to_string(), "2024-02".to_string()]);
    let filas: Vec<(String, Vec<(i64, String)>)> = t
        .filas
        .iter()
        .map(|f| (f.concepto.clone(), f.celdas.iter().map(|c| (c.valor, c.valor_fmt.clone())).collect()))
        .collect();
    assert_eq!(
        filas,
        vec![
            ("B".to_string(), vec![(0, String::new()), (300, "3,00 €".to_string())]),
            ("A".to_string(), vec![(250, "2,50 €".to_string()), (0, String::new())]),
        ]
    );
    assert_eq!(contar_iguales(&vec!["A".to_string(), "B".to_string(), "A".to_string()], "A"), 2);
}

#[test]
fn factura_id_positivo() {
    assert!(validar_factura_id(1).is_ok());
    assert!(validar_factura_id(0).is_err());
}

#[test]
fn navegador_y_autofirma() {
    let c = candidatos_navegador(SistemaOperativo::Linux, None);
    assert_eq!(c[0], "/usr/bin/google-chrome");
    assert_eq!(c.len(), 5);
    let c = candidatos_navegador(SistemaOperativo::Windows, Some("C:\\U"));
    assert_eq!(c.len(), 8);
    assert_eq!(c[6], "C:\\U\\Google\\Chrome\\Application\\chrome.exe");
    assert!(candidatos_navegador(SistemaOperativo::Otro, None).is_empty());
    let elegido = elegir_existente(&vec!["a".to_string(), "b".to_string(), "c".to_string()], &vec![false, true, true]);
    assert_eq!(elegido.as_deref(), Some("b"));
    assert_eq!(elegir_existente(&vec!["a".to_string()], &vec![false]), None);
    let (cands, defecto) = candidatos_autofirma(SistemaOperativo::MacOs);
    assert_eq!(cands.len(), 2);
    assert_eq!(defecto, "AutofirmaCommandLine");
    assert_eq!(
        autofirma_binary_path(SistemaOperativo::Windows, &vec![false, false, true, true]),
        "C:\\Program Files\\AutoFirma\\AutofirmaCommandLine.exe"
    );
    assert_eq!(autofirma_binary_path(SistemaOperativo::Windows, &vec![false; 4]), "AutofirmaCommandLine.exe");
    assert_eq!(autofirma_binary_path(SistemaOperativo::Linux, &vec![]), "autofirma");
}

#[test]
fn orden_de_autofirma_y_sus_errores() {
    let a = argumentos_autofirma("/tmp/in.xml", "/tmp/out.xml");
    assert_eq!(
        a,
        vec![
            "sign", "-certgui", "-store", "windows", "-i", "/tmp/in.xml", "-o", "/tmp/out.xml", "-format", "facturae",
            "-algorithm", "sha256"
        ]
    );
    assert!(comprobar_salida_autofirma(true, Some(0)).is_ok());
    assert_eq!(
        comprobar_salida_autofirma(false, Some(-2)).unwrap_err(),
        format!(
            "AutoFirma terminó con código {:?}. El usuario puede haber cancelado la firma o no tiene certificado instalado.",
            Some(-2)
        )
    );
    assert_eq!(
        comprobar_salida_autofirma(false, None).unwrap_err(),
        "AutoFirma terminó con código None. El usuario puede haber cancelado la firma o no tiene certificado instalado."
    );
    assert_eq!(
        error_lanzar_autofirma("af", "no encontrado"),
        "No se pudo lanzar AutoFirma (af): no encontrado. Asegúrate de que AutoFirma está instalado."
    );
    assert_eq!(
        error_salida_autofirma("/tmp/out.xml", "x"),
        "AutoFirma terminó correctamente pero no se encontró el archivo de salida (/tmp/out.xml): x"
    );
}

#[test]
fn abrir_archivo_segun_sistema() {
    assert_eq!(
        orden_abrir_archivo(SistemaOperativo::Windows, "a.pdf").unwrap(),
        vec!["cmd", "/c", "start", "", "a.pdf"]
    );
    assert_eq!(orden_abrir_archivo(SistemaOperativo::MacOs, "a.pdf").unwrap(), vec!["open", "a.pdf"]);
    assert_eq!(orden_abrir_archivo(SistemaOperativo::Linux, "a.pdf").unwrap(), vec!["xdg-open", "a.pdf"]);
    assert!(orden_abrir_archivo(SistemaOperativo::Otro, "a.pdf").is_none());
    assert_eq!(error_abrir_archivo("e"), "No se pudo abrir el archivo: e");
}
