use factelo::facturae::{build_facturae_doc, impuestos_facturae, FacturaeInvoiceRow};
use factelo::keychain::{debe_migrar, origen_clave, OrigenClave};
use factelo::pdf::{agrupar_iva, LineaCalculada};

fn l(base: i64, cuota: i64, clave: i32) -> LineaCalculada {
    LineaCalculada { base, cuota, clave_iva: clave }
}

#[test]
fn acumulado_de_iva_por_clave() {
    let g = agrupar_iva(&vec![l(100, 21, 2100), l(50, 5, 1000), l(-100, -21, 2100), l(7, 0, 0)]);
    let v: Vec<(i32, i64, i64)> = g.iter().map(|x| (x.clave, x.base, x.cuota)).collect();
    assert_eq!(v, vec![(2100, 0, 0), (1000, 50, 5), (0, 7, 0)]);
}

#[test]
fn impuestos_del_documento() {
    let t = impuestos_facturae(&vec![l(1000, 100, 1000), l(2000, 420, 2100), l(500, 24, 475)], 0, 0);
    let v: Vec<(String, i128, u32, i128, i128)> = t
        .iter()
        .map(|x| {
            (
                x.tax_type_code.clone(),
                x.tax_rate.mantisa,
                x.tax_rate.escala,
                x.taxable_base.total_amount.mantisa,
                x.tax_amount.total_amount.mantisa,
            )
        })
        .collect();
    assert_eq!(
        v,
        vec![
            ("01".to_string(), 21, 0, 2000, 420),
            ("01".to_string(), 10, 0, 1000, 100),
            ("01".to_string(), 475, 2, 500, 24),
        ]
    );
    // El tipo coincide con el decimal que sale de leer el texto del tipo en coma flotante.
    for (clave, tasa) in [(2100, 21.0f64), (1050, 10.5), (475, 4.75)] {
        let t = impuestos_facturae(&vec![l(1, 0, clave)], 0, 0);
        let d = rust_decimal::Decimal::from_i128_with_scale(t[0].tax_rate.mantisa, t[0].tax_rate.escala);
        assert_eq!(d.to_string(), tasa.to_string());
    }
    let sin_lineas = impuestos_facturae(&vec![], 12100, 2100);
    assert_eq!(sin_lineas.len(), 1);
    assert_eq!((sin_lineas[0].tax_rate.mantisa, sin_lineas[0].tax_rate.escala), (21, 0));
    assert_eq!(sin_lineas[0].taxable_base.total_amount.mantisa, 12100);
    assert_eq!(sin_lineas[0].tax_amount.total_amount.mantisa, 2100);
}

fn fila() -> FacturaeInvoiceRow {
    FacturaeInvoiceRow {
        numero: 3,
        fecha_emision: "2024-05-06".to_string(),
        subtotal: 10000,
        total_impuestos: 2100,
        total: 12100,
        serie_prefijo: "FV".to_string(),
        empresa_nombre: "Ana Pérez López Díaz".to_string(),
        empresa_nif: "ES12345678Z".to_string(),
        empresa_direccion: "Calle 1".to_string(),
        empresa_tipo_persona: "F".to_string(),
        empresa_codigo_postal: "28001".to_string(),
        empresa_poblacion: "Madrid".to_string(),
        empresa_provincia: "Madrid".to_string(),
        cliente_nombre: "Ayuntamiento".to_string(),
        cliente_nif: None,
        cliente_direccion: None,
        cliente_tipo_persona: "J".to_string(),
        cliente_codigo_postal: "00000".to_string(),
        cliente_poblacion: "N/A".to_string(),
        cliente_provincia: "N/A".to_string(),
        es_entidad_publica: 1,
        dir3_oficina_contable: Some("L1".to_string()),
        dir3_organo_gestor: None,
        dir3_unidad_tramitadora: Some("L3".to_string()),
        tipo_rectificativa: Some("03".to_string()),
        numero_factura_rectificada: Some("FV-0001".to_string()),
        serie_factura_rectificada: Some("FV".to_string()),
    }
}

#[test]
fn documento_facturae() {
    let d = build_facturae_doc(&fila(), vec![], vec![]);
    assert_eq!(d.file_header.batch.batch_identifier, "FV-0003");
    assert_eq!(d.file_header.batch.total_invoices_amount.mantisa, 12100);
    let vendedor = &d.parties.seller_party;
    assert_eq!(vendedor.tax_identification.person_type_code, "F");
    assert_eq!(vendedor.tax_identification.tax_identification_number, "12345678Z");
    let persona = vendedor.individual.as_ref().unwrap();
    assert_eq!(
        (persona.name.as_str(), persona.first_surname.as_str(), persona.second_surname.as_deref()),
        ("Ana", "Pérez", Some("López Díaz"))
    );
    let comprador = &d.parties.buyer_party;
    assert_eq!(comprador.tax_identification.tax_identification_number, "00000000X");
    assert_eq!(comprador.legal_entity.as_ref().unwrap().address_in_spain.as_ref().unwrap().address, "N/A");
    let centros = &comprador.administrative_centres.as_ref().unwrap().administrative_centre;
    let c: Vec<(&str, &str, &str)> =
        centros.iter().map(|c| (c.centre_code.as_str(), c.role_type_code.as_str(), c.name.as_str())).collect();
    assert_eq!(
        c,
        vec![("L1", "01", "Oficina Contable L1"), ("", "02", "Órgano Gestor "), ("L3", "03", "Unidad Tramitadora L3")]
    );
    let f = &d.invoices.invoice[0];
    assert_eq!(f.invoice_header.invoice_class, "OR");
    let r = f.corrective.as_ref().unwrap();
    assert_eq!(r.invoice_number, None);
    assert_eq!(r.reason_description, "Nombre y apellidos/Razón social");
    assert_eq!(r.correction_method, "03");
    assert_eq!(f.invoice_totals.total_taxes_withheld.mantisa, 0);
}

#[test]
fn arranque_de_la_base_de_datos() {
    assert!(matches!(origen_clave(true, false, Some("k".to_string())), OrigenClave::SinCifrar));
    assert!(matches!(origen_clave(true, true, Some("k".to_string())), OrigenClave::Entorno(k) if k == "k"));
    assert!(matches!(origen_clave(false, false, Some(" ".to_string())), OrigenClave::Provisionar));
    assert!(matches!(origen_clave(false, false, None), OrigenClave::Provisionar));
    assert!(debe_migrar(true, false, false));
    assert!(!debe_migrar(true, true, false));
    assert!(!debe_migrar(true, false, true));
}
