use factelo::commands::{
    calculate_chained_hash, comprobar_cesionario, construir_consulta_analitica, error_insercion_factura,
    estado_onboarding, json_hash_source, necesita_nif_emisor, normalizar_cliente, preparar_registro_factura,
    texto_o_defecto, trim_opt, validar_cliente_actualizado, validar_cliente_nuevo, validar_empresa,
    validar_empresa_id, validar_factura_y_empresa, validar_producto, validar_serie, validate_insert_factura,
    ActualizarClienteInput, AdvancedAnalyticsParams, CrearClienteInput, CrearEmpresaInput, CrearSerieInput,
    InsertFacturaInput, InsertFacturaLineaInput,
};
use factelo::error::{ApiError, AppError};
use sha2::{Digest, Sha256};

fn sha256_hex(s: &str) -> String {
    let mut h = Sha256::new();
    h.update(s.as_bytes());
    hex::encode(h.finalize())
}

fn linea(descripcion: &str, cantidad: f64, precio: i64, total: i64) -> InsertFacturaLineaInput {
    InsertFacturaLineaInput {
        descripcion: descripcion.to_string(),
        cantidad_positiva: !(cantidad <= 0.0),
        precio_unitario: precio,
        total_linea: total,
    }
}

fn factura() -> InsertFacturaInput {
    InsertFacturaInput {
        empresa_id: 1,
        cliente_id: 2,
        serie_id: 3,
        numero: 4,
        fecha_emision: "2024-05-06".to_string(),
        subtotal: 10000,
        total_impuestos: 2100,
        total: 12100,
        estado: None,
        firma_app: None,
        lineas: vec![linea("Servicio", 1.0, 10000, 10000)],
        es_entidad_publica: None,
        dir3_oficina_contable: None,
        dir3_organo_gestor: None,
        dir3_unidad_tramitadora: None,
        tipo_rectificativa: None,
        numero_factura_rectificada: None,
        serie_factura_rectificada: None,
        cesionario_nif: None,
        cesionario_nombre: None,
        notas: None,
        fecha_vencimiento: None,
        metodo_pago: None,
        cuenta_bancaria: None,
    }
}

fn mensaje(r: Result<(), AppError>) -> Option<String> {
    match r {
        Ok(()) => None,
        Err(AppError::Validation(m)) => Some(m),
        Err(_) => Some("<otro error>".to_string()),
    }
}

#[test]
fn factura_valida_pasa() {
    assert_eq!(mensaje(validate_insert_factura(&factura(), "2024-05-06")), None);
}

#[test]
fn errores_de_validacion_en_orden() {
    let mut f = factura();
    f.cliente_id = 0;
    f.numero = 0;
    assert_eq!(
        mensaje(validate_insert_factura(&f, "2024-05-06")).as_deref(),
        Some("empresa_id, cliente_id y serie_id deben ser mayores que cero")
    );
    let mut f = factura();
    f.numero = -1;
    assert_eq!(
        mensaje(validate_insert_factura(&f, "2024-05-06")).as_deref(),
        Some("El número de factura debe ser mayor que cero")
    );
    let mut f = factura();
    f.fecha_emision = "  ".to_string();
    assert_eq!(
        mensaje(validate_insert_factura(&f, "2024-05-06")).as_deref(),
        Some("La fecha de emisión es obligatoria")
    );
    assert_eq!(
        mensaje(validate_insert_factura(&factura(), "2024-05-05")).as_deref(),
        Some("La fecha de emisión no puede ser posterior a la fecha actual")
    );
    let mut f = factura();
    f.total = -1;
    assert_eq!(
        mensaje(validate_insert_factura(&f, "2024-05-06")).as_deref(),
        Some("Los importes de factura no pueden ser negativos")
    );
    let mut f = factura();
    f.lineas.clear();
    assert_eq!(
        mensaje(validate_insert_factura(&f, "2024-05-06")).as_deref(),
        Some("La factura debe incluir al menos una línea")
    );
}

#[test]
fn errores_de_las_lineas() {
    let mut f = factura();
    f.lineas = vec![linea("ok", 1.0, 1, 1), linea(" ", 1.0, 1, 1)];
    assert_eq!(
        mensaje(validate_insert_factura(&f, "2024-05-06")).as_deref(),
        Some("La descripción de cada línea es obligatoria")
    );
    f.lineas = vec![linea("a", 0.0, 1, 1)];
    assert_eq!(
        mensaje(validate_insert_factura(&f, "2024-05-06")).as_deref(),
        Some("La cantidad de cada línea debe ser mayor que cero")
    );
    f.lineas = vec![linea("a", f64::NAN, 1, 1)];
    assert_eq!(mensaje(validate_insert_factura(&f, "2024-05-06")), None);
    f.lineas = vec![linea("a", 2.0, 1, -1)];
    assert_eq!(
        mensaje(validate_insert_factura(&f, "2024-05-06")).as_deref(),
        Some("Los importes de línea no pueden ser negativos")
    );
}

#[test]
fn dir3_y_rectificativas() {
    let mut f = factura();
    f.es_entidad_publica = Some(true);
    f.dir3_oficina_contable = Some("L01".to_string());
    f.dir3_organo_gestor = Some("L02".to_string());
    assert_eq!(
        mensaje(validate_insert_factura(&f, "2024-05-06")).as_deref(),
        Some("Los tres códigos DIR3 (Oficina Contable, Órgano Gestor y Unidad Tramitadora) son obligatorios para facturas a entidades públicas")
    );
    f.dir3_unidad_tramitadora = Some("L03".to_string());
    assert_eq!(mensaje(validate_insert_factura(&f, "2024-05-06")), None);
    let mut f = factura();
    f.tipo_rectificativa = Some("02".to_string());
    assert_eq!(
        mensaje(validate_insert_factura(&f, "2024-05-06")).as_deref(),
        Some("Las facturas rectificativas de tipo 01 o 02 requieren el número de la factura original")
    );
    f.tipo_rectificativa = Some("03".to_string());
    assert_eq!(mensaje(validate_insert_factura(&f, "2024-05-06")), None);
}

#[test]
fn json_canonico_y_hash_encadenado() {
    let mut f = factura();
    f.fecha_emision = "2024-05-06\"\n".to_string();
    let json = json_hash_source(&f, "GENESIS");
    assert_eq!(
        json,
        "{\"empresa_id\":1,\"cliente_id\":2,\"serie_id\":3,\"numero\":4,\"fecha_emision\":\"2024-05-06\\\"\\n\",\"subtotal\":10000,\"total_impuestos\":2100,\"total\":12100,\"hash_anterior\":\"GENESIS\"}"
    );
    assert_eq!(calculate_chained_hash(&f, "GENESIS"), sha256_hex(&json));
    let escapes = json_hash_source(&f, "\u{1}\t\\");
    assert!(escapes.ends_with(",\"hash_anterior\":\"\\u0001\\t\\\\\"}"));
    let escapes = json_hash_source(&f, "\u{1b}\u{8}\u{c}\r/\u{7f}ñ");
    assert!(escapes.ends_with(",\"hash_anterior\":\"\\u001b\\b\\f\\r/\u{7f}ñ\"}"));
}

#[test]
fn registro_de_factura_encadena() {
    let f = factura();
    let primera = preparar_registro_factura(&f, None);
    assert_eq!(primera.hash_registro, calculate_chained_hash(&f, "GENESIS"));
    assert_eq!(primera.hash_anterior, None);
    assert_eq!(primera.firma_app, "PENDIENTE_FIRMA_XADES");
    assert_eq!(primera.estado, "BORRADOR");
    assert_eq!(primera.es_entidad_publica, 0);
    let mut g = factura();
    g.numero = 5;
    g.estado = Some("EMITIDA".to_string());
    g.es_entidad_publica = Some(true);
    let segunda = preparar_registro_factura(&g, Some(primera.hash_registro.clone()));
    assert_eq!(segunda.hash_registro, calculate_chained_hash(&g, &primera.hash_registro));
    assert_eq!(segunda.hash_anterior.as_deref(), Some(primera.hash_registro.as_str()));
    assert_eq!(segunda.estado, "EMITIDA");
    assert_eq!(segunda.es_entidad_publica, 1);
}

#[test]
fn cesionario_distinto_del_emisor() {
    let mut f = factura();
    assert!(!necesita_nif_emisor(&f));
    f.cesionario_nif = Some("  ".to_string());
    assert!(!necesita_nif_emisor(&f));
    f.cesionario_nif = Some("ESb12345678".to_string());
    assert!(necesita_nif_emisor(&f));
    assert_eq!(
        mensaje(comprobar_cesionario("ESb12345678", Some("B12345678"))).as_deref(),
        Some("El NIF del cesionario no puede ser igual al NIF del emisor de la factura")
    );
    assert_eq!(mensaje(comprobar_cesionario("B87654321", Some("B12345678"))), None);
    assert_eq!(mensaje(comprobar_cesionario("B12345678", None)), None);
}

#[test]
fn error_de_insercion() {
    match error_insercion_factura(Some("UNIQUE constraint failed: facturas.numero"), 12, "detalle") {
        AppError::Validation(m) => assert_eq!(
            m,
            "Ya existe una factura con el número 12 en esta serie. Por favor, usa un número diferente."
        ),
        _ => panic!("se esperaba un error de validación"),
    }
    match error_insercion_factura(Some("disk I/O error"), 12, "detalle") {
        AppError::Database(m) => assert_eq!(m, "detalle"),
        _ => panic!("se esperaba un error de base de datos"),
    }
}

#[test]
fn validaciones_sencillas() {
    assert_eq!(
        mensaje(validar_empresa_id(0)).as_deref(),
        Some("empresa_id debe ser mayor que cero")
    );
    assert_eq!(mensaje(validar_empresa_id(3)), None);
    assert_eq!(
        mensaje(validar_factura_y_empresa(1, -2)).as_deref(),
        Some("factura_id y empresa_id deben ser mayores que cero")
    );
    assert_eq!(
        mensaje(validar_empresa(&CrearEmpresaInput {
            nombre: "X".to_string(),
            nif: " ".to_string(),
            direccion: String::new()
        }))
        .as_deref(),
        Some("El nombre y el NIF de la empresa son obligatorios")
    );
    assert_eq!(
        mensaje(validar_serie(&CrearSerieInput { empresa_id: 1, nombre: "".to_string(), prefijo: "A".to_string() }))
            .as_deref(),
        Some("El nombre y el prefijo de la serie son obligatorios")
    );
    assert_eq!(
        mensaje(validar_producto(1, "Tornillo", -5)).as_deref(),
        Some("El precio unitario no puede ser negativo")
    );
    assert_eq!(
        mensaje(validar_producto(0, "Tornillo", -5)).as_deref(),
        Some("empresa_id válido y nombre del producto son obligatorios")
    );
}

#[test]
fn onboarding() {
    let s = estado_onboarding(None, true);
    assert!(!s.tiene_empresa && !s.tiene_serie && s.empresa_id.is_none());
    let s = estado_onboarding(Some(4), true);
    assert!(s.tiene_empresa && s.tiene_serie && s.empresa_id == Some(4));
}

fn cliente() -> CrearClienteInput {
    CrearClienteInput {
        empresa_id: 1,
        nombre: "  Acme  ".to_string(),
        nif: Some(" B1 ".to_string()),
        nombre_comercial: Some("   ".to_string()),
        tipo_entidad: None,
        email: None,
        telefono: None,
        persona_contacto: None,
        direccion: None,
        codigo_postal: None,
        poblacion: None,
        provincia: None,
        pais: Some(" ".to_string()),
        aplica_irpf: Some(true),
        aplica_recargo_eq: Some(false),
        operacion_intracomunitaria: None,
        metodo_pago_defecto: None,
        dias_vencimiento: None,
        iban_cuenta: None,
        dir3_oficina_contable: None,
        dir3_organo_gestor: None,
        dir3_unidad_tramitadora: None,
    }
}

#[test]
fn cliente_normalizado() {
    assert_eq!(mensaje(validar_cliente_nuevo(&cliente())), None);
    let c = normalizar_cliente(9, cliente());
    assert_eq!(c.id, 9);
    assert_eq!(c.nombre, "Acme");
    assert_eq!(c.nif.as_deref(), Some("B1"));
    assert_eq!(c.nombre_comercial, None);
    assert_eq!(c.tipo_entidad, "Empresa");
    assert_eq!(c.pais, "ES");
    assert_eq!((c.aplica_irpf, c.aplica_recargo_eq, c.operacion_intracomunitaria), (1, 0, 0));
    assert_eq!(c.dias_vencimiento, 30);
    let mut sin_nombre = cliente();
    sin_nombre.nombre = "\t".to_string();
    assert_eq!(
        mensaje(validar_cliente_nuevo(&sin_nombre)).as_deref(),
        Some("empresa_id válido y nombre del cliente son obligatorios")
    );
}

#[test]
fn cliente_actualizado_sin_id() {
    let a = ActualizarClienteInput {
        id: 0,
        empresa_id: 1,
        nombre: "Acme".to_string(),
        nif: None,
        nombre_comercial: None,
        tipo_entidad: None,
        email: None,
        telefono: None,
        persona_contacto: None,
        direccion: None,
        codigo_postal: None,
        poblacion: None,
        provincia: None,
        pais: None,
        aplica_irpf: None,
        aplica_recargo_eq: None,
        operacion_intracomunitaria: None,
        metodo_pago_defecto: None,
        dias_vencimiento: Some(60),
        iban_cuenta: None,
        dir3_oficina_contable: None,
        dir3_organo_gestor: None,
        dir3_unidad_tramitadora: None,
    };
    assert_eq!(
        mensaje(validar_cliente_actualizado(&a)).as_deref(),
        Some("id, empresa_id válidos y nombre son obligatorios")
    );
}

#[test]
fn recortes_opcionales() {
    assert_eq!(trim_opt(Some("  x y ".to_string())).as_deref(), Some("x y"));
    assert_eq!(trim_opt(Some(" \n".to_string())), None);
    assert_eq!(trim_opt(None), None);
    assert_eq!(texto_o_defecto(&Some(" ".to_string()), "ES"), "ES");
    assert_eq!(texto_o_defecto(&Some(" PT ".to_string()), "ES"), "PT");
}

#[test]
fn consulta_analitica_con_filtros() {
    let p = AdvancedAnalyticsParams {
        empresa_id: 1,
        fecha_inicio: Some("2026-01-01".to_string()),
        fecha_fin: Some(" ".to_string()),
        tipo_entidad: Some("Todos".to_string()),
        texto_producto: Some("tornillo".to_string()),
    };
    let c = construir_consulta_analitica(&p);
    assert!(c.sql.contains(
        "WHERE fc.empresa_id = ?1 AND fc.fecha_emision >= ?2 AND fl.concepto_descripcion LIKE ?5\n            GROUP BY fc.id\n        ) f"
    ));
    assert!(!c.sql.contains("DISTINCT"));
    assert!(c.sql.contains("COALESCE(SUM(f.total_factura), 0)"));
    assert_eq!(c.fecha_inicio.as_deref(), Some("2026-01-01"));
    assert_eq!(c.fecha_fin, None);
    assert_eq!(c.tipo_entidad, None);
    assert_eq!(c.texto_producto.as_deref(), Some("%tornillo%"));
}

#[test]
fn error_api_oculta_detalles_internos() {
    let e = ApiError::from(AppError::Validation("campo".to_string()));
    assert_eq!(e.code, "VALIDATION_ERROR");
    assert_eq!(e.message, "Error de validación: campo");
    let e = ApiError::from(AppError::Database("ruta secreta".to_string()));
    assert_eq!(e.code, "DATABASE_ERROR");
    assert!(!e.message.contains("ruta secreta"));
    let e = ApiError::from(AppError::Internal("x".to_string()));
    assert_eq!(e.code, "INTERNAL_ERROR");
    let e = ApiError::from(AppError::Json("j".to_string()));
    assert_eq!(e.code, "SERIALIZATION_ERROR");
    let e = ApiError::from(AppError::Io("disco".to_string()));
    assert_eq!((e.code.as_str(), e.message.as_str()), ("IO_ERROR", "Error de entrada/salida: disco"));
}
