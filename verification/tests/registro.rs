use factelo::audit::{
    calcular_hash_log, construir_fichero_inspeccion, escape_filename, escape_xml, hash_fichero,
    limites_anio, peticion_firma_inspeccion, preparar_evento_alta, verificar_integridad_interna, EventoAlta, EventoXml,
    RegistroLog, ResultadoIntegridad,
};
use factelo::hash::{a_hex, sha256_hex_texto};
use sha2::{Digest, Sha256};

fn sha256_hex(s: &str) -> String {
    let mut h = Sha256::new();
    h.update(s.as_bytes());
    hex::encode(h.finalize())
}

fn fila(id: i64, e: &EventoAlta) -> RegistroLog {
    RegistroLog {
        id,
        timestamp: e.timestamp.clone(),
        tipo_evento: e.tipo_evento.clone(),
        empresa_id: e.empresa_id,
        factura_id: Some(e.factura_id),
        numero_serie: e.numero_serie.clone(),
        hash_factura: e.hash_factura.clone(),
        hash_anterior: e.hash_anterior.clone(),
        hash_log: e.hash_log.clone(),
    }
}

fn hash_factura(n: u32) -> String {
    sha256_hex(&format!("factura-{n}"))
}

/// Registro de dos altas encadenadas, con las facturas tal como se registraron.
fn registro_de_dos() -> (Vec<RegistroLog>, Vec<Option<String>>) {
    let e1 = preparar_evento_alta(
        None,
        Some("A".to_string()),
        1,
        "2024-01-10T10:00:00.000Z".to_string(),
        7,
        101,
        hash_factura(1),
    );
    let e2 = preparar_evento_alta(
        Some(e1.hash_log.clone()),
        Some("A".to_string()),
        2,
        "2024-01-11T10:00:00.000Z".to_string(),
        7,
        102,
        hash_factura(2),
    );
    let filas = vec![fila(1, &e1), fila(2, &e2)];
    let facturas = vec![Some(hash_factura(1)), Some(hash_factura(2))];
    (filas, facturas)
}

#[test]
fn hash_log_es_sha256_del_canonico() {
    let h = calcular_hash_log("2024-01-01T00:00:00.000Z", "ALTA", 3, -5, "F-0001", "abc", "GENESIS");
    assert_eq!(h, sha256_hex("2024-01-01T00:00:00.000Z|ALTA|3|-5|F-0001|abc|GENESIS"));
    assert_eq!(h.len(), 64);
}

#[test]
fn hex_y_sha256_coinciden_con_las_crates() {
    assert_eq!(a_hex(&vec![0u8, 1, 0xab, 0xff]), "0001abff");
    assert_eq!(a_hex(&vec![]), "");
    assert_eq!(sha256_hex_texto("hola"), sha256_hex("hola"));
    assert_eq!(
        sha256_hex_texto(""),
        "e3b0c44298fc1c149afbf4c8996fb92427ae41e4649b934ca495991b7852b855"
    );
}

#[test]
fn alta_encadena_con_genesis_y_con_la_anterior() {
    let e1 = preparar_evento_alta(None, Some("FV".to_string()), 7, "t1".to_string(), 1, 10, "h1".to_string());
    assert_eq!(e1.hash_anterior, "GENESIS");
    assert_eq!(e1.tipo_evento, "ALTA");
    assert_eq!(e1.numero_serie, "FV-0007");
    assert_eq!(e1.hash_log, calcular_hash_log("t1", "ALTA", 1, 10, "FV-0007", "h1", "GENESIS"));
    let e2 = preparar_evento_alta(Some(e1.hash_log.clone()), None, 12345, "t2".to_string(), 1, 11, "h2".to_string());
    assert_eq!(e2.hash_anterior, e1.hash_log);
    assert_eq!(e2.numero_serie, "-12345");
}

#[test]
fn registro_vacio_es_integro() {
    let r: ResultadoIntegridad = verificar_integridad_interna(&vec![], &vec![]);
    assert!(r.integra);
    assert_eq!(r.total_eventos, 0);
    assert!(r.primer_evento.is_none());
    assert!(r.ultimo_evento.is_none());
    assert!(r.errores.is_empty());
}

#[test]
fn registro_de_altas_es_integro() {
    let (filas, facturas) = registro_de_dos();
    let r = verificar_integridad_interna(&filas, &facturas);
    assert!(r.integra, "{:?}", r.errores);
    assert_eq!(r.total_eventos, 2);
    assert_eq!(r.primer_evento.as_deref(), Some("2024-01-10T10:00:00.000Z"));
    assert_eq!(r.ultimo_evento.as_deref(), Some("2024-01-11T10:00:00.000Z"));
}

#[test]
fn hash_log_alterado_se_detecta() {
    let (mut filas, facturas) = registro_de_dos();
    let esperado = filas[1].hash_log.clone();
    let falso = "f".repeat(64);
    filas[1].hash_log = falso.clone();
    let r = verificar_integridad_interna(&filas, &facturas);
    assert!(!r.integra);
    assert_eq!(
        r.errores,
        vec![format!(
            "HASH_LOG_ALTERADO: evento id=2 (fila 2). Esperado={} Encontrado={}",
            &esperado[..16],
            &falso[..16]
        )]
    );
}

#[test]
fn hash_log_corto_se_detecta_y_se_cita_entero() {
    let (mut filas, facturas) = registro_de_dos();
    let esperado = filas[0].hash_log.clone();
    filas[0].hash_log = "x".to_string();
    let r = verificar_integridad_interna(&filas, &facturas);
    assert!(!r.integra);
    assert_eq!(r.total_eventos, 2);
    assert_eq!(
        r.errores,
        vec![
            format!("HASH_LOG_ALTERADO: evento id=1 (fila 1). Esperado={} Encontrado=x", &esperado[..16]),
            "CADENA_ROTA: evento id=2 (fila 2). hash_anterior no coincide con hash_log del evento anterior."
                .to_string(),
        ]
    );
}

#[test]
fn hash_de_factura_corto_o_cortado_en_un_caracter() {
    let (filas, _) = registro_de_dos();
    // 15 bytes ASCII y una «ñ»: el byte 16 cae dentro de la «ñ».
    let raro = format!("{}ñ", "a".repeat(15));
    let facturas = vec![Some("corto".to_string()), Some(raro.clone())];
    let r = verificar_integridad_interna(&filas, &facturas);
    assert!(!r.integra);
    assert_eq!(
        r.errores,
        vec![
            format!(
                "HASH_FACTURA_ALTERADO: factura_id=101 hash almacenado en log ({}) != hash en facturas (corto)",
                &hash_factura(1)[..16]
            ),
            format!(
                "HASH_FACTURA_ALTERADO: factura_id=102 hash almacenado en log ({}) != hash en facturas ({raro})",
                &hash_factura(2)[..16]
            ),
        ]
    );
}

#[test]
fn genesis_roto_y_cadena_rota() {
    let (mut filas, facturas) = registro_de_dos();
    // Se cambia el enlace de la primera fila y se recalcula su hash: la
    // segunda fila deja de encadenar con ella.
    filas[0].hash_anterior = "OTRO".to_string();
    filas[0].hash_log = calcular_hash_log(
        &filas[0].timestamp,
        &filas[0].tipo_evento,
        filas[0].empresa_id,
        101,
        &filas[0].numero_serie,
        &filas[0].hash_factura,
        "OTRO",
    );
    let r = verificar_integridad_interna(&filas, &facturas);
    assert!(!r.integra);
    assert_eq!(
        r.errores,
        vec![
            "GENESIS_ROTO: el primer evento (id=1) debería tener hash_anterior=GENESIS".to_string(),
            "CADENA_ROTA: evento id=2 (fila 2). hash_anterior no coincide con hash_log del evento anterior."
                .to_string(),
        ]
    );
}

#[test]
fn factura_desaparecida_o_alterada() {
    let (filas, _) = registro_de_dos();
    let otra = hash_factura(99);
    let facturas = vec![None, Some(otra.clone())];
    let r = verificar_integridad_interna(&filas, &facturas);
    assert!(!r.integra);
    assert_eq!(
        r.errores,
        vec![
            "FACTURA_DESAPARECIDA: evento id=1 referencia factura_id=101 que ya no existe.".to_string(),
            format!(
                "HASH_FACTURA_ALTERADO: factura_id=102 hash almacenado en log ({}) != hash en facturas ({})",
                &hash_factura(2)[..16],
                &otra[..16]
            ),
        ]
    );
}

#[test]
fn escape_xml_de_los_cinco_caracteres() {
    assert_eq!(escape_xml("a&b<c>d\"e'f"), "a&amp;b&lt;c&gt;d&quot;e&apos;f");
    assert_eq!(escape_xml("sin cambios ñ"), "sin cambios ñ");
    assert_eq!(escape_xml(""), "");
    let escapado = escape_xml("<'\"&\">");
    assert!(!escapado.contains(['<', '>', '"', '\'']));
}

#[test]
fn escape_filename_cambia_lo_no_alfanumerico() {
    assert_eq!(escape_filename("B-12.345/6"), "B_12_345_6");
    assert_eq!(escape_filename("Ñandú 9"), "Ñandú_9");
}

#[test]
fn limites_del_anio_fiscal() {
    let (desde, hasta) = limites_anio(2024);
    assert_eq!(desde, "2024-01-01T00:00:00.000Z");
    assert_eq!(hasta, "2025-01-01T00:00:00.000Z");
}

fn evento_xml(id: i64, factura_id: Option<i64>, hash_log: &str) -> EventoXml {
    EventoXml {
        id,
        timestamp: "2024-02-01T00:00:00.000Z".to_string(),
        tipo_evento: "ALTA".to_string(),
        numero_serie: "A&B-0001".to_string(),
        hash_factura: "hf".to_string(),
        hash_anterior: "GENESIS".to_string(),
        hash_log: hash_log.to_string(),
        factura_id,
    }
}

#[test]
fn hash_del_fichero_de_inspeccion() {
    let ev = vec![evento_xml(1, Some(5), "aaa"), evento_xml(2, None, "bbb")];
    assert_eq!(hash_fichero(&ev), sha256_hex("aaabbb"));
    assert_eq!(hash_fichero(&vec![]), sha256_hex(""));
}

#[test]
fn fichero_de_inspeccion_completo() {
    let ev = vec![evento_xml(1, Some(5), "aaa"), evento_xml(2, None, "bbb")];
    let integridad = ResultadoIntegridad {
        integra: false,
        total_eventos: 2,
        primer_evento: None,
        ultimo_evento: None,
        errores: vec!["X<Y".to_string()],
    };
    let f = construir_fichero_inspeccion(
        "Empresa & Cía",
        "ES-B123",
        2024,
        "2024-03-01T12:00:00Z",
        "20240301120000",
        &ev,
        &integridad,
        "0.1.0",
    );
    let hash = sha256_hex("aaabbb");
    assert_eq!(f.hash_fichero, hash);
    assert_eq!(f.total_eventos, 2);
    assert_eq!(f.nombre_fichero, format!("inspeccion_ES_B123_2024_20240301120000_{}.xml", &hash[..8]));
    let linea_hash = format!("    <HashFichero>{hash}</HashFichero>");
    let lineas = [
        "<?xml version=\"1.0\" encoding=\"UTF-8\"?>",
        "<!-- Fichero de Inspección Tributaria - Registro de Facturación Inalterable -->",
        "<!-- Generado cumpliendo RD 1007/2023 (Veri*factu) / Ley 8/2022 Crea y Crece -->",
        "<RegistroFacturacion>",
        "  <Cabecera>",
        "    <NombreEmisor>Empresa &amp; Cía</NombreEmisor>",
        "    <NifEmisor>ES-B123</NifEmisor>",
        "    <EjercicioFiscal>2024</EjercicioFiscal>",
        "    <FechaGeneracion>2024-03-01T12:00:00Z</FechaGeneracion>",
        "    <TotalEventos>2</TotalEventos>",
        "    <EstadoIntegridad>COMPROMETIDA</EstadoIntegridad>",
        linea_hash.as_str(),
        "    <SistemaGenerador>Factelo v0.1.0</SistemaGenerador>",
        "  </Cabecera>",
        "  <LogEventos>",
        "    <Evento>",
        "      <Id>1</Id>",
        "      <Timestamp>2024-02-01T00:00:00.000Z</Timestamp>",
        "      <TipoEvento>ALTA</TipoEvento>",
        "      <NumeroSerie>A&amp;B-0001</NumeroSerie>",
        "      <FacturaId>5</FacturaId>",
        "      <HashFactura>hf</HashFactura>",
        "      <HashAnterior>GENESIS</HashAnterior>",
        "      <HashLog>aaa</HashLog>",
        "    </Evento>",
        "    <Evento>",
        "      <Id>2</Id>",
        "      <Timestamp>2024-02-01T00:00:00.000Z</Timestamp>",
        "      <TipoEvento>ALTA</TipoEvento>",
        "      <NumeroSerie>A&amp;B-0001</NumeroSerie>",
        "      <HashFactura>hf</HashFactura>",
        "      <HashAnterior>GENESIS</HashAnterior>",
        "      <HashLog>bbb</HashLog>",
        "    </Evento>",
        "  </LogEventos>",
        "  <Anomalias>",
        "    <Anomalia>X&lt;Y</Anomalia>",
        "  </Anomalias>",
        "</RegistroFacturacion>",
    ];
    let esperado = lineas.join("\n") + "\n";
    assert_eq!(f.xml, esperado);
}

#[test]
fn peticion_de_firma_del_fichero_de_inspeccion() {
    let ev = vec![evento_xml(1, None, "aaa")];
    let integridad = ResultadoIntegridad {
        integra: true,
        total_eventos: 1,
        primer_evento: None,
        ultimo_evento: None,
        errores: vec![],
    };
    let f = construir_fichero_inspeccion("E", "B1", 2024, "t", "s", &ev, &integridad, "1");
    let p = peticion_firma_inspeccion(&f, "/tmp/in.xml", "/tmp/out.xml");
    assert_eq!(p.documento, f.xml);
    assert_eq!(
        p.argumentos,
        vec![
            "sign", "-certgui", "-store", "windows", "-i", "/tmp/in.xml", "-o", "/tmp/out.xml", "-format", "xades",
            "-algorithm", "sha256",
        ]
    );
}
