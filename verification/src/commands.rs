//! Reglas de las facturas: validación de una factura nueva, hash encadenado
//! de las facturas de una serie y datos que se guardan al darla de alta.

use vstd::prelude::*;

use crate::error::{AppError, AppResult};
use crate::facturae::{nif_sin_pais, parse_nif_country};
use crate::hash::{digito_hex, sha256_hex, sha256_hex_texto};
use crate::texto::{
    a_mayusculas, agregar_texto, contiene, contiene_texto, copiar,
    decimal_entero, decimal_i64, es_menor, menor_lex, mayusculas_unicode, solo_espacios,
    texto_igual, vacio_tras_recortar,
};

verus! {

/// Línea de una factura nueva, tal como la validan las reglas. La cantidad
/// se recibe como número de punto flotante; aquí se guarda solo si supera
/// la comprobación `cantidad <= 0.0` (`cantidad_positiva == !(cantidad <= 0.0)`).
pub struct InsertFacturaLineaInput {
    pub descripcion: String,
    pub cantidad_positiva: bool,
    pub precio_unitario: i64,
    pub total_linea: i64,
}

/// Datos de una factura nueva.
pub struct InsertFacturaInput {
    pub empresa_id: i64,
    pub cliente_id: i64,
    pub serie_id: i64,
    pub numero: i64,
    pub fecha_emision: String,
    pub subtotal: i64,
    pub total_impuestos: i64,
    pub total: i64,
    pub estado: Option<String>,
    pub firma_app: Option<String>,
    pub lineas: Vec<InsertFacturaLineaInput>,
    pub es_entidad_publica: Option<bool>,
    pub dir3_oficina_contable: Option<String>,
    pub dir3_organo_gestor: Option<String>,
    pub dir3_unidad_tramitadora: Option<String>,
    pub tipo_rectificativa: Option<String>,
    pub numero_factura_rectificada: Option<String>,
    pub serie_factura_rectificada: Option<String>,
    pub cesionario_nif: Option<String>,
    pub cesionario_nombre: Option<String>,
    pub notas: Option<String>,
    pub fecha_vencimiento: Option<String>,
    pub metodo_pago: Option<String>,
    pub cuenta_bancaria: Option<String>,
}

pub struct InsertFacturaResponse {
    pub id: i64,
    pub hash_registro: String,
    pub hash_anterior: Option<String>,
}

// ─── Validación ───────────────────────────────────────────────────────────────

/// `o.as_deref().unwrap_or("").trim().is_empty()`.
pub open spec fn ausente_o_en_blanco(o: Option<String>) -> bool {
    match o {
        Some(s) => solo_espacios(s@),
        None => true,
    }
}

/// Primer error en las líneas, en orden.
pub open spec fn error_lineas(l: Seq<InsertFacturaLineaInput>) -> Option<Seq<char>>
    decreases l.len(),
{
    if l.len() == 0 {
        None
    } else if solo_espacios(l[0].descripcion@) {
        Some("La descripción de cada línea es obligatoria"@)
    } else if !l[0].cantidad_positiva {
        Some("La cantidad de cada línea debe ser mayor que cero"@)
    } else if l[0].precio_unitario < 0 || l[0].total_linea < 0 {
        Some("Los importes de línea no pueden ser negativos"@)
    } else {
        error_lineas(l.drop_first())
    }
}

/// Rectificativa de tipo 01 o 02 sin número de la factura original.
pub open spec fn rectificativa_sin_original(f: InsertFacturaInput) -> bool {
    match f.tipo_rectificativa {
        Some(t) => (t@ == "01"@ || t@ == "02"@) && ausente_o_en_blanco(f.numero_factura_rectificada),
        None => false,
    }
}

/// Entidad pública sin alguno de los tres códigos DIR3.
pub open spec fn publica_sin_dir3(f: InsertFacturaInput) -> bool {
    f.es_entidad_publica == Some(true) && (ausente_o_en_blanco(f.dir3_oficina_contable)
        || ausente_o_en_blanco(f.dir3_organo_gestor) || ausente_o_en_blanco(f.dir3_unidad_tramitadora))
}

/// Mensaje del primer requisito que incumple la factura, comprobados en orden;
/// `hoy` es la fecha actual en formato `AAAA-MM-DD`.
pub open spec fn error_validacion_factura(f: InsertFacturaInput, hoy: Seq<char>) -> Option<Seq<char>> {
    if f.empresa_id <= 0 || f.cliente_id <= 0 || f.serie_id <= 0 {
        Some("empresa_id, cliente_id y serie_id deben ser mayores que cero"@)
    } else if f.numero <= 0 {
        Some("El número de factura debe ser mayor que cero"@)
    } else if solo_espacios(f.fecha_emision@) {
        Some("La fecha de emisión es obligatoria"@)
    } else if menor_lex(hoy, f.fecha_emision@) {
        Some("La fecha de emisión no puede ser posterior a la fecha actual"@)
    } else if f.subtotal < 0 || f.total_impuestos < 0 || f.total < 0 {
        Some("Los importes de factura no pueden ser negativos"@)
    } else if f.lineas@.len() == 0 {
        Some("La factura debe incluir al menos una línea"@)
    } else if error_lineas(f.lineas@) is Some {
        error_lineas(f.lineas@)
    } else if publica_sin_dir3(f) {
        Some("Los tres códigos DIR3 (Oficina Contable, Órgano Gestor y Unidad Tramitadora) son obligatorios para facturas a entidades públicas"@)
    } else if rectificativa_sin_original(f) {
        Some("Las facturas rectificativas de tipo 01 o 02 requieren el número de la factura original"@)
    } else {
        None
    }
}

/// Error de validación con el mensaje dado.
pub fn validacion(mensaje: &str) -> (e: AppError)
    ensures
        e matches AppError::Validation(m) && m@ == mensaje@,
{
    AppError::Validation(copiar(mensaje))
}

/// El resultado es `Ok` si no hay error y, si lo hay, un error de validación con ese mensaje.
pub open spec fn resultado_validacion(r: AppResult<()>, error: Option<Seq<char>>) -> bool {
    match r {
        Ok(_) => error is None,
        Err(AppError::Validation(m)) => error == Some(m@),
        Err(_) => false,
    }
}

fn ausente_o_en_blanco_exec(o: &Option<String>) -> (r: bool)
    ensures
        r == ausente_o_en_blanco(*o),
{
    match o {
        Some(s) => vacio_tras_recortar(s.as_str()),
        None => true,
    }
}

fn validar_lineas(lineas: &Vec<InsertFacturaLineaInput>) -> (r: AppResult<()>)
    ensures
        resultado_validacion(r, error_lineas(lineas@)),
{
    let mut i: usize = 0;
    assert(lineas@.skip(0) == lineas@);
    while i < lineas.len()
        invariant
            i <= lineas.len(),
            error_lineas(lineas@) == error_lineas(lineas@.skip(i as int)),
        decreases lineas.len() - i,
    {
        let l = &lineas[i];
        assert(lineas@.skip(i as int)[0] == lineas@[i as int]);
        if vacio_tras_recortar(l.descripcion.as_str()) {
            return Err(validacion("La descripción de cada línea es obligatoria"));
        }
        if !l.cantidad_positiva {
            return Err(validacion("La cantidad de cada línea debe ser mayor que cero"));
        }
        if l.precio_unitario < 0 || l.total_linea < 0 {
            return Err(validacion("Los importes de línea no pueden ser negativos"));
        }
        assert(lineas@.skip(i as int).drop_first() == lineas@.skip(i + 1));
        i = i + 1;
    }
    Ok(())
}

/// Comprueba los requisitos de una factura nueva; `hoy` es la fecha actual
/// (`AAAA-MM-DD`, hora local).
pub fn validate_insert_factura(input: &InsertFacturaInput, hoy: &str) -> (r: AppResult<()>)
    ensures
        resultado_validacion(r, error_validacion_factura(*input, hoy@)),
{
    if input.empresa_id <= 0 || input.cliente_id <= 0 || input.serie_id <= 0 {
        return Err(validacion("empresa_id, cliente_id y serie_id deben ser mayores que cero"));
    }
    if input.numero <= 0 {
        return Err(validacion("El número de factura debe ser mayor que cero"));
    }
    if vacio_tras_recortar(input.fecha_emision.as_str()) {
        return Err(validacion("La fecha de emisión es obligatoria"));
    }
    // La fecha de emisión no puede ser posterior a la fecha actual (Anexo II HAP/1650/2015)
    if es_menor(hoy, input.fecha_emision.as_str()) {
        return Err(validacion("La fecha de emisión no puede ser posterior a la fecha actual"));
    }
    if input.subtotal < 0 || input.total_impuestos < 0 || input.total < 0 {
        return Err(validacion("Los importes de factura no pueden ser negativos"));
    }
    if input.lineas.len() == 0 {
        return Err(validacion("La factura debe incluir al menos una línea"));
    }
    let r = validar_lineas(&input.lineas);
    if r.is_err() {
        return r;
    }
    // DIR3 obligatorio si es entidad pública
    let publica = match input.es_entidad_publica {
        Some(b) => b,
        None => false,
    };
    if publica {
        if ausente_o_en_blanco_exec(&input.dir3_oficina_contable)
            || ausente_o_en_blanco_exec(&input.dir3_organo_gestor)
            || ausente_o_en_blanco_exec(&input.dir3_unidad_tramitadora)
        {
            return Err(validacion(
                "Los tres códigos DIR3 (Oficina Contable, Órgano Gestor y Unidad Tramitadora) son obligatorios para facturas a entidades públicas",
            ));
        }
    }
    // Rectificativa tipo 01/02 requiere número de factura original
    match &input.tipo_rectificativa {
        Some(tipo) => {
            if (texto_igual(tipo.as_str(), "01") || texto_igual(tipo.as_str(), "02"))
                && ausente_o_en_blanco_exec(&input.numero_factura_rectificada)
            {
                return Err(validacion(
                    "Las facturas rectificativas de tipo 01 o 02 requieren el número de la factura original",
                ));
            }
        },
        None => {},
    }
    Ok(())
}

/// Una línea cumple los requisitos: descripción, cantidad positiva e
/// importes no negativos.
pub open spec fn linea_correcta(l: InsertFacturaLineaInput) -> bool {
    &&& !solo_espacios(l.descripcion@)
    &&& l.cantidad_positiva
    &&& l.precio_unitario >= 0
    &&& l.total_linea >= 0
}

/// Texto presente y no en blanco.
pub open spec fn presente(o: Option<String>) -> bool {
    o matches Some(s) && !solo_espacios(s@)
}

proof fn lema_error_lineas(l: Seq<InsertFacturaLineaInput>)
    ensures
        (error_lineas(l) is None) <==> (forall|i: int| 0 <= i < l.len() ==> #[trigger] linea_correcta(l[i])),
    decreases l.len(),
{
    if l.len() > 0 {
        lema_error_lineas(l.drop_first());
        if error_lineas(l) is None {
            assert forall|i: int| 0 <= i < l.len() implies #[trigger] linea_correcta(l[i]) by {
                if i > 0 {
                    assert(l[i] == l.drop_first()[i - 1]);
                }
            }
        } else if linea_correcta(l[0]) {
            assert(!(forall|i: int| 0 <= i < l.drop_first().len() ==> #[trigger] linea_correcta(l.drop_first()[i])));
            let j = choose|j: int| 0 <= j < l.drop_first().len() && !linea_correcta(l.drop_first()[j]);
            assert(l.drop_first()[j] == l[j + 1]);
        }
    }
}

/// Una factura nueva solo se acepta si cumple todos los requisitos: ids,
/// número, fecha de emisión presente y no posterior a `hoy`, importes no
/// negativos, al menos una línea y todas correctas, los tres códigos DIR3
/// si va a una entidad pública y el número de la original si es una
/// rectificativa de tipo `01` o `02`.
pub proof fn ley_factura_aceptada_cumple_requisitos(f: InsertFacturaInput, hoy: Seq<char>, r: AppResult<()>)
    requires
        resultado_validacion(r, error_validacion_factura(f, hoy)),
        r is Ok,
    ensures
        f.empresa_id > 0 && f.cliente_id > 0 && f.serie_id > 0,
        f.numero > 0,
        !solo_espacios(f.fecha_emision@),
        !menor_lex(hoy, f.fecha_emision@),
        f.subtotal >= 0 && f.total_impuestos >= 0 && f.total >= 0,
        f.lineas@.len() > 0,
        forall|i: int| 0 <= i < f.lineas@.len() ==> #[trigger] linea_correcta(f.lineas@[i]),
        f.es_entidad_publica == Some(true) ==> presente(f.dir3_oficina_contable) && presente(f.dir3_organo_gestor)
            && presente(f.dir3_unidad_tramitadora),
        (f.tipo_rectificativa matches Some(t) && (t@ == "01"@ || t@ == "02"@)) ==> presente(f.numero_factura_rectificada),
{
    lema_error_lineas(f.lineas@);
}

/// Una factura a una entidad pública a la que le falta alguno de los tres
/// códigos DIR3 se rechaza siempre; si cumple los requisitos anteriores
/// (ids, número, fecha, importes y líneas), el error es el de los códigos DIR3.
pub proof fn ley_entidad_publica_exige_dir3(f: InsertFacturaInput, hoy: Seq<char>, r: AppResult<()>)
    requires
        resultado_validacion(r, error_validacion_factura(f, hoy)),
        f.es_entidad_publica == Some(true),
        !presente(f.dir3_oficina_contable) || !presente(f.dir3_organo_gestor) || !presente(f.dir3_unidad_tramitadora),
    ensures
        r is Err,
        ({
            &&& f.empresa_id > 0 && f.cliente_id > 0 && f.serie_id > 0
            &&& f.numero > 0
            &&& !solo_espacios(f.fecha_emision@)
            &&& !menor_lex(hoy, f.fecha_emision@)
            &&& f.subtotal >= 0 && f.total_impuestos >= 0 && f.total >= 0
            &&& f.lineas@.len() > 0
            &&& forall|i: int| 0 <= i < f.lineas@.len() ==> #[trigger] linea_correcta(f.lineas@[i])
        }) ==> (r matches Err(AppError::Validation(m)) && m@
            == "Los tres códigos DIR3 (Oficina Contable, Órgano Gestor y Unidad Tramitadora) son obligatorios para facturas a entidades públicas"@),
{
    lema_error_lineas(f.lineas@);
    if r is Ok {
        ley_factura_aceptada_cumple_requisitos(f, hoy, r);
    }
}

} // verus!

verus! {

// ─── Hash encadenado de las facturas de una serie ─────────────────────────────

/// Escape de un carácter dentro de una cadena JSON (como `serde_json`).
pub open spec fn escape_json(c: char) -> Seq<char> {
    let u = c as u32;
    if c == '"' {
        seq!['\\', '"']
    } else if c == '\\' {
        seq!['\\', '\\']
    } else if u == 0x08 {
        seq!['\\', 'b']
    } else if u == 0x09 {
        seq!['\\', 't']
    } else if u == 0x0A {
        seq!['\\', 'n']
    } else if u == 0x0C {
        seq!['\\', 'f']
    } else if u == 0x0D {
        seq!['\\', 'r']
    } else if u < 0x20 {
        seq!['\\', 'u', '0', '0', digito_hex((u / 16) as nat), digito_hex((u % 16) as nat)]
    } else {
        seq![c]
    }
}

/// Contenido escapado de una cadena JSON.
pub open spec fn escapar_json(s: Seq<char>) -> Seq<char>
    decreases s.len(),
{
    if s.len() == 0 {
        Seq::empty()
    } else {
        escapar_json(s.drop_last()) + escape_json(s.last())
    }
}

/// Cadena JSON entre comillas.
pub open spec fn cadena_json(s: Seq<char>) -> Seq<char> {
    seq!['"'] + escapar_json(s) + seq!['"']
}

/// Serialización JSON compacta de la fuente del hash de una factura
/// (campos en este orden).
pub open spec fn json_fuente_hash(f: InsertFacturaInput, hash_anterior: Seq<char>) -> Seq<char> {
    "{\"empresa_id\":"@ + decimal_entero(f.empresa_id as int) + ",\"cliente_id\":"@
        + decimal_entero(f.cliente_id as int) + ",\"serie_id\":"@ + decimal_entero(f.serie_id as int)
        + ",\"numero\":"@ + decimal_entero(f.numero as int) + ",\"fecha_emision\":"@
        + cadena_json(f.fecha_emision@) + ",\"subtotal\":"@ + decimal_entero(f.subtotal as int)
        + ",\"total_impuestos\":"@ + decimal_entero(f.total_impuestos as int) + ",\"total\":"@
        + decimal_entero(f.total as int) + ",\"hash_anterior\":"@ + cadena_json(hash_anterior) + "}"@
}

/// Hash de registro de una factura encadenado con `hash_anterior`.
pub open spec fn hash_registro_de(f: InsertFacturaInput, hash_anterior: Seq<char>) -> Seq<char> {
    sha256_hex(json_fuente_hash(f, hash_anterior))
}

/// `serde_json::to_string(t)` de un texto. Se confía en lo que muestra el
/// código de `serde_json` (`format_escaped_str` y su tabla `ESCAPE`): la
/// cadena va entre comillas y escapa `"`, `\`, retroceso, tabulador, salto
/// de línea, salto de página y retorno de carro con su letra, y el resto de
/// controles como `\u00xx` (hexadecimal en minúsculas),
/// es decir `cadena_json`. Serializar un `str` en memoria no falla.
#[verifier::external_body]
fn cadena_json_de(t: &str) -> (r: String)
    ensures
        r@ == cadena_json(t@),
{
    match serde_json::to_string(t) {
        Ok(j) => j,
        Err(_) => String::new(),
    }
}

/// Forma canónica (JSON) de la fuente del hash de una factura.
pub fn json_hash_source(input: &InsertFacturaInput, hash_anterior: &str) -> (s: String)
    ensures
        s@ == json_fuente_hash(*input, hash_anterior@),
{
    let mut s = copiar("{\"empresa_id\":");
    agregar_texto(&mut s, decimal_i64(input.empresa_id).as_str());
    agregar_texto(&mut s, ",\"cliente_id\":");
    agregar_texto(&mut s, decimal_i64(input.cliente_id).as_str());
    agregar_texto(&mut s, ",\"serie_id\":");
    agregar_texto(&mut s, decimal_i64(input.serie_id).as_str());
    agregar_texto(&mut s, ",\"numero\":");
    agregar_texto(&mut s, decimal_i64(input.numero).as_str());
    agregar_texto(&mut s, ",\"fecha_emision\":");
    agregar_texto(&mut s, cadena_json_de(input.fecha_emision.as_str()).as_str());
    agregar_texto(&mut s, ",\"subtotal\":");
    agregar_texto(&mut s, decimal_i64(input.subtotal).as_str());
    agregar_texto(&mut s, ",\"total_impuestos\":");
    agregar_texto(&mut s, decimal_i64(input.total_impuestos).as_str());
    agregar_texto(&mut s, ",\"total\":");
    agregar_texto(&mut s, decimal_i64(input.total).as_str());
    agregar_texto(&mut s, ",\"hash_anterior\":");
    agregar_texto(&mut s, cadena_json_de(hash_anterior).as_str());
    agregar_texto(&mut s, "}");
    s
}

/// SHA-256 (hexadecimal) del JSON canónico de la factura encadenado con `hash_anterior`.
pub fn calculate_chained_hash(input: &InsertFacturaInput, hash_anterior: &str) -> (r: String)
    ensures
        r@ == hash_registro_de(*input, hash_anterior@),
        r@.len() == 64,
{
    let canonical = json_hash_source(input, hash_anterior);
    sha256_hex_texto(canonical.as_str())
}

/// Valor de encadenamiento: el hash de la factura anterior de la serie o `GENESIS`.
pub open spec fn valor_encadenamiento(anterior: Option<String>) -> Seq<char> {
    match anterior {
        Some(h) => h@,
        None => "GENESIS"@,
    }
}

/// Datos de la fila de `facturas` que se calculan al darla de alta.
pub struct RegistroFactura {
    pub hash_registro: String,
    pub hash_anterior: Option<String>,
    pub firma_app: String,
    pub estado: String,
    pub es_entidad_publica: i64,
}

/// Calcula el hash encadenado y los valores por defecto de una factura nueva;
/// `previous_hash` es el `hash_registro` de la última factura de la misma
/// empresa y serie (mayor número, y mayor id a igual número), si la hay.
pub fn preparar_registro_factura(input: &InsertFacturaInput, previous_hash: Option<String>) -> (r: RegistroFactura)
    ensures
        r.hash_registro@ == hash_registro_de(*input, valor_encadenamiento(previous_hash)),
        r.hash_anterior == previous_hash,
        r.firma_app@ == match input.firma_app {
            Some(f) => f@,
            None => "PENDIENTE_FIRMA_XADES"@,
        },
        r.estado@ == match input.estado {
            Some(e) => e@,
            None => "BORRADOR"@,
        },
        r.es_entidad_publica == if input.es_entidad_publica == Some(true) { 1i64 } else { 0i64 },
{
    let chaining_value = match &previous_hash {
        Some(h) => h.clone(),
        None => copiar("GENESIS"),
    };
    let hash_registro = calculate_chained_hash(input, chaining_value.as_str());
    let firma_app = match &input.firma_app {
        Some(f) => f.clone(),
        None => copiar("PENDIENTE_FIRMA_XADES"),
    };
    let estado = match &input.estado {
        Some(e) => e.clone(),
        None => copiar("BORRADOR"),
    };
    let es_entidad_publica: i64 = match input.es_entidad_publica {
        Some(true) => 1,
        _ => 0,
    };
    RegistroFactura { hash_registro, hash_anterior: previous_hash, firma_app, estado, es_entidad_publica }
}

// ─── Cesionario y errores de inserción ────────────────────────────────────────

/// Hace falta consultar el NIF del emisor: hay NIF de cesionario no vacío.
pub open spec fn requiere_nif_emisor(f: InsertFacturaInput) -> bool {
    match f.cesionario_nif {
        Some(n) => !solo_espacios(n@),
        None => false,
    }
}

pub fn necesita_nif_emisor(input: &InsertFacturaInput) -> (r: bool)
    ensures
        r == requiere_nif_emisor(*input),
{
    match &input.cesionario_nif {
        Some(n) => !vacio_tras_recortar(n.as_str()),
        None => false,
    }
}

/// El NIF del cesionario coincide con el del emisor (sin prefijo de país y en mayúsculas).
pub open spec fn cesionario_es_emisor(cesionario: Seq<char>, emisor: Seq<char>) -> bool {
    mayusculas_unicode(nif_sin_pais(emisor)) == mayusculas_unicode(nif_sin_pais(cesionario))
}

/// El NIF del cesionario no puede coincidir con el del emisor (Orden
/// HAP/1650/2015 Anexo II); `nif_emisor` es el NIF de la empresa, si existe.
pub fn comprobar_cesionario(cesionario_nif: &str, nif_emisor: Option<&str>) -> (r: AppResult<()>)
    ensures
        resultado_validacion(
            r,
            match nif_emisor {
                Some(e) => if cesionario_es_emisor(cesionario_nif@, e@) {
                    Some("El NIF del cesionario no puede ser igual al NIF del emisor de la factura"@)
                } else {
                    None
                },
                None => None,
            },
        ),
{
    match nif_emisor {
        Some(nif_emisor) => {
            let parsed_emisor = parse_nif_country(nif_emisor);
            let parsed_cesionario = parse_nif_country(cesionario_nif);
            let a = a_mayusculas(parsed_emisor.nif.as_str());
            let b = a_mayusculas(parsed_cesionario.nif.as_str());
            if texto_igual(a.as_str(), b.as_str()) {
                return Err(validacion("El NIF del cesionario no puede ser igual al NIF del emisor de la factura"));
            }
            Ok(())
        },
        None => Ok(()),
    }
}

/// Mensaje para un número de factura repetido en la serie.
pub open spec fn msg_numero_repetido(numero: int) -> Seq<char> {
    "Ya existe una factura con el número "@ + decimal_entero(numero)
        + " en esta serie. Por favor, usa un número diferente."@
}

/// Error al insertar la factura. `mensaje_bd` es el mensaje de la base de
/// datos cuando el fallo vino de ella y `detalle` el texto del error: una
/// violación de unicidad sobre `facturas` se explica como número repetido.
pub fn error_insercion_factura(mensaje_bd: Option<&str>, numero: i64, detalle: &str) -> (e: AppError)
    ensures
        match mensaje_bd {
            Some(m) if contiene(m@, "UNIQUE"@) && contiene(m@, "facturas"@) => e matches AppError::Validation(t)
                && t@ == msg_numero_repetido(numero as int),
            _ => e matches AppError::Database(t) && t@ == detalle@,
        },
{
    match mensaje_bd {
        Some(m) => {
            if contiene_texto(m, "UNIQUE") && contiene_texto(m, "facturas") {
                let mut t = copiar("Ya existe una factura con el número ");
                agregar_texto(&mut t, decimal_i64(numero).as_str());
                agregar_texto(&mut t, " en esta serie. Por favor, usa un número diferente.");
                return AppError::Validation(t);
            }
        },
        None => {},
    }
    AppError::Database(copiar(detalle))
}

} // verus!

verus! {

// ─── Validaciones sencillas ──────────────────────────────────────────────────

/// `empresa_id` debe ser positivo.
pub fn validar_empresa_id(empresa_id: i64) -> (r: AppResult<()>)
    ensures
        resultado_validacion(r, if empresa_id <= 0 { Some("empresa_id debe ser mayor que cero"@) } else { None }),
{
    if empresa_id <= 0 {
        return Err(validacion("empresa_id debe ser mayor que cero"));
    }
    Ok(())
}

/// Fila del listado de facturas de una empresa (importes en céntimos).
pub struct FacturaListaRow {
    pub id: i64,
    pub numero: i64,
    pub serie_prefijo: String,
    pub fecha_emision: String,
    pub cliente_nombre: String,
    pub total: i64,
    pub total_impuestos: i64,
    pub subtotal: i64,
    pub estado: String,
    pub es_entidad_publica: i64,
    pub hash_registro: String,
}

/// `factura_id` y `empresa_id` deben ser positivos.
pub fn validar_factura_y_empresa(factura_id: i64, empresa_id: i64) -> (r: AppResult<()>)
    ensures
        resultado_validacion(
            r,
            if factura_id <= 0 || empresa_id <= 0 {
                Some("factura_id y empresa_id deben ser mayores que cero"@)
            } else {
                None
            },
        ),
{
    if factura_id <= 0 || empresa_id <= 0 {
        return Err(validacion("factura_id y empresa_id deben ser mayores que cero"));
    }
    Ok(())
}

// ─── Onboarding ───────────────────────────────────────────────────────────────

pub struct OnboardingStatus {
    pub tiene_empresa: bool,
    pub tiene_serie: bool,
    pub empresa_id: Option<i64>,
}

/// Estado de la configuración inicial: `empresa_id` es la primera empresa,
/// si la hay, y `hay_serie` si esa empresa tiene alguna serie.
pub fn estado_onboarding(empresa_id: Option<i64>, hay_serie: bool) -> (r: OnboardingStatus)
    ensures
        r.empresa_id == empresa_id,
        r.tiene_empresa == (empresa_id is Some),
        r.tiene_serie == (empresa_id is Some && hay_serie),
{
    OnboardingStatus { tiene_empresa: empresa_id.is_some(), tiene_serie: empresa_id.is_some() && hay_serie, empresa_id }
}

// ─── Empresas y series ───────────────────────────────────────────────────────

pub struct EmpresaRow {
    pub id: i64,
    pub nombre: String,
    pub nif: String,
    pub direccion: String,
}

pub struct CrearEmpresaInput {
    pub nombre: String,
    pub nif: String,
    pub direccion: String,
}

/// El nombre y el NIF de la empresa son obligatorios.
pub fn validar_empresa(input: &CrearEmpresaInput) -> (r: AppResult<()>)
    ensures
        resultado_validacion(
            r,
            if solo_espacios(input.nombre@) || solo_espacios(input.nif@) {
                Some("El nombre y el NIF de la empresa son obligatorios"@)
            } else {
                None
            },
        ),
{
    if vacio_tras_recortar(input.nombre.as_str()) || vacio_tras_recortar(input.nif.as_str()) {
        return Err(validacion("El nombre y el NIF de la empresa son obligatorios"));
    }
    Ok(())
}

/// Fila de la empresa creada con el identificador asignado.
pub fn empresa_creada(id: i64, input: CrearEmpresaInput) -> (r: EmpresaRow)
    ensures
        r.id == id,
        r.nombre == input.nombre,
        r.nif == input.nif,
        r.direccion == input.direccion,
{
    EmpresaRow { id, nombre: input.nombre, nif: input.nif, direccion: input.direccion }
}

pub struct SerieRow {
    pub id: i64,
    pub empresa_id: i64,
    pub nombre: String,
    pub prefijo: String,
    pub siguiente_numero: i64,
}

pub struct CrearSerieInput {
    pub empresa_id: i64,
    pub nombre: String,
    pub prefijo: String,
}

/// El nombre y el prefijo de la serie son obligatorios.
pub fn validar_serie(input: &CrearSerieInput) -> (r: AppResult<()>)
    ensures
        resultado_validacion(
            r,
            if solo_espacios(input.nombre@) || solo_espacios(input.prefijo@) {
                Some("El nombre y el prefijo de la serie son obligatorios"@)
            } else {
                None
            },
        ),
{
    if vacio_tras_recortar(input.nombre.as_str()) || vacio_tras_recortar(input.prefijo.as_str()) {
        return Err(validacion("El nombre y el prefijo de la serie son obligatorios"));
    }
    Ok(())
}

/// Fila de una serie nueva: numeración desde 1.
pub fn serie_creada(id: i64, input: CrearSerieInput) -> (r: SerieRow)
    ensures
        r.id == id,
        r.empresa_id == input.empresa_id,
        r.nombre == input.nombre,
        r.prefijo == input.prefijo,
        r.siguiente_numero == 1,
{
    SerieRow { id, empresa_id: input.empresa_id, nombre: input.nombre, prefijo: input.prefijo, siguiente_numero: 1 }
}

} // verus!

verus! {

// ─── Clientes ─────────────────────────────────────────────────────────────────

/// Texto opcional recortado; vacío cuenta como ausente.
pub open spec fn recortado_opcional(o: Option<String>) -> Option<Seq<char>> {
    match o {
        Some(s) => if solo_espacios(s@) {
            None
        } else {
            Some(crate::texto::recortar(s@))
        },
        None => None,
    }
}

pub open spec fn vista_opcional(o: Option<String>) -> Option<Seq<char>> {
    match o {
        Some(s) => Some(s@),
        None => None,
    }
}

/// Recorta un texto opcional y descarta el vacío.
pub fn trim_opt(v: Option<String>) -> (r: Option<String>)
    ensures
        vista_opcional(r) == recortado_opcional(v),
{
    match v {
        Some(s) => {
            let t = crate::texto::recortado(s.as_str());
            proof {
                crate::texto::lema_recortar_vacio(s@);
            }
            if crate::texto::caracteres(t.as_str()).len() == 0 {
                None
            } else {
                Some(t)
            }
        },
        None => None,
    }
}

/// Texto recortado o, si falta o queda vacío, el valor por defecto.
pub open spec fn recortado_o(o: Option<String>, defecto: Seq<char>) -> Seq<char> {
    match recortado_opcional(o) {
        Some(t) => t,
        None => defecto,
    }
}

pub fn texto_o_defecto(v: &Option<String>, defecto: &str) -> (r: String)
    ensures
        r@ == recortado_o(*v, defecto@),
{
    let copia = match v {
        Some(s) => Some(s.clone()),
        None => None,
    };
    match trim_opt(copia) {
        Some(t) => t,
        None => copiar(defecto),
    }
}

pub open spec fn bandera(b: Option<bool>) -> i64 {
    if b == Some(true) {
        1
    } else {
        0
    }
}

fn bandera_exec(b: Option<bool>) -> (r: i64)
    ensures
        r == bandera(b),
{
    match b {
        Some(true) => 1,
        _ => 0,
    }
}

pub struct ClienteRow {
    pub id: i64,
    pub empresa_id: i64,
    /// Razón social / nombre completo del cliente
    pub nombre: String,
    /// NIF / CIF / NIE / VAT-ID
    pub nif: Option<String>,
    /// Nombre comercial (puede diferir de la razón social)
    pub nombre_comercial: Option<String>,
    /// Tipo de entidad: "Empresa" | "Autónomo" | "Entidad Pública"
    pub tipo_entidad: String,
    pub email: Option<String>,
    pub telefono: Option<String>,
    pub persona_contacto: Option<String>,
    pub direccion: Option<String>,
    pub codigo_postal: Option<String>,
    pub poblacion: Option<String>,
    pub provincia: Option<String>,
    pub pais: String,
    /// 0 / 1
    pub aplica_irpf: i64,
    /// 0 / 1
    pub aplica_recargo_eq: i64,
    /// 0 / 1
    pub operacion_intracomunitaria: i64,
    pub metodo_pago_defecto: Option<String>,
    pub dias_vencimiento: i64,
    pub iban_cuenta: Option<String>,
    pub dir3_oficina_contable: Option<String>,
    pub dir3_organo_gestor: Option<String>,
    pub dir3_unidad_tramitadora: Option<String>,
}

pub struct CrearClienteInput {
    pub empresa_id: i64,
    pub nombre: String,
    pub nif: Option<String>,
    pub nombre_comercial: Option<String>,
    pub tipo_entidad: Option<String>,
    pub email: Option<String>,
    pub telefono: Option<String>,
    pub persona_contacto: Option<String>,
    pub direccion: Option<String>,
    pub codigo_postal: Option<String>,
    pub poblacion: Option<String>,
    pub provincia: Option<String>,
    pub pais: Option<String>,
    pub aplica_irpf: Option<bool>,
    pub aplica_recargo_eq: Option<bool>,
    pub operacion_intracomunitaria: Option<bool>,
    pub metodo_pago_defecto: Option<String>,
    pub dias_vencimiento: Option<i64>,
    pub iban_cuenta: Option<String>,
    pub dir3_oficina_contable: Option<String>,
    pub dir3_organo_gestor: Option<String>,
    pub dir3_unidad_tramitadora: Option<String>,
}

pub struct ActualizarClienteInput {
    pub id: i64,
    pub empresa_id: i64,
    pub nombre: String,
    pub nif: Option<String>,
    pub nombre_comercial: Option<String>,
    pub tipo_entidad: Option<String>,
    pub email: Option<String>,
    pub telefono: Option<String>,
    pub persona_contacto: Option<String>,
    pub direccion: Option<String>,
    pub codigo_postal: Option<String>,
    pub poblacion: Option<String>,
    pub provincia: Option<String>,
    pub pais: Option<String>,
    pub aplica_irpf: Option<bool>,
    pub aplica_recargo_eq: Option<bool>,
    pub operacion_intracomunitaria: Option<bool>,
    pub metodo_pago_defecto: Option<String>,
    pub dias_vencimiento: Option<i64>,
    pub iban_cuenta: Option<String>,
    pub dir3_oficina_contable: Option<String>,
    pub dir3_organo_gestor: Option<String>,
    pub dir3_unidad_tramitadora: Option<String>,
}

/// `r` es la fila normalizada del cliente `e` con identificador `id`:
/// textos recortados (vacío = ausente), tipo "Empresa" y país "ES" por
/// defecto, banderas como 0/1 y 30 días de vencimiento si no se indican.
pub open spec fn cliente_normalizado(r: ClienteRow, id: i64, e: CrearClienteInput) -> bool {
    &&& r.id == id
    &&& r.empresa_id == e.empresa_id
    &&& r.nombre@ == crate::texto::recortar(e.nombre@)
    &&& vista_opcional(r.nif) == recortado_opcional(e.nif)
    &&& vista_opcional(r.nombre_comercial) == recortado_opcional(e.nombre_comercial)
    &&& r.tipo_entidad@ == recortado_o(e.tipo_entidad, "Empresa"@)
    &&& vista_opcional(r.email) == recortado_opcional(e.email)
    &&& vista_opcional(r.telefono) == recortado_opcional(e.telefono)
    &&& vista_opcional(r.persona_contacto) == recortado_opcional(e.persona_contacto)
    &&& vista_opcional(r.direccion) == recortado_opcional(e.direccion)
    &&& vista_opcional(r.codigo_postal) == recortado_opcional(e.codigo_postal)
    &&& vista_opcional(r.poblacion) == recortado_opcional(e.poblacion)
    &&& vista_opcional(r.provincia) == recortado_opcional(e.provincia)
    &&& r.pais@ == recortado_o(e.pais, "ES"@)
    &&& r.aplica_irpf == bandera(e.aplica_irpf)
    &&& r.aplica_recargo_eq == bandera(e.aplica_recargo_eq)
    &&& r.operacion_intracomunitaria == bandera(e.operacion_intracomunitaria)
    &&& vista_opcional(r.metodo_pago_defecto) == recortado_opcional(e.metodo_pago_defecto)
    &&& r.dias_vencimiento == match e.dias_vencimiento {
        Some(d) => d,
        None => 30,
    }
    &&& vista_opcional(r.iban_cuenta) == recortado_opcional(e.iban_cuenta)
    &&& vista_opcional(r.dir3_oficina_contable) == recortado_opcional(e.dir3_oficina_contable)
    &&& vista_opcional(r.dir3_organo_gestor) == recortado_opcional(e.dir3_organo_gestor)
    &&& vista_opcional(r.dir3_unidad_tramitadora) == recortado_opcional(e.dir3_unidad_tramitadora)
}

/// Un cliente nuevo necesita `empresa_id` positivo y nombre.
pub fn validar_cliente_nuevo(input: &CrearClienteInput) -> (r: AppResult<()>)
    ensures
        resultado_validacion(
            r,
            if input.empresa_id <= 0 || solo_espacios(input.nombre@) {
                Some("empresa_id válido y nombre del cliente son obligatorios"@)
            } else {
                None
            },
        ),
{
    if input.empresa_id <= 0 || vacio_tras_recortar(input.nombre.as_str()) {
        return Err(validacion("empresa_id válido y nombre del cliente son obligatorios"));
    }
    Ok(())
}

/// Normaliza los datos de un cliente con el identificador dado.
pub fn normalizar_cliente(id: i64, input: CrearClienteInput) -> (r: ClienteRow)
    ensures
        cliente_normalizado(r, id, input),
{
    let tipo_entidad = texto_o_defecto(&input.tipo_entidad, "Empresa");
    let pais = texto_o_defecto(&input.pais, "ES");
    let dias_vencimiento = match input.dias_vencimiento {
        Some(d) => d,
        None => 30,
    };
    ClienteRow {
        id,
        empresa_id: input.empresa_id,
        nombre: crate::texto::recortado(input.nombre.as_str()),
        nif: trim_opt(input.nif),
        nombre_comercial: trim_opt(input.nombre_comercial),
        tipo_entidad,
        email: trim_opt(input.email),
        telefono: trim_opt(input.telefono),
        persona_contacto: trim_opt(input.persona_contacto),
        direccion: trim_opt(input.direccion),
        codigo_postal: trim_opt(input.codigo_postal),
        poblacion: trim_opt(input.poblacion),
        provincia: trim_opt(input.provincia),
        pais,
        aplica_irpf: bandera_exec(input.aplica_irpf),
        aplica_recargo_eq: bandera_exec(input.aplica_recargo_eq),
        operacion_intracomunitaria: bandera_exec(input.operacion_intracomunitaria),
        metodo_pago_defecto: trim_opt(input.metodo_pago_defecto),
        dias_vencimiento,
        iban_cuenta: trim_opt(input.iban_cuenta),
        dir3_oficina_contable: trim_opt(input.dir3_oficina_contable),
        dir3_organo_gestor: trim_opt(input.dir3_organo_gestor),
        dir3_unidad_tramitadora: trim_opt(input.dir3_unidad_tramitadora),
    }
}

/// Al actualizar, `id`, `empresa_id` y nombre son obligatorios.
pub fn validar_cliente_actualizado(input: &ActualizarClienteInput) -> (r: AppResult<()>)
    ensures
        resultado_validacion(
            r,
            if input.id <= 0 || input.empresa_id <= 0 || solo_espacios(input.nombre@) {
                Some("id, empresa_id válidos y nombre son obligatorios"@)
            } else {
                None
            },
        ),
{
    if input.id <= 0 || input.empresa_id <= 0 || vacio_tras_recortar(input.nombre.as_str()) {
        return Err(validacion("id, empresa_id válidos y nombre son obligatorios"));
    }
    Ok(())
}

/// Datos de un cliente actualizado sin su identificador.
pub open spec fn sin_id(a: ActualizarClienteInput, c: CrearClienteInput) -> bool {
    &&& c.empresa_id == a.empresa_id
    &&& c.nombre == a.nombre
    &&& c.nif == a.nif
    &&& c.nombre_comercial == a.nombre_comercial
    &&& c.tipo_entidad == a.tipo_entidad
    &&& c.email == a.email
    &&& c.telefono == a.telefono
    &&& c.persona_contacto == a.persona_contacto
    &&& c.direccion == a.direccion
    &&& c.codigo_postal == a.codigo_postal
    &&& c.poblacion == a.poblacion
    &&& c.provincia == a.provincia
    &&& c.pais == a.pais
    &&& c.aplica_irpf == a.aplica_irpf
    &&& c.aplica_recargo_eq == a.aplica_recargo_eq
    &&& c.operacion_intracomunitaria == a.operacion_intracomunitaria
    &&& c.metodo_pago_defecto == a.metodo_pago_defecto
    &&& c.dias_vencimiento == a.dias_vencimiento
    &&& c.iban_cuenta == a.iban_cuenta
    &&& c.dir3_oficina_contable == a.dir3_oficina_contable
    &&& c.dir3_organo_gestor == a.dir3_organo_gestor
    &&& c.dir3_unidad_tramitadora == a.dir3_unidad_tramitadora
}

/// Normaliza los datos de un cliente actualizado; la fila conserva su `id`.
pub fn normalizar_cliente_actualizado(input: ActualizarClienteInput) -> (r: ClienteRow)
    ensures
        exists|c: CrearClienteInput| sin_id(input, c) && #[trigger] cliente_normalizado(r, input.id, c),
{
    let id = input.id;
    let c = CrearClienteInput {
        empresa_id: input.empresa_id,
        nombre: input.nombre,
        nif: input.nif,
        nombre_comercial: input.nombre_comercial,
        tipo_entidad: input.tipo_entidad,
        email: input.email,
        telefono: input.telefono,
        persona_contacto: input.persona_contacto,
        direccion: input.direccion,
        codigo_postal: input.codigo_postal,
        poblacion: input.poblacion,
        provincia: input.provincia,
        pais: input.pais,
        aplica_irpf: input.aplica_irpf,
        aplica_recargo_eq: input.aplica_recargo_eq,
        operacion_intracomunitaria: input.operacion_intracomunitaria,
        metodo_pago_defecto: input.metodo_pago_defecto,
        dias_vencimiento: input.dias_vencimiento,
        iban_cuenta: input.iban_cuenta,
        dir3_oficina_contable: input.dir3_oficina_contable,
        dir3_organo_gestor: input.dir3_organo_gestor,
        dir3_unidad_tramitadora: input.dir3_unidad_tramitadora,
    };
    let ghost cg = c;
    let r = normalizar_cliente(id, c);
    assert(sin_id(input, cg) && cliente_normalizado(r, input.id, cg));
    r
}

// ─── Productos ────────────────────────────────────────────────────────────────

/// Un producto necesita `empresa_id` positivo, nombre y precio no negativo.
pub fn validar_producto(empresa_id: i64, nombre: &str, precio_unitario: i64) -> (r: AppResult<()>)
    ensures
        resultado_validacion(
            r,
            if empresa_id <= 0 || solo_espacios(nombre@) {
                Some("empresa_id válido y nombre del producto son obligatorios"@)
            } else if precio_unitario < 0 {
                Some("El precio unitario no puede ser negativo"@)
            } else {
                None
            },
        ),
{
    if empresa_id <= 0 || vacio_tras_recortar(nombre) {
        return Err(validacion("empresa_id válido y nombre del producto son obligatorios"));
    }
    if precio_unitario < 0 {
        return Err(validacion("El precio unitario no puede ser negativo"));
    }
    Ok(())
}

} // verus!

verus! {

// ─── Analítica avanzada ───────────────────────────────────────────────────────

/// Parámetros de filtrado opcionales para la analítica.
pub struct AdvancedAnalyticsParams {
    /// ID de la empresa sobre la que calcular analítica.
    pub empresa_id: i64,
    /// Fecha de inicio en formato ISO-8601 (inclusive), ej. "2026-01-01".
    pub fecha_inicio: Option<String>,
    /// Fecha de fin en formato ISO-8601 (inclusive), ej. "2026-03-31".
    pub fecha_fin: Option<String>,
    /// Tipo de entidad: "Empresa", "Autónomo" o "Entidad Pública".
    pub tipo_entidad: Option<String>,
    /// Texto libre para filtrar por concepto/descripción de línea de factura.
    pub texto_producto: Option<String>,
}

/// Resultado del motor de analítica.
pub struct AdvancedAnalyticsResult {
    /// Suma de bases imponibles (subtotales, en céntimos).
    pub total_base_imponible: i64,
    /// Suma de totales de factura con IVA incluido (en céntimos).
    pub total_facturado: i64,
    /// Número de facturas que cumplen los filtros.
    pub num_facturas: i64,
    /// Número de líneas de factura que cumplen los filtros.
    pub num_lineas: i64,
}

/// Consulta SQL de la analítica y valores de sus parámetros `?2`..`?5`
/// (`?1` es siempre `empresa_id`).
pub struct ConsultaAnalitica {
    pub sql: String,
    pub fecha_inicio: Option<String>,
    pub fecha_fin: Option<String>,
    pub tipo_entidad: Option<String>,
    pub texto_producto: Option<String>,
}

/// Filtro presente si el texto no está en blanco (se usa sin recortar).
pub open spec fn filtro(o: Option<String>) -> Option<Seq<char>> {
    match o {
        Some(s) => if solo_espacios(s@) {
            None
        } else {
            Some(s@)
        },
        None => None,
    }
}

/// Filtro de tipo de entidad: además, `Todos` equivale a no filtrar.
pub open spec fn filtro_tipo(o: Option<String>) -> Option<Seq<char>> {
    match filtro(o) {
        Some(t) => if t == "Todos"@ {
            None
        } else {
            Some(t)
        },
        None => None,
    }
}

/// Patrón `LIKE` del texto de producto.
pub open spec fn filtro_texto(o: Option<String>) -> Option<Seq<char>> {
    match filtro(o) {
        Some(t) => Some("%"@ + t + "%"@),
        None => None,
    }
}

/// Cláusula `WHERE` con una condición por filtro presente.
pub open spec fn clausula_where(p: AdvancedAnalyticsParams) -> Seq<char> {
    let c1: Seq<char> = if filtro(p.fecha_inicio) is Some { " AND fc.fecha_emision >= ?2"@ } else { Seq::empty() };
    let c2: Seq<char> = if filtro(p.fecha_fin) is Some { " AND fc.fecha_emision <= ?3"@ } else { Seq::empty() };
    let c3: Seq<char> = if filtro_tipo(p.tipo_entidad) is Some { " AND c.tipo_entidad = ?4"@ } else { Seq::empty() };
    let c4: Seq<char> = if filtro_texto(p.texto_producto) is Some { " AND fl.concepto_descripcion LIKE ?5"@ } else { Seq::empty() };
    "WHERE fc.empresa_id = ?1"@ + c1 + c2 + c3 + c4
}

/// Consulta completa de la analítica: las facturas que cumplen los filtros
/// se agrupan primero (una fila por factura, con sus líneas que los cumplen)
/// y después se suman sus bases y totales, de modo que dos facturas con el
/// mismo importe cuentan las dos.
pub open spec fn sql_analitica(p: AdvancedAnalyticsParams) -> Seq<char> {
    "\n        SELECT\n            COALESCE(SUM(f.base_imponible), 0) AS total_base_imponible,\n            COALESCE(SUM(f.total_factura), 0)  AS total_facturado,\n            COUNT(f.id)                        AS num_facturas,\n            COALESCE(SUM(f.lineas), 0)         AS num_lineas\n        FROM (\n            SELECT fc.id, fc.base_imponible, fc.total_factura, COUNT(fl.id) AS lineas\n            FROM facturas_cabecera fc\n            JOIN contactos          c  ON c.id = fc.cliente_id\n            JOIN facturas_lineas    fl ON fl.factura_id = fc.id\n            "@
        + clausula_where(p) + "\n            GROUP BY fc.id\n        ) f\n        "@
}

fn filtro_exec(o: &Option<String>) -> (r: Option<String>)
    ensures
        vista_opcional(r) == filtro(*o),
{
    match o {
        Some(s) => if vacio_tras_recortar(s.as_str()) {
            None
        } else {
            Some(s.clone())
        },
        None => None,
    }
}

/// Construye la consulta de analítica con los filtros presentes; los valores
/// van siempre como parámetros, nunca dentro del texto SQL.
pub fn construir_consulta_analitica(params: &AdvancedAnalyticsParams) -> (r: ConsultaAnalitica)
    ensures
        r.sql@ == sql_analitica(*params),
        vista_opcional(r.fecha_inicio) == filtro(params.fecha_inicio),
        vista_opcional(r.fecha_fin) == filtro(params.fecha_fin),
        vista_opcional(r.tipo_entidad) == filtro_tipo(params.tipo_entidad),
        vista_opcional(r.texto_producto) == filtro_texto(params.texto_producto),
{
    let fecha_inicio = filtro_exec(&params.fecha_inicio);
    let fecha_fin = filtro_exec(&params.fecha_fin);
    let tipo_entidad = match filtro_exec(&params.tipo_entidad) {
        Some(t) => if texto_igual(t.as_str(), "Todos") {
            None
        } else {
            Some(t)
        },
        None => None,
    };
    let texto_producto = match filtro_exec(&params.texto_producto) {
        Some(t) => {
            let mut p = copiar("%");
            agregar_texto(&mut p, t.as_str());
            agregar_texto(&mut p, "%");
            Some(p)
        },
        None => None,
    };
    let mut where_clause = copiar("WHERE fc.empresa_id = ?1");
    if fecha_inicio.is_some() {
        agregar_texto(&mut where_clause, " AND fc.fecha_emision >= ?2");
    }
    if fecha_fin.is_some() {
        agregar_texto(&mut where_clause, " AND fc.fecha_emision <= ?3");
    }
    if tipo_entidad.is_some() {
        agregar_texto(&mut where_clause, " AND c.tipo_entidad = ?4");
    }
    if texto_producto.is_some() {
        agregar_texto(&mut where_clause, " AND fl.concepto_descripcion LIKE ?5");
    }
    let mut sql = copiar(
        "\n        SELECT\n            COALESCE(SUM(f.base_imponible), 0) AS total_base_imponible,\n            COALESCE(SUM(f.total_factura), 0)  AS total_facturado,\n            COUNT(f.id)                        AS num_facturas,\n            COALESCE(SUM(f.lineas), 0)         AS num_lineas\n        FROM (\n            SELECT fc.id, fc.base_imponible, fc.total_factura, COUNT(fl.id) AS lineas\n            FROM facturas_cabecera fc\n            JOIN contactos          c  ON c.id = fc.cliente_id\n            JOIN facturas_lineas    fl ON fl.factura_id = fc.id\n            ",
    );
    agregar_texto(&mut sql, where_clause.as_str());
    agregar_texto(&mut sql, "\n            GROUP BY fc.id\n        ) f\n        ");
    ConsultaAnalitica { sql, fecha_inicio, fecha_fin, tipo_entidad, texto_producto }
}

/// Celda del mapa de calor: facturación de un concepto en un mes.
pub struct HeatmapCeldaRow {
    pub anio_mes: String,
    pub concepto: String,
    pub total_facturado: i64,
}

/// Los filtros de fecha son inclusivos: con fecha de inicio la consulta
/// exige `fc.fecha_emision >= ?2`, y con fecha de fin `fc.fecha_emision <= ?3`,
/// donde `?2` y `?3` son esas fechas; una factura emitida el mismo día de fin
/// (o de inicio) cuenta. La consulta filtra siempre por la empresa `?1`.
pub proof fn ley_fechas_inclusivas(p: AdvancedAnalyticsParams, r: ConsultaAnalitica)
    requires
        r.sql@ == sql_analitica(p),
        vista_opcional(r.fecha_inicio) == filtro(p.fecha_inicio),
        vista_opcional(r.fecha_fin) == filtro(p.fecha_fin),
    ensures
        contiene(r.sql@, "WHERE fc.empresa_id = ?1"@),
        p.fecha_inicio matches Some(d) ==> (!solo_espacios(d@) ==> (contiene(r.sql@, "fc.fecha_emision >= ?2"@)
            && vista_opcional(r.fecha_inicio) == Some(d@))),
        p.fecha_fin matches Some(d) ==> (!solo_espacios(d@) ==> (contiene(r.sql@, "fc.fecha_emision <= ?3"@)
            && vista_opcional(r.fecha_fin) == Some(d@))),
{
    reveal_strlit("WHERE fc.empresa_id = ?1");
    reveal_strlit(" AND fc.fecha_emision >= ?2");
    reveal_strlit(" AND fc.fecha_emision <= ?3");
    reveal_strlit("fc.fecha_emision >= ?2");
    reveal_strlit("fc.fecha_emision <= ?3");
    let w: Seq<char> = "WHERE fc.empresa_id = ?1"@;
    let c1: Seq<char> = if filtro(p.fecha_inicio) is Some { " AND fc.fecha_emision >= ?2"@ } else { Seq::empty() };
    let c2: Seq<char> = if filtro(p.fecha_fin) is Some { " AND fc.fecha_emision <= ?3"@ } else { Seq::empty() };
    let c3: Seq<char> = if filtro_tipo(p.tipo_entidad) is Some { " AND c.tipo_entidad = ?4"@ } else { Seq::empty() };
    let c4: Seq<char> = if filtro_texto(p.texto_producto) is Some { " AND fl.concepto_descripcion LIKE ?5"@ } else { Seq::empty() };
    let cw = clausula_where(p);
    assert(cw == w + c1 + c2 + c3 + c4);
    let h: Seq<char> = "\n        SELECT\n            COALESCE(SUM(f.base_imponible), 0) AS total_base_imponible,\n            COALESCE(SUM(f.total_factura), 0)  AS total_facturado,\n            COUNT(f.id)                        AS num_facturas,\n            COALESCE(SUM(f.lineas), 0)         AS num_lineas\n        FROM (\n            SELECT fc.id, fc.base_imponible, fc.total_factura, COUNT(fl.id) AS lineas\n            FROM facturas_cabecera fc\n            JOIN contactos          c  ON c.id = fc.cliente_id\n            JOIN facturas_lineas    fl ON fl.factura_id = fc.id\n            "@;
    let t: Seq<char> = "\n            GROUP BY fc.id\n        ) f\n        "@;
    assert(r.sql@ == h + cw + t);
    // La empresa
    assert(cw =~= Seq::<char>::empty() + w + (c1 + c2 + c3 + c4));
    crate::texto::lema_contiene_medio(Seq::<char>::empty(), w, c1 + c2 + c3 + c4);
    crate::texto::lema_contiene_dentro(h, cw, t, w);
    // Fecha de inicio
    if filtro(p.fecha_inicio) is Some {
        let lit: Seq<char> = "fc.fecha_emision >= ?2"@;
        assert(c1.subrange(5, (5 + lit.len()) as int) =~= lit);
        assert(contiene(c1, lit));
        assert(cw =~= w + c1 + (c2 + c3 + c4));
        crate::texto::lema_contiene_dentro(w, c1, c2 + c3 + c4, lit);
        crate::texto::lema_contiene_dentro(h, cw, t, lit);
    }
    // Fecha de fin
    if filtro(p.fecha_fin) is Some {
        let lit: Seq<char> = "fc.fecha_emision <= ?3"@;
        assert(c2.subrange(5, (5 + lit.len()) as int) =~= lit);
        assert(contiene(c2, lit));
        assert(cw =~= (w + c1) + c2 + (c3 + c4));
        crate::texto::lema_contiene_dentro(w + c1, c2, c3 + c4, lit);
        crate::texto::lema_contiene_dentro(h, cw, t, lit);
    }
}

} // verus!
