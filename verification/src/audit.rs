//! Registro de facturación inalterable: cadena de eventos enlazados por
//! SHA-256 y su verificación.

use vstd::prelude::*;

use crate::hash::{es_ascii, lema_prefijo_ascii, sha256_hex, sha256_hex_texto};
use crate::texto::{
    agregar_caracter, agregar_texto, decimal, decimal_entero, decimal_i64, decimal_u128,
    contiene, copiar, lema_contiene_dentro, prefijo_bytes, prefijo_de_bytes, texto_igual,
};

verus! {

// ─── Hash de un evento ───────────────────────────────────────────────────────

/// Forma canónica de un evento: campos unidos por `|`.
pub open spec fn canonico_log(
    timestamp: Seq<char>,
    tipo_evento: Seq<char>,
    empresa_id: int,
    factura_id: int,
    numero_serie: Seq<char>,
    hash_factura: Seq<char>,
    hash_anterior: Seq<char>,
) -> Seq<char> {
    timestamp + seq!['|'] + tipo_evento + seq!['|'] + decimal_entero(empresa_id) + seq!['|']
        + decimal_entero(factura_id) + seq!['|'] + numero_serie + seq!['|'] + hash_factura
        + seq!['|'] + hash_anterior
}

/// Hash de un evento: SHA-256 hexadecimal de su forma canónica.
pub open spec fn hash_log_de(
    timestamp: Seq<char>,
    tipo_evento: Seq<char>,
    empresa_id: int,
    factura_id: int,
    numero_serie: Seq<char>,
    hash_factura: Seq<char>,
    hash_anterior: Seq<char>,
) -> Seq<char> {
    sha256_hex(
        canonico_log(timestamp, tipo_evento, empresa_id, factura_id, numero_serie, hash_factura, hash_anterior),
    )
}

/// Calcula el SHA-256 encadenado de un evento de log.
/// Todos los campos se concatenan con `|` antes de hashear.
pub fn calcular_hash_log(
    timestamp: &str,
    tipo_evento: &str,
    empresa_id: i64,
    factura_id: i64,
    numero_serie: &str,
    hash_factura: &str,
    hash_anterior: &str,
) -> (r: String)
    ensures
        r@ == hash_log_de(timestamp@, tipo_evento@, empresa_id as int, factura_id as int, numero_serie@, hash_factura@, hash_anterior@),
        r@.len() == 64,
        es_ascii(r@),
{
    let mut c = String::new();
    agregar_texto(&mut c, timestamp);
    agregar_caracter(&mut c, '|');
    agregar_texto(&mut c, tipo_evento);
    agregar_caracter(&mut c, '|');
    let e = decimal_i64(empresa_id);
    agregar_texto(&mut c, e.as_str());
    agregar_caracter(&mut c, '|');
    let f = decimal_i64(factura_id);
    agregar_texto(&mut c, f.as_str());
    agregar_caracter(&mut c, '|');
    agregar_texto(&mut c, numero_serie);
    agregar_caracter(&mut c, '|');
    agregar_texto(&mut c, hash_factura);
    agregar_caracter(&mut c, '|');
    agregar_texto(&mut c, hash_anterior);
    assert(c@ == canonico_log(timestamp@, tipo_evento@, empresa_id as int, factura_id as int, numero_serie@, hash_factura@, hash_anterior@));
    sha256_hex_texto(c.as_str())
}

// ─── Eventos del registro ────────────────────────────────────────────────────

/// Una fila de `log_eventos_seguros`.
#[derive(Debug)]
pub struct RegistroLog {
    pub id: i64,
    pub timestamp: String,
    pub tipo_evento: String,
    pub empresa_id: i64,
    pub factura_id: Option<i64>,
    pub numero_serie: String,
    pub hash_factura: String,
    pub hash_anterior: String,
    pub hash_log: String,
}

/// Valor de encadenamiento del primer evento.
pub open spec fn genesis() -> Seq<char> {
    "GENESIS"@
}

/// Hash que debería tener una fila según sus propios campos
/// (un `factura_id` ausente cuenta como 0).
pub open spec fn hash_esperado(r: RegistroLog) -> Seq<char> {
    hash_log_de(
        r.timestamp@,
        r.tipo_evento@,
        r.empresa_id as int,
        match r.factura_id {
            Some(f) => f as int,
            None => 0,
        },
        r.numero_serie@,
        r.hash_factura@,
        r.hash_anterior@,
    )
}

/// Valor con el que debe encadenar la fila `i`: `GENESIS` o el hash de la anterior.
pub open spec fn enlace_esperado(filas: Seq<RegistroLog>, i: int) -> Seq<char> {
    if i == 0 {
        genesis()
    } else {
        filas[i - 1].hash_log@
    }
}

/// La factura referenciada por la fila sigue existiendo con el mismo hash.
/// `facturas[i]` es el `hash_registro` actual de la factura de la fila `i`
/// (`None` si ya no existe).
pub open spec fn factura_coherente(r: RegistroLog, factura: Option<String>) -> bool {
    match r.factura_id {
        Some(_) => match factura {
            Some(h) => h@ == r.hash_factura@,
            None => false,
        },
        None => true,
    }
}

/// La fila `i` supera las tres comprobaciones.
pub open spec fn fila_correcta(filas: Seq<RegistroLog>, facturas: Seq<Option<String>>, i: int) -> bool {
    &&& hash_esperado(filas[i]) == filas[i].hash_log@
    &&& filas[i].hash_anterior@ == enlace_esperado(filas, i)
    &&& factura_coherente(filas[i], facturas[i])
}

/// Toda la cadena es íntegra.
pub open spec fn cadena_integra(filas: Seq<RegistroLog>, facturas: Seq<Option<String>>) -> bool {
    forall|i: int| 0 <= i < filas.len() ==> #[trigger] fila_correcta(filas, facturas, i)
}

// ─── Mensajes de anomalía ────────────────────────────────────────────────────

pub open spec fn msg_hash_alterado(id: int, fila: nat, esperado: Seq<char>, encontrado: Seq<char>) -> Seq<char> {
    "HASH_LOG_ALTERADO: evento id="@ + decimal_entero(id) + " (fila "@ + decimal(fila) + "). Esperado="@
        + esperado + " Encontrado="@ + encontrado
}

pub open spec fn msg_genesis_roto(id: int) -> Seq<char> {
    "GENESIS_ROTO: el primer evento (id="@ + decimal_entero(id) + ") debería tener hash_anterior=GENESIS"@
}

pub open spec fn msg_cadena_rota(id: int, fila: nat) -> Seq<char> {
    "CADENA_ROTA: evento id="@ + decimal_entero(id) + " (fila "@ + decimal(fila)
        + "). hash_anterior no coincide con hash_log del evento anterior."@
}

pub open spec fn msg_factura_desaparecida(id: int, factura_id: int) -> Seq<char> {
    "FACTURA_DESAPARECIDA: evento id="@ + decimal_entero(id) + " referencia factura_id="@
        + decimal_entero(factura_id) + " que ya no existe."@
}

pub open spec fn msg_hash_factura_alterado(factura_id: int, en_log: Seq<char>, en_facturas: Seq<char>) -> Seq<char> {
    "HASH_FACTURA_ALTERADO: factura_id="@ + decimal_entero(factura_id) + " hash almacenado en log ("@
        + en_log + ") != hash en facturas ("@ + en_facturas + ")"@
}

/// Anomalías que produce la fila `i`, en el orden en que se comprueban.
pub open spec fn anomalias_fila(filas: Seq<RegistroLog>, facturas: Seq<Option<String>>, i: int) -> Seq<Seq<char>> {
    let r = filas[i];
    let de_hash = if hash_esperado(r) != r.hash_log@ {
        seq![msg_hash_alterado(r.id as int, (i + 1) as nat, hash_esperado(r).take(16), cabeza16(r.hash_log@))]
    } else {
        Seq::empty()
    };
    let de_enlace = if r.hash_anterior@ == enlace_esperado(filas, i) {
        Seq::empty()
    } else if i == 0 {
        seq![msg_genesis_roto(r.id as int)]
    } else {
        seq![msg_cadena_rota(r.id as int, (i + 1) as nat)]
    };
    let de_factura = match r.factura_id {
        Some(fid) => match facturas[i] {
            None => seq![msg_factura_desaparecida(r.id as int, fid as int)],
            Some(h) => if h@ != r.hash_factura@ {
                seq![msg_hash_factura_alterado(fid as int, cabeza16(r.hash_factura@), cabeza16(h@))]
            } else {
                Seq::empty()
            },
        },
        None => Seq::empty(),
    };
    de_hash + de_enlace + de_factura
}

/// Anomalías de las `n` primeras filas.
pub open spec fn anomalias_hasta(filas: Seq<RegistroLog>, facturas: Seq<Option<String>>, n: nat) -> Seq<Seq<char>>
    decreases n,
{
    if n == 0 {
        Seq::empty()
    } else {
        anomalias_hasta(filas, facturas, (n - 1) as nat) + anomalias_fila(filas, facturas, n - 1)
    }
}

/// Lo que un mensaje de anomalía cita de un hash: sus 16 primeros bytes, o
/// el hash entero si no se puede cortar ahí (más corto, o el byte 16 cae
/// dentro de un carácter).
pub open spec fn cabeza16(t: Seq<char>) -> Seq<char> {
    match prefijo_bytes(t, 16) {
        Some(p) => p,
        None => t,
    }
}

pub open spec fn vista_textos(v: Seq<String>) -> Seq<Seq<char>> {
    v.map_values(|s: String| s@)
}

proof fn lema_anomalias_fila_vacia(filas: Seq<RegistroLog>, facturas: Seq<Option<String>>, i: int)
    ensures
        (anomalias_fila(filas, facturas, i).len() == 0) == fila_correcta(filas, facturas, i),
{
}

proof fn lema_anomalias_hasta_vacia(filas: Seq<RegistroLog>, facturas: Seq<Option<String>>, n: nat)
    ensures
        (anomalias_hasta(filas, facturas, n).len() == 0) == (forall|i: int| 0 <= i < n ==> #[trigger] fila_correcta(filas, facturas, i)),
    decreases n,
{
    if n > 0 {
        lema_anomalias_hasta_vacia(filas, facturas, (n - 1) as nat);
        lema_anomalias_fila_vacia(filas, facturas, n - 1);
        if !fila_correcta(filas, facturas, n - 1) {
            assert(!(forall|i: int| 0 <= i < n ==> #[trigger] fila_correcta(filas, facturas, i)));
        }
    }
}

fn texto_hash_alterado(id: i64, fila: usize, esperado: &str, encontrado: &str) -> (s: String)
    ensures
        s@ == msg_hash_alterado(id as int, fila as nat, esperado@, encontrado@),
{
    let mut s = String::new();
    agregar_texto(&mut s, "HASH_LOG_ALTERADO: evento id=");
    agregar_texto(&mut s, decimal_i64(id).as_str());
    agregar_texto(&mut s, " (fila ");
    agregar_texto(&mut s, decimal_u128(fila as u128).as_str());
    agregar_texto(&mut s, "). Esperado=");
    agregar_texto(&mut s, esperado);
    agregar_texto(&mut s, " Encontrado=");
    agregar_texto(&mut s, encontrado);
    s
}

fn texto_genesis_roto(id: i64) -> (s: String)
    ensures
        s@ == msg_genesis_roto(id as int),
{
    let mut s = String::new();
    agregar_texto(&mut s, "GENESIS_ROTO: el primer evento (id=");
    agregar_texto(&mut s, decimal_i64(id).as_str());
    agregar_texto(&mut s, ") debería tener hash_anterior=GENESIS");
    s
}

fn texto_cadena_rota(id: i64, fila: usize) -> (s: String)
    ensures
        s@ == msg_cadena_rota(id as int, fila as nat),
{
    let mut s = String::new();
    agregar_texto(&mut s, "CADENA_ROTA: evento id=");
    agregar_texto(&mut s, decimal_i64(id).as_str());
    agregar_texto(&mut s, " (fila ");
    agregar_texto(&mut s, decimal_u128(fila as u128).as_str());
    agregar_texto(&mut s, "). hash_anterior no coincide con hash_log del evento anterior.");
    s
}

fn texto_factura_desaparecida(id: i64, factura_id: i64) -> (s: String)
    ensures
        s@ == msg_factura_desaparecida(id as int, factura_id as int),
{
    let mut s = String::new();
    agregar_texto(&mut s, "FACTURA_DESAPARECIDA: evento id=");
    agregar_texto(&mut s, decimal_i64(id).as_str());
    agregar_texto(&mut s, " referencia factura_id=");
    agregar_texto(&mut s, decimal_i64(factura_id).as_str());
    agregar_texto(&mut s, " que ya no existe.");
    s
}

fn texto_hash_factura_alterado(factura_id: i64, en_log: &str, en_facturas: &str) -> (s: String)
    ensures
        s@ == msg_hash_factura_alterado(factura_id as int, en_log@, en_facturas@),
{
    let mut s = String::new();
    agregar_texto(&mut s, "HASH_FACTURA_ALTERADO: factura_id=");
    agregar_texto(&mut s, decimal_i64(factura_id).as_str());
    agregar_texto(&mut s, " hash almacenado en log (");
    agregar_texto(&mut s, en_log);
    agregar_texto(&mut s, ") != hash en facturas (");
    agregar_texto(&mut s, en_facturas);
    agregar_texto(&mut s, ")");
    s
}

/// Los 16 primeros bytes de un hash, o el hash entero si no se puede cortar ahí.
fn primeros_16(texto: &str) -> (s: String)
    ensures
        s@ == cabeza16(texto@),
{
    match prefijo_de_bytes(texto, 16) {
        Some(p) => p,
        None => copiar(texto),
    }
}

/// Hash esperado de una fila.
fn hash_esperado_fila(r: &RegistroLog) -> (s: String)
    ensures
        s@ == hash_esperado(*r),
        s@.len() == 64,
        es_ascii(s@),
{
    let fid: i64 = match r.factura_id {
        Some(f) => f,
        None => 0,
    };
    calcular_hash_log(
        r.timestamp.as_str(),
        r.tipo_evento.as_str(),
        r.empresa_id,
        fid,
        r.numero_serie.as_str(),
        r.hash_factura.as_str(),
        r.hash_anterior.as_str(),
    )
}

/// Anomalías de la fila `i`.
fn anomalias_de_fila(filas: &Vec<RegistroLog>, facturas: &Vec<Option<String>>, i: usize) -> (v: Vec<String>)
    requires
        i < filas.len(),
        filas.len() == facturas.len(),
    ensures
        vista_textos(v@) == anomalias_fila(filas@, facturas@, i as int),
{
    let r = &filas[i];
    let mut v: Vec<String> = Vec::new();
    let ghost de_hash: Seq<Seq<char>>;
    let ghost de_enlace: Seq<Seq<char>>;
    // 1. Recalcular hash_log
    let esperado = hash_esperado_fila(r);
    if !texto_igual(esperado.as_str(), r.hash_log.as_str()) {
        proof {
            lema_prefijo_ascii(esperado@, 16);
        }
        let corto = primeros_16(esperado.as_str());
        let encontrado = primeros_16(r.hash_log.as_str());
        v.push(texto_hash_alterado(r.id, i + 1, corto.as_str(), encontrado.as_str()));
    }
    proof {
        de_hash = vista_textos(v@);
    }
    // 2. Encadenamiento con la fila anterior
    if i == 0 {
        if !texto_igual(r.hash_anterior.as_str(), "GENESIS") {
            v.push(texto_genesis_roto(r.id));
        }
    } else {
        if !texto_igual(r.hash_anterior.as_str(), filas[i - 1].hash_log.as_str()) {
            v.push(texto_cadena_rota(r.id, i + 1));
        }
    }
    proof {
        de_enlace = vista_textos(v@).subrange(de_hash.len() as int, v@.len() as int);
    }
    // 3. La factura referenciada conserva su hash
    match r.factura_id {
        Some(fid) => match &facturas[i] {
            None => {
                v.push(texto_factura_desaparecida(r.id, fid));
            },
            Some(h) => {
                if !texto_igual(h.as_str(), r.hash_factura.as_str()) {
                    let en_log = primeros_16(r.hash_factura.as_str());
                    let en_facturas = primeros_16(h.as_str());
                    v.push(texto_hash_factura_alterado(fid, en_log.as_str(), en_facturas.as_str()));
                }
            },
        },
        None => {},
    }
    assert(vista_textos(v@) =~= anomalias_fila(filas@, facturas@, i as int));
    v
}

/// Resultado de verificar la cadena de eventos de una empresa.
pub struct ResultadoIntegridad {
    pub integra: bool,
    pub total_eventos: i64,
    pub primer_evento: Option<String>,
    pub ultimo_evento: Option<String>,
    pub errores: Vec<String>,
}

} // verus!

verus! {

/// Recorre la cadena de eventos de una empresa (en orden de `id`) y valida
/// cada `hash_log` recalculándolo desde sus campos, el encadenamiento con la
/// fila anterior y que el hash de la factura referenciada no haya cambiado.
/// `facturas[i]` es el `hash_registro` actual de la factura de la fila `i`
/// (`None` si ya no existe; se ignora en filas sin factura).
pub fn verificar_integridad_interna(filas: &Vec<RegistroLog>, facturas: &Vec<Option<String>>) -> (r: ResultadoIntegridad)
    requires
        filas.len() == facturas.len(),
        filas.len() <= i64::MAX,
    ensures
        vista_textos(r.errores@) == anomalias_hasta(filas@, facturas@, filas.len() as nat),
        r.integra == (r.errores.len() == 0),
        r.integra == cadena_integra(filas@, facturas@),
        r.total_eventos == filas.len(),
        match r.primer_evento {
            Some(t) => filas.len() > 0 && t@ == filas@[0].timestamp@,
            None => filas.len() == 0,
        },
        match r.ultimo_evento {
            Some(t) => filas.len() > 0 && t@ == filas@.last().timestamp@,
            None => filas.len() == 0,
        },
{
    let n = filas.len();
    let mut errores: Vec<String> = Vec::new();
    let mut i: usize = 0;
    while i < n
        invariant
            n == filas.len(),
            filas.len() == facturas.len(),
            i <= n,
            vista_textos(errores@) == anomalias_hasta(filas@, facturas@, i as nat),
        decreases n - i,
    {
        let mut nuevas = anomalias_de_fila(filas, facturas, i);
        let ghost antes = errores@;
        let ghost nuevas_vista = nuevas@;
        errores.append(&mut nuevas);
        assert(vista_textos(errores@) =~= vista_textos(antes) + vista_textos(nuevas_vista)) by {
            assert(errores@ == antes + nuevas_vista);
        }
        i = i + 1;
    }
    proof {
        lema_anomalias_hasta_vacia(filas@, facturas@, n as nat);
    }
    let primer_evento = if n > 0 { Some(filas[0].timestamp.clone()) } else { None };
    let ultimo_evento = if n > 0 { Some(filas[n - 1].timestamp.clone()) } else { None };
    let integra = errores.len() == 0;
    ResultadoIntegridad {
        integra,
        total_eventos: n as i64,
        primer_evento,
        ultimo_evento,
        errores,
    }
}

} // verus!

verus! {

// ─── Alta de un evento ───────────────────────────────────────────────────────

/// Evento de alta de una factura, listo para insertarse en el registro.
pub struct EventoAlta {
    pub timestamp: String,
    pub tipo_evento: String,
    pub empresa_id: i64,
    pub factura_id: i64,
    pub numero_serie: String,
    pub hash_factura: String,
    pub hash_anterior: String,
    pub hash_log: String,
}

/// Etiqueta `PREFIJO-NNNN` de una factura.
pub open spec fn etiqueta_serie(prefijo: Option<String>, numero: int) -> Seq<char> {
    let p: Seq<char> = match prefijo {
        Some(p) => p@,
        None => Seq::empty(),
    };
    p + seq!['-'] + crate::texto::entero_con_ceros(numero, 4)
}

/// El evento encadena con `anterior` (o con `GENESIS`) y su hash es el de sus campos.
pub open spec fn evento_encadenado(e: EventoAlta, anterior: Option<Seq<char>>) -> bool {
    &&& e.hash_anterior@ == match anterior {
        Some(h) => h,
        None => genesis(),
    }
    &&& e.hash_log@ == hash_log_de(
        e.timestamp@,
        e.tipo_evento@,
        e.empresa_id as int,
        e.factura_id as int,
        e.numero_serie@,
        e.hash_factura@,
        e.hash_anterior@,
    )
}

/// `r` es la fila que queda guardada para el evento `e`.
pub open spec fn registro_de_alta(r: RegistroLog, e: EventoAlta) -> bool {
    &&& r.timestamp@ == e.timestamp@
    &&& r.tipo_evento@ == e.tipo_evento@
    &&& r.empresa_id == e.empresa_id
    &&& r.factura_id == Some(e.factura_id)
    &&& r.numero_serie@ == e.numero_serie@
    &&& r.hash_factura@ == e.hash_factura@
    &&& r.hash_anterior@ == e.hash_anterior@
    &&& r.hash_log@ == e.hash_log@
}

pub open spec fn vista_opcional(o: Option<String>) -> Option<Seq<char>> {
    match o {
        Some(s) => Some(s@),
        None => None,
    }
}

/// Prepara el evento `ALTA` de una factura recién insertada, encadenado con
/// el último `hash_log` de la empresa (`GENESIS` si no hay ninguno).
pub fn preparar_evento_alta(
    hash_log_anterior: Option<String>,
    prefijo_serie: Option<String>,
    numero: i64,
    timestamp: String,
    empresa_id: i64,
    factura_id: i64,
    hash_registro: String,
) -> (e: EventoAlta)
    ensures
        evento_encadenado(e, vista_opcional(hash_log_anterior)),
        e.timestamp@ == timestamp@,
        e.tipo_evento@ == "ALTA"@,
        e.empresa_id == empresa_id,
        e.factura_id == factura_id,
        e.numero_serie@ == etiqueta_serie(prefijo_serie, numero as int),
        e.hash_factura@ == hash_registro@,
{
    let hash_anterior = match hash_log_anterior {
        Some(h) => h,
        None => crate::texto::copiar("GENESIS"),
    };
    let mut numero_serie = match &prefijo_serie {
        Some(p) => p.clone(),
        None => String::new(),
    };
    agregar_caracter(&mut numero_serie, '-');
    let n = crate::texto::entero_ceros_i64(numero, 4);
    agregar_texto(&mut numero_serie, n.as_str());
    let tipo_evento = crate::texto::copiar("ALTA");
    let hash_log = calcular_hash_log(
        timestamp.as_str(),
        tipo_evento.as_str(),
        empresa_id,
        factura_id,
        numero_serie.as_str(),
        hash_registro.as_str(),
        hash_anterior.as_str(),
    );
    EventoAlta {
        timestamp,
        tipo_evento,
        empresa_id,
        factura_id,
        numero_serie,
        hash_factura: hash_registro,
        hash_anterior,
        hash_log,
    }
}

// ─── Leyes del registro ──────────────────────────────────────────────────────

/// Un registro sin eventos es íntegro.
pub proof fn ley_registro_vacio_integro()
    ensures
        cadena_integra(Seq::empty(), Seq::empty()),
{
}

/// Añadir a un registro íntegro el evento de alta de una factura, encadenado
/// con el último `hash_log` del registro (o con `GENESIS` si está vacío) y
/// cuya factura conserva el hash con que se registró, deja el registro íntegro.
pub proof fn ley_alta_conserva_integridad(
    filas: Seq<RegistroLog>,
    facturas: Seq<Option<String>>,
    e: EventoAlta,
    r: RegistroLog,
    factura: Option<String>,
)
    requires
        filas.len() == facturas.len(),
        cadena_integra(filas, facturas),
        evento_encadenado(e, if filas.len() == 0 { None } else { Some(filas.last().hash_log@) }),
        registro_de_alta(r, e),
        factura matches Some(h) && h@ == e.hash_factura@,
    ensures
        cadena_integra(filas.push(r), facturas.push(factura)),
{
    let nf = filas.push(r);
    let nc = facturas.push(factura);
    assert forall|i: int| 0 <= i < nf.len() implies #[trigger] fila_correcta(nf, nc, i) by {
        if i < filas.len() {
            assert(fila_correcta(filas, facturas, i));
            assert(nf[i] == filas[i]);
            assert(nc[i] == facturas[i]);
            if i > 0 {
                assert(nf[i - 1] == filas[i - 1]);
            }
        } else {
            assert(nf[i] == r);
            assert(nc[i] == factura);
            if i > 0 {
                assert(nf[i - 1] == filas.last());
            }
        }
    }
}

/// Cambiar el `hash_log` guardado de un evento de un registro íntegro, sin
/// tocar sus demás campos, hace que el registro deje de ser íntegro.
pub proof fn ley_hash_log_alterado_se_detecta(
    filas: Seq<RegistroLog>,
    facturas: Seq<Option<String>>,
    k: int,
    alterada: RegistroLog,
)
    requires
        filas.len() == facturas.len(),
        cadena_integra(filas, facturas),
        0 <= k < filas.len(),
        alterada.id == filas[k].id,
        alterada.timestamp@ == filas[k].timestamp@,
        alterada.tipo_evento@ == filas[k].tipo_evento@,
        alterada.empresa_id == filas[k].empresa_id,
        alterada.factura_id == filas[k].factura_id,
        alterada.numero_serie@ == filas[k].numero_serie@,
        alterada.hash_factura@ == filas[k].hash_factura@,
        alterada.hash_anterior@ == filas[k].hash_anterior@,
        alterada.hash_log@ != filas[k].hash_log@,
    ensures
        !cadena_integra(filas.update(k, alterada), facturas),
{
    assert(fila_correcta(filas, facturas, k));
    let nf = filas.update(k, alterada);
    assert(nf[k] == alterada);
    assert(hash_esperado(alterada) == hash_esperado(filas[k]));
    assert(!fila_correcta(nf, facturas, k));
}

/// Cambiar el `hash_anterior` guardado de un evento de un registro íntegro
/// hace que el registro deje de ser íntegro: el enlace ya no coincide.
pub proof fn ley_enlace_alterado_se_detecta(
    filas: Seq<RegistroLog>,
    facturas: Seq<Option<String>>,
    k: int,
    alterada: RegistroLog,
)
    requires
        filas.len() == facturas.len(),
        cadena_integra(filas, facturas),
        0 <= k < filas.len(),
        alterada.hash_anterior@ != filas[k].hash_anterior@,
    ensures
        !cadena_integra(filas.update(k, alterada), facturas),
{
    assert(fila_correcta(filas, facturas, k));
    let nf = filas.update(k, alterada);
    assert(nf[k] == alterada);
    if k > 0 {
        assert(nf[k - 1] == filas[k - 1]);
    }
    assert(!fila_correcta(nf, facturas, k));
}

/// Si una factura registrada desaparece o cambia su hash, el registro deja
/// de ser íntegro.
pub proof fn ley_factura_alterada_se_detecta(
    filas: Seq<RegistroLog>,
    facturas: Seq<Option<String>>,
    k: int,
    nueva: Option<String>,
)
    requires
        filas.len() == facturas.len(),
        cadena_integra(filas, facturas),
        0 <= k < filas.len(),
        filas[k].factura_id is Some,
        match nueva {
            Some(h) => h@ != filas[k].hash_factura@,
            None => true,
        },
    ensures
        !cadena_integra(filas, facturas.update(k, nueva)),
{
    let nc = facturas.update(k, nueva);
    assert(nc[k] == nueva);
    assert(!fila_correcta(filas, nc, k));
}

/// Quitar un evento que no es el último de un registro íntegro hace que el
/// registro deje de ser íntegro, siempre que el `hash_log` quitado difiera
/// del valor con que encadenaba (el `hash_log` anterior, o `GENESIS` si era
/// el primero).
pub proof fn ley_borrado_se_detecta(filas: Seq<RegistroLog>, facturas: Seq<Option<String>>, k: int)
    requires
        filas.len() == facturas.len(),
        cadena_integra(filas, facturas),
        0 <= k < filas.len() - 1,
        filas[k].hash_log@ != enlace_esperado(filas, k),
    ensures
        !cadena_integra(filas.remove(k), facturas.remove(k)),
{
    assert(fila_correcta(filas, facturas, k + 1));
    let nf = filas.remove(k);
    let nc = facturas.remove(k);
    assert(nf[k] == filas[k + 1]);
    if k > 0 {
        assert(nf[k - 1] == filas[k - 1]);
    }
    assert(!fila_correcta(nf, nc, k));
}

} // verus!

verus! {

// ─── Fichero de inspección ───────────────────────────────────────────────────

/// Escape XML de un carácter.
pub open spec fn escape_xml_char(c: char) -> Seq<char> {
    if c == '&' {
        "&amp;"@
    } else if c == '<' {
        "&lt;"@
    } else if c == '>' {
        "&gt;"@
    } else if c == '"' {
        "&quot;"@
    } else if c == '\'' {
        "&apos;"@
    } else {
        seq![c]
    }
}

/// Texto con `&`, `<`, `>`, `"` y `'` escapados.
pub open spec fn escapar_xml(s: Seq<char>) -> Seq<char>
    decreases s.len(),
{
    if s.len() == 0 {
        Seq::empty()
    } else {
        escapar_xml(s.drop_last()) + escape_xml_char(s.last())
    }
}

fn escribir_escape_xml(out: &mut String, c: char)
    ensures
        final(out)@ == old(out)@ + escape_xml_char(c),
{
    if c == '&' {
        agregar_texto(out, "&amp;");
    } else if c == '<' {
        agregar_texto(out, "&lt;");
    } else if c == '>' {
        agregar_texto(out, "&gt;");
    } else if c == '"' {
        agregar_texto(out, "&quot;");
    } else if c == '\'' {
        agregar_texto(out, "&apos;");
    } else {
        agregar_caracter(out, c);
    }
}

/// Escribe `s` escapado para XML.
fn escribir_xml_escapado(out: &mut String, s: &str)
    ensures
        final(out)@ == old(out)@ + escapar_xml(s@),
{
    let v = crate::texto::caracteres(s);
    let ghost inicio = out@;
    let mut i: usize = 0;
    while i < v.len()
        invariant
            i <= v.len(),
            out@ == inicio + escapar_xml(v@.take(i as int)),
        decreases v.len() - i,
    {
        escribir_escape_xml(out, v[i]);
        assert(v@.take(i + 1).drop_last() == v@.take(i as int));
        i = i + 1;
    }
    assert(v@.take(v.len() as int) == v@);
}

/// El texto escapado no contiene `<`, `>`, `"` ni `'`: cada uno pasa a su
/// entidad.
pub proof fn ley_xml_escapado_sin_especiales(s: Seq<char>)
    ensures
        forall|i: int| 0 <= i < escapar_xml(s).len() ==> {
            let c = #[trigger] escapar_xml(s)[i];
            c != '<' && c != '>' && c != '"' && c != '\''
        },
    decreases s.len(),
{
    if s.len() > 0 {
        ley_xml_escapado_sin_especiales(s.drop_last());
        reveal_strlit("&amp;");
        reveal_strlit("&lt;");
        reveal_strlit("&gt;");
        reveal_strlit("&quot;");
        reveal_strlit("&apos;");
        let p = escapar_xml(s.drop_last());
        let e = escape_xml_char(s.last());
        assert forall|i: int| 0 <= i < (p + e).len() implies {
            let c = #[trigger] (p + e)[i];
            c != '<' && c != '>' && c != '"' && c != '\''
        } by {
            if i < p.len() {
                assert((p + e)[i] == p[i]);
            } else {
                assert((p + e)[i] == e[i - p.len()]);
            }
        }
    }
}

/// Escapa los caracteres especiales de XML.
pub fn escape_xml(s: &str) -> (r: String)
    ensures
        r@ == escapar_xml(s@),
{
    let mut r = String::new();
    escribir_xml_escapado(&mut r, s);
    r
}

/// Resultado de `char::is_alphanumeric` (propiedades Unicode `Alphabetic` o `Numeric`).
pub uninterp spec fn es_alfanumerico(c: char) -> bool;

/// `c.is_alphanumeric()`. Se confía en que el resultado es `es_alfanumerico(c)`
/// y en lo que la documentación de la biblioteca estándar fija para ASCII: son
/// alfanuméricos exactamente las letras `A`-`Z`, `a`-`z` y los dígitos `0`-`9`.
/// Fuera de ASCII el resultado sigue las tablas Unicode, que aquí no se describen.
#[verifier::external_body]
pub(crate) fn alfanumerico(c: char) -> (r: bool)
    ensures
        r == es_alfanumerico(c),
        (c as u32) < 0x80 ==> (r == (('0' <= c && c <= '9') || ('A' <= c && c <= 'Z') || ('a' <= c && c <= 'z'))),
{
    c.is_alphanumeric()
}

/// Cada carácter no alfanumérico se sustituye por `_`.
pub open spec fn nombre_seguro(s: Seq<char>) -> Seq<char> {
    s.map_values(|c: char| if es_alfanumerico(c) { c } else { '_' })
}

/// Sustituye por `_` los caracteres no alfanuméricos de un nombre de fichero.
pub fn escape_filename(s: &str) -> (r: String)
    ensures
        r@ == nombre_seguro(s@),
{
    let v = crate::texto::caracteres(s);
    let mut r = String::new();
    let mut i: usize = 0;
    while i < v.len()
        invariant
            i <= v.len(),
            r@ == nombre_seguro(v@.take(i as int)),
        decreases v.len() - i,
    {
        let c = v[i];
        let d = if alfanumerico(c) { c } else { '_' };
        agregar_caracter(&mut r, d);
        assert(nombre_seguro(v@.take(i + 1)) =~= nombre_seguro(v@.take(i as int)).push(d));
        i = i + 1;
    }
    assert(v@.take(v.len() as int) == v@);
    r
}

/// Evento tal como se exporta al fichero de inspección.
pub struct EventoXml {
    pub id: i64,
    pub timestamp: String,
    pub tipo_evento: String,
    pub numero_serie: String,
    pub hash_factura: String,
    pub hash_anterior: String,
    pub hash_log: String,
    pub factura_id: Option<i64>,
}

/// Primera parte del XML de un evento: identificador, fecha, tipo y serie.
pub open spec fn xml_evento_inicio(e: EventoXml) -> Seq<char> {
    "    <Evento>\n"@ + "      <Id>"@ + decimal_entero(e.id as int) + "</Id>\n"@ + "      <Timestamp>"@
        + e.timestamp@ + "</Timestamp>\n"@ + "      <TipoEvento>"@ + e.tipo_evento@ + "</TipoEvento>\n"@
        + "      <NumeroSerie>"@ + escapar_xml(e.numero_serie@) + "</NumeroSerie>\n"@
}

/// Factura del evento, si la tiene.
pub open spec fn xml_evento_factura(e: EventoXml) -> Seq<char> {
    match e.factura_id {
        Some(f) => "      <FacturaId>"@ + decimal_entero(f as int) + "</FacturaId>\n"@,
        None => Seq::empty(),
    }
}

/// Última parte del XML de un evento: los tres hashes.
pub open spec fn xml_evento_fin(e: EventoXml) -> Seq<char> {
    "      <HashFactura>"@ + e.hash_factura@ + "</HashFactura>\n"@ + "      <HashAnterior>"@
        + e.hash_anterior@ + "</HashAnterior>\n"@ + "      <HashLog>"@ + e.hash_log@ + "</HashLog>\n"@
        + "    </Evento>\n"@
}

/// Elemento `<Evento>` del fichero de inspección.
pub open spec fn xml_evento(e: EventoXml) -> Seq<char> {
    xml_evento_inicio(e) + xml_evento_factura(e) + xml_evento_fin(e)
}

pub open spec fn xml_eventos(ev: Seq<EventoXml>) -> Seq<char>
    decreases ev.len(),
{
    if ev.len() == 0 {
        Seq::empty()
    } else {
        xml_eventos(ev.drop_last()) + xml_evento(ev.last())
    }
}

pub open spec fn xml_anomalias(errores: Seq<Seq<char>>) -> Seq<char>
    decreases errores.len(),
{
    if errores.len() == 0 {
        Seq::empty()
    } else {
        xml_anomalias(errores.drop_last()) + "    <Anomalia>"@ + escapar_xml(errores.last()) + "</Anomalia>\n"@
    }
}

/// Concatenación de los `hash_log` de los eventos.
pub open spec fn hashes_concatenados(ev: Seq<EventoXml>) -> Seq<char>
    decreases ev.len(),
{
    if ev.len() == 0 {
        Seq::empty()
    } else {
        hashes_concatenados(ev.drop_last()) + ev.last().hash_log@
    }
}

/// Cabecera del fichero de inspección hasta el número de eventos.
pub open spec fn inicio_inspeccion(nombre: Seq<char>, nif: Seq<char>, anio: int, ahora: Seq<char>, n: nat) -> Seq<char> {
    "<?xml version=\"1.0\" encoding=\"UTF-8\"?>"@ + "\n"@
        + "<!-- Fichero de Inspección Tributaria - Registro de Facturación Inalterable -->"@ + "\n"@
        + "<!-- Generado cumpliendo RD 1007/2023 (Veri*factu) / Ley 8/2022 Crea y Crece -->"@ + "\n"@
        + "<RegistroFacturacion>\n"@ + "  <Cabecera>\n"@ + "    <NombreEmisor>"@ + escapar_xml(nombre)
        + "</NombreEmisor>\n"@ + "    <NifEmisor>"@ + escapar_xml(nif) + "</NifEmisor>\n"@
        + "    <EjercicioFiscal>"@ + decimal_entero(anio) + "</EjercicioFiscal>\n"@
        + "    <FechaGeneracion>"@ + ahora + "</FechaGeneracion>\n"@ + "    <TotalEventos>"@
        + decimal(n) + "</TotalEventos>\n"@
}

/// Línea del estado de integridad del registro.
pub open spec fn linea_estado(integra: bool) -> Seq<char> {
    let estado: Seq<char> = if integra { "ÍNTEGRA"@ } else { "COMPROMETIDA"@ };
    "    <EstadoIntegridad>"@ + estado + "</EstadoIntegridad>\n"@
}

/// Resto del fichero de inspección tras el estado de integridad.
pub open spec fn fin_inspeccion(
    eventos: Seq<EventoXml>,
    errores: Seq<Seq<char>>,
    hash_fichero: Seq<char>,
    version: Seq<char>,
) -> Seq<char> {
    let anomalias: Seq<char> = if errores.len() == 0 {
        Seq::empty()
    } else {
        "  <Anomalias>\n"@ + xml_anomalias(errores) + "  </Anomalias>\n"@
    };
    "    <HashFichero>"@ + hash_fichero + "</HashFichero>\n"@
        + "    <SistemaGenerador>Factelo v"@ + version + "</SistemaGenerador>\n"@ + "  </Cabecera>\n"@
        + "  <LogEventos>\n"@ + xml_eventos(eventos) + "  </LogEventos>\n"@ + anomalias
        + "</RegistroFacturacion>\n"@
}

/// Documento XML de inspección.
pub open spec fn xml_inspeccion(
    nombre: Seq<char>,
    nif: Seq<char>,
    anio: int,
    ahora: Seq<char>,
    eventos: Seq<EventoXml>,
    integra: bool,
    errores: Seq<Seq<char>>,
    hash_fichero: Seq<char>,
    version: Seq<char>,
) -> Seq<char> {
    inicio_inspeccion(nombre, nif, anio, ahora, eventos.len()) + linea_estado(integra)
        + fin_inspeccion(eventos, errores, hash_fichero, version)
}

fn escribir_evento_inicio(xml: &mut String, e: &EventoXml)
    ensures
        final(xml)@ == old(xml)@ + xml_evento_inicio(*e),
{
    agregar_texto(xml, "    <Evento>\n");
    agregar_texto(xml, "      <Id>");
    agregar_texto(xml, decimal_i64(e.id).as_str());
    agregar_texto(xml, "</Id>\n");
    agregar_texto(xml, "      <Timestamp>");
    agregar_texto(xml, e.timestamp.as_str());
    agregar_texto(xml, "</Timestamp>\n");
    agregar_texto(xml, "      <TipoEvento>");
    agregar_texto(xml, e.tipo_evento.as_str());
    agregar_texto(xml, "</TipoEvento>\n");
    agregar_texto(xml, "      <NumeroSerie>");
    escribir_xml_escapado(xml, e.numero_serie.as_str());
    agregar_texto(xml, "</NumeroSerie>\n");
    assert(xml@ =~= old(xml)@ + xml_evento_inicio(*e));
}

fn escribir_evento_fin(xml: &mut String, e: &EventoXml)
    ensures
        final(xml)@ == old(xml)@ + xml_evento_fin(*e),
{
    agregar_texto(xml, "      <HashFactura>");
    agregar_texto(xml, e.hash_factura.as_str());
    agregar_texto(xml, "</HashFactura>\n");
    agregar_texto(xml, "      <HashAnterior>");
    agregar_texto(xml, e.hash_anterior.as_str());
    agregar_texto(xml, "</HashAnterior>\n");
    agregar_texto(xml, "      <HashLog>");
    agregar_texto(xml, e.hash_log.as_str());
    agregar_texto(xml, "</HashLog>\n");
    agregar_texto(xml, "    </Evento>\n");
    assert(xml@ =~= old(xml)@ + xml_evento_fin(*e));
}

fn escribir_evento(xml: &mut String, e: &EventoXml)
    ensures
        final(xml)@ == old(xml)@ + xml_evento(*e),
{
    escribir_evento_inicio(xml, e);
    let ghost tras_inicio = xml@;
    match e.factura_id {
        Some(fid) => {
            agregar_texto(xml, "      <FacturaId>");
            agregar_texto(xml, decimal_i64(fid).as_str());
            agregar_texto(xml, "</FacturaId>\n");
        },
        None => {},
    }
    assert(xml@ =~= tras_inicio + xml_evento_factura(*e));
    escribir_evento_fin(xml, e);
    assert(xml@ =~= old(xml)@ + xml_evento(*e));
}

/// Hash del fichero: SHA-256 de la concatenación de los `hash_log` de los eventos.
pub fn hash_fichero(eventos: &Vec<EventoXml>) -> (r: String)
    ensures
        r@ == sha256_hex(hashes_concatenados(eventos@)),
        r@.len() == 64,
        es_ascii(r@),
{
    let mut todos = String::new();
    let mut i: usize = 0;
    while i < eventos.len()
        invariant
            i <= eventos.len(),
            todos@ == hashes_concatenados(eventos@.take(i as int)),
        decreases eventos.len() - i,
    {
        agregar_texto(&mut todos, eventos[i].hash_log.as_str());
        assert(eventos@.take(i + 1).drop_last() == eventos@.take(i as int));
        i = i + 1;
    }
    assert(eventos@.take(eventos.len() as int) == eventos@);
    sha256_hex_texto(todos.as_str())
}

/// Fichero de inspección guardado: su ruta y el número de eventos que contiene.
pub struct FicheroInspeccionResponse {
    pub ruta: String,
    pub total_eventos: usize,
}

/// Fichero de inspección: contenido, nombre y datos de resumen.
pub struct FicheroInspeccion {
    pub xml: String,
    pub nombre_fichero: String,
    pub hash_fichero: String,
    pub total_eventos: usize,
}

/// Nombre del fichero de inspección.
pub open spec fn nombre_fichero_inspeccion(nif: Seq<char>, anio: int, sello: Seq<char>, hash_fichero: Seq<char>) -> Seq<char> {
    "inspeccion_"@ + nombre_seguro(nif) + "_"@ + decimal_entero(anio) + "_"@ + sello + "_"@
        + hash_fichero.take(8) + ".xml"@
}

/// Construye el fichero XML de inspección con todos los eventos del año y
/// el estado de integridad del registro: el documento que después se firma
/// con AutoFirma en XAdES (`peticion_firma_inspeccion`). `HashFichero` es el
/// SHA-256 de los `hash_log` de sus eventos, cada uno encadenado con el
/// anterior. `ahora` es la fecha de generación
/// (`AAAA-MM-DDTHH:MM:SSZ`), `sello` la misma fecha compacta
/// (`AAAAMMDDHHMMSS`) y `version` la versión del programa.
pub fn construir_fichero_inspeccion(
    empresa_nombre: &str,
    empresa_nif: &str,
    anio: i32,
    ahora: &str,
    sello: &str,
    eventos: &Vec<EventoXml>,
    integridad: &ResultadoIntegridad,
    version: &str,
) -> (r: FicheroInspeccion)
    ensures
        r.hash_fichero@ == sha256_hex(hashes_concatenados(eventos@)),
        r.total_eventos == eventos.len(),
        r.xml@ == xml_inspeccion(
            empresa_nombre@,
            empresa_nif@,
            anio as int,
            ahora@,
            eventos@,
            integridad.integra,
            vista_textos(integridad.errores@),
            r.hash_fichero@,
            version@,
        ),
        r.nombre_fichero@ == nombre_fichero_inspeccion(empresa_nif@, anio as int, sello@, r.hash_fichero@),
{
    let total = eventos.len();
    let hash = hash_fichero(eventos);
    let mut xml = String::new();
    agregar_texto(&mut xml, "<?xml version=\"1.0\" encoding=\"UTF-8\"?>");
    agregar_texto(&mut xml, "\n");
    agregar_texto(&mut xml, "<!-- Fichero de Inspección Tributaria - Registro de Facturación Inalterable -->");
    agregar_texto(&mut xml, "\n");
    agregar_texto(&mut xml, "<!-- Generado cumpliendo RD 1007/2023 (Veri*factu) / Ley 8/2022 Crea y Crece -->");
    agregar_texto(&mut xml, "\n");
    agregar_texto(&mut xml, "<RegistroFacturacion>\n");
    agregar_texto(&mut xml, "  <Cabecera>\n");
    agregar_texto(&mut xml, "    <NombreEmisor>");
    escribir_xml_escapado(&mut xml, empresa_nombre);
    agregar_texto(&mut xml, "</NombreEmisor>\n");
    agregar_texto(&mut xml, "    <NifEmisor>");
    escribir_xml_escapado(&mut xml, empresa_nif);
    agregar_texto(&mut xml, "</NifEmisor>\n");
    agregar_texto(&mut xml, "    <EjercicioFiscal>");
    agregar_texto(&mut xml, decimal_i64(anio as i64).as_str());
    agregar_texto(&mut xml, "</EjercicioFiscal>\n");
    agregar_texto(&mut xml, "    <FechaGeneracion>");
    agregar_texto(&mut xml, ahora);
    agregar_texto(&mut xml, "</FechaGeneracion>\n");
    agregar_texto(&mut xml, "    <TotalEventos>");
    agregar_texto(&mut xml, decimal_u128(total as u128).as_str());
    agregar_texto(&mut xml, "</TotalEventos>\n");
    let ghost inicio_xml = xml@;
    assert(inicio_xml == inicio_inspeccion(empresa_nombre@, empresa_nif@, anio as int, ahora@, eventos@.len()));
    let mut estado = String::new();
    agregar_texto(&mut estado, "    <EstadoIntegridad>");
    if integridad.integra {
        agregar_texto(&mut estado, "ÍNTEGRA");
    } else {
        agregar_texto(&mut estado, "COMPROMETIDA");
    }
    agregar_texto(&mut estado, "</EstadoIntegridad>\n");
    assert(estado@ == linea_estado(integridad.integra));
    let mut xml_final = String::new();
    agregar_texto(&mut xml_final, "    <HashFichero>");
    agregar_texto(&mut xml_final, hash.as_str());
    agregar_texto(&mut xml_final, "</HashFichero>\n");
    agregar_texto(&mut xml_final, "    <SistemaGenerador>Factelo v");
    agregar_texto(&mut xml_final, version);
    agregar_texto(&mut xml_final, "</SistemaGenerador>\n");
    agregar_texto(&mut xml_final, "  </Cabecera>\n");
    agregar_texto(&mut xml_final, "  <LogEventos>\n");
    let ghost antes_eventos = xml_final@;
    let mut i: usize = 0;
    while i < eventos.len()
        invariant
            i <= eventos.len(),
            xml_final@ == antes_eventos + xml_eventos(eventos@.take(i as int)),
            xml@ == inicio_xml,
            estado@ == linea_estado(integridad.integra),
        decreases eventos.len() - i,
    {
        escribir_evento(&mut xml_final, &eventos[i]);
        assert(eventos@.take(i + 1).drop_last() == eventos@.take(i as int));
        i = i + 1;
    }
    assert(eventos@.take(eventos.len() as int) == eventos@);
    agregar_texto(&mut xml_final, "  </LogEventos>\n");
    let ghost antes_anomalias = xml_final@;
    let ghost errores = vista_textos(integridad.errores@);
    if integridad.errores.len() > 0 {
        agregar_texto(&mut xml_final, "  <Anomalias>\n");
        let ghost inicio = xml_final@;
        let mut k: usize = 0;
        while k < integridad.errores.len()
            invariant
                k <= integridad.errores.len(),
                errores == vista_textos(integridad.errores@),
                xml_final@ == inicio + xml_anomalias(errores.take(k as int)),
                xml@ == inicio_xml,
                estado@ == linea_estado(integridad.integra),
            decreases integridad.errores.len() - k,
        {
            agregar_texto(&mut xml_final, "    <Anomalia>");
            escribir_xml_escapado(&mut xml_final, integridad.errores[k].as_str());
            agregar_texto(&mut xml_final, "</Anomalia>\n");
            assert(errores.take(k + 1).drop_last() == errores.take(k as int));
            assert(errores.take(k + 1).last() == integridad.errores@[k as int]@);
            k = k + 1;
        }
        assert(errores.take(integridad.errores.len() as int) == errores);
        agregar_texto(&mut xml_final, "  </Anomalias>\n");
    }
    agregar_texto(&mut xml_final, "</RegistroFacturacion>\n");
    assert(xml_final@ == fin_inspeccion(eventos@, vista_textos(integridad.errores@), hash@, version@));
    agregar_texto(&mut xml, estado.as_str());
    agregar_texto(&mut xml, xml_final.as_str());
    // Nombre del fichero
    let mut nombre = crate::texto::copiar("inspeccion_");
    agregar_texto(&mut nombre, escape_filename(empresa_nif).as_str());
    agregar_texto(&mut nombre, "_");
    agregar_texto(&mut nombre, decimal_i64(anio as i64).as_str());
    agregar_texto(&mut nombre, "_");
    agregar_texto(&mut nombre, sello);
    agregar_texto(&mut nombre, "_");
    proof {
        lema_prefijo_ascii(hash@, 8);
    }
    let corto = match prefijo_de_bytes(hash.as_str(), 8) {
        Some(p) => p,
        None => String::new(),
    };
    agregar_texto(&mut nombre, corto.as_str());
    agregar_texto(&mut nombre, ".xml");
    FicheroInspeccion { xml, nombre_fichero: nombre, hash_fichero: hash, total_eventos: total }
}

/// El fichero de inspección declara el registro `ÍNTEGRA` cuando la
/// comprobación de integridad lo dio por íntegro y `COMPROMETIDA` cuando no.
pub proof fn ley_estado_integridad_del_fichero(
    nombre: Seq<char>,
    nif: Seq<char>,
    anio: int,
    ahora: Seq<char>,
    eventos: Seq<EventoXml>,
    integra: bool,
    errores: Seq<Seq<char>>,
    hash: Seq<char>,
    version: Seq<char>,
    xml: Seq<char>,
)
    requires
        xml == xml_inspeccion(nombre, nif, anio, ahora, eventos, integra, errores, hash, version),
    ensures
        integra ==> contiene(xml, "<EstadoIntegridad>ÍNTEGRA</EstadoIntegridad>"@),
        !integra ==> contiene(xml, "<EstadoIntegridad>COMPROMETIDA</EstadoIntegridad>"@),
{
    reveal_strlit("    <EstadoIntegridad>");
    reveal_strlit("ÍNTEGRA");
    reveal_strlit("COMPROMETIDA");
    reveal_strlit("</EstadoIntegridad>\n");
    reveal_strlit("<EstadoIntegridad>ÍNTEGRA</EstadoIntegridad>");
    reveal_strlit("<EstadoIntegridad>COMPROMETIDA</EstadoIntegridad>");
    let l = linea_estado(integra);
    let lit: Seq<char> = if integra {
        "<EstadoIntegridad>ÍNTEGRA</EstadoIntegridad>"@
    } else {
        "<EstadoIntegridad>COMPROMETIDA</EstadoIntegridad>"@
    };
    assert(l.subrange(4, (4 + lit.len()) as int) =~= lit);
    assert(contiene(l, lit));
    lema_contiene_dentro(
        inicio_inspeccion(nombre, nif, anio, ahora, eventos.len()),
        l,
        fin_inspeccion(eventos, errores, hash, version),
        lit,
    );
}

/// Argumentos de AutoFirma para firmar en XAdES, con SHA-256, el fichero de
/// inspección `entrada` y dejar el fichero firmado en `salida`; el usuario
/// elige su certificado en el almacén.
pub open spec fn argumentos_firma_inspeccion_de(entrada: Seq<char>, salida: Seq<char>) -> Seq<Seq<char>> {
    seq![
        "sign"@, "-certgui"@, "-store"@, "windows"@, "-i"@, entrada, "-o"@, salida, "-format"@,
        "xades"@, "-algorithm"@, "sha256"@,
    ]
}

/// Lo que se entrega a AutoFirma para firmar el fichero de inspección: el
/// documento que se escribe en `entrada` y los argumentos de la orden.
pub struct PeticionFirma {
    pub documento: String,
    pub argumentos: Vec<String>,
}

/// Petición de firma del fichero de inspección: se firma exactamente el XML
/// que construye `construir_fichero_inspeccion`, en XAdES con SHA-256.
pub fn peticion_firma_inspeccion(fichero: &FicheroInspeccion, entrada: &str, salida: &str) -> (r: PeticionFirma)
    ensures
        r.documento@ == fichero.xml@,
        crate::texto::vistas(r.argumentos@) == argumentos_firma_inspeccion_de(entrada@, salida@),
{
    let mut a: Vec<String> = Vec::new();
    a.push(copiar("sign"));
    a.push(copiar("-certgui"));
    a.push(copiar("-store"));
    a.push(copiar("windows"));
    a.push(copiar("-i"));
    a.push(copiar(entrada));
    a.push(copiar("-o"));
    a.push(copiar(salida));
    a.push(copiar("-format"));
    a.push(copiar("xades"));
    a.push(copiar("-algorithm"));
    a.push(copiar("sha256"));
    assert(crate::texto::vistas(a@) =~= argumentos_firma_inspeccion_de(entrada@, salida@));
    PeticionFirma { documento: copiar(fichero.xml.as_str()), argumentos: a }
}

/// Límites del año fiscal para la consulta de eventos.
pub open spec fn desde_anio(anio: int) -> Seq<char> {
    decimal_entero(anio) + "-01-01T00:00:00.000Z"@
}

/// `(inicio del año, inicio del año siguiente)`.
pub fn limites_anio(anio: i32) -> (r: (String, String))
    requires
        anio < i32::MAX,
    ensures
        r.0@ == desde_anio(anio as int),
        r.1@ == desde_anio(anio + 1),
{
    let mut desde = decimal_i64(anio as i64);
    agregar_texto(&mut desde, "-01-01T00:00:00.000Z");
    let mut hasta = decimal_i64((anio + 1) as i64);
    agregar_texto(&mut hasta, "-01-01T00:00:00.000Z");
    (desde, hasta)
}

} // verus!
