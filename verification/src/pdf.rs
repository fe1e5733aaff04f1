//! Datos de las facturas y de los informes que se imprimen en PDF: formatos
//! de importes, fechas y nombres de fichero, agrupación del IVA y tablas del
//! informe estadístico.

use vstd::prelude::*;

use crate::qr::{escribir_importe, importe_con_separador};
use crate::texto::{
    agregar_caracter, agregar_texto, caracteres, copiar, decimal, escribir_con_ceros,
    escribir_decimal, rellenar_ceros, texto_igual,
};

verus! {

// ─── Formatos ────────────────────────────────────────────────────────────────

/// Importe en euros con coma decimal y símbolo: `1234,56 €`.
pub open spec fn moneda(c: int) -> Seq<char> {
    importe_con_separador(c, ',') + " €"@
}

/// Formatea céntimos como euros (`12,34 €`).
pub fn format_currency(cents: i64) -> (r: String)
    ensures
        r@ == moneda(cents as int),
{
    let mut s = String::new();
    escribir_importe(&mut s, cents, ',');
    agregar_texto(&mut s, " €");
    s
}

/// CP y población en una sola cadena.
pub open spec fn cp_y_poblacion(cp: Option<Seq<char>>, poblacion: Option<Seq<char>>) -> Seq<char> {
    match (cp, poblacion) {
        (Some(c), Some(p)) => if c.len() > 0 && p.len() > 0 {
            c + " "@ + p
        } else {
            p
        },
        (None, Some(p)) => p,
        (Some(c), None) => c,
        (None, None) => Seq::empty(),
    }
}

pub open spec fn vista_str(o: Option<&str>) -> Option<Seq<char>> {
    match o {
        Some(s) => Some(s@),
        None => None,
    }
}

/// Formatea CP + población en una sola cadena (p.ej. "28001 Madrid").
pub fn format_postal_city(cp: Option<&str>, poblacion: Option<&str>) -> (r: String)
    ensures
        r@ == cp_y_poblacion(vista_str(cp), vista_str(poblacion)),
{
    match (cp, poblacion) {
        (Some(c), Some(p)) => {
            if caracteres(c).len() > 0 && caracteres(p).len() > 0 {
                let mut s = copiar(c);
                agregar_texto(&mut s, " ");
                agregar_texto(&mut s, p);
                s
            } else {
                copiar(p)
            }
        },
        (None, Some(p)) => copiar(p),
        (Some(c), None) => copiar(c),
        (None, None) => String::new(),
    }
}

/// Etiqueta legible de un método de pago.
pub open spec fn etiqueta_metodo_pago(v: Option<Seq<char>>) -> Seq<char> {
    match v {
        Some(m) => if m == "transferencia"@ {
            "Transferencia bancaria"@
        } else if m == "efectivo"@ {
            "Efectivo"@
        } else if m == "tarjeta"@ {
            "Tarjeta"@
        } else if m == "recibo_domiciliado"@ {
            "Recibo domiciliado"@
        } else {
            m
        },
        None => Seq::empty(),
    }
}

/// Devuelve la etiqueta legible de un método de pago.
pub fn label_for_metodo_pago(value: Option<&str>) -> (r: String)
    ensures
        r@ == etiqueta_metodo_pago(vista_str(value)),
{
    match value {
        Some(m) => {
            if texto_igual(m, "transferencia") {
                copiar("Transferencia bancaria")
            } else if texto_igual(m, "efectivo") {
                copiar("Efectivo")
            } else if texto_igual(m, "tarjeta") {
                copiar("Tarjeta")
            } else if texto_igual(m, "recibo_domiciliado") {
                copiar("Recibo domiciliado")
            } else {
                copiar(m)
            }
        },
        None => String::new(),
    }
}

/// Carácter admitido en un segmento de nombre de fichero.
pub open spec fn caracter_fichero(c: char) -> bool {
    ('0' <= c && c <= '9') || ('A' <= c && c <= 'Z') || ('a' <= c && c <= 'z') || c == '-' || c == '_'
}

/// Segmento seguro: los caracteres no admitidos pasan a `_`; vacío → `valor`.
pub open spec fn segmento_fichero(s: Seq<char>) -> Seq<char> {
    if s.len() == 0 {
        "valor"@
    } else {
        s.map_values(|c: char| if caracter_fichero(c) { c } else { '_' })
    }
}

/// Un segmento de nombre de fichero nunca queda vacío y solo tiene letras y
/// dígitos ASCII, `-` y `_`.
pub proof fn ley_segmento_seguro(s: Seq<char>)
    ensures
        segmento_fichero(s).len() > 0,
        forall|i: int| 0 <= i < segmento_fichero(s).len() ==> caracter_fichero(#[trigger] segmento_fichero(s)[i]),
{
    reveal_strlit("valor");
}

/// Limpia un texto para usarlo dentro de un nombre de fichero.
pub fn sanitize_filename_segment(input: &str) -> (r: String)
    ensures
        r@ == segmento_fichero(input@),
{
    let v = caracteres(input);
    if v.len() == 0 {
        return copiar("valor");
    }
    let mut r = String::new();
    let mut i: usize = 0;
    while i < v.len()
        invariant
            i <= v.len(),
            r@ == v@.take(i as int).map_values(|c: char| if caracter_fichero(c) { c } else { '_' }),
        decreases v.len() - i,
    {
        let c = v[i];
        let ok = ('0' <= c && c <= '9') || ('A' <= c && c <= 'Z') || ('a' <= c && c <= 'z') || c == '-' || c == '_';
        agregar_caracter(&mut r, if ok { c } else { '_' });
        assert(v@.take(i + 1).map_values(|c: char| if caracter_fichero(c) { c } else { '_' })
            =~= v@.take(i as int).map_values(|c: char| if caracter_fichero(c) { c } else { '_' }).push(if ok { c } else { '_' }));
        i = i + 1;
    }
    assert(v@.take(v.len() as int) == v@);
    r
}

/// Texto sin las apariciones del carácter `c` (`s.replace(c, "")`).
pub open spec fn sin_caracter(s: Seq<char>, c: char) -> Seq<char>
    decreases s.len(),
{
    if s.len() == 0 {
        Seq::empty()
    } else {
        sin_caracter(s.drop_last(), c) + if s.last() == c {
            Seq::empty()
        } else {
            seq![s.last()]
        }
    }
}

/// Quita todas las apariciones de `c`.
pub fn quitar_caracter(s: &str, c: char) -> (r: String)
    ensures
        r@ == sin_caracter(s@, c),
{
    let v = caracteres(s);
    let mut r = String::new();
    let mut i: usize = 0;
    while i < v.len()
        invariant
            i <= v.len(),
            r@ == sin_caracter(v@.take(i as int), c),
        decreases v.len() - i,
    {
        assert(v@.take(i + 1).drop_last() == v@.take(i as int));
        if v[i] != c {
            agregar_caracter(&mut r, v[i]);
        }
        i = i + 1;
    }
    assert(v@.take(v.len() as int) == v@);
    r
}

/// Nombre del PDF de una factura.
pub open spec fn nombre_pdf_factura(prefijo: Seq<char>, numero: int, fecha: Seq<char>) -> Seq<char> {
    "factura_"@ + segmento_fichero(prefijo) + "_"@ + crate::texto::decimal_entero(numero) + "_"@
        + segmento_fichero(sin_caracter(fecha, '-')) + ".pdf"@
}

/// `factura_{prefijo}_{numero}_{fecha sin guiones}.pdf`, con los segmentos saneados.
pub fn nombre_fichero_factura(serie_prefijo: &str, numero: i64, fecha_emision: &str) -> (r: String)
    ensures
        r@ == nombre_pdf_factura(serie_prefijo@, numero as int, fecha_emision@),
{
    let prefix = sanitize_filename_segment(serie_prefijo);
    let fecha = quitar_caracter(fecha_emision, '-');
    let date = sanitize_filename_segment(fecha.as_str());
    let mut r = copiar("factura_");
    agregar_texto(&mut r, prefix.as_str());
    agregar_texto(&mut r, "_");
    agregar_texto(&mut r, crate::texto::decimal_i64(numero).as_str());
    agregar_texto(&mut r, "_");
    agregar_texto(&mut r, date.as_str());
    agregar_texto(&mut r, ".pdf");
    r
}

// ─── Fechas y marcas de tiempo ───────────────────────────────────────────────

/// Fecha civil (año, mes, día) del día `dias` contado desde 1970-01-01,
/// según el algoritmo de días civiles de H. Hinnant.
pub open spec fn fecha_civil(dias: int) -> (int, int, int) {
    let z = dias + 719468;
    let era = z / 146097;
    let doe = z - era * 146097;
    let yoe = (doe - doe / 1460 + doe / 36524 - doe / 146096) / 365;
    let y = yoe + era * 400;
    let doy = doe - (365 * yoe + yoe / 4 - yoe / 100);
    let mp = (5 * doy + 2) / 153;
    let d = doy - (153 * mp + 2) / 5 + 1;
    let m = if mp < 10 { mp + 3 } else { mp - 9 };
    (if m <= 2 { y + 1 } else { y }, m, d)
}

/// `DD/MM/AAAA HH:MM` de un instante Unix (UTC).
pub open spec fn fecha_hora_aproximada(secs: nat) -> Seq<char> {
    let (y, m, d) = fecha_civil((secs / 86400) as int);
    let hora = (secs % 86400) / 3600;
    let min = (secs % 3600) / 60;
    rellenar_ceros(decimal(d as nat), 2) + "/"@ + rellenar_ceros(decimal(m as nat), 2) + "/"@
        + rellenar_ceros(decimal(y as nat), 4) + " "@ + rellenar_ceros(decimal(hora), 2) + ":"@
        + rellenar_ceros(decimal(min), 2)
}

proof fn lema_rango_anio_de_era(doe: int)
    requires
        0 <= doe < 146097,
    ensures
        ({
            let yoe = (doe - doe / 1460 + doe / 36524 - doe / 146096) / 365;
            let doy = doe - (365 * yoe + yoe / 4 - yoe / 100);
            let mp = (5 * doy + 2) / 153;
            &&& doe / 1460 <= doe
            &&& 0 <= yoe < 400
            &&& 0 <= doy < 366
            &&& 0 <= mp < 12
            &&& (153 * mp + 2) / 5 <= doy
            &&& doy - (153 * mp + 2) / 5 + 1 <= 31
        }),
{
}

/// Formatea un instante Unix (segundos, UTC) como `DD/MM/AAAA HH:MM`.
pub fn format_unix_timestamp_approx(secs: u64) -> (r: String)
    ensures
        r@ == fecha_hora_aproximada(secs as nat),
        ({
            let (y, m, d) = fecha_civil((secs / 86400) as int);
            1 <= m <= 12 && 1 <= d <= 31 && y >= 0
        }),
{
    let days_since_epoch = secs / 86400;
    let z = days_since_epoch + 719468;
    let era = z / 146097;
    let doe = z - era * 146097;
    proof {
        lema_rango_anio_de_era(doe as int);
    }
    let yoe = (doe - doe / 1460 + doe / 36524 - doe / 146096) / 365;
    let y = yoe + era * 400;
    let doy = doe - (365 * yoe + yoe / 4 - yoe / 100);
    let mp = (5 * doy + 2) / 153;
    let d = doy - (153 * mp + 2) / 5 + 1;
    let m = if mp < 10 { mp + 3 } else { mp - 9 };
    let y = if m <= 2 { y + 1 } else { y };
    let hour = (secs % 86400) / 3600;
    let min = (secs % 3600) / 60;
    let mut s = String::new();
    escribir_con_ceros(&mut s, d as u128, 2);
    agregar_texto(&mut s, "/");
    escribir_con_ceros(&mut s, m as u128, 2);
    agregar_texto(&mut s, "/");
    escribir_con_ceros(&mut s, y as u128, 4);
    agregar_texto(&mut s, " ");
    escribir_con_ceros(&mut s, hour as u128, 2);
    agregar_texto(&mut s, ":");
    escribir_con_ceros(&mut s, min as u128, 2);
    s
}

/// `duration.as_secs()` desde la época Unix, o `"0"` si el reloj es anterior.
pub fn current_timestamp_string(desde_epoca: Option<u64>) -> (r: String)
    ensures
        r@ == match desde_epoca {
            Some(s) => decimal(s as nat),
            None => "0"@,
        },
{
    match desde_epoca {
        Some(s) => crate::texto::decimal_u128(s as u128),
        None => copiar("0"),
    }
}

/// Milisegundos desde la época Unix, o `"0"` si el reloj es anterior.
pub fn current_timestamp_filename_segment(milisegundos: Option<u128>) -> (r: String)
    ensures
        r@ == match milisegundos {
            Some(ms) => decimal(ms as nat),
            None => "0"@,
        },
{
    match milisegundos {
        Some(ms) => crate::texto::decimal_u128(ms),
        None => copiar("0"),
    }
}

} // verus!

verus! {

// ─── IVA de una factura ──────────────────────────────────────────────────────

/// Importes de una línea, ya redondeados a céntimos: base imponible, cuota
/// de IVA y clave del tipo (tipo × 100, redondeado).
pub struct LineaCalculada {
    pub base: i64,
    pub cuota: i64,
    pub clave_iva: i32,
}

/// Base y cuota acumuladas de un tipo de IVA.
pub struct GrupoIva {
    pub clave: i32,
    pub base: i64,
    pub cuota: i64,
}

pub open spec fn suma_bases(l: Seq<LineaCalculada>) -> int
    decreases l.len(),
{
    if l.len() == 0 {
        0
    } else {
        suma_bases(l.drop_last()) + l.last().base
    }
}

pub open spec fn suma_cuotas(l: Seq<LineaCalculada>) -> int
    decreases l.len(),
{
    if l.len() == 0 {
        0
    } else {
        suma_cuotas(l.drop_last()) + l.last().cuota
    }
}

pub open spec fn abs(x: int) -> int {
    if x < 0 {
        -x
    } else {
        x
    }
}

/// Suma de los valores absolutos de bases y cuotas: cota de todas las sumas parciales.
pub open spec fn suma_absoluta(l: Seq<LineaCalculada>) -> int
    decreases l.len(),
{
    if l.len() == 0 {
        0
    } else {
        suma_absoluta(l.drop_last()) + abs(l.last().base as int) + abs(l.last().cuota as int)
    }
}

/// Base acumulada de las líneas con clave `k`.
pub open spec fn base_de_clave(l: Seq<LineaCalculada>, k: i32) -> int
    decreases l.len(),
{
    if l.len() == 0 {
        0
    } else {
        base_de_clave(l.drop_last(), k) + if l.last().clave_iva == k {
            l.last().base as int
        } else {
            0
        }
    }
}

/// Cuota acumulada de las líneas con clave `k`.
pub open spec fn cuota_de_clave(l: Seq<LineaCalculada>, k: i32) -> int
    decreases l.len(),
{
    if l.len() == 0 {
        0
    } else {
        cuota_de_clave(l.drop_last(), k) + if l.last().clave_iva == k {
            l.last().cuota as int
        } else {
            0
        }
    }
}

/// Alguna línea tiene la clave `k`.
pub open spec fn aparece_clave(l: Seq<LineaCalculada>, k: i32) -> bool {
    exists|i: int| 0 <= i < l.len() && #[trigger] l[i].clave_iva == k
}

/// Grupo que se muestra: tiene base o cuota distinta de cero.
pub open spec fn grupo_visible(l: Seq<LineaCalculada>, k: i32) -> bool {
    aparece_clave(l, k) && (base_de_clave(l, k) != 0 || cuota_de_clave(l, k) != 0)
}

/// `g` son los grupos visibles de `l`, de mayor a menor tipo.
pub open spec fn grupos_de(l: Seq<LineaCalculada>, g: Seq<GrupoIva>) -> bool {
    &&& forall|i: int, j: int| 0 <= i < j < g.len() ==> #[trigger] g[i].clave > #[trigger] g[j].clave
    &&& forall|i: int| 0 <= i < g.len() ==> {
        &&& grupo_visible(l, #[trigger] g[i].clave)
        &&& g[i].base == base_de_clave(l, g[i].clave)
        &&& g[i].cuota == cuota_de_clave(l, g[i].clave)
    }
    &&& forall|k: i32| #[trigger] grupo_visible(l, k) ==> exists|i: int| 0 <= i < g.len() && g[i].clave == k
}

/// Acumulador con todas las claves de `l` (también las de suma cero).
pub open spec fn acumulado_de(l: Seq<LineaCalculada>, g: Seq<GrupoIva>) -> bool {
    &&& forall|i: int, j: int| 0 <= i < j < g.len() ==> #[trigger] g[i].clave > #[trigger] g[j].clave
    &&& forall|i: int| 0 <= i < g.len() ==> {
        &&& aparece_clave(l, #[trigger] g[i].clave)
        &&& g[i].base == base_de_clave(l, g[i].clave)
        &&& g[i].cuota == cuota_de_clave(l, g[i].clave)
    }
    &&& forall|k: i32| #[trigger] aparece_clave(l, k) ==> exists|i: int| 0 <= i < g.len() && g[i].clave == k
}

proof fn lema_cotas_clave(l: Seq<LineaCalculada>, k: i32)
    ensures
        abs(base_de_clave(l, k)) + abs(cuota_de_clave(l, k)) <= suma_absoluta(l),
        abs(suma_bases(l)) + abs(suma_cuotas(l)) <= suma_absoluta(l),
        0 <= suma_absoluta(l),
    decreases l.len(),
{
    if l.len() > 0 {
        lema_cotas_clave(l.drop_last(), k);
    }
}

proof fn lema_absoluta_prefijo(l: Seq<LineaCalculada>, i: int)
    requires
        0 <= i <= l.len(),
    ensures
        suma_absoluta(l.take(i)) <= suma_absoluta(l),
    decreases l.len() - i,
{
    if i < l.len() {
        lema_absoluta_prefijo(l, i + 1);
        assert(l.take(i + 1).drop_last() == l.take(i));
    } else {
        assert(l.take(i) == l);
    }
}

proof fn lema_aparece_push(l: Seq<LineaCalculada>, x: LineaCalculada, k: i32)
    ensures
        aparece_clave(l.push(x), k) == (aparece_clave(l, k) || x.clave_iva == k),
{
    if aparece_clave(l, k) {
        let i = choose|i: int| 0 <= i < l.len() && #[trigger] l[i].clave_iva == k;
        assert(l.push(x)[i].clave_iva == k);
    }
    if x.clave_iva == k {
        assert(l.push(x)[l.len() as int].clave_iva == k);
    }
    if aparece_clave(l.push(x), k) {
        let i = choose|i: int| 0 <= i < l.push(x).len() && #[trigger] l.push(x)[i].clave_iva == k;
        if i < l.len() {
            assert(l[i].clave_iva == k);
        }
    }
}

/// Suma de las bases de los grupos.
pub open spec fn suma_base_grupos(g: Seq<GrupoIva>) -> int
    decreases g.len(),
{
    if g.len() == 0 {
        0
    } else {
        suma_base_grupos(g.drop_last()) + g.last().base
    }
}

/// Suma de las cuotas de los grupos.
pub open spec fn suma_cuota_grupos(g: Seq<GrupoIva>) -> int
    decreases g.len(),
{
    if g.len() == 0 {
        0
    } else {
        suma_cuota_grupos(g.drop_last()) + g.last().cuota
    }
}

proof fn lema_suma_grupos_update(g: Seq<GrupoIva>, j: int, v: GrupoIva)
    requires
        0 <= j < g.len(),
    ensures
        suma_base_grupos(g.update(j, v)) == suma_base_grupos(g) - g[j].base + v.base,
        suma_cuota_grupos(g.update(j, v)) == suma_cuota_grupos(g) - g[j].cuota + v.cuota,
    decreases g.len(),
{
    let u = g.update(j, v);
    if j == g.len() - 1 {
        assert(u.drop_last() == g.drop_last());
    } else {
        lema_suma_grupos_update(g.drop_last(), j, v);
        assert(u.drop_last() == g.drop_last().update(j, v));
    }
}

proof fn lema_suma_grupos_insert(g: Seq<GrupoIva>, j: int, v: GrupoIva)
    requires
        0 <= j <= g.len(),
    ensures
        suma_base_grupos(g.insert(j, v)) == suma_base_grupos(g) + v.base,
        suma_cuota_grupos(g.insert(j, v)) == suma_cuota_grupos(g) + v.cuota,
    decreases g.len(),
{
    let u = g.insert(j, v);
    if j == g.len() {
        assert(u.drop_last() == g);
    } else {
        lema_suma_grupos_insert(g.drop_last(), j, v);
        assert(u.drop_last() == g.drop_last().insert(j, v));
    }
}

/// Añade una línea al acumulador ordenado.
#[verifier::rlimit(50)]
#[verifier::spinoff_prover]
fn acumular_linea(acc: &mut Vec<GrupoIva>, x: &LineaCalculada, Ghost(p): Ghost<Seq<LineaCalculada>>)
    requires
        acumulado_de(p, old(acc)@),
        abs(suma_absoluta(p.push(*x))) <= i64::MAX,
    ensures
        acumulado_de(p.push(*x), final(acc)@),
        suma_base_grupos(final(acc)@) == suma_base_grupos(old(acc)@) + x.base,
        suma_cuota_grupos(final(acc)@) == suma_cuota_grupos(old(acc)@) + x.cuota,
{
    let ghost q = p.push(*x);
    proof {
        assert(q.drop_last() == p);
        assert(forall|k: i32| #[trigger] base_de_clave(q, k) == base_de_clave(p, k) + if x.clave_iva == k { x.base as int } else { 0 });
        assert(forall|k: i32| #[trigger] cuota_de_clave(q, k) == cuota_de_clave(p, k) + if x.clave_iva == k { x.cuota as int } else { 0 });
        lema_cotas_clave(q, x.clave_iva);
    }
    let mut j: usize = 0;
    while j < acc.len() && acc[j].clave > x.clave_iva
        invariant
            j <= acc.len(),
            forall|t: int| 0 <= t < j ==> #[trigger] acc@[t].clave > x.clave_iva,
        decreases acc.len() - j,
    {
        j = j + 1;
    }
    let ghost antes = acc@;
    if j < acc.len() && acc[j].clave == x.clave_iva {
        let g = GrupoIva { clave: x.clave_iva, base: acc[j].base + x.base, cuota: acc[j].cuota + x.cuota };
        proof {
            lema_suma_grupos_update(antes, j as int, g);
        }
        acc.set(j, g);
        proof {
            assert forall|k: i32| #[trigger] aparece_clave(q, k) implies exists|i: int| 0 <= i < acc@.len() && acc@[i].clave == k by {
                lema_aparece_push(p, *x, k);
                if aparece_clave(p, k) {
                    let i = choose|i: int| 0 <= i < antes.len() && antes[i].clave == k;
                    assert(acc@[i].clave == k);
                } else {
                    assert(acc@[j as int].clave == k);
                }
            }
            assert forall|i: int| 0 <= i < acc@.len() implies aparece_clave(q, #[trigger] acc@[i].clave) by {
                lema_aparece_push(p, *x, acc@[i].clave);
            }
        }
    } else {
        let g = GrupoIva { clave: x.clave_iva, base: x.base, cuota: x.cuota };
        proof {
            if aparece_clave(p, x.clave_iva) {
                let i = choose|i: int| 0 <= i < antes.len() && antes[i].clave == x.clave_iva;
                if i < j {
                    assert(antes[i].clave > x.clave_iva);
                } else if i > j {
                    assert(antes[j as int].clave > antes[i].clave);
                }
                assert(false);
            }
            // sin líneas previas de esta clave, sus sumas son cero
            lema_suma_clave_ausente(p, x.clave_iva);
        }
        proof {
            lema_suma_grupos_insert(antes, j as int, g);
        }
        acc.insert(j, g);
        proof {
            assert forall|k: i32| #[trigger] aparece_clave(q, k) implies exists|i: int| 0 <= i < acc@.len() && acc@[i].clave == k by {
                lema_aparece_push(p, *x, k);
                if aparece_clave(p, k) {
                    let i = choose|i: int| 0 <= i < antes.len() && antes[i].clave == k;
                    if i < j {
                        assert(acc@[i].clave == k);
                    } else {
                        assert(acc@[i + 1].clave == k);
                    }
                } else {
                    assert(acc@[j as int].clave == k);
                }
            }
            assert forall|i: int| 0 <= i < acc@.len() implies aparece_clave(q, #[trigger] acc@[i].clave) by {
                lema_aparece_push(p, *x, acc@[i].clave);
            }
            assert forall|a: int, b: int| 0 <= a < b < acc@.len() implies #[trigger] acc@[a].clave > #[trigger] acc@[b].clave by {
                if b < j {
                } else if a < j && b == j {
                } else if a < j {
                    assert(acc@[b].clave == antes[b - 1].clave);
                    if a + 1 < b {
                        assert(antes[a].clave > antes[b - 1].clave);
                    }
                    assert(antes[a].clave > x.clave_iva || j == b - 1);
                } else if a == j {
                    assert(acc@[b].clave == antes[b - 1].clave);
                } else {
                    assert(acc@[a].clave == antes[a - 1].clave);
                    assert(acc@[b].clave == antes[b - 1].clave);
                }
            }
        }
    }
}

proof fn lema_suma_clave_ausente(l: Seq<LineaCalculada>, k: i32)
    requires
        !aparece_clave(l, k),
    ensures
        base_de_clave(l, k) == 0,
        cuota_de_clave(l, k) == 0,
    decreases l.len(),
{
    if l.len() > 0 {
        assert(!aparece_clave(l.drop_last(), k)) by {
            if aparece_clave(l.drop_last(), k) {
                let i = choose|i: int| 0 <= i < l.drop_last().len() && #[trigger] l.drop_last()[i].clave_iva == k;
                assert(l[i].clave_iva == k);
            }
        }
        assert(l.last().clave_iva != k) by {
            if l.last().clave_iva == k {
                assert(l[l.len() - 1].clave_iva == k);
            }
        }
        lema_suma_clave_ausente(l.drop_last(), k);
    }
}

} // verus!

verus! {

/// Totales de una factura recalculados desde sus líneas.
pub struct TotalesIva {
    pub subtotal: i64,
    pub total_iva: i64,
    pub total: i64,
    /// Grupos con base o cuota distinta de cero, de mayor a menor tipo.
    pub grupos: Vec<GrupoIva>,
}

/// Acumula base y cuota por clave de IVA: un grupo por clave que aparece
/// en las líneas (también si suma cero), de mayor a menor clave.
pub fn agrupar_iva(lineas: &Vec<LineaCalculada>) -> (r: Vec<GrupoIva>)
    requires
        suma_absoluta(lineas@) <= i64::MAX,
    ensures
        acumulado_de(lineas@, r@),
        suma_base_grupos(r@) == suma_bases(lineas@),
        suma_cuota_grupos(r@) == suma_cuotas(lineas@),
{
    let mut acc: Vec<GrupoIva> = Vec::new();
    let mut i: usize = 0;
    proof {
        assert(lineas@.take(0) =~= Seq::<LineaCalculada>::empty());
    }
    while i < lineas.len()
        invariant
            i <= lineas.len(),
            suma_absoluta(lineas@) <= i64::MAX,
            acumulado_de(lineas@.take(i as int), acc@),
            suma_base_grupos(acc@) == suma_bases(lineas@.take(i as int)),
            suma_cuota_grupos(acc@) == suma_cuotas(lineas@.take(i as int)),
        decreases lineas.len() - i,
    {
        let ghost p = lineas@.take(i as int);
        proof {
            assert(lineas@.take(i + 1) == p.push(lineas@[i as int]));
            assert(lineas@.take(i + 1).drop_last() == p);
            lema_absoluta_prefijo(lineas@, i + 1);
            lema_cotas_clave(lineas@.take(i + 1), 0);
        }
        acumular_linea(&mut acc, &lineas[i], Ghost(p));
        i = i + 1;
    }
    assert(lineas@.take(lineas.len() as int) == lineas@);
    acc
}

/// Recalcula subtotal, IVA y total desde las líneas y agrupa el IVA por tipo.
#[verifier::rlimit(60)]
pub fn totales_iva(lineas: &Vec<LineaCalculada>) -> (r: TotalesIva)
    requires
        suma_absoluta(lineas@) <= i64::MAX,
    ensures
        r.subtotal == suma_bases(lineas@),
        r.total_iva == suma_cuotas(lineas@),
        r.total == suma_bases(lineas@) + suma_cuotas(lineas@),
        grupos_de(lineas@, r.grupos@),
        suma_base_grupos(r.grupos@) == r.subtotal,
        suma_cuota_grupos(r.grupos@) == r.total_iva,
{
    let acc = agrupar_iva(lineas);
    let mut subtotal: i64 = 0;
    let mut total_iva: i64 = 0;
    let mut i: usize = 0;
    while i < lineas.len()
        invariant
            i <= lineas.len(),
            suma_absoluta(lineas@) <= i64::MAX,
            subtotal == suma_bases(lineas@.take(i as int)),
            total_iva == suma_cuotas(lineas@.take(i as int)),
        decreases lineas.len() - i,
    {
        proof {
            assert(lineas@.take(i + 1).drop_last() == lineas@.take(i as int));
            lema_absoluta_prefijo(lineas@, i + 1);
            lema_cotas_clave(lineas@.take(i + 1), 0);
        }
        subtotal = subtotal + lineas[i].base;
        total_iva = total_iva + lineas[i].cuota;
        i = i + 1;
    }
    proof {
        assert(lineas@.take(lineas.len() as int) == lineas@);
        lema_cotas_clave(lineas@, 0);
    }
    let ghost l = lineas@;
    let mut grupos: Vec<GrupoIva> = Vec::new();
    let mut k: usize = 0;
    while k < acc.len()
        invariant
            l == lineas@,
            k <= acc.len(),
            acumulado_de(l, acc@),
            forall|a: int, b: int| 0 <= a < b < grupos@.len() ==> #[trigger] grupos@[a].clave > #[trigger] grupos@[b].clave,
            forall|a: int| 0 <= a < grupos@.len() ==> {
                &&& grupo_visible(l, #[trigger] grupos@[a].clave)
                &&& grupos@[a].base == base_de_clave(l, grupos@[a].clave)
                &&& grupos@[a].cuota == cuota_de_clave(l, grupos@[a].clave)
            },
            grupos@.len() > 0 ==> (k > 0 && grupos@.last().clave >= acc@[k - 1].clave),
            suma_base_grupos(grupos@) == suma_base_grupos(acc@.take(k as int)),
            suma_cuota_grupos(grupos@) == suma_cuota_grupos(acc@.take(k as int)),
            suma_base_grupos(acc@) == suma_bases(l),
            suma_cuota_grupos(acc@) == suma_cuotas(l),
            forall|t: int| #![trigger acc@[t]] 0 <= t < k && (acc@[t].base != 0 || acc@[t].cuota != 0) ==> exists|a: int| 0 <= a < grupos@.len() && #[trigger] grupos@[a].clave == acc@[t].clave,
        decreases acc.len() - k,
    {
        proof {
            assert(acc@.take(k + 1).drop_last() == acc@.take(k as int));
        }
        if acc[k].base != 0 || acc[k].cuota != 0 {
            let g = GrupoIva { clave: acc[k].clave, base: acc[k].base, cuota: acc[k].cuota };
            let ghost antes = grupos@;
            proof {
                if antes.len() > 0 {
                    assert(acc@[k - 1].clave > acc@[k as int].clave);
                    assert forall|a: int| 0 <= a < antes.len() implies #[trigger] antes[a].clave > g.clave by {
                        if a < antes.len() - 1 {
                            assert(antes[a].clave > antes[antes.len() - 1].clave);
                        }
                    }
                }
            }
            grupos.push(g);
            proof {
                assert(grupos@.drop_last() == antes);
                assert(grupos@[grupos@.len() - 1].clave == acc@[k as int].clave);
                assert forall|t: int| #![trigger acc@[t]] 0 <= t < k + 1 && (acc@[t].base != 0 || acc@[t].cuota != 0) implies exists|a: int| 0 <= a < grupos@.len() && #[trigger] grupos@[a].clave == acc@[t].clave by {
                    if t < k {
                        let a = choose|a: int| 0 <= a < antes.len() && #[trigger] antes[a].clave == acc@[t].clave;
                        assert(grupos@[a] == antes[a]);
                    } else {
                        assert(grupos@[grupos@.len() - 1].clave == acc@[t].clave);
                    }
                }
            }
        } else {
            proof {
                if grupos@.len() > 0 {
                    assert(acc@[k - 1].clave > acc@[k as int].clave);
                }
                assert forall|t: int| #![trigger acc@[t]] 0 <= t < k + 1 && (acc@[t].base != 0 || acc@[t].cuota != 0) implies exists|a: int| 0 <= a < grupos@.len() && #[trigger] grupos@[a].clave == acc@[t].clave by {
                    if t < k {
                        let a = choose|a: int| 0 <= a < grupos@.len() && #[trigger] grupos@[a].clave == acc@[t].clave;
                    } else {
                        assert(false);
                    }
                }
            }
        }
        k = k + 1;
    }
    proof {
        assert(acc@.take(acc.len() as int) == acc@);
        assert forall|c: i32| #[trigger] grupo_visible(l, c) implies exists|a: int| 0 <= a < grupos@.len() && grupos@[a].clave == c by {
            let t = choose|t: int| 0 <= t < acc@.len() && acc@[t].clave == c;
            assert(acc@[t].base != 0 || acc@[t].cuota != 0);
            assert(acc@[t].clave == c);
        }
    }
    TotalesIva { subtotal, total_iva, total: subtotal + total_iva, grupos }
}

/// `format!("{:.0}%", clave as f64 / 100.0)`: el tipo redondeado a entero
/// (empates al par) con el signo del valor, seguido de `%`.
pub open spec fn porcentaje_grupo(clave: int) -> Seq<char> {
    let a = abs(clave);
    let q = a / 100;
    let r = a % 100;
    let redondeado = if r > 50 || (r == 50 && q % 2 == 1) { q + 1 } else { q };
    let signo: Seq<char> = if clave < 0 { "-"@ } else { Seq::empty() };
    signo + decimal(redondeado as nat) + "%"@
}

pub fn formato_porcentaje_grupo(clave: i32) -> (r: String)
    ensures
        r@ == porcentaje_grupo(clave as int),
{
    let mut s = String::new();
    if clave < 0 {
        agregar_texto(&mut s, "-");
    }
    let a: u64 = if clave < 0 { (0 - (clave as i64)) as u64 } else { clave as u64 };
    let q = a / 100;
    let r = a % 100;
    let redondeado = if r > 50 || (r == 50 && q % 2 == 1) { q + 1 } else { q };
    escribir_decimal(&mut s, redondeado as u128);
    agregar_texto(&mut s, "%");
    s
}

} // verus!

verus! {

// ─── Mapa de calor del informe estadístico ──────────────────────────────────

/// Facturación de un concepto en un mes.
pub struct HeatmapCeldaPdf {
    pub anio_mes: String,
    pub concepto: String,
    pub total_facturado: i64,
}

pub struct CeldaCalor {
    pub valor: i64,
    pub valor_fmt: String,
}

pub struct FilaCalor {
    pub concepto: String,
    pub celdas: Vec<CeldaCalor>,
}

/// Meses (ordenados, sin repetir) y una fila por concepto (en orden de primera aparición).
pub struct TablaCalor {
    pub meses: Vec<String>,
    pub filas: Vec<FilaCalor>,
}

/// Algún dato del mapa es del mes `m`.
pub open spec fn hay_mes(h: Seq<HeatmapCeldaPdf>, m: Seq<char>) -> bool {
    exists|i: int| 0 <= i < h.len() && #[trigger] h[i].anio_mes@ == m
}

/// Secuencia estrictamente creciente en orden de cadenas.
pub open spec fn estrictamente_creciente(v: Seq<Seq<char>>) -> bool {
    forall|i: int, j: int| 0 <= i < j < v.len() ==> crate::texto::menor_lex(#[trigger] v[i], #[trigger] v[j])
}

/// `v` son los meses de `h`, ordenados y sin repetir.
pub open spec fn meses_ordenados(h: Seq<HeatmapCeldaPdf>, v: Seq<Seq<char>>) -> bool {
    &&& estrictamente_creciente(v)
    &&& forall|m: Seq<char>| #[trigger] v.contains(m) <==> hay_mes(h, m)
}

/// Conceptos distintos en orden de primera aparición.
pub open spec fn conceptos_unicos(h: Seq<HeatmapCeldaPdf>) -> Seq<Seq<char>>
    decreases h.len(),
{
    if h.len() == 0 {
        Seq::empty()
    } else {
        let u = conceptos_unicos(h.drop_last());
        if u.contains(h.last().concepto@) {
            u
        } else {
            u.push(h.last().concepto@)
        }
    }
}

/// Total del último dato con ese concepto y mes, o 0 si no hay ninguno.
pub open spec fn valor_celda(h: Seq<HeatmapCeldaPdf>, c: Seq<char>, m: Seq<char>) -> int
    decreases h.len(),
{
    if h.len() == 0 {
        0
    } else if h.last().concepto@ == c && h.last().anio_mes@ == m {
        h.last().total_facturado as int
    } else {
        valor_celda(h.drop_last(), c, m)
    }
}

/// La tabla de calor de `h`.
pub open spec fn tabla_de(h: Seq<HeatmapCeldaPdf>, t: TablaCalor) -> bool {
    let meses = vistas_meses(t.meses@);
    let conceptos = conceptos_unicos(h);
    &&& meses_ordenados(h, meses)
    &&& t.filas@.len() == conceptos.len()
    &&& forall|r: int| 0 <= r < conceptos.len() ==> {
        &&& (#[trigger] t.filas@[r]).concepto@ == conceptos[r]
        &&& t.filas@[r].celdas@.len() == meses.len()
        &&& forall|j: int| 0 <= j < meses.len() ==> {
            &&& (#[trigger] t.filas@[r].celdas@[j]).valor == valor_celda(h, conceptos[r], meses[j])
            &&& t.filas@[r].celdas@[j].valor_fmt@ == if t.filas@[r].celdas@[j].valor > 0 {
                moneda(t.filas@[r].celdas@[j].valor as int)
            } else {
                Seq::empty()
            }
        }
    }
}

pub open spec fn vistas_meses(v: Seq<String>) -> Seq<Seq<char>> {
    v.map_values(|s: String| s@)
}

proof fn lema_hay_mes_push(h: Seq<HeatmapCeldaPdf>, x: HeatmapCeldaPdf, m: Seq<char>)
    ensures
        hay_mes(h.push(x), m) == (hay_mes(h, m) || x.anio_mes@ == m),
{
    if hay_mes(h, m) {
        let i = choose|i: int| 0 <= i < h.len() && #[trigger] h[i].anio_mes@ == m;
        assert(h.push(x)[i].anio_mes@ == m);
    }
    if x.anio_mes@ == m {
        assert(h.push(x)[h.len() as int].anio_mes@ == m);
    }
    if hay_mes(h.push(x), m) {
        let i = choose|i: int| 0 <= i < h.push(x).len() && #[trigger] h.push(x)[i].anio_mes@ == m;
        if i < h.len() {
            assert(h[i].anio_mes@ == m);
        }
    }
}

/// Inserta un mes en la lista ordenada si no está.
fn insertar_mes(meses: &mut Vec<String>, mes: &String)
    requires
        estrictamente_creciente(vistas_meses(old(meses)@)),
    ensures
        estrictamente_creciente(vistas_meses(final(meses)@)),
        forall|m: Seq<char>| #[trigger] vistas_meses(final(meses)@).contains(m) <==> (vistas_meses(old(meses)@).contains(m) || m == mes@),
{
    let ghost antes = vistas_meses(meses@);
    let mut j: usize = 0;
    while j < meses.len() && crate::texto::es_menor(meses[j].as_str(), mes.as_str())
        invariant
            j <= meses.len(),
            antes == vistas_meses(meses@),
            forall|t: int| 0 <= t < j ==> crate::texto::menor_lex(#[trigger] antes[t], mes@),
        decreases meses.len() - j,
    {
        j = j + 1;
    }
    if j < meses.len() && texto_igual(meses[j].as_str(), mes.as_str()) {
        assert(antes.contains(mes@)) by {
            assert(antes[j as int] == mes@);
        }
        return;
    }
    proof {
        if j < antes.len() {
            crate::texto::lema_menor_total(antes[j as int], mes@);
            assert(crate::texto::menor_lex(mes@, antes[j as int]));
        }
    }
    meses.insert(j, mes.clone());
    let ghost despues = vistas_meses(meses@);
    proof {
        assert(despues =~= antes.insert(j as int, mes@));
        assert forall|a: int, b: int| 0 <= a < b < despues.len() implies crate::texto::menor_lex(#[trigger] despues[a], #[trigger] despues[b]) by {
            if b < j {
            } else if a < j && b == j {
            } else if a < j {
                if b - 1 > j {
                    crate::texto::lema_menor_transitivo(mes@, antes[j as int], antes[b - 1]);
                }
                crate::texto::lema_menor_transitivo(antes[a], mes@, antes[b - 1]);
            } else if a == j {
                if b - 1 > j {
                    crate::texto::lema_menor_transitivo(mes@, antes[j as int], antes[b - 1]);
                }
            }
        }
        assert forall|m: Seq<char>| #[trigger] despues.contains(m) <==> (antes.contains(m) || m == mes@) by {
            if despues.contains(m) {
                let i = choose|i: int| 0 <= i < despues.len() && despues[i] == m;
                if i < j {
                    assert(antes[i] == m);
                } else if i > j {
                    assert(antes[i - 1] == m);
                }
            }
            if antes.contains(m) {
                let i = choose|i: int| 0 <= i < antes.len() && antes[i] == m;
                if i < j {
                    assert(despues[i] == m);
                } else {
                    assert(despues[i + 1] == m);
                }
            }
            if m == mes@ {
                assert(despues[j as int] == m);
            }
        }
    }
}

/// Meses distintos de los datos, ordenados.
fn meses_de(h: &Vec<HeatmapCeldaPdf>) -> (r: Vec<String>)
    ensures
        meses_ordenados(h@, vistas_meses(r@)),
{
    let mut meses: Vec<String> = Vec::new();
    let mut i: usize = 0;
    while i < h.len()
        invariant
            i <= h.len(),
            estrictamente_creciente(vistas_meses(meses@)),
            forall|m: Seq<char>| #[trigger] vistas_meses(meses@).contains(m) <==> hay_mes(h@.take(i as int), m),
        decreases h.len() - i,
    {
        let ghost p = h@.take(i as int);
        insertar_mes(&mut meses, &h[i].anio_mes);
        proof {
            assert(h@.take(i + 1) == p.push(h@[i as int]));
            assert forall|m: Seq<char>| #[trigger] vistas_meses(meses@).contains(m) <==> hay_mes(h@.take(i + 1), m) by {
                lema_hay_mes_push(p, h@[i as int], m);
            }
        }
        i = i + 1;
    }
    proof {
        assert(h@.take(h.len() as int) == h@);
    }
    meses
}

/// Conceptos en orden de primera aparición.
fn conceptos_de(h: &Vec<HeatmapCeldaPdf>) -> (r: Vec<String>)
    ensures
        vistas_meses(r@) == conceptos_unicos(h@),
{
    let mut r: Vec<String> = Vec::new();
    let mut i: usize = 0;
    while i < h.len()
        invariant
            i <= h.len(),
            vistas_meses(r@) == conceptos_unicos(h@.take(i as int)),
        decreases h.len() - i,
    {
        let c = &h[i].concepto;
        let mut k: usize = 0;
        let mut visto = false;
        while k < r.len()
            invariant
                k <= r.len(),
                visto == exists|t: int| 0 <= t < k && #[trigger] r@[t]@ == c@,
            decreases r.len() - k,
        {
            if texto_igual(r[k].as_str(), c.as_str()) {
                visto = true;
            }
            k = k + 1;
        }
        let ghost u = vistas_meses(r@);
        proof {
            assert(h@.take(i + 1).drop_last() == h@.take(i as int));
            assert(h@.take(i + 1).last() == h@[i as int]);
            if visto {
                let t = choose|t: int| 0 <= t < r.len() && #[trigger] r@[t]@ == c@;
                assert(u[t] == c@);
            } else {
                if u.contains(c@) {
                    let t = choose|t: int| 0 <= t < u.len() && u[t] == c@;
                    assert(r@[t]@ == c@);
                }
            }
        }
        if !visto {
            r.push(c.clone());
            assert(vistas_meses(r@) =~= u.push(c@));
        }
        i = i + 1;
    }
    proof {
        assert(h@.take(h.len() as int) == h@);
    }
    r
}

/// Total del último dato con ese concepto y mes (0 si no hay).
fn valor_de(h: &Vec<HeatmapCeldaPdf>, c: &String, m: &String) -> (r: i64)
    ensures
        r == valor_celda(h@, c@, m@),
{
    let mut i: usize = h.len();
    assert(h@.take(h.len() as int) == h@);
    while i > 0
        invariant
            i <= h.len(),
            valor_celda(h@, c@, m@) == valor_celda(h@.take(i as int), c@, m@),
        decreases i,
    {
        let ghost p = h@.take(i as int);
        assert(p.drop_last() == h@.take(i - 1));
        assert(p.last() == h@[i - 1]);
        if texto_igual(h[i - 1].concepto.as_str(), c.as_str()) && texto_igual(h[i - 1].anio_mes.as_str(), m.as_str()) {
            return h[i - 1].total_facturado;
        }
        i = i - 1;
    }
    0
}

/// Construye la tabla del mapa de calor: meses ordenados, una fila por
/// concepto y, en cada celda, el total del concepto en el mes (el último
/// dato si hay varios) con su importe formateado cuando es positivo.
pub fn tabla_calor(h: &Vec<HeatmapCeldaPdf>) -> (t: TablaCalor)
    ensures
        tabla_de(h@, t),
{
    let meses = meses_de(h);
    let conceptos = conceptos_de(h);
    let mut filas: Vec<FilaCalor> = Vec::new();
    let mut r: usize = 0;
    while r < conceptos.len()
        invariant
            r <= conceptos.len(),
            vistas_meses(conceptos@) == conceptos_unicos(h@),
            filas@.len() == r,
            forall|q: int| 0 <= q < r ==> {
                &&& (#[trigger] filas@[q]).concepto@ == conceptos@[q]@
                &&& filas@[q].celdas@.len() == meses@.len()
                &&& forall|j: int| 0 <= j < meses@.len() ==> {
                    &&& (#[trigger] filas@[q].celdas@[j]).valor == valor_celda(h@, conceptos@[q]@, meses@[j]@)
                    &&& filas@[q].celdas@[j].valor_fmt@ == if filas@[q].celdas@[j].valor > 0 {
                        moneda(filas@[q].celdas@[j].valor as int)
                    } else {
                        Seq::empty()
                    }
                }
            },
        decreases conceptos.len() - r,
    {
        let mut celdas: Vec<CeldaCalor> = Vec::new();
        let mut j: usize = 0;
        while j < meses.len()
            invariant
                j <= meses.len(),
                r < conceptos.len(),
                celdas@.len() == j,
                forall|b: int| 0 <= b < j ==> {
                    &&& (#[trigger] celdas@[b]).valor == valor_celda(h@, conceptos@[r as int]@, meses@[b]@)
                    &&& celdas@[b].valor_fmt@ == if celdas@[b].valor > 0 {
                        moneda(celdas@[b].valor as int)
                    } else {
                        Seq::empty()
                    }
                },
            decreases meses.len() - j,
        {
            let valor = valor_de(h, &conceptos[r], &meses[j]);
            let valor_fmt = if valor > 0 { format_currency(valor) } else { String::new() };
            celdas.push(CeldaCalor { valor, valor_fmt });
            j = j + 1;
        }
        filas.push(FilaCalor { concepto: conceptos[r].clone(), celdas });
        proof {
            assert forall|q: int| 0 <= q < r + 1 implies {
                &&& (#[trigger] filas@[q]).concepto@ == conceptos@[q]@
                &&& filas@[q].celdas@.len() == meses@.len()
                &&& forall|j: int| 0 <= j < meses@.len() ==> {
                    &&& (#[trigger] filas@[q].celdas@[j]).valor == valor_celda(h@, conceptos@[q]@, meses@[j]@)
                    &&& filas@[q].celdas@[j].valor_fmt@ == if filas@[q].celdas@[j].valor > 0 {
                        moneda(filas@[q].celdas@[j].valor as int)
                    } else {
                        Seq::empty()
                    }
                }
            } by {
                if q == r {
                    assert forall|j: int| 0 <= j < meses@.len() implies {
                        &&& (#[trigger] filas@[q].celdas@[j]).valor == valor_celda(h@, conceptos@[q]@, meses@[j]@)
                        &&& filas@[q].celdas@[j].valor_fmt@ == if filas@[q].celdas@[j].valor > 0 {
                            moneda(filas@[q].celdas@[j].valor as int)
                        } else {
                            Seq::empty()
                        }
                    } by {
                        assert(filas@[q].celdas@[j] == celdas@[j]);
                    }
                }
            }
        }
        r = r + 1;
    }
    let t = TablaCalor { meses, filas };
    proof {
        let mv = vistas_meses(t.meses@);
        let cs = conceptos_unicos(h@);
        assert forall|q: int| 0 <= q < cs.len() implies {
            &&& (#[trigger] t.filas@[q]).concepto@ == cs[q]
            &&& t.filas@[q].celdas@.len() == mv.len()
            &&& forall|j: int| 0 <= j < mv.len() ==> {
                &&& (#[trigger] t.filas@[q].celdas@[j]).valor == valor_celda(h@, cs[q], mv[j])
                &&& t.filas@[q].celdas@[j].valor_fmt@ == if t.filas@[q].celdas@[j].valor > 0 {
                    moneda(t.filas@[q].celdas@[j].valor as int)
                } else {
                    Seq::empty()
                }
            }
        } by {
            assert(cs[q] == conceptos@[q]@);
            assert forall|j: int| 0 <= j < mv.len() implies {
                &&& (#[trigger] t.filas@[q].celdas@[j]).valor == valor_celda(h@, cs[q], mv[j])
                &&& t.filas@[q].celdas@[j].valor_fmt@ == if t.filas@[q].celdas@[j].valor > 0 {
                    moneda(t.filas@[q].celdas@[j].valor as int)
                } else {
                    Seq::empty()
                }
            } by {
                assert(mv[j] == t.meses@[j]@);
            }
        }
    }
    t
}

/// Número de textos iguales a `x` (clientes de clase `A`, de riesgo `Alto`...).
pub fn contar_iguales(v: &Vec<String>, x: &str) -> (r: usize)
    ensures
        r == vistas_meses(v@).filter(|s: Seq<char>| s == x@).len(),
{
    let mut r: usize = 0;
    let mut i: usize = 0;
    while i < v.len()
        invariant
            i <= v.len(),
            r <= i,
            r == vistas_meses(v@.take(i as int)).filter(|s: Seq<char>| s == x@).len(),
        decreases v.len() - i,
    {
        proof {
            let a = vistas_meses(v@.take(i as int));
            let b = vistas_meses(v@.take(i + 1));
            assert(b =~= a.push(v@[i as int]@));
            a.lemma_filter_push(v@[i as int]@, |s: Seq<char>| s == x@);
        }
        if texto_igual(v[i].as_str(), x) {
            r = r + 1;
        }
        i = i + 1;
    }
    assert(v@.take(v.len() as int) == v@);
    r
}

} // verus!

verus! {

// ─── PDF de una factura ──────────────────────────────────────────────────────

/// Datos de la factura que se imprimen.
pub struct InvoiceRow {
    pub numero: i64,
    pub fecha_emision: String,
    pub total: i64,
    pub hash_registro: String,
    pub hash_anterior: Option<String>,
    pub estado: String,
    pub serie_prefijo: String,
    pub empresa_nombre: String,
    pub empresa_nif: String,
    pub empresa_direccion: String,
    pub empresa_codigo_postal: Option<String>,
    pub empresa_poblacion: Option<String>,
    pub empresa_provincia: Option<String>,
    pub cliente_nombre: String,
    pub cliente_nif: Option<String>,
    pub cliente_direccion: Option<String>,
    pub cliente_codigo_postal: Option<String>,
    pub cliente_poblacion: Option<String>,
    pub cliente_provincia: Option<String>,
    pub cliente_email: Option<String>,
    pub notas: Option<String>,
    pub fecha_vencimiento: Option<String>,
    pub metodo_pago: Option<String>,
    pub cuenta_bancaria: Option<String>,
}

/// Línea de la factura para imprimir: cantidad y tipo de IVA ya formateados
/// y sus importes redondeados a céntimos.
pub struct LineaPdf {
    pub descripcion: String,
    pub cantidad: String,
    pub precio_unitario: i64,
    pub tipo_iva: String,
    pub total_linea: i64,
    pub importes: LineaCalculada,
}

pub struct IvaGroupTemplateData {
    pub rate: String,
    pub base: String,
    pub cuota: String,
}

pub struct InvoiceItemTemplateData {
    pub descripcion: String,
    pub cantidad: String,
    pub precio_unitario: String,
    pub tipo_iva: String,
    pub total_linea: String,
}

pub struct InvoiceTemplateData {
    pub generated_at: String,
    pub invoice_code: String,
    pub issue_date: String,
    pub due_date: String,
    pub company_name: String,
    pub company_nif: String,
    pub company_address: String,
    pub company_postal_city: String,
    pub company_province: String,
    pub client_name: String,
    pub client_nif: String,
    pub client_address: String,
    pub client_postal_city: String,
    pub client_province: String,
    pub client_email: String,
    pub status: String,
    pub subtotal: String,
    pub total_taxes: String,
    pub total: String,
    pub iva_groups: Vec<IvaGroupTemplateData>,
    pub hash_registro: String,
    pub hash_anterior: String,
    pub items: Vec<InvoiceItemTemplateData>,
    pub qr_svg_data_url: String,
    pub qr_url: String,
    pub payment_method: String,
    pub bank_account: String,
    pub notes: String,
}

pub open spec fn vista_opcional(o: Option<String>) -> Option<Seq<char>> {
    match o {
        Some(s) => Some(s@),
        None => None,
    }
}

/// Texto opcional o un valor por defecto.
pub open spec fn o_bien(o: Option<String>, defecto: Seq<char>) -> Seq<char> {
    match o {
        Some(s) => s@,
        None => defecto,
    }
}

pub open spec fn importes_de(l: Seq<LineaPdf>) -> Seq<LineaCalculada> {
    l.map_values(|x: LineaPdf| x.importes)
}

/// Las filas de IVA de la plantilla son los grupos dados, formateados.
pub open spec fn filas_iva(t: Seq<IvaGroupTemplateData>, g: Seq<GrupoIva>) -> bool {
    &&& t.len() == g.len()
    &&& forall|i: int| 0 <= i < g.len() ==> {
        &&& (#[trigger] t[i]).rate@ == porcentaje_grupo(g[i].clave as int)
        &&& t[i].base@ == moneda(g[i].base as int)
        &&& t[i].cuota@ == moneda(g[i].cuota as int)
    }
}

/// Las filas de artículos de la plantilla son las líneas dadas, formateadas.
pub open spec fn filas_articulos(t: Seq<InvoiceItemTemplateData>, l: Seq<LineaPdf>) -> bool {
    &&& t.len() == l.len()
    &&& forall|i: int| 0 <= i < l.len() ==> {
        &&& (#[trigger] t[i]).descripcion@ == l[i].descripcion@
        &&& t[i].cantidad@ == l[i].cantidad@
        &&& t[i].precio_unitario@ == moneda(l[i].precio_unitario as int)
        &&& t[i].tipo_iva@ == l[i].tipo_iva@
        &&& t[i].total_linea@ == moneda(l[i].total_linea as int)
    }
}

/// Datos de la plantilla de una factura; los totales se recalculan desde las líneas.
pub open spec fn plantilla_de(
    t: InvoiceTemplateData,
    inv: InvoiceRow,
    l: Seq<LineaPdf>,
    generated_at: Seq<char>,
    qr_data_url: Seq<char>,
    qr_url: Seq<char>,
) -> bool {
    let imp = importes_de(l);
    &&& t.generated_at@ == generated_at
    &&& t.invoice_code@ == inv.serie_prefijo@ + "-"@ + crate::texto::entero_con_ceros(inv.numero as int, 4)
    &&& t.issue_date@ == inv.fecha_emision@
    &&& t.due_date@ == o_bien(inv.fecha_vencimiento, Seq::empty())
    &&& t.company_name@ == inv.empresa_nombre@
    &&& t.company_nif@ == inv.empresa_nif@
    &&& t.company_address@ == inv.empresa_direccion@
    &&& t.company_postal_city@ == cp_y_poblacion(vista_opcional(inv.empresa_codigo_postal), vista_opcional(inv.empresa_poblacion))
    &&& t.company_province@ == o_bien(inv.empresa_provincia, Seq::empty())
    &&& t.client_name@ == inv.cliente_nombre@
    &&& t.client_nif@ == o_bien(inv.cliente_nif, "-"@)
    &&& t.client_address@ == o_bien(inv.cliente_direccion, "-"@)
    &&& t.client_postal_city@ == cp_y_poblacion(vista_opcional(inv.cliente_codigo_postal), vista_opcional(inv.cliente_poblacion))
    &&& t.client_province@ == o_bien(inv.cliente_provincia, Seq::empty())
    &&& t.client_email@ == o_bien(inv.cliente_email, "-"@)
    &&& t.status@ == inv.estado@
    &&& t.subtotal@ == moneda(suma_bases(imp))
    &&& t.total_taxes@ == moneda(suma_cuotas(imp))
    &&& t.total@ == moneda(suma_bases(imp) + suma_cuotas(imp))
    &&& exists|g: Seq<GrupoIva>| grupos_de(imp, g) && #[trigger] filas_iva(t.iva_groups@, g)
    &&& t.hash_registro@ == inv.hash_registro@
    &&& t.hash_anterior@ == o_bien(inv.hash_anterior, "GENESIS"@)
    &&& filas_articulos(t.items@, l)
    &&& t.qr_svg_data_url@ == qr_data_url
    &&& t.qr_url@ == qr_url
    &&& t.payment_method@ == etiqueta_metodo_pago(vista_opcional(inv.metodo_pago))
    &&& t.bank_account@ == o_bien(inv.cuenta_bancaria, Seq::empty())
    &&& t.notes@ == o_bien(inv.notas, Seq::empty())
}

fn opcion_o(o: &Option<String>, defecto: &str) -> (r: String)
    ensures
        r@ == o_bien(*o, defecto@),
{
    match o {
        Some(s) => s.clone(),
        None => copiar(defecto),
    }
}

fn opcion_o_vacio(o: &Option<String>) -> (r: String)
    ensures
        r@ == o_bien(*o, Seq::empty()),
{
    match o {
        Some(s) => s.clone(),
        None => String::new(),
    }
}

fn opcion_str(o: &Option<String>) -> (r: Option<&str>)
    ensures
        vista_str(r) == vista_opcional(*o),
{
    match o {
        Some(s) => Some(s.as_str()),
        None => None,
    }
}

/// Importes de cada línea.
fn importes_lineas(lineas: &Vec<LineaPdf>) -> (r: Vec<LineaCalculada>)
    ensures
        r@ == importes_de(lineas@),
{
    let mut r: Vec<LineaCalculada> = Vec::new();
    let mut i: usize = 0;
    while i < lineas.len()
        invariant
            i <= lineas.len(),
            r@ == importes_de(lineas@.take(i as int)),
        decreases lineas.len() - i,
    {
        let x = &lineas[i].importes;
        r.push(LineaCalculada { base: x.base, cuota: x.cuota, clave_iva: x.clave_iva });
        assert(importes_de(lineas@.take(i + 1)) =~= importes_de(lineas@.take(i as int)).push(lineas@[i as int].importes));
        i = i + 1;
    }
    assert(lineas@.take(lineas.len() as int) == lineas@);
    r
}

fn filas_de_iva(g: &Vec<GrupoIva>) -> (t: Vec<IvaGroupTemplateData>)
    ensures
        filas_iva(t@, g@),
{
    let mut t: Vec<IvaGroupTemplateData> = Vec::new();
    let mut i: usize = 0;
    while i < g.len()
        invariant
            i <= g.len(),
            t@.len() == i,
            forall|k: int| 0 <= k < i ==> {
                &&& (#[trigger] t@[k]).rate@ == porcentaje_grupo(g@[k].clave as int)
                &&& t@[k].base@ == moneda(g@[k].base as int)
                &&& t@[k].cuota@ == moneda(g@[k].cuota as int)
            },
        decreases g.len() - i,
    {
        t.push(IvaGroupTemplateData {
            rate: formato_porcentaje_grupo(g[i].clave),
            base: format_currency(g[i].base),
            cuota: format_currency(g[i].cuota),
        });
        i = i + 1;
    }
    t
}

fn filas_de_articulos(l: &Vec<LineaPdf>) -> (t: Vec<InvoiceItemTemplateData>)
    ensures
        filas_articulos(t@, l@),
{
    let mut t: Vec<InvoiceItemTemplateData> = Vec::new();
    let mut i: usize = 0;
    while i < l.len()
        invariant
            i <= l.len(),
            t@.len() == i,
            forall|k: int| 0 <= k < i ==> {
                &&& (#[trigger] t@[k]).descripcion@ == l@[k].descripcion@
                &&& t@[k].cantidad@ == l@[k].cantidad@
                &&& t@[k].precio_unitario@ == moneda(l@[k].precio_unitario as int)
                &&& t@[k].tipo_iva@ == l@[k].tipo_iva@
                &&& t@[k].total_linea@ == moneda(l@[k].total_linea as int)
            },
        decreases l.len() - i,
    {
        t.push(InvoiceItemTemplateData {
            descripcion: l[i].descripcion.clone(),
            cantidad: l[i].cantidad.clone(),
            precio_unitario: format_currency(l[i].precio_unitario),
            tipo_iva: l[i].tipo_iva.clone(),
            total_linea: format_currency(l[i].total_linea),
        });
        i = i + 1;
    }
    t
}

/// Prepara los datos de la plantilla HTML de una factura. Los totales no se
/// toman de la factura guardada sino que se recalculan desde las líneas.
pub fn datos_plantilla_factura(
    invoice: &InvoiceRow,
    lineas: &Vec<LineaPdf>,
    generated_at: String,
    qr_svg_data_url: &str,
    qr_url: &str,
) -> (t: InvoiceTemplateData)
    requires
        suma_absoluta(importes_de(lineas@)) <= i64::MAX,
    ensures
        plantilla_de(t, *invoice, lineas@, generated_at@, qr_svg_data_url@, qr_url@),
{
    let importes = importes_lineas(lineas);
    let totales = totales_iva(&importes);
    let iva_groups = filas_de_iva(&totales.grupos);
    let mut invoice_code = invoice.serie_prefijo.clone();
    agregar_texto(&mut invoice_code, "-");
    agregar_texto(&mut invoice_code, crate::texto::entero_ceros_i64(invoice.numero, 4).as_str());
    let t = InvoiceTemplateData {
        generated_at,
        invoice_code,
        issue_date: invoice.fecha_emision.clone(),
        due_date: opcion_o_vacio(&invoice.fecha_vencimiento),
        company_name: invoice.empresa_nombre.clone(),
        company_nif: invoice.empresa_nif.clone(),
        company_address: invoice.empresa_direccion.clone(),
        company_postal_city: format_postal_city(opcion_str(&invoice.empresa_codigo_postal), opcion_str(&invoice.empresa_poblacion)),
        company_province: opcion_o_vacio(&invoice.empresa_provincia),
        client_name: invoice.cliente_nombre.clone(),
        client_nif: opcion_o(&invoice.cliente_nif, "-"),
        client_address: opcion_o(&invoice.cliente_direccion, "-"),
        client_postal_city: format_postal_city(opcion_str(&invoice.cliente_codigo_postal), opcion_str(&invoice.cliente_poblacion)),
        client_province: opcion_o_vacio(&invoice.cliente_provincia),
        client_email: opcion_o(&invoice.cliente_email, "-"),
        status: invoice.estado.clone(),
        subtotal: format_currency(totales.subtotal),
        total_taxes: format_currency(totales.total_iva),
        total: format_currency(totales.total),
        iva_groups,
        hash_registro: invoice.hash_registro.clone(),
        hash_anterior: opcion_o(&invoice.hash_anterior, "GENESIS"),
        items: filas_de_articulos(lineas),
        qr_svg_data_url: copiar(qr_svg_data_url),
        qr_url: copiar(qr_url),
        payment_method: label_for_metodo_pago(opcion_str(&invoice.metodo_pago)),
        bank_account: opcion_o_vacio(&invoice.cuenta_bancaria),
        notes: opcion_o_vacio(&invoice.notas),
    };
    assert(grupos_de(importes_de(lineas@), totales.grupos@) && filas_iva(t.iva_groups@, totales.grupos@));
    t
}

} // verus!

verus! {

/// Total para el QR: el guardado si es positivo; si no, el de las líneas.
pub open spec fn total_real(total: int, l: Seq<LineaCalculada>) -> int {
    if total > 0 {
        total
    } else {
        suma_bases(l) + suma_cuotas(l)
    }
}

/// QR de la factura: su imagen PNG, o vacío si la URL no cabe en un código QR.
pub open spec fn qr_posible(q: Seq<char>, url: Seq<char>) -> bool {
    match crate::qr::qr_medio(url) {
        Some((n, m)) => q == crate::qr::data_url_png(n, m),
        None => q.len() == 0,
    }
}

/// Datos del PDF de una factura: URL y QR de verificación (con el total de
/// las líneas si el guardado no es positivo) y datos de la plantilla. Una
/// factura sin líneas no se imprime.
pub fn datos_pdf_factura(invoice: &InvoiceRow, lineas: &Vec<LineaPdf>, generated_at: String) -> (r: crate::error::AppResult<InvoiceTemplateData>)
    requires
        suma_absoluta(importes_de(lineas@)) <= i64::MAX,
        crate::qr::hash_corto(invoice.hash_registro@) is Some,
    ensures
        match r {
            Ok(t) => lineas@.len() > 0 && {
                let url = crate::qr::url_notariado(
                    invoice.empresa_nif@,
                    invoice.serie_prefijo@,
                    invoice.numero as int,
                    invoice.fecha_emision@,
                    total_real(invoice.total as int, importes_de(lineas@)),
                    crate::qr::hash_corto(invoice.hash_registro@)->0,
                );
                &&& t.qr_url@ == url
                &&& qr_posible(t.qr_svg_data_url@, url)
                &&& plantilla_de(t, *invoice, lineas@, generated_at@, t.qr_svg_data_url@, url)
            },
            Err(crate::error::AppError::Validation(m)) => lineas@.len() == 0
                && m@ == "La factura no contiene líneas para generar el PDF"@,
            Err(_) => false,
        },
{
    if lineas.len() == 0 {
        return Err(crate::commands::validacion("La factura no contiene líneas para generar el PDF"));
    }
    let importes = importes_lineas(lineas);
    let totales = totales_iva(&importes);
    let total: i64 = if invoice.total > 0 { invoice.total } else { totales.total };
    let qr_url = crate::qr::url_qr_notariado(
        invoice.empresa_nif.as_str(),
        invoice.serie_prefijo.as_str(),
        invoice.numero,
        invoice.fecha_emision.as_str(),
        total,
        invoice.hash_registro.as_str(),
    );
    let qr = match crate::qr::qr_to_png_data_url(qr_url.as_str()) {
        Ok(data_url) => data_url,
        Err(_) => String::new(),
    };
    Ok(datos_plantilla_factura(invoice, lineas, generated_at, qr.as_str(), qr_url.as_str()))
}

/// `factura_id` debe ser positivo.
pub fn validar_factura_id(factura_id: i32) -> (r: crate::error::AppResult<()>)
    ensures
        crate::commands::resultado_validacion(r, if factura_id <= 0 { Some("factura_id debe ser mayor que cero"@) } else { None }),
{
    if factura_id <= 0 {
        return Err(crate::commands::validacion("factura_id debe ser mayor que cero"));
    }
    Ok(())
}

/// Nombre del informe estadístico.
pub open spec fn nombre_informe(sello: Seq<char>) -> Seq<char> {
    "informe_estadistico_"@ + sello + ".pdf"@
}

pub fn nombre_fichero_informe(sello: &str) -> (r: String)
    ensures
        r@ == nombre_informe(sello@),
{
    let mut r = copiar("informe_estadistico_");
    agregar_texto(&mut r, sello);
    agregar_texto(&mut r, ".pdf");
    r
}

// ─── Programas externos ──────────────────────────────────────────────────────

/// Sistema operativo para el que se buscan programas.
#[derive(Clone, Copy, Debug, PartialEq, Eq, Structural)]
pub enum SistemaOperativo {
    Windows,
    MacOs,
    Linux,
    Otro,
}

/// Rutas de navegador Chromium, en orden de preferencia.
pub open spec fn candidatos_navegador_de(os: SistemaOperativo, local_app_data: Option<Seq<char>>) -> Seq<Seq<char>> {
    match os {
        SistemaOperativo::Windows => {
            let fijos = seq![
                "C:\\Program Files\\Google\\Chrome\\Application\\chrome.exe"@,
                "C:\\Program Files (x86)\\Google\\Chrome\\Application\\chrome.exe"@,
                "C:\\Program Files\\Google\\Chrome Beta\\Application\\chrome.exe"@,
                "C:\\Program Files\\Google\\Chrome Dev\\Application\\chrome.exe"@,
                "C:\\Program Files (x86)\\Microsoft\\Edge\\Application\\msedge.exe"@,
                "C:\\Program Files\\Microsoft\\Edge\\Application\\msedge.exe"@,
            ];
            match local_app_data {
                Some(d) => fijos + seq![
                    d + "\\Google\\Chrome\\Application\\chrome.exe"@,
                    d + "\\Microsoft\\Edge\\Application\\msedge.exe"@,
                ],
                None => fijos,
            }
        },
        SistemaOperativo::MacOs => seq![
            "/Applications/Google Chrome.app/Contents/MacOS/Google Chrome"@,
            "/Applications/Microsoft Edge.app/Contents/MacOS/Microsoft Edge"@,
            "/Applications/Chromium.app/Contents/MacOS/Chromium"@,
        ],
        SistemaOperativo::Linux => seq![
            "/usr/bin/google-chrome"@,
            "/usr/bin/google-chrome-stable"@,
            "/usr/bin/chromium"@,
            "/usr/bin/chromium-browser"@,
            "/snap/bin/chromium"@,
        ],
        SistemaOperativo::Otro => Seq::empty(),
    }
}

/// Rutas candidatas del navegador para generar PDF; `local_app_data` es el
/// valor de `LOCALAPPDATA` en Windows, si existe.
pub fn candidatos_navegador(os: SistemaOperativo, local_app_data: Option<&str>) -> (r: Vec<String>)
    ensures
        crate::texto::vistas(r@) == candidatos_navegador_de(os, vista_str(local_app_data)),
{
    let mut r: Vec<String> = Vec::new();
    match os {
        SistemaOperativo::Windows => {
            r.push(copiar("C:\\Program Files\\Google\\Chrome\\Application\\chrome.exe"));
            r.push(copiar("C:\\Program Files (x86)\\Google\\Chrome\\Application\\chrome.exe"));
            r.push(copiar("C:\\Program Files\\Google\\Chrome Beta\\Application\\chrome.exe"));
            r.push(copiar("C:\\Program Files\\Google\\Chrome Dev\\Application\\chrome.exe"));
            r.push(copiar("C:\\Program Files (x86)\\Microsoft\\Edge\\Application\\msedge.exe"));
            r.push(copiar("C:\\Program Files\\Microsoft\\Edge\\Application\\msedge.exe"));
            match local_app_data {
                Some(d) => {
                    let mut a = copiar(d);
                    agregar_texto(&mut a, "\\Google\\Chrome\\Application\\chrome.exe");
                    r.push(a);
                    let mut b = copiar(d);
                    agregar_texto(&mut b, "\\Microsoft\\Edge\\Application\\msedge.exe");
                    r.push(b);
                },
                None => {},
            }
        },
        SistemaOperativo::MacOs => {
            r.push(copiar("/Applications/Google Chrome.app/Contents/MacOS/Google Chrome"));
            r.push(copiar("/Applications/Microsoft Edge.app/Contents/MacOS/Microsoft Edge"));
            r.push(copiar("/Applications/Chromium.app/Contents/MacOS/Chromium"));
        },
        SistemaOperativo::Linux => {
            r.push(copiar("/usr/bin/google-chrome"));
            r.push(copiar("/usr/bin/google-chrome-stable"));
            r.push(copiar("/usr/bin/chromium"));
            r.push(copiar("/usr/bin/chromium-browser"));
            r.push(copiar("/snap/bin/chromium"));
        },
        SistemaOperativo::Otro => {},
    }
    assert(crate::texto::vistas(r@) =~= candidatos_navegador_de(os, vista_str(local_app_data)));
    r
}

/// Primera posición con `existe[i]`.
pub open spec fn primer_existente(existe: Seq<bool>) -> Option<int>
    decreases existe.len(),
{
    if existe.len() == 0 {
        None
    } else if existe[0] {
        Some(0)
    } else {
        match primer_existente(existe.drop_first()) {
            Some(i) => Some(i + 1),
            None => None,
        }
    }
}

/// La posición que da `primer_existente` está dentro de la secuencia y es verdadera.
pub proof fn lema_primer_existente(existe: Seq<bool>)
    ensures
        match primer_existente(existe) {
            Some(i) => 0 <= i < existe.len() && existe[i],
            None => forall|k: int| 0 <= k < existe.len() ==> !existe[k],
        },
    decreases existe.len(),
{
    if existe.len() > 0 && !existe[0] {
        lema_primer_existente(existe.drop_first());
        assert forall|k: int| 1 <= k < existe.len() implies existe[k] == existe.drop_first()[k - 1] by {}
    }
}

/// El primer candidato que existe, si hay alguno; `existe[i]` dice si el
/// candidato `i` está en el disco.
pub fn elegir_existente(candidatos: &Vec<String>, existe: &Vec<bool>) -> (r: Option<String>)
    requires
        candidatos.len() == existe.len(),
    ensures
        match primer_existente(existe@) {
            Some(i) => r matches Some(s) && s@ == candidatos@[i]@,
            None => r is None,
        },
{
    let mut i: usize = 0;
    assert(existe@.skip(0) == existe@);
    while i < existe.len()
        invariant
            candidatos.len() == existe.len(),
            i <= existe.len(),
            primer_existente(existe@) == match primer_existente(existe@.skip(i as int)) {
                Some(k) => Some(k + i),
                None => None::<int>,
            },
        decreases existe.len() - i,
    {
        if existe[i] {
            assert(existe@.skip(i as int)[0]);
            return Some(candidatos[i].clone());
        }
        assert(existe@.skip(i as int).drop_first() == existe@.skip(i + 1));
        i = i + 1;
    }
    None
}

/// Rutas habituales de AutoFirma y la orden por defecto si no está en ninguna.
pub open spec fn candidatos_autofirma_de(os: SistemaOperativo) -> (Seq<Seq<char>>, Seq<char>) {
    match os {
        SistemaOperativo::Windows => (seq![
            "C:\\Program Files\\AutoFirma\\Autofirma\\AutofirmaCommandLine.exe"@,
            "C:\\Program Files (x86)\\AutoFirma\\Autofirma\\AutofirmaCommandLine.exe"@,
            "C:\\Program Files\\AutoFirma\\AutofirmaCommandLine.exe"@,
            "C:\\Program Files (x86)\\AutoFirma\\AutofirmaCommandLine.exe"@,
        ], "AutofirmaCommandLine.exe"@),
        SistemaOperativo::MacOs => (seq![
            "/Applications/AutoFirma.app/Contents/MacOS/AutofirmaCommandLine"@,
            "/Applications/AutoFirma.app/Contents/MacOS/AutoFirmaCommandLine"@,
        ], "AutofirmaCommandLine"@),
        _ => (Seq::empty(), "autofirma"@),
    }
}

pub fn candidatos_autofirma(os: SistemaOperativo) -> (r: (Vec<String>, String))
    ensures
        crate::texto::vistas(r.0@) == candidatos_autofirma_de(os).0,
        r.1@ == candidatos_autofirma_de(os).1,
{
    let mut v: Vec<String> = Vec::new();
    let defecto = match os {
        SistemaOperativo::Windows => {
            v.push(copiar("C:\\Program Files\\AutoFirma\\Autofirma\\AutofirmaCommandLine.exe"));
            v.push(copiar("C:\\Program Files (x86)\\AutoFirma\\Autofirma\\AutofirmaCommandLine.exe"));
            v.push(copiar("C:\\Program Files\\AutoFirma\\AutofirmaCommandLine.exe"));
            v.push(copiar("C:\\Program Files (x86)\\AutoFirma\\AutofirmaCommandLine.exe"));
            copiar("AutofirmaCommandLine.exe")
        },
        SistemaOperativo::MacOs => {
            v.push(copiar("/Applications/AutoFirma.app/Contents/MacOS/AutofirmaCommandLine"));
            v.push(copiar("/Applications/AutoFirma.app/Contents/MacOS/AutoFirmaCommandLine"));
            copiar("AutofirmaCommandLine")
        },
        _ => copiar("autofirma"),
    };
    assert(crate::texto::vistas(v@) =~= candidatos_autofirma_de(os).0);
    (v, defecto)
}

/// Ruta del ejecutable de AutoFirma: el primer candidato que existe o la orden por defecto.
pub fn autofirma_binary_path(os: SistemaOperativo, existe: &Vec<bool>) -> (r: String)
    requires
        existe.len() == candidatos_autofirma_de(os).0.len(),
    ensures
        r@ == match primer_existente(existe@) {
            Some(i) => candidatos_autofirma_de(os).0[i],
            None => candidatos_autofirma_de(os).1,
        },
{
    let (candidatos, defecto) = candidatos_autofirma(os);
    proof {
        lema_primer_existente(existe@);
        match primer_existente(existe@) {
            Some(i) => {
                assert(crate::texto::vistas(candidatos@)[i] == candidatos@[i]@);
            },
            None => {},
        }
    }
    match elegir_existente(&candidatos, existe) {
        Some(p) => p,
        None => defecto,
    }
}

/// Argumentos de la orden de firma de AutoFirma: firma Facturae con
/// SHA-256, eligiendo el certificado en el almacén de Windows.
pub open spec fn argumentos_autofirma_de(entrada: Seq<char>, salida: Seq<char>) -> Seq<Seq<char>> {
    seq![
        "sign"@, "-certgui"@, "-store"@, "windows"@, "-i"@, entrada, "-o"@, salida, "-format"@,
        "facturae"@, "-algorithm"@, "sha256"@,
    ]
}

/// Argumentos con que se lanza AutoFirma para firmar `entrada` en `salida`.
pub fn argumentos_autofirma(entrada: &str, salida: &str) -> (r: Vec<String>)
    ensures
        crate::texto::vistas(r@) == argumentos_autofirma_de(entrada@, salida@),
{
    let mut r: Vec<String> = Vec::new();
    r.push(copiar("sign"));
    r.push(copiar("-certgui"));
    r.push(copiar("-store"));
    r.push(copiar("windows"));
    r.push(copiar("-i"));
    r.push(copiar(entrada));
    r.push(copiar("-o"));
    r.push(copiar(salida));
    r.push(copiar("-format"));
    r.push(copiar("facturae"));
    r.push(copiar("-algorithm"));
    r.push(copiar("sha256"));
    assert(crate::texto::vistas(r@) =~= argumentos_autofirma_de(entrada@, salida@));
    r
}

/// Texto `Debug` de un `Option<i32>`: `Some(n)` o `None`.
pub open spec fn opcion_debug(codigo: Option<i32>) -> Seq<char> {
    match codigo {
        Some(c) => "Some("@ + crate::texto::decimal_entero(c as int) + ")"@,
        None => "None"@,
    }
}

/// Mensaje de AutoFirma terminada con error (código de salida, si lo hay).
pub open spec fn msg_codigo_autofirma(codigo: Option<i32>) -> Seq<char> {
    "AutoFirma terminó con código "@ + opcion_debug(codigo)
        + ". El usuario puede haber cancelado la firma o no tiene certificado instalado."@
}

/// Resultado de la ejecución de AutoFirma: bien si terminó con éxito; si
/// no, el error con su código de salida.
pub fn comprobar_salida_autofirma(exito: bool, codigo: Option<i32>) -> (r: Result<(), String>)
    ensures
        r is Ok <==> exito,
        r matches Err(m) ==> m@ == msg_codigo_autofirma(codigo),
{
    if exito {
        return Ok(());
    }
    let mut m = copiar("AutoFirma terminó con código ");
    match codigo {
        Some(c) => {
            agregar_texto(&mut m, "Some(");
            agregar_texto(&mut m, crate::texto::decimal_i64(c as i64).as_str());
            agregar_texto(&mut m, ")");
        },
        None => agregar_texto(&mut m, "None"),
    }
    agregar_texto(&mut m, ". El usuario puede haber cancelado la firma o no tiene certificado instalado.");
    Err(m)
}

/// Mensaje de AutoFirma que no se pudo lanzar.
pub open spec fn msg_lanzar_autofirma(binario: Seq<char>, error: Seq<char>) -> Seq<char> {
    "No se pudo lanzar AutoFirma ("@ + binario + "): "@ + error + ". Asegúrate de que AutoFirma está instalado."@
}

pub fn error_lanzar_autofirma(binario: &str, error: &str) -> (r: String)
    ensures
        r@ == msg_lanzar_autofirma(binario@, error@),
{
    let mut m = copiar("No se pudo lanzar AutoFirma (");
    agregar_texto(&mut m, binario);
    agregar_texto(&mut m, "): ");
    agregar_texto(&mut m, error);
    agregar_texto(&mut m, ". Asegúrate de que AutoFirma está instalado.");
    m
}

/// Mensaje de AutoFirma terminada sin dejar el fichero firmado.
pub open spec fn msg_salida_autofirma(ruta: Seq<char>, error: Seq<char>) -> Seq<char> {
    "AutoFirma terminó correctamente pero no se encontró el archivo de salida ("@ + ruta + "): "@ + error
}

pub fn error_salida_autofirma(ruta: &str, error: &str) -> (r: String)
    ensures
        r@ == msg_salida_autofirma(ruta@, error@),
{
    let mut m = copiar("AutoFirma terminó correctamente pero no se encontró el archivo de salida (");
    agregar_texto(&mut m, ruta);
    agregar_texto(&mut m, "): ");
    agregar_texto(&mut m, error);
    m
}

/// Orden del sistema que abre un fichero con la aplicación predeterminada:
/// programa y argumentos, o nada en otro sistema.
pub open spec fn orden_abrir_de(os: SistemaOperativo, ruta: Seq<char>) -> Option<Seq<Seq<char>>> {
    match os {
        SistemaOperativo::Windows => Some(seq!["cmd"@, "/c"@, "start"@, ""@, ruta]),
        SistemaOperativo::MacOs => Some(seq!["open"@, ruta]),
        SistemaOperativo::Linux => Some(seq!["xdg-open"@, ruta]),
        SistemaOperativo::Otro => None,
    }
}

/// Programa y argumentos con que `abrir_archivo` abre la ruta.
pub fn orden_abrir_archivo(os: SistemaOperativo, ruta: &str) -> (r: Option<Vec<String>>)
    ensures
        match orden_abrir_de(os, ruta@) {
            Some(o) => r matches Some(v) && crate::texto::vistas(v@) == o,
            None => r is None,
        },
{
    let mut v: Vec<String> = Vec::new();
    match os {
        SistemaOperativo::Windows => {
            v.push(copiar("cmd"));
            v.push(copiar("/c"));
            v.push(copiar("start"));
            v.push(copiar(""));
            v.push(copiar(ruta));
        },
        SistemaOperativo::MacOs => {
            v.push(copiar("open"));
            v.push(copiar(ruta));
        },
        SistemaOperativo::Linux => {
            v.push(copiar("xdg-open"));
            v.push(copiar(ruta));
        },
        SistemaOperativo::Otro => {
            return None;
        },
    }
    assert(crate::texto::vistas(v@) =~= orden_abrir_de(os, ruta@)->0);
    Some(v)
}

/// Mensaje del fichero que no se pudo abrir.
pub open spec fn msg_abrir(error: Seq<char>) -> Seq<char> {
    "No se pudo abrir el archivo: "@ + error
}

pub fn error_abrir_archivo(error: &str) -> (r: String)
    ensures
        r@ == msg_abrir(error@),
{
    let mut m = copiar("No se pudo abrir el archivo: ");
    agregar_texto(&mut m, error);
    m
}

/// `facturae_{prefijo}_{numero}_{fecha sin guiones}.xml`.
pub open spec fn nombre_facturae(prefijo: Seq<char>, numero: int, fecha: Seq<char>) -> Seq<char> {
    "facturae_"@ + prefijo + "_"@ + crate::texto::decimal_entero(numero) + "_"@ + sin_caracter(fecha, '-') + ".xml"@
}

pub fn nombre_fichero_facturae(serie_prefijo: &str, numero: i64, fecha_emision: &str) -> (r: String)
    ensures
        r@ == nombre_facturae(serie_prefijo@, numero as int, fecha_emision@),
{
    let mut r = copiar("facturae_");
    agregar_texto(&mut r, serie_prefijo);
    agregar_texto(&mut r, "_");
    agregar_texto(&mut r, crate::texto::decimal_i64(numero).as_str());
    agregar_texto(&mut r, "_");
    agregar_texto(&mut r, quitar_caracter(fecha_emision, '-').as_str());
    agregar_texto(&mut r, ".xml");
    r
}

} // verus!

verus! {

// ─── El importe impreso identifica el importe ────────────────────────────────

proof fn lema_digito_inyectivo(a: nat, b: nat)
    requires
        a < 10,
        b < 10,
        crate::texto::digito(a) == crate::texto::digito(b),
    ensures
        a == b,
{
    assert(crate::texto::digito(a) as u32 == 48 + a);
    assert(crate::texto::digito(b) as u32 == 48 + b);
}

/// La representación decimal empieza por una cifra.
proof fn lema_decimal_empieza_por_cifra(n: nat)
    ensures
        decimal(n).len() >= 1,
        48 <= decimal(n)[0] as u32 <= 57,
    decreases n,
{
    crate::texto::lema_decimal_no_vacio(n);
    if n < 10 {
        assert(crate::texto::digito(n) as u32 == 48 + n);
    } else {
        lema_decimal_empieza_por_cifra(n / 10);
        assert(decimal(n)[0] == decimal(n / 10)[0]);
    }
}

/// Dos naturales distintos se escriben distinto en decimal.
proof fn lema_decimal_inyectivo(m: nat, n: nat)
    requires
        decimal(m) == decimal(n),
    ensures
        m == n,
    decreases m,
{
    crate::texto::lema_decimal_no_vacio(m);
    crate::texto::lema_decimal_no_vacio(n);
    if m < 10 && n < 10 {
        assert(decimal(m)[0] == crate::texto::digito(m));
        assert(decimal(n)[0] == crate::texto::digito(n));
        lema_digito_inyectivo(m, n);
    } else if m < 10 {
        crate::texto::lema_decimal_no_vacio(n / 10);
        assert(decimal(n).len() >= 2);
    } else if n < 10 {
        crate::texto::lema_decimal_no_vacio(m / 10);
        assert(decimal(m).len() >= 2);
    } else {
        let k = decimal(m).len() - 1;
        assert(decimal(m)[k] == crate::texto::digito(m % 10));
        assert(decimal(n)[k] == crate::texto::digito(n % 10));
        lema_digito_inyectivo(m % 10, n % 10);
        assert(decimal(m / 10) == decimal(m).drop_last());
        assert(decimal(n / 10) == decimal(n).drop_last());
        lema_decimal_inyectivo(m / 10, n / 10);
    }
}

/// Dos importes distintos en céntimos se escriben distinto en euros.
pub proof fn lema_importe_inyectivo(c1: int, c2: int, sep: char)
    requires
        importe_con_separador(c1, sep) == importe_con_separador(c2, sep),
    ensures
        c1 == c2,
{
    let a1 = if c1 < 0 { -c1 } else { c1 };
    let a2 = if c2 < 0 { -c2 } else { c2 };
    let m = importe_con_separador(c1, sep);
    let s1: Seq<char> = if c1 < 0 { seq!['-'] } else { Seq::empty() };
    let s2: Seq<char> = if c2 < 0 { seq!['-'] } else { Seq::empty() };
    let d1 = decimal((a1 / 100) as nat);
    let d2 = decimal((a2 / 100) as nat);
    let k = m.len();
    assert(m == s1 + d1 + seq![sep] + seq![crate::texto::digito(((a1 % 100) / 10) as nat), crate::texto::digito((a1 % 10) as nat)]);
    assert(m == s2 + d2 + seq![sep] + seq![crate::texto::digito(((a2 % 100) / 10) as nat), crate::texto::digito((a2 % 10) as nat)]);
    assert(m[k - 1] == crate::texto::digito((a1 % 10) as nat));
    assert(m[k - 1] == crate::texto::digito((a2 % 10) as nat));
    assert(m[k - 2] == crate::texto::digito(((a1 % 100) / 10) as nat));
    assert(m[k - 2] == crate::texto::digito(((a2 % 100) / 10) as nat));
    lema_digito_inyectivo((a1 % 10) as nat, (a2 % 10) as nat);
    lema_digito_inyectivo(((a1 % 100) / 10) as nat, ((a2 % 100) / 10) as nat);
    assert(m.take(k - 3) =~= s1 + d1);
    assert(m.take(k - 3) =~= s2 + d2);
    lema_decimal_empieza_por_cifra((a1 / 100) as nat);
    lema_decimal_empieza_por_cifra((a2 / 100) as nat);
    if c1 < 0 && c2 >= 0 {
        assert((s1 + d1)[0] == '-');
        assert((s2 + d2)[0] == d2[0]);
    } else if c1 >= 0 && c2 < 0 {
        assert((s2 + d2)[0] == '-');
        assert((s1 + d1)[0] == d1[0]);
    } else {
        assert(s1 == s2);
        assert(d1 =~= (s1 + d1).skip(s1.len() as int));
        assert(d2 =~= (s2 + d2).skip(s2.len() as int));
        lema_decimal_inyectivo((a1 / 100) as nat, (a2 / 100) as nat);
        assert(a1 % 100 == a2 % 100) by (nonlinear_arith)
            requires
                a1 >= 0,
                a2 >= 0,
                a1 % 10 == a2 % 10,
                (a1 % 100) / 10 == (a2 % 100) / 10,
        ;
        assert(a1 == a2) by (nonlinear_arith)
            requires
                a1 >= 0,
                a2 >= 0,
                a1 / 100 == a2 / 100,
                a1 % 100 == a2 % 100,
        ;
    }
}

/// Dos importes distintos se imprimen distinto (`moneda`, el formato de
/// `format_currency`).
pub proof fn lema_moneda_inyectiva(c1: int, c2: int)
    requires
        moneda(c1) == moneda(c2),
    ensures
        c1 == c2,
{
    reveal_strlit(" €");
    let m1 = importe_con_separador(c1, ',');
    let m2 = importe_con_separador(c2, ',');
    assert(" €"@.len() == 2);
    assert(moneda(c1).len() == m1.len() + 2);
    assert(moneda(c2).len() == m2.len() + 2);
    assert(m1.len() == m2.len());
    assert(moneda(c1).take(m1.len() as int) =~= m1);
    assert(moneda(c2).take(m2.len() as int) =~= m2);
    lema_importe_inyectivo(c1, c2, ',');
}

/// En los datos del PDF, cada artículo muestra como total el importe de su
/// línea en euros y como precio unitario el de su precio; así, el total de
/// un artículo se imprime igual que su precio unitario solo si valen lo
/// mismo, y dos artículos muestran el mismo total solo si sus líneas suman
/// lo mismo.
pub proof fn ley_articulos_muestran_su_total(
    t: InvoiceTemplateData,
    inv: InvoiceRow,
    l: Seq<LineaPdf>,
    generated_at: Seq<char>,
    qr_data_url: Seq<char>,
    qr_url: Seq<char>,
    i: int,
    j: int,
)
    requires
        plantilla_de(t, inv, l, generated_at, qr_data_url, qr_url),
        0 <= i < l.len(),
        0 <= j < l.len(),
    ensures
        t.items@.len() == l.len(),
        t.items@[i].total_linea@ == moneda(l[i].total_linea as int),
        t.items@[i].precio_unitario@ == moneda(l[i].precio_unitario as int),
        (t.items@[i].total_linea@ == t.items@[i].precio_unitario@) <==> (l[i].total_linea == l[i].precio_unitario),
        (t.items@[i].total_linea@ == t.items@[j].total_linea@) <==> (l[i].total_linea == l[j].total_linea),
{
    assert(filas_articulos(t.items@, l));
    let a = t.items@[i];
    let b = t.items@[j];
    if a.total_linea@ == a.precio_unitario@ {
        lema_moneda_inyectiva(l[i].total_linea as int, l[i].precio_unitario as int);
    }
    if a.total_linea@ == b.total_linea@ {
        lema_moneda_inyectiva(l[i].total_linea as int, l[j].total_linea as int);
    }
}

} // verus!
