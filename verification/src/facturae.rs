//! Documento Facturae 3.2.x: NIF con prefijo de país, códigos de
//! rectificación y construcción del documento a partir de los datos de la
//! factura.

use vstd::prelude::*;

use crate::pdf::{acumulado_de, agrupar_iva, suma_absoluta, GrupoIva, LineaCalculada};

use crate::texto::{
    agregar_caracter, agregar_texto, agregar_tramo, caracteres, copiar, longitud_utf8, recortado, recortar,
    texto_igual,
};

verus! {

// ─── NIF / País (Anexo II, Orden HAP/1650/2015) ───────────────────────────────
//
// Si los 2 primeros caracteres son letras, se interpretan como prefijo de país
// (p.ej. "ESB12345645" → país=ES, NIF=B12345645). En otro caso el código
// completo es el NIF y el país es España (ESP).

pub struct ParsedNif {
    /// Código ISO 3166-1 alpha-3 (ej. "ESP", "FRA"); un prefijo de dos
    /// letras sin alpha-3 asignado se conserva tal cual.
    pub country_code: String,
    /// Número de identificación fiscal sin prefijo de país
    pub nif: String,
}

pub open spec fn es_letra_ascii(c: char) -> bool {
    ('A' <= c && c <= 'Z') || ('a' <= c && c <= 'z')
}

pub open spec fn mayuscula_ascii(c: char) -> char {
    if 'a' <= c && c <= 'z' {
        ((c as u32) - 32) as char
    } else {
        c
    }
}

/// Códigos de país de ISO 3166-1: cada entrada son cinco letras, el código
/// alpha-2 seguido de su alpha-3. Al final van las dos reservas
/// excepcionales que usan los NIF-IVA europeos: `EL` (Grecia) y `UK` (Reino
/// Unido).
pub const TABLA_PAISES: &'static str = "ADANDAEAREAFAFGAGATGAIAIAALALBAMARMAOAGOAQATAARARGASASMATAUTAUAUSAWABWAXALAAZAZEBABIHBBBRBBDBGDBEBELBFBFABGBGRBHBHRBIBDIBJBENBLBLMBMBMUBNBRNBOBOLBQBESBRBRABSBHSBTBTNBVBVTBWBWABYBLRBZBLZCACANCCCCKCDCODCFCAFCGCOGCHCHECICIVCKCOKCLCHLCMCMRCNCHNCOCOLCRCRICUCUBCVCPVCWCUWCXCXRCYCYPCZCZEDEDEUDJDJIDKDNKDMDMADODOMDZDZAECECUEEESTEGEGYEHESHERERIESESPETETHFIFINFJFJIFKFLKFMFSMFOFROFRFRAGAGABGBGBRGDGRDGEGEOGFGUFGGGGYGHGHAGIGIBGLGRLGMGMBGNGINGPGLPGQGNQGRGRCGSSGSGTGTMGUGUMGWGNBGYGUYHKHKGHMHMDHNHNDHRHRVHTHTIHUHUNIDIDNIEIRLILISRIMIMNININDIOIOTIQIRQIRIRNISISLITITAJEJEYJMJAMJOJORJPJPNKEKENKGKGZKHKHMKIKIRKMCOMKNKNAKPPRKKRKORKWKWTKYCYMKZKAZLALAOLBLBNLCLCALILIELKLKALRLBRLSLSOLTLTULULUXLVLVALYLBYMAMARMCMCOMDMDAMEMNEMFMAFMGMDGMHMHLMKMKDMLMLIMMMMRMNMNGMOMACMPMNPMQMTQMRMRTMSMSRMTMLTMUMUSMVMDVMWMWIMXMEXMYMYSMZMOZNANAMNCNCLNENERNFNFKNGNGANINICNLNLDNONORNPNPLNRNRUNUNIUNZNZLOMOMNPAPANPEPERPFPYFPGPNGPHPHLPKPAKPLPOLPMSPMPNPCNPRPRIPSPSEPTPRTPWPLWPYPRYQAQATREREUROROURSSRBRURUSRWRWASASAUSBSLBSCSYCSDSDNSESWESGSGPSHSHNSISVNSJSJMSKSVKSLSLESMSMRSNSENSOSOMSRSURSSSSDSTSTPSVSLVSXSXMSYSYRSZSWZTCTCATDTCDTFATFTGTGOTHTHATJTJKTKTKLTLTLSTMTKMTNTUNTOTONTRTURTTTTOTVTUVTWTWNTZTZAUAUKRUGUGAUMUMIUSUSAUYURYUZUZBVAVATVCVCTVEVENVGVGBVIVIRVNVNMVUVUTWFWLFWSWSMYEYEMYTMYTZAZAFZMZMBZWZWEELGRCUKGBR";

/// Código alpha-3 que la tabla `tabla` asigna a `alpha2`, si lo tiene.
pub open spec fn buscar_alpha3(tabla: Seq<char>, alpha2: Seq<char>) -> Option<Seq<char>>
    decreases tabla.len(),
{
    if tabla.len() < 5 {
        None
    } else if tabla.take(2) == alpha2 {
        Some(tabla.subrange(2, 5))
    } else {
        buscar_alpha3(tabla.skip(5), alpha2)
    }
}

/// Código ISO 3166-1 alpha-3 de un código alpha-2 (en mayúsculas), si existe.
pub open spec fn iso3_de(alpha2: Seq<char>) -> Option<Seq<char>> {
    buscar_alpha3(TABLA_PAISES@, alpha2)
}

/// Todo código que da la tabla tiene tres caracteres.
pub proof fn lema_alpha3_longitud(tabla: Seq<char>, alpha2: Seq<char>)
    ensures
        buscar_alpha3(tabla, alpha2) matches Some(c) ==> c.len() == 3,
    decreases tabla.len(),
{
    if tabla.len() >= 5 && tabla.take(2) != alpha2 {
        lema_alpha3_longitud(tabla.skip(5), alpha2);
    }
}

/// Los dos primeros caracteres, en mayúsculas ASCII.
pub open spec fn par_mayusculas(t: Seq<char>) -> Seq<char> {
    seq![mayuscula_ascii(t[0]), mayuscula_ascii(t[1])]
}

/// Regla estricta: el texto recortado ocupa más de 2 bytes y empieza por
/// dos letras ASCII, que se toman como prefijo de país.
pub open spec fn tiene_prefijo_pais(t: Seq<char>) -> bool {
    &&& longitud_utf8(t) > 2
    &&& t.len() >= 2
    &&& es_letra_ascii(t[0])
    &&& es_letra_ascii(t[1])
}

/// Código de país de un prefijo alpha-2: su alpha-3 si ISO 3166-1 lo tiene
/// asignado; si no, el propio par de letras (no hay alpha-3 que darle).
pub open spec fn pais_de_alpha2(alpha2: Seq<char>) -> Seq<char> {
    match iso3_de(alpha2) {
        Some(c) => c,
        None => alpha2,
    }
}

/// País de un identificador fiscal.
pub open spec fn pais_de_nif(raw: Seq<char>) -> Seq<char> {
    let t = recortar(raw);
    if tiene_prefijo_pais(t) {
        pais_de_alpha2(par_mayusculas(t))
    } else {
        "ESP"@
    }
}

pub open spec fn nif_sin_pais(raw: Seq<char>) -> Seq<char> {
    let t = recortar(raw);
    if tiene_prefijo_pais(t) {
        t.skip(2)
    } else {
        t
    }
}

/// `longitud_utf8(s) > n`, sin desbordamiento.
fn bytes_mayor_que(v: &Vec<char>, n: usize) -> (r: bool)
    requires
        n < 1000,
    ensures
        r == (longitud_utf8(v@) > n),
{
    let mut i: usize = 0;
    let mut total: usize = 0;
    assert(v@.take(0) =~= Seq::<char>::empty());
    while i < v.len() && total <= n
        invariant
            i <= v.len(),
            n < 1000,
            total <= n + 4,
            total == longitud_utf8(v@.take(i as int)),
        decreases v.len() - i,
    {
        proof {
            crate::texto::lema_longitud_prefijo(v@, i as int);
        }
        total = total + crate::texto::bytes_utf8_exec(v[i]);
        i = i + 1;
    }
    proof {
        crate::texto::lema_longitud_division(v@, i as int);
        assert(v@.subrange(0, i as int) == v@.take(i as int));
        if i == v.len() {
            assert(v@.take(i as int) == v@);
        }
    }
    total > n
}

fn es_letra_ascii_exec(c: char) -> (r: bool)
    ensures
        r == es_letra_ascii(c),
{
    ('A' <= c && c <= 'Z') || ('a' <= c && c <= 'z')
}

fn mayuscula_ascii_exec(c: char) -> (r: char)
    ensures
        r == mayuscula_ascii(c),
{
    if 'a' <= c && c <= 'z' {
        let u = (c as u32) - 32;
        let b = u as u8;
        let r = b as char;
        assert(r as u32 == u);
        r
    } else {
        c
    }
}

/// Código ISO 3166-1 alpha-3 de un código alpha-2 en mayúsculas; un código
/// sin alpha-3 asignado se devuelve tal cual.
pub fn iso2_to_iso3(alpha2: &str) -> (r: String)
    ensures
        r@ == pais_de_alpha2(alpha2@),
        iso3_de(alpha2@) is Some ==> r@.len() == 3,
{
    let v = caracteres(TABLA_PAISES);
    let a = caracteres(alpha2);
    let mut i: usize = 0;
    proof {
        lema_alpha3_longitud(v@, a@);
        assert(v@.skip(0) == v@);
    }
    while i < v.len() && v.len() - i >= 5
        invariant
            v@ == TABLA_PAISES@,
            a@ == alpha2@,
            i <= v.len(),
            buscar_alpha3(v@, a@) == buscar_alpha3(v@.skip(i as int), a@),
        decreases v.len() - i,
    {
        let ghost resto = v@.skip(i as int);
        if a.len() == 2 && v[i] == a[0] && v[i + 1] == a[1] {
            assert(resto.take(2) =~= a@);
            let mut c = String::new();
            agregar_tramo(&mut c, &v, i + 2, i + 5);
            assert(resto.subrange(2, 5) =~= v@.subrange(i + 2, i + 5));
            return c;
        }
        assert(resto.take(2) != a@) by {
            if a.len() == 2 {
                assert(resto.take(2)[0] == v@[i as int]);
                assert(resto.take(2)[1] == v@[i + 1]);
            } else {
                assert(resto.take(2).len() == 2);
            }
        }
        assert(resto.skip(5) =~= v@.skip(i + 5));
        i = i + 5;
    }
    copiar(alpha2)
}

/// Separa el prefijo de país de un NIF con la regla estricta: si empieza
/// por dos letras, son el prefijo de país (en alpha-3 si ISO 3166-1 le
/// asigna uno) y el resto es el NIF; si no, el código entero es el NIF y el
/// país es España (`ESP`).
pub fn parse_nif_country(raw: &str) -> (r: ParsedNif)
    ensures
        r.country_code@ == pais_de_nif(raw@),
        r.nif@ == nif_sin_pais(raw@),
        ({
            let t = recortar(raw@);
            tiene_prefijo_pais(t) ==> (iso3_de(par_mayusculas(t)) is Some ==> r.country_code@.len() == 3)
        }),
        !tiene_prefijo_pais(recortar(raw@)) ==> r.country_code@ == "ESP"@,
{
    let t = recortado(raw);
    let v = caracteres(t.as_str());
    if bytes_mayor_que(&v, 2) && v.len() >= 2 && es_letra_ascii_exec(v[0]) && es_letra_ascii_exec(v[1]) {
        let mut a2 = String::new();
        agregar_caracter(&mut a2, mayuscula_ascii_exec(v[0]));
        agregar_caracter(&mut a2, mayuscula_ascii_exec(v[1]));
        assert(a2@ =~= par_mayusculas(v@));
        let mut nif = String::new();
        agregar_tramo(&mut nif, &v, 2, v.len());
        assert(v@.subrange(2, v.len() as int) == v@.skip(2));
        ParsedNif { country_code: iso2_to_iso3(a2.as_str()), nif }
    } else {
        ParsedNif { country_code: copiar("ESP"), nif: t }
    }
}

// ─── Códigos de rectificación ─────────────────────────────────────────────────

/// Descripción del motivo de rectificación.
pub open spec fn descripcion_motivo(code: Seq<char>) -> Seq<char> {
    if code == "01"@ {
        "Número de factura"@
    } else if code == "02"@ {
        "Fecha de expedición"@
    } else if code == "03"@ {
        "Nombre y apellidos/Razón social"@
    } else if code == "04"@ {
        "Número de identificación fiscal"@
    } else if code == "05"@ {
        "Domicilio"@
    } else if code == "06"@ {
        "Datos del destinatario"@
    } else if code == "07"@ {
        "Cuota impositiva"@
    } else if code == "08"@ {
        "Tipo impositivo"@
    } else if code == "09"@ {
        "Operación exenta"@
    } else if code == "10"@ {
        "Inversión del sujeto pasivo"@
    } else if code == "14"@ {
        "Otras causas"@
    } else {
        "Rectificación"@
    }
}

pub fn reason_description_for(code: &str) -> (r: &'static str)
    ensures
        r@ == descripcion_motivo(code@),
{
    if texto_igual(code, "01") {
        "Número de factura"
    } else if texto_igual(code, "02") {
        "Fecha de expedición"
    } else if texto_igual(code, "03") {
        "Nombre y apellidos/Razón social"
    } else if texto_igual(code, "04") {
        "Número de identificación fiscal"
    } else if texto_igual(code, "05") {
        "Domicilio"
    } else if texto_igual(code, "06") {
        "Datos del destinatario"
    } else if texto_igual(code, "07") {
        "Cuota impositiva"
    } else if texto_igual(code, "08") {
        "Tipo impositivo"
    } else if texto_igual(code, "09") {
        "Operación exenta"
    } else if texto_igual(code, "10") {
        "Inversión del sujeto pasivo"
    } else if texto_igual(code, "14") {
        "Otras causas"
    } else {
        "Rectificación"
    }
}

/// Método de corrección según el tipo de rectificativa.
pub open spec fn metodo_correccion(tipo: Seq<char>) -> Seq<char> {
    if tipo == "03"@ {
        "03"@
    } else if tipo == "04"@ {
        "04"@
    } else {
        "01"@
    }
}

pub fn correction_method_for(tipo_rect: &str) -> (r: &'static str)
    ensures
        r@ == metodo_correccion(tipo_rect@),
{

    if texto_igual(tipo_rect, "03") {
        "03"
    } else if texto_igual(tipo_rect, "04") {
        "04"
    } else {
        "01"
    }
}

pub open spec fn descripcion_metodo(tipo: Seq<char>) -> Seq<char> {
    if tipo == "03"@ {
        "Rectificación por descuento global"@
    } else if tipo == "04"@ {
        "Autorización de la Agencia Tributaria"@
    } else {
        "Rectificación íntegra"@
    }
}

pub fn correction_method_description_for(tipo_rect: &str) -> (r: &'static str)
    ensures
        r@ == descripcion_metodo(tipo_rect@),
{

    if texto_igual(tipo_rect, "03") {
        "Rectificación por descuento global"
    } else if texto_igual(tipo_rect, "04") {
        "Autorización de la Agencia Tributaria"
    } else {
        "Rectificación íntegra"
    }
}

} // verus!

verus! {

// ─── Documento Facturae ───────────────────────────────────────────────────────

/// Importe decimal exacto: `mantisa × 10^-escala` (la forma de `rust_decimal::Decimal`).
#[derive(Clone, Copy, Debug, PartialEq, Eq, Structural)]
pub struct Importe {
    pub mantisa: i128,
    pub escala: u32,
}

/// Importe de una cantidad en céntimos (`Decimal::new(centimos, 2)`).
pub fn decimal_from_cents(cents: i64) -> (r: Importe)
    ensures
        r == (Importe { mantisa: cents as i128, escala: 2 }),
{
    Importe { mantisa: cents as i128, escala: 2 }
}

/// Cero (`Decimal::ZERO`).
pub open spec fn importe_cero() -> Importe {
    Importe { mantisa: 0, escala: 0 }
}

pub struct Batch {
    pub batch_identifier: String,
    pub invoices_count: u32,
    pub total_invoices_amount: Importe,
    pub total_outstanding_amount: Importe,
    pub total_executable_amount: Importe,
    pub invoice_currency_code: String,
}

pub struct FileHeader {
    pub schema_version: String,
    pub modality: String,
    pub invoice_issuer_type: String,
    pub batch: Batch,
}

pub struct AddressInSpain {
    pub address: String,
    pub post_code: String,
    pub town: String,
    pub province: String,
    pub country_code: String,
}

pub struct TaxIdentification {
    pub person_type_code: String,
    pub residence_type_code: String,
    pub tax_identification_number: String,
}

pub struct LegalEntity {
    pub corporate_name: String,
    pub address_in_spain: Option<AddressInSpain>,
}

pub struct Individual {
    pub name: String,
    pub first_surname: String,
    pub second_surname: Option<String>,
    pub address_in_spain: Option<AddressInSpain>,
}

pub struct AdministrativeCentre {
    pub centre_code: String,
    pub role_type_code: String,
    pub name: String,
    pub address_in_spain: Option<AddressInSpain>,
}

pub struct AdministrativeCentres {
    pub administrative_centre: Vec<AdministrativeCentre>,
}

pub struct Party {
    pub tax_identification: TaxIdentification,
    pub administrative_centres: Option<AdministrativeCentres>,
    pub legal_entity: Option<LegalEntity>,
    pub individual: Option<Individual>,
}

pub struct Parties {
    pub seller_party: Party,
    pub buyer_party: Party,
}

pub struct TaxAmount {
    pub total_amount: Importe,
}

pub struct Tax {
    pub tax_type_code: String,
    pub tax_rate: Importe,
    pub taxable_base: TaxAmount,
    pub tax_amount: TaxAmount,
}

pub struct TaxesOutputs {
    pub tax: Vec<Tax>,
}

pub struct TaxWithheld {
    pub tax_type_code: String,
    pub tax_rate: Importe,
    pub taxable_base: TaxAmount,
    pub tax_amount: TaxAmount,
}

pub struct TaxesWithheld {
    pub tax: Vec<TaxWithheld>,
}

pub struct InvoiceTotals {
    pub total_gross_amount: Importe,
    pub total_gross_amount_before_taxes: Importe,
    pub total_tax_outputs: Importe,
    pub total_taxes_withheld: Importe,
    pub invoice_total: Importe,
    pub total_outstanding_amount: Importe,
    pub total_executable_amount: Importe,
}

pub struct InvoiceLine {
    pub item_description: String,
    pub quantity: Importe,
    pub unit_price_without_tax: Importe,
    pub total_cost: Importe,
    pub gross_amount: Importe,
    pub taxes_outputs: TaxesOutputs,
}

pub struct Items {
    pub invoice_line: Vec<InvoiceLine>,
}

pub struct TaxPeriod {
    pub start_date: String,
    pub end_date: String,
}

pub struct Corrective {
    pub invoice_number: Option<String>,
    pub invoice_series_code: Option<String>,
    pub reason_code: String,
    pub reason_description: String,
    pub tax_period: TaxPeriod,
    pub correction_method: String,
    pub correction_method_description: String,
}

pub struct InvoiceHeader {
    pub invoice_number: String,
    pub invoice_series_code: String,
    pub invoice_document_type: String,
    pub invoice_class: String,
}

pub struct InvoiceIssueData {
    pub issue_date: String,
    pub operation_date: String,
    pub invoice_currency_code: String,
    pub tax_currency_code: String,
    pub language_name: String,
}

pub struct Invoice {
    pub invoice_header: InvoiceHeader,
    pub invoice_issue_data: InvoiceIssueData,
    pub corrective: Option<Corrective>,
    pub taxes_outputs: TaxesOutputs,
    pub taxes_withheld: Option<TaxesWithheld>,
    pub invoice_totals: InvoiceTotals,
    pub items: Items,
}

pub struct Invoices {
    pub invoice: Vec<Invoice>,
}

pub struct FacturaeDocument {
    pub file_header: FileHeader,
    pub parties: Parties,
    pub invoices: Invoices,
}

/// Datos de la factura, la empresa emisora y el cliente que usa el documento.
pub struct FacturaeInvoiceRow {
    pub numero: i64,
    pub fecha_emision: String,
    pub subtotal: i64,
    pub total_impuestos: i64,
    pub total: i64,
    pub serie_prefijo: String,
    pub empresa_nombre: String,
    pub empresa_nif: String,
    pub empresa_direccion: String,
    pub empresa_tipo_persona: String,
    pub empresa_codigo_postal: String,
    pub empresa_poblacion: String,
    pub empresa_provincia: String,
    pub cliente_nombre: String,
    pub cliente_nif: Option<String>,
    pub cliente_direccion: Option<String>,
    pub cliente_tipo_persona: String,
    pub cliente_codigo_postal: String,
    pub cliente_poblacion: String,
    pub cliente_provincia: String,
    pub es_entidad_publica: i64,
    pub dir3_oficina_contable: Option<String>,
    pub dir3_organo_gestor: Option<String>,
    pub dir3_unidad_tramitadora: Option<String>,
    pub tipo_rectificativa: Option<String>,
    pub numero_factura_rectificada: Option<String>,
    pub serie_factura_rectificada: Option<String>,
}

// ─── Piezas del documento ────────────────────────────────────────────────────

/// `nombre.splitn(3, ' ')`: nombre, primer apellido (o vacío) y segundo apellido.
pub open spec fn partes_nombre(s: Seq<char>) -> (Seq<char>, Seq<char>, Option<Seq<char>>) {
    match crate::texto::primer_indice(s, ' ') {
        None => (s, Seq::empty(), None),
        Some(i) => {
            let resto = s.skip(i + 1);
            match crate::texto::primer_indice(resto, ' ') {
                None => (s.take(i), resto, None),
                Some(j) => (s.take(i), resto.take(j), Some(resto.skip(j + 1))),
            }
        },
    }
}

pub open spec fn vista_opcional(o: Option<String>) -> Option<Seq<char>> {
    match o {
        Some(s) => Some(s@),
        None => None,
    }
}

/// Dirección con los datos dados.
pub open spec fn direccion_es(
    a: AddressInSpain,
    address: Seq<char>,
    post_code: Seq<char>,
    town: Seq<char>,
    province: Seq<char>,
    country: Seq<char>,
) -> bool {
    a.address@ == address && a.post_code@ == post_code && a.town@ == town && a.province@ == province
        && a.country_code@ == country
}

/// Parte (emisor o receptor): persona física (`F`) con nombre y apellidos, o
/// jurídica con razón social; NIF sin prefijo de país; residente (`R`).
pub open spec fn parte_es(
    p: Party,
    tipo_persona: Seq<char>,
    nombre: Seq<char>,
    nif_raw: Seq<char>,
    address: Seq<char>,
    post_code: Seq<char>,
    town: Seq<char>,
    province: Seq<char>,
) -> bool {
    let pais = pais_de_nif(nif_raw);
    &&& p.tax_identification.residence_type_code@ == "R"@
    &&& p.tax_identification.tax_identification_number@ == nif_sin_pais(nif_raw)
    &&& if tipo_persona == "F"@ {
        let (n, a1, a2) = partes_nombre(nombre);
        &&& p.tax_identification.person_type_code@ == "F"@
        &&& p.legal_entity is None
        &&& match p.individual {
            Some(ind) => ind.name@ == n && ind.first_surname@ == a1 && vista_opcional(ind.second_surname) == a2
                && match ind.address_in_spain {
                Some(d) => direccion_es(d, address, post_code, town, province, pais),
                None => false,
            },
            None => false,
        }
    } else {
        &&& p.tax_identification.person_type_code@ == "J"@
        &&& p.individual is None
        &&& match p.legal_entity {
            Some(le) => le.corporate_name@ == nombre && match le.address_in_spain {
                Some(d) => direccion_es(d, address, post_code, town, province, pais),
                None => false,
            },
            None => false,
        }
    }
}

fn texto_de_opcion(o: &Option<String>, defecto: &str) -> (r: String)
    ensures
        r@ == match o {
            Some(s) => s@,
            None => defecto@,
        },
{
    match o {
        Some(s) => s.clone(),
        None => copiar(defecto),
    }
}

/// Separa nombre y apellidos por los dos primeros espacios.
fn separar_nombre(nombre: &str) -> (r: (String, String, Option<String>))
    ensures
        ({
            let (n, a1, a2) = partes_nombre(nombre@);
            r.0@ == n && r.1@ == a1 && vista_opcional(r.2) == a2
        }),
{
    let v = caracteres(nombre);
    assert(v@.skip(0) == v@);
    match crate::texto::buscar_caracter(&v, 0, ' ') {
        None => (copiar(nombre), String::new(), None),
        Some(i) => {
            let mut n = String::new();
            agregar_tramo(&mut n, &v, 0, i);
            assert(v@.subrange(0, i as int) == v@.take(i as int));
            let ghost resto = v@.skip(i + 1);
            match crate::texto::buscar_caracter(&v, i + 1, ' ') {
                None => {
                    let mut a1 = String::new();
                    agregar_tramo(&mut a1, &v, i + 1, v.len());
                    assert(v@.subrange(i + 1, v.len() as int) == resto);
                    (n, a1, None)
                },
                Some(j) => {
                    let mut a1 = String::new();
                    agregar_tramo(&mut a1, &v, i + 1, j);
                    assert(v@.subrange(i + 1, j as int) == resto.take(j - (i + 1)));
                    let mut a2 = String::new();
                    agregar_tramo(&mut a2, &v, j + 1, v.len());
                    assert(v@.subrange(j + 1, v.len() as int) == resto.skip(j - (i + 1) + 1));
                    (n, a1, Some(a2))
                },
            }
        },
    }
}

/// Construye una parte del documento.
fn construir_parte(
    tipo_persona: &str,
    nombre: &str,
    nif_raw: &str,
    address: String,
    post_code: String,
    town: String,
    province: String,
    administrative_centres: Option<AdministrativeCentres>,
) -> (p: Party)
    ensures
        parte_es(p, tipo_persona@, nombre@, nif_raw@, address@, post_code@, town@, province@),
        p.administrative_centres == administrative_centres,
{
    let parsed = parse_nif_country(nif_raw);
    let direccion = AddressInSpain { address, post_code, town, province, country_code: parsed.country_code };
    if texto_igual(tipo_persona, "F") {
        let (name, first_surname, second_surname) = separar_nombre(nombre);
        Party {
            tax_identification: TaxIdentification {
                person_type_code: copiar("F"),
                residence_type_code: copiar("R"),
                tax_identification_number: parsed.nif,
            },
            administrative_centres,
            legal_entity: None,
            individual: Some(Individual { name, first_surname, second_surname, address_in_spain: Some(direccion) }),
        }
    } else {
        Party {
            tax_identification: TaxIdentification {
                person_type_code: copiar("J"),
                residence_type_code: copiar("R"),
                tax_identification_number: parsed.nif,
            },
            administrative_centres,
            legal_entity: Some(LegalEntity { corporate_name: copiar(nombre), address_in_spain: Some(direccion) }),
            individual: None,
        }
    }
}

/// Centro administrativo DIR3 con su código, rol y nombre (`prefijo + código`).
pub open spec fn centro_es(c: AdministrativeCentre, codigo: Seq<char>, rol: Seq<char>, prefijo: Seq<char>) -> bool {
    c.centre_code@ == codigo && c.role_type_code@ == rol && c.name@ == prefijo + codigo && c.address_in_spain is None
}

pub open spec fn o_vacio(o: Option<String>) -> Seq<char> {
    match o {
        Some(s) => s@,
        None => Seq::empty(),
    }
}

/// Centros DIR3 de una factura a entidad pública: oficina contable (01),
/// órgano gestor (02) y unidad tramitadora (03).
pub open spec fn centros_dir3(c: Option<AdministrativeCentres>, inv: FacturaeInvoiceRow) -> bool {
    if inv.es_entidad_publica != 0 {
        c matches Some(cs) && cs.administrative_centre@.len() == 3
            && centro_es(cs.administrative_centre@[0], o_vacio(inv.dir3_oficina_contable), "01"@, "Oficina Contable "@)
            && centro_es(cs.administrative_centre@[1], o_vacio(inv.dir3_organo_gestor), "02"@, "Órgano Gestor "@)
            && centro_es(cs.administrative_centre@[2], o_vacio(inv.dir3_unidad_tramitadora), "03"@, "Unidad Tramitadora "@)
    } else {
        c is None
    }
}

fn centro(codigo: &Option<String>, rol: &str, prefijo: &str) -> (c: AdministrativeCentre)
    ensures
        centro_es(c, o_vacio(*codigo), rol@, prefijo@),
{
    let centre_code = match codigo {
        Some(s) => s.clone(),
        None => String::new(),
    };
    let mut name = copiar(prefijo);
    agregar_texto(&mut name, centre_code.as_str());
    AdministrativeCentre { centre_code, role_type_code: copiar(rol), name, address_in_spain: None }
}

fn construir_centros(inv: &FacturaeInvoiceRow) -> (c: Option<AdministrativeCentres>)
    ensures
        centros_dir3(c, *inv),
{
    if inv.es_entidad_publica != 0 {
        let mut v: Vec<AdministrativeCentre> = Vec::new();
        v.push(centro(&inv.dir3_oficina_contable, "01", "Oficina Contable "));
        v.push(centro(&inv.dir3_organo_gestor, "02", "Órgano Gestor "));
        v.push(centro(&inv.dir3_unidad_tramitadora, "03", "Unidad Tramitadora "));
        Some(AdministrativeCentres { administrative_centre: v })
    } else {
        None
    }
}

/// Bloque de rectificación de una factura rectificativa.
pub open spec fn rectificacion_es(c: Option<Corrective>, inv: FacturaeInvoiceRow) -> bool {
    match inv.tipo_rectificativa {
        None => c is None,
        Some(t) => c matches Some(r) && {
            let integra = t@ == "01"@ || t@ == "02"@;
            &&& vista_opcional(r.invoice_number) == if integra { vista_opcional(inv.numero_factura_rectificada) } else { None }
            &&& vista_opcional(r.invoice_series_code) == if integra { vista_opcional(inv.serie_factura_rectificada) } else { None }
            &&& r.reason_code@ == t@
            &&& r.reason_description@ == descripcion_motivo(t@)
            &&& r.tax_period.start_date@ == inv.fecha_emision@
            &&& r.tax_period.end_date@ == inv.fecha_emision@
            &&& r.correction_method@ == metodo_correccion(t@)
            &&& r.correction_method_description@ == descripcion_metodo(t@)
        },
    }
}

fn clonar_opcion(o: &Option<String>) -> (r: Option<String>)
    ensures
        vista_opcional(r) == vista_opcional(*o),
{
    match o {
        Some(s) => Some(s.clone()),
        None => None,
    }
}

fn construir_rectificacion(inv: &FacturaeInvoiceRow) -> (c: Option<Corrective>)
    ensures
        rectificacion_es(c, *inv),
{
    match &inv.tipo_rectificativa {
        None => None,
        Some(tipo) => {
            let integra = texto_igual(tipo.as_str(), "01") || texto_igual(tipo.as_str(), "02");
            Some(Corrective {
                invoice_number: if integra { clonar_opcion(&inv.numero_factura_rectificada) } else { None },
                invoice_series_code: if integra { clonar_opcion(&inv.serie_factura_rectificada) } else { None },
                reason_code: tipo.clone(),
                reason_description: copiar(reason_description_for(tipo.as_str())),
                tax_period: TaxPeriod { start_date: inv.fecha_emision.clone(), end_date: inv.fecha_emision.clone() },
                correction_method: copiar(correction_method_for(tipo.as_str())),
                correction_method_description: copiar(correction_method_description_for(tipo.as_str())),
            })
        },
    }
}

} // verus!

verus! {

/// Tipo impositivo de una clave (tipo × 100) como decimal sin ceros
/// finales: la forma que da `Decimal` al leer el texto del tipo (`21`, `10.5`, `4.75`).
pub open spec fn tasa_de_clave(clave: int) -> Importe {
    if clave % 100 == 0 {
        Importe { mantisa: (clave / 100) as i128, escala: 0 }
    } else if clave % 10 == 0 {
        Importe { mantisa: (clave / 10) as i128, escala: 1 }
    } else {
        Importe { mantisa: clave as i128, escala: 2 }
    }
}

fn tasa(clave: i32) -> (r: Importe)
    ensures
        r == tasa_de_clave(clave as int),
{
    let c = clave as i128;
    if c % 100 == 0 {
        assert((c / 100) * 100 == c) by (nonlinear_arith)
            requires
                c % 100 == 0;
        Importe { mantisa: c / 100, escala: 0 }
    } else if c % 10 == 0 {
        Importe { mantisa: c / 10, escala: 1 }
    } else {
        Importe { mantisa: c, escala: 2 }
    }
}

/// `t` es el impuesto (IVA, código `01`) del tipo `clave` con esa base y cuota en céntimos.
pub open spec fn impuesto_es(t: Tax, clave: int, base: int, cuota: int) -> bool {
    &&& t.tax_type_code@ == "01"@
    &&& t.tax_rate == tasa_de_clave(clave)
    &&& t.taxable_base.total_amount == (Importe { mantisa: base as i128, escala: 2 })
    &&& t.tax_amount.total_amount == (Importe { mantisa: cuota as i128, escala: 2 })
}

fn impuesto(clave: i32, base: i64, cuota: i64) -> (t: Tax)
    ensures
        impuesto_es(t, clave as int, base as int, cuota as int),
{
    Tax {
        tax_type_code: copiar("01"),
        tax_rate: tasa(clave),
        taxable_base: TaxAmount { total_amount: decimal_from_cents(base) },
        tax_amount: TaxAmount { total_amount: decimal_from_cents(cuota) },
    }
}

/// Bloque `TaxesOutputs` del documento: el IVA de las líneas agrupado por
/// tipo, de mayor a menor; sin líneas, un único impuesto del 21 % con el
/// subtotal y los impuestos de la factura.
pub fn impuestos_facturae(lineas: &Vec<LineaCalculada>, subtotal: i64, total_impuestos: i64) -> (r: Vec<Tax>)
    requires
        suma_absoluta(lineas@) <= i64::MAX,
    ensures
        lineas@.len() == 0 ==> r@.len() == 1 && impuesto_es(r@[0], 2100, subtotal as int, total_impuestos as int),
        lineas@.len() > 0 ==> exists|g: Seq<GrupoIva>| #[trigger] acumulado_de(lineas@, g) && g.len() == r@.len()
            && forall|i: int| 0 <= i < g.len() ==> impuesto_es(#[trigger] r@[i], g[i].clave as int, g[i].base as int, g[i].cuota as int),
{
    let mut r: Vec<Tax> = Vec::new();
    if lineas.len() == 0 {
        r.push(impuesto(2100, subtotal, total_impuestos));
        return r;
    }
    let grupos = agrupar_iva(lineas);
    let mut i: usize = 0;
    while i < grupos.len()
        invariant
            i <= grupos.len(),
            r@.len() == i,
            forall|k: int| 0 <= k < i ==> impuesto_es(#[trigger] r@[k], grupos@[k].clave as int, grupos@[k].base as int, grupos@[k].cuota as int),
        decreases grupos.len() - i,
    {
        r.push(impuesto(grupos[i].clave, grupos[i].base, grupos[i].cuota));
        i = i + 1;
    }
    assert(acumulado_de(lineas@, grupos@));
    r
}

/// Número de factura `PREFIJO-NNNN`.
pub open spec fn numero_factura(prefijo: Seq<char>, numero: int) -> Seq<char> {
    prefijo + "-"@ + crate::texto::entero_con_ceros(numero, 4)
}

/// El documento Facturae 3.2.2 de la factura `inv` con los impuestos y las
/// líneas dados: cabecera de lote, emisor, receptor (con centros DIR3 si es
/// entidad pública), rectificación y totales en euros.
pub open spec fn documento_de(d: FacturaeDocument, inv: FacturaeInvoiceRow, taxes: Vec<Tax>, lineas: Vec<InvoiceLine>) -> bool {
    let numero = numero_factura(inv.serie_prefijo@, inv.numero as int);
    let total = Importe { mantisa: inv.total as i128, escala: 2 };
    let subtotal = Importe { mantisa: inv.subtotal as i128, escala: 2 };
    let impuestos = Importe { mantisa: inv.total_impuestos as i128, escala: 2 };
    let cliente_nif: Seq<char> = match inv.cliente_nif {
        Some(n) => n@,
        None => "00000000X"@,
    };
    let cliente_direccion: Seq<char> = match inv.cliente_direccion {
        Some(n) => n@,
        None => "N/A"@,
    };
    &&& d.file_header.schema_version@ == "3.2.2"@
    &&& d.file_header.modality@ == "I"@
    &&& d.file_header.invoice_issuer_type@ == "EM"@
    &&& d.file_header.batch.batch_identifier@ == numero
    &&& d.file_header.batch.invoices_count == 1
    &&& d.file_header.batch.total_invoices_amount == total
    &&& d.file_header.batch.total_outstanding_amount == total
    &&& d.file_header.batch.total_executable_amount == total
    &&& d.file_header.batch.invoice_currency_code@ == "EUR"@
    &&& parte_es(d.parties.seller_party, inv.empresa_tipo_persona@, inv.empresa_nombre@, inv.empresa_nif@,
        inv.empresa_direccion@, inv.empresa_codigo_postal@, inv.empresa_poblacion@, inv.empresa_provincia@)
    &&& d.parties.seller_party.administrative_centres is None
    &&& parte_es(d.parties.buyer_party, inv.cliente_tipo_persona@, inv.cliente_nombre@, cliente_nif,
        cliente_direccion, inv.cliente_codigo_postal@, inv.cliente_poblacion@, inv.cliente_provincia@)
    &&& centros_dir3(d.parties.buyer_party.administrative_centres, inv)
    &&& d.invoices.invoice@.len() == 1
    &&& {
        let f = d.invoices.invoice@[0];
        &&& f.invoice_header.invoice_number@ == numero
        &&& f.invoice_header.invoice_series_code@ == inv.serie_prefijo@
        &&& f.invoice_header.invoice_document_type@ == "FC"@
        &&& f.invoice_header.invoice_class@ == if inv.tipo_rectificativa is Some { "OR"@ } else { "OO"@ }
        &&& f.invoice_issue_data.issue_date@ == inv.fecha_emision@
        &&& f.invoice_issue_data.operation_date@ == inv.fecha_emision@
        &&& f.invoice_issue_data.invoice_currency_code@ == "EUR"@
        &&& f.invoice_issue_data.tax_currency_code@ == "EUR"@
        &&& f.invoice_issue_data.language_name@ == "es"@
        &&& rectificacion_es(f.corrective, inv)
        &&& f.taxes_outputs.tax == taxes
        &&& f.taxes_withheld is None
        &&& f.invoice_totals.total_gross_amount == subtotal
        &&& f.invoice_totals.total_gross_amount_before_taxes == subtotal
        &&& f.invoice_totals.total_tax_outputs == impuestos
        &&& f.invoice_totals.total_taxes_withheld == importe_cero()
        &&& f.invoice_totals.invoice_total == total
        &&& f.invoice_totals.total_outstanding_amount == total
        &&& f.invoice_totals.total_executable_amount == total
        &&& f.items.invoice_line == lineas
    }
}

/// Convierte los datos de la factura en un documento Facturae 3.2.2 con los
/// bloques del Anexo II de la Orden HAP/1650/2015. `taxes` (IVA agrupado por
/// tipo) y `lineas` llegan ya calculados.
pub fn build_facturae_doc(inv: &FacturaeInvoiceRow, taxes: Vec<Tax>, lineas: Vec<InvoiceLine>) -> (d: FacturaeDocument)
    ensures
        documento_de(d, *inv, taxes, lineas),
{
    let seller_party = construir_parte(
        inv.empresa_tipo_persona.as_str(),
        inv.empresa_nombre.as_str(),
        inv.empresa_nif.as_str(),
        inv.empresa_direccion.clone(),
        inv.empresa_codigo_postal.clone(),
        inv.empresa_poblacion.clone(),
        inv.empresa_provincia.clone(),
        None,
    );
    let cliente_nif = texto_de_opcion(&inv.cliente_nif, "00000000X");
    let cliente_direccion = texto_de_opcion(&inv.cliente_direccion, "N/A");
    let centros = construir_centros(inv);
    let buyer_party = construir_parte(
        inv.cliente_tipo_persona.as_str(),
        inv.cliente_nombre.as_str(),
        cliente_nif.as_str(),
        cliente_direccion,
        inv.cliente_codigo_postal.clone(),
        inv.cliente_poblacion.clone(),
        inv.cliente_provincia.clone(),
        centros,
    );
    let corrective = construir_rectificacion(inv);
    let invoice_class = if inv.tipo_rectificativa.is_some() { copiar("OR") } else { copiar("OO") };
    let mut numero = inv.serie_prefijo.clone();
    agregar_texto(&mut numero, "-");
    agregar_texto(&mut numero, crate::texto::entero_ceros_i64(inv.numero, 4).as_str());
    let total = decimal_from_cents(inv.total);
    let mut facturas: Vec<Invoice> = Vec::new();
    facturas.push(Invoice {
        invoice_header: InvoiceHeader {
            invoice_number: numero.clone(),
            invoice_series_code: inv.serie_prefijo.clone(),
            invoice_document_type: copiar("FC"),
            invoice_class,
        },
        invoice_issue_data: InvoiceIssueData {
            issue_date: inv.fecha_emision.clone(),
            operation_date: inv.fecha_emision.clone(),
            invoice_currency_code: copiar("EUR"),
            tax_currency_code: copiar("EUR"),
            language_name: copiar("es"),
        },
        corrective,
        taxes_outputs: TaxesOutputs { tax: taxes },
        taxes_withheld: None,
        invoice_totals: InvoiceTotals {
            total_gross_amount: decimal_from_cents(inv.subtotal),
            total_gross_amount_before_taxes: decimal_from_cents(inv.subtotal),
            total_tax_outputs: decimal_from_cents(inv.total_impuestos),
            total_taxes_withheld: Importe { mantisa: 0, escala: 0 },
            invoice_total: total,
            total_outstanding_amount: total,
            total_executable_amount: total,
        },
        items: Items { invoice_line: lineas },
    });
    FacturaeDocument {
        file_header: FileHeader {
            schema_version: copiar("3.2.2"),
            modality: copiar("I"),
            invoice_issuer_type: copiar("EM"),
            batch: Batch {
                batch_identifier: numero,
                invoices_count: 1,
                total_invoices_amount: total,
                total_outstanding_amount: total,
                total_executable_amount: total,
                invoice_currency_code: copiar("EUR"),
            },
        },
        parties: Parties { seller_party, buyer_party },
        invoices: Invoices { invoice: facturas },
    }
}

// ─── XML ─────────────────────────────────────────────────────────────────────

/// Abre el elemento raíz con los espacios de nombres de Facturae 3.2.2.
pub open spec fn apertura_facturae() -> Seq<char> {
    "<fe:Facturae xmlns:fe=\"http://www.facturae.es/Facturae/2014/v3.2.2/Facturae\" xmlns:ds=\"http://www.w3.org/2000/09/xmldsig#\">"@
}

/// Cabecera de declaración XML.
pub open spec fn declaracion_xml() -> Seq<char> {
    "<?xml version=\"1.0\" encoding=\"UTF-8\"?>"@
}

/// Documento final a partir del XML serializado de `FacturaeDocument`: el
/// elemento raíz pasa a `fe:Facturae` con sus espacios de nombres y se
/// antepone la declaración XML.
pub open spec fn xml_facturae(cuerpo: Seq<char>) -> Seq<char> {
    declaracion_xml() + crate::texto::sustituir_todas(
        crate::texto::sustituir_primera(cuerpo, "<Facturae>"@, apertura_facturae()),
        "</Facturae>"@,
        "</fe:Facturae>"@,
    )
}

/// Pone espacios de nombres y declaración al XML serializado del documento.
pub fn envolver_facturae(cuerpo: &str) -> (r: String)
    ensures
        r@ == xml_facturae(cuerpo@),
{
    let ns_open = "<fe:Facturae xmlns:fe=\"http://www.facturae.es/Facturae/2014/v3.2.2/Facturae\" xmlns:ds=\"http://www.w3.org/2000/09/xmldsig#\">";
    let paso = crate::texto::reemplazar_primera(cuerpo, "<Facturae>", ns_open);
    proof {
        reveal_strlit("</Facturae>");
    }
    let body = crate::texto::reemplazar_todas(paso.as_str(), "</Facturae>", "</fe:Facturae>");
    let mut r = copiar("<?xml version=\"1.0\" encoding=\"UTF-8\"?>");
    agregar_texto(&mut r, body.as_str());
    r
}

/// En una factura rectificativa de tipo `01` o `02` el bloque de
/// rectificación lleva el número y la serie de la factura rectificada que
/// indica la factura; en los demás tipos no los lleva; una factura que no
/// es rectificativa no tiene bloque de rectificación.
pub proof fn ley_rectificativa_identifica_la_original(
    d: FacturaeDocument,
    inv: FacturaeInvoiceRow,
    taxes: Vec<Tax>,
    lineas: Vec<InvoiceLine>,
)
    requires
        documento_de(d, inv, taxes, lineas),
    ensures
        d.invoices.invoice@.len() == 1,
        ({
            let c = d.invoices.invoice@[0].corrective;
            match inv.tipo_rectificativa {
                None => c is None,
                Some(t) => c matches Some(r) && r.reason_code@ == t@ && if t@ == "01"@ || t@ == "02"@ {
                    &&& vista_opcional(r.invoice_number) == vista_opcional(inv.numero_factura_rectificada)
                    &&& vista_opcional(r.invoice_series_code) == vista_opcional(inv.serie_factura_rectificada)
                } else {
                    r.invoice_number is None && r.invoice_series_code is None
                },
            }
        }),
{
}

} // verus!
