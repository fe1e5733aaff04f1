//! Envío de facturas a AEAT/Veri*factu: elección del entorno y del endpoint,
//! y lectura de la respuesta HTTP.

use vstd::prelude::*;

use crate::texto::{agregar_texto, copiar, decimal, decimal_u128, texto_igual};

verus! {

/// Entorno de envío: el indicado; si no hay, el de la variable `AEAT_ENV`;
/// si tampoco, `sandbox`.
pub open spec fn entorno_de(indicado: Option<Seq<char>>, variable: Option<Seq<char>>) -> Seq<char> {
    match indicado {
        Some(e) => e,
        None => match variable {
            Some(v) => v,
            None => "sandbox"@,
        },
    }
}

/// Elige el entorno. `variable` es el valor de `AEAT_ENV`, si está definida
/// y es Unicode válido.
pub fn entorno_aeat(indicado: Option<&str>, variable: Option<String>) -> (r: String)
    ensures
        r@ == entorno_de(
            match indicado {
                Some(e) => Some(e@),
                None => None,
            },
            match variable {
                Some(v) => Some(v@),
                None => None,
            },
        ),
{
    match indicado {
        Some(e) => copiar(e),
        None => match variable {
            Some(v) => v,
            None => copiar("sandbox"),
        },
    }
}

/// Endpoint de producción.
pub open spec fn endpoint_produccion() -> Seq<char> {
    "https://verifactu.aeat.es/api/facturae"@
}

/// Endpoint de pruebas.
pub open spec fn endpoint_sandbox() -> Seq<char> {
    "https://verifactu-sandbox.aeat.es/api/facturae"@
}

/// `produccion` va al endpoint de producción; cualquier otro entorno, al de pruebas.
pub fn endpoint_aeat(entorno: &str) -> (r: String)
    ensures
        r@ == if entorno@ == "produccion"@ { endpoint_produccion() } else { endpoint_sandbox() },
{
    if texto_igual(entorno, "produccion") {
        copiar("https://verifactu.aeat.es/api/facturae")
    } else {
        copiar("https://verifactu-sandbox.aeat.es/api/facturae")
    }
}

/// Mensaje de error de una respuesta con estado HTTP fuera de 2xx.
pub open spec fn msg_error_aeat(status: nat) -> Seq<char> {
    "Error AEAT: "@ + decimal(status)
}

/// Mensaje de error de un envío que no obtuvo respuesta.
pub open spec fn msg_error_http(detalle: Seq<char>) -> Seq<char> {
    "Error HTTP: "@ + detalle
}

/// Resultado del envío a partir de lo que devolvió el cliente HTTP: el
/// estado y el cuerpo de la respuesta, o el texto del error de transporte.
/// Una respuesta 2xx da su cuerpo; otra, el error con el estado; un fallo de
/// transporte, el error HTTP.
pub fn resultado_envio(respuesta: Result<(u16, String), String>) -> (r: Result<String, String>)
    ensures
        match respuesta {
            Ok((status, body)) => if 200 <= status < 300 {
                r matches Ok(b) && b@ == body@
            } else {
                r matches Err(m) && m@ == msg_error_aeat(status as nat)
            },
            Err(e) => r matches Err(m) && m@ == msg_error_http(e@),
        },
{
    match respuesta {
        Ok((status, body)) => {
            if status >= 200 && status < 300 {
                Ok(body)
            } else {
                let mut m = copiar("Error AEAT: ");
                agregar_texto(&mut m, decimal_u128(status as u128).as_str());
                Err(m)
            }
        },
        Err(e) => {
            let mut m = copiar("Error HTTP: ");
            agregar_texto(&mut m, e.as_str());
            Err(m)
        },
    }
}

} // verus!
