//! Errores de la aplicación y su forma pública para la interfaz.

use vstd::prelude::*;

use crate::texto::{agregar_texto, copiar};

verus! {

/// Error interno de la aplicación. Los errores de origen externo (base de
/// datos, JSON, XML, entrada/salida) guardan el texto con que se muestran.
#[derive(Debug)]
pub enum AppError {
    Validation(String),
    NotFound(String),
    Database(String),
    Json(String),
    Xml(String),
    Io(String),
    Internal(String),
}

pub type AppResult<T> = Result<T, AppError>;

/// Error tal como se entrega a la interfaz.
#[derive(Debug)]
pub struct ApiError {
    pub code: String,
    pub message: String,
}

pub type CommandResult<T> = Result<T, ApiError>;

/// Código público de cada clase de error.
pub open spec fn codigo_api(e: AppError) -> Seq<char> {
    match e {
        AppError::Validation(_) => "VALIDATION_ERROR"@,
        AppError::NotFound(_) => "NOT_FOUND"@,
        AppError::Database(_) => "DATABASE_ERROR"@,
        AppError::Json(_) => "SERIALIZATION_ERROR"@,
        AppError::Xml(_) => "SERIALIZATION_ERROR"@,
        AppError::Io(_) => "IO_ERROR"@,
        AppError::Internal(_) => "INTERNAL_ERROR"@,
    }
}

/// Texto del error (su `Display`).
pub open spec fn texto_error(e: AppError) -> Seq<char> {
    match e {
        AppError::Validation(m) => "Error de validación: "@ + m@,
        AppError::NotFound(m) => "Recurso no encontrado: "@ + m@,
        AppError::Database(m) => "Error de base de datos: "@ + m@,
        AppError::Json(m) => "Error de serialización JSON: "@ + m@,
        AppError::Xml(m) => "Error de serialización XML: "@ + m@,
        AppError::Io(m) => "Error de entrada/salida: "@ + m@,
        AppError::Internal(m) => "Error interno: "@ + m@,
    }
}

/// Mensaje público: los errores de base de datos e internos no exponen su
/// detalle; el resto muestra su texto.
pub open spec fn mensaje_api(e: AppError) -> Seq<char> {
    match e {
        AppError::Database(_) => "Se produjo un error en la base de datos. Consulta los registros de la aplicación para más detalles."@,
        AppError::Internal(_) => "Se produjo un error interno. Consulta los registros de la aplicación para más detalles."@,
        _ => texto_error(e),
    }
}

impl AppError {
    /// `value.to_string()`.
    pub fn texto(&self) -> (s: String)
        ensures
            s@ == texto_error(*self),
    {
        let (prefijo, detalle) = match self {
            AppError::Validation(m) => ("Error de validación: ", m),
            AppError::NotFound(m) => ("Recurso no encontrado: ", m),
            AppError::Database(m) => ("Error de base de datos: ", m),
            AppError::Json(m) => ("Error de serialización JSON: ", m),
            AppError::Xml(m) => ("Error de serialización XML: ", m),
            AppError::Io(m) => ("Error de entrada/salida: ", m),
            AppError::Internal(m) => ("Error interno: ", m),
        };
        let mut s = copiar(prefijo);
        agregar_texto(&mut s, detalle.as_str());
        s
    }
}

impl ApiError {
    /// Convierte un error interno en el error que ve la interfaz.
    pub fn desde_app_error(value: AppError) -> (r: ApiError)
        ensures
            r.code@ == codigo_api(value),
            r.message@ == mensaje_api(value),
    {
        let code = match &value {
            AppError::Validation(_) => copiar("VALIDATION_ERROR"),
            AppError::NotFound(_) => copiar("NOT_FOUND"),
            AppError::Database(_) => copiar("DATABASE_ERROR"),
            AppError::Json(_) | AppError::Xml(_) => copiar("SERIALIZATION_ERROR"),
            AppError::Io(_) => copiar("IO_ERROR"),
            AppError::Internal(_) => copiar("INTERNAL_ERROR"),
        };
        let message = match &value {
            AppError::Database(_) => copiar(
                "Se produjo un error en la base de datos. Consulta los registros de la aplicación para más detalles.",
            ),
            AppError::Internal(_) => copiar(
                "Se produjo un error interno. Consulta los registros de la aplicación para más detalles.",
            ),
            _ => value.texto(),
        };
        ApiError { code, message }
    }
}

impl From<AppError> for ApiError {
    fn from(value: AppError) -> (r: ApiError)
        ensures
            r.code@ == codigo_api(value),
            r.message@ == mensaje_api(value),
    {
        ApiError::desde_app_error(value)
    }
}

/// La conversión se describe por el `ensures` de `from`: un `String` no se
/// puede construir en una función espec, así que no se declara `from_spec`.
impl vstd::std_specs::convert::FromSpecImpl<AppError> for ApiError {
    open spec fn obeys_from_spec() -> bool {
        false
    }

    open spec fn from_spec(v: AppError) -> ApiError {
        vstd::pervasive::arbitrary()
    }
}

} // verus!
