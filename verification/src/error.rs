//! Errores del dominio.
//!
//! Los errores son **tipados, no cadenas**: cada uno dice qué pasó, y la
//! interfaz lo traduce con su clave de i18n. Ningún mensaje incluye rutas del
//! sistema de archivos ni valores de secretos.

use vstd::prelude::*;

use crate::attempt::TransitionError;
use crate::texto::{copiar, juntar};

verus! {

/// Error de validación o de invariante del dominio.
#[derive(Debug, Clone, PartialEq, Eq)]
pub enum CoreError {
    EmailInvalido { motivo: &'static str },
    TelefonoInvalido { motivo: &'static str },
    /// Una fila de la base trae un canal que no reconocemos.
    ///
    /// No es un caso a ignorar: el canal decide **a quién se le escribe y por
    /// dónde**. Una fila con un canal corrupto se para, no se salta.
    CanalDesconocido,
    IdInvalido { tipo: &'static str },
    /// Una lista importada guardada con un origen que no reconocemos.
    OrigenDesconocido,
    Transicion(TransitionError),
}

/// La clave de i18n de cada error.
pub open spec fn clave_de_error(e: CoreError) -> &'static str {
    match e {
        CoreError::EmailInvalido { .. } => "error.email_invalido",
        CoreError::TelefonoInvalido { .. } => "error.telefono_invalido",
        CoreError::CanalDesconocido => "error.canal_desconocido",
        CoreError::IdInvalido { .. } => "error.id_invalido",
        CoreError::OrigenDesconocido => "error.origen_desconocido",
        CoreError::Transicion(_) => "error.transicion_invalida",
    }
}

impl CoreError {
    /// Clave estable para que la interfaz traduzca el error con i18n.
    ///
    /// La interfaz **no** muestra el texto técnico: muestra el texto localizado
    /// que corresponde a esta clave.
    pub fn clave_i18n(&self) -> (r: &'static str)
        ensures
            r == clave_de_error(*self),
    {
        match self {
            CoreError::EmailInvalido { .. } => "error.email_invalido",
            CoreError::TelefonoInvalido { .. } => "error.telefono_invalido",
            CoreError::CanalDesconocido => "error.canal_desconocido",
            CoreError::IdInvalido { .. } => "error.id_invalido",
            CoreError::OrigenDesconocido => "error.origen_desconocido",
            CoreError::Transicion(_) => "error.transicion_invalida",
        }
    }
}

/// El texto técnico de cada error. Ninguno incluye rutas ni secretos.
pub open spec fn mensaje_de_error(e: CoreError) -> Seq<char> {
    match e {
        CoreError::EmailInvalido { motivo } => "dirección de correo inválida: "@ + motivo@,
        CoreError::TelefonoInvalido { motivo } => "número de teléfono inválido: "@ + motivo@,
        CoreError::CanalDesconocido => "el canal no es uno de los admitidos"@,
        CoreError::IdInvalido { tipo } => "identificador de "@ + tipo@ + " inválido"@,
        CoreError::OrigenDesconocido => "el origen de la lista no es uno de los admitidos"@,
        CoreError::Transicion(t) => crate::attempt::mensaje_de_transicion(t),
    }
}

impl CoreError {
    /// El texto técnico del error, para la bitácora de diagnóstico.
    pub fn mensaje(&self) -> (r: String)
        ensures
            r@ == mensaje_de_error(*self),
    {
        match self {
            CoreError::EmailInvalido { motivo } => juntar("dirección de correo inválida: ", motivo),
            CoreError::TelefonoInvalido { motivo } => juntar("número de teléfono inválido: ", motivo),
            CoreError::CanalDesconocido => copiar("el canal no es uno de los admitidos"),
            CoreError::IdInvalido { tipo } => {
                let a = juntar("identificador de ", tipo);
                juntar(a.as_str(), " inválido")
            },
            CoreError::OrigenDesconocido => copiar("el origen de la lista no es uno de los admitidos"),
            CoreError::Transicion(t) => t.mensaje(),
        }
    }
}

} // verus!
