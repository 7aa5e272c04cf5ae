//! Direcciones de correo y su normalización.
//!
//! `raw` conserva lo que el usuario escribió, para poder mostrarlo tal cual.
//! `normalized` es la clave de deduplicación y de supresión: `trim` +
//! minúsculas, **y nada más**. No se quitan los puntos ni el sufijo `+`, porque
//! eso es específico de Gmail y fusionaría buzones distintos de otros dominios.

use vstd::prelude::*;

use crate::error::CoreError;
use crate::texto::{
    a_minusculas, a_texto, buscar, contiene, hay_espacio, longitud_utf8, minusculas,
    primera_posicion, recortado, recortar_texto, supera_en_bytes, tiene_espacio, trozo,
    caracteres,
};

verus! {

/// Límite defensivo en bytes (RFC 5321).
pub const MAX_LONGITUD: usize = 320;

/// Por qué una dirección ya recortada no es válida, o `None` si lo es.
///
/// Las comprobaciones van en este orden, y la primera que falla da el motivo.
pub open spec fn motivo_de_rechazo_email(raw: Seq<char>) -> Option<&'static str> {
    if raw.len() == 0 {
        Some("la dirección está vacía")
    } else if longitud_utf8(raw) > MAX_LONGITUD {
        Some("la dirección supera los 320 caracteres")
    } else if !raw.contains('@') {
        Some("falta la arroba")
    } else {
        let p = primera_posicion(raw, '@').unwrap();
        let dominio = raw.subrange(p + 1, raw.len() as int);
        if p == 0 {
            Some("falta la parte anterior a la arroba")
        } else if dominio.contains('@') {
            Some("hay más de una arroba")
        } else if !dominio.contains('.') || dominio[0] == '.' || dominio.last() == '.' {
            Some("el dominio no es válido")
        } else if hay_espacio(raw) {
            Some("la dirección contiene espacios")
        } else if raw.contains('\r') || raw.contains('\n') {
            Some("la dirección contiene saltos de línea")
        } else {
            None
        }
    }
}

/// La parte tras la primera arroba, o el texto entero si no la hay.
pub open spec fn dominio_de(n: Seq<char>) -> Seq<char> {
    match primera_posicion(n, '@') {
        Some(p) => n.subrange(p + 1, n.len() as int),
        None => n,
    }
}

/// Una dirección de correo validada, con su forma normalizada.
///
/// **La igualdad se decide por `normalized`, no por `raw`**: dos escrituras de
/// la misma dirección son el mismo valor, también en un `HashSet`.
#[derive(Debug)]
pub struct EmailAddress {
    raw: String,
    normalized: String,
}

impl EmailAddress {
    /// Toda dirección viene de `parse`: válida, y normalizada a minúsculas.
    #[verifier::type_invariant]
    closed spec fn bien_formada(self) -> bool {
        &&& motivo_de_rechazo_email(self.raw@) is None
        &&& recortado(self.raw@) == self.raw@
        &&& self.normalized@ == minusculas(self.raw@)
    }

    /// Lo que escribió el usuario, recortado.
    pub closed spec fn raw_spec(&self) -> Seq<char> {
        self.raw@
    }

    /// La clave de deduplicación y de supresión.
    pub closed spec fn normalized_spec(&self) -> Seq<char> {
        self.normalized@
    }

    /// Valida y normaliza una dirección.
    ///
    /// Se recortan los espacios de los bordes —también el CR/LF de un CSV de
    /// Windows— y se rechaza lo que quede con espacios o saltos de línea dentro:
    /// un CR o LF que llegue a una cabecera SMTP permite inyectar cabeceras.
    pub fn parse(entrada: &str) -> (r: Result<Self, CoreError>)
        ensures
            match motivo_de_rechazo_email(recortado(entrada@)) {
                Some(m) => r == Err::<Self, CoreError>(CoreError::EmailInvalido { motivo: m }),
                None => r matches Ok(e) && e.raw_spec() == recortado(entrada@)
                    && e.normalized_spec() == minusculas(recortado(entrada@)),
            },
    {
        let raw = recortar_texto(entrada);
        proof {
            crate::texto::lema_recortado(entrada@);
        }
        if raw.len() == 0 {
            return Err(CoreError::EmailInvalido { motivo: "la dirección está vacía" });
        }
        if supera_en_bytes(raw.as_slice(), MAX_LONGITUD) {
            return Err(CoreError::EmailInvalido { motivo: "la dirección supera los 320 caracteres" });
        }
        let p = match buscar(raw.as_slice(), '@') {
            Some(p) => p,
            None => {
                return Err(CoreError::EmailInvalido { motivo: "falta la arroba" });
            },
        };
        let dominio = trozo(&raw, p + 1, raw.len());
        if p == 0 {
            return Err(CoreError::EmailInvalido { motivo: "falta la parte anterior a la arroba" });
        }
        if contiene(dominio.as_slice(), '@') {
            return Err(CoreError::EmailInvalido { motivo: "hay más de una arroba" });
        }
        if !contiene(dominio.as_slice(), '.') || dominio[0] == '.' || dominio[dominio.len() - 1]
            == '.' {
            return Err(CoreError::EmailInvalido { motivo: "el dominio no es válido" });
        }
        if tiene_espacio(raw.as_slice()) {
            return Err(CoreError::EmailInvalido { motivo: "la dirección contiene espacios" });
        }
        if contiene(raw.as_slice(), '\r') || contiene(raw.as_slice(), '\n') {
            return Err(CoreError::EmailInvalido { motivo: "la dirección contiene saltos de línea" });
        }
        let raw_texto = a_texto(raw.as_slice());
        let normalized = a_minusculas(raw_texto.as_str());
        proof {
            assert(recortado(raw@) == raw@) by {
                crate::texto::lema_recortado(raw@);
                crate::texto::lema_sin_espacios_en_los_bordes(raw@);
            }
        }
        Ok(EmailAddress { raw: raw_texto, normalized })
    }

    /// Tal y como lo escribió el usuario (sin espacios al principio ni al final).
    pub fn raw(&self) -> (r: &str)
        ensures
            r@ == self.raw_spec(),
            motivo_de_rechazo_email(r@) is None,
    {
        proof {
            use_type_invariant(self);
        }
        self.raw.as_str()
    }

    /// Clave de deduplicación y de supresión: el original en minúsculas.
    pub fn normalized(&self) -> (r: &str)
        ensures
            r@ == self.normalized_spec(),
            r@ == minusculas(self.raw_spec()),
    {
        proof {
            use_type_invariant(self);
        }
        self.normalized.as_str()
    }

    /// La parte del dominio, tomada de la forma normalizada.
    ///
    /// Se expone para construir cabeceras como `Message-Id`, donde interpolar
    /// un dominio sin validar permitiría inyectar cabeceras SMTP.
    pub fn dominio(&self) -> (r: &str)
        ensures
            r@ == dominio_de(self.normalized_spec()),
    {
        let n = caracteres(self.normalized.as_str());
        match buscar(n.as_slice(), '@') {
            Some(p) => self.normalized.as_str().substring_char(p + 1, n.len()),
            None => self.normalized.as_str(),
        }
    }

    /// Una copia con los mismos valores.
    pub fn copia(&self) -> (r: Self)
        ensures
            r.raw_spec() == self.raw_spec(),
            r.normalized_spec() == self.normalized_spec(),
    {
        proof {
            use_type_invariant(self);
        }
        EmailAddress { raw: self.raw.clone(), normalized: self.normalized.clone() }
    }
}

impl Clone for EmailAddress {
    fn clone(&self) -> (r: Self)
        ensures
            r.raw_spec() == self.raw_spec(),
            r.normalized_spec() == self.normalized_spec(),
    {
        self.copia()
    }
}

impl PartialEq for EmailAddress {
    fn eq(&self, otro: &Self) -> (r: bool) {
        self.normalized == otro.normalized
    }
}

impl vstd::std_specs::cmp::PartialEqSpecImpl for EmailAddress {
    open spec fn obeys_eq_spec() -> bool {
        true
    }

    open spec fn eq_spec(&self, otro: &Self) -> bool {
        self.normalized_spec() == otro.normalized_spec()
    }
}

impl Eq for EmailAddress {

}

impl std::hash::Hash for EmailAddress {
    /// `String::hash` sobre la forma normalizada, que es la que decide la
    /// igualdad: dos direcciones iguales dan el mismo hash.
    #[verifier::external_body]
    fn hash<H: std::hash::Hasher>(&self, estado: &mut H) {
        self.normalized.hash(estado);
    }
}

} // verus!
