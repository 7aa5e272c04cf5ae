//! El arranque: dónde viven los datos, cómo se nombra la clave en el llavero
//! y cómo se explica un fallo.
//!
//! Si el arranque falla —típicamente porque el llavero del sistema no está
//! disponible— la aplicación se detiene con un mensaje que dice **qué pasó,
//! qué hacer y qué está a salvo**.

use vstd::prelude::*;

use crate::errores::{AppError, mensaje_de_app};
use crate::texto::{copiar, juntar};

verus! {

// ─────────────────────────────────────────────────────────────────────────
// El fallo de arranque
// ─────────────────────────────────────────────────────────────────────────

/// Un fallo de arranque explicado en tres partes.
///
/// Es una estructura y no una cadena para que la tercera parte —qué está a
/// salvo— **no se pueda omitir**.
#[derive(Debug, Clone, PartialEq, Eq)]
pub struct FalloDeArranque {
    /// Qué pasó.
    pub que_paso: String,
    /// Cómo arreglarlo.
    pub que_hacer: &'static str,
    /// Qué está a salvo.
    pub a_salvo: &'static str,
}

/// Qué hacer ante cada fallo.
pub open spec fn que_hacer_ante(e: AppError) -> &'static str {
    match e {
        AppError::ClaveMaestraPerdida => "Restaura tu último respaldo .arles. La clave que cifraba esta base de datos ya no está en tu sistema, y sin ella los datos no se pueden leer.",
        AppError::LlaveroNoDisponible(_) => "Verifica que el almacén de credenciales de tu sistema esté disponible y desbloqueado, y vuelve a abrir ARLES.",
        AppError::DirectorioDeDatos => "Comprueba que tu usuario tiene permiso de escritura en la carpeta de datos de las aplicaciones.",
        _ => "Cierra ARLES y vuelve a abrirlo. Si el problema persiste, restaura tu último respaldo.",
    }
}

/// Qué está a salvo ante cada fallo.
pub open spec fn a_salvo_ante(e: AppError) -> &'static str {
    match e {
        AppError::ClaveMaestraPerdida => "El archivo no se ha modificado ni borrado: sigue donde estaba.",
        AppError::LlaveroNoDisponible(_) => "Tus datos están intactos: la base de datos no se ha modificado.",
        AppError::DirectorioDeDatos => "No se ha creado ni modificado ningún archivo.",
        _ => "Las operaciones incompletas se revirtieron por completo.",
    }
}

/// El texto completo de un fallo.
pub open spec fn texto_de_fallo(f: FalloDeArranque) -> Seq<char> {
    "ARLES RELAY no pudo arrancar.\n\nQué pasó: "@ + f.que_paso@ + ".\n\nQué hacer: "@
        + f.que_hacer@ + "\n\n"@ + f.a_salvo@
}

impl FalloDeArranque {
    /// El texto que se enseña al usuario.
    pub fn texto(&self) -> (r: String)
        ensures
            r@ == texto_de_fallo(*self),
    {
        let a = juntar("ARLES RELAY no pudo arrancar.\n\nQué pasó: ", self.que_paso.as_str());
        let b = juntar(a.as_str(), ".\n\nQué hacer: ");
        let c = juntar(b.as_str(), self.que_hacer);
        let d = juntar(c.as_str(), "\n\n");
        juntar(d.as_str(), self.a_salvo)
    }
}

/// Explica un fallo de arranque: qué pasó, qué hacer y qué está a salvo.
///
/// Ninguna de las tres partes queda vacía: quien acaba de ver fallar la
/// aplicación con sus datos dentro necesita las tres.
pub fn explicar_fallo(e: &AppError) -> (f: FalloDeArranque)
    ensures
        f.que_paso@ == mensaje_de_app(*e),
        f.que_hacer == que_hacer_ante(*e),
        f.a_salvo == a_salvo_ante(*e),
        f.que_hacer@.len() > 0,
        f.a_salvo@.len() > 0,
{
    proof {
        reveal_strlit("Restaura tu último respaldo .arles. La clave que cifraba esta base de datos ya no está en tu sistema, y sin ella los datos no se pueden leer.");
        reveal_strlit("Verifica que el almacén de credenciales de tu sistema esté disponible y desbloqueado, y vuelve a abrir ARLES.");
        reveal_strlit("Comprueba que tu usuario tiene permiso de escritura en la carpeta de datos de las aplicaciones.");
        reveal_strlit("Cierra ARLES y vuelve a abrirlo. Si el problema persiste, restaura tu último respaldo.");
        reveal_strlit("El archivo no se ha modificado ni borrado: sigue donde estaba.");
        reveal_strlit("Tus datos están intactos: la base de datos no se ha modificado.");
        reveal_strlit("No se ha creado ni modificado ningún archivo.");
        reveal_strlit("Las operaciones incompletas se revirtieron por completo.");
    }
    let (que_hacer, a_salvo) = match e {
        AppError::ClaveMaestraPerdida => (
            "Restaura tu último respaldo .arles. La clave que cifraba esta base de datos ya no está en tu sistema, y sin ella los datos no se pueden leer.",
            "El archivo no se ha modificado ni borrado: sigue donde estaba.",
        ),
        AppError::LlaveroNoDisponible(_) => (
            "Verifica que el almacén de credenciales de tu sistema esté disponible y desbloqueado, y vuelve a abrir ARLES.",
            "Tus datos están intactos: la base de datos no se ha modificado.",
        ),
        AppError::DirectorioDeDatos => (
            "Comprueba que tu usuario tiene permiso de escritura en la carpeta de datos de las aplicaciones.",
            "No se ha creado ni modificado ningún archivo.",
        ),
        _ => (
            "Cierra ARLES y vuelve a abrirlo. Si el problema persiste, restaura tu último respaldo.",
            "Las operaciones incompletas se revirtieron por completo.",
        ),
    };
    FalloDeArranque { que_paso: e.mensaje(), que_hacer, a_salvo }
}

// ─────────────────────────────────────────────────────────────────────────
// El llavero
// ─────────────────────────────────────────────────────────────────────────

/// Qué hacer con la clave maestra al arrancar.
#[derive(Debug, Clone, Copy, PartialEq, Eq, Structural)]
pub enum PasoDeLaClave {
    /// El llavero la tiene: se abre la base con ella.
    UsarLaGuardada,
    /// No está en el llavero pero **sí hay una base en disco**: sin esa clave
    /// la base es irrecuperable, y se nombra la situación en vez de taparla
    /// con una clave nueva.
    NombrarLaPerdida,
    /// Primer arranque de verdad: ni clave ni base. Se genera una.
    CrearUnaNueva,
}

/// Decide qué hacer con la clave maestra según lo que hay en el llavero y en
/// el disco.
///
/// Generar una clave nueva cuando ya hay una base sería lo cómodo y lo peor
/// posible: la base existente quedaría irrecuperable y el usuario sólo vería
/// «no se pudo descifrar», sin enterarse de que necesita un respaldo.
pub fn paso_de_la_clave(hay_clave_guardada: bool, hay_base_en_disco: bool) -> (r: PasoDeLaClave)
    ensures
        hay_clave_guardada ==> r == PasoDeLaClave::UsarLaGuardada,
        !hay_clave_guardada && hay_base_en_disco ==> r == PasoDeLaClave::NombrarLaPerdida,
        !hay_clave_guardada && !hay_base_en_disco ==> r == PasoDeLaClave::CrearUnaNueva,
{
    if hay_clave_guardada {
        PasoDeLaClave::UsarLaGuardada
    } else if hay_base_en_disco {
        PasoDeLaClave::NombrarLaPerdida
    } else {
        PasoDeLaClave::CrearUnaNueva
    }
}

/// Servicio bajo el que se agrupan las entradas de ARLES en el llavero.
/// Cambiarlo dejaría huérfanas las credenciales de las instalaciones ya
/// existentes.
pub const SERVICIO: &'static str = "mx.telemetryinsight.arlesrelay";

/// Entrada de la clave maestra de la base de datos.
pub const CUENTA_CLAVE_MAESTRA: &'static str = "db-master-key";

/// Referencia opaca que se guarda en la base en lugar de una credencial: el
/// secreto se resuelve contra el llavero en el momento del uso.
pub fn referencia_de_cuenta(id_cuenta: &str) -> (r: String)
    ensures
        r@ == "llavero://"@ + SERVICIO@ + "/email-account/"@ + id_cuenta@,
{
    let a = juntar("llavero://", SERVICIO);
    let b = juntar(a.as_str(), "/email-account/");
    juntar(b.as_str(), id_cuenta)
}

// ─────────────────────────────────────────────────────────────────────────
// Los directorios
// ─────────────────────────────────────────────────────────────────────────

/// Una ruta del sistema de archivos, que sólo la aplicación abre.
#[verifier::external_type_specification]
#[verifier::external_body]
pub struct ExRuta(std::path::PathBuf);

/// Nombre del archivo de la base de datos. No depende de la empresa ni del
/// usuario, así que una instalación es portable entre máquinas.
pub const ARCHIVO_DE_LA_BASE: &'static str = "arles.db";

/// Lo que devuelve `std::path::Path::join`: la ruta `nombre` bajo `base`.
pub uninterp spec fn ruta_unida(base: std::path::PathBuf, nombre: Seq<char>) -> std::path::PathBuf;

/// `std::path::Path::join`. El resultado es función de la base y del nombre.
#[verifier::external_body]
fn unir_ruta(base: &std::path::PathBuf, nombre: &str) -> (r: std::path::PathBuf)
    ensures
        r == ruta_unida(*base, nombre@),
{
    base.join(nombre)
}

/// `Clone` de `std::path::PathBuf`: una copia de la misma ruta. Lo usa el
/// `Clone` derivado de [`Rutas`].
pub assume_specification[ <std::path::PathBuf as std::clone::Clone>::clone ](
    ruta: &std::path::PathBuf,
) -> (r: std::path::PathBuf)
    ensures
        r == *ruta,
;

/// Directorios de la aplicación.
#[derive(Debug, Clone)]
pub struct Rutas {
    datos: std::path::PathBuf,
}

impl Rutas {
    /// El directorio de datos de la aplicación.
    pub closed spec fn directorio(&self) -> std::path::PathBuf {
        self.datos
    }

    /// Construye rutas bajo un directorio concreto.
    pub fn en(datos: std::path::PathBuf) -> (r: Self)
        ensures
            r.directorio() == datos,
    {
        Rutas { datos }
    }

    /// Archivo de la base de datos cifrada: [`ARCHIVO_DE_LA_BASE`] bajo el
    /// directorio de datos.
    pub fn base_de_datos(&self) -> (r: std::path::PathBuf)
        ensures
            r == ruta_unida(self.directorio(), ARCHIVO_DE_LA_BASE@),
    {
        unir_ruta(&self.datos, ARCHIVO_DE_LA_BASE)
    }

    pub fn datos(&self) -> (r: &std::path::PathBuf)
        ensures
            *r == self.directorio(),
    {
        &self.datos
    }
}

} // verus!
