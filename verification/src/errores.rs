//! Errores de la aplicación, y su forma al cruzar la frontera con la interfaz.
//!
//! **Tipados, no cadenas**: la interfaz necesita distinguir variantes para
//! elegir el texto localizado correcto. El detalle técnico viaja para la
//! bitácora, y **nunca** lleva rutas del sistema de archivos.

use vstd::prelude::*;

use crate::contacto::ErrorDeContacto;
use crate::datos::{DbError, clave_de_db, mensaje_de_db};
use crate::empresa::ErrorDeCampo;
use crate::error::{CoreError, clave_de_error, mensaje_de_error};
use crate::lectura::{ErrorDeLectura, clave_de_lectura, mensaje_de_lectura};
use crate::texto::{
    a_texto, buscar, caracteres, contiene, copiar, extender, juntar,
    primera_posicion, trozo,
};

verus! {

/// Error de arranque o de un comando.
#[derive(Debug, Clone)]
#[non_exhaustive]
pub enum AppError {
    /// El almacén de credenciales del sistema no responde. **La aplicación no
    /// arranca.**
    LlaveroNoDisponible(String),
    /// Hay una base de datos en disco pero su clave ya no está en el llavero:
    /// la base es irrecuperable sin esa clave, y hay que restaurar un respaldo.
    ClaveMaestraPerdida,
    DirectorioDeDatos,
    /// No se pudo lanzar el navegador del sistema.
    SitioNoAbre(String),
    /// La interfaz pidió guardar un tema que no existe.
    TemaDesconocido,
    /// El formulario de empresa trae campos que no pasan la validación. Lleva
    /// **la lista de campos**: la interfaz tiene que señalar cada uno.
    EmpresaInvalida(Vec<ErrorDeCampo>),
    /// El formulario de contacto trae campos que no pasan la validación, con
    /// el índice del canal que falla.
    ContactoInvalido(Vec<ErrorDeContacto>),
    /// Se pidió algo de contactos sin haber configurado la empresa.
    EmpresaNoConfigurada,
    /// Se pidió analizar o confirmar sin haber elegido archivo.
    SinImportacionEnCurso,
    /// El archivo se eligió pero no se pudo abrir.
    ArchivoNoSePudoLeer,
    Lectura(ErrorDeLectura),
    Db(DbError),
    Core(CoreError),
}

pub open spec fn clave_de_app(e: AppError) -> &'static str {
    match e {
        AppError::LlaveroNoDisponible(_) => "error.app.llavero_no_disponible",
        AppError::ClaveMaestraPerdida => "error.app.clave_maestra_perdida",
        AppError::DirectorioDeDatos => "error.app.directorio_de_datos",
        AppError::SitioNoAbre(_) => "error.app.sitio_no_abre",
        AppError::TemaDesconocido => "error.app.tema_desconocido",
        AppError::EmpresaInvalida(_) => "error.app.empresa_invalida",
        AppError::ContactoInvalido(_) => "error.app.contacto_invalido",
        AppError::EmpresaNoConfigurada => "error.app.empresa_no_configurada",
        AppError::SinImportacionEnCurso => "error.app.sin_importacion_en_curso",
        AppError::ArchivoNoSePudoLeer => "error.app.archivo_no_se_pudo_leer",
        AppError::Lectura(e) => clave_de_lectura(e),
        AppError::Db(e) => clave_de_db(e),
        AppError::Core(e) => clave_de_error(e),
    }
}

pub open spec fn mensaje_de_app(e: AppError) -> Seq<char> {
    match e {
        AppError::LlaveroNoDisponible(m) => "el almacén de credenciales del sistema no está disponible: "@
            + m@,
        AppError::ClaveMaestraPerdida => "la clave de la base de datos ya no está en el almacén de credenciales del sistema"@,
        AppError::DirectorioDeDatos => "no se pudo determinar el directorio de datos de la aplicación"@,
        AppError::SitioNoAbre(m) => "no se pudo abrir el navegador del sistema: "@ + m@,
        AppError::TemaDesconocido => "el tema pedido no es uno de los admitidos"@,
        AppError::EmpresaInvalida(_) => "los datos de la empresa no son válidos"@,
        AppError::ContactoInvalido(_) => "los datos del contacto no son válidos"@,
        AppError::EmpresaNoConfigurada => "todavía no se ha configurado la empresa"@,
        AppError::SinImportacionEnCurso => "no hay ninguna importación en curso"@,
        AppError::ArchivoNoSePudoLeer => "no se pudo abrir el archivo elegido"@,
        AppError::Lectura(e) => mensaje_de_lectura(e)@,
        AppError::Db(e) => mensaje_de_db(e),
        AppError::Core(e) => mensaje_de_error(e),
    }
}

impl AppError {
    /// Clave estable para que la interfaz traduzca el error con i18n.
    pub fn clave_i18n(&self) -> (r: &'static str)
        ensures
            r == clave_de_app(*self),
    {
        match self {
            AppError::LlaveroNoDisponible(_) => "error.app.llavero_no_disponible",
            AppError::ClaveMaestraPerdida => "error.app.clave_maestra_perdida",
            AppError::DirectorioDeDatos => "error.app.directorio_de_datos",
            AppError::SitioNoAbre(_) => "error.app.sitio_no_abre",
            AppError::TemaDesconocido => "error.app.tema_desconocido",
            AppError::EmpresaInvalida(_) => "error.app.empresa_invalida",
            AppError::ContactoInvalido(_) => "error.app.contacto_invalido",
            AppError::EmpresaNoConfigurada => "error.app.empresa_no_configurada",
            AppError::SinImportacionEnCurso => "error.app.sin_importacion_en_curso",
            AppError::ArchivoNoSePudoLeer => "error.app.archivo_no_se_pudo_leer",
            AppError::Lectura(e) => e.clave_i18n(),
            AppError::Db(e) => e.clave_i18n(),
            AppError::Core(e) => e.clave_i18n(),
        }
    }

    /// El texto técnico del error.
    pub fn mensaje(&self) -> (r: String)
        ensures
            r@ == mensaje_de_app(*self),
    {
        match self {
            AppError::LlaveroNoDisponible(m) => juntar(
                "el almacén de credenciales del sistema no está disponible: ",
                m.as_str(),
            ),
            AppError::ClaveMaestraPerdida => copiar(
                "la clave de la base de datos ya no está en el almacén de credenciales del sistema",
            ),
            AppError::DirectorioDeDatos => copiar(
                "no se pudo determinar el directorio de datos de la aplicación",
            ),
            AppError::SitioNoAbre(m) => juntar("no se pudo abrir el navegador del sistema: ", m.as_str()),
            AppError::TemaDesconocido => copiar("el tema pedido no es uno de los admitidos"),
            AppError::EmpresaInvalida(_) => copiar("los datos de la empresa no son válidos"),
            AppError::ContactoInvalido(_) => copiar("los datos del contacto no son válidos"),
            AppError::EmpresaNoConfigurada => copiar("todavía no se ha configurado la empresa"),
            AppError::SinImportacionEnCurso => copiar("no hay ninguna importación en curso"),
            AppError::ArchivoNoSePudoLeer => copiar("no se pudo abrir el archivo elegido"),
            AppError::Lectura(e) => copiar(e.mensaje()),
            AppError::Db(e) => e.mensaje(),
            AppError::Core(e) => e.mensaje(),
        }
    }
}

// ─────────────────────────────────────────────────────────────────────────
// Redacción de rutas
// ─────────────────────────────────────────────────────────────────────────

/// Una palabra con pinta de ruta —con una barra, de Unix o de Windows, en
/// cualquier sitio— se sustituye por `[ruta]`.
pub open spec fn redactar_palabra(w: Seq<char>) -> Seq<char> {
    if w.contains('/') || w.contains('\\') {
        "[ruta]"@
    } else {
        w
    }
}

/// El mensaje con cada palabra —lo que separan los espacios— redactada.
#[verifier::opaque]
pub open spec fn redactado(s: Seq<char>) -> Seq<char>
    decreases s.len(),
{
    match primera_posicion(s, ' ') {
        None => redactar_palabra(s),
        Some(p) => if 0 <= p < s.len() {
            redactar_palabra(s.take(p)) + seq![' '] + redactado(s.skip(p + 1))
        } else {
            s
        },
    }
}

fn redactar_una(w: &Vec<char>) -> (r: Vec<char>)
    ensures
        r@ == redactar_palabra(w@),
{
    // Una `:\` de una unidad de Windows ya contiene la `\`.
    if contiene(w.as_slice(), '/') || contiene(w.as_slice(), '\\') {
        proof {
            reveal_strlit("[ruta]");
        }
        caracteres("[ruta]")
    } else {
        trozo(w, 0, w.len())
    }
}

/// Sustituye cualquier palabra con pinta de ruta por `[ruta]`.
///
/// Los errores de las capas inferiores —la base, el llavero— **sí** incluyen
/// rutas del sistema de archivos en su mensaje, y ese mensaje cruza la
/// frontera con la interfaz. Lo demás del mensaje se conserva: sigue sirviendo
/// para diagnosticar.
pub fn redactar_rutas(mensaje: &str) -> (r: String)
    ensures
        r@ == redactado(mensaje@),
{
    let s = caracteres(mensaje);
    let mut salida: Vec<char> = Vec::new();
    let mut i: usize = 0;
    assert(s@.skip(0) =~= s@);
    assert(salida@ + redactado(s@.skip(0)) =~= redactado(s@));
    loop
        invariant
            i <= s.len(),
            s@ == mensaje@,
            redactado(s@) == salida@ + redactado(s@.skip(i as int)),
        decreases s.len() - i,
    {
        let resto = trozo(&s, i, s.len());
        let ghost t = s@.skip(i as int);
        assert(resto@ =~= t);
        match buscar(resto.as_slice(), ' ') {
            None => {
                let w = redactar_una(&resto);
                let ghost antes = salida@;
                extender(&mut salida, w.as_slice());
                proof {
                    lema_redactado_sin_espacio(t);
                }
                return a_texto(salida.as_slice());
            },
            Some(p) => {
                let palabra = trozo(&resto, 0, p);
                assert(palabra@ =~= t.take(p as int));
                let w = redactar_una(&palabra);
                let ghost antes = salida@;
                extender(&mut salida, w.as_slice());
                salida.push(' ');
                proof {
                    lema_redactado_paso(t, p as int);
                    assert(t.skip(p + 1) =~= s@.skip(i + p + 1));
                    assert(salida@ =~= antes + redactar_palabra(t.take(p as int)) + seq![' ']);
                }
                i = i + p + 1;
            },
        }
    }
}

proof fn lema_redactado_sin_espacio(t: Seq<char>)
    requires
        primera_posicion(t, ' ') is None,
    ensures
        redactado(t) == redactar_palabra(t),
{
    reveal(redactado);
}

proof fn lema_redactado_paso(t: Seq<char>, p: int)
    requires
        primera_posicion(t, ' ') == Some(p),
        0 <= p < t.len(),
    ensures
        redactado(t) == redactar_palabra(t.take(p)) + seq![' '] + redactado(t.skip(p + 1)),
{
    reveal(redactado);
}

// ─────────────────────────────────────────────────────────────────────────
// El error en la frontera
// ─────────────────────────────────────────────────────────────────────────

/// Forma en que un error cruza la frontera con la interfaz.
///
/// El campo `detalle` es para diagnóstico y **nunca** contiene rutas del
/// sistema de archivos.
#[derive(Debug)]
pub struct ErrorIpc {
    /// Clave de i18n: la interfaz resuelve con ella el texto de tres partes.
    pub clave: String,
    /// Texto técnico, para la bitácora de diagnóstico.
    pub detalle: String,
    /// Campos concretos que fallaron, cuando el error es del formulario de
    /// empresa. Vacío en todo lo demás.
    pub campos: Vec<ErrorDeCampo>,
    /// Lo mismo para el formulario de contacto, con el índice del canal.
    pub canales: Vec<ErrorDeContacto>,
}

/// Los campos que lleva un error a la frontera.
pub open spec fn campos_de(e: AppError) -> Seq<ErrorDeCampo> {
    match e {
        AppError::EmpresaInvalida(c) => c@,
        _ => seq![],
    }
}

/// Los errores de canal que lleva un error a la frontera.
pub open spec fn canales_de(e: AppError) -> Seq<ErrorDeContacto> {
    match e {
        AppError::ContactoInvalido(c) => c@,
        _ => seq![],
    }
}

impl ErrorIpc {
    /// Prepara un error para cruzar la frontera: su clave, su mensaje con las
    /// rutas redactadas, y los campos si es de un formulario.
    pub fn desde(e: AppError) -> (r: ErrorIpc)
        ensures
            r.clave@ == clave_de_app(e)@,
            r.detalle@ == redactado(mensaje_de_app(e)),
            r.campos@ == campos_de(e),
            r.canales@ == canales_de(e),
    {
        let clave = copiar(e.clave_i18n());
        let detalle = redactar_rutas(e.mensaje().as_str());
        let (campos, canales) = match e {
            AppError::EmpresaInvalida(c) => (c, Vec::new()),
            AppError::ContactoInvalido(c) => (Vec::new(), c),
            _ => (Vec::new(), Vec::new()),
        };
        ErrorIpc { clave, detalle, campos, canales }
    }
}

impl From<AppError> for ErrorIpc {
    fn from(e: AppError) -> (r: ErrorIpc)
        ensures
            r.clave@ == clave_de_app(e)@,
            r.detalle@ == redactado(mensaje_de_app(e)),
            r.campos@ == campos_de(e),
            r.canales@ == canales_de(e),
    {
        ErrorIpc::desde(e)
    }
}

/// El error que cruza la frontera lleva textos nuevos, y un texto no se
/// describe aquí como un valor: lo que `from` garantiza está en sus propias
/// cláusulas, no en esta especificación.
impl vstd::std_specs::convert::FromSpecImpl<AppError> for ErrorIpc {
    open spec fn obeys_from_spec() -> bool {
        false
    }

    open spec fn from_spec(e: AppError) -> ErrorIpc {
        vstd::pervasive::arbitrary()
    }
}

impl From<DbError> for AppError {
    fn from(e: DbError) -> (r: AppError)
        ensures
            r == AppError::Db(e),
    {
        AppError::Db(e)
    }
}

impl vstd::std_specs::convert::FromSpecImpl<DbError> for AppError {
    open spec fn obeys_from_spec() -> bool {
        true
    }

    open spec fn from_spec(e: DbError) -> AppError {
        AppError::Db(e)
    }
}

impl From<ErrorDeLectura> for AppError {
    fn from(e: ErrorDeLectura) -> (r: AppError)
        ensures
            r == AppError::Lectura(e),
    {
        AppError::Lectura(e)
    }
}

impl vstd::std_specs::convert::FromSpecImpl<ErrorDeLectura> for AppError {
    open spec fn obeys_from_spec() -> bool {
        true
    }

    open spec fn from_spec(e: ErrorDeLectura) -> AppError {
        AppError::Lectura(e)
    }
}

impl From<CoreError> for AppError {
    fn from(e: CoreError) -> (r: AppError)
        ensures
            r == AppError::Core(e),
    {
        AppError::Core(e)
    }
}

impl vstd::std_specs::convert::FromSpecImpl<CoreError> for AppError {
    open spec fn obeys_from_spec() -> bool {
        true
    }

    open spec fn from_spec(e: CoreError) -> AppError {
        AppError::Core(e)
    }
}

/// Ninguna palabra redactada conserva una barra.
proof fn lema_palabra_redactada(w: Seq<char>)
    ensures
        !redactar_palabra(w).contains('/') && !redactar_palabra(w).contains('\\'),
        !w.contains('/') && !w.contains('\\') ==> redactar_palabra(w) == w,
{
    reveal_strlit("[ruta]");
    let r = "[ruta]"@;
    assert forall|k: int| 0 <= k < r.len() implies r[k] != '/' && r[k] != '\\' by {}
}

/// **Lo redactado no lleva barras**: ninguna palabra con pinta de ruta, de
/// Unix o de Windows, sale hacia la interfaz.
pub proof fn ley_lo_redactado_no_lleva_barras(s: Seq<char>)
    ensures
        !redactado(s).contains('/') && !redactado(s).contains('\\'),
    decreases s.len(),
{
    if s.contains(' ') {
        let k0 = choose|k: int| 0 <= k < s.len() && s[k] == ' ';
        lema_hay_primera(s, ' ', k0);
        let p = primera_posicion(s, ' ')->0;
        lema_redactado_paso(s, p);
        let a = redactar_palabra(s.take(p));
        let b = redactado(s.skip(p + 1));
        lema_palabra_redactada(s.take(p));
        ley_lo_redactado_no_lleva_barras(s.skip(p + 1));
        let t = a + seq![' '] + b;
        assert forall|k: int| 0 <= k < t.len() implies t[k] != '/' && t[k] != '\\' by {
            if k < a.len() {
                assert(t[k] == a[k]);
            } else if k > a.len() {
                assert(t[k] == b[k - a.len() - 1]);
            }
        }
    } else {
        lema_redactado_sin_espacio(s);
        lema_palabra_redactada(s);
    }
}

/// Si un texto tiene el carácter, tiene una primera aparición suya.
proof fn lema_hay_primera(s: Seq<char>, c: char, k0: int)
    requires
        0 <= k0 < s.len(),
        s[k0] == c,
    ensures
        exists|k: int| 0 <= k < s.len() && s[k] == c && forall|m: int| 0 <= m < k ==> s[m] != c,
    decreases k0,
{
    if exists|m: int| 0 <= m < k0 && s[m] == c {
        let m = choose|m: int| 0 <= m < k0 && s[m] == c;
        lema_hay_primera(s, c, m);
    } else {
        assert(forall|m: int| 0 <= m < k0 ==> s[m] != c);
    }
}

/// **Un mensaje sin barras sale intacto**: redactar sólo toca lo que tiene
/// pinta de ruta, y el resto del mensaje sigue sirviendo para diagnosticar.
pub proof fn ley_sin_rutas_no_se_toca(s: Seq<char>)
    requires
        !s.contains('/'),
        !s.contains('\\'),
    ensures
        redactado(s) == s,
    decreases s.len(),
{
    reveal(redactado);
    match primera_posicion(s, ' ') {
        None => {
            lema_palabra_redactada(s);
        },
        Some(p) => {
            let k0 = choose|k: int| 0 <= k < s.len() && s[k] == ' ';
            lema_hay_primera(s, ' ', k0);
            assert(0 <= p < s.len() && s[p] == ' ');
            let antes = s.take(p);
            let despues = s.skip(p + 1);
            assert(!antes.contains('/') && !antes.contains('\\')) by {
                if antes.contains('/') || antes.contains('\\') {
                    let k = choose|k: int| 0 <= k < antes.len() && (antes[k] == '/' || antes[k] == '\\');
                    assert(s[k] == antes[k]);
                }
            }
            assert(!despues.contains('/') && !despues.contains('\\')) by {
                if despues.contains('/') || despues.contains('\\') {
                    let k = choose|k: int| 0 <= k < despues.len() && (despues[k] == '/' || despues[k] == '\\');
                    assert(s[p + 1 + k] == despues[k]);
                }
            }
            lema_palabra_redactada(antes);
            ley_sin_rutas_no_se_toca(despues);
            assert(antes + seq![' '] + despues =~= s);
        },
    }
}

} // verus!
