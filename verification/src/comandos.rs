//! Lo que deciden los comandos de la interfaz.
//!
//! La aplicación recibe las peticiones de la interfaz, habla con la base y con
//! el sistema, y devuelve lo que la pantalla pinta. Aquí está la parte que
//! decide: qué se enseña de un contacto, qué preferencias valen, qué tema se
//! admite, qué direcciones trae un archivo y qué cifras se apuntan al importar.

use vstd::prelude::*;

use crate::analisis::Analisis;
use crate::canal::Canal;
use crate::contacto::{
    CanalValidado, DatosDeContacto, ModeloDeBorradorDeContacto, ModeloDeCanal, canales_de_contacto,
    errores_de_contacto, modelos,
};
use crate::datos::{
    ContactoGuardado, DatosDelLote, MAX_POR_PAGINA, ResumenArranque, ResumenDeImportacion,
};
use crate::empresa::{DatosDeEmpresa, PAISES_SOPORTADOS, ZONAS_SOPORTADAS};
use crate::errores::AppError;
use crate::ids::ContactId;
use crate::importacion::{
    CampoImportable, MAX_COLUMNAS, OrigenDeLaLista, fila_a_borrador, propuesta, repartir,
};
use crate::lectura::{TablaLeida, vista_de_fila, vista_de_tabla};
use crate::onboarding::{
    ListaDeOnboarding, PASOS, RecuentoDeAlta, estado_de, hechos, siguiente_desde,
};
use crate::texto::{copiar, texto_igual};

verus! {

// ─────────────────────────────────────────────────────────────────────────
// La aplicación
// ─────────────────────────────────────────────────────────────────────────

/// El único sitio externo que ARLES sabe abrir. Es una constante: la
/// interfaz no puede pedir otra dirección.
pub const SITIO_DE_TELEMETRY: &'static str = "https://telemetrymx.com";

/// La versión del paquete.
pub const VERSION: &'static str = "1.2.0";

/// Información de la aplicación para el pie y el diálogo «Acerca de». El
/// numeral «I» y el número de versión nunca van en el mismo renglón, así que
/// se entregan por separado.
#[derive(Debug, Clone)]
pub struct InfoApp {
    /// Nombre visible, sin numeral.
    pub nombre: String,
    /// Nombre comercial, con numeral.
    pub nombre_comercial: String,
    pub version: String,
    pub atribucion: String,
}

pub fn info_app() -> (i: InfoApp)
    ensures
        i.nombre@ == "ARLES RELAY"@,
        i.nombre_comercial@ == "ARLES RELAY I"@,
        i.version@ == VERSION@,
        i.atribucion@ == "Software desarrollado por TELEMETRY INSIGHT"@,
{
    InfoApp {
        nombre: copiar("ARLES RELAY"),
        nombre_comercial: copiar("ARLES RELAY I"),
        version: copiar(VERSION),
        atribucion: copiar("Software desarrollado por TELEMETRY INSIGHT"),
    }
}

/// Estado de salud del arranque, para la pantalla de inicio.
#[derive(Debug, Clone, PartialEq, Eq)]
pub struct EstadoArranque {
    /// La base de datos cifrada está abierta y migrada.
    pub base_de_datos_lista: bool,
    pub version_esquema: Option<i32>,
    /// Hay una empresa configurada; si no, toca el alta.
    pub empresa_configurada: bool,
}

/// El estado de arranque a partir de lo que dice la base.
pub fn estado_de_arranque(r: &ResumenArranque) -> (e: EstadoArranque)
    ensures
        e == (EstadoArranque {
            base_de_datos_lista: true,
            version_esquema: r.version_esquema,
            empresa_configurada: r.empresas > 0,
        }),
{
    EstadoArranque {
        base_de_datos_lista: true,
        version_esquema: r.version_esquema,
        empresa_configurada: r.empresas > 0,
    }
}

/// Todo lo que la pantalla de configuración necesita, en un solo cruce. Las
/// listas de zonas y países las aporta **el núcleo**: son el mismo dato que
/// usa el validador, no una copia.
#[derive(Debug, Clone)]
pub struct ConfiguracionDeEmpresa {
    /// `None` en una instalación nueva.
    pub empresa: Option<DatosDeEmpresa>,
    pub zonas: [&'static str; 12],
    pub paises: [&'static str; 1],
    pub onboarding: ListaDeOnboarding,
}

pub fn configuracion_de_empresa(empresa: Option<DatosDeEmpresa>, recuento: &RecuentoDeAlta) -> (c:
    ConfiguracionDeEmpresa)
    ensures
        c.empresa == empresa,
        c.zonas == ZONAS_SOPORTADAS,
        c.paises == PAISES_SOPORTADOS,
        c.onboarding.pasos@.len() == 6,
        forall|k: int|
            0 <= k < 6 ==> c.onboarding.pasos@[k] == estado_de(#[trigger] PASOS[k], *recuento),
        c.onboarding.total == 6,
        c.onboarding.completados == hechos(c.onboarding.pasos@, 6),
        c.onboarding.siguiente == siguiente_desde(c.onboarding.pasos@, 0),
{
    ConfiguracionDeEmpresa {
        empresa,
        zonas: ZONAS_SOPORTADAS,
        paises: PAISES_SOPORTADOS,
        onboarding: ListaDeOnboarding::desde(recuento),
    }
}

// ─────────────────────────────────────────────────────────────────────────
// Preferencias de interfaz
// ─────────────────────────────────────────────────────────────────────────

/// Clave de la preferencia de la barra lateral.
pub const BARRA_PLEGADA: &'static str = "barra_lateral_plegada";

/// Clave de la preferencia del tema.
pub const TEMA: &'static str = "tema";

/// Los tres temas admitidos. `auto` es «el que pida el sistema operativo»:
/// se guarda la palabra, no el resultado.
pub const TEMAS: [&'static str; 3] = ["auto", "oscuro", "claro"];

/// Mientras el usuario no elija, ARLES hace lo que haga el sistema.
pub const TEMA_POR_DEFECTO: &'static str = "auto";

/// ¿Es uno de los temas admitidos?
pub open spec fn tema_admitido(t: Seq<char>) -> bool {
    exists|i: int| 0 <= i < 3 && (#[trigger] TEMAS[i])@ == t
}

pub fn es_tema_admitido(t: &str) -> (r: bool)
    ensures
        r == tema_admitido(t@),
{
    let temas = TEMAS;
    let mut i: usize = 0;
    while i < 3
        invariant
            i <= 3,
            temas == TEMAS,
            forall|j: int| 0 <= j < i ==> (#[trigger] temas[j])@ != t@,
        decreases 3 - i,
    {
        if texto_igual(temas[i], t) {
            assert((TEMAS[i as int])@ == t@);
            return true;
        }
        i = i + 1;
    }
    false
}

/// El tema que manda la interfaz se comprueba: el desplegable es de tres
/// opciones, pero el comando recibe cualquier cadena.
pub fn comprobar_tema(t: &str) -> (r: Result<(), AppError>)
    ensures
        tema_admitido(t@) ==> r is Ok,
        !tema_admitido(t@) ==> r matches Err(AppError::TemaDesconocido),
{
    if es_tema_admitido(t) {
        Ok(())
    } else {
        Err(AppError::TemaDesconocido)
    }
}

/// Cómo se guarda la barra: «1» plegada, «0» desplegada.
pub fn valor_de_barra(plegada: bool) -> (r: &'static str)
    ensures
        plegada ==> r == "1",
        !plegada ==> r == "0",
{
    if plegada {
        "1"
    } else {
        "0"
    }
}

/// Preferencias de interfaz que se recuerdan entre sesiones.
#[derive(Debug, Clone, Default)]
pub struct PreferenciasDeInterfaz {
    /// `true` si la barra lateral quedó plegada la última vez.
    pub barra_lateral_plegada: bool,
    /// Tema elegido: `auto`, `oscuro` o `claro`.
    pub tema: String,
}

/// Las preferencias a partir de lo guardado.
///
/// Cualquier cosa que no sea «1» es desplegada, y un tema que no se reconoce
/// cae en el de por defecto en vez de llegar tal cual a la interfaz: una
/// preferencia corrupta no es motivo para dejar la aplicación sin tema.
pub fn preferencias_desde(plegada: Option<String>, tema: Option<String>) -> (p: PreferenciasDeInterfaz)
    ensures
        p.barra_lateral_plegada == (plegada matches Some(v) && v@ == "1"@),
        tema matches Some(t) && tema_admitido(t@) ==> p.tema@ == tema->0@,
        !(tema matches Some(t) && tema_admitido(t@)) ==> p.tema@ == TEMA_POR_DEFECTO@,
{
    let barra = match &plegada {
        Some(v) => texto_igual(v.as_str(), "1"),
        None => false,
    };
    let tema = match tema {
        Some(t) => if es_tema_admitido(t.as_str()) {
            t
        } else {
            copiar(TEMA_POR_DEFECTO)
        },
        None => copiar(TEMA_POR_DEFECTO),
    };
    PreferenciasDeInterfaz { barra_lateral_plegada: barra, tema }
}

// ─────────────────────────────────────────────────────────────────────────
// Contactos
// ─────────────────────────────────────────────────────────────────────────

/// Cuántos contactos pide la tabla por pantallazo.
pub const POR_PAGINA: u32 = 100;

/// La página que pide la tabla cabe en el tope de la capa de datos: si no,
/// la lista se recortaría **en silencio** y la tabla creería que ha llegado al
/// final.
pub proof fn ley_la_pagina_cabe_en_el_tope()
    ensures
        POR_PAGINA <= MAX_POR_PAGINA,
{
}

/// Un contacto tal y como lo ve la pantalla. Es el punto donde se decide qué
/// sale hacia la interfaz.
#[derive(Debug, Clone)]
pub struct ContactoParaLaPantalla {
    pub id: ContactId,
    pub nombre: String,
    pub apellido: String,
    pub empresa: String,
    pub canales: Vec<CanalValidado>,
    pub creado_en: String,
    pub actualizado_en: String,
}

impl From<ContactoGuardado> for ContactoParaLaPantalla {
    fn from(c: ContactoGuardado) -> (r: ContactoParaLaPantalla) {
        ContactoParaLaPantalla {
            id: c.id,
            nombre: c.datos.nombre,
            apellido: c.datos.apellido,
            empresa: c.datos.empresa,
            canales: c.datos.canales,
            creado_en: c.creado_en,
            actualizado_en: c.actualizado_en,
        }
    }
}

impl vstd::std_specs::convert::FromSpecImpl<ContactoGuardado> for ContactoParaLaPantalla {
    open spec fn obeys_from_spec() -> bool {
        true
    }

    open spec fn from_spec(c: ContactoGuardado) -> ContactoParaLaPantalla {
        ContactoParaLaPantalla {
            id: c.id,
            nombre: c.datos.nombre,
            apellido: c.datos.apellido,
            empresa: c.datos.empresa,
            canales: c.datos.canales,
            creado_en: c.creado_en,
            actualizado_en: c.actualizado_en,
        }
    }
}

/// Una página de contactos para la pantalla.
#[derive(Debug, Clone)]
pub struct PaginaDeContactos {
    pub contactos: Vec<ContactoParaLaPantalla>,
    /// Cuántos hay en total, no cuántos vienen.
    pub total: u32,
    /// Direcciones de esta página que están en la lista de supresión. **Es un
    /// aviso, no un bloqueo.**
    pub suprimidas: Vec<String>,
}

/// Los canales de una página, para preguntar en una sola consulta cuáles
/// están suprimidos.
pub fn canales_de_la_pagina(contactos: &Vec<ContactoGuardado>) -> (r: Vec<CanalValidado>)
    ensures
        modelos(r@) == canales_de_contactos(contactos@, contactos@.len() as int),
{
    let mut r: Vec<CanalValidado> = Vec::new();
    let mut k: usize = 0;
    while k < contactos.len()
        invariant
            k <= contactos.len(),
            modelos(r@) == canales_de_contactos(contactos@, k as int),
        decreases contactos.len() - k,
    {
        let canales = &contactos[k].datos.canales;
        let ghost antes = modelos(r@);
        let mut j: usize = 0;
        while j < canales.len()
            invariant
                j <= canales.len(),
                modelos(r@) == antes + modelos(canales@).take(j as int),
            decreases canales.len() - j,
        {
            let ghost previo = r@;
            r.push(canales[j].copia());
            assert(modelos(r@) =~= modelos(previo).push(canales@[j as int]@));
            assert(modelos(canales@).take(j + 1) =~= modelos(canales@).take(j as int).push(
                canales@[j as int]@,
            ));
            j = j + 1;
        }
        assert(modelos(canales@).take(canales@.len() as int) =~= modelos(canales@));
        k = k + 1;
    }
    r
}

/// Los canales de los primeros `n` contactos, en orden.
pub open spec fn canales_de_contactos(c: Seq<ContactoGuardado>, n: int) -> Seq<ModeloDeCanal>
    decreases n,
{
    if n <= 0 || n > c.len() {
        seq![]
    } else {
        canales_de_contactos(c, n - 1) + modelos(c[n - 1].datos.canales@)
    }
}

// ─────────────────────────────────────────────────────────────────────────
// Importar una tabla
// ─────────────────────────────────────────────────────────────────────────

/// Lo que la pantalla necesita para enseñar la vista previa del archivo.
#[derive(Debug, Clone)]
pub struct ArchivoLeido {
    /// Nombre del archivo, **sólo para enseñarlo**. No es una ruta.
    pub nombre: String,
    pub encabezados: Vec<String>,
    pub muestra: Vec<Vec<String>>,
    /// Qué campo parece ser cada columna: una **propuesta**.
    pub mapeo: Vec<CampoImportable>,
    pub total_de_filas: usize,
}

fn copiar_tabla(t: &Vec<Vec<String>>) -> (r: Vec<Vec<String>>)
    ensures
        vista_de_tabla(r@) == vista_de_tabla(t@),
{
    let mut r: Vec<Vec<String>> = Vec::new();
    let mut k: usize = 0;
    while k < t.len()
        invariant
            k <= t.len(),
            vista_de_tabla(r@) == vista_de_tabla(t@).take(k as int),
        decreases t.len() - k,
    {
        let f = copiar_cadenas(&t[k]);
        let ghost previo = vista_de_tabla(r@);
        r.push(f);
        assert(vista_de_tabla(r@) =~= previo.push(vista_de_fila(f)));
        assert(vista_de_tabla(t@).take(k + 1) =~= vista_de_tabla(t@).take(k as int).push(
            vista_de_fila(t@[k as int]),
        ));
        k = k + 1;
    }
    assert(vista_de_tabla(t@).take(t@.len() as int) =~= vista_de_tabla(t@));
    r
}

fn copiar_cadenas(f: &Vec<String>) -> (r: Vec<String>)
    ensures
        vista_de_fila(r) == vista_de_fila(*f),
{
    let mut r: Vec<String> = Vec::new();
    let mut c: usize = 0;
    while c < f.len()
        invariant
            c <= f.len(),
            r@.len() == c,
            forall|x: int| 0 <= x < c ==> (#[trigger] r@[x])@ == f@[x]@,
        decreases f.len() - c,
    {
        r.push(f[c].clone());
        c = c + 1;
    }
    assert(vista_de_fila(r) =~= vista_de_fila(*f));
    r
}

/// La vista previa de un archivo leído, con el mapeo que se propone.
pub fn archivo_leido(nombre: String, tabla: &TablaLeida) -> (a: ArchivoLeido)
    ensures
        a.nombre == nombre,
        vista_de_fila(a.encabezados) == vista_de_fila(tabla.encabezados),
        vista_de_tabla(a.muestra@) == vista_de_tabla(tabla.muestra@),
        a.mapeo@ == propuesta(tabla.encabezados@),
        a.total_de_filas == tabla.total_de_filas,
{
    let mapeo = crate::importacion::proponer_mapeo(tabla.encabezados.as_slice());
    ArchivoLeido {
        nombre,
        encabezados: copiar_cadenas(&tabla.encabezados),
        muestra: copiar_tabla(&tabla.muestra),
        mapeo,
        total_de_filas: tabla.total_de_filas,
    }
}

/// Las direcciones normalizadas de una fila, si pasaría la validación; nada
/// si no.
pub open spec fn direcciones_de_la_fila(
    mapeo: Seq<CampoImportable>,
    fila: Seq<String>,
    pais: Seq<char>,
) -> Seq<Seq<char>> {
    let f = repartir(mapeo, fila, mapeo.len() as nat);
    if f.canales.len() == 0 || f.canales.len() > crate::contacto::MAX_CANALES
        || errores_de_contacto(f, pais).len() > 0 {
        seq![]
    } else {
        canales_de_contacto(f, pais).map_values(|c: ModeloDeCanal| c.normalizado)
    }
}

/// Las direcciones normalizadas de las filas que pasarían la validación, en
/// el orden del archivo.
pub open spec fn direcciones_spec(
    mapeo: Seq<CampoImportable>,
    filas: Seq<Vec<String>>,
    pais: Seq<char>,
    n: int,
) -> Seq<Seq<char>>
    decreases n,
{
    if n <= 0 || n > filas.len() {
        seq![]
    } else {
        direcciones_spec(mapeo, filas, pais, n - 1) + direcciones_de_la_fila(
            mapeo,
            filas[n - 1]@,
            pais,
        )
    }
}

/// Cada dirección de `s` una sola vez, en el orden en que aparece por
/// primera vez.
#[verifier::opaque]
pub open spec fn sin_repetir(s: Seq<Seq<char>>) -> Seq<Seq<char>>
    decreases s.len(),
{
    if s.len() == 0 {
        seq![]
    } else {
        let antes = sin_repetir(s.drop_last());
        if antes.contains(s.last()) {
            antes
        } else {
            antes.push(s.last())
        }
    }
}

/// Quitar las repeticiones no pierde ni inventa direcciones, y lo que queda
/// no repite ninguna.
pub proof fn lema_sin_repetir(s: Seq<Seq<char>>)
    ensures
        forall|d: Seq<char>| #[trigger] sin_repetir(s).contains(d) <==> s.contains(d),
        forall|i: int, j: int|
            0 <= i < j < sin_repetir(s).len() ==> sin_repetir(s)[i] != sin_repetir(s)[j],
    decreases s.len(),
{
    reveal_with_fuel(sin_repetir, 1);
    if s.len() > 0 {
        let p = s.drop_last();
        lema_sin_repetir(p);
        assert(s =~= p.push(s.last()));
        assert forall|d: Seq<char>| #[trigger] sin_repetir(s).contains(d) <==> s.contains(d) by {
            if s.contains(d) && d != s.last() {
                let k = choose|k: int| 0 <= k < s.len() && s[k] == d;
                assert(p[k] == d);
                assert(p.contains(d));
            }
            if p.contains(d) {
                let k = choose|k: int| 0 <= k < p.len() && p[k] == d;
                assert(s[k] == d);
            }
            if d == s.last() {
                assert(s[s.len() - 1] == d);
            }
            if !sin_repetir(p).contains(s.last()) && sin_repetir(s).contains(d) {
                let k = choose|k: int| 0 <= k < sin_repetir(s).len() && sin_repetir(s)[k] == d;
                if k < sin_repetir(p).len() {
                    assert(sin_repetir(p)[k] == d);
                }
            }
            if !sin_repetir(p).contains(s.last()) && sin_repetir(p).contains(d) {
                let k = choose|k: int| 0 <= k < sin_repetir(p).len() && sin_repetir(p)[k] == d;
                assert(sin_repetir(s)[k] == d);
            }
            if !sin_repetir(p).contains(s.last()) && d == s.last() {
                assert(sin_repetir(s)[sin_repetir(p).len() as int] == d);
            }
        }
    }
}

/// Añadir una dirección al final y quitar repeticiones es quitarlas antes y
/// añadirla solo si es nueva.
proof fn lema_paso_sin_repetir(x: Seq<Seq<char>>, e: Seq<char>)
    ensures
        sin_repetir(x.push(e)) == (if sin_repetir(x).contains(e) {
            sin_repetir(x)
        } else {
            sin_repetir(x).push(e)
        }),
{
    reveal_with_fuel(sin_repetir, 1);
    assert(x.push(e).drop_last() =~= x);
}

/// Pone `d` al final de `v` si no estaba ya.
fn anadir_si_falta(v: &mut Vec<String>, d: &String)
    ensures
        vista_de_fila(*final(v)) == (if vista_de_fila(*old(v)).contains(d@) {
            vista_de_fila(*old(v))
        } else {
            vista_de_fila(*old(v)).push(d@)
        }),
{
    let ghost vs = vista_de_fila(*v);
    let mut k: usize = 0;
    while k < v.len()
        invariant
            k <= v.len(),
            vs == vista_de_fila(*v),
            forall|x: int| 0 <= x < k ==> vs[x] != d@,
        decreases v.len() - k,
    {
        if texto_igual(v[k].as_str(), d.as_str()) {
            assert(vs[k as int] == d@);
            return;
        }
        k = k + 1;
    }
    v.push(d.clone());
    assert(vista_de_fila(*v) =~= vs.push(d@));
}

/// Añade a `r` las direcciones de una fila que falten.
#[verifier::spinoff_prover]
#[verifier::rlimit(30)]
fn anadir_fila(
    r: &mut Vec<String>,
    mapeo: &[CampoImportable],
    fila: &Vec<String>,
    pais: &str,
    Ghost(antes): Ghost<Seq<Seq<char>>>,
)
    requires
        vista_de_fila(*old(r)) == sin_repetir(antes),
    ensures
        vista_de_fila(*final(r)) == sin_repetir(
            antes + direcciones_de_la_fila(mapeo@, fila@, pais@),
        ),
{
    match fila_a_borrador(mapeo, fila.as_slice()) {
        Err(_) => {
            assert(antes + direcciones_de_la_fila(mapeo@, fila@, pais@) =~= antes);
        },
        Ok(borrador) => match DatosDeContacto::validar(&borrador, pais) {
            Err(_) => {
                assert(antes + direcciones_de_la_fila(mapeo@, fila@, pais@) =~= antes);
            },
            Ok(datos) => {
                let ghost m = modelos(datos.canales@).map_values(|c: ModeloDeCanal| c.normalizado);
                assert(m == direcciones_de_la_fila(mapeo@, fila@, pais@));
                let mut j: usize = 0;
                while j < datos.canales.len()
                    invariant
                        j <= datos.canales.len(),
                        m == modelos(datos.canales@).map_values(|c: ModeloDeCanal| c.normalizado),
                        vista_de_fila(*r) == sin_repetir(antes + m.take(j as int)),
                    decreases datos.canales.len() - j,
                {
                    proof {
                        assert(antes + m.take(j + 1) =~= (antes + m.take(j as int)).push(
                            m[j as int],
                        ));
                        lema_paso_sin_repetir(antes + m.take(j as int), m[j as int]);
                    }
                    anadir_si_falta(r, &datos.canales[j].valor_normalizado);
                    j = j + 1;
                }
                assert(m.take(m.len() as int) =~= m);
            },
        },
    }
}

/// Lo que el resultado de [`direcciones_de_las_filas`] dice de las
/// direcciones del archivo.
proof fn lema_direcciones(r: Seq<Seq<char>>, todas: Seq<Seq<char>>)
    requires
        r == sin_repetir(todas),
    ensures
        forall|d: Seq<char>| #[trigger] r.contains(d) <==> todas.contains(d),
        forall|i: int, j: int| 0 <= i < j < r.len() ==> r[i] != r[j],
{
    lema_sin_repetir(todas);
}

/// Las direcciones normalizadas que trae un archivo, para preguntar de una vez
/// de quién son. Se normalizan con las mismas reglas que usa el análisis: sin
/// eso, «Ana@Empresa.MX» no encontraría a su dueño.
///
/// Cada dirección sale una sola vez, en el orden en que aparece por primera
/// vez en el archivo.
pub fn direcciones_de_las_filas(
    mapeo: &[CampoImportable],
    filas: &[Vec<String>],
    pais: &str,
) -> (r: Vec<String>)
    ensures
        vista_de_fila(r) == sin_repetir(
            direcciones_spec(mapeo@, filas@, pais@, filas@.len() as int),
        ),
        forall|d: Seq<char>|
            #[trigger] vista_de_fila(r).contains(d) <==> direcciones_spec(
                mapeo@,
                filas@,
                pais@,
                filas@.len() as int,
            ).contains(d),
        forall|i: int, j: int| 0 <= i < j < r@.len() ==> r@[i]@ != r@[j]@,
{
    let mut r: Vec<String> = Vec::new();
    proof {
        reveal_with_fuel(sin_repetir, 1);
        assert(vista_de_fila(r) =~= seq![]);
    }
    let mut i: usize = 0;
    while i < filas.len()
        invariant
            i <= filas.len(),
            vista_de_fila(r) == sin_repetir(direcciones_spec(mapeo@, filas@, pais@, i as int)),
        decreases filas.len() - i,
    {
        proof {
            assert(direcciones_spec(mapeo@, filas@, pais@, i + 1) =~= direcciones_spec(
                mapeo@,
                filas@,
                pais@,
                i as int,
            ) + direcciones_de_la_fila(mapeo@, filas@[i as int]@, pais@));
        }
        anadir_fila(&mut r, mapeo, &filas[i], pais, Ghost(direcciones_spec(mapeo@, filas@, pais@, i as int)));
        i = i + 1;
    }
    proof {
        lema_direcciones(vista_de_fila(r), direcciones_spec(mapeo@, filas@, pais@, filas@.len() as int));
        assert forall|a: int, b: int| 0 <= a < b < r@.len() implies r@[a]@ != r@[b]@ by {
            assert(vista_de_fila(r)[a] == r@[a]@);
            assert(vista_de_fila(r)[b] == r@[b]@);
        }
    }
    r
}

/// Lo que se apunta de una importación: lo que declara el usuario y las
/// cifras del análisis que vio. Las filas rechazadas cuentan como inválidas.
pub fn lote_de_importacion(
    nombre_del_archivo: String,
    huella_del_archivo: String,
    mapeo_en_json: String,
    texto_del_consentimiento: String,
    origen: OrigenDeLaLista,
    total_de_filas: usize,
    informe: &Analisis,
) -> (l: DatosDelLote)
    requires
        informe.invalidas@.len() + informe.rechazadas@.len() <= usize::MAX,
    ensures
        l == (DatosDelLote {
            nombre_del_archivo,
            huella_del_archivo,
            mapeo_en_json,
            texto_del_consentimiento,
            origen,
            total_de_filas,
            choques: informe.choques@.len() as usize,
            invalidas: (informe.invalidas@.len() + informe.rechazadas@.len()) as usize,
        }),
{
    DatosDelLote {
        nombre_del_archivo,
        huella_del_archivo,
        mapeo_en_json,
        texto_del_consentimiento,
        origen,
        total_de_filas,
        choques: informe.choques.len(),
        invalidas: informe.invalidas.len() + informe.rechazadas.len(),
    }
}

/// Lo que pasó al importar, para la pantalla.
#[derive(Debug, Clone, PartialEq, Eq)]
pub struct ResumenParaLaPantalla {
    pub importados: usize,
    pub choques: usize,
    pub invalidas: usize,
    pub total_de_filas: usize,
}

pub fn resumen_para_la_pantalla(r: &ResumenDeImportacion) -> (p: ResumenParaLaPantalla)
    ensures
        p == (ResumenParaLaPantalla {
            importados: r.importados,
            choques: r.choques,
            invalidas: r.invalidas,
            total_de_filas: r.total_de_filas,
        }),
{
    ResumenParaLaPantalla {
        importados: r.importados,
        choques: r.choques,
        invalidas: r.invalidas,
        total_de_filas: r.total_de_filas,
    }
}

} // verus!
