//! Datos de la empresa operadora y su validación.
//!
//! Es lo primero que el usuario configura y lo que gobierna después toda la
//! ejecución: la **zona horaria** de aquí es la que decide si una ventana de
//! envío está abierta, nunca la del sistema operativo.

use vstd::prelude::*;

use crate::email::{EmailAddress, motivo_de_rechazo_email};
use crate::texto::{
    a_mayusculas, a_texto, caracteres, contiene, empieza_con, hay_espacio, mayusculas, minusculas,
    recortado, recortar_texto, texto_igual, tiene_espacio, trozo,
};

verus! {

/// Longitud máxima del nombre comercial, en caracteres.
pub const MAX_NOMBRE: usize = 120;

/// Longitud máxima del sitio web, en caracteres.
pub const MAX_SITIO: usize = 255;

/// Zonas horarias admitidas.
///
/// **Es una lista cerrada, y eso es deliberado.** Validar un identificador IANA
/// de verdad exige una base de datos de zonas; aceptar cualquier cadena con
/// pinta de zona dejaría entrar `America/Mexico`, que no existe. La interfaz
/// ofrece exactamente esta lista: lo que se ve y lo que se acepta son el mismo
/// dato.
pub const ZONAS_SOPORTADAS: [&'static str; 12] = [
    "America/Mexico_City",
    "America/Cancun",
    "America/Merida",
    "America/Monterrey",
    "America/Matamoros",
    "America/Chihuahua",
    "America/Ojinaga",
    "America/Mazatlan",
    "America/Bahia_Banderas",
    "America/Hermosillo",
    "America/Tijuana",
    "UTC",
];

/// Países admitidos: el marco legal que la aplicación cita es el mexicano.
pub const PAISES_SOPORTADOS: [&'static str; 1] = ["MX"];

/// Qué campo del formulario falló.
#[derive(Debug, Clone, Copy, PartialEq, Eq, Structural)]
pub enum CampoDeEmpresa {
    NombreComercial,
    Pais,
    ZonaHoraria,
    CorreoCorporativo,
    SitioWeb,
}

/// El nombre de cada campo tal como lo conoce el formulario.
pub open spec fn nombre_de_campo(c: CampoDeEmpresa) -> &'static str {
    match c {
        CampoDeEmpresa::NombreComercial => "nombreComercial",
        CampoDeEmpresa::Pais => "pais",
        CampoDeEmpresa::ZonaHoraria => "zonaHoraria",
        CampoDeEmpresa::CorreoCorporativo => "correoCorporativo",
        CampoDeEmpresa::SitioWeb => "sitioWeb",
    }
}

impl CampoDeEmpresa {
    /// Nombre del campo tal como lo conoce el formulario.
    pub fn como_str(self) -> (r: &'static str)
        ensures
            r == nombre_de_campo(self),
    {
        match self {
            CampoDeEmpresa::NombreComercial => "nombreComercial",
            CampoDeEmpresa::Pais => "pais",
            CampoDeEmpresa::ZonaHoraria => "zonaHoraria",
            CampoDeEmpresa::CorreoCorporativo => "correoCorporativo",
            CampoDeEmpresa::SitioWeb => "sitioWeb",
        }
    }
}

/// Un campo inválido, con la clave del texto que la interfaz debe mostrar.
#[derive(Debug, Clone, PartialEq, Eq)]
pub struct ErrorDeCampo {
    pub campo: CampoDeEmpresa,
    pub clave: &'static str,
}

/// Lo que el formulario envía: texto sin validar.
#[derive(Debug, Clone, Default)]
pub struct BorradorDeEmpresa {
    pub nombre_comercial: String,
    pub pais: String,
    pub zona_horaria: String,
    pub correo_corporativo: String,
    /// Opcional. Cadena vacía y ausente son lo mismo.
    pub sitio_web: String,
}

// ─────────────────────────────────────────────────────────────────────────
// Las reglas
// ─────────────────────────────────────────────────────────────────────────

/// Qué tiene de malo un nombre comercial ya recortado.
pub open spec fn error_de_nombre(n: Seq<char>) -> Option<&'static str> {
    if n.len() == 0 {
        Some("empresa.error.nombreVacio")
    } else if n.len() > MAX_NOMBRE {
        Some("empresa.error.nombreLargo")
    } else if n.contains('\r') || n.contains('\n') {
        Some("empresa.error.nombreConSaltos")
    } else {
        None
    }
}

/// ¿Está la zona en la lista cerrada?
pub open spec fn zona_soportada(z: Seq<char>) -> bool {
    exists|i: int| 0 <= i < 12 && (#[trigger] ZONAS_SOPORTADAS[i])@ == z
}

/// El país tal y como queda: recortado y en mayúsculas.
pub open spec fn pais_normalizado(p: Seq<char>) -> Seq<char> {
    mayusculas(recortado(p))
}

/// El sitio web tras el esquema, si lleva uno admitido.
pub open spec fn tras_el_esquema(s: Seq<char>) -> Option<Seq<char>> {
    if "https://"@.is_prefix_of(s) {
        Some(s.skip(8))
    } else if "http://"@.is_prefix_of(s) {
        Some(s.skip(7))
    } else {
        None
    }
}

/// Lo que queda de un sitio web: nada si está vacío, el sitio recortado si es
/// válido, o la clave del error.
///
/// Se exige `http://` o `https://` explícito, y se rechaza cualquier otro
/// esquema —`javascript:`, `file:`, `data:`— porque este valor acaba en un
/// `href`.
pub open spec fn sitio_spec(entrada: Seq<char>) -> Result<Option<Seq<char>>, &'static str> {
    let s = recortado(entrada);
    if s.len() == 0 {
        Ok(None)
    } else if s.len() > MAX_SITIO {
        Err("empresa.error.sitioLargo")
    } else if hay_espacio(s) {
        Err("empresa.error.sitioInvalido")
    } else {
        match tras_el_esquema(s) {
            None => Err("empresa.error.sitioSinEsquema"),
            Some(resto) => if !resto.contains('.') || (resto.len() > 0 && (resto[0] == '.'
                || resto[0] == '/')) {
                Err("empresa.error.sitioInvalido")
            } else {
                Ok(Some(s))
            },
        }
    }
}

/// Un error de campo si hay clave, o nada.
pub open spec fn error_en(campo: CampoDeEmpresa, clave: Option<&'static str>) -> Seq<ErrorDeCampo> {
    match clave {
        Some(c) => seq![ErrorDeCampo { campo, clave: c }],
        None => seq![],
    }
}

/// Todos los errores de un borrador, en el orden del formulario.
pub open spec fn errores_de_empresa(b: BorradorDeEmpresa) -> Seq<ErrorDeCampo> {
    error_en(CampoDeEmpresa::NombreComercial, error_de_nombre(recortado(b.nombre_comercial@)))
        + error_en(
        CampoDeEmpresa::Pais,
        if pais_normalizado(b.pais@) == "MX"@ {
            None
        } else {
            Some("empresa.error.paisNoSoportado")
        },
    ) + error_en(
        CampoDeEmpresa::ZonaHoraria,
        if zona_soportada(recortado(b.zona_horaria@)) {
            None
        } else {
            Some("empresa.error.zonaNoSoportada")
        },
    ) + error_en(
        CampoDeEmpresa::CorreoCorporativo,
        if motivo_de_rechazo_email(recortado(b.correo_corporativo@)) is None {
            None
        } else {
            Some("empresa.error.correoInvalido")
        },
    ) + error_en(
        CampoDeEmpresa::SitioWeb,
        match sitio_spec(b.sitio_web@) {
            Err(c) => Some(c),
            Ok(_) => None,
        },
    )
}

// ─────────────────────────────────────────────────────────────────────────
// Los datos validados
// ─────────────────────────────────────────────────────────────────────────

/// Datos de la empresa, ya validados.
///
/// Los campos son privados: la única puerta de entrada es [`Self::validar`].
#[derive(Debug, PartialEq, Eq)]
pub struct DatosDeEmpresa {
    nombre_comercial: String,
    pais: String,
    zona_horaria: String,
    correo_corporativo: EmailAddress,
    sitio_web: Option<String>,
}

/// La vista de un sitio opcional.
pub open spec fn vista_de_sitio(s: Option<String>) -> Option<Seq<char>> {
    match s {
        Some(x) => Some(x@),
        None => None,
    }
}

impl DatosDeEmpresa {
    /// Lo que `validar` deja pasar, y nada más.
    #[verifier::type_invariant]
    closed spec fn bien_formados(self) -> bool {
        &&& error_de_nombre(self.nombre_comercial@) is None
        &&& recortado(self.nombre_comercial@) == self.nombre_comercial@
        &&& self.pais@ == "MX"@
        &&& zona_soportada(self.zona_horaria@)
        &&& match self.sitio_web {
            Some(s) => sitio_spec(s@) == Ok::<Option<Seq<char>>, &'static str>(Some(s@)),
            None => true,
        }
    }

    pub closed spec fn nombre_spec(&self) -> Seq<char> {
        self.nombre_comercial@
    }

    pub closed spec fn pais_spec(&self) -> Seq<char> {
        self.pais@
    }

    pub closed spec fn zona_spec(&self) -> Seq<char> {
        self.zona_horaria@
    }

    pub closed spec fn correo_spec(&self) -> EmailAddress {
        self.correo_corporativo
    }

    pub closed spec fn sitio_spec(&self) -> Option<Seq<char>> {
        vista_de_sitio(self.sitio_web)
    }

    /// Valida un borrador del formulario.
    ///
    /// Devuelve **todos** los campos inválidos, no el primero: un formulario
    /// que reporta un error por intento obliga a enviarlo cinco veces para
    /// enterarse de que hay cinco problemas.
    pub fn validar(b: &BorradorDeEmpresa) -> (r: Result<Self, Vec<ErrorDeCampo>>)
        ensures
            errores_de_empresa(*b).len() > 0 ==> (r matches Err(e) && e@ == errores_de_empresa(
                *b,
            )),
            errores_de_empresa(*b).len() == 0 ==> (r matches Ok(d) && d.nombre_spec()
                == recortado(b.nombre_comercial@) && d.pais_spec() == pais_normalizado(b.pais@)
                && d.zona_spec() == recortado(b.zona_horaria@) && d.correo_spec().raw_spec()
                == recortado(b.correo_corporativo@) && d.correo_spec().normalized_spec()
                == minusculas(recortado(b.correo_corporativo@)) && Ok::<
                Option<Seq<char>>,
                &'static str,
            >(d.sitio_spec()) == sitio_spec(b.sitio_web@)),
    {
        let mut errores: Vec<ErrorDeCampo> = Vec::new();
        let nombre = recortar_texto(b.nombre_comercial.as_str());
        if nombre.len() == 0 {
            errores.push(
                ErrorDeCampo {
                    campo: CampoDeEmpresa::NombreComercial,
                    clave: "empresa.error.nombreVacio",
                },
            );
        } else if nombre.len() > MAX_NOMBRE {
            errores.push(
                ErrorDeCampo {
                    campo: CampoDeEmpresa::NombreComercial,
                    clave: "empresa.error.nombreLargo",
                },
            );
        } else if contiene(nombre.as_slice(), '\r') || contiene(nombre.as_slice(), '\n') {
            // El nombre acaba en la cabecera `From` de los correos: un salto de
            // línea ahí es inyección de cabeceras.
            errores.push(
                ErrorDeCampo {
                    campo: CampoDeEmpresa::NombreComercial,
                    clave: "empresa.error.nombreConSaltos",
                },
            );
        }
        let ghost e1 = errores@;
        let pais_recortado = a_texto(recortar_texto(b.pais.as_str()).as_slice());
        let pais = a_mayusculas(pais_recortado.as_str());
        let pais_valido = texto_igual(pais.as_str(), PAISES_SOPORTADOS[0]);
        if !pais_valido {
            errores.push(
                ErrorDeCampo { campo: CampoDeEmpresa::Pais, clave: "empresa.error.paisNoSoportado" },
            );
        }
        let ghost e2 = errores@;
        let zona_v = recortar_texto(b.zona_horaria.as_str());
        let zona = a_texto(zona_v.as_slice());
        let zona_valida = es_zona_soportada(zona.as_str());
        if !zona_valida {
            errores.push(
                ErrorDeCampo {
                    campo: CampoDeEmpresa::ZonaHoraria,
                    clave: "empresa.error.zonaNoSoportada",
                },
            );
        }
        let ghost e3 = errores@;
        let correo = match EmailAddress::parse(b.correo_corporativo.as_str()) {
            Ok(c) => Some(c),
            Err(_) => {
                errores.push(
                    ErrorDeCampo {
                        campo: CampoDeEmpresa::CorreoCorporativo,
                        clave: "empresa.error.correoInvalido",
                    },
                );
                None
            },
        };
        let ghost e4 = errores@;
        let sitio = match validar_sitio(b.sitio_web.as_str()) {
            Ok(s) => s,
            Err(clave) => {
                errores.push(ErrorDeCampo { campo: CampoDeEmpresa::SitioWeb, clave });
                None
            },
        };
        proof {
            reveal_strlit("MX");
            assert(e1 =~= error_en(
                CampoDeEmpresa::NombreComercial,
                error_de_nombre(recortado(b.nombre_comercial@)),
            ));
            assert(errores@ =~= errores_de_empresa(*b));
        }
        match correo {
            Some(correo_corporativo) => {
                if errores.len() == 0 {
                    proof {
                        crate::texto::lema_recortado(b.nombre_comercial@);
                        crate::texto::lema_sin_espacios_en_los_bordes(nombre@);
                        if sitio is Some {
                            lema_sitio_estable(b.sitio_web@);
                        }
                    }
                    Ok(
                        DatosDeEmpresa {
                            nombre_comercial: a_texto(nombre.as_slice()),
                            pais,
                            zona_horaria: zona,
                            correo_corporativo,
                            sitio_web: sitio,
                        },
                    )
                } else {
                    Err(errores)
                }
            },
            None => Err(errores),
        }
    }

    pub fn nombre_comercial(&self) -> (r: &str)
        ensures
            r@ == self.nombre_spec(),
            error_de_nombre(r@) is None,
    {
        proof {
            use_type_invariant(self);
        }
        self.nombre_comercial.as_str()
    }

    pub fn pais(&self) -> (r: &str)
        ensures
            r@ == self.pais_spec(),
            r@ == "MX"@,
    {
        proof {
            use_type_invariant(self);
        }
        self.pais.as_str()
    }

    /// Zona IANA que gobierna **todas** las ventanas de ejecución.
    pub fn zona_horaria(&self) -> (r: &str)
        ensures
            r@ == self.zona_spec(),
            zona_soportada(r@),
    {
        proof {
            use_type_invariant(self);
        }
        self.zona_horaria.as_str()
    }

    pub fn correo_corporativo(&self) -> (r: &EmailAddress)
        ensures
            *r == self.correo_spec(),
    {
        &self.correo_corporativo
    }

    pub fn sitio_web(&self) -> (r: Option<&str>)
        ensures
            match r {
                Some(s) => self.sitio_spec() == Some(s@) && sitio_spec(s@) == Ok::<
                    Option<Seq<char>>,
                    &'static str,
                >(Some(s@)),
                None => self.sitio_spec() is None,
            },
    {
        proof {
            use_type_invariant(self);
        }
        match &self.sitio_web {
            Some(s) => Some(s.as_str()),
            None => None,
        }
    }
}

impl Clone for DatosDeEmpresa {
    fn clone(&self) -> (r: Self)
        ensures
            r.nombre_spec() == self.nombre_spec(),
            r.pais_spec() == self.pais_spec(),
            r.zona_spec() == self.zona_spec(),
            r.correo_spec().raw_spec() == self.correo_spec().raw_spec(),
            r.correo_spec().normalized_spec() == self.correo_spec().normalized_spec(),
            r.sitio_spec() == self.sitio_spec(),
    {
        proof {
            use_type_invariant(self);
        }
        let sitio_web = match &self.sitio_web {
            Some(s) => Some(s.clone()),
            None => None,
        };
        DatosDeEmpresa {
            nombre_comercial: self.nombre_comercial.clone(),
            pais: self.pais.clone(),
            zona_horaria: self.zona_horaria.clone(),
            correo_corporativo: self.correo_corporativo.copia(),
            sitio_web,
        }
    }
}

/// ¿Está la zona en la lista cerrada?
pub fn es_zona_soportada(zona: &str) -> (r: bool)
    ensures
        r == zona_soportada(zona@),
{
    let mut i: usize = 0;
    while i < 12
        invariant
            i <= 12,
            forall|j: int| 0 <= j < i ==> (#[trigger] ZONAS_SOPORTADAS[j])@ != zona@,
        decreases 12 - i,
    {
        if texto_igual(ZONAS_SOPORTADAS[i], zona) {
            assert((ZONAS_SOPORTADAS[i as int])@ == zona@);
            return true;
        }
        i = i + 1;
    }
    false
}

/// Qué tiene de malo un campo del borrador, si algo.
pub open spec fn falla_de(b: BorradorDeEmpresa, c: CampoDeEmpresa) -> Option<&'static str> {
    match c {
        CampoDeEmpresa::NombreComercial => error_de_nombre(recortado(b.nombre_comercial@)),
        CampoDeEmpresa::Pais => if pais_normalizado(b.pais@) == "MX"@ {
            None
        } else {
            Some("empresa.error.paisNoSoportado")
        },
        CampoDeEmpresa::ZonaHoraria => if zona_soportada(recortado(b.zona_horaria@)) {
            None
        } else {
            Some("empresa.error.zonaNoSoportada")
        },
        CampoDeEmpresa::CorreoCorporativo => if motivo_de_rechazo_email(
            recortado(b.correo_corporativo@),
        ) is None {
            None
        } else {
            Some("empresa.error.correoInvalido")
        },
        CampoDeEmpresa::SitioWeb => match sitio_spec(b.sitio_web@) {
            Err(c) => Some(c),
            Ok(_) => None,
        },
    }
}

/// El lugar de cada campo en el formulario.
pub open spec fn posicion_de_campo(c: CampoDeEmpresa) -> int {
    match c {
        CampoDeEmpresa::NombreComercial => 0,
        CampoDeEmpresa::Pais => 1,
        CampoDeEmpresa::ZonaHoraria => 2,
        CampoDeEmpresa::CorreoCorporativo => 3,
        CampoDeEmpresa::SitioWeb => 4,
    }
}

/// **Cuándo vale una empresa.** Sin errores si y sólo si el nombre comercial,
/// recortado, tiene entre uno y ciento veinte caracteres y ningún salto de
/// línea; el país, recortado y en mayúsculas, es «MX»; la zona, recortada,
/// está en la lista; el correo se acepta; y el sitio está vacío o es válido.
/// Si hay errores, cada uno es de un campo que falla, con su clave; cada campo
/// que falla sale una vez, y en el orden del formulario. Un sitio aceptado
/// falta exactamente cuando viene vacío.
pub proof fn ley_cuando_vale_una_empresa(b: BorradorDeEmpresa)
    ensures
        errores_de_empresa(b).len() == 0 <==> ({
            let n = recortado(b.nombre_comercial@);
            &&& 1 <= n.len() <= MAX_NOMBRE
            &&& !n.contains('\r') && !n.contains('\n')
            &&& pais_normalizado(b.pais@) == "MX"@
            &&& zona_soportada(recortado(b.zona_horaria@))
            &&& motivo_de_rechazo_email(recortado(b.correo_corporativo@)) is None
            &&& sitio_spec(b.sitio_web@) is Ok
        }),
        forall|k: int|
            0 <= k < errores_de_empresa(b).len() ==> falla_de(
                b,
                (#[trigger] errores_de_empresa(b)[k]).campo,
            ) == Some(errores_de_empresa(b)[k].clave),
        forall|i: int, j: int|
            0 <= i < j < errores_de_empresa(b).len() ==> posicion_de_campo(
                (#[trigger] errores_de_empresa(b)[i]).campo,
            ) < posicion_de_campo((#[trigger] errores_de_empresa(b)[j]).campo),
        forall|c: CampoDeEmpresa|
            (#[trigger] falla_de(b, c)) is Some ==> exists|k: int|
                0 <= k < errores_de_empresa(b).len() && (#[trigger] errores_de_empresa(b)[k]).campo
                    == c,
        sitio_spec(b.sitio_web@) is Ok ==> (sitio_spec(b.sitio_web@) == Ok::<
            Option<Seq<char>>,
            &'static str,
        >(None) <==> recortado(b.sitio_web@).len() == 0),
{
    let e0 = error_en(CampoDeEmpresa::NombreComercial, falla_de(b, CampoDeEmpresa::NombreComercial));
    let e1 = error_en(CampoDeEmpresa::Pais, falla_de(b, CampoDeEmpresa::Pais));
    let e2 = error_en(CampoDeEmpresa::ZonaHoraria, falla_de(b, CampoDeEmpresa::ZonaHoraria));
    let e3 = error_en(
        CampoDeEmpresa::CorreoCorporativo,
        falla_de(b, CampoDeEmpresa::CorreoCorporativo),
    );
    let e4 = error_en(CampoDeEmpresa::SitioWeb, falla_de(b, CampoDeEmpresa::SitioWeb));
    let e = errores_de_empresa(b);
    assert(e == e0 + e1 + e2 + e3 + e4);
    let a1 = e0.len() as int;
    let a2 = a1 + e1.len();
    let a3 = a2 + e2.len();
    let a4 = a3 + e3.len();
    // La posición de cada error en la lista dice de qué campo es.
    assert forall|k: int| 0 <= k < e.len() implies {
        let c = (#[trigger] e[k]).campo;
        &&& falla_de(b, c) == Some(e[k].clave)
        &&& posicion_de_campo(c) == if k < a1 {
            0int
        } else if k < a2 {
            1int
        } else if k < a3 {
            2int
        } else if k < a4 {
            3int
        } else {
            4int
        }
    } by {
        if k < a1 {
            assert(e[k] == e0[k]);
        } else if k < a2 {
            assert(e[k] == e1[k - a1]);
        } else if k < a3 {
            assert(e[k] == e2[k - a2]);
        } else if k < a4 {
            assert(e[k] == e3[k - a3]);
        } else {
            assert(e[k] == e4[k - a4]);
        }
    }
    assert forall|c: CampoDeEmpresa| (#[trigger] falla_de(b, c)) is Some implies exists|k: int|
        0 <= k < e.len() && (#[trigger] e[k]).campo == c by {
        match c {
            CampoDeEmpresa::NombreComercial => {
                assert(e[0] == e0[0]);
            },
            CampoDeEmpresa::Pais => {
                assert(e[a1] == e1[0]);
            },
            CampoDeEmpresa::ZonaHoraria => {
                assert(e[a2] == e2[0]);
            },
            CampoDeEmpresa::CorreoCorporativo => {
                assert(e[a3] == e3[0]);
            },
            CampoDeEmpresa::SitioWeb => {
                assert(e[a4] == e4[0]);
            },
        }
    }
}

/// Un sitio ya aceptado vuelve a aceptarse igual.
proof fn lema_sitio_estable(e: Seq<char>)
    requires
        sitio_spec(e) matches Ok(Some(s)),
    ensures
        sitio_spec(e) matches Ok(Some(s)) && sitio_spec(s) == Ok::<Option<Seq<char>>, &'static str>(
            Some(s),
        ),
{
    crate::texto::lema_recortado(e);
    crate::texto::lema_sin_espacios_en_los_bordes(recortado(e));
}

/// Valida el sitio web opcional.
fn validar_sitio(entrada: &str) -> (r: Result<Option<String>, &'static str>)
    ensures
        match sitio_spec(entrada@) {
            Ok(None) => r matches Ok(None),
            Ok(Some(s)) => r matches Ok(Some(x)) && x@ == s,
            Err(c) => r == Err::<Option<String>, &'static str>(c),
        },
{
    let s = recortar_texto(entrada);
    if s.len() == 0 {
        return Ok(None);
    }
    if s.len() > MAX_SITIO {
        return Err("empresa.error.sitioLargo");
    }
    if tiene_espacio(s.as_slice()) {
        return Err("empresa.error.sitioInvalido");
    }
    let https = caracteres("https://");
    let http = caracteres("http://");
    proof {
        reveal_strlit("https://");
        reveal_strlit("http://");
    }
    let resto = if empieza_con(s.as_slice(), https.as_slice()) {
        trozo(&s, 8, s.len())
    } else if empieza_con(s.as_slice(), http.as_slice()) {
        trozo(&s, 7, s.len())
    } else {
        return Err("empresa.error.sitioSinEsquema");
    };
    if !contiene(resto.as_slice(), '.') || (resto.len() > 0 && (resto[0] == '.' || resto[0]
        == '/')) {
        return Err("empresa.error.sitioInvalido");
    }
    Ok(Some(a_texto(s.as_slice())))
}

} // verus!
