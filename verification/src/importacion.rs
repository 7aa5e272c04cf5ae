//! Mapeo de columnas de un archivo importado.
//!
//! Este módulo **no lee archivos**: recibe encabezados y filas ya extraídos y
//! decide qué significa cada columna.
//!
//! El mapeo se adivina pero no se impone: la propuesta es **una propuesta**, la
//! pantalla la enseña y se puede cambiar antes de importar. Adivinar mal no es
//! simétrico —una columna de teléfonos de oficina tomada por móviles manda
//! WhatsApp a números que no lo tienen—, así que lo que no se reconoce se
//! ignora en vez de arriesgar.

use vstd::prelude::*;

use crate::canal::Canal;
use crate::contacto::{
    BorradorDeCanal, BorradorDeContacto, MAX_CANALES, ModeloDeBorradorDeCanal,
    ModeloDeBorradorDeContacto,
};
use crate::error::CoreError;
use crate::texto::{
    a_minusculas, a_texto, alfanumerico, buscar, caracteres, es_alfanumerico, iguales,
    empieza_con, minusculas, primera_posicion, recortado, recortar, recortar_texto, texto_igual,
    trozo,
};

verus! {

/// Cuántas filas se admiten en un archivo.
pub const MAX_FILAS: usize = 500_000;

/// Cuántas columnas se miran.
pub const MAX_COLUMNAS: usize = 64;

/// Qué es cada columna del archivo.
#[derive(Debug, Clone, Copy, PartialEq, Eq, Hash, Structural)]
pub enum CampoImportable {
    Nombre,
    Apellido,
    /// Nombre y apellido en una sola columna. Se parte por el primer espacio.
    NombreCompleto,
    Empresa,
    Correo,
    WhatsApp,
    /// No se importa. Es el destino de todo lo que no se reconoce.
    Ignorar,
}

pub open spec fn clave_de_campo(c: CampoImportable) -> &'static str {
    match c {
        CampoImportable::Nombre => "importacion.campo.nombre",
        CampoImportable::Apellido => "importacion.campo.apellido",
        CampoImportable::NombreCompleto => "importacion.campo.nombreCompleto",
        CampoImportable::Empresa => "importacion.campo.empresa",
        CampoImportable::Correo => "importacion.campo.correo",
        CampoImportable::WhatsApp => "importacion.campo.whatsapp",
        CampoImportable::Ignorar => "importacion.campo.ignorar",
    }
}

impl CampoImportable {
    /// Todos, en el orden en que se ofrecen.
    pub const TODOS: [CampoImportable; 7] = [
        CampoImportable::Nombre,
        CampoImportable::Apellido,
        CampoImportable::NombreCompleto,
        CampoImportable::Empresa,
        CampoImportable::Correo,
        CampoImportable::WhatsApp,
        CampoImportable::Ignorar,
    ];

    /// Clave de i18n del nombre del campo, para el desplegable de la pantalla.
    pub fn clave_i18n(&self) -> (r: &'static str)
        ensures
            r == clave_de_campo(*self),
    {
        match self {
            CampoImportable::Nombre => "importacion.campo.nombre",
            CampoImportable::Apellido => "importacion.campo.apellido",
            CampoImportable::NombreCompleto => "importacion.campo.nombreCompleto",
            CampoImportable::Empresa => "importacion.campo.empresa",
            CampoImportable::Correo => "importacion.campo.correo",
            CampoImportable::WhatsApp => "importacion.campo.whatsapp",
            CampoImportable::Ignorar => "importacion.campo.ignorar",
        }
    }
}

// ─────────────────────────────────────────────────────────────────────────
// El origen de la lista
// ─────────────────────────────────────────────────────────────────────────

/// De dónde salió una lista importada.
///
/// Lista cerrada, y con «otro» dentro: sin él, quien no encuentre su caso
/// elegiría el que más se le parezca, y un «clientes existentes» falso es peor
/// prueba que un «otro» honesto.
#[derive(Debug, Clone, Copy, PartialEq, Eq, Hash, Structural)]
pub enum OrigenDeLaLista {
    /// Se dieron de alta ellos mismos en un formulario de la empresa.
    FormularioPropio,
    /// Ya son clientes: hay relación comercial previa.
    ClientesExistentes,
    /// Dejaron sus datos en un evento, una feria o un stand.
    EventoOFeria,
    /// Salieron de un directorio público.
    DirectorioPublico,
    Otro,
}

/// Cómo se guarda cada origen en la base.
pub open spec fn texto_de_origen(o: OrigenDeLaLista) -> &'static str {
    match o {
        OrigenDeLaLista::FormularioPropio => "formulario_propio",
        OrigenDeLaLista::ClientesExistentes => "clientes_existentes",
        OrigenDeLaLista::EventoOFeria => "evento_o_feria",
        OrigenDeLaLista::DirectorioPublico => "directorio_publico",
        OrigenDeLaLista::Otro => "otro",
    }
}

pub open spec fn clave_de_origen(o: OrigenDeLaLista) -> &'static str {
    match o {
        OrigenDeLaLista::FormularioPropio => "importacion.origen.formularioPropio",
        OrigenDeLaLista::ClientesExistentes => "importacion.origen.clientesExistentes",
        OrigenDeLaLista::EventoOFeria => "importacion.origen.eventoOFeria",
        OrigenDeLaLista::DirectorioPublico => "importacion.origen.directorioPublico",
        OrigenDeLaLista::Otro => "importacion.origen.otro",
    }
}

impl OrigenDeLaLista {
    /// Los cinco, en el orden en que se ofrecen. `Otro` va el último: es la
    /// salida, no la primera opción.
    pub const TODOS: [OrigenDeLaLista; 5] = [
        OrigenDeLaLista::FormularioPropio,
        OrigenDeLaLista::ClientesExistentes,
        OrigenDeLaLista::EventoOFeria,
        OrigenDeLaLista::DirectorioPublico,
        OrigenDeLaLista::Otro,
    ];

    /// Cómo se guarda en la base.
    pub fn como_texto(&self) -> (r: &'static str)
        ensures
            r == texto_de_origen(*self),
    {
        match self {
            OrigenDeLaLista::FormularioPropio => "formulario_propio",
            OrigenDeLaLista::ClientesExistentes => "clientes_existentes",
            OrigenDeLaLista::EventoOFeria => "evento_o_feria",
            OrigenDeLaLista::DirectorioPublico => "directorio_publico",
            OrigenDeLaLista::Otro => "otro",
        }
    }

    /// Clave de i18n de su nombre visible.
    pub fn clave_i18n(&self) -> (r: &'static str)
        ensures
            r == clave_de_origen(*self),
    {
        match self {
            OrigenDeLaLista::FormularioPropio => "importacion.origen.formularioPropio",
            OrigenDeLaLista::ClientesExistentes => "importacion.origen.clientesExistentes",
            OrigenDeLaLista::EventoOFeria => "importacion.origen.eventoOFeria",
            OrigenDeLaLista::DirectorioPublico => "importacion.origen.directorioPublico",
            OrigenDeLaLista::Otro => "importacion.origen.otro",
        }
    }

    /// Lo lee de vuelta desde la base.
    ///
    /// Un origen que no reconocemos **no se repara en silencio**: caer en
    /// `Otro` cambiaría lo que el usuario declaró.
    pub fn desde_texto(texto: &str) -> (r: Result<Self, CoreError>)
        ensures
            match r {
                Ok(o) => texto_de_origen(o)@ == texto@,
                Err(e) => e == CoreError::OrigenDesconocido && forall|o: OrigenDeLaLista|
                    #[trigger] texto_de_origen(o)@ != texto@,
            },
    {
        let todos = OrigenDeLaLista::TODOS;
        let mut i: usize = 0;
        while i < 5
            invariant
                i <= 5,
                todos == OrigenDeLaLista::TODOS,
                forall|j: int| 0 <= j < i ==> texto_de_origen(#[trigger] todos[j])@ != texto@,
            decreases 5 - i,
        {
            let o = todos[i];
            if texto_igual(o.como_texto(), texto) {
                return Ok(o);
            }
            i = i + 1;
        }
        assert forall|o: OrigenDeLaLista| #[trigger] texto_de_origen(o)@ != texto@ by {
            match o {
                OrigenDeLaLista::FormularioPropio => assert(todos[0] == o),
                OrigenDeLaLista::ClientesExistentes => assert(todos[1] == o),
                OrigenDeLaLista::EventoOFeria => assert(todos[2] == o),
                OrigenDeLaLista::DirectorioPublico => assert(todos[3] == o),
                OrigenDeLaLista::Otro => assert(todos[4] == o),
            }
        }
        Err(CoreError::OrigenDesconocido)
    }
}

/// Cada origen se escribe distinto, así que leer lo escrito devuelve el mismo
/// origen.
pub proof fn ley_origen_ida_y_vuelta(a: OrigenDeLaLista, b: OrigenDeLaLista)
    ensures
        texto_de_origen(a)@ == texto_de_origen(b)@ <==> a == b,
{
    reveal_strlit("formulario_propio");
    reveal_strlit("clientes_existentes");
    reveal_strlit("evento_o_feria");
    reveal_strlit("directorio_publico");
    reveal_strlit("otro");
    if a != b {
        assert(texto_de_origen(a)@.len() != texto_de_origen(b)@.len());
    }
}

// ─────────────────────────────────────────────────────────────────────────
// Encabezados
// ─────────────────────────────────────────────────────────────────────────

/// Sinónimos de cada campo, ya normalizados. Es una **lista cerrada y escrita
/// a mano**, no una heurística de parecido: una distancia de edición aceptaría
/// «hombre» por «nombre».
pub const SINONIMOS_CORREO: [&'static str; 12] = [
    "correo",
    "correoelectronico",
    "correos",
    "email",
    "emails",
    "mail",
    "emailaddress",
    "direccion",
    "direccioncorreo",
    "correodecontacto",
    "correoempresa",
    "e",
];

pub const SINONIMOS_WHATSAPP: [&'static str; 10] = [
    "whatsapp",
    "wa",
    "movil",
    "celular",
    "cel",
    "telefonomovil",
    "telefonocelular",
    "numerowhatsapp",
    "numero",
    "movilcontacto",
];

pub const SINONIMOS_NOMBRE_COMPLETO: [&'static str; 8] = [
    "nombrecompleto",
    "nombreyapellido",
    "nombreyapellidos",
    "nombreapellidos",
    "contacto",
    "nombredelcontacto",
    "fullname",
    "name",
];

pub const SINONIMOS_NOMBRE: [&'static str; 5] = [
    "nombre",
    "nombres",
    "nombredepila",
    "firstname",
    "primernombre",
];

pub const SINONIMOS_APELLIDO: [&'static str; 5] = [
    "apellido",
    "apellidos",
    "apellidopaterno",
    "lastname",
    "surname",
];

pub const SINONIMOS_EMPRESA: [&'static str; 7] = [
    "empresa",
    "compania",
    "company",
    "organizacion",
    "razonsocial",
    "negocio",
    "cliente",
];

/// Los sinónimos de un campo.
pub open spec fn sinonimos(c: CampoImportable) -> Seq<&'static str> {
    match c {
        CampoImportable::Correo => SINONIMOS_CORREO@,
        CampoImportable::WhatsApp => SINONIMOS_WHATSAPP@,
        CampoImportable::NombreCompleto => SINONIMOS_NOMBRE_COMPLETO@,
        CampoImportable::Nombre => SINONIMOS_NOMBRE@,
        CampoImportable::Apellido => SINONIMOS_APELLIDO@,
        CampoImportable::Empresa => SINONIMOS_EMPRESA@,
        CampoImportable::Ignorar => seq![],
    }
}

/// ¿Es `n` exactamente uno de la lista?
pub open spec fn esta_en(lista: Seq<&'static str>, n: Seq<char>) -> bool {
    exists|i: int| 0 <= i < lista.len() && (#[trigger] lista[i])@ == n
}

/// ¿Empieza `n` por uno de la lista de al menos cuatro bytes?
pub open spec fn empieza_por_alguno(lista: Seq<&'static str>, n: Seq<char>) -> bool {
    exists|i: int|
        0 <= i < lista.len() && (#[trigger] lista[i]).len() >= 4 && lista[i]@.is_prefix_of(n)
}

/// Cómo queda una letra de un encabezado: sin acento, tal cual si es letra o
/// número, o fuera. La `ñ` se conserva: «año» y «ano» no son la misma palabra.
pub open spec fn letra_de_encabezado(c: char) -> Option<char> {
    if c == 'á' || c == 'à' || c == 'ä' || c == 'â' {
        Some('a')
    } else if c == 'é' || c == 'è' || c == 'ë' || c == 'ê' {
        Some('e')
    } else if c == 'í' || c == 'ì' || c == 'ï' || c == 'î' {
        Some('i')
    } else if c == 'ó' || c == 'ò' || c == 'ö' || c == 'ô' {
        Some('o')
    } else if c == 'ú' || c == 'ù' || c == 'ü' || c == 'û' {
        Some('u')
    } else if alfanumerico(c) {
        Some(c)
    } else {
        None
    }
}

pub open spec fn filtrar_encabezado(s: Seq<char>) -> Seq<char>
    decreases s.len(),
{
    if s.len() == 0 {
        seq![]
    } else {
        match letra_de_encabezado(s.last()) {
            Some(c) => filtrar_encabezado(s.drop_last()).push(c),
            None => filtrar_encabezado(s.drop_last()),
        }
    }
}

/// La forma comparable de un encabezado: recortado, en minúsculas, sin
/// acentos y sólo con letras y números.
pub open spec fn encabezado_normalizado(e: Seq<char>) -> Seq<char> {
    filtrar_encabezado(minusculas(recortado(e)))
}

/// El campo que parece una columna por su encabezado ya normalizado.
///
/// Primero la coincidencia exacta y después el prefijo, recorriendo los
/// campos en este orden: correo, WhatsApp, nombre completo, nombre, apellido,
/// empresa. «Nombre completo» va antes que «nombre» porque el segundo es
/// prefijo del primero.
pub open spec fn campo_adivinado(n: Seq<char>) -> CampoImportable {
    if n.len() == 0 {
        CampoImportable::Ignorar
    } else if esta_en(sinonimos(CampoImportable::Correo), n) {
        CampoImportable::Correo
    } else if esta_en(sinonimos(CampoImportable::WhatsApp), n) {
        CampoImportable::WhatsApp
    } else if esta_en(sinonimos(CampoImportable::NombreCompleto), n) {
        CampoImportable::NombreCompleto
    } else if esta_en(sinonimos(CampoImportable::Nombre), n) {
        CampoImportable::Nombre
    } else if esta_en(sinonimos(CampoImportable::Apellido), n) {
        CampoImportable::Apellido
    } else if esta_en(sinonimos(CampoImportable::Empresa), n) {
        CampoImportable::Empresa
    } else if empieza_por_alguno(sinonimos(CampoImportable::Correo), n) {
        CampoImportable::Correo
    } else if empieza_por_alguno(sinonimos(CampoImportable::WhatsApp), n) {
        CampoImportable::WhatsApp
    } else if empieza_por_alguno(sinonimos(CampoImportable::NombreCompleto), n) {
        CampoImportable::NombreCompleto
    } else if empieza_por_alguno(sinonimos(CampoImportable::Nombre), n) {
        CampoImportable::Nombre
    } else if empieza_por_alguno(sinonimos(CampoImportable::Apellido), n) {
        CampoImportable::Apellido
    } else if empieza_por_alguno(sinonimos(CampoImportable::Empresa), n) {
        CampoImportable::Empresa
    } else {
        CampoImportable::Ignorar
    }
}

fn letra(c: char) -> (r: Option<char>)
    ensures
        r == letra_de_encabezado(c),
{
    if c == 'á' || c == 'à' || c == 'ä' || c == 'â' {
        Some('a')
    } else if c == 'é' || c == 'è' || c == 'ë' || c == 'ê' {
        Some('e')
    } else if c == 'í' || c == 'ì' || c == 'ï' || c == 'î' {
        Some('i')
    } else if c == 'ó' || c == 'ò' || c == 'ö' || c == 'ô' {
        Some('o')
    } else if c == 'ú' || c == 'ù' || c == 'ü' || c == 'û' {
        Some('u')
    } else if es_alfanumerico(c) {
        Some(c)
    } else {
        None
    }
}

/// Deja un encabezado en su forma comparable.
///
/// Es lo que hace que «Teléfono móvil», «TELEFONO MOVIL» y «telefono_movil»
/// acaben iguales.
pub fn normalizar_encabezado(texto: &str) -> (r: String)
    ensures
        r@ == encabezado_normalizado(texto@),
{
    let recortado_t = a_texto(recortar_texto(texto).as_slice());
    let minus = a_minusculas(recortado_t.as_str());
    let cs = caracteres(minus.as_str());
    let mut r: Vec<char> = Vec::new();
    let mut k: usize = 0;
    while k < cs.len()
        invariant
            k <= cs.len(),
            r@ == filtrar_encabezado(cs@.take(k as int)),
        decreases cs.len() - k,
    {
        assert(cs@.take(k + 1).drop_last() =~= cs@.take(k as int));
        match letra(cs[k]) {
            Some(c) => r.push(c),
            None => {},
        }
        k = k + 1;
    }
    assert(cs@.take(cs@.len() as int) =~= cs@);
    a_texto(r.as_slice())
}

fn es_uno_de(lista: &[&'static str], n: &Vec<char>) -> (r: bool)
    ensures
        r == esta_en(lista@, n@),
{
    let mut i: usize = 0;
    while i < lista.len()
        invariant
            i <= lista.len(),
            forall|j: int| 0 <= j < i ==> (#[trigger] lista@[j])@ != n@,
        decreases lista.len() - i,
    {
        let s = caracteres(lista[i]);
        if iguales(s.as_slice(), n.as_slice()) {
            assert(lista@[i as int]@ == n@);
            return true;
        }
        i = i + 1;
    }
    false
}

fn empieza_por_uno_de(lista: &[&'static str], n: &Vec<char>) -> (r: bool)
    ensures
        r == empieza_por_alguno(lista@, n@),
{
    let mut i: usize = 0;
    while i < lista.len()
        invariant
            i <= lista.len(),
            forall|j: int|
                0 <= j < i ==> !((#[trigger] lista@[j]).len() >= 4 && lista@[j]@.is_prefix_of(n@)),
        decreases lista.len() - i,
    {
        let s = lista[i];
        if s.len() >= 4 {
            let cs = caracteres(s);
            if empieza_con(n.as_slice(), cs.as_slice()) {
                assert(lista@[i as int].len() >= 4 && lista@[i as int]@.is_prefix_of(n@));
                return true;
            }
        }
        i = i + 1;
    }
    false
}

/// Qué campo parece ser una columna, por su encabezado.
///
/// Devuelve [`CampoImportable::Ignorar`] cuando no lo reconoce. **No se
/// arriesga**: una columna mal adivinada es peor que una que la persona tiene
/// que elegir, porque la primera no se ve y la segunda sí.
pub fn adivinar_campo(encabezado: &str) -> (r: CampoImportable)
    ensures
        r == campo_adivinado(encabezado_normalizado(encabezado@)),
{
    let n = normalizar_encabezado(encabezado);
    let nv = caracteres(n.as_str());
    if nv.len() == 0 {
        return CampoImportable::Ignorar;
    }
    if es_uno_de(SINONIMOS_CORREO.as_slice(), &nv) {
        return CampoImportable::Correo;
    }
    if es_uno_de(SINONIMOS_WHATSAPP.as_slice(), &nv) {
        return CampoImportable::WhatsApp;
    }
    if es_uno_de(SINONIMOS_NOMBRE_COMPLETO.as_slice(), &nv) {
        return CampoImportable::NombreCompleto;
    }
    if es_uno_de(SINONIMOS_NOMBRE.as_slice(), &nv) {
        return CampoImportable::Nombre;
    }
    if es_uno_de(SINONIMOS_APELLIDO.as_slice(), &nv) {
        return CampoImportable::Apellido;
    }
    if es_uno_de(SINONIMOS_EMPRESA.as_slice(), &nv) {
        return CampoImportable::Empresa;
    }
    // Que el encabezado **empiece** por un sinónimo cubre «correo electronico
    // principal» sin aceptar cualquier cosa que lo mencione de pasada.
    if empieza_por_uno_de(SINONIMOS_CORREO.as_slice(), &nv) {
        return CampoImportable::Correo;
    }
    if empieza_por_uno_de(SINONIMOS_WHATSAPP.as_slice(), &nv) {
        return CampoImportable::WhatsApp;
    }
    if empieza_por_uno_de(SINONIMOS_NOMBRE_COMPLETO.as_slice(), &nv) {
        return CampoImportable::NombreCompleto;
    }
    if empieza_por_uno_de(SINONIMOS_NOMBRE.as_slice(), &nv) {
        return CampoImportable::Nombre;
    }
    if empieza_por_uno_de(SINONIMOS_APELLIDO.as_slice(), &nv) {
        return CampoImportable::Apellido;
    }
    if empieza_por_uno_de(SINONIMOS_EMPRESA.as_slice(), &nv) {
        return CampoImportable::Empresa;
    }
    CampoImportable::Ignorar
}

// ─────────────────────────────────────────────────────────────────────────
// La propuesta de mapeo
// ─────────────────────────────────────────────────────────────────────────

/// Los campos que identifican a la persona y no pueden repetirse.
pub open spec fn es_de_identidad(c: CampoImportable) -> bool {
    c is Nombre || c is Apellido || c is NombreCompleto || c is Empresa
}

/// Lo adivinado para cada una de las primeras columnas.
pub open spec fn adivinados(encabezados: Seq<String>) -> Seq<CampoImportable> {
    let n = if encabezados.len() < MAX_COLUMNAS {
        encabezados.len()
    } else {
        MAX_COLUMNAS as nat
    };
    Seq::new(n, |k: int| campo_adivinado(encabezado_normalizado(encabezados[k]@)))
}

/// La propuesta: lo adivinado, salvo que un campo de identidad repetido se
/// queda en su primera columna y las demás pasan a ignorarse.
pub open spec fn propuesta(encabezados: Seq<String>) -> Seq<CampoImportable> {
    let a = adivinados(encabezados);
    Seq::new(
        a.len(),
        |k: int|
            if es_de_identidad(a[k]) && exists|j: int| 0 <= j < k && a[j] == a[k] {
                CampoImportable::Ignorar
            } else {
                a[k]
            },
    )
}

/// El mapeo propuesto para un archivo: un campo por columna.
///
/// Se devuelve completo —incluidas las columnas que se ignoran— para que la
/// pantalla pueda enseñarlas todas. El correo y el WhatsApp **sí** pueden
/// repetirse: es lo normal en una tabla con «Correo 1» y «Correo 2».
pub fn proponer_mapeo(encabezados: &[String]) -> (r: Vec<CampoImportable>)
    ensures
        r@ == propuesta(encabezados@),
{
    let ghost a = adivinados(encabezados@);
    let n = if encabezados.len() < MAX_COLUMNAS {
        encabezados.len()
    } else {
        MAX_COLUMNAS
    };
    let mut adiv: Vec<CampoImportable> = Vec::new();
    let mut k: usize = 0;
    while k < n
        invariant
            k <= n,
            n == a.len(),
            n <= encabezados.len(),
            a == adivinados(encabezados@),
            adiv@ == a.take(k as int),
        decreases n - k,
    {
        let c = adivinar_campo(encabezados[k].as_str());
        adiv.push(c);
        assert(adiv@ =~= a.take(k + 1));
        k = k + 1;
    }
    assert(adiv@ =~= a);
    let mut r: Vec<CampoImportable> = Vec::new();
    let mut k: usize = 0;
    while k < n
        invariant
            k <= n == a.len() == adiv@.len(),
            adiv@ == a,
            r@ == propuesta(encabezados@).take(k as int),
            a == adivinados(encabezados@),
        decreases n - k,
    {
        let c = adiv[k];
        let identidad = match c {
            CampoImportable::Nombre | CampoImportable::Apellido | CampoImportable::NombreCompleto
            | CampoImportable::Empresa => true,
            _ => false,
        };
        let mut visto = false;
        let mut j: usize = 0;
        while j < k
            invariant
                j <= k < n == adiv@.len(),
                adiv@ == a,
                c == a[k as int],
                visto <==> exists|x: int| 0 <= x < j && a[x] == c,
            decreases k - j,
        {
            if adiv[j] == c {
                visto = true;
            }
            j = j + 1;
        }
        if identidad && visto {
            r.push(CampoImportable::Ignorar);
        } else {
            r.push(c);
        }
        assert(r@ =~= propuesta(encabezados@).take(k + 1));
        k = k + 1;
    }
    assert(r@ =~= propuesta(encabezados@));
    r
}

/// Un campo de identidad sale como mucho una vez en la propuesta, y ninguna
/// columna desaparece de ella: salen todas hasta el tope.
pub proof fn ley_la_identidad_no_se_repite(encabezados: Seq<String>)
    ensures
        propuesta(encabezados).len() == if encabezados.len() < MAX_COLUMNAS {
            encabezados.len()
        } else {
            MAX_COLUMNAS as nat
        },
        forall|i: int, j: int|
            0 <= i < j < propuesta(encabezados).len() && es_de_identidad(
                #[trigger] propuesta(encabezados)[i],
            ) ==> propuesta(encabezados)[i] != #[trigger] propuesta(encabezados)[j],
{
    let a = adivinados(encabezados);
    let p = propuesta(encabezados);
    assert forall|i: int, j: int|
        0 <= i < j < p.len() && es_de_identidad(#[trigger] p[i]) implies p[i] != #[trigger] p[j] by {
        if p[i] == p[j] {
            assert(p[i] == a[i]);
            assert(a[j] == a[i]);
            assert(exists|x: int| 0 <= x < j && a[x] == a[j]);
        }
    }
}

// ─────────────────────────────────────────────────────────────────────────
// De fila a borrador
// ─────────────────────────────────────────────────────────────────────────

/// Por qué una fila del archivo no se pudo convertir en contacto.
#[derive(Debug, Clone, Copy, PartialEq, Eq, Structural)]
pub enum MotivoDeRechazo {
    /// No trae ni correo ni móvil: no hay a quién escribir.
    SinCanales,
    /// Trae más canales de los que admite un contacto.
    DemasiadosCanales,
}

pub open spec fn clave_de_rechazo(m: MotivoDeRechazo) -> &'static str {
    match m {
        MotivoDeRechazo::SinCanales => "importacion.rechazo.sinCanales",
        MotivoDeRechazo::DemasiadosCanales => "importacion.rechazo.demasiadosCanales",
    }
}

impl MotivoDeRechazo {
    pub fn clave_i18n(&self) -> (r: &'static str)
        ensures
            r == clave_de_rechazo(*self),
    {
        match self {
            MotivoDeRechazo::SinCanales => "importacion.rechazo.sinCanales",
            MotivoDeRechazo::DemasiadosCanales => "importacion.rechazo.demasiadosCanales",
        }
    }
}

/// Los canales de un borrador, como valores.
pub open spec fn modelos_de_borradores(v: Seq<BorradorDeCanal>) -> Seq<ModeloDeBorradorDeCanal> {
    v.map_values(|c: BorradorDeCanal| c@)
}

/// La celda `i`, recortada; vacía si la fila es más corta.
pub open spec fn celda(fila: Seq<String>, i: int) -> Seq<char> {
    if 0 <= i < fila.len() {
        recortado(fila[i]@)
    } else {
        seq![]
    }
}

/// ¿Hay ya un canal de ese tipo?
pub open spec fn hay_canal_de(v: Seq<ModeloDeBorradorDeCanal>, t: Canal) -> bool {
    exists|j: int| 0 <= j < v.len() && (#[trigger] v[j]).canal == t
}

/// Un nombre completo partido por el **primer** espacio.
pub open spec fn partir_nombre(c: Seq<char>) -> (Seq<char>, Seq<char>) {
    match primera_posicion(c, ' ') {
        Some(p) => (c.take(p), recortado(c.skip(p + 1))),
        None => (c, seq![]),
    }
}

/// Las primeras `n` columnas de una fila, cada celda en su sitio.
pub open spec fn repartir(mapeo: Seq<CampoImportable>, fila: Seq<String>, n: nat) -> ModeloDeBorradorDeContacto
    decreases n,
{
    if n == 0 || n > mapeo.len() {
        ModeloDeBorradorDeContacto { nombre: seq![], apellido: seq![], empresa: seq![], canales: seq![] }
    } else {
        let f = repartir(mapeo, fila, (n - 1) as nat);
        let c = celda(fila, n - 1);
        if c.len() == 0 {
            f
        } else {
            match mapeo[n - 1] {
                CampoImportable::Nombre => ModeloDeBorradorDeContacto { nombre: c, ..f },
                CampoImportable::Apellido => ModeloDeBorradorDeContacto { apellido: c, ..f },
                CampoImportable::Empresa => ModeloDeBorradorDeContacto { empresa: c, ..f },
                CampoImportable::NombreCompleto => ModeloDeBorradorDeContacto {
                    nombre: partir_nombre(c).0,
                    apellido: partir_nombre(c).1,
                    ..f
                },
                CampoImportable::Correo => ModeloDeBorradorDeContacto {
                    canales: f.canales.push(
                        ModeloDeBorradorDeCanal {
                            canal: Canal::Correo,
                            valor: c,
                            principal: !hay_canal_de(f.canales, Canal::Correo),
                        },
                    ),
                    ..f
                },
                CampoImportable::WhatsApp => ModeloDeBorradorDeContacto {
                    canales: f.canales.push(
                        ModeloDeBorradorDeCanal {
                            canal: Canal::WhatsApp,
                            valor: c,
                            principal: !hay_canal_de(f.canales, Canal::WhatsApp),
                        },
                    ),
                    ..f
                },
                CampoImportable::Ignorar => f,
            }
        }
    }
}

fn hay_canal(canales: &Vec<BorradorDeCanal>, t: Canal) -> (r: bool)
    ensures
        r == hay_canal_de(modelos_de_borradores(canales@), t),
{
    let ghost m = modelos_de_borradores(canales@);
    let mut j: usize = 0;
    while j < canales.len()
        invariant
            j <= canales.len(),
            m == modelos_de_borradores(canales@),
            forall|x: int| 0 <= x < j ==> (#[trigger] m[x]).canal != t,
        decreases canales.len() - j,
    {
        if canales[j].canal == t {
            assert(m[j as int].canal == t);
            return true;
        }
        j = j + 1;
    }
    false
}

/// Convierte una fila del archivo en un borrador de contacto.
///
/// **No valida las direcciones**: eso es de la validación del contacto. Aquí
/// sólo se reparte cada celda en su sitio. Una fila más corta que los
/// encabezados no es un error: las hojas de cálculo recortan las celdas vacías
/// del final. El primero de cada tipo que aparece es el principal.
pub fn fila_a_borrador(mapeo: &[CampoImportable], fila: &[String]) -> (r: Result<
    BorradorDeContacto,
    MotivoDeRechazo,
>)
    ensures
        ({
            let f = repartir(mapeo@, fila@, mapeo@.len() as nat);
            &&& f.canales.len() == 0 ==> r == Err::<BorradorDeContacto, MotivoDeRechazo>(
                MotivoDeRechazo::SinCanales,
            )
            &&& f.canales.len() > MAX_CANALES ==> r == Err::<BorradorDeContacto, MotivoDeRechazo>(
                MotivoDeRechazo::DemasiadosCanales,
            )
            &&& 0 < f.canales.len() <= MAX_CANALES ==> (r matches Ok(b) && b@ == f)
        }),
{
    let mut nombre: Vec<char> = Vec::new();
    let mut apellido: Vec<char> = Vec::new();
    let mut empresa: Vec<char> = Vec::new();
    let mut canales: Vec<BorradorDeCanal> = Vec::new();
    let mut i: usize = 0;
    while i < mapeo.len()
        invariant
            i <= mapeo.len(),
            ({
                let f = repartir(mapeo@, fila@, i as nat);
                &&& nombre@ == f.nombre
                &&& apellido@ == f.apellido
                &&& empresa@ == f.empresa
                &&& modelos_de_borradores(canales@) == f.canales
            }),
        decreases mapeo.len() - i,
    {
        let c: Vec<char> = if i < fila.len() {
            recortar_texto(fila[i].as_str())
        } else {
            Vec::new()
        };
        assert(c@ == celda(fila@, i as int));
        if c.len() > 0 {
            match mapeo[i] {
                CampoImportable::Nombre => {
                    nombre = c;
                },
                CampoImportable::Apellido => {
                    apellido = c;
                },
                CampoImportable::Empresa => {
                    empresa = c;
                },
                CampoImportable::NombreCompleto => {
                    // Por el **primer** espacio: en México lo habitual son dos
                    // apellidos, y «Ana» + «María Ruiz Pérez» parte mejor.
                    match buscar(c.as_slice(), ' ') {
                        Some(p) => {
                            let resto = trozo(&c, p + 1, c.len());
                            nombre = trozo(&c, 0, p);
                            apellido = recortar(&resto);
                            proof {
                                assert(c@.take(p as int) =~= c@.subrange(0, p as int));
                                assert(c@.skip(p + 1) =~= c@.subrange(p + 1, c@.len() as int));
                            }
                        },
                        None => {
                            nombre = c;
                            apellido = Vec::new();
                            assert(apellido@ =~= seq![]);
                        },
                    }
                },
                CampoImportable::Correo | CampoImportable::WhatsApp => {
                    let canal = if mapeo[i] == CampoImportable::Correo {
                        Canal::Correo
                    } else {
                        Canal::WhatsApp
                    };
                    let principal = !hay_canal(&canales, canal);
                    let nuevo = BorradorDeCanal { canal, valor: a_texto(c.as_slice()), principal };
                    let ghost previo = canales@;
                    canales.push(nuevo);
                    assert(modelos_de_borradores(canales@) =~= modelos_de_borradores(previo).push(
                        nuevo@,
                    ));
                },
                CampoImportable::Ignorar => {},
            }
        }
        i = i + 1;
    }
    if canales.len() == 0 {
        return Err(MotivoDeRechazo::SinCanales);
    }
    if canales.len() > MAX_CANALES {
        return Err(MotivoDeRechazo::DemasiadosCanales);
    }
    let ghost m = modelos_de_borradores(canales@);
    let b = BorradorDeContacto {
        nombre: a_texto(nombre.as_slice()),
        apellido: a_texto(apellido.as_slice()),
        empresa: a_texto(empresa.as_slice()),
        canales,
    };
    assert(b@.canales =~= m);
    Ok(b)
}

/// Cada canal es principal si y sólo si es el primero de su tipo.
pub open spec fn principal_es_el_primero(v: Seq<ModeloDeBorradorDeCanal>) -> bool {
    forall|k: int|
        0 <= k < v.len() ==> ((#[trigger] v[k]).principal <==> forall|j: int|
            0 <= j < k ==> v[j].canal != v[k].canal)
}

#[verifier::spinoff_prover]
proof fn lema_principal_al_anadir(v: Seq<ModeloDeBorradorDeCanal>, x: ModeloDeBorradorDeCanal)
    requires
        principal_es_el_primero(v),
        x.principal == !hay_canal_de(v, x.canal),
    ensures
        principal_es_el_primero(v.push(x)),
{
    let w = v.push(x);
    assert forall|k: int| 0 <= k < w.len() implies ((#[trigger] w[k]).principal <==> forall|j: int|
        0 <= j < k ==> w[j].canal != w[k].canal) by {
        if k < v.len() {
            assert(w[k] == v[k]);
            assert(v[k].principal <==> forall|j: int| 0 <= j < k ==> v[j].canal != v[k].canal);
            assert forall|j: int| 0 <= j < k implies w[j] == v[j] by {}
        } else {
            assert(w[k] == x);
            if x.principal {
                assert forall|j: int| 0 <= j < k implies w[j].canal != x.canal by {
                    assert(w[j] == v[j]);
                }
            } else {
                let j = choose|j: int| 0 <= j < v.len() && (#[trigger] v[j]).canal == x.canal;
                assert(w[j] == v[j]);
            }
        }
    }
}

proof fn lema_repartir_paso(mapeo: Seq<CampoImportable>, fila: Seq<String>, n: nat)
    requires
        0 < n <= mapeo.len(),
    ensures
        ({
            let f = repartir(mapeo, fila, (n - 1) as nat).canales;
            let g = repartir(mapeo, fila, n).canales;
            ||| g == f
            ||| (g == f.push(g.last()) && g.last().principal == !hay_canal_de(f, g.last().canal))
        }),
{
}

/// En una fila, el principal de cada tipo es el primero de ese tipo, y sólo
/// él.
pub proof fn ley_el_primero_de_cada_tipo_es_el_principal(
    mapeo: Seq<CampoImportable>,
    fila: Seq<String>,
    n: nat,
)
    ensures
        principal_es_el_primero(repartir(mapeo, fila, n).canales),
    decreases n,
{
    if n > 0 && n <= mapeo.len() {
        ley_el_primero_de_cada_tipo_es_el_principal(mapeo, fila, (n - 1) as nat);
        lema_repartir_paso(mapeo, fila, n);
        let f = repartir(mapeo, fila, (n - 1) as nat).canales;
        let g = repartir(mapeo, fila, n).canales;
        if g != f {
            lema_principal_al_anadir(f, g.last());
        }
    }
}


/// El canal al que va una columna, si va a alguno.
pub open spec fn canal_de_campo(c: CampoImportable) -> Option<Canal> {
    match c {
        CampoImportable::Correo => Some(Canal::Correo),
        CampoImportable::WhatsApp => Some(Canal::WhatsApp),
        _ => None,
    }
}

/// ¿Aporta la columna `i` un canal a la fila?
pub open spec fn aporta_canal(mapeo: Seq<CampoImportable>, fila: Seq<String>) -> spec_fn(int) -> bool {
    |i: int| 0 <= i < mapeo.len() && canal_de_campo(mapeo[i]) is Some && celda(fila, i).len() > 0
}

/// Las columnas, de las `n` primeras, que aportan un canal, en su orden.
pub open spec fn columnas_de_canal(mapeo: Seq<CampoImportable>, fila: Seq<String>, n: nat) -> Seq<int> {
    Seq::new(n, |i: int| i).filter(aporta_canal(mapeo, fila))
}

proof fn lema_columnas_paso(mapeo: Seq<CampoImportable>, fila: Seq<String>, n: nat)
    requires
        n > 0,
    ensures
        columnas_de_canal(mapeo, fila, n) == if aporta_canal(mapeo, fila)(n - 1) {
            columnas_de_canal(mapeo, fila, (n - 1) as nat).push(n - 1)
        } else {
            columnas_de_canal(mapeo, fila, (n - 1) as nat)
        },
{
    reveal(Seq::filter);
    assert(Seq::new(n, |i: int| i).drop_last() =~= Seq::new((n - 1) as nat, |i: int| i));
}

proof fn lema_canales_paso(mapeo: Seq<CampoImportable>, fila: Seq<String>, n: nat)
    requires
        0 < n <= mapeo.len(),
    ensures
        ({
            let v0 = repartir(mapeo, fila, (n - 1) as nat).canales;
            let v = repartir(mapeo, fila, n).canales;
            &&& aporta_canal(mapeo, fila)(n - 1) ==> v.len() == v0.len() + 1 && v.drop_last() == v0
                && Some(v.last().canal) == canal_de_campo(mapeo[n - 1]) && v.last().valor == celda(
                fila,
                n - 1,
            )
            &&& !aporta_canal(mapeo, fila)(n - 1) ==> v == v0
        }),
{
    let v0 = repartir(mapeo, fila, (n - 1) as nat).canales;
    let v = repartir(mapeo, fila, n).canales;
    if aporta_canal(mapeo, fila)(n - 1) {
        assert(v.drop_last() =~= v0);
    }
}

/// Un paso de la correspondencia entre canales y columnas, sin mirar cómo se
/// reparte la fila.
proof fn lema_canales_y_columnas(
    mapeo: Seq<CampoImportable>,
    fila: Seq<String>,
    v0: Seq<ModeloDeBorradorDeCanal>,
    c0: Seq<int>,
    v: Seq<ModeloDeBorradorDeCanal>,
    cols: Seq<int>,
    n: nat,
)
    requires
        v0.len() == c0.len(),
        forall|k: int|
            0 <= k < v0.len() ==> 0 <= #[trigger] c0[k] < n - 1 && Some((#[trigger] v0[k]).canal)
                == canal_de_campo(mapeo[c0[k]]) && v0[k].valor == celda(fila, c0[k]),
        v.len() == v0.len() + 1,
        v.drop_last() == v0,
        cols == c0.push(n - 1),
        0 < n <= mapeo.len(),
        Some(v.last().canal) == canal_de_campo(mapeo[n - 1]),
        v.last().valor == celda(fila, n - 1),
    ensures
        forall|k: int|
            0 <= k < v.len() ==> 0 <= #[trigger] cols[k] < n && Some((#[trigger] v[k]).canal)
                == canal_de_campo(mapeo[cols[k]]) && v[k].valor == celda(fila, cols[k]),
{
    assert forall|k: int| 0 <= k < v.len() implies 0 <= #[trigger] cols[k] < n && Some(
        (#[trigger] v[k]).canal,
    ) == canal_de_campo(mapeo[cols[k]]) && v[k].valor == celda(fila, cols[k]) by {
        if k < v0.len() {
            assert(v[k] == v.drop_last()[k]);
            assert(v[k] == v0[k]);
            assert(cols[k] == c0[k]);
        } else {
            assert(v[k] == v.last());
            assert(cols[k] == n - 1);
        }
    }
}

/// **Los canales de una fila, dichos directamente**: uno por cada columna de
/// correo o de WhatsApp con algo escrito, en el orden de las columnas, con el
/// canal de su columna y la celda recortada; las columnas ignoradas y las
/// celdas de más no aportan nada. El principal de cada tipo es el primero de
/// ese tipo ([`ley_el_primero_de_cada_tipo_es_el_principal`]). Con ninguno la
/// fila se rechaza por no tener canales, y con más de diez por tener
/// demasiados.
pub proof fn ley_los_canales_de_una_fila(mapeo: Seq<CampoImportable>, fila: Seq<String>, n: nat)
    requires
        n <= mapeo.len(),
    ensures
        ({
            let v = repartir(mapeo, fila, n).canales;
            let cols = columnas_de_canal(mapeo, fila, n);
            &&& v.len() == cols.len()
            &&& forall|k: int|
                0 <= k < v.len() ==> 0 <= #[trigger] cols[k] < n && Some((#[trigger] v[k]).canal)
                    == canal_de_campo(mapeo[cols[k]]) && v[k].valor == celda(fila, cols[k])
        }),
    decreases n,
{
    if n == 0 {
        reveal(Seq::filter);
    } else {
        ley_los_canales_de_una_fila(mapeo, fila, (n - 1) as nat);
        lema_columnas_paso(mapeo, fila, n);
        lema_canales_paso(mapeo, fila, n);
        let v0 = repartir(mapeo, fila, (n - 1) as nat).canales;
        let c0 = columnas_de_canal(mapeo, fila, (n - 1) as nat);
        let v = repartir(mapeo, fila, n).canales;
        let cols = columnas_de_canal(mapeo, fila, n);
        if aporta_canal(mapeo, fila)(n - 1) {
            lema_canales_y_columnas(mapeo, fila, v0, c0, v, cols, n);
        }
    }
}

/// **Lo que da una fila.** Sus canales son, en el orden de las columnas, uno
/// por cada columna de correo o de WhatsApp con algo escrito: el canal de su
/// columna, la celda recortada, y principal exactamente el primero de cada
/// tipo. Las columnas de más, las ignoradas y las vacías no aportan nada. Con
/// ninguno, [`fila_a_borrador`] rechaza la fila por no tener canales; con más
/// de diez, por tener demasiados; y si no, da el borrador con ellos.
pub proof fn ley_lo_que_da_una_fila(mapeo: Seq<CampoImportable>, fila: Seq<String>)
    ensures
        ({
            let v = repartir(mapeo, fila, mapeo.len()).canales;
            let cols = columnas_de_canal(mapeo, fila, mapeo.len());
            &&& v.len() == cols.len()
            &&& forall|k: int|
                0 <= k < v.len() ==> 0 <= #[trigger] cols[k] < mapeo.len() && Some(
                    (#[trigger] v[k]).canal,
                ) == canal_de_campo(mapeo[cols[k]]) && v[k].valor == celda(fila, cols[k]) && (
                v[k].principal <==> forall|j: int| 0 <= j < k ==> v[j].canal != v[k].canal)
        }),
{
    ley_los_canales_de_una_fila(mapeo, fila, mapeo.len());
    ley_el_primero_de_cada_tipo_es_el_principal(mapeo, fila, mapeo.len());
}

} // verus!
