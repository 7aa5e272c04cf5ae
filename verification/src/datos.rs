//! Las reglas de la capa de datos.
//!
//! La base es SQLite cifrado con SQLCipher, y hablar con ella es cosa de la
//! aplicación. Aquí está lo que la capa de datos **decide**: cómo se nombran
//! sus errores, cómo se escribe la clave para `PRAGMA key`, qué preferencias se
//! admiten, cuánto cabe en una página, cómo se lee de vuelta una fila y qué se
//! hace con lo que no pasa la validación del dominio.

use vstd::prelude::*;

use crate::canal::{Canal, texto_de_canal};
use crate::contacto::{CanalValidado, DatosDeContacto, ModeloDeCanal};
use crate::empresa::{BorradorDeEmpresa, DatosDeEmpresa, errores_de_empresa};
use crate::error::CoreError;
use crate::ids::{CompanyId, ContactId, ImportBatchId, uuid_leido};
use crate::importacion::OrigenDeLaLista;
use crate::texto::{
    a_texto, agregar_caracter, caracteres, copiar, decimal, decimal_spec, juntar, longitud_utf8,
    recortado, recortar_texto, supera_en_bytes, texto_igual, trozo,
};

verus! {

// ─────────────────────────────────────────────────────────────────────────
// Errores
// ─────────────────────────────────────────────────────────────────────────

/// Error al abrir, migrar o consultar la base de datos.
///
/// Ningún mensaje incluye la clave maestra ni rutas del sistema de archivos.
#[derive(Debug, Clone, PartialEq, Eq)]
#[non_exhaustive]
pub enum DbError {
    /// La clave no abre la base de datos. Nunca se ofrece «continuar sin
    /// cifrado».
    ClaveIncorrecta,
    /// La clave no tiene la longitud esperada.
    ClaveMalFormada { esperado: usize, recibido: usize },
    Migracion(String),
    /// Una fila almacenada ya no pasa la validación del dominio. **Se nombra
    /// en vez de repararse en silencio.**
    DatoInvalido { motivo: &'static str },
    /// Otro contacto de la misma empresa ya usa esa dirección. **Nombra la
    /// dirección en conflicto**: sin ella el usuario tendría que adivinar cuál
    /// de sus canales está repetido.
    DireccionEnUso { canal: &'static str, direccion: String },
    /// El contacto no existe en esta empresa, o ya fue borrado.
    ContactoNoExiste,
    /// Lo que dijo SQLite, como texto.
    Sqlite(String),
}

pub open spec fn clave_de_db(e: DbError) -> &'static str {
    match e {
        DbError::ClaveIncorrecta => "error.db.clave_incorrecta",
        DbError::ClaveMalFormada { .. } => "error.db.clave_mal_formada",
        DbError::Migracion(_) => "error.db.migracion",
        DbError::DatoInvalido { .. } => "error.db.dato_invalido",
        DbError::DireccionEnUso { .. } => "error.db.direccion_en_uso",
        DbError::ContactoNoExiste => "error.db.contacto_no_existe",
        DbError::Sqlite(_) => "error.db.sqlite",
    }
}

pub open spec fn mensaje_de_db(e: DbError) -> Seq<char> {
    match e {
        DbError::ClaveIncorrecta => "no se pudo descifrar la base de datos con la clave proporcionada"@,
        DbError::ClaveMalFormada { esperado, recibido } => "la clave maestra debe tener exactamente "@
            + decimal_spec(esperado as nat) + " bytes, tiene "@ + decimal_spec(recibido as nat),
        DbError::Migracion(m) => "fallo al migrar el esquema: "@ + m@,
        DbError::DatoInvalido { motivo } => "un dato almacenado no es válido: "@ + motivo@,
        DbError::DireccionEnUso { canal, direccion } => "la dirección "@ + direccion@
            + " ya está registrada en otro contacto ("@ + canal@ + ")"@,
        DbError::ContactoNoExiste => "el contacto no existe o ya fue borrado"@,
        DbError::Sqlite(m) => "error de SQLite: "@ + m@,
    }
}

impl DbError {
    /// Clave estable para que la interfaz traduzca el error con i18n.
    pub fn clave_i18n(&self) -> (r: &'static str)
        ensures
            r == clave_de_db(*self),
    {
        match self {
            DbError::ClaveIncorrecta => "error.db.clave_incorrecta",
            DbError::ClaveMalFormada { .. } => "error.db.clave_mal_formada",
            DbError::Migracion(_) => "error.db.migracion",
            DbError::DatoInvalido { .. } => "error.db.dato_invalido",
            DbError::DireccionEnUso { .. } => "error.db.direccion_en_uso",
            DbError::ContactoNoExiste => "error.db.contacto_no_existe",
            DbError::Sqlite(_) => "error.db.sqlite",
        }
    }

    /// El texto técnico del error.
    pub fn mensaje(&self) -> (r: String)
        ensures
            r@ == mensaje_de_db(*self),
    {
        match self {
            DbError::ClaveIncorrecta => copiar(
                "no se pudo descifrar la base de datos con la clave proporcionada",
            ),
            DbError::ClaveMalFormada { esperado, recibido } => {
                let a = juntar(
                    "la clave maestra debe tener exactamente ",
                    a_texto(decimal(*esperado).as_slice()).as_str(),
                );
                let b = juntar(a.as_str(), " bytes, tiene ");
                juntar(b.as_str(), a_texto(decimal(*recibido).as_slice()).as_str())
            },
            DbError::Migracion(m) => juntar("fallo al migrar el esquema: ", m.as_str()),
            DbError::DatoInvalido { motivo } => juntar("un dato almacenado no es válido: ", motivo),
            DbError::DireccionEnUso { canal, direccion } => {
                let a = juntar("la dirección ", direccion.as_str());
                let b = juntar(a.as_str(), " ya está registrada en otro contacto (");
                let c = juntar(b.as_str(), canal);
                juntar(c.as_str(), ")")
            },
            DbError::ContactoNoExiste => copiar("el contacto no existe o ya fue borrado"),
            DbError::Sqlite(m) => juntar("error de SQLite: ", m.as_str()),
        }
    }
}

// ─────────────────────────────────────────────────────────────────────────
// La clave maestra
// ─────────────────────────────────────────────────────────────────────────

/// Longitud de la clave maestra de SQLCipher: 256 bits.
pub const LONGITUD_CLAVE: usize = 32;

/// Lo que devolvió el llavero sirve como clave si mide exactamente
/// [`LONGITUD_CLAVE`] bytes.
pub fn comprobar_longitud_de_clave(recibido: usize) -> (r: Result<(), DbError>)
    ensures
        recibido == LONGITUD_CLAVE ==> r is Ok,
        recibido != LONGITUD_CLAVE ==> r == Err::<(), DbError>(
            DbError::ClaveMalFormada { esperado: LONGITUD_CLAVE, recibido },
        ),
{
    if recibido != LONGITUD_CLAVE {
        return Err(DbError::ClaveMalFormada { esperado: LONGITUD_CLAVE, recibido });
    }
    Ok(())
}

/// Qué significa un fallo al tocar la base recién abierta con su clave.
///
/// SQLCipher no falla al fijar la clave: falla al leer. Si el archivo deja de
/// parecer una base de datos, la clave no lo descifra; cualquier otro fallo
/// —un disco lleno, un permiso denegado— es del disco y se dice tal cual, para
/// no mandar a nadie a buscar un problema de credenciales que no existe.
pub fn fallo_al_verificar_la_clave(no_es_una_base: bool, detalle: String) -> (r: DbError)
    ensures
        no_es_una_base ==> r == DbError::ClaveIncorrecta,
        !no_es_una_base ==> r == DbError::Sqlite(detalle),
{
    if no_es_una_base {
        DbError::ClaveIncorrecta
    } else {
        DbError::Sqlite(detalle)
    }
}

/// El dígito hexadecimal en minúscula de un valor menor que 16.
pub open spec fn cifra_hex(d: u8) -> char {
    if d < 10 {
        (48 + d) as char
    } else {
        (87 + d) as char
    }
}

/// Los bytes en hexadecimal, dos dígitos por byte, el alto primero.
pub open spec fn hex_de_bytes(b: Seq<u8>) -> Seq<char>
    decreases b.len(),
{
    if b.len() == 0 {
        seq![]
    } else {
        hex_de_bytes(b.drop_last()).push(cifra_hex(b.last() / 16)).push(cifra_hex(b.last() % 16))
    }
}

/// El literal de `PRAGMA key`: `x'...'` con los bytes en hexadecimal, que
/// SQLCipher usa **directamente** como clave, sin derivarla de una frase.
pub open spec fn literal_de_clave(b: Seq<u8>) -> Seq<char> {
    "x'"@ + hex_de_bytes(b) + "'"@
}

fn cifra(d: u8) -> (c: char)
    requires
        d < 16,
    ensures
        c == cifra_hex(d),
{
    if d < 10 {
        (48 + d) as char
    } else {
        (87 + d) as char
    }
}

/// Escribe los bytes en hexadecimal al final de `salida`, carácter a
/// carácter.
pub(crate) fn escribir_hex(bytes: &[u8], salida: &mut String)
    ensures
        final(salida)@ == old(salida)@ + hex_de_bytes(bytes@),
{
    let ghost inicio = salida@;
    assert(salida@ =~= inicio + hex_de_bytes(bytes@.take(0)));
    let mut k: usize = 0;
    while k < bytes.len()
        invariant
            k <= bytes.len(),
            salida@ == inicio + hex_de_bytes(bytes@.take(k as int)),
        decreases bytes.len() - k,
    {
        let b = bytes[k];
        let alto = b >> 4;
        let bajo = b & 0x0F;
        assert(alto == b / 16 && bajo == b % 16) by (bit_vector)
            requires
                alto == b >> 4,
                bajo == b & 0x0F,
        ;
        assert(bytes@.take(k + 1).drop_last() =~= bytes@.take(k as int));
        agregar_caracter(salida, cifra(alto));
        agregar_caracter(salida, cifra(bajo));
        k = k + 1;
    }
    assert(bytes@.take(bytes.len() as int) =~= bytes@);
}

/// Escribe el literal de la clave **carácter a carácter** en `salida`, sin
/// dejar por el camino temporales con trozos de la clave que nadie limpia.
pub fn escribir_literal_de_clave(bytes: &[u8], salida: &mut String)
    ensures
        final(salida)@ == old(salida)@ + literal_de_clave(bytes@),
{
    let ghost inicio = salida@;
    agregar_caracter(salida, 'x');
    agregar_caracter(salida, '\'');
    escribir_hex(bytes, salida);
    agregar_caracter(salida, '\'');
    proof {
        reveal_strlit("x'");
        reveal_strlit("'");
        assert(salida@ =~= inicio + literal_de_clave(bytes@));
    }
}

// ─────────────────────────────────────────────────────────────────────────
// Preferencias de interfaz
// ─────────────────────────────────────────────────────────────────────────

/// Claves admitidas. **Lista cerrada**: una clave desconocida es un error
/// visible, no una fila huérfana que nadie vuelve a leer.
pub const CLAVES_DE_INTERFAZ: [&'static str; 2] = ["barra_lateral_plegada", "tema"];

/// Tope del valor, en bytes.
pub const MAX_VALOR: usize = 64;

/// ¿Está la clave en la lista cerrada?
pub open spec fn clave_admitida(clave: Seq<char>) -> bool {
    exists|i: int| 0 <= i < 2 && (#[trigger] CLAVES_DE_INTERFAZ[i])@ == clave
}

/// Exige que la clave sea de las admitidas.
pub fn exigir_clave(clave: &str) -> (r: Result<(), DbError>)
    ensures
        clave_admitida(clave@) ==> r is Ok,
        !clave_admitida(clave@) ==> r == Err::<(), DbError>(
            DbError::DatoInvalido { motivo: "preferencia de interfaz desconocida" },
        ),
{
    let claves = CLAVES_DE_INTERFAZ;
    let mut i: usize = 0;
    while i < 2
        invariant
            i <= 2,
            claves == CLAVES_DE_INTERFAZ,
            forall|j: int| 0 <= j < i ==> (#[trigger] claves[j])@ != clave@,
        decreases 2 - i,
    {
        if texto_igual(claves[i], clave) {
            assert((CLAVES_DE_INTERFAZ[i as int])@ == clave@);
            return Ok(());
        }
        i = i + 1;
    }
    Err(DbError::DatoInvalido { motivo: "preferencia de interfaz desconocida" })
}

/// Exige que la clave sea de las admitidas y que el valor no pase del tope:
/// sin tope, la frontera con la interfaz admitiría engordar la base con un
/// solo comando.
pub fn exigir_preferencia(clave: &str, valor: &str) -> (r: Result<(), DbError>)
    ensures
        !clave_admitida(clave@) ==> r == Err::<(), DbError>(
            DbError::DatoInvalido { motivo: "preferencia de interfaz desconocida" },
        ),
        clave_admitida(clave@) && longitud_utf8(valor@) > MAX_VALOR ==> r == Err::<(), DbError>(
            DbError::DatoInvalido { motivo: "el valor de la preferencia excede el tope" },
        ),
        clave_admitida(clave@) && longitud_utf8(valor@) <= MAX_VALOR ==> r is Ok,
{
    match exigir_clave(clave) {
        Ok(()) => {},
        Err(e) => {
            return Err(e);
        },
    }
    let v = caracteres(valor);
    if supera_en_bytes(v.as_slice(), MAX_VALOR) {
        return Err(DbError::DatoInvalido { motivo: "el valor de la preferencia excede el tope" });
    }
    Ok(())
}

// ─────────────────────────────────────────────────────────────────────────
// Contactos
// ─────────────────────────────────────────────────────────────────────────

/// Tope de una página de contactos.
pub const MAX_POR_PAGINA: u32 = 1_000;

/// Cuántas direcciones se preguntan por consulta: holgado por debajo del tope
/// de variables de cualquier SQLite razonable.
pub const POR_LOTE: usize = 400;

/// Largo máximo, en caracteres, del nombre de archivo que se guarda.
pub const MAX_NOMBRE_DE_ARCHIVO: usize = 255;

/// El tamaño de página, dentro de `1..=MAX_POR_PAGINA`. Pedir una página
/// desmesurada se recorta en vez de fallar.
pub fn tamano_de_pagina(tamano: u32) -> (r: u32)
    ensures
        r == if tamano < 1 {
            1
        } else if tamano > MAX_POR_PAGINA {
            MAX_POR_PAGINA
        } else {
            tamano
        },
{
    if tamano < 1 {
        1
    } else if tamano > MAX_POR_PAGINA {
        MAX_POR_PAGINA
    } else {
        tamano
    }
}

/// Recorta un nombre de archivo para guardarlo: un nombre de 4 000
/// caracteres no aporta nada.
pub fn recortar_nombre_de_archivo(nombre: &str) -> (r: String)
    ensures
        r@ == nombre@.take(
            if nombre@.len() < MAX_NOMBRE_DE_ARCHIVO {
                nombre@.len() as int
            } else {
                MAX_NOMBRE_DE_ARCHIVO as int
            },
        ),
{
    let v = caracteres(nombre);
    let n = if v.len() < MAX_NOMBRE_DE_ARCHIVO {
        v.len()
    } else {
        MAX_NOMBRE_DE_ARCHIVO
    };
    let r = trozo(&v, 0, n);
    assert(v@.subrange(0, n as int) =~= v@.take(n as int));
    a_texto(r.as_slice())
}

/// `""` se guarda como `NULL`, no como cadena vacía: son dos valores
/// distintos para la base y significan lo mismo para el usuario.
pub fn vacio_a_nulo(texto: &str) -> (r: Option<String>)
    ensures
        recortado(texto@).len() == 0 ==> r is None,
        recortado(texto@).len() > 0 ==> (r matches Some(t) && t@ == recortado(texto@)),
{
    let t = recortar_texto(texto);
    if t.len() == 0 {
        None
    } else {
        Some(a_texto(t.as_slice()))
    }
}

/// `?` repetido `n` veces y separado por comas: los huecos de un `IN (...)`.
/// Interpolar los valores en el SQL sería inyección.
pub open spec fn huecos_spec(n: nat) -> Seq<char>
    decreases n,
{
    if n == 0 {
        seq![]
    } else if n == 1 {
        seq!['?']
    } else {
        huecos_spec((n - 1) as nat) + seq![',', '?']
    }
}

pub fn huecos(n: usize) -> (r: String)
    ensures
        r@ == huecos_spec(n as nat),
{
    let mut v: Vec<char> = Vec::new();
    let mut k: usize = 0;
    while k < n
        invariant
            k <= n,
            v@ == huecos_spec(k as nat),
        decreases n - k,
    {
        if k > 0 {
            v.push(',');
        }
        v.push('?');
        proof {
            if k == 0 {
                assert(v@ =~= seq!['?']);
            } else {
                assert(v@ =~= huecos_spec(k as nat) + seq![',', '?']);
            }
        }
        k = k + 1;
    }
    a_texto(v.as_slice())
}

/// Un canal leído de la base. Un canal que no es ni correo ni WhatsApp es un
/// dato corrupto y se nombra; el principal es el que la consulta marcó.
pub fn canal_guardado(canal: &str, raw: String, normalizado: String, primero: i64) -> (r: Result<
    CanalValidado,
    DbError,
>)
    ensures
        canal@ == "email"@ || canal@ == "whatsapp"@ ==> (r matches Ok(c) && texto_de_canal(c.canal)@
            == canal@ && c.valor_raw == raw && c.valor_normalizado == normalizado && c.principal == (
        primero == 1)),
        canal@ != "email"@ && canal@ != "whatsapp"@ ==> r == Err::<CanalValidado, DbError>(
            DbError::DatoInvalido { motivo: "un canal guardado no es ni correo ni WhatsApp" },
        ),
{
    proof {
        reveal_strlit("email");
        reveal_strlit("whatsapp");
        assert("email"@.len() != "whatsapp"@.len());
    }
    match Canal::desde_texto(canal) {
        Ok(c) => Ok(
            CanalValidado {
                canal: c,
                valor_raw: raw,
                valor_normalizado: normalizado,
                principal: primero == 1,
            },
        ),
        Err(_) => Err(DbError::DatoInvalido { motivo: "un canal guardado no es ni correo ni WhatsApp" }),
    }
}

/// El choque con el índice único de canales, con la dirección dentro.
pub fn direccion_en_uso(c: &CanalValidado) -> (r: DbError)
    ensures
        r == (DbError::DireccionEnUso {
            canal: texto_de_canal(c.canal),
            direccion: r->direccion,
        }),
        r->direccion@ == c.valor_normalizado@,
{
    DbError::DireccionEnUso { canal: c.canal.como_texto(), direccion: c.valor_normalizado.clone() }
}

/// Qué se apunta en la bitácora al guardar la empresa.
pub fn accion_de_guardado(existia: bool) -> (r: &'static str)
    ensures
        existia ==> r == "empresa.actualizada",
        !existia ==> r == "empresa.configurada",
{
    if existia {
        "empresa.actualizada"
    } else {
        "empresa.configurada"
    }
}

// ─────────────────────────────────────────────────────────────────────────
// Lo que se lee de vuelta
// ─────────────────────────────────────────────────────────────────────────

/// Qué se sabe de la base al arrancar.
#[derive(Debug, Clone, PartialEq, Eq)]
pub struct ResumenArranque {
    /// Versión del esquema aplicada por las migraciones.
    pub version_esquema: Option<i32>,
    /// Cuántas empresas hay. Cero significa que toca el alta.
    pub empresas: i64,
}

/// La empresa tal como está guardada.
#[derive(Debug, Clone, PartialEq, Eq)]
pub struct EmpresaGuardada {
    pub id: CompanyId,
    pub datos: DatosDeEmpresa,
}

/// Un contacto tal y como está guardado.
#[derive(Debug, Clone, PartialEq, Eq)]
pub struct ContactoGuardado {
    pub id: ContactId,
    pub datos: DatosDeContacto,
    pub creado_en: String,
    pub actualizado_en: String,
}

/// Una página de la lista.
#[derive(Debug, Clone, PartialEq, Eq)]
pub struct PaginaDeContactos {
    pub contactos: Vec<ContactoGuardado>,
    /// Cuántos hay **en total**, no en esta página.
    pub total: u32,
}

/// Todo lo que hay que declarar para dejar constancia de una importación.
/// **Ninguno es opcional.**
#[derive(Debug, Clone)]
pub struct DatosDelLote {
    /// Tal y como llegó. **Sólo metadato**: nunca se usa para escribir en disco.
    pub nombre_del_archivo: String,
    pub huella_del_archivo: String,
    /// El mapeo de columnas que se usó, en JSON.
    pub mapeo_en_json: String,
    /// El texto íntegro que el usuario aceptó.
    pub texto_del_consentimiento: String,
    pub origen: OrigenDeLaLista,
    pub total_de_filas: usize,
    pub choques: usize,
    pub invalidas: usize,
}

/// Lo que pasó al importar.
#[derive(Debug, Clone, PartialEq, Eq)]
pub struct ResumenDeImportacion {
    pub lote: ImportBatchId,
    pub importados: usize,
    pub choques: usize,
    pub invalidas: usize,
    pub total_de_filas: usize,
}

/// La empresa leída de la base, **validada al leer**: una fila editada a mano
/// con una zona inexistente rompería el cálculo de ventanas mucho más tarde.
pub fn empresa_desde_fila(id: &str, borrador: &BorradorDeEmpresa) -> (r: Result<
    EmpresaGuardada,
    DbError,
>)
    ensures
        errores_de_empresa(*borrador).len() > 0 ==> r == Err::<EmpresaGuardada, DbError>(
            DbError::DatoInvalido {
                motivo: "la empresa almacenada no pasa la validación del dominio",
            },
        ),
        errores_de_empresa(*borrador).len() == 0 && uuid_leido(id@) is None ==> r == Err::<
            EmpresaGuardada,
            DbError,
        >(DbError::DatoInvalido { motivo: "el identificador de la empresa no es un UUID" }),
        errores_de_empresa(*borrador).len() == 0 && uuid_leido(id@) is Some ==> (r matches Ok(e)
            && Some(e.id.valor()) == uuid_leido(id@) && e.datos.nombre_spec() == recortado(
            borrador.nombre_comercial@,
        ) && e.datos.zona_spec() == recortado(borrador.zona_horaria@)),
{
    let datos = match DatosDeEmpresa::validar(borrador) {
        Ok(d) => d,
        Err(_) => {
            return Err(
                DbError::DatoInvalido {
                    motivo: "la empresa almacenada no pasa la validación del dominio",
                },
            );
        },
    };
    match CompanyId::leer(id) {
        Ok(id) => Ok(EmpresaGuardada { id, datos }),
        Err(_) => Err(DbError::DatoInvalido { motivo: "el identificador de la empresa no es un UUID" }),
    }
}

/// Un contacto de la lista, leído de vuelta.
pub fn contacto_desde_fila(
    id: &str,
    nombre: String,
    apellido: String,
    empresa: String,
    canales: Vec<CanalValidado>,
    creado_en: String,
    actualizado_en: String,
) -> (r: Result<ContactoGuardado, DbError>)
    ensures
        uuid_leido(id@) is None ==> r == Err::<ContactoGuardado, DbError>(
            DbError::DatoInvalido { motivo: "el identificador de un contacto no es un UUID" },
        ),
        uuid_leido(id@) matches Some(v) ==> (r matches Ok(c) && c.id.valor() == v && c.datos
            == DatosDeContacto { nombre, apellido, empresa, canales } && c.creado_en == creado_en
            && c.actualizado_en == actualizado_en),
{
    match ContactId::leer(id) {
        Ok(id) => Ok(
            ContactoGuardado {
                id,
                datos: DatosDeContacto { nombre, apellido, empresa, canales },
                creado_en,
                actualizado_en,
            },
        ),
        Err(_) => Err(DbError::DatoInvalido { motivo: "el identificador de un contacto no es un UUID" }),
    }
}

/// Lo que pasó al importar, con las cifras del análisis que el usuario vio.
pub fn resumen_de_importacion(lote: ImportBatchId, importados: usize, datos: &DatosDelLote) -> (r:
    ResumenDeImportacion)
    ensures
        r == (ResumenDeImportacion {
            lote,
            importados,
            choques: datos.choques,
            invalidas: datos.invalidas,
            total_de_filas: datos.total_de_filas,
        }),
{
    ResumenDeImportacion {
        lote,
        importados,
        choques: datos.choques,
        invalidas: datos.invalidas,
        total_de_filas: datos.total_de_filas,
    }
}

} // verus!
