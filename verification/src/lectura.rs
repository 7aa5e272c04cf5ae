//! Lectura defensiva de tablas importadas.
//!
//! El archivo que se lee **no es de fiar**: lo exportó otro sistema, lo editó
//! alguien o lo mandó un tercero. Se defiende de cuatro cosas:
//!
//!   1. **Bomba de descompresión** y archivo enorme: se corta al pasar de
//!      [`MAX_CELDAS`] celdas leídas, que es un tope sobre lo que se lee y no
//!      sobre lo que el archivo dice medir.
//!   2. **Inyección de fórmulas**: aquí nunca se evalúa nada, y al exportar se
//!      neutraliza (ver [`neutralizar_formula`]).
//!   3. **Nombre de archivo hostil**: sólo se guarda para enseñarlo.
//!   4. **Windows-1252**: el Excel de Windows en español guarda así los CSV, y
//!      sin detectarlo los acentos llegan rotos.
//!
//! Abrir el archivo es de la aplicación; aquí están las reglas: qué formato
//! es, cómo se decodifica, qué separador usa, cuántas celdas se admiten y cómo
//! se separan los encabezados de los datos.

use vstd::prelude::*;

use crate::importacion::MAX_COLUMNAS;
use crate::texto::{a_minusculas, a_texto, caracteres, minusculas, recortado, recortar_texto, texto_igual};

verus! {

/// Cuántas celdas se leen como mucho, entre todas las filas.
pub const MAX_CELDAS: usize = 8_000_000;

/// Tamaño máximo del archivo **en disco**. Es una primera barrera barata, no
/// la de verdad: la que cuenta es [`MAX_CELDAS`].
pub const MAX_BYTES: u64 = 200 * 1024 * 1024;

/// Cuántas filas se enseñan en la vista previa antes de importar.
pub const FILAS_DE_MUESTRA: usize = 20;

#[derive(Debug, Clone, Copy, PartialEq, Eq, Structural)]
#[non_exhaustive]
pub enum ErrorDeLectura {
    /// La extensión no es la de una tabla que se sepa leer.
    FormatoDesconocido,
    DemasiadoGrande,
    /// Se cortó la lectura al llegar al tope de celdas. **No se importa lo
    /// leído hasta ahí**: media importación es peor que ninguna.
    DemasiadosDatos,
    /// La hoja no tiene ninguna fila con datos que sirva de encabezado.
    SinEncabezados,
    /// El libro no tiene ninguna hoja con datos.
    SinHojas,
    NoSePudoLeer,
}

pub open spec fn clave_de_lectura(e: ErrorDeLectura) -> &'static str {
    match e {
        ErrorDeLectura::FormatoDesconocido => "error.import.formato_desconocido",
        ErrorDeLectura::DemasiadoGrande => "error.import.demasiado_grande",
        ErrorDeLectura::DemasiadosDatos => "error.import.demasiados_datos",
        ErrorDeLectura::SinEncabezados => "error.import.sin_encabezados",
        ErrorDeLectura::SinHojas => "error.import.sin_hojas",
        ErrorDeLectura::NoSePudoLeer => "error.import.no_se_pudo_leer",
    }
}

pub open spec fn mensaje_de_lectura(e: ErrorDeLectura) -> &'static str {
    match e {
        ErrorDeLectura::FormatoDesconocido => "el archivo no es una tabla que ARLES sepa leer",
        ErrorDeLectura::DemasiadoGrande => "el archivo pesa más de lo admitido",
        ErrorDeLectura::DemasiadosDatos => "el archivo trae más datos de los que ARLES puede leer de una vez",
        ErrorDeLectura::SinEncabezados => "el archivo no tiene encabezados",
        ErrorDeLectura::SinHojas => "el archivo no tiene ninguna hoja con datos",
        ErrorDeLectura::NoSePudoLeer => "no se pudo leer el archivo",
    }
}

impl ErrorDeLectura {
    /// Clave estable para que la interfaz traduzca el error.
    pub fn clave_i18n(&self) -> (r: &'static str)
        ensures
            r == clave_de_lectura(*self),
    {
        match self {
            ErrorDeLectura::FormatoDesconocido => "error.import.formato_desconocido",
            ErrorDeLectura::DemasiadoGrande => "error.import.demasiado_grande",
            ErrorDeLectura::DemasiadosDatos => "error.import.demasiados_datos",
            ErrorDeLectura::SinEncabezados => "error.import.sin_encabezados",
            ErrorDeLectura::SinHojas => "error.import.sin_hojas",
            ErrorDeLectura::NoSePudoLeer => "error.import.no_se_pudo_leer",
        }
    }

    /// El texto técnico del error.
    pub fn mensaje(&self) -> (r: &'static str)
        ensures
            r == mensaje_de_lectura(*self),
    {
        match self {
            ErrorDeLectura::FormatoDesconocido => "el archivo no es una tabla que ARLES sepa leer",
            ErrorDeLectura::DemasiadoGrande => "el archivo pesa más de lo admitido",
            ErrorDeLectura::DemasiadosDatos => "el archivo trae más datos de los que ARLES puede leer de una vez",
            ErrorDeLectura::SinEncabezados => "el archivo no tiene encabezados",
            ErrorDeLectura::SinHojas => "el archivo no tiene ninguna hoja con datos",
            ErrorDeLectura::NoSePudoLeer => "no se pudo leer el archivo",
        }
    }
}

// ─────────────────────────────────────────────────────────────────────────
// Formato y tamaño
// ─────────────────────────────────────────────────────────────────────────

/// Cómo se lee un archivo, según su extensión.
#[derive(Debug, Clone, Copy, PartialEq, Eq, Structural)]
pub enum FormatoDeArchivo {
    /// Texto separado: `.csv`, `.txt`, `.tsv`.
    Csv,
    /// Libro de hoja de cálculo: `.xlsx`, `.xlsm`, `.xls`, `.xlsb`.
    HojaDeCalculo,
}

/// El formato de una extensión ya en minúsculas.
pub open spec fn formato_de(e: Seq<char>) -> Option<FormatoDeArchivo> {
    if e == "csv"@ || e == "txt"@ || e == "tsv"@ {
        Some(FormatoDeArchivo::Csv)
    } else if e == "xlsx"@ || e == "xlsm"@ || e == "xls"@ || e == "xlsb"@ {
        Some(FormatoDeArchivo::HojaDeCalculo)
    } else {
        None
    }
}

/// Qué formato tiene un archivo, por su extensión sin distinguir mayúsculas.
///
/// Se mira la extensión y **además** se intenta leer: la extensión es lo que
/// el usuario cree que tiene, y el contenido es lo que hay.
pub fn formato_por_extension(extension: &str) -> (r: Result<FormatoDeArchivo, ErrorDeLectura>)
    ensures
        match formato_de(minusculas(extension@)) {
            Some(f) => r == Ok::<FormatoDeArchivo, ErrorDeLectura>(f),
            None => r == Err::<FormatoDeArchivo, ErrorDeLectura>(
                ErrorDeLectura::FormatoDesconocido,
            ),
        },
{
    let e = a_minusculas(extension);
    let e = e.as_str();
    if texto_igual(e, "csv") || texto_igual(e, "txt") || texto_igual(e, "tsv") {
        Ok(FormatoDeArchivo::Csv)
    } else if texto_igual(e, "xlsx") || texto_igual(e, "xlsm") || texto_igual(e, "xls")
        || texto_igual(e, "xlsb") {
        Ok(FormatoDeArchivo::HojaDeCalculo)
    } else {
        Err(ErrorDeLectura::FormatoDesconocido)
    }
}

/// El peso en disco no pasa del tope.
pub fn admitir_peso(peso: u64) -> (r: Result<(), ErrorDeLectura>)
    ensures
        peso > MAX_BYTES ==> r == Err::<(), ErrorDeLectura>(ErrorDeLectura::DemasiadoGrande),
        peso <= MAX_BYTES ==> r is Ok,
{
    if peso > MAX_BYTES {
        Err(ErrorDeLectura::DemasiadoGrande)
    } else {
        Ok(())
    }
}

/// Suma las celdas de una fila de una hoja de cálculo a las ya leídas, y corta
/// al pasar del tope. De cada fila cuentan como mucho las columnas que se
/// miran.
pub fn contar_celdas_de_hoja(leidas: usize, en_la_fila: usize) -> (r: Result<usize, ErrorDeLectura>)
    requires
        leidas <= MAX_CELDAS,
    ensures
        ({
            let cuentan = if en_la_fila < MAX_COLUMNAS {
                en_la_fila as int
            } else {
                MAX_COLUMNAS as int
            };
            &&& leidas + cuentan > MAX_CELDAS ==> r == Err::<usize, ErrorDeLectura>(
                ErrorDeLectura::DemasiadosDatos,
            )
            &&& leidas + cuentan <= MAX_CELDAS ==> r == Ok::<usize, ErrorDeLectura>(
                (leidas + cuentan) as usize,
            )
        }),
{
    let cuentan = if en_la_fila < MAX_COLUMNAS {
        en_la_fila
    } else {
        MAX_COLUMNAS
    };
    let total = leidas + cuentan;
    if total > MAX_CELDAS {
        Err(ErrorDeLectura::DemasiadosDatos)
    } else {
        Ok(total)
    }
}

// ─────────────────────────────────────────────────────────────────────────
// Decodificación
// ─────────────────────────────────────────────────────────────────────────

/// Lo que devuelve `std::str::from_utf8`: el texto si los bytes son UTF-8
/// válido.
pub uninterp spec fn utf8_valido(b: Seq<u8>) -> Option<Seq<char>>;

/// Lo que devuelve `encoding_rs::UTF_8.decode`.
pub uninterp spec fn decodificado_utf8(b: Seq<u8>) -> Seq<char>;

/// Lo que devuelve `encoding_rs::WINDOWS_1252.decode`.
pub uninterp spec fn decodificado_1252(b: Seq<u8>) -> Seq<char>;

/// `std::str::from_utf8`. El resultado es función de los bytes.
#[verifier::external_body]
fn desde_utf8(crudo: &[u8]) -> (r: Option<String>)
    ensures
        match r {
            Some(s) => utf8_valido(crudo@) == Some(s@),
            None => utf8_valido(crudo@) is None,
        },
{
    match std::str::from_utf8(crudo) {
        Ok(t) => Some(t.to_owned()),
        Err(_) => None,
    }
}

/// `encoding_rs::UTF_8.decode`: UTF-8 sin la marca de orden de bytes, con los
/// fragmentos malformados sustituidos.
#[verifier::external_body]
fn decodificar_utf8(crudo: &[u8]) -> (r: String)
    ensures
        r@ == decodificado_utf8(crudo@),
{
    let (texto, _, _) = encoding_rs::UTF_8.decode(crudo);
    texto.into_owned()
}

/// `encoding_rs::WINDOWS_1252.decode`.
#[verifier::external_body]
fn decodificar_1252(crudo: &[u8]) -> (r: String)
    ensures
        r@ == decodificado_1252(crudo@),
{
    let (texto, _, _) = encoding_rs::WINDOWS_1252.decode(crudo);
    texto.into_owned()
}

/// ¿Empiezan los bytes por la marca de orden de bytes de UTF-8?
pub open spec fn con_marca_utf8(b: Seq<u8>) -> bool {
    b.len() >= 3 && b[0] == 0xEFu8 && b[1] == 0xBBu8 && b[2] == 0xBFu8
}

/// Cómo se decodifica un CSV: por su marca si la tiene, si no como UTF-8 si lo
/// es, y si no como Windows-1252.
pub open spec fn texto_decodificado(b: Seq<u8>) -> Seq<char> {
    if con_marca_utf8(b) {
        decodificado_utf8(b)
    } else {
        match utf8_valido(b) {
            Some(t) => t,
            None => decodificado_1252(b),
        }
    }
}

/// Decodifica el CSV a texto.
///
/// El orden importa: casi cualquier secuencia de bytes es Windows-1252 válido,
/// así que probarlo primero aceptaría un UTF-8 correcto y lo destrozaría.
pub fn decodificar(crudo: &[u8]) -> (r: String)
    ensures
        r@ == texto_decodificado(crudo@),
{
    if crudo.len() >= 3 && crudo[0] == 0xEF && crudo[1] == 0xBB && crudo[2] == 0xBF {
        return decodificar_utf8(crudo);
    }
    match desde_utf8(crudo) {
        Some(t) => t,
        None => decodificar_1252(crudo),
    }
}

// ─────────────────────────────────────────────────────────────────────────
// El separador
// ─────────────────────────────────────────────────────────────────────────

/// Los separadores que se reconocen, como bytes.
pub const SEP_PUNTO_Y_COMA: u8 = 59;

pub const SEP_TABULADOR: u8 = 9;

pub const SEP_COMA: u8 = 44;

/// La primera línea: todo hasta el primer salto.
pub open spec fn primera_linea(s: Seq<char>) -> Seq<char>
    decreases s.len(),
{
    if s.len() == 0 {
        seq![]
    } else if s[0] == '\n' {
        seq![]
    } else {
        seq![s[0]] + primera_linea(s.drop_first())
    }
}

/// Cuántas veces aparece un carácter.
pub open spec fn apariciones(s: Seq<char>, c: char) -> nat
    decreases s.len(),
{
    if s.len() == 0 {
        0
    } else {
        apariciones(s.drop_last(), c) + if s.last() == c {
            1nat
        } else {
            0nat
        }
    }
}

/// El separador que más aparece en la primera línea, entre punto y coma,
/// tabulador y coma, por ese orden en caso de empate; la coma si no aparece
/// ninguno.
pub open spec fn separador_de(texto: Seq<char>) -> u8 {
    let l = primera_linea(texto);
    let pc = apariciones(l, ';');
    let tab = apariciones(l, '\t');
    let coma = apariciones(l, ',');
    let (mejor, mas) = if pc > 0 {
        (SEP_PUNTO_Y_COMA, pc)
    } else {
        (SEP_COMA, 0nat)
    };
    let (mejor, mas) = if tab > mas {
        (SEP_TABULADOR, tab)
    } else {
        (mejor, mas)
    };
    if coma > mas {
        SEP_COMA
    } else {
        mejor
    }
}

/// Adivina el separador de la primera línea.
///
/// El Excel en español escribe CSV con **punto y coma**, porque la coma es su
/// separador decimal. Un lector que asuma la coma lee esa tabla como una sola
/// columna gigante, y sin dar error.
pub fn adivinar_separador(texto: &str) -> (r: u8)
    ensures
        r == separador_de(texto@),
{
    let cs = caracteres(texto);
    let mut fin: usize = 0;
    assert(cs@.skip(0) =~= cs@);
    assert(cs@.take(0) + primera_linea(cs@) =~= primera_linea(cs@));
    while fin < cs.len() && cs[fin] != '\n'
        invariant
            fin <= cs.len(),
            primera_linea(cs@) == cs@.take(fin as int) + primera_linea(cs@.skip(fin as int)),
        decreases cs.len() - fin,
    {
        proof {
            let resto = cs@.skip(fin as int);
            assert(resto.drop_first() =~= cs@.skip(fin + 1));
            assert(cs@.take(fin + 1) =~= cs@.take(fin as int) + seq![resto[0]]);
        }
        fin = fin + 1;
    }
    proof {
        if fin < cs.len() {
            assert(cs@.skip(fin as int)[0] == '\n');
        } else {
            assert(cs@.skip(fin as int) =~= seq![]);
        }
        assert(primera_linea(cs@) =~= cs@.take(fin as int));
    }
    let mut pc: usize = 0;
    let mut tab: usize = 0;
    let mut coma: usize = 0;
    let mut k: usize = 0;
    while k < fin
        invariant
            k <= fin <= cs.len(),
            pc == apariciones(cs@.take(k as int), ';'),
            tab == apariciones(cs@.take(k as int), '\t'),
            coma == apariciones(cs@.take(k as int), ','),
            pc <= k && tab <= k && coma <= k,
        decreases fin - k,
    {
        assert(cs@.take(k + 1).drop_last() =~= cs@.take(k as int));
        let c = cs[k];
        if c == ';' {
            pc = pc + 1;
        } else if c == '\t' {
            tab = tab + 1;
        } else if c == ',' {
            coma = coma + 1;
        }
        k = k + 1;
    }
    let mut mejor: u8 = SEP_COMA;
    let mut mas: usize = 0;
    if pc > mas {
        mas = pc;
        mejor = SEP_PUNTO_Y_COMA;
    }
    if tab > mas {
        mas = tab;
        mejor = SEP_TABULADOR;
    }
    if coma > mas {
        mejor = SEP_COMA;
    }
    mejor
}

// ─────────────────────────────────────────────────────────────────────────
// Registros de un CSV
// ─────────────────────────────────────────────────────────────────────────

/// El lector de `csv`.
#[verifier::external_type_specification]
#[verifier::external_body]
#[verifier::reject_recursive_types(R)]
pub struct ExLectorCsv<R>(csv::Reader<R>);

/// Los registros de un texto CSV con ese separador, sin encabezados y con
/// filas de longitud libre, tal y como los entrega `csv` uno a uno: cada uno
/// con sus celdas, o `None` donde el lector da un error.
pub uninterp spec fn registros_csv(texto: Seq<char>, separador: u8) -> Seq<Option<Seq<Seq<char>>>>;

/// Lo que a un lector de `csv` le queda por entregar.
pub uninterp spec fn pendientes(lector: csv::Reader<&[u8]>) -> Seq<Option<Seq<Seq<char>>>>;

/// `csv::ReaderBuilder` con el separador dado, sin encabezados y flexible,
/// sobre los bytes del texto. Lo que entregará son los registros del texto.
#[verifier::external_body]
fn abrir_lector_csv(texto: &str, separador: u8) -> (r: csv::Reader<&[u8]>)
    ensures
        pendientes(r) == registros_csv(texto@, separador),
{
    csv::ReaderBuilder::new().delimiter(separador).has_headers(false).flexible(true).from_reader(
        texto.as_bytes(),
    )
}

/// `csv::Reader::read_record`: el siguiente registro, `Some(None)` si el
/// lector da un error, o `None` al final.
#[verifier::external_body]
fn siguiente_registro(lector: &mut csv::Reader<&[u8]>) -> (r: Option<Option<Vec<String>>>)
    ensures
        r is None <==> pendientes(*old(lector)).len() == 0,
        r is Some ==> pendientes(*final(lector)) == pendientes(*old(lector)).drop_first(),
        r matches Some(x) ==> match x {
            Some(v) => pendientes(*old(lector))[0] == Some(v@.map_values(|c: String| c@)),
            None => pendientes(*old(lector))[0] is None,
        },
{
    let mut registro = csv::StringRecord::new();
    match lector.read_record(&mut registro) {
        Ok(true) => Some(Some(registro.iter().map(|c| c.to_owned()).collect())),
        Ok(false) => None,
        Err(_) => Some(None),
    }
}

/// Una fila tal y como se guarda: como mucho las columnas que se miran, cada
/// celda recortada.
pub open spec fn fila_de_registro(r: Seq<Seq<char>>) -> Seq<Seq<char>> {
    let n = if r.len() < MAX_COLUMNAS {
        r.len()
    } else {
        MAX_COLUMNAS as nat
    };
    Seq::new(n, |j: int| recortado(r[j]))
}

/// Las filas de unos registros, contando celdas desde `celdas`: un error del
/// lector es un archivo que no se pudo leer, y pasar del tope de celdas corta
/// la lectura entera.
pub open spec fn filas_de_registros(regs: Seq<Option<Seq<Seq<char>>>>, celdas: int) -> Result<
    Seq<Seq<Seq<char>>>,
    ErrorDeLectura,
>
    decreases regs.len(),
{
    if regs.len() == 0 {
        Ok(seq![])
    } else {
        match regs[0] {
            None => Err(ErrorDeLectura::NoSePudoLeer),
            Some(r) => if celdas + r.len() > MAX_CELDAS {
                Err(ErrorDeLectura::DemasiadosDatos)
            } else {
                match filas_de_registros(regs.drop_first(), celdas + r.len()) {
                    Ok(resto) => Ok(seq![fila_de_registro(r)] + resto),
                    Err(e) => Err(e),
                }
            },
        }
    }
}

/// La vista de una fila de celdas.
pub open spec fn vista_de_fila(f: Vec<String>) -> Seq<Seq<char>> {
    f@.map_values(|c: String| c@)
}

/// La vista de una tabla.
pub open spec fn vista_de_tabla(t: Seq<Vec<String>>) -> Seq<Seq<Seq<char>>> {
    t.map_values(|f: Vec<String>| vista_de_fila(f))
}

fn recortar_fila(v: &Vec<String>) -> (r: Vec<String>)
    ensures
        vista_de_fila(r) == fila_de_registro(vista_de_fila(*v)),
{
    let n = if v.len() < MAX_COLUMNAS {
        v.len()
    } else {
        MAX_COLUMNAS
    };
    let mut r: Vec<String> = Vec::new();
    let mut j: usize = 0;
    while j < n
        invariant
            j <= n <= v.len(),
            n == (if v@.len() < MAX_COLUMNAS {
                v@.len()
            } else {
                MAX_COLUMNAS as nat
            }),
            r@.len() == j,
            forall|x: int| 0 <= x < j ==> (#[trigger] r@[x])@ == recortado(v@[x]@),
        decreases n - j,
    {
        r.push(a_texto(recortar_texto(v[j].as_str()).as_slice()));
        j = j + 1;
    }
    assert(vista_de_fila(r) =~= fila_de_registro(vista_de_fila(*v)));
    r
}

/// Lee los registros de un CSV ya decodificado.
///
/// Cada celda se recorta, de cada fila se guardan como mucho las columnas que
/// se miran, y la lectura se corta al pasar de [`MAX_CELDAS`] celdas leídas:
/// cuenta lo que el lector ya ha entregado, que es lo único de lo que un
/// archivo no puede mentir.
pub fn leer_registros(texto: &str, separador: u8) -> (r: Result<Vec<Vec<String>>, ErrorDeLectura>)
    ensures
        match filas_de_registros(registros_csv(texto@, separador), 0) {
            Ok(f) => r matches Ok(v) && vista_de_tabla(v@) == f,
            Err(e) => r == Err::<Vec<Vec<String>>, ErrorDeLectura>(e),
        },
{
    let mut lector = abrir_lector_csv(texto, separador);
    let ghost todos = registros_csv(texto@, separador);
    let mut filas: Vec<Vec<String>> = Vec::new();
    let mut celdas: usize = 0;
    proof {
        assert(vista_de_tabla(filas@) =~= seq![]);
        match filas_de_registros(todos, 0) {
            Ok(resto) => {
                assert(vista_de_tabla(filas@) + resto =~= resto);
            },
            Err(_) => {},
        }
    }
    loop
        invariant
            celdas <= MAX_CELDAS,
            todos == registros_csv(texto@, separador),
            filas_de_registros(todos, 0) == match filas_de_registros(
                pendientes(lector),
                celdas as int,
            ) {
                Ok(resto) => Ok(vista_de_tabla(filas@) + resto),
                Err(e) => Err(e),
            },
        decreases pendientes(lector).len(),
    {
        let ghost antes = pendientes(lector);
        match siguiente_registro(&mut lector) {
            None => {
                assert(antes.len() == 0);
                assert(filas_de_registros(antes, celdas as int) == Ok::<
                    Seq<Seq<Seq<char>>>,
                    ErrorDeLectura,
                >(seq![]));
                assert(vista_de_tabla(filas@) + seq![] =~= vista_de_tabla(filas@));
                assert(filas_de_registros(todos, 0) == Ok::<Seq<Seq<Seq<char>>>, ErrorDeLectura>(
                    vista_de_tabla(filas@),
                ));
                return Ok(filas);
            },
            Some(None) => {
                assert(antes.len() > 0 && antes[0] is None);
                assert(filas_de_registros(antes, celdas as int) == Err::<
                    Seq<Seq<Seq<char>>>,
                    ErrorDeLectura,
                >(ErrorDeLectura::NoSePudoLeer));
                assert(filas_de_registros(todos, 0) == Err::<Seq<Seq<Seq<char>>>, ErrorDeLectura>(
                    ErrorDeLectura::NoSePudoLeer,
                ));
                return Err(ErrorDeLectura::NoSePudoLeer);
            },
            Some(Some(registro)) => {
                if registro.len() > MAX_CELDAS - celdas {
                    return Err(ErrorDeLectura::DemasiadosDatos);
                }
                celdas = celdas + registro.len();
                let fila = recortar_fila(&registro);
                let ghost previas = vista_de_tabla(filas@);
                filas.push(fila);
                proof {
                    assert(vista_de_tabla(filas@) =~= previas.push(vista_de_fila(fila)));
                    match filas_de_registros(pendientes(lector), celdas as int) {
                        Ok(resto) => {
                            assert(previas + (seq![vista_de_fila(fila)] + resto) =~= previas.push(
                                vista_de_fila(fila),
                            ) + resto);
                        },
                        Err(_) => {},
                    }
                }
            },
        }
    }
}

/// Las filas de un CSV tal y como llegó del disco: se decodifica, se adivina
/// el separador de su primera línea y se leen sus registros.
pub fn leer_csv(crudo: &[u8]) -> (r: Result<Vec<Vec<String>>, ErrorDeLectura>)
    ensures
        ({
            let texto = texto_decodificado(crudo@);
            match filas_de_registros(registros_csv(texto, separador_de(texto)), 0) {
                Ok(f) => r matches Ok(v) && vista_de_tabla(v@) == f,
                Err(e) => r == Err::<Vec<Vec<String>>, ErrorDeLectura>(e),
            }
        }),
{
    let texto = decodificar(crudo);
    let separador = adivinar_separador(texto.as_str());
    leer_registros(texto.as_str(), separador)
}

// ─────────────────────────────────────────────────────────────────────────
// Encabezados y datos
// ─────────────────────────────────────────────────────────────────────────

/// Lo que se saca de un archivo antes de importar nada.
#[derive(Debug, Clone)]
pub struct TablaLeida {
    /// Nombre del archivo, **sin la carpeta**. Sólo para enseñarlo.
    pub nombre: String,
    /// Huella de los bytes del archivo: un CSV en Windows-1252 y el mismo en
    /// UTF-8 dicen lo mismo pero **no son el mismo archivo**.
    pub huella: String,
    /// Los encabezados, tal y como venían.
    pub encabezados: Vec<String>,
    /// Las primeras filas, para la vista previa.
    pub muestra: Vec<Vec<String>>,
    /// **Todas** las filas de datos, sin los encabezados.
    pub filas: Vec<Vec<String>>,
    /// Cuántas filas de datos trae.
    pub total_de_filas: usize,
}

/// ¿Está vacía la fila, celda a celda una vez recortada?
pub open spec fn fila_vacia(f: Seq<Seq<char>>) -> bool {
    forall|c: int| 0 <= c < f.len() ==> recortado(#[trigger] f[c]).len() == 0
}

/// La primera fila con algo, desde la `k`; la longitud si no hay ninguna.
pub open spec fn primera_con_datos(t: Seq<Seq<Seq<char>>>, k: int) -> int
    decreases t.len() - k,
{
    if k < 0 || k >= t.len() {
        t.len() as int
    } else if !fila_vacia(t[k]) {
        k
    } else {
        primera_con_datos(t, k + 1)
    }
}

/// Las filas que traen algo, en su orden.
pub open spec fn sin_vacias(t: Seq<Seq<Seq<char>>>) -> Seq<Seq<Seq<char>>>
    decreases t.len(),
{
    if t.len() == 0 {
        seq![]
    } else if fila_vacia(t.last()) {
        sin_vacias(t.drop_last())
    } else {
        sin_vacias(t.drop_last()).push(t.last())
    }
}

/// Las filas de datos de una tabla: tras los encabezados, sin las vacías.
pub open spec fn datos_de(t: Seq<Seq<Seq<char>>>) -> Seq<Seq<Seq<char>>> {
    sin_vacias(t.skip(primera_con_datos(t, 0) + 1))
}

fn es_fila_vacia(f: &Vec<String>) -> (r: bool)
    ensures
        r == fila_vacia(vista_de_fila(*f)),
{
    let ghost v = vista_de_fila(*f);
    let mut c: usize = 0;
    while c < f.len()
        invariant
            c <= f.len(),
            v == vista_de_fila(*f),
            forall|x: int| 0 <= x < c ==> recortado(#[trigger] v[x]).len() == 0,
        decreases f.len() - c,
    {
        if recortar_texto(f[c].as_str()).len() > 0 {
            assert(recortado(v[c as int]).len() > 0);
            return false;
        }
        c = c + 1;
    }
    true
}

fn copiar_fila(f: &Vec<String>) -> (r: Vec<String>)
    ensures
        vista_de_fila(r) == vista_de_fila(*f),
{
    let mut r: Vec<String> = Vec::new();
    let mut c: usize = 0;
    while c < f.len()
        invariant
            c <= f.len(),
            r@.len() == c,
            forall|x: int| 0 <= x < c ==> (#[trigger] r@[x])@ == f@[x]@,
        decreases f.len() - c,
    {
        r.push(f[c].clone());
        c = c + 1;
    }
    assert(vista_de_fila(r) =~= vista_de_fila(*f));
    r
}

/// Separa encabezados de datos y recorta la muestra.
///
/// Las filas del principio completamente vacías se saltan —es lo que deja un
/// Excel con un título arriba—, y las vacías de en medio y del final no son
/// datos: contarlas haría que el total mintiera.
pub fn armar(nombre: String, huella: String, filas: Vec<Vec<String>>) -> (r: Result<
    TablaLeida,
    ErrorDeLectura,
>)
    ensures
        ({
            let t = vista_de_tabla(filas@);
            let i = primera_con_datos(t, 0);
            &&& i == t.len() ==> r == Err::<TablaLeida, ErrorDeLectura>(
                ErrorDeLectura::SinEncabezados,
            )
            &&& i < t.len() ==> (r matches Ok(tabla) && tabla.nombre == nombre && tabla.huella
                == huella && vista_de_fila(tabla.encabezados) == t[i] && vista_de_tabla(
                tabla.filas@,
            ) == datos_de(t) && vista_de_tabla(tabla.muestra@) == datos_de(t).take(
                if datos_de(t).len() < FILAS_DE_MUESTRA {
                    datos_de(t).len() as int
                } else {
                    FILAS_DE_MUESTRA as int
                },
            ) && tabla.total_de_filas == datos_de(t).len())
        }),
{
    let ghost t = vista_de_tabla(filas@);
    let mut i: usize = 0;
    while i < filas.len() && es_fila_vacia(&filas[i])
        invariant
            i <= filas.len(),
            t == vista_de_tabla(filas@),
            primera_con_datos(t, 0) == primera_con_datos(t, i as int),
        decreases filas.len() - i,
    {
        i = i + 1;
    }
    if i == filas.len() {
        return Err(ErrorDeLectura::SinEncabezados);
    }
    let encabezados = copiar_fila(&filas[i]);
    if es_fila_vacia(&encabezados) {
        return Err(ErrorDeLectura::SinEncabezados);
    }
    let ghost resto = t.skip(i + 1);
    let mut datos: Vec<Vec<String>> = Vec::new();
    let mut k: usize = i + 1;
    while k < filas.len()
        invariant
            i < k <= filas.len(),
            t == vista_de_tabla(filas@),
            resto == t.skip(i + 1),
            vista_de_tabla(datos@) == sin_vacias(resto.take(k - i - 1)),
        decreases filas.len() - k,
    {
        assert(resto.take(k - i).drop_last() =~= resto.take(k - i - 1));
        assert(resto.take(k - i).last() == t[k as int]);
        if !es_fila_vacia(&filas[k]) {
            let f = copiar_fila(&filas[k]);
            let ghost previas = vista_de_tabla(datos@);
            datos.push(f);
            assert(vista_de_tabla(datos@) =~= previas.push(vista_de_fila(f)));
        }
        k = k + 1;
    }
    assert(resto.take(k - i - 1) =~= resto);
    let n = if datos.len() < FILAS_DE_MUESTRA {
        datos.len()
    } else {
        FILAS_DE_MUESTRA
    };
    let mut muestra: Vec<Vec<String>> = Vec::new();
    let mut m: usize = 0;
    while m < n
        invariant
            m <= n <= datos.len(),
            vista_de_tabla(muestra@) == vista_de_tabla(datos@).take(m as int),
        decreases n - m,
    {
        let f = copiar_fila(&datos[m]);
        let ghost previas = vista_de_tabla(muestra@);
        muestra.push(f);
        assert(vista_de_tabla(muestra@) =~= previas.push(vista_de_fila(f)));
        assert(vista_de_tabla(datos@)[m as int] == vista_de_fila(datos@[m as int]));
        assert(vista_de_tabla(datos@).take(m + 1) =~= vista_de_tabla(datos@).take(m as int).push(
            vista_de_tabla(datos@)[m as int],
        ));
        m = m + 1;
    }
    let total_de_filas = datos.len();
    Ok(TablaLeida { nombre, huella, encabezados, muestra, filas: datos, total_de_filas })
}

/// ¿Trae algo la fila?
pub open spec fn con_datos() -> spec_fn(Seq<Seq<char>>) -> bool {
    |f: Seq<Seq<char>>| !fila_vacia(f)
}

proof fn lema_primera_con_datos(t: Seq<Seq<Seq<char>>>, k: int)
    requires
        0 <= k <= t.len(),
    ensures
        k <= primera_con_datos(t, k) <= t.len(),
        forall|j: int| k <= j < primera_con_datos(t, k) ==> fila_vacia(#[trigger] t[j]),
        primera_con_datos(t, k) < t.len() ==> !fila_vacia(t[primera_con_datos(t, k)]),
    decreases t.len() - k,
{
    if k < t.len() && fila_vacia(t[k]) {
        lema_primera_con_datos(t, k + 1);
    }
}

proof fn lema_sin_vacias_filtra(t: Seq<Seq<Seq<char>>>)
    ensures
        sin_vacias(t) == t.filter(con_datos()),
    decreases t.len(),
{
    reveal(Seq::filter);
    if t.len() > 0 {
        lema_sin_vacias_filtra(t.drop_last());
    }
}

/// **Qué arma una tabla, dicho directamente.** Sin ninguna fila con algo, no
/// hay encabezados; si no, los encabezados son la primera fila con algo (todas
/// las anteriores están vacías) y los datos son las filas con algo que vienen
/// detrás, en su orden. Es lo que `armar` devuelve.
pub proof fn ley_lo_que_arma_una_tabla(t: Seq<Seq<Seq<char>>>)
    ensures
        (primera_con_datos(t, 0) == t.len()) <==> (forall|j: int|
            0 <= j < t.len() ==> fila_vacia(#[trigger] t[j])),
        primera_con_datos(t, 0) < t.len() ==> ({
            let i = primera_con_datos(t, 0);
            &&& !fila_vacia(t[i])
            &&& forall|j: int| 0 <= j < i ==> fila_vacia(#[trigger] t[j])
            &&& datos_de(t) == t.skip(i + 1).filter(con_datos())
        }),
{
    lema_primera_con_datos(t, 0);
    let i = primera_con_datos(t, 0);
    lema_sin_vacias_filtra(t.skip(i + 1));
}

// ─────────────────────────────────────────────────────────────────────────
// Al exportar
// ─────────────────────────────────────────────────────────────────────────

/// Los caracteres con los que una celda es una fórmula para Excel o Sheets.
pub open spec fn es_peligroso(c: char) -> bool {
    c == '=' || c == '+' || c == '-' || c == '@' || c == '\t' || c == '\r'
}

/// Neutraliza una celda que Excel interpretaría como fórmula, **al exportar**.
///
/// Se antepone una comilla simple, que es lo que Excel entiende como «esto es
/// texto»; lo demás no se toca.
pub fn neutralizar_formula(celda: &str) -> (r: String)
    ensures
        celda@.len() > 0 && es_peligroso(celda@[0]) ==> r@ == seq!['\''] + celda@,
        !(celda@.len() > 0 && es_peligroso(celda@[0])) ==> r@ == celda@,
{
    let cs = caracteres(celda);
    if cs.len() > 0 && (cs[0] == '=' || cs[0] == '+' || cs[0] == '-' || cs[0] == '@' || cs[0]
        == '\t' || cs[0] == '\r') {
        let mut v: Vec<char> = Vec::new();
        v.push('\'');
        crate::texto::extender(&mut v, cs.as_slice());
        a_texto(v.as_slice())
    } else {
        a_texto(cs.as_slice())
    }
}

/// Tras neutralizar, ninguna celda empieza por un carácter de fórmula.
pub proof fn ley_lo_exportado_no_es_formula(celda: Seq<char>)
    ensures
        ({
            let r = if celda.len() > 0 && es_peligroso(celda[0]) {
                seq!['\''] + celda
            } else {
                celda
            };
            r.len() > 0 ==> !es_peligroso(r[0])
        }),
{
}

} // verus!
