//! Qué va a pasar si se importa un archivo.
//!
//! **Nada se escribe aquí, y eso es la decisión.** Una importación de diez mil
//! filas es irreversible en la práctica: fusionar sobrescribe datos sin
//! preguntar, y saltar deja huecos de los que nadie se entera. Así que este
//! módulo **sólo mira**: recorre el archivo, lo compara con lo que ya hay y
//! consigo mismo, y devuelve un informe.
//!
//! Tampoco toca la base: recibe las direcciones que ya existen como una lista
//! de pares (dirección normalizada, dueño).

use vstd::prelude::*;

use crate::contacto::{
    DatosDeContacto, ErrorDeContacto, MAX_CANALES, ModeloDeCanal, canales_de_contacto,
    errores_de_contacto, modelos,
};
use crate::importacion::{CampoImportable, MotivoDeRechazo, clave_de_rechazo, fila_a_borrador, repartir};
use crate::texto::{
    a_texto, caracteres, decimal, decimal_spec, recortado, recortar_texto, texto_igual, trozo,
};

verus! {

/// La primera fila de datos de una hoja de cálculo es la 2: la 1 son los
/// encabezados.
pub const PRIMERA_FILA_DE_DATOS: usize = 2;

/// Cuántos caracteres de una celda se enseñan para reconocer la fila.
pub const MAX_REFERENCIA: usize = 40;

/// Una fila que no se va a importar, y por qué.
#[derive(Debug, Clone)]
pub struct FilaRechazada {
    /// El número de fila **tal y como lo enseña Excel**.
    pub fila: usize,
    /// Clave de i18n del motivo.
    pub motivo: String,
    /// Lo que se pueda enseñar de la fila para reconocerla.
    pub referencia: String,
}

/// Una dirección del archivo que ya pertenece a alguien.
#[derive(Debug, Clone)]
pub struct Choque {
    pub fila: usize,
    /// La dirección en conflicto, ya normalizada.
    pub direccion: String,
    /// El nombre del contacto que ya la tiene, o el número de la fila anterior
    /// del archivo si el choque es dentro del propio archivo.
    pub con: String,
    /// `true` si choca con otra fila del mismo archivo, `false` si con la base.
    pub dentro_del_archivo: bool,
}

/// El informe completo de lo que pasaría al importar.
#[derive(Debug, Clone, Default)]
pub struct Analisis {
    /// Las filas que se importarían tal cual, ya **validadas**.
    pub listas: Vec<DatosDeContacto>,
    /// A qué fila del archivo corresponde cada una de las listas.
    pub filas_de_las_listas: Vec<usize>,
    pub choques: Vec<Choque>,
    pub rechazadas: Vec<FilaRechazada>,
    /// Filas cuyas direcciones no pasan la validación del núcleo.
    pub invalidas: Vec<FilaRechazada>,
}

// ─────────────────────────────────────────────────────────────────────────
// Modelos
// ─────────────────────────────────────────────────────────────────────────

pub struct ModeloDeRechazo {
    pub fila: usize,
    pub motivo: Seq<char>,
    pub referencia: Seq<char>,
}

impl View for FilaRechazada {
    type V = ModeloDeRechazo;

    open spec fn view(&self) -> ModeloDeRechazo {
        ModeloDeRechazo { fila: self.fila, motivo: self.motivo@, referencia: self.referencia@ }
    }
}

pub struct ModeloDeChoque {
    pub fila: usize,
    pub direccion: Seq<char>,
    pub con: Seq<char>,
    pub dentro_del_archivo: bool,
}

impl View for Choque {
    type V = ModeloDeChoque;

    open spec fn view(&self) -> ModeloDeChoque {
        ModeloDeChoque {
            fila: self.fila,
            direccion: self.direccion@,
            con: self.con@,
            dentro_del_archivo: self.dentro_del_archivo,
        }
    }
}

/// Un contacto validado, como valores.
pub struct ModeloDeContacto {
    pub nombre: Seq<char>,
    pub apellido: Seq<char>,
    pub empresa: Seq<char>,
    pub canales: Seq<ModeloDeCanal>,
}

pub open spec fn modelo_de_contacto(d: DatosDeContacto) -> ModeloDeContacto {
    ModeloDeContacto {
        nombre: d.nombre@,
        apellido: d.apellido@,
        empresa: d.empresa@,
        canales: modelos(d.canales@),
    }
}

#[verifier::ext_equal]
pub struct ModeloDeAnalisis {
    pub listas: Seq<ModeloDeContacto>,
    pub filas_de_las_listas: Seq<usize>,
    pub choques: Seq<ModeloDeChoque>,
    pub rechazadas: Seq<ModeloDeRechazo>,
    pub invalidas: Seq<ModeloDeRechazo>,
}

pub open spec fn modelos_de_choques(v: Seq<Choque>) -> Seq<ModeloDeChoque> {
    v.map_values(|c: Choque| c@)
}

pub open spec fn modelos_de_rechazos(v: Seq<FilaRechazada>) -> Seq<ModeloDeRechazo> {
    v.map_values(|r: FilaRechazada| r@)
}

impl View for Analisis {
    type V = ModeloDeAnalisis;

    open spec fn view(&self) -> ModeloDeAnalisis {
        ModeloDeAnalisis {
            listas: self.listas@.map_values(|d: DatosDeContacto| modelo_de_contacto(d)),
            filas_de_las_listas: self.filas_de_las_listas@,
            choques: modelos_de_choques(self.choques@),
            rechazadas: modelos_de_rechazos(self.rechazadas@),
            invalidas: modelos_de_rechazos(self.invalidas@),
        }
    }
}

impl Analisis {
    /// Cuántas se importarían.
    pub fn cuantas_listas(&self) -> (r: usize)
        ensures
            r == self@.listas.len(),
    {
        self.listas.len()
    }

    /// ¿Hay algo que mirar antes de importar?
    pub fn hay_que_revisar(&self) -> (r: bool)
        ensures
            r == (self@.choques.len() > 0 || self@.rechazadas.len() > 0 || self@.invalidas.len()
                > 0),
    {
        self.choques.len() > 0 || self.rechazadas.len() > 0 || self.invalidas.len() > 0
    }
}

// ─────────────────────────────────────────────────────────────────────────
// Las reglas
// ─────────────────────────────────────────────────────────────────────────

/// Lo que se enseña de una celda: entera si es corta, y si no sus primeros
/// cuarenta caracteres y un «…».
pub open spec fn acortar(t: Seq<char>) -> Seq<char> {
    if t.len() > MAX_REFERENCIA {
        t.take(MAX_REFERENCIA as int).push('…')
    } else {
        t
    }
}

/// ¿Lleva la columna el nombre de la persona?
pub open spec fn es_de_nombre(c: CampoImportable) -> bool {
    c == CampoImportable::Nombre || c == CampoImportable::NombreCompleto
}

/// La primera celda con algo de una columna de nombre, desde la `k`,
/// acortada.
pub open spec fn referencia_de_nombre(mapeo: Seq<CampoImportable>, fila: Seq<String>, k: int) -> Option<
    Seq<char>,
>
    decreases fila.len() - k,
{
    if k < 0 || k >= fila.len() || k >= mapeo.len() {
        None
    } else if es_de_nombre(mapeo[k]) && recortado(fila[k]@).len() > 0 {
        Some(acortar(recortado(fila[k]@)))
    } else {
        referencia_de_nombre(mapeo, fila, k + 1)
    }
}

/// Lo que se enseña para reconocer una fila: su nombre, y si no lo trae, la
/// primera celda con algo; en los dos casos, acortado.
pub open spec fn referencia_spec(mapeo: Seq<CampoImportable>, fila: Seq<String>) -> Seq<char> {
    match referencia_de_nombre(mapeo, fila, 0) {
        Some(r) => r,
        None => referencia_desde(fila, 0),
    }
}

/// La primera celda con algo, desde la `k`, acortada; vacía si no hay ninguna.
pub open spec fn referencia_desde(fila: Seq<String>, k: int) -> Seq<char>
    decreases fila.len() - k,
{
    if k < 0 || k >= fila.len() {
        seq![]
    } else if recortado(fila[k]@).len() > 0 {
        acortar(recortado(fila[k]@))
    } else {
        referencia_desde(fila, k + 1)
    }
}

/// El dueño de una dirección en la base: el del primer par con esa dirección.
pub open spec fn dueno_desde(ya: Seq<(String, String)>, dir: Seq<char>, k: int) -> Option<Seq<char>>
    decreases ya.len() - k,
{
    if k < 0 || k >= ya.len() {
        None
    } else if ya[k].0@ == dir {
        Some(ya[k].1@)
    } else {
        dueno_desde(ya, dir, k + 1)
    }
}

pub open spec fn dueno(ya: Seq<(String, String)>, dir: Seq<char>) -> Option<Seq<char>> {
    dueno_desde(ya, dir, 0)
}

/// La fila del archivo donde se apuntó una dirección.
pub open spec fn vista_desde(vistas: Seq<(Seq<char>, usize)>, dir: Seq<char>, k: int) -> Option<usize>
    decreases vistas.len() - k,
{
    if k < 0 || k >= vistas.len() {
        None
    } else if vistas[k].0 == dir {
        Some(vistas[k].1)
    } else {
        vista_desde(vistas, dir, k + 1)
    }
}

pub open spec fn vista(vistas: Seq<(Seq<char>, usize)>, dir: Seq<char>) -> Option<usize> {
    vista_desde(vistas, dir, 0)
}

/// Los choques de los primeros `n` canales de una fila.
pub open spec fn choques_de(
    canales: Seq<ModeloDeCanal>,
    numero: usize,
    ya: Seq<(String, String)>,
    vistas: Seq<(Seq<char>, usize)>,
    n: nat,
) -> Seq<ModeloDeChoque>
    decreases n,
{
    if n == 0 || n > canales.len() {
        seq![]
    } else {
        let antes = choques_de(canales, numero, ya, vistas, (n - 1) as nat);
        let dir = canales[n - 1].normalizado;
        match dueno(ya, dir) {
            Some(d) => antes.push(
                ModeloDeChoque { fila: numero, direccion: dir, con: d, dentro_del_archivo: false },
            ),
            None => match vista(vistas, dir) {
                Some(a) => antes.push(
                    ModeloDeChoque {
                        fila: numero,
                        direccion: dir,
                        con: decimal_spec(a as nat),
                        dentro_del_archivo: true,
                    },
                ),
                None => antes,
            },
        }
    }
}

/// Las direcciones de una fila que entra, apuntadas con su número.
pub open spec fn apuntes(canales: Seq<ModeloDeCanal>, numero: usize) -> Seq<(Seq<char>, usize)> {
    Seq::new(canales.len(), |k: int| (canales[k].normalizado, numero))
}

pub open spec fn analisis_vacio() -> ModeloDeAnalisis {
    ModeloDeAnalisis {
        listas: seq![],
        filas_de_las_listas: seq![],
        choques: seq![],
        rechazadas: seq![],
        invalidas: seq![],
    }
}

/// Lo que hace una fila con el informe y con las direcciones apuntadas.
pub open spec fn paso(
    a: ModeloDeAnalisis,
    vistas: Seq<(Seq<char>, usize)>,
    mapeo: Seq<CampoImportable>,
    fila: Seq<String>,
    numero: usize,
    pais: Seq<char>,
    ya: Seq<(String, String)>,
) -> (ModeloDeAnalisis, Seq<(Seq<char>, usize)>) {
    let f = repartir(mapeo, fila, mapeo.len() as nat);
    let referencia = referencia_spec(mapeo, fila);
    if f.canales.len() == 0 || f.canales.len() > MAX_CANALES {
        let motivo = if f.canales.len() == 0 {
            MotivoDeRechazo::SinCanales
        } else {
            MotivoDeRechazo::DemasiadosCanales
        };
        (
            ModeloDeAnalisis {
                rechazadas: a.rechazadas.push(
                    ModeloDeRechazo { fila: numero, motivo: clave_de_rechazo(motivo)@, referencia },
                ),
                ..a
            },
            vistas,
        )
    } else if errores_de_contacto(f, pais).len() > 0 {
        (
            ModeloDeAnalisis {
                invalidas: a.invalidas.push(
                    ModeloDeRechazo {
                        fila: numero,
                        motivo: errores_de_contacto(f, pais)[0].clave@,
                        referencia,
                    },
                ),
                ..a
            },
            vistas,
        )
    } else {
        let canales = canales_de_contacto(f, pais);
        let ch = choques_de(canales, numero, ya, vistas, canales.len());
        if ch.len() > 0 {
            (ModeloDeAnalisis { choques: a.choques + ch, ..a }, vistas)
        } else {
            (
                ModeloDeAnalisis {
                    listas: a.listas.push(
                        ModeloDeContacto {
                            nombre: recortado(f.nombre),
                            apellido: recortado(f.apellido),
                            empresa: recortado(f.empresa),
                            canales,
                        },
                    ),
                    filas_de_las_listas: a.filas_de_las_listas.push(numero),
                    ..a
                },
                vistas + apuntes(canales, numero),
            )
        }
    }
}

/// El informe tras las primeras `n` filas, con las direcciones apuntadas.
pub open spec fn analisis_spec(
    mapeo: Seq<CampoImportable>,
    filas: Seq<Vec<String>>,
    pais: Seq<char>,
    ya: Seq<(String, String)>,
    n: nat,
) -> (ModeloDeAnalisis, Seq<(Seq<char>, usize)>)
    decreases n,
{
    if n == 0 || n > filas.len() {
        (analisis_vacio(), seq![])
    } else {
        let (a, vistas) = analisis_spec(mapeo, filas, pais, ya, (n - 1) as nat);
        paso(a, vistas, mapeo, filas[n - 1]@, (n - 1 + PRIMERA_FILA_DE_DATOS) as usize, pais, ya)
    }
}

// ─────────────────────────────────────────────────────────────────────────
// La clasificación
// ─────────────────────────────────────────────────────────────────────────

/// Una celda ya recortada, acortada a cuarenta caracteres y un «…».
fn acortada(t: &Vec<char>) -> (r: String)
    ensures
        r@ == acortar(t@),
{
    if t.len() > MAX_REFERENCIA {
        let mut corto = trozo(t, 0, MAX_REFERENCIA);
        corto.push('…');
        assert(t@.take(MAX_REFERENCIA as int) =~= t@.subrange(0, MAX_REFERENCIA as int));
        a_texto(corto.as_slice())
    } else {
        a_texto(t.as_slice())
    }
}

/// Algo con lo que reconocer la fila en el informe: el nombre, o si la fila
/// no lo trae, la primera celda con algo, recortado a cuarenta caracteres. Una
/// celda de mil caracteres no ayuda a reconocer nada y sí rompe la
/// maquetación del informe.
pub fn referencia_de(mapeo: &[CampoImportable], fila: &[String]) -> (r: String)
    ensures
        r@ == referencia_spec(mapeo@, fila@),
{
    let mut k: usize = 0;
    while k < fila.len() && k < mapeo.len()
        invariant
            k <= fila.len(),
            referencia_de_nombre(mapeo@, fila@, 0) == referencia_de_nombre(mapeo@, fila@, k as int),
        decreases fila.len() - k,
    {
        let c = mapeo[k];
        if c == CampoImportable::Nombre || c == CampoImportable::NombreCompleto {
            let t = recortar_texto(fila[k].as_str());
            if t.len() > 0 {
                return acortada(&t);
            }
        }
        k = k + 1;
    }
    let mut k: usize = 0;
    while k < fila.len()
        invariant
            k <= fila.len(),
            referencia_de_nombre(mapeo@, fila@, 0) is None,
            referencia_desde(fila@, 0) == referencia_desde(fila@, k as int),
        decreases fila.len() - k,
    {
        let t = recortar_texto(fila[k].as_str());
        if t.len() > 0 {
            return acortada(&t);
        }
        k = k + 1;
    }
    String::new()
}

/// La clave del primer error, que es la que se enseña en el informe.
///
/// Se queda con uno a propósito: el informe de diez mil filas con cinco
/// errores cada una es ilegible.
pub fn clave_del_primer_error(errores: &[ErrorDeContacto]) -> (r: String)
    ensures
        errores@.len() > 0 ==> r@ == errores@[0].clave@,
        errores@.len() == 0 ==> r@ == "contacto.error.invalido"@,
{
    if errores.len() > 0 {
        a_texto(caracteres(errores[0].clave).as_slice())
    } else {
        a_texto(caracteres("contacto.error.invalido").as_slice())
    }
}

/// El dueño de una dirección en la base, si lo tiene.
fn buscar_dueno(ya: &Vec<(String, String)>, dir: &str) -> (r: Option<String>)
    ensures
        match r {
            Some(d) => dueno(ya@, dir@) == Some(d@),
            None => dueno(ya@, dir@) is None,
        },
{
    let mut k: usize = 0;
    while k < ya.len()
        invariant
            k <= ya.len(),
            dueno(ya@, dir@) == dueno_desde(ya@, dir@, k as int),
        decreases ya.len() - k,
    {
        if texto_igual(ya[k].0.as_str(), dir) {
            return Some(ya[k].1.clone());
        }
        k = k + 1;
    }
    None
}

/// Las direcciones apuntadas, como valores.
pub open spec fn vista_de_vistas(v: Seq<(String, usize)>) -> Seq<(Seq<char>, usize)> {
    v.map_values(|p: (String, usize)| (p.0@, p.1))
}

fn buscar_vista(vistas: &Vec<(String, usize)>, dir: &str) -> (r: Option<usize>)
    ensures
        r == vista(vista_de_vistas(vistas@), dir@),
{
    let ghost v = vista_de_vistas(vistas@);
    let mut k: usize = 0;
    while k < vistas.len()
        invariant
            k <= vistas.len(),
            v == vista_de_vistas(vistas@),
            vista(v, dir@) == vista_desde(v, dir@, k as int),
        decreases vistas.len() - k,
    {
        if texto_igual(vistas[k].0.as_str(), dir) {
            return Some(vistas[k].1);
        }
        k = k + 1;
    }
    None
}

/// Busca los choques de las direcciones de una fila y los añade. Se miran
/// **todas** las direcciones, no sólo la principal: basta una repetida para
/// que el alta falle entera.
fn buscar_choques(
    canales: &Vec<crate::contacto::CanalValidado>,
    numero: usize,
    ya_existen: &Vec<(String, String)>,
    vistas: &Vec<(String, usize)>,
    choques: &mut Vec<Choque>,
) -> (choco: bool)
    ensures
        modelos_de_choques(final(choques)@) == modelos_de_choques(old(choques)@) + choques_de(
            modelos(canales@),
            numero,
            ya_existen@,
            vista_de_vistas(vistas@),
            canales@.len() as nat,
        ),
        choco == (choques_de(
            modelos(canales@),
            numero,
            ya_existen@,
            vista_de_vistas(vistas@),
            canales@.len() as nat,
        ).len() > 0),
{
    let ghost m = modelos(canales@);
    let ghost v0 = vista_de_vistas(vistas@);
    let ghost inicio = modelos_de_choques(choques@);
    let mut choco = false;
    let mut k: usize = 0;
    while k < canales.len()
        invariant
            k <= canales.len(),
            m == modelos(canales@),
            v0 == vista_de_vistas(vistas@),
            modelos_de_choques(choques@) == inicio + choques_de(m, numero, ya_existen@, v0, k as nat),
            choco == (choques_de(m, numero, ya_existen@, v0, k as nat).len() > 0),
        decreases canales.len() - k,
    {
        let dir = &canales[k].valor_normalizado;
        assert(dir@ == m[k as int].normalizado);
        let ghost antes = choques@;
        match buscar_dueno(ya_existen, dir.as_str()) {
            Some(d) => {
                let c = Choque { fila: numero, direccion: dir.clone(), con: d, dentro_del_archivo: false };
                choques.push(c);
                assert(modelos_de_choques(choques@) =~= modelos_de_choques(antes).push(c@));
                choco = true;
            },
            None => match buscar_vista(vistas, dir.as_str()) {
                Some(previa) => {
                    let c = Choque {
                        fila: numero,
                        direccion: dir.clone(),
                        con: a_texto(decimal(previa).as_slice()),
                        dentro_del_archivo: true,
                    };
                    choques.push(c);
                    assert(modelos_de_choques(choques@) =~= modelos_de_choques(antes).push(c@));
                    choco = true;
                },
                None => {},
            },
        }
        k = k + 1;
    }
    choco
}

/// Apunta las direcciones de una fila que entra.
fn apuntar(
    canales: &Vec<crate::contacto::CanalValidado>,
    numero: usize,
    vistas: &mut Vec<(String, usize)>,
)
    ensures
        vista_de_vistas(final(vistas)@) == vista_de_vistas(old(vistas)@) + apuntes(
            modelos(canales@),
            numero,
        ),
{
    let ghost m = modelos(canales@);
    let ghost v0 = vista_de_vistas(vistas@);
    let mut k: usize = 0;
    while k < canales.len()
        invariant
            k <= canales.len(),
            m == modelos(canales@),
            vista_de_vistas(vistas@) == v0 + apuntes(m, numero).take(k as int),
        decreases canales.len() - k,
    {
        let ghost antes = vistas@;
        vistas.push((canales[k].valor_normalizado.clone(), numero));
        assert(vista_de_vistas(vistas@) =~= vista_de_vistas(antes).push((m[k as int].normalizado, numero)));
        assert(apuntes(m, numero).take(k + 1) =~= apuntes(m, numero).take(k as int).push(
            (m[k as int].normalizado, numero),
        ));
        k = k + 1;
    }
    assert(apuntes(m, numero).take(canales@.len() as int) =~= apuntes(m, numero));
}

/// Clasifica una fila y la lleva a su destino.
#[verifier::spinoff_prover]
#[verifier::rlimit(30)]
fn analizar_fila(
    mapeo: &[CampoImportable],
    fila: &Vec<String>,
    numero: usize,
    pais_por_defecto: &str,
    ya_existen: &Vec<(String, String)>,
    informe: &mut Analisis,
    vistas: &mut Vec<(String, usize)>,
)
    ensures
        (final(informe)@, vista_de_vistas(final(vistas)@)) == paso(
            old(informe)@,
            vista_de_vistas(old(vistas)@),
            mapeo@,
            fila@,
            numero,
            pais_por_defecto@,
            ya_existen@,
        ),
{
    let ghost a0 = informe@;
    match fila_a_borrador(mapeo, fila.as_slice()) {
        Err(motivo) => {
            let rechazo = FilaRechazada {
                fila: numero,
                motivo: a_texto(caracteres(motivo.clave_i18n()).as_slice()),
                referencia: referencia_de(mapeo, fila.as_slice()),
            };
            let ghost antes = informe.rechazadas@;
            informe.rechazadas.push(rechazo);
            assert(modelos_de_rechazos(informe.rechazadas@) =~= modelos_de_rechazos(antes).push(
                rechazo@,
            ));
            assert(informe@ =~= paso(a0, vista_de_vistas(vistas@), mapeo@, fila@, numero, pais_por_defecto@, ya_existen@).0);
        },
        Ok(borrador) => {
            // La validación es la del núcleo, la misma que usa el alta a mano.
            match DatosDeContacto::validar(&borrador, pais_por_defecto) {
                Err(errores) => {
                    let invalida = FilaRechazada {
                        fila: numero,
                        motivo: clave_del_primer_error(errores.as_slice()),
                        referencia: referencia_de(mapeo, fila.as_slice()),
                    };
                    let ghost antes = informe.invalidas@;
                    informe.invalidas.push(invalida);
                    assert(modelos_de_rechazos(informe.invalidas@) =~= modelos_de_rechazos(
                        antes,
                    ).push(invalida@));
                    assert(informe@ =~= paso(a0, vista_de_vistas(vistas@), mapeo@, fila@, numero, pais_por_defecto@, ya_existen@).0);
                },
                Ok(datos) => {
                    let choco = buscar_choques(
                        &datos.canales,
                        numero,
                        ya_existen,
                        vistas,
                        &mut informe.choques,
                    );
                    if !choco {
                        // Sólo se apuntan las direcciones de una fila que **sí**
                        // entra: si se apuntaran las de una fila con choque, la
                        // siguiente chocaría contra una fila que tampoco entra.
                        apuntar(&datos.canales, numero, vistas);
                        informe.filas_de_las_listas.push(numero);
                        let ghost md = modelo_de_contacto(datos);
                        let ghost antes = informe.listas@;
                        informe.listas.push(datos);
                        assert(informe.listas@ == antes.push(datos));
                    }
                    assert(informe@ =~= paso(a0, vista_de_vistas(old(vistas)@), mapeo@, fila@, numero, pais_por_defecto@, ya_existen@).0);
                },
            }
        },
    }
}

/// Clasifica cada fila del archivo **sin escribir nada**.
///
/// `ya_existen` empareja cada dirección normalizada que ya está en la base con
/// el nombre de quien la tiene; si una dirección aparece en más de un par,
/// cuenta el primero. `pais_por_defecto` es el de la empresa, y sólo
/// completa móviles escritos sin prefijo internacional.
///
/// Cada fila acaba en un sitio: rechazada (no trae a quién escribir, o trae
/// demasiado), inválida (la validación del núcleo no la acepta), con choques
/// (alguna de sus direcciones ya es de alguien, en la base o en una fila
/// anterior que sí entra) o lista.
#[verifier::spinoff_prover]
#[verifier::rlimit(40)]
pub fn analizar(
    mapeo: &[CampoImportable],
    filas: &[Vec<String>],
    pais_por_defecto: &str,
    ya_existen: &Vec<(String, String)>,
) -> (r: Analisis)
    requires
        filas@.len() + PRIMERA_FILA_DE_DATOS <= usize::MAX,
    ensures
        r@ == analisis_spec(mapeo@, filas@, pais_por_defecto@, ya_existen@, filas@.len() as nat).0,
{
    let mut informe = Analisis {
        listas: Vec::new(),
        filas_de_las_listas: Vec::new(),
        choques: Vec::new(),
        rechazadas: Vec::new(),
        invalidas: Vec::new(),
    };
    // Direcciones de las filas que sí entran, con la fila donde aparecieron.
    let mut vistas: Vec<(String, usize)> = Vec::new();
    assert(informe@ =~= analisis_vacio()) by {
        assert(informe@.listas =~= seq![]);
        assert(informe@.choques =~= seq![]);
        assert(informe@.rechazadas =~= seq![]);
        assert(informe@.invalidas =~= seq![]);
    }
    assert(vista_de_vistas(vistas@) =~= seq![]);
    let mut i: usize = 0;
    while i < filas.len()
        invariant
            i <= filas.len(),
            filas@.len() + PRIMERA_FILA_DE_DATOS <= usize::MAX,
            (informe@, vista_de_vistas(vistas@)) == analisis_spec(
                mapeo@,
                filas@,
                pais_por_defecto@,
                ya_existen@,
                i as nat,
            ),
        decreases filas.len() - i,
    {
        let ghost previo = analisis_spec(mapeo@, filas@, pais_por_defecto@, ya_existen@, i as nat);
        assert(analisis_spec(mapeo@, filas@, pais_por_defecto@, ya_existen@, (i + 1) as nat) == paso(
            previo.0,
            previo.1,
            mapeo@,
            filas@[i as int]@,
            (i + PRIMERA_FILA_DE_DATOS) as usize,
            pais_por_defecto@,
            ya_existen@,
        ));
        analizar_fila(
            mapeo,
            &filas[i],
            i + PRIMERA_FILA_DE_DATOS,
            pais_por_defecto,
            ya_existen,
            &mut informe,
            &mut vistas,
        );
        i = i + 1;
    }
    informe
}

// ─────────────────────────────────────────────────────────────────────────
// Lo que el informe garantiza
// ─────────────────────────────────────────────────────────────────────────

/// ¿Está apuntada la dirección?
pub open spec fn apuntada(vistas: Seq<(Seq<char>, usize)>, dir: Seq<char>) -> bool {
    exists|k: int| 0 <= k < vistas.len() && (#[trigger] vistas[k]).0 == dir
}

proof fn lema_vista_desde(vistas: Seq<(Seq<char>, usize)>, dir: Seq<char>, k: int)
    requires
        0 <= k <= vistas.len(),
    ensures
        vista_desde(vistas, dir, k) is Some <==> exists|j: int|
            k <= j < vistas.len() && (#[trigger] vistas[j]).0 == dir,
    decreases vistas.len() - k,
{
    if k < vistas.len() {
        lema_vista_desde(vistas, dir, k + 1);
    }
}

proof fn lema_sin_choques(
    canales: Seq<ModeloDeCanal>,
    numero: usize,
    ya: Seq<(String, String)>,
    vistas: Seq<(Seq<char>, usize)>,
    n: nat,
)
    requires
        n <= canales.len(),
        choques_de(canales, numero, ya, vistas, n).len() == 0,
    ensures
        forall|k: int|
            0 <= k < n ==> dueno(ya, (#[trigger] canales[k]).normalizado) is None && !apuntada(
                vistas,
                canales[k].normalizado,
            ),
    decreases n,
{
    if n > 0 {
        lema_sin_choques(canales, numero, ya, vistas, (n - 1) as nat);
        lema_vista_desde(vistas, canales[n - 1].normalizado, 0);
    }
}

/// Lo que vale del informe tras cada fila, incluidas las direcciones
/// apuntadas: son las de las filas listas.
proof fn lema_lo_listo(
    mapeo: Seq<CampoImportable>,
    filas: Seq<Vec<String>>,
    pais: Seq<char>,
    ya: Seq<(String, String)>,
    n: nat,
)
    ensures
        ({
            let (a, vistas) = analisis_spec(mapeo, filas, pais, ya, n);
            &&& forall|i: int, k: int|
                0 <= i < a.listas.len() && 0 <= k < a.listas[i].canales.len() ==> dueno(
                    ya,
                    (#[trigger] a.listas[i].canales[k]).normalizado,
                ) is None && apuntada(vistas, a.listas[i].canales[k].normalizado)
            &&& forall|i: int, j: int, k: int, m: int|
                0 <= i < j < a.listas.len() && 0 <= k < a.listas[i].canales.len() && 0 <= m
                    < a.listas[j].canales.len() ==> (#[trigger] a.listas[i].canales[k]).normalizado
                    != (#[trigger] a.listas[j].canales[m]).normalizado
        }),
    decreases n,
{
    if n > 0 && n <= filas.len() {
        lema_lo_listo(mapeo, filas, pais, ya, (n - 1) as nat);
        let (a, vistas) = analisis_spec(mapeo, filas, pais, ya, (n - 1) as nat);
        let (b, vistas2) = analisis_spec(mapeo, filas, pais, ya, n);
        let numero = (n - 1 + PRIMERA_FILA_DE_DATOS) as usize;
        let fila = filas[n - 1]@;
        let f = repartir(mapeo, fila, mapeo.len() as nat);
        if f.canales.len() == 0 || f.canales.len() > MAX_CANALES {
        } else if errores_de_contacto(f, pais).len() > 0 {
        } else {
            let canales = canales_de_contacto(f, pais);
            let ch = choques_de(canales, numero, ya, vistas, canales.len());
            if ch.len() == 0 {
                lema_sin_choques(canales, numero, ya, vistas, canales.len());
                let nuevo = b.listas[a.listas.len() as int];
                assert(nuevo.canales == canales);
                let ap = apuntes(canales, numero);
                assert(vistas2 == vistas + ap);
                assert forall|i: int, k: int|
                    0 <= i < b.listas.len() && 0 <= k < b.listas[i].canales.len() implies dueno(
                        ya,
                        (#[trigger] b.listas[i].canales[k]).normalizado,
                    ) is None && apuntada(vistas2, b.listas[i].canales[k].normalizado) by {
                    let dir = b.listas[i].canales[k].normalizado;
                    if i < a.listas.len() {
                        assert(b.listas[i] == a.listas[i]);
                        let w = choose|w: int| 0 <= w < vistas.len() && (#[trigger] vistas[w]).0 == dir;
                        assert(vistas2[w] == vistas[w]);
                    } else {
                        assert(canales[k].normalizado == dir);
                        assert(vistas2[vistas.len() + k] == ap[k]);
                    }
                }
                assert forall|i: int, j: int, k: int, m: int|
                    0 <= i < j < b.listas.len() && 0 <= k < b.listas[i].canales.len() && 0 <= m
                        < b.listas[j].canales.len() implies (#[trigger] b.listas[i].canales[k]).normalizado
                        != (#[trigger] b.listas[j].canales[m]).normalizado by {
                    assert(b.listas[i] == a.listas[i]);
                    if j < a.listas.len() {
                        assert(b.listas[j] == a.listas[j]);
                    } else {
                        assert(b.listas[j].canales[m] == canales[m]);
                        assert(dueno(ya, a.listas[i].canales[k].normalizado) is None);
                    }
                }
            }
        }
    }
}

/// **Lo que sale listo no choca con nada.** Ninguna dirección de una fila
/// lista pertenece ya a alguien de la base, y ninguna dirección aparece en dos
/// filas listas del mismo archivo: el duplicado dentro del archivo se queda
/// fuera en vez de reventar al escribir.
pub proof fn ley_lo_listo_no_choca(
    mapeo: Seq<CampoImportable>,
    filas: Seq<Vec<String>>,
    pais: Seq<char>,
    ya: Seq<(String, String)>,
)
    ensures
        ({
            let a = analisis_spec(mapeo, filas, pais, ya, filas.len()).0;
            &&& forall|i: int, k: int|
                0 <= i < a.listas.len() && 0 <= k < a.listas[i].canales.len() ==> dueno(
                    ya,
                    (#[trigger] a.listas[i].canales[k]).normalizado,
                ) is None
            &&& forall|i: int, j: int, k: int, m: int|
                0 <= i < j < a.listas.len() && 0 <= k < a.listas[i].canales.len() && 0 <= m
                    < a.listas[j].canales.len() ==> (#[trigger] a.listas[i].canales[k]).normalizado
                    != (#[trigger] a.listas[j].canales[m]).normalizado
        }),
{
    lema_lo_listo(mapeo, filas, pais, ya, filas.len());
}


/// ¿Acabó la fila con ese número entre las rechazadas?
pub open spec fn rechazada_en(a: ModeloDeAnalisis, numero: usize) -> bool {
    exists|k: int| 0 <= k < a.rechazadas.len() && (#[trigger] a.rechazadas[k]).fila == numero
}

/// ¿Acabó entre las inválidas?
pub open spec fn invalida_en(a: ModeloDeAnalisis, numero: usize) -> bool {
    exists|k: int| 0 <= k < a.invalidas.len() && (#[trigger] a.invalidas[k]).fila == numero
}

/// ¿Tiene algún choque?
pub open spec fn con_choques_en(a: ModeloDeAnalisis, numero: usize) -> bool {
    exists|k: int| 0 <= k < a.choques.len() && (#[trigger] a.choques[k]).fila == numero
}

/// ¿Está entre las listas?
pub open spec fn lista_en(a: ModeloDeAnalisis, numero: usize) -> bool {
    exists|k: int|
        0 <= k < a.filas_de_las_listas.len() && (#[trigger] a.filas_de_las_listas[k]) == numero
}

/// En cuántos de los cuatro destinos aparece una fila.
pub open spec fn destinos(a: ModeloDeAnalisis, numero: usize) -> int {
    (if rechazada_en(a, numero) { 1int } else { 0int }) + (if invalida_en(a, numero) {
        1int
    } else {
        0int
    }) + (if con_choques_en(a, numero) { 1int } else { 0int }) + (if lista_en(a, numero) {
        1int
    } else {
        0int
    })
}

/// Todos los números de fila del informe están por debajo de `tope`.
pub open spec fn numeros_bajo(a: ModeloDeAnalisis, tope: int) -> bool {
    &&& forall|k: int| 0 <= k < a.rechazadas.len() ==> (#[trigger] a.rechazadas[k]).fila < tope
    &&& forall|k: int| 0 <= k < a.invalidas.len() ==> (#[trigger] a.invalidas[k]).fila < tope
    &&& forall|k: int| 0 <= k < a.choques.len() ==> (#[trigger] a.choques[k]).fila < tope
    &&& forall|k: int|
        0 <= k < a.filas_de_las_listas.len() ==> (#[trigger] a.filas_de_las_listas[k]) < tope
}

proof fn lema_choques_de_la_fila(
    canales: Seq<ModeloDeCanal>,
    numero: usize,
    ya: Seq<(String, String)>,
    vistas: Seq<(Seq<char>, usize)>,
    n: nat,
)
    ensures
        forall|k: int|
            0 <= k < choques_de(canales, numero, ya, vistas, n).len() ==> (#[trigger] choques_de(
                canales,
                numero,
                ya,
                vistas,
                n,
            )[k]).fila == numero,
    decreases n,
{
    if n > 0 && n <= canales.len() {
        lema_choques_de_la_fila(canales, numero, ya, vistas, (n - 1) as nat);
        let antes = choques_de(canales, numero, ya, vistas, (n - 1) as nat);
        let c = choques_de(canales, numero, ya, vistas, n);
        assert forall|k: int| 0 <= k < c.len() implies (#[trigger] c[k]).fila == numero by {
            if k < antes.len() {
                assert(c[k] == antes[k]);
            }
        }
    }
}

/// Las cuatro formas en que una fila cambia el informe: añade una rechazada,
/// una inválida, sus choques o una lista con su número, y nada más.
pub open spec fn forma_del_paso(a: ModeloDeAnalisis, b: ModeloDeAnalisis, numero: usize) -> bool {
    ||| {
        &&& b.rechazadas.len() == a.rechazadas.len() + 1
        &&& b.rechazadas.drop_last() == a.rechazadas
        &&& b.rechazadas.last().fila == numero
        &&& b.invalidas == a.invalidas
        &&& b.choques == a.choques
        &&& b.filas_de_las_listas == a.filas_de_las_listas
    }
    ||| {
        &&& b.invalidas.len() == a.invalidas.len() + 1
        &&& b.invalidas.drop_last() == a.invalidas
        &&& b.invalidas.last().fila == numero
        &&& b.rechazadas == a.rechazadas
        &&& b.choques == a.choques
        &&& b.filas_de_las_listas == a.filas_de_las_listas
    }
    ||| {
        &&& b.choques.len() > a.choques.len()
        &&& b.choques.take(a.choques.len() as int) == a.choques
        &&& forall|k: int|
            a.choques.len() <= k < b.choques.len() ==> (#[trigger] b.choques[k]).fila == numero
        &&& b.rechazadas == a.rechazadas
        &&& b.invalidas == a.invalidas
        &&& b.filas_de_las_listas == a.filas_de_las_listas
    }
    ||| {
        &&& b.filas_de_las_listas == a.filas_de_las_listas.push(numero)
        &&& b.rechazadas == a.rechazadas
        &&& b.invalidas == a.invalidas
        &&& b.choques == a.choques
    }
}

proof fn lema_forma_del_paso(
    a: ModeloDeAnalisis,
    vistas: Seq<(Seq<char>, usize)>,
    mapeo: Seq<CampoImportable>,
    fila: Seq<String>,
    numero: usize,
    pais: Seq<char>,
    ya: Seq<(String, String)>,
)
    ensures
        forma_del_paso(a, paso(a, vistas, mapeo, fila, numero, pais, ya).0, numero),
{
    let b = paso(a, vistas, mapeo, fila, numero, pais, ya).0;
    let f = repartir(mapeo, fila, mapeo.len() as nat);
    if f.canales.len() == 0 || f.canales.len() > MAX_CANALES {
        assert(b.rechazadas.drop_last() =~= a.rechazadas);
    } else if errores_de_contacto(f, pais).len() > 0 {
        assert(b.invalidas.drop_last() =~= a.invalidas);
    } else {
        let canales = canales_de_contacto(f, pais);
        let ch = choques_de(canales, numero, ya, vistas, canales.len());
        lema_choques_de_la_fila(canales, numero, ya, vistas, canales.len());
        if ch.len() > 0 {
            assert(b.choques.take(a.choques.len() as int) =~= a.choques);
            assert forall|k: int| a.choques.len() <= k < b.choques.len() implies (
            #[trigger] b.choques[k]).fila == numero by {
                assert(b.choques[k] == ch[k - a.choques.len()]);
            }
        }
    }
}

/// Lo que una fila hace con los destinos: la suya queda en uno solo, y las
/// anteriores no cambian de sitio.
proof fn lema_paso_un_destino(a: ModeloDeAnalisis, b: ModeloDeAnalisis, numero: usize)
    requires
        numeros_bajo(a, numero as int),
        numero + 1 <= usize::MAX,
        forma_del_paso(a, b, numero),
    ensures
        numeros_bajo(b, numero + 1),
        destinos(b, numero) == 1,
        forall|m: usize|
            m < numero ==> rechazada_en(b, m) == rechazada_en(a, m) && invalida_en(b, m)
                == invalida_en(a, m) && con_choques_en(b, m) == con_choques_en(a, m)
                && #[trigger] lista_en(b, m) == lista_en(a, m),
{
    assert(!rechazada_en(a, numero));
    assert(!invalida_en(a, numero));
    assert(!con_choques_en(a, numero));
    assert(!lista_en(a, numero));
    let nr = a.rechazadas.len() as int;
    let ni = a.invalidas.len() as int;
    let nc = a.choques.len() as int;
    let nl = a.filas_de_las_listas.len() as int;
    if b.rechazadas.len() == nr + 1 && b.rechazadas.drop_last() == a.rechazadas
        && b.rechazadas.last().fila == numero && b.invalidas == a.invalidas && b.choques
        == a.choques && b.filas_de_las_listas == a.filas_de_las_listas {
        assert(forall|k: int| 0 <= k < nr ==> b.rechazadas[k] == #[trigger] a.rechazadas[k]);
        assert(b.rechazadas[nr].fila == numero);
        assert forall|k: int| 0 <= k < b.rechazadas.len() implies (#[trigger] b.rechazadas[k]).fila
            < numero + 1 by {
            if k < nr {
                assert(b.rechazadas[k] == a.rechazadas[k]);
            }
        }
        assert(rechazada_en(b, numero));
        assert forall|m: usize| m < numero implies #[trigger] rechazada_en(b, m) == rechazada_en(a, m) by {
            if rechazada_en(b, m) {
                let k = choose|k: int| 0 <= k < b.rechazadas.len() && (#[trigger] b.rechazadas[k]).fila == m;
                assert(k < nr);
                assert(a.rechazadas[k].fila == m);
            }
        }
        assert(forall|m: usize| m < numero ==> #[trigger] lista_en(b, m) == lista_en(a, m));
    } else if b.invalidas.len() == ni + 1 && b.invalidas.drop_last() == a.invalidas
        && b.invalidas.last().fila == numero && b.rechazadas == a.rechazadas && b.choques
        == a.choques && b.filas_de_las_listas == a.filas_de_las_listas {
        assert(forall|k: int| 0 <= k < ni ==> b.invalidas[k] == #[trigger] a.invalidas[k]);
        assert(b.invalidas[ni].fila == numero);
        assert forall|k: int| 0 <= k < b.invalidas.len() implies (#[trigger] b.invalidas[k]).fila
            < numero + 1 by {
            if k < ni {
                assert(b.invalidas[k] == a.invalidas[k]);
            }
        }
        assert(invalida_en(b, numero));
        assert forall|m: usize| m < numero implies #[trigger] invalida_en(b, m) == invalida_en(a, m) by {
            if invalida_en(b, m) {
                let k = choose|k: int| 0 <= k < b.invalidas.len() && (#[trigger] b.invalidas[k]).fila == m;
                assert(k < ni);
                assert(a.invalidas[k].fila == m);
            }
        }
    } else if b.choques.len() > nc && b.choques.take(nc) == a.choques && (forall|k: int|
        nc <= k < b.choques.len() ==> (#[trigger] b.choques[k]).fila == numero)
        && b.rechazadas == a.rechazadas && b.invalidas == a.invalidas && b.filas_de_las_listas
        == a.filas_de_las_listas {
        assert(forall|k: int| 0 <= k < nc ==> b.choques[k] == #[trigger] a.choques[k]);
        assert(b.choques[nc].fila == numero);
        assert forall|k: int| 0 <= k < b.choques.len() implies (#[trigger] b.choques[k]).fila
            < numero + 1 by {
            if k < nc {
                assert(b.choques[k] == a.choques[k]);
            }
        }
        assert(con_choques_en(b, numero));
        assert forall|m: usize| m < numero implies #[trigger] con_choques_en(b, m) == con_choques_en(a, m) by {
            if con_choques_en(b, m) {
                let k = choose|k: int| 0 <= k < b.choques.len() && (#[trigger] b.choques[k]).fila == m;
                assert(k < nc);
                assert(a.choques[k].fila == m);
            }
            if con_choques_en(a, m) {
                let k = choose|k: int| 0 <= k < a.choques.len() && (#[trigger] a.choques[k]).fila == m;
                assert(b.choques[k] == a.choques[k]);
            }
        }
    } else {
        assert(b.filas_de_las_listas == a.filas_de_las_listas.push(numero));
        assert(b.filas_de_las_listas[nl] == numero);
        assert forall|k: int| 0 <= k < b.filas_de_las_listas.len() implies (
        #[trigger] b.filas_de_las_listas[k]) < numero + 1 by {
            if k < nl {
                assert(b.filas_de_las_listas[k] == a.filas_de_las_listas[k]);
            }
        }
        assert(lista_en(b, numero));
        assert forall|m: usize| m < numero implies #[trigger] lista_en(b, m) == lista_en(a, m) by {
            if lista_en(b, m) {
                let k = choose|k: int| 0 <= k < b.filas_de_las_listas.len() && (#[trigger] b.filas_de_las_listas[k]) == m;
                assert(k < nl);
            }
            if lista_en(a, m) {
                let k = choose|k: int| 0 <= k < a.filas_de_las_listas.len() && (#[trigger] a.filas_de_las_listas[k]) == m;
                assert(b.filas_de_las_listas[k] == m);
            }
        }
    }
}

/// Tras cada fila: cada fila vista está en un solo destino, y los números
/// del informe son de filas ya vistas.
proof fn lema_un_destino(
    mapeo: Seq<CampoImportable>,
    filas: Seq<Vec<String>>,
    pais: Seq<char>,
    ya: Seq<(String, String)>,
    n: nat,
)
    requires
        n <= filas.len(),
        filas.len() + PRIMERA_FILA_DE_DATOS <= usize::MAX,
    ensures
        ({
            let a = analisis_spec(mapeo, filas, pais, ya, n).0;
            &&& numeros_bajo(a, n + PRIMERA_FILA_DE_DATOS)
            &&& forall|i: int|
                0 <= i < n ==> #[trigger] destinos(a, (i + PRIMERA_FILA_DE_DATOS) as usize) == 1
        }),
    decreases n,
{
    if n > 0 {
        lema_un_destino(mapeo, filas, pais, ya, (n - 1) as nat);
        let (a, vistas) = analisis_spec(mapeo, filas, pais, ya, (n - 1) as nat);
        let b = analisis_spec(mapeo, filas, pais, ya, n).0;
        let numero = (n - 1 + PRIMERA_FILA_DE_DATOS) as usize;
        lema_forma_del_paso(a, vistas, mapeo, filas[n - 1]@, numero, pais, ya);
        assert(b == paso(a, vistas, mapeo, filas[n - 1]@, numero, pais, ya).0);
        lema_paso_un_destino(a, b, numero);
        lema_los_destinos_siguen(a, b, (n - 1) as nat);
    }
}

/// Si las filas anteriores no cambian de sitio y la nueva queda en uno, todas
/// las vistas siguen en uno solo.
proof fn lema_los_destinos_siguen(a: ModeloDeAnalisis, b: ModeloDeAnalisis, n: nat)
    requires
        n + PRIMERA_FILA_DE_DATOS + 1 <= usize::MAX,
        forall|i: int| 0 <= i < n ==> #[trigger] destinos(a, (i + PRIMERA_FILA_DE_DATOS) as usize) == 1,
        destinos(b, (n + PRIMERA_FILA_DE_DATOS) as usize) == 1,
        forall|m: usize|
            m < n + PRIMERA_FILA_DE_DATOS ==> rechazada_en(b, m) == rechazada_en(a, m) && invalida_en(b, m)
                == invalida_en(a, m) && con_choques_en(b, m) == con_choques_en(a, m)
                && #[trigger] lista_en(b, m) == lista_en(a, m),
    ensures
        forall|i: int| 0 <= i < n + 1 ==> #[trigger] destinos(b, (i + PRIMERA_FILA_DE_DATOS) as usize) == 1,
{
    assert forall|i: int| 0 <= i < n + 1 implies #[trigger] destinos(
        b,
        (i + PRIMERA_FILA_DE_DATOS) as usize,
    ) == 1 by {
        if i < n {
            let m = (i + PRIMERA_FILA_DE_DATOS) as usize;
            assert(destinos(a, m) == 1);
            assert(lista_en(b, m) == lista_en(a, m));
        }
    }
}

/// **Cada fila acaba en un solo sitio**: rechazada, inválida, con choques o
/// lista, y en ninguno más; y el informe no nombra filas que el archivo no
/// tiene.
pub proof fn ley_cada_fila_en_un_destino(
    mapeo: Seq<CampoImportable>,
    filas: Seq<Vec<String>>,
    pais: Seq<char>,
    ya: Seq<(String, String)>,
)
    requires
        filas.len() + PRIMERA_FILA_DE_DATOS <= usize::MAX,
    ensures
        ({
            let a = analisis_spec(mapeo, filas, pais, ya, filas.len()).0;
            &&& numeros_bajo(a, filas.len() + PRIMERA_FILA_DE_DATOS)
            &&& forall|i: int|
                0 <= i < filas.len() ==> #[trigger] destinos(a, (i + PRIMERA_FILA_DE_DATOS) as usize)
                    == 1
        }),
{
    lema_un_destino(mapeo, filas, pais, ya, filas.len());
}


/// ¿Choca alguna dirección de la fila, con la base o con una fila anterior
/// que ya entró?
pub open spec fn choca_alguna(
    canales: Seq<ModeloDeCanal>,
    ya: Seq<(String, String)>,
    vistas: Seq<(Seq<char>, usize)>,
) -> bool {
    exists|k: int|
        0 <= k < canales.len() && (dueno(ya, (#[trigger] canales[k]).normalizado) is Some || vista(
            vistas,
            canales[k].normalizado,
        ) is Some)
}

proof fn lema_hay_choques(
    canales: Seq<ModeloDeCanal>,
    numero: usize,
    ya: Seq<(String, String)>,
    vistas: Seq<(Seq<char>, usize)>,
    n: nat,
)
    requires
        n <= canales.len(),
    ensures
        choques_de(canales, numero, ya, vistas, n).len() > 0 <==> exists|k: int|
            0 <= k < n && (dueno(ya, (#[trigger] canales[k]).normalizado) is Some || vista(
                vistas,
                canales[k].normalizado,
            ) is Some),
    decreases n,
{
    if n > 0 {
        lema_hay_choques(canales, numero, ya, vistas, (n - 1) as nat);
        let k = n - 1;
        if dueno(ya, canales[k].normalizado) is Some || vista(vistas, canales[k].normalizado) is Some {
            assert(canales[k] == canales[k]);
        }
    }
}

/// A qué destino manda una fila el paso que la clasifica.
#[verifier::rlimit(30)]
proof fn lema_clasificacion_paso(
    a: ModeloDeAnalisis,
    vistas: Seq<(Seq<char>, usize)>,
    mapeo: Seq<CampoImportable>,
    fila: Seq<String>,
    numero: usize,
    pais: Seq<char>,
    ya: Seq<(String, String)>,
)
    requires
        numeros_bajo(a, numero as int),
    ensures
        ({
            let b = paso(a, vistas, mapeo, fila, numero, pais, ya).0;
            let f = repartir(mapeo, fila, mapeo.len() as nat);
            let c1 = f.canales.len() == 0 || f.canales.len() > MAX_CANALES;
            let c2 = errores_de_contacto(f, pais).len() > 0;
            let choca = choca_alguna(canales_de_contacto(f, pais), ya, vistas);
            &&& rechazada_en(b, numero) <==> c1
            &&& invalida_en(b, numero) <==> !c1 && c2
            &&& con_choques_en(b, numero) <==> !c1 && !c2 && choca
            &&& lista_en(b, numero) <==> !c1 && !c2 && !choca
        }),
{
    let b = paso(a, vistas, mapeo, fila, numero, pais, ya).0;
    let f = repartir(mapeo, fila, mapeo.len() as nat);
    assert(!rechazada_en(a, numero));
    assert(!invalida_en(a, numero));
    assert(!con_choques_en(a, numero));
    assert(!lista_en(a, numero));
    if f.canales.len() == 0 || f.canales.len() > MAX_CANALES {
        assert(b.rechazadas[a.rechazadas.len() as int].fila == numero);
        assert(b.invalidas == a.invalidas && b.choques == a.choques && b.filas_de_las_listas
            == a.filas_de_las_listas);
    } else if errores_de_contacto(f, pais).len() > 0 {
        assert(b.invalidas[a.invalidas.len() as int].fila == numero);
        assert(b.rechazadas == a.rechazadas && b.choques == a.choques && b.filas_de_las_listas
            == a.filas_de_las_listas);
    } else {
        let canales = canales_de_contacto(f, pais);
        let ch = choques_de(canales, numero, ya, vistas, canales.len());
        lema_hay_choques(canales, numero, ya, vistas, canales.len());
        lema_choques_de_la_fila(canales, numero, ya, vistas, canales.len());
        if ch.len() > 0 {
            assert(b.choques == a.choques + ch);
            assert(b.choques[a.choques.len() as int] == ch[0]);
            assert(b.rechazadas == a.rechazadas && b.invalidas == a.invalidas
                && b.filas_de_las_listas == a.filas_de_las_listas);
        } else {
            assert(b.filas_de_las_listas[a.filas_de_las_listas.len() as int] == numero);
            assert(b.rechazadas == a.rechazadas && b.invalidas == a.invalidas && b.choques
                == a.choques);
        }
    }
}

/// Lo que se sabe de una fila no cambia con las filas que vienen detrás.
proof fn lema_la_fila_se_queda(
    mapeo: Seq<CampoImportable>,
    filas: Seq<Vec<String>>,
    pais: Seq<char>,
    ya: Seq<(String, String)>,
    i: nat,
    n: nat,
)
    requires
        i < n <= filas.len(),
        filas.len() + PRIMERA_FILA_DE_DATOS <= usize::MAX,
    ensures
        ({
            let m = (i + PRIMERA_FILA_DE_DATOS) as usize;
            let a1 = analisis_spec(mapeo, filas, pais, ya, i + 1).0;
            let a2 = analisis_spec(mapeo, filas, pais, ya, n).0;
            &&& rechazada_en(a2, m) == rechazada_en(a1, m)
            &&& invalida_en(a2, m) == invalida_en(a1, m)
            &&& con_choques_en(a2, m) == con_choques_en(a1, m)
            &&& lista_en(a2, m) == lista_en(a1, m)
        }),
    decreases n,
{
    if n > i + 1 {
        lema_la_fila_se_queda(mapeo, filas, pais, ya, i, (n - 1) as nat);
        lema_un_destino(mapeo, filas, pais, ya, (n - 1) as nat);
        let (a, vistas) = analisis_spec(mapeo, filas, pais, ya, (n - 1) as nat);
        let b = analisis_spec(mapeo, filas, pais, ya, n).0;
        let numero = (n - 1 + PRIMERA_FILA_DE_DATOS) as usize;
        lema_forma_del_paso(a, vistas, mapeo, filas[n - 1]@, numero, pais, ya);
        assert(b == paso(a, vistas, mapeo, filas[n - 1]@, numero, pais, ya).0);
        lema_paso_un_destino(a, b, numero);
        let m = (i + PRIMERA_FILA_DE_DATOS) as usize;
        assert(lista_en(b, m) == lista_en(a, m));
    }
}

/// **A dónde va cada fila.** Una fila sin canales, o con más de diez, se
/// rechaza; si no, es inválida cuando la validación del contacto la rechaza;
/// si no, tiene choques cuando alguna de sus direcciones ya es de alguien de la
/// base o de una fila anterior que entró (las apuntadas hasta ella); y si no,
/// entra entre las listas.
pub proof fn ley_a_donde_va_cada_fila(
    mapeo: Seq<CampoImportable>,
    filas: Seq<Vec<String>>,
    pais: Seq<char>,
    ya: Seq<(String, String)>,
    i: nat,
)
    requires
        i < filas.len(),
        filas.len() + PRIMERA_FILA_DE_DATOS <= usize::MAX,
    ensures
        ({
            let a = analisis_spec(mapeo, filas, pais, ya, filas.len()).0;
            let vistas = analisis_spec(mapeo, filas, pais, ya, i).1;
            let f = repartir(mapeo, filas[i as int]@, mapeo.len() as nat);
            let n = (i + PRIMERA_FILA_DE_DATOS) as usize;
            let c1 = f.canales.len() == 0 || f.canales.len() > MAX_CANALES;
            let c2 = errores_de_contacto(f, pais).len() > 0;
            let choca = choca_alguna(canales_de_contacto(f, pais), ya, vistas);
            &&& rechazada_en(a, n) <==> c1
            &&& invalida_en(a, n) <==> !c1 && c2
            &&& con_choques_en(a, n) <==> !c1 && !c2 && choca
            &&& lista_en(a, n) <==> !c1 && !c2 && !choca
        }),
{
    lema_un_destino(mapeo, filas, pais, ya, i);
    let (a0, vistas) = analisis_spec(mapeo, filas, pais, ya, i);
    let n = (i + PRIMERA_FILA_DE_DATOS) as usize;
    lema_clasificacion_paso(a0, vistas, mapeo, filas[i as int]@, n, pais, ya);
    assert(analisis_spec(mapeo, filas, pais, ya, i + 1).0 == paso(
        a0,
        vistas,
        mapeo,
        filas[i as int]@,
        n,
        pais,
        ya,
    ).0);
    lema_la_fila_se_queda(mapeo, filas, pais, ya, i, filas.len());
}


/// ¿Es `(dir, numero)` una dirección de una fila lista, con su número?
pub open spec fn de_una_lista(a: ModeloDeAnalisis, dir: Seq<char>, numero: usize) -> bool {
    exists|j: int, k: int|
        0 <= j < a.listas.len() && 0 <= k < a.listas[j].canales.len() && (#[trigger] a.listas[j].canales[k]).normalizado
            == dir && #[trigger] a.filas_de_las_listas[j] == numero
}

proof fn lema_apuntes_paso(
    a: ModeloDeAnalisis,
    b: ModeloDeAnalisis,
    vistas: Seq<(Seq<char>, usize)>,
    canales: Seq<ModeloDeCanal>,
    numero: usize,
)
    requires
        a.listas.len() == a.filas_de_las_listas.len(),
        forall|w: int| 0 <= w < vistas.len() ==> de_una_lista(a, (#[trigger] vistas[w]).0, vistas[w].1),
        b.listas.len() == a.listas.len() + 1,
        forall|j: int| 0 <= j < a.listas.len() ==> b.listas[j] == a.listas[j],
        b.listas[a.listas.len() as int].canales == canales,
        b.filas_de_las_listas == a.filas_de_las_listas.push(numero),
    ensures
        b.listas.len() == b.filas_de_las_listas.len(),
        forall|w: int|
            0 <= w < (vistas + apuntes(canales, numero)).len() ==> de_una_lista(
                b,
                (#[trigger] (vistas + apuntes(canales, numero))[w]).0,
                (vistas + apuntes(canales, numero))[w].1,
            ),
{
    let ap = apuntes(canales, numero);
    let vistas2 = vistas + ap;
    let jn = a.listas.len() as int;
    assert(b.filas_de_las_listas[jn] == numero);
    assert forall|w: int| 0 <= w < vistas2.len() implies de_una_lista(
        b,
        (#[trigger] vistas2[w]).0,
        vistas2[w].1,
    ) by {
        if w < vistas.len() {
            assert(vistas2[w] == vistas[w]);
            let (j, k) = choose|j: int, k: int|
                0 <= j < a.listas.len() && 0 <= k < a.listas[j].canales.len() && (
                #[trigger] a.listas[j].canales[k]).normalizado == vistas[w].0
                    && #[trigger] a.filas_de_las_listas[j] == vistas[w].1;
            assert(b.listas[j] == a.listas[j]);
            assert(b.filas_de_las_listas[j] == a.filas_de_las_listas[j]);
        } else {
            let k = w - vistas.len();
            assert(vistas2[w] == ap[k]);
            assert(b.listas[jn].canales[k].normalizado == vistas2[w].0);
        }
    }
}

#[verifier::spinoff_prover]
#[verifier::rlimit(30)]
proof fn lema_apuntes_de_las_listas(
    mapeo: Seq<CampoImportable>,
    filas: Seq<Vec<String>>,
    pais: Seq<char>,
    ya: Seq<(String, String)>,
    n: nat,
)
    ensures
        ({
            let (a, vistas) = analisis_spec(mapeo, filas, pais, ya, n);
            &&& a.listas.len() == a.filas_de_las_listas.len()
            &&& forall|w: int|
                0 <= w < vistas.len() ==> de_una_lista(a, (#[trigger] vistas[w]).0, vistas[w].1)
        }),
    decreases n,
{
    if n > 0 && n <= filas.len() {
        lema_apuntes_de_las_listas(mapeo, filas, pais, ya, (n - 1) as nat);
        let (a, vistas) = analisis_spec(mapeo, filas, pais, ya, (n - 1) as nat);
        let (b, vistas2) = analisis_spec(mapeo, filas, pais, ya, n);
        let numero = (n - 1 + PRIMERA_FILA_DE_DATOS) as usize;
        let fila = filas[n - 1]@;
        let f = repartir(mapeo, fila, mapeo.len() as nat);
        if f.canales.len() == 0 || f.canales.len() > MAX_CANALES {
        } else if errores_de_contacto(f, pais).len() > 0 {
        } else {
            let canales = canales_de_contacto(f, pais);
            let ch = choques_de(canales, numero, ya, vistas, canales.len());
            if ch.len() == 0 {
                assert(vistas2 == vistas + apuntes(canales, numero));
                lema_apuntes_paso(a, b, vistas, canales, numero);
            }
        }
    }
}

/// **Lo apuntado son las direcciones de las filas que entraron.** Tras cada
/// fila, cada dirección apuntada —con la que chocan las filas siguientes— es
/// de una fila lista y lleva su número, y cada dirección de una fila lista está
/// apuntada. Es lo que da sentido al choque «con una fila anterior» de
/// [`ley_a_donde_va_cada_fila`].
pub proof fn ley_lo_apuntado_es_de_filas_listas(
    mapeo: Seq<CampoImportable>,
    filas: Seq<Vec<String>>,
    pais: Seq<char>,
    ya: Seq<(String, String)>,
    n: nat,
)
    ensures
        ({
            let (a, vistas) = analisis_spec(mapeo, filas, pais, ya, n);
            &&& a.listas.len() == a.filas_de_las_listas.len()
            &&& forall|w: int|
                0 <= w < vistas.len() ==> de_una_lista(a, (#[trigger] vistas[w]).0, vistas[w].1)
            &&& forall|j: int, k: int|
                0 <= j < a.listas.len() && 0 <= k < a.listas[j].canales.len() ==> apuntada(
                    vistas,
                    (#[trigger] a.listas[j].canales[k]).normalizado,
                )
        }),
{
    lema_apuntes_de_las_listas(mapeo, filas, pais, ya, n);
    lema_lo_listo(mapeo, filas, pais, ya, n);
}

/// Cada lista del informe va en el orden del archivo: los números de fila
/// crecen en las rechazadas, en las inválidas y en las listas, y no bajan en
/// los choques (una fila puede tener varios).
pub open spec fn en_orden(a: ModeloDeAnalisis) -> bool {
    &&& forall|i: int, j: int|
        0 <= i < j < a.rechazadas.len() ==> (#[trigger] a.rechazadas[i]).fila
            < (#[trigger] a.rechazadas[j]).fila
    &&& forall|i: int, j: int|
        0 <= i < j < a.invalidas.len() ==> (#[trigger] a.invalidas[i]).fila
            < (#[trigger] a.invalidas[j]).fila
    &&& forall|i: int, j: int|
        0 <= i < j < a.choques.len() ==> (#[trigger] a.choques[i]).fila
            <= (#[trigger] a.choques[j]).fila
    &&& forall|i: int, j: int|
        0 <= i < j < a.filas_de_las_listas.len() ==> (#[trigger] a.filas_de_las_listas[i])
            < (#[trigger] a.filas_de_las_listas[j])
}

#[verifier::spinoff_prover]
proof fn lema_en_orden_paso(a: ModeloDeAnalisis, b: ModeloDeAnalisis, numero: usize)
    requires
        en_orden(a),
        numeros_bajo(a, numero as int),
        forma_del_paso(a, b, numero),
    ensures
        en_orden(b),
{
    let nr = a.rechazadas.len() as int;
    let ni = a.invalidas.len() as int;
    let nc = a.choques.len() as int;
    let nl = a.filas_de_las_listas.len() as int;
    if b.rechazadas.len() == nr + 1 && b.rechazadas.drop_last() == a.rechazadas
        && b.rechazadas.last().fila == numero && b.invalidas == a.invalidas && b.choques
        == a.choques && b.filas_de_las_listas == a.filas_de_las_listas {
        assert forall|i: int, j: int| 0 <= i < j < b.rechazadas.len() implies (
        #[trigger] b.rechazadas[i]).fila < (#[trigger] b.rechazadas[j]).fila by {
            assert(b.rechazadas[i] == a.rechazadas[i]);
            if j < nr {
                assert(b.rechazadas[j] == a.rechazadas[j]);
            }
        }
    } else if b.invalidas.len() == ni + 1 && b.invalidas.drop_last() == a.invalidas
        && b.invalidas.last().fila == numero && b.rechazadas == a.rechazadas && b.choques
        == a.choques && b.filas_de_las_listas == a.filas_de_las_listas {
        assert forall|i: int, j: int| 0 <= i < j < b.invalidas.len() implies (
        #[trigger] b.invalidas[i]).fila < (#[trigger] b.invalidas[j]).fila by {
            assert(b.invalidas[i] == a.invalidas[i]);
            if j < ni {
                assert(b.invalidas[j] == a.invalidas[j]);
            }
        }
    } else if b.choques.len() > nc && b.choques.take(nc) == a.choques && (forall|k: int|
        nc <= k < b.choques.len() ==> (#[trigger] b.choques[k]).fila == numero)
        && b.rechazadas == a.rechazadas && b.invalidas == a.invalidas && b.filas_de_las_listas
        == a.filas_de_las_listas {
        assert forall|i: int, j: int| 0 <= i < j < b.choques.len() implies (
        #[trigger] b.choques[i]).fila <= (#[trigger] b.choques[j]).fila by {
            if i < nc {
                assert(b.choques[i] == b.choques.take(nc)[i]);
                assert(b.choques[i] == a.choques[i]);
            }
            if j < nc {
                assert(b.choques[j] == b.choques.take(nc)[j]);
                assert(b.choques[j] == a.choques[j]);
            }
        }
    } else {
        assert(b.filas_de_las_listas == a.filas_de_las_listas.push(numero));
        assert forall|i: int, j: int| 0 <= i < j < b.filas_de_las_listas.len() implies (
        #[trigger] b.filas_de_las_listas[i]) < (#[trigger] b.filas_de_las_listas[j]) by {
            assert(b.filas_de_las_listas[i] == a.filas_de_las_listas[i]);
            if j < nl {
                assert(b.filas_de_las_listas[j] == a.filas_de_las_listas[j]);
            }
        }
    }
}

/// **El informe sigue el orden del archivo.** Las rechazadas, las inválidas,
/// los choques y las listas salen en el orden de sus filas, y cada lista va
/// emparejada con el número de su fila.
pub proof fn ley_el_informe_sigue_el_orden_del_archivo(
    mapeo: Seq<CampoImportable>,
    filas: Seq<Vec<String>>,
    pais: Seq<char>,
    ya: Seq<(String, String)>,
    n: nat,
)
    requires
        n <= filas.len(),
        filas.len() + PRIMERA_FILA_DE_DATOS <= usize::MAX,
    ensures
        ({
            let a = analisis_spec(mapeo, filas, pais, ya, n).0;
            &&& en_orden(a)
            &&& a.listas.len() == a.filas_de_las_listas.len()
        }),
    decreases n,
{
    lema_apuntes_de_las_listas(mapeo, filas, pais, ya, n);
    if n > 0 {
        ley_el_informe_sigue_el_orden_del_archivo(mapeo, filas, pais, ya, (n - 1) as nat);
        lema_un_destino(mapeo, filas, pais, ya, (n - 1) as nat);
        let (a, vistas) = analisis_spec(mapeo, filas, pais, ya, (n - 1) as nat);
        let b = analisis_spec(mapeo, filas, pais, ya, n).0;
        let numero = (n - 1 + PRIMERA_FILA_DE_DATOS) as usize;
        lema_forma_del_paso(a, vistas, mapeo, filas[n - 1]@, numero, pais, ya);
        assert(b == paso(a, vistas, mapeo, filas[n - 1]@, numero, pais, ya).0);
        lema_en_orden_paso(a, b, numero);
    }
}

} // verus!
