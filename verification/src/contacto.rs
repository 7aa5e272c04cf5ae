//! Un contacto y sus canales, con su validación.
//!
//! Un contacto es una persona, no una dirección: **tiene** canales —uno o
//! varios correos, uno o varios móviles, o una mezcla—. Este módulo decide si
//! un conjunto de canales forma un contacto al que se le puede escribir.

use vstd::prelude::*;

use crate::canal::{Canal, ValorDeCanal, valor_normalizado};
use crate::error::CoreError;
use crate::texto::{a_texto, copiar, recortado, recortar_texto, texto_igual};

verus! {

/// Tope del nombre y del apellido, en caracteres.
pub const MAX_NOMBRE: usize = 80;

/// Tope del nombre de la empresa del contacto.
pub const MAX_EMPRESA: usize = 120;

/// Cuántos canales admite un contacto.
pub const MAX_CANALES: usize = 10;

/// Qué campo falló, para que la pantalla **señale el campo**.
#[derive(Debug, Clone, Copy, PartialEq, Eq, Structural)]
pub enum CampoDeContacto {
    Nombre,
    Apellido,
    Empresa,
    /// El problema está en la lista de canales como conjunto.
    Canales,
    /// El problema está en un canal concreto; el índice va en el error.
    Canal,
}

/// Un canal tal y como llega del formulario o de una importación.
#[derive(Debug, Clone, PartialEq, Eq)]
pub struct BorradorDeCanal {
    pub canal: Canal,
    /// Lo que se escribió, sin normalizar.
    pub valor: String,
    /// Si es el que se usa por defecto para su tipo. **Lo elige el usuario.**
    pub principal: bool,
}

/// Un contacto tal y como llega del formulario.
#[derive(Debug, Clone, PartialEq, Eq)]
pub struct BorradorDeContacto {
    pub nombre: String,
    pub apellido: String,
    pub empresa: String,
    pub canales: Vec<BorradorDeCanal>,
}

/// Un canal de un borrador, como valores.
pub struct ModeloDeBorradorDeCanal {
    pub canal: Canal,
    pub valor: Seq<char>,
    pub principal: bool,
}

/// Un borrador de contacto, como valores.
pub struct ModeloDeBorradorDeContacto {
    pub nombre: Seq<char>,
    pub apellido: Seq<char>,
    pub empresa: Seq<char>,
    pub canales: Seq<ModeloDeBorradorDeCanal>,
}

impl View for BorradorDeCanal {
    type V = ModeloDeBorradorDeCanal;

    open spec fn view(&self) -> ModeloDeBorradorDeCanal {
        ModeloDeBorradorDeCanal { canal: self.canal, valor: self.valor@, principal: self.principal }
    }
}

impl View for BorradorDeContacto {
    type V = ModeloDeBorradorDeContacto;

    open spec fn view(&self) -> ModeloDeBorradorDeContacto {
        ModeloDeBorradorDeContacto {
            nombre: self.nombre@,
            apellido: self.apellido@,
            empresa: self.empresa@,
            canales: self.canales@.map_values(|c: BorradorDeCanal| c@),
        }
    }
}

/// Un error de validación, con el campo al que pertenece.
#[derive(Debug, Clone, Copy, PartialEq, Eq)]
pub struct ErrorDeContacto {
    pub campo: CampoDeContacto,
    /// Posición del canal que falló, cuando el campo es `Canal`.
    pub indice: Option<usize>,
    /// Clave de i18n. La interfaz resuelve el texto.
    pub clave: &'static str,
}

/// Un contacto ya validado, con sus canales normalizados.
#[derive(Debug, Clone, PartialEq, Eq)]
pub struct DatosDeContacto {
    pub nombre: String,
    pub apellido: String,
    pub empresa: String,
    pub canales: Vec<CanalValidado>,
}

/// Un canal validado y normalizado.
#[derive(Debug, PartialEq, Eq)]
pub struct CanalValidado {
    pub canal: Canal,
    /// Lo que escribió el usuario, para poder mostrarlo tal cual.
    pub valor_raw: String,
    /// La forma canónica: la clave de la deduplicación y de la supresión.
    pub valor_normalizado: String,
    pub principal: bool,
}

/// Lo que dice un canal validado, como valores.
pub struct ModeloDeCanal {
    pub canal: Canal,
    pub raw: Seq<char>,
    pub normalizado: Seq<char>,
    pub principal: bool,
}

impl View for CanalValidado {
    type V = ModeloDeCanal;

    open spec fn view(&self) -> ModeloDeCanal {
        ModeloDeCanal {
            canal: self.canal,
            raw: self.valor_raw@,
            normalizado: self.valor_normalizado@,
            principal: self.principal,
        }
    }
}

/// Los modelos de una lista de canales validados.
pub open spec fn modelos(v: Seq<CanalValidado>) -> Seq<ModeloDeCanal> {
    v.map_values(|c: CanalValidado| c@)
}

impl CanalValidado {
    /// Una copia con los mismos valores.
    pub fn copia(&self) -> (r: Self)
        ensures
            r@ == self@,
    {
        CanalValidado {
            canal: self.canal,
            valor_raw: self.valor_raw.clone(),
            valor_normalizado: self.valor_normalizado.clone(),
            principal: self.principal,
        }
    }

    /// Una copia con otra marca de principal.
    pub fn con_principal(&self, principal: bool) -> (r: Self)
        ensures
            r@ == (ModeloDeCanal { principal, ..self@ }),
    {
        CanalValidado {
            canal: self.canal,
            valor_raw: self.valor_raw.clone(),
            valor_normalizado: self.valor_normalizado.clone(),
            principal,
        }
    }
}

impl Clone for CanalValidado {
    fn clone(&self) -> (r: Self)
        ensures
            r@ == self@,
    {
        self.copia()
    }
}

// ─────────────────────────────────────────────────────────────────────────
// La regla, como especificación
// ─────────────────────────────────────────────────────────────────────────

/// ¿Ya hay en `v` un canal de ese tipo con esa forma normalizada?
pub open spec fn ya_esta(v: Seq<ModeloDeCanal>, canal: Canal, norm: Seq<char>) -> bool {
    exists|j: int| 0 <= j < v.len() && (#[trigger] v[j]).canal == canal && v[j].normalizado == norm
}

/// La clave del error de un canal cuyo valor no se pudo validar.
pub open spec fn clave_de_canal_invalido(canal: Canal) -> &'static str {
    match canal {
        Canal::Correo => "contacto.error.correoInvalido",
        Canal::WhatsApp => "contacto.error.telefonoInvalido",
    }
}

/// Los primeros `n` canales, uno tras otro: los que se aceptan y los errores.
///
/// Un canal repetido **dentro del mismo contacto** es un error que dice cuál
/// sobra; uno que no se valida, un error con su índice.
pub open spec fn procesar_canales(canales: Seq<ModeloDeBorradorDeCanal>, pais: Seq<char>, n: nat) -> (
    Seq<ModeloDeCanal>,
    Seq<ErrorDeContacto>,
)
    decreases n,
{
    if n == 0 || n > canales.len() {
        (seq![], seq![])
    } else {
        let (v, e) = procesar_canales(canales, pais, (n - 1) as nat);
        let c = canales[n - 1];
        match valor_normalizado(c.canal, c.valor, pais) {
            Some(norm) => if ya_esta(v, c.canal, norm) {
                (
                    v,
                    e.push(
                        ErrorDeContacto {
                            campo: CampoDeContacto::Canal,
                            indice: Some((n - 1) as usize),
                            clave: "contacto.error.canalRepetido",
                        },
                    ),
                )
            } else {
                (
                    v.push(
                        ModeloDeCanal {
                            canal: c.canal,
                            raw: recortado(c.valor),
                            normalizado: norm,
                            principal: c.principal,
                        },
                    ),
                    e,
                )
            },
            None => (
                v,
                e.push(
                    ErrorDeContacto {
                        campo: CampoDeContacto::Canal,
                        indice: Some((n - 1) as usize),
                        clave: clave_de_canal_invalido(c.canal),
                    },
                ),
            ),
        }
    }
}

/// Un error de campo si `falla`, o nada.
pub open spec fn error_si(falla: bool, campo: CampoDeContacto, clave: &'static str) -> Seq<
    ErrorDeContacto,
> {
    if falla {
        seq![ErrorDeContacto { campo, indice: None, clave }]
    } else {
        seq![]
    }
}

/// Todos los errores de un borrador, en el orden en que se comprueban.
pub open spec fn errores_de_contacto(b: ModeloDeBorradorDeContacto, pais: Seq<char>) -> Seq<ErrorDeContacto> {
    error_si(recortado(b.nombre).len() > MAX_NOMBRE, CampoDeContacto::Nombre, "contacto.error.nombreLargo")
        + error_si(
        recortado(b.apellido).len() > MAX_NOMBRE,
        CampoDeContacto::Apellido,
        "contacto.error.apellidoLargo",
    ) + error_si(
        recortado(b.empresa).len() > MAX_EMPRESA,
        CampoDeContacto::Empresa,
        "contacto.error.empresaLarga",
    ) + error_si(b.canales.len() == 0, CampoDeContacto::Canales, "contacto.error.sinCanales")
        + error_si(
        b.canales.len() > MAX_CANALES,
        CampoDeContacto::Canales,
        "contacto.error.demasiadosCanales",
    ) + procesar_canales(b.canales, pais, b.canales.len()).1
}

/// La primera posición de un canal de ese tipo marcado como principal.
pub open spec fn primer_marcado(v: Seq<ModeloDeCanal>, t: Canal) -> Option<int> {
    if exists|k: int| 0 <= k < v.len() && (#[trigger] v[k]).canal == t && v[k].principal {
        Some(
            choose|k: int|
                0 <= k < v.len() && v[k].canal == t && v[k].principal && forall|m: int|
                    0 <= m < k ==> !((#[trigger] v[m]).canal == t && v[m].principal),
        )
    } else {
        None
    }
}

/// La primera posición de un canal de ese tipo.
pub open spec fn primero_de(v: Seq<ModeloDeCanal>, t: Canal) -> Option<int> {
    if exists|k: int| 0 <= k < v.len() && (#[trigger] v[k]).canal == t {
        Some(
            choose|k: int|
                0 <= k < v.len() && v[k].canal == t && forall|m: int|
                    0 <= m < k ==> (#[trigger] v[m]).canal != t,
        )
    } else {
        None
    }
}

/// El principal de un tipo: el primero marcado, y si no hay, el primero.
pub open spec fn elegido(v: Seq<ModeloDeCanal>, t: Canal) -> Option<int> {
    match primer_marcado(v, t) {
        Some(k) => Some(k),
        None => primero_de(v, t),
    }
}

/// Deja exactamente un principal por tipo.
pub open spec fn marcar_spec(v: Seq<ModeloDeCanal>) -> Seq<ModeloDeCanal> {
    Seq::new(
        v.len(),
        |k: int| ModeloDeCanal { principal: elegido(v, v[k].canal) == Some(k), ..v[k] },
    )
}

/// El orden de la ficha: correos antes que móviles, y el principal arriba.
pub open spec fn clave_de_orden(c: ModeloDeCanal) -> int {
    (if c.canal is Correo {
        0int
    } else {
        2int
    }) + (if c.principal {
        0int
    } else {
        1int
    })
}

/// Los de una clase de orden, en el orden en que llegaron.
pub open spec fn de_clase(v: Seq<ModeloDeCanal>, q: int) -> Seq<ModeloDeCanal>
    decreases v.len(),
{
    if v.len() == 0 {
        seq![]
    } else if clave_de_orden(v.last()) == q {
        de_clase(v.drop_last(), q).push(v.last())
    } else {
        de_clase(v.drop_last(), q)
    }
}

/// Ordenación estable por la clave de la ficha.
pub open spec fn ordenado(v: Seq<ModeloDeCanal>) -> Seq<ModeloDeCanal> {
    de_clase(v, 0) + de_clase(v, 1) + de_clase(v, 2) + de_clase(v, 3)
}

/// Los canales de un contacto válido, tal y como quedan.
pub open spec fn canales_de_contacto(b: ModeloDeBorradorDeContacto, pais: Seq<char>) -> Seq<ModeloDeCanal> {
    ordenado(marcar_spec(procesar_canales(b.canales, pais, b.canales.len()).0))
}

// ─────────────────────────────────────────────────────────────────────────
// La validación
// ─────────────────────────────────────────────────────────────────────────

impl DatosDeContacto {
    /// Valida y normaliza un contacto con sus canales.
    ///
    /// `pais_por_defecto` es el de la empresa, y sólo se usa para completar
    /// móviles escritos sin prefijo internacional.
    ///
    /// Devuelve la **lista completa** de errores, no el primero: la pantalla
    /// tiene que poder marcar todos los campos malos de una vez.
    pub fn validar(borrador: &BorradorDeContacto, pais_por_defecto: &str) -> (r: Result<
        Self,
        Vec<ErrorDeContacto>,
    >)
        ensures
            errores_de_contacto(borrador@, pais_por_defecto@).len() > 0 ==> (r matches Err(e)
                && e@ == errores_de_contacto(borrador@, pais_por_defecto@)),
            errores_de_contacto(borrador@, pais_por_defecto@).len() == 0 ==> (r matches Ok(d)
                && d.nombre@ == recortado(borrador.nombre@) && d.apellido@ == recortado(
                borrador.apellido@,
            ) && d.empresa@ == recortado(borrador.empresa@) && modelos(d.canales@)
                == canales_de_contacto(borrador@, pais_por_defecto@)),
    {
        let mut errores: Vec<ErrorDeContacto> = Vec::new();
        let nombre = recortar_texto(borrador.nombre.as_str());
        let apellido = recortar_texto(borrador.apellido.as_str());
        let empresa = recortar_texto(borrador.empresa.as_str());
        if nombre.len() > MAX_NOMBRE {
            errores.push(
                ErrorDeContacto {
                    campo: CampoDeContacto::Nombre,
                    indice: None,
                    clave: "contacto.error.nombreLargo",
                },
            );
        }
        if apellido.len() > MAX_NOMBRE {
            errores.push(
                ErrorDeContacto {
                    campo: CampoDeContacto::Apellido,
                    indice: None,
                    clave: "contacto.error.apellidoLargo",
                },
            );
        }
        if empresa.len() > MAX_EMPRESA {
            errores.push(
                ErrorDeContacto {
                    campo: CampoDeContacto::Empresa,
                    indice: None,
                    clave: "contacto.error.empresaLarga",
                },
            );
        }
        if borrador.canales.len() == 0 {
            errores.push(
                ErrorDeContacto {
                    campo: CampoDeContacto::Canales,
                    indice: None,
                    clave: "contacto.error.sinCanales",
                },
            );
        }
        if borrador.canales.len() > MAX_CANALES {
            errores.push(
                ErrorDeContacto {
                    campo: CampoDeContacto::Canales,
                    indice: None,
                    clave: "contacto.error.demasiadosCanales",
                },
            );
        }
        let ghost b = borrador@;
        let ghost pais = pais_por_defecto@;
        let ghost fijos = errores@;
        assert(fijos =~= error_si(
            recortado(b.nombre).len() > MAX_NOMBRE,
            CampoDeContacto::Nombre,
            "contacto.error.nombreLargo",
        ) + error_si(
            recortado(b.apellido).len() > MAX_NOMBRE,
            CampoDeContacto::Apellido,
            "contacto.error.apellidoLargo",
        ) + error_si(
            recortado(b.empresa).len() > MAX_EMPRESA,
            CampoDeContacto::Empresa,
            "contacto.error.empresaLarga",
        ) + error_si(b.canales.len() == 0, CampoDeContacto::Canales, "contacto.error.sinCanales")
            + error_si(
            b.canales.len() > MAX_CANALES,
            CampoDeContacto::Canales,
            "contacto.error.demasiadosCanales",
        ));
        let mut validados: Vec<CanalValidado> = Vec::new();
        let n = borrador.canales.len();
        let mut i: usize = 0;
        while i < n
            invariant
                i <= n == b.canales.len(),
                b == borrador@,
                pais == pais_por_defecto@,
                modelos(validados@) == procesar_canales(b.canales, pais, i as nat).0,
                errores@ == fijos + procesar_canales(b.canales, pais, i as nat).1,
            decreases n - i,
        {
            let c = &borrador.canales[i];
            assert(c@ == b.canales[i as int]);
            let ghost antes = procesar_canales(b.canales, pais, i as nat);
            assert(procesar_canales(b.canales, pais, (i + 1) as nat) == ({
                let (v, e) = antes;
                let c = b.canales[i as int];
                match valor_normalizado(c.canal, c.valor, pais) {
                    Some(norm) => if ya_esta(v, c.canal, norm) {
                        (
                            v,
                            e.push(
                                ErrorDeContacto {
                                    campo: CampoDeContacto::Canal,
                                    indice: Some(i),
                                    clave: "contacto.error.canalRepetido",
                                },
                            ),
                        )
                    } else {
                        (
                            v.push(
                                ModeloDeCanal {
                                    canal: c.canal,
                                    raw: recortado(c.valor),
                                    normalizado: norm,
                                    principal: c.principal,
                                },
                            ),
                            e,
                        )
                    },
                    None => (
                        v,
                        e.push(
                            ErrorDeContacto {
                                campo: CampoDeContacto::Canal,
                                indice: Some(i),
                                clave: clave_de_canal_invalido(c.canal),
                            },
                        ),
                    ),
                }
            }));
            match ValorDeCanal::parse(c.canal, c.valor.as_str(), pais_por_defecto) {
                Ok(valor) => {
                    let norm = valor.normalized();
                    if ya_registrado(&validados, c.canal, norm) {
                        errores.push(
                            ErrorDeContacto {
                                campo: CampoDeContacto::Canal,
                                indice: Some(i),
                                clave: "contacto.error.canalRepetido",
                            },
                        );
                    } else {
                        let nuevo = CanalValidado {
                            canal: c.canal,
                            valor_raw: copiar(valor.raw()),
                            valor_normalizado: copiar(norm),
                            principal: c.principal,
                        };
                        validados.push(nuevo);
                        assert(modelos(validados@) =~= antes.0.push(nuevo@));
                    }
                },
                Err(_) => {
                    let clave = match c.canal {
                        Canal::Correo => "contacto.error.correoInvalido",
                        Canal::WhatsApp => "contacto.error.telefonoInvalido",
                    };
                    errores.push(ErrorDeContacto { campo: CampoDeContacto::Canal, indice: Some(i), clave });
                },
            }
            assert(errores@ =~= fijos + procesar_canales(b.canales, pais, (i + 1) as nat).1);
            i = i + 1;
        }
        if errores.len() > 0 {
            return Err(errores);
        }
        let marcados = marcar_principales(&validados);
        let ordenados = ordenar_para_la_ficha(&marcados);
        Ok(
            DatosDeContacto {
                nombre: a_texto(nombre.as_slice()),
                apellido: a_texto(apellido.as_slice()),
                empresa: a_texto(empresa.as_slice()),
                canales: ordenados,
            },
        )
    }

    /// El canal principal de un tipo, que es lo que enseña la tabla.
    pub fn principal_de(&self, canal: Canal) -> (r: Option<&CanalValidado>)
        ensures
            match r {
                Some(c) => exists|k: int|
                    0 <= k < self.canales@.len() && self.canales@[k] == *c && c.canal == canal
                        && c.principal && forall|m: int|
                        0 <= m < k ==> !((#[trigger] self.canales@[m]).canal == canal
                            && self.canales@[m].principal),
                None => forall|k: int|
                    0 <= k < self.canales@.len() ==> !((#[trigger] self.canales@[k]).canal == canal
                        && self.canales@[k].principal),
            },
    {
        let mut k: usize = 0;
        while k < self.canales.len()
            invariant
                k <= self.canales.len(),
                forall|m: int|
                    0 <= m < k ==> !((#[trigger] self.canales@[m]).canal == canal
                        && self.canales@[m].principal),
            decreases self.canales.len() - k,
        {
            if self.canales[k].canal == canal && self.canales[k].principal {
                return Some(&self.canales[k]);
            }
            k = k + 1;
        }
        None
    }

    /// Cuántos canales de ese tipo tiene.
    pub fn cuantos_de(&self, canal: Canal) -> (r: usize)
        ensures
            r == cuantos_de_tipo(modelos(self.canales@), canal),
    {
        let mut total: usize = 0;
        let mut k: usize = 0;
        while k < self.canales.len()
            invariant
                k <= self.canales.len(),
                total == cuantos_de_tipo(modelos(self.canales@).take(k as int), canal),
                total <= k,
            decreases self.canales.len() - k,
        {
            assert(modelos(self.canales@).take(k + 1).drop_last() =~= modelos(self.canales@).take(
                k as int,
            ));
            if self.canales[k].canal == canal {
                total = total + 1;
            }
            k = k + 1;
        }
        assert(modelos(self.canales@).take(self.canales@.len() as int) =~= modelos(self.canales@));
        total
    }
}

/// Cuántos canales de un tipo hay.
pub open spec fn cuantos_de_tipo(v: Seq<ModeloDeCanal>, t: Canal) -> nat
    decreases v.len(),
{
    if v.len() == 0 {
        0
    } else {
        cuantos_de_tipo(v.drop_last(), t) + if v.last().canal == t {
            1nat
        } else {
            0nat
        }
    }
}

/// ¿Hay ya en `v` un canal de ese tipo con esa forma normalizada?
fn ya_registrado(v: &Vec<CanalValidado>, canal: Canal, norm: &str) -> (r: bool)
    ensures
        r == ya_esta(modelos(v@), canal, norm@),
{
    let ghost m = modelos(v@);
    let mut j: usize = 0;
    while j < v.len()
        invariant
            j <= v.len(),
            m == modelos(v@),
            forall|x: int|
                0 <= x < j ==> !((#[trigger] m[x]).canal == canal && m[x].normalizado == norm@),
        decreases v.len() - j,
    {
        if v[j].canal == canal && texto_igual(v[j].valor_normalizado.as_str(), norm) {
            assert(m[j as int].canal == canal && m[j as int].normalizado == norm@);
            return true;
        }
        j = j + 1;
    }
    false
}

/// La posición del principal de un tipo, según la regla de [`elegido`].
fn elegir(v: &Vec<CanalValidado>, t: Canal) -> (r: Option<usize>)
    ensures
        match r {
            Some(k) => elegido(modelos(v@), t) == Some(k as int),
            None => elegido(modelos(v@), t) is None,
        },
{
    let ghost m = modelos(v@);
    let mut k: usize = 0;
    while k < v.len()
        invariant
            k <= v.len(),
            m == modelos(v@),
            forall|j: int| 0 <= j < k ==> !((#[trigger] m[j]).canal == t && m[j].principal),
        decreases v.len() - k,
    {
        if v[k].canal == t && v[k].principal {
            proof {
                let w = choose|j: int|
                    0 <= j < m.len() && m[j].canal == t && m[j].principal && forall|x: int|
                        0 <= x < j ==> !((#[trigger] m[x]).canal == t && m[x].principal);
                assert(m[k as int].canal == t && m[k as int].principal);
                if w > k {
                    assert(!(m[k as int].canal == t && m[k as int].principal));
                }
            }
            return Some(k);
        }
        k = k + 1;
    }
    assert(primer_marcado(m, t) is None);
    let mut k: usize = 0;
    while k < v.len()
        invariant
            k <= v.len(),
            m == modelos(v@),
            primer_marcado(m, t) is None,
            forall|j: int| 0 <= j < k ==> (#[trigger] m[j]).canal != t,
        decreases v.len() - k,
    {
        if v[k].canal == t {
            proof {
                let w = choose|j: int|
                    0 <= j < m.len() && m[j].canal == t && forall|x: int|
                        0 <= x < j ==> (#[trigger] m[x]).canal != t;
                assert(m[k as int].canal == t);
                if w > k {
                    assert(m[k as int].canal != t);
                }
            }
            return Some(k);
        }
        k = k + 1;
    }
    None
}

/// Deja **exactamente un principal por tipo**.
///
/// Ninguno marcado —lo normal al importar—: se marca el primero de su tipo.
/// Varios marcados —al editar a mano—: gana el primero y los demás se
/// desmarcan, porque «principal» que apunta a dos sitios no es principal.
#[verifier::rlimit(40)]
fn marcar_principales(canales: &Vec<CanalValidado>) -> (r: Vec<CanalValidado>)
    ensures
        modelos(r@) == marcar_spec(modelos(canales@)),
{
    let correo = elegir(canales, Canal::Correo);
    let whatsapp = elegir(canales, Canal::WhatsApp);
    let ghost m = modelos(canales@);
    let mut r: Vec<CanalValidado> = Vec::new();
    let mut k: usize = 0;
    while k < canales.len()
        invariant
            k <= canales.len(),
            m == modelos(canales@),
            modelos(r@) == marcar_spec(m).take(k as int),
            match correo {
                Some(x) => elegido(m, Canal::Correo) == Some(x as int),
                None => elegido(m, Canal::Correo) is None,
            },
            match whatsapp {
                Some(x) => elegido(m, Canal::WhatsApp) == Some(x as int),
                None => elegido(m, Canal::WhatsApp) is None,
            },
        decreases canales.len() - k,
    {
        let elegido_del_tipo = match canales[k].canal {
            Canal::Correo => correo,
            Canal::WhatsApp => whatsapp,
        };
        let es = match elegido_del_tipo {
            Some(x) => x == k,
            None => false,
        };
        let nuevo = canales[k].con_principal(es);
        assert(m[k as int] == canales@[k as int]@);
        assert(nuevo@ == marcar_spec(m)[k as int]);
        let ghost previo = r@;
        r.push(nuevo);
        assert(r@ == previo.push(nuevo));
        assert(modelos(r@) =~= modelos(previo).push(nuevo@));
        assert(marcar_spec(m).take(k + 1) =~= marcar_spec(m).take(k as int).push(
            marcar_spec(m)[k as int],
        ));
        k = k + 1;
    }
    assert(marcar_spec(m).take(canales@.len() as int) =~= marcar_spec(m));
    r
}

/// Los de una clase de orden, en el orden de entrada.
fn copiar_clase(v: &Vec<CanalValidado>, q: usize, r: &mut Vec<CanalValidado>)
    requires
        q < 4,
    ensures
        modelos(final(r)@) == modelos(old(r)@) + de_clase(modelos(v@), q as int),
{
    let ghost m = modelos(v@);
    let ghost inicio = modelos(r@);
    let mut k: usize = 0;
    while k < v.len()
        invariant
            k <= v.len(),
            m == modelos(v@),
            modelos(r@) == inicio + de_clase(m.take(k as int), q as int),
        decreases v.len() - k,
    {
        assert(m.take(k + 1).drop_last() =~= m.take(k as int));
        assert(m.take(k + 1).last() == v@[k as int]@);
        let clave: usize = match v[k].canal {
            Canal::Correo => 0,
            Canal::WhatsApp => 2,
        } + if v[k].principal {
            0
        } else {
            1
        };
        assert(clave as int == clave_de_orden(m[k as int]));
        if clave == q {
            let c = v[k].copia();
            let ghost previo = r@;
            r.push(c);
            assert(modelos(r@) =~= modelos(previo).push(c@));
            assert(modelos(r@) =~= inicio + de_clase(m.take(k + 1), q as int));
        }
        k = k + 1;
    }
    assert(m.take(v@.len() as int) =~= m);
}

/// El orden de la ficha: primero los correos y después los móviles; dentro de
/// cada tipo, el principal arriba. Entre los demás se respeta el orden de
/// entrada: la ordenación es estable.
fn ordenar_para_la_ficha(canales: &Vec<CanalValidado>) -> (r: Vec<CanalValidado>)
    ensures
        modelos(r@) == ordenado(modelos(canales@)),
{
    let mut r: Vec<CanalValidado> = Vec::new();
    assert(modelos(r@) =~= seq![]);
    copiar_clase(canales, 0, &mut r);
    copiar_clase(canales, 1, &mut r);
    copiar_clase(canales, 2, &mut r);
    copiar_clase(canales, 3, &mut r);
    assert(modelos(r@) =~= ordenado(modelos(canales@)));
    r
}

// ─────────────────────────────────────────────────────────────────────────
// Lo que la validación garantiza
// ─────────────────────────────────────────────────────────────────────────

/// Cuántos canales de un tipo están marcados como principales.
pub open spec fn principales_de(v: Seq<ModeloDeCanal>, t: Canal) -> nat
    decreases v.len(),
{
    if v.len() == 0 {
        0
    } else {
        principales_de(v.drop_last(), t) + if v.last().canal == t && v.last().principal {
            1nat
        } else {
            0nat
        }
    }
}

/// ¿Hay algún canal de ese tipo?
pub open spec fn hay_de_tipo(v: Seq<ModeloDeCanal>, t: Canal) -> bool {
    exists|k: int| 0 <= k < v.len() && (#[trigger] v[k]).canal == t
}

/// La clave de orden del principal de un tipo.
pub open spec fn clave_del_principal(t: Canal) -> int {
    if t is Correo {
        0
    } else {
        2
    }
}

proof fn lema_principales_suma(a: Seq<ModeloDeCanal>, b: Seq<ModeloDeCanal>, t: Canal)
    ensures
        principales_de(a + b, t) == principales_de(a, t) + principales_de(b, t),
    decreases b.len(),
{
    if b.len() == 0 {
        assert(a + b =~= a);
    } else {
        assert((a + b).drop_last() =~= a + b.drop_last());
        lema_principales_suma(a, b.drop_last(), t);
    }
}

proof fn lema_principales_de_clase(v: Seq<ModeloDeCanal>, q: int, t: Canal)
    ensures
        principales_de(de_clase(v, q), t) == if q == clave_del_principal(t) {
            principales_de(v, t)
        } else {
            0
        },
    decreases v.len(),
{
    if v.len() > 0 {
        lema_principales_de_clase(v.drop_last(), q, t);
        let d = de_clase(v.drop_last(), q);
        assert(d.push(v.last()).drop_last() =~= d);
    }
}

proof fn lema_contar_unico(w: Seq<ModeloDeCanal>, t: Canal, e: Option<int>)
    requires
        e matches Some(x) ==> 0 <= x < w.len(),
        forall|k: int|
            0 <= k < w.len() ==> (((#[trigger] w[k]).canal == t && w[k].principal) <==> e == Some(
                k,
            )),
    ensures
        principales_de(w, t) == if e is Some {
            1nat
        } else {
            0nat
        },
    decreases w.len(),
{
    if w.len() > 0 {
        let u = w.drop_last();
        let e2 = if e == Some(w.len() - 1) {
            None
        } else {
            e
        };
        assert forall|k: int| 0 <= k < u.len() implies (((#[trigger] u[k]).canal == t
            && u[k].principal) <==> e2 == Some(k)) by {
            assert(u[k] == w[k]);
        }
        lema_contar_unico(u, t, e2);
        assert(w.last() == w[w.len() - 1]);
    }
}

proof fn lema_hay_primer_marcado(v: Seq<ModeloDeCanal>, t: Canal, k0: int)
    requires
        0 <= k0 < v.len(),
        v[k0].canal == t && v[k0].principal,
    ensures
        exists|k: int|
            0 <= k < v.len() && v[k].canal == t && v[k].principal && forall|m: int|
                0 <= m < k ==> !((#[trigger] v[m]).canal == t && v[m].principal),
    decreases k0,
{
    if exists|j: int| 0 <= j < k0 && (#[trigger] v[j]).canal == t && v[j].principal {
        let j = choose|j: int| 0 <= j < k0 && (#[trigger] v[j]).canal == t && v[j].principal;
        lema_hay_primer_marcado(v, t, j);
    } else {
        assert(forall|m: int| 0 <= m < k0 ==> !((#[trigger] v[m]).canal == t && v[m].principal));
    }
}

proof fn lema_hay_primero(v: Seq<ModeloDeCanal>, t: Canal, k0: int)
    requires
        0 <= k0 < v.len(),
        v[k0].canal == t,
    ensures
        exists|k: int|
            0 <= k < v.len() && v[k].canal == t && forall|m: int|
                0 <= m < k ==> (#[trigger] v[m]).canal != t,
    decreases k0,
{
    if exists|j: int| 0 <= j < k0 && (#[trigger] v[j]).canal == t {
        let j = choose|j: int| 0 <= j < k0 && (#[trigger] v[j]).canal == t;
        lema_hay_primero(v, t, j);
    } else {
        assert(forall|m: int| 0 <= m < k0 ==> (#[trigger] v[m]).canal != t);
    }
}

proof fn lema_elegido(v: Seq<ModeloDeCanal>, t: Canal)
    ensures
        elegido(v, t) is Some <==> hay_de_tipo(v, t),
        elegido(v, t) matches Some(k) ==> 0 <= k < v.len() && v[k].canal == t,
{
    if exists|k: int| 0 <= k < v.len() && (#[trigger] v[k]).canal == t && v[k].principal {
        let k = choose|k: int| 0 <= k < v.len() && (#[trigger] v[k]).canal == t && v[k].principal;
        lema_hay_primer_marcado(v, t, k);
        assert(hay_de_tipo(v, t));
    } else if hay_de_tipo(v, t) {
        let k = choose|k: int| 0 <= k < v.len() && (#[trigger] v[k]).canal == t;
        lema_hay_primero(v, t, k);
    }
}

/// Ordenar la ficha sólo cambia el orden: no marca ni desmarca principales.
proof fn lema_principales_ordenado(v: Seq<ModeloDeCanal>, t: Canal)
    ensures
        principales_de(ordenado(v), t) == principales_de(v, t),
{
    let a0 = de_clase(v, 0);
    let a1 = de_clase(v, 1);
    let a2 = de_clase(v, 2);
    let a3 = de_clase(v, 3);
    lema_principales_suma(a0 + a1 + a2, a3, t);
    lema_principales_suma(a0 + a1, a2, t);
    lema_principales_suma(a0, a1, t);
    lema_principales_de_clase(v, 0, t);
    lema_principales_de_clase(v, 1, t);
    lema_principales_de_clase(v, 2, t);
    lema_principales_de_clase(v, 3, t);
}

/// **Exactamente un principal por tipo.** Tras marcar y ordenar, cada tipo que
/// aparece entre los canales aceptados tiene un único principal, y un tipo que
/// no aparece no tiene ninguno.
pub proof fn ley_un_principal_por_tipo(v: Seq<ModeloDeCanal>, t: Canal)
    ensures
        principales_de(ordenado(marcar_spec(v)), t) == if hay_de_tipo(v, t) {
            1nat
        } else {
            0nat
        },
{
    let w = marcar_spec(v);
    lema_elegido(v, t);
    lema_elegido(v, Canal::Correo);
    lema_elegido(v, Canal::WhatsApp);
    assert forall|k: int| 0 <= k < w.len() implies (((#[trigger] w[k]).canal == t
        && w[k].principal) <==> elegido(v, t) == Some(k)) by {
        if elegido(v, t) == Some(k) {
            assert(v[k].canal == t);
        }
    }
    lema_contar_unico(w, t, elegido(v, t));
    lema_principales_ordenado(w, t);
}

/// En un contacto válido, la ley anterior vale para sus canales.
pub proof fn ley_un_principal_por_tipo_en_el_contacto(
    b: ModeloDeBorradorDeContacto,
    pais: Seq<char>,
    t: Canal,
)
    ensures
        principales_de(canales_de_contacto(b, pais), t) == if hay_de_tipo(
            procesar_canales(b.canales, pais, b.canales.len()).0,
            t,
        ) {
            1nat
        } else {
            0nat
        },
{
    ley_un_principal_por_tipo(procesar_canales(b.canales, pais, b.canales.len()).0, t);
}

proof fn lema_de_clase_es_de_la_clase(v: Seq<ModeloDeCanal>, q: int)
    ensures
        forall|k: int|
            0 <= k < de_clase(v, q).len() ==> clave_de_orden(#[trigger] de_clase(v, q)[k]) == q,
    decreases v.len(),
{
    if v.len() > 0 {
        lema_de_clase_es_de_la_clase(v.drop_last(), q);
        let d = de_clase(v.drop_last(), q);
        if clave_de_orden(v.last()) == q {
            assert forall|k: int| 0 <= k < d.push(v.last()).len() implies clave_de_orden(
                #[trigger] d.push(v.last())[k],
            ) == q by {
                if k < d.len() {
                    assert(d.push(v.last())[k] == d[k]);
                }
            }
        }
    }
}

/// **La ficha queda ordenada**: correos antes que móviles y, dentro de cada
/// tipo, el principal arriba.
pub proof fn ley_la_ficha_queda_ordenada(v: Seq<ModeloDeCanal>)
    ensures
        forall|i: int, j: int|
            0 <= i <= j < ordenado(v).len() ==> clave_de_orden(#[trigger] ordenado(v)[i])
                <= clave_de_orden(#[trigger] ordenado(v)[j]),
{
    let a0 = de_clase(v, 0);
    let a1 = de_clase(v, 1);
    let a2 = de_clase(v, 2);
    let a3 = de_clase(v, 3);
    lema_de_clase_es_de_la_clase(v, 0);
    lema_de_clase_es_de_la_clase(v, 1);
    lema_de_clase_es_de_la_clase(v, 2);
    lema_de_clase_es_de_la_clase(v, 3);
    let o = ordenado(v);
    let n0 = a0.len() as int;
    let n1 = n0 + a1.len();
    let n2 = n1 + a2.len();
    assert forall|k: int| 0 <= k < o.len() implies clave_de_orden(#[trigger] o[k]) == if k < n0 {
        0int
    } else if k < n1 {
        1int
    } else if k < n2 {
        2int
    } else {
        3int
    } by {
        if k < n0 {
            assert(o[k] == a0[k]);
        } else if k < n1 {
            assert(o[k] == a1[k - n0]);
        } else if k < n2 {
            assert(o[k] == a2[k - n1]);
        } else {
            assert(o[k] == a3[k - n2]);
        }
    }
}

/// Ningún contacto válido tiene dos veces el mismo canal con la misma forma
/// normalizada.
pub proof fn ley_sin_canales_repetidos(canales: Seq<ModeloDeBorradorDeCanal>, pais: Seq<char>, n: nat)
    ensures
        forall|i: int, j: int|
            0 <= i < j < procesar_canales(canales, pais, n).0.len() ==> !((#[trigger] procesar_canales(
                canales,
                pais,
                n,
            ).0[i]).canal == (#[trigger] procesar_canales(canales, pais, n).0[j]).canal
                && procesar_canales(canales, pais, n).0[i].normalizado == procesar_canales(
                canales,
                pais,
                n,
            ).0[j].normalizado),
    decreases n,
{
    if n > 0 && n <= canales.len() {
        ley_sin_canales_repetidos(canales, pais, (n - 1) as nat);
    }
}


// ─────────────────────────────────────────────────────────────────────────
// Lo que la validación garantiza, dicho directamente
// ─────────────────────────────────────────────────────────────────────────

/// ¿Es de esa clase de orden?
pub open spec fn de_la_clase(q: int) -> spec_fn(ModeloDeCanal) -> bool {
    |c: ModeloDeCanal| clave_de_orden(c) == q
}

proof fn lema_de_clase_filtra(v: Seq<ModeloDeCanal>, q: int)
    ensures
        de_clase(v, q) == v.filter(de_la_clase(q)),
    decreases v.len(),
{
    reveal(Seq::filter);
    if v.len() > 0 {
        lema_de_clase_filtra(v.drop_last(), q);
    }
}

/// **La ficha es una ordenación estable.** Los canales quedan agrupados por
/// su clave de orden —correo principal, correos, móvil principal, móviles—, y
/// dentro de cada grupo en el orden en que llegaron: cada grupo es exactamente
/// el filtro de la entrada por esa clave.
pub proof fn ley_la_ficha_es_una_ordenacion_estable(v: Seq<ModeloDeCanal>)
    ensures
        ordenado(v) == v.filter(de_la_clase(0)) + v.filter(de_la_clase(1)) + v.filter(
            de_la_clase(2),
        ) + v.filter(de_la_clase(3)),
        forall|c: ModeloDeCanal| 0 <= #[trigger] clave_de_orden(c) <= 3,
{
    lema_de_clase_filtra(v, 0);
    lema_de_clase_filtra(v, 1);
    lema_de_clase_filtra(v, 2);
    lema_de_clase_filtra(v, 3);
}

/// ¿Es `k` el primer canal de su tipo marcado como principal?
pub open spec fn es_el_primer_marcado(v: Seq<ModeloDeCanal>, k: int) -> bool {
    v[k].principal && forall|m: int|
        0 <= m < k ==> !((#[trigger] v[m]).canal == v[k].canal && v[m].principal)
}

/// ¿Es `k` el primer canal de su tipo, sin ninguno de su tipo marcado?
pub open spec fn es_el_primero_sin_marcas(v: Seq<ModeloDeCanal>, k: int) -> bool {
    &&& forall|j: int| 0 <= j < v.len() ==> !((#[trigger] v[j]).canal == v[k].canal && v[j].principal)
    &&& forall|m: int| 0 <= m < k ==> (#[trigger] v[m]).canal != v[k].canal
}

proof fn lema_elegido_con_marcas(v: Seq<ModeloDeCanal>, k: int, j0: int)
    requires
        0 <= k < v.len(),
        0 <= j0 < v.len(),
        v[j0].canal == v[k].canal && v[j0].principal,
    ensures
        elegido(v, v[k].canal) == Some(k) <==> es_el_primer_marcado(v, k),
        !es_el_primero_sin_marcas(v, k),
{
    let t = v[k].canal;
    lema_hay_primer_marcado(v, t, j0);
    assert(exists|j: int| 0 <= j < v.len() && (#[trigger] v[j]).canal == t && v[j].principal);
    let c = primer_marcado(v, t)->0;
    assert(0 <= c < v.len() && v[c].canal == t && v[c].principal && forall|m: int|
        0 <= m < c ==> !((#[trigger] v[m]).canal == t && v[m].principal));
    assert(elegido(v, t) == Some(c));
    if es_el_primer_marcado(v, k) {
        if c < k {
            assert(!(v[c].canal == t && v[c].principal));
        } else if k < c {
            assert(!(v[k].canal == t && v[k].principal));
        }
    }
    if es_el_primero_sin_marcas(v, k) {
        assert(!(v[j0].canal == t && v[j0].principal));
    }
}

proof fn lema_elegido_sin_marcas(v: Seq<ModeloDeCanal>, k: int)
    requires
        0 <= k < v.len(),
        forall|j: int| 0 <= j < v.len() ==> !((#[trigger] v[j]).canal == v[k].canal && v[j].principal),
    ensures
        elegido(v, v[k].canal) == Some(k) <==> es_el_primero_sin_marcas(v, k),
        !es_el_primer_marcado(v, k),
{
    let t = v[k].canal;
    assert(primer_marcado(v, t) is None);
    lema_hay_primero(v, t, k);
    let c = primero_de(v, t)->0;
    assert(0 <= c < v.len() && v[c].canal == t && forall|m: int|
        0 <= m < c ==> (#[trigger] v[m]).canal != t);
    if es_el_primero_sin_marcas(v, k) {
        if c < k {
            assert(v[c].canal != t);
        } else if k < c {
            assert(v[k].canal != t);
        }
    }
}

proof fn lema_elegido_es(v: Seq<ModeloDeCanal>, k: int)
    requires
        0 <= k < v.len(),
    ensures
        elegido(v, v[k].canal) == Some(k) <==> (es_el_primer_marcado(v, k)
            || es_el_primero_sin_marcas(v, k)),
{
    let t = v[k].canal;
    if exists|j: int| 0 <= j < v.len() && (#[trigger] v[j]).canal == t && v[j].principal {
        let j0 = choose|j: int| 0 <= j < v.len() && (#[trigger] v[j]).canal == t && v[j].principal;
        lema_elegido_con_marcas(v, k, j0);
    } else {
        lema_elegido_sin_marcas(v, k);
    }
}

/// **Qué canal queda como principal.** Marcar cambia sólo la marca de
/// principal, y deja marcado un canal si y sólo si es el primero de su tipo
/// que el usuario marcó, o —si no marcó ninguno de ese tipo— el primero de su
/// tipo. Ordenar después no marca ni desmarca nada
/// ([`ley_un_principal_por_tipo`]).
pub proof fn ley_que_canal_queda_como_principal(v: Seq<ModeloDeCanal>)
    ensures
        marcar_spec(v).len() == v.len(),
        forall|k: int|
            0 <= k < v.len() ==> (#[trigger] marcar_spec(v)[k]).canal == v[k].canal
                && marcar_spec(v)[k].raw == v[k].raw && marcar_spec(v)[k].normalizado
                == v[k].normalizado && (marcar_spec(v)[k].principal <==> (es_el_primer_marcado(v, k)
                || es_el_primero_sin_marcas(v, k))),
{
    assert forall|k: int| 0 <= k < v.len() implies (#[trigger] marcar_spec(v)[k]).canal == v[k].canal
        && marcar_spec(v)[k].raw == v[k].raw && marcar_spec(v)[k].normalizado == v[k].normalizado
        && (marcar_spec(v)[k].principal <==> (es_el_primer_marcado(v, k)
        || es_el_primero_sin_marcas(v, k))) by {
        lema_elegido_es(v, k);
    }
}

/// ¿Se valida cada canal con la regla de su tipo?
pub open spec fn canales_validos(c: Seq<ModeloDeBorradorDeCanal>, pais: Seq<char>, n: int) -> bool {
    forall|k: int| 0 <= k < n ==> valor_normalizado((#[trigger] c[k]).canal, c[k].valor, pais) is Some
}

/// ¿Comparten dos canales tipo y forma normalizada?
pub open spec fn sin_repetidos(c: Seq<ModeloDeBorradorDeCanal>, pais: Seq<char>, n: int) -> bool {
    forall|i: int, j: int|
        0 <= i < j < n ==> !((#[trigger] c[i]).canal == (#[trigger] c[j]).canal && valor_normalizado(
            c[i].canal,
            c[i].valor,
            pais,
        ) == valor_normalizado(c[j].canal, c[j].valor, pais))
}

proof fn lema_procesar(c: Seq<ModeloDeBorradorDeCanal>, pais: Seq<char>, n: nat)
    requires
        n <= c.len(),
    ensures
        ({
            let (v, e) = procesar_canales(c, pais, n);
            &&& e.len() == 0 <==> canales_validos(c, pais, n as int) && sin_repetidos(c, pais, n as int)
            &&& e.len() == 0 ==> v.len() == n && forall|k: int|
                0 <= k < n ==> (#[trigger] v[k]).canal == c[k].canal && Some(v[k].normalizado)
                    == valor_normalizado(c[k].canal, c[k].valor, pais) && v[k].raw == recortado(
                    c[k].valor,
                ) && v[k].principal == c[k].principal
            &&& forall|k: int|
                0 <= k < e.len() ==> (#[trigger] e[k]).campo == CampoDeContacto::Canal && (
                e[k].indice matches Some(i) && i < n)
        }),
    decreases n,
{
    if n > 0 {
        lema_procesar(c, pais, (n - 1) as nat);
        let (v0, e0) = procesar_canales(c, pais, (n - 1) as nat);
        let (v, e) = procesar_canales(c, pais, n);
        let x = c[n - 1];
        assert(forall|k: int| 0 <= k < e0.len() ==> e[k] == e0[k]);
        if e0.len() == 0 {
            match valor_normalizado(x.canal, x.valor, pais) {
                Some(norm) => {
                    if ya_esta(v0, x.canal, norm) {
                        let j = choose|j: int|
                            0 <= j < v0.len() && (#[trigger] v0[j]).canal == x.canal && v0[j].normalizado
                                == norm;
                        assert(!sin_repetidos(c, pais, n as int)) by {
                            assert(c[j].canal == c[n - 1].canal);
                        }
                    } else {
                        assert(sin_repetidos(c, pais, n as int)) by {
                            assert forall|i: int, j: int| 0 <= i < j < n implies !((#[trigger] c[i]).canal
                                == (#[trigger] c[j]).canal && valor_normalizado(c[i].canal, c[i].valor, pais)
                                == valor_normalizado(c[j].canal, c[j].valor, pais)) by {
                                if j == n - 1 {
                                    assert(v0[i].canal == c[i].canal);
                                }
                            }
                        }
                        assert forall|k: int| 0 <= k < n implies (#[trigger] v[k]).canal == c[k].canal
                            && Some(v[k].normalizado) == valor_normalizado(c[k].canal, c[k].valor, pais)
                            && v[k].raw == recortado(c[k].valor) && v[k].principal == c[k].principal by {
                            if k < n - 1 {
                                assert(v[k] == v0[k]);
                            }
                        }
                    }
                },
                None => {
                    assert(!canales_validos(c, pais, n as int)) by {
                        assert(valor_normalizado(c[n - 1].canal, c[n - 1].valor, pais) is None);
                    }
                },
            }
        } else {
            assert(e.len() > 0);
            assert(!(canales_validos(c, pais, n as int) && sin_repetidos(c, pais, n as int))) by {
                if canales_validos(c, pais, n as int) && sin_repetidos(c, pais, n as int) {
                    assert(canales_validos(c, pais, (n - 1) as int));
                    assert(sin_repetidos(c, pais, (n - 1) as int));
                }
            }
        }
    }
}

/// **Cuándo vale un contacto.** Sin ningún error si y sólo si nombre y
/// apellido caben en ochenta caracteres y la empresa en ciento veinte, una vez
/// recortados; trae entre uno y diez canales; cada canal se valida con la
/// regla de su tipo; y no hay dos del mismo tipo con la misma forma
/// normalizada. Y un error es de un canal concreto si y sólo si lleva el índice
/// de ese canal.
pub proof fn ley_cuando_vale_un_contacto(b: ModeloDeBorradorDeContacto, pais: Seq<char>)
    ensures
        errores_de_contacto(b, pais).len() == 0 <==> (recortado(b.nombre).len() <= MAX_NOMBRE
            && recortado(b.apellido).len() <= MAX_NOMBRE && recortado(b.empresa).len()
            <= MAX_EMPRESA && 1 <= b.canales.len() <= MAX_CANALES && canales_validos(
            b.canales,
            pais,
            b.canales.len() as int,
        ) && sin_repetidos(b.canales, pais, b.canales.len() as int)),
        forall|k: int|
            0 <= k < errores_de_contacto(b, pais).len() ==> ((#[trigger] errores_de_contacto(
                b,
                pais,
            )[k]).campo == CampoDeContacto::Canal <==> (errores_de_contacto(b, pais)[k].indice matches Some(
                i,
            ) && i < b.canales.len())),
{
    lema_procesar(b.canales, pais, b.canales.len());
    let e = errores_de_contacto(b, pais);
    let p = procesar_canales(b.canales, pais, b.canales.len()).1;
    let campos = e.len() - p.len();
    assert forall|k: int| 0 <= k < e.len() implies ((#[trigger] e[k]).campo == CampoDeContacto::Canal
        <==> (e[k].indice matches Some(i) && i < b.canales.len())) by {
        if k >= campos {
            assert(e[k] == p[k - campos]);
        } else {
            assert(e[k].indice is None && e[k].campo != CampoDeContacto::Canal);
        }
    }
}

/// Un canal del borrador tal y como queda al validarlo, antes de elegir los
/// principales: el tipo y la marca del usuario, el valor recortado y su forma
/// normalizada.
pub open spec fn canal_validado(c: ModeloDeBorradorDeCanal, pais: Seq<char>) -> ModeloDeCanal {
    ModeloDeCanal {
        canal: c.canal,
        raw: recortado(c.valor),
        normalizado: match valor_normalizado(c.canal, c.valor, pais) {
            Some(n) => n,
            None => seq![],
        },
        principal: c.principal,
    }
}

/// Los canales del borrador validados uno a uno, en el orden en que llegaron.
pub open spec fn validados(b: ModeloDeBorradorDeContacto, pais: Seq<char>) -> Seq<ModeloDeCanal> {
    b.canales.map_values(|c: ModeloDeBorradorDeCanal| canal_validado(c, pais))
}

proof fn lema_ordenado_conserva_la_longitud(v: Seq<ModeloDeCanal>)
    ensures
        ordenado(v).len() == v.len(),
    decreases v.len(),
{
    if v.len() > 0 {
        lema_ordenado_conserva_la_longitud(v.drop_last());
    }
}

/// **Los canales de un contacto válido.** Son los del borrador, validados uno
/// a uno y en el mismo número; de cada tipo queda como principal el primero
/// que el usuario marcó o, si no marcó ninguno de ese tipo, el primero de ese
/// tipo; y la ficha los ordena de forma estable por su clave —correo
/// principal, correos, móvil principal, móviles—, cada grupo en el orden en
/// que llegaron.
pub proof fn ley_los_canales_de_un_contacto_valido(b: ModeloDeBorradorDeContacto, pais: Seq<char>)
    requires
        errores_de_contacto(b, pais).len() == 0,
    ensures
        ({
            let u = validados(b, pais);
            let w = marcar_spec(u);
            &&& canales_de_contacto(b, pais).len() == b.canales.len()
            &&& canales_de_contacto(b, pais) == w.filter(de_la_clase(0)) + w.filter(de_la_clase(1))
                + w.filter(de_la_clase(2)) + w.filter(de_la_clase(3))
            &&& w.len() == b.canales.len()
            &&& forall|k: int|
                0 <= k < b.canales.len() ==> (#[trigger] w[k]).canal == b.canales[k].canal
                    && w[k].raw == recortado(b.canales[k].valor) && Some(w[k].normalizado)
                    == valor_normalizado(b.canales[k].canal, b.canales[k].valor, pais) && (
                w[k].principal <==> (es_el_primer_marcado(u, k) || es_el_primero_sin_marcas(u, k)))
        }),
{
    let n = b.canales.len();
    ley_cuando_vale_un_contacto(b, pais);
    lema_procesar(b.canales, pais, n);
    let v = procesar_canales(b.canales, pais, n).0;
    let u = validados(b, pais);
    assert(v =~= u) by {
        assert forall|k: int| 0 <= k < n implies v[k] == u[k] by {
            assert(canales_validos(b.canales, pais, n as int));
            assert(valor_normalizado(b.canales[k].canal, b.canales[k].valor, pais) is Some);
        }
    }
    let w = marcar_spec(u);
    ley_que_canal_queda_como_principal(u);
    ley_la_ficha_es_una_ordenacion_estable(w);
    lema_ordenado_conserva_la_longitud(w);
    assert forall|k: int| 0 <= k < n implies (#[trigger] w[k]).canal == b.canales[k].canal
        && w[k].raw == recortado(b.canales[k].valor) && Some(w[k].normalizado)
        == valor_normalizado(b.canales[k].canal, b.canales[k].valor, pais) && (w[k].principal
        <==> (es_el_primer_marcado(u, k) || es_el_primero_sin_marcas(u, k))) by {
        assert(u[k] == canal_validado(b.canales[k], pais));
        assert(canales_validos(b.canales, pais, n as int));
        assert(valor_normalizado(b.canales[k].canal, b.canales[k].valor, pais) is Some);
    }
}

} // verus!
