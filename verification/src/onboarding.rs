//! La lista de alta: qué falta para poder enviar una campaña.
//!
//! **Se deriva, no se almacena.** Guardar un booleano por paso haría que, al
//! borrar la única cuenta remitente, la lista siguiera diciendo que ese paso
//! está hecho. Aquí el estado de cada paso es una consulta sobre los datos
//! reales, así que no puede mentir.

use vstd::prelude::*;

verus! {

/// Cuántas cosas de cada tipo hay. Lo aporta la capa de datos.
#[derive(Debug, Clone, Copy, Default, PartialEq, Eq, Structural)]
pub struct RecuentoDeAlta {
    pub empresas: i64,
    pub remitentes: i64,
    pub contactos: i64,
    pub plantillas: i64,
    pub ventanas: i64,
    pub campanas: i64,
}

/// Los seis pasos hasta la primera campaña.
#[derive(Debug, Clone, Copy, PartialEq, Eq, Structural)]
pub enum PasoDeOnboarding {
    Empresa,
    Remitente,
    Contactos,
    Plantilla,
    VentanaDeEjecucion,
    PrimeraCampana,
}

/// Todos los pasos, en el orden en que se hacen.
pub const PASOS: [PasoDeOnboarding; 6] = [
    PasoDeOnboarding::Empresa,
    PasoDeOnboarding::Remitente,
    PasoDeOnboarding::Contactos,
    PasoDeOnboarding::Plantilla,
    PasoDeOnboarding::VentanaDeEjecucion,
    PasoDeOnboarding::PrimeraCampana,
];

pub open spec fn clave_de_paso(p: PasoDeOnboarding) -> &'static str {
    match p {
        PasoDeOnboarding::Empresa => "empresa",
        PasoDeOnboarding::Remitente => "remitente",
        PasoDeOnboarding::Contactos => "contactos",
        PasoDeOnboarding::Plantilla => "plantilla",
        PasoDeOnboarding::VentanaDeEjecucion => "ventana",
        PasoDeOnboarding::PrimeraCampana => "campana",
    }
}

pub open spec fn ruta_de_paso(p: PasoDeOnboarding) -> Option<&'static str> {
    match p {
        PasoDeOnboarding::Empresa => Some("/ajustes"),
        _ => None,
    }
}

pub open spec fn entrega_de_paso(p: PasoDeOnboarding) -> &'static str {
    match p {
        PasoDeOnboarding::Empresa => "3.1",
        PasoDeOnboarding::Contactos => "3.2",
        PasoDeOnboarding::Remitente => "5",
        _ => "6",
    }
}

/// ¿Está hecho el paso, según el recuento?
pub open spec fn paso_completado(p: PasoDeOnboarding, r: RecuentoDeAlta) -> bool {
    match p {
        PasoDeOnboarding::Empresa => r.empresas > 0,
        PasoDeOnboarding::Remitente => r.remitentes > 0,
        PasoDeOnboarding::Contactos => r.contactos > 0,
        PasoDeOnboarding::Plantilla => r.plantillas > 0,
        PasoDeOnboarding::VentanaDeEjecucion => r.ventanas > 0,
        PasoDeOnboarding::PrimeraCampana => r.campanas > 0,
    }
}

impl PasoDeOnboarding {
    /// Clave estable para el texto.
    pub fn clave(self) -> (r: &'static str)
        ensures
            r == clave_de_paso(self),
    {
        match self {
            PasoDeOnboarding::Empresa => "empresa",
            PasoDeOnboarding::Remitente => "remitente",
            PasoDeOnboarding::Contactos => "contactos",
            PasoDeOnboarding::Plantilla => "plantilla",
            PasoDeOnboarding::VentanaDeEjecucion => "ventana",
            PasoDeOnboarding::PrimeraCampana => "campana",
        }
    }

    /// A dónde lleva el paso, si ya se puede hacer. `None` significa que la
    /// pantalla **todavía no existe**, y se dice en vez de esconderlo.
    pub fn ruta(self) -> (r: Option<&'static str>)
        ensures
            r == ruta_de_paso(self),
    {
        match self {
            PasoDeOnboarding::Empresa => Some("/ajustes"),
            _ => None,
        }
    }

    /// Entrega que construye este paso: la lista es honesta sobre lo que
    /// todavía no está.
    pub fn entrega(self) -> (r: &'static str)
        ensures
            r == entrega_de_paso(self),
    {
        match self {
            PasoDeOnboarding::Empresa => "3.1",
            PasoDeOnboarding::Contactos => "3.2",
            PasoDeOnboarding::Remitente => "5",
            PasoDeOnboarding::Plantilla | PasoDeOnboarding::VentanaDeEjecucion
            | PasoDeOnboarding::PrimeraCampana => "6",
        }
    }

    /// ¿Está hecho, según los datos reales?
    pub fn completado(self, r: &RecuentoDeAlta) -> (b: bool)
        ensures
            b == paso_completado(self, *r),
    {
        match self {
            PasoDeOnboarding::Empresa => r.empresas > 0,
            PasoDeOnboarding::Remitente => r.remitentes > 0,
            PasoDeOnboarding::Contactos => r.contactos > 0,
            PasoDeOnboarding::Plantilla => r.plantillas > 0,
            PasoDeOnboarding::VentanaDeEjecucion => r.ventanas > 0,
            PasoDeOnboarding::PrimeraCampana => r.campanas > 0,
        }
    }
}

/// Un paso con su estado.
#[derive(Debug, Clone, Copy, PartialEq, Eq)]
pub struct EstadoDePaso {
    pub paso: PasoDeOnboarding,
    pub clave: &'static str,
    pub completado: bool,
    /// La pantalla existe y se puede ir a ella.
    pub disponible: bool,
    pub ruta: Option<&'static str>,
    pub entrega: &'static str,
}

/// El estado de un paso según el recuento.
pub open spec fn estado_de(p: PasoDeOnboarding, r: RecuentoDeAlta) -> EstadoDePaso {
    EstadoDePaso {
        paso: p,
        clave: clave_de_paso(p),
        completado: paso_completado(p, r),
        disponible: ruta_de_paso(p) is Some,
        ruta: ruta_de_paso(p),
        entrega: entrega_de_paso(p),
    }
}

/// Cuántos de los primeros `n` pasos están hechos.
pub open spec fn hechos(v: Seq<EstadoDePaso>, n: int) -> nat
    decreases n,
{
    if n <= 0 || n > v.len() {
        0
    } else {
        hechos(v, n - 1) + if v[n - 1].completado {
            1nat
        } else {
            0nat
        }
    }
}

/// El primer paso pendiente que ya se puede hacer, desde el `k`.
pub open spec fn siguiente_desde(v: Seq<EstadoDePaso>, k: int) -> Option<PasoDeOnboarding>
    decreases v.len() - k,
{
    if k < 0 || k >= v.len() {
        None
    } else if !v[k].completado && v[k].disponible {
        Some(v[k].paso)
    } else {
        siguiente_desde(v, k + 1)
    }
}

fn primer_pendiente_disponible(pasos: &Vec<EstadoDePaso>) -> (r: Option<PasoDeOnboarding>)
    ensures
        r == siguiente_desde(pasos@, 0),
{
    let mut k: usize = 0;
    while k < pasos.len()
        invariant
            k <= pasos@.len(),
            siguiente_desde(pasos@, 0) == siguiente_desde(pasos@, k as int),
        decreases pasos.len() - k,
    {
        if !pasos[k].completado && pasos[k].disponible {
            return Some(pasos[k].paso);
        }
        k = k + 1;
    }
    None
}

/// La lista completa, lista para pintarse.
#[derive(Debug, Clone, PartialEq, Eq)]
pub struct ListaDeOnboarding {
    pub pasos: Vec<EstadoDePaso>,
    pub completados: usize,
    pub total: usize,
    /// El primer paso pendiente **que ya se puede hacer**. `None` no significa
    /// «todo hecho»: para eso está [`Self::terminada`].
    pub siguiente: Option<PasoDeOnboarding>,
}

impl ListaDeOnboarding {
    /// Construye la lista a partir de los datos reales.
    pub fn desde(r: &RecuentoDeAlta) -> (l: Self)
        ensures
            l.pasos@.len() == 6,
            forall|k: int| 0 <= k < 6 ==> l.pasos@[k] == estado_de(#[trigger] PASOS[k], *r),
            l.total == 6,
            l.completados == hechos(l.pasos@, 6),
            l.siguiente == siguiente_desde(l.pasos@, 0),
    {
        let mut pasos: Vec<EstadoDePaso> = Vec::new();
        let mut k: usize = 0;
        while k < 6
            invariant
                k <= 6,
                pasos@.len() == k,
                forall|j: int| 0 <= j < k ==> pasos@[j] == estado_de(#[trigger] PASOS[j], *r),
            decreases 6 - k,
        {
            let paso = PASOS[k];
            let ruta = paso.ruta();
            let disponible = match ruta {
                Some(_) => true,
                None => false,
            };
            pasos.push(
                EstadoDePaso {
                    paso,
                    clave: paso.clave(),
                    completado: paso.completado(r),
                    disponible,
                    ruta,
                    entrega: paso.entrega(),
                },
            );
            k = k + 1;
        }
        let mut completados: usize = 0;
        let mut k: usize = 0;
        while k < pasos.len()
            invariant
                k <= pasos@.len() == 6,
                completados == hechos(pasos@, k as int),
                completados <= k,
            decreases pasos.len() - k,
        {
            if pasos[k].completado {
                completados = completados + 1;
            }
            k = k + 1;
        }
        let siguiente = primer_pendiente_disponible(&pasos);
        ListaDeOnboarding { total: pasos.len(), completados, siguiente, pasos }
    }

    /// ¿Está todo hecho?
    pub fn terminada(&self) -> (b: bool)
        ensures
            b == (self.completados == self.total),
    {
        self.completados == self.total
    }
}

proof fn lema_hechos(v: Seq<EstadoDePaso>, n: int)
    requires
        0 <= n <= v.len(),
    ensures
        hechos(v, n) <= n,
        hechos(v, n) == n <==> forall|k: int| 0 <= k < n ==> (#[trigger] v[k]).completado,
    decreases n,
{
    if n > 0 {
        lema_hechos(v, n - 1);
    }
}

/// **La lista se deriva de los datos.** Está terminada si y sólo si cada paso
/// está hecho según el recuento; un paso está disponible si y sólo si tiene
/// ruta; y lo hecho nunca pasa del total.
pub proof fn ley_la_lista_no_miente(r: RecuentoDeAlta, l: ListaDeOnboarding)
    requires
        l.pasos@.len() == 6,
        forall|k: int| 0 <= k < 6 ==> l.pasos@[k] == estado_de(#[trigger] PASOS[k], r),
        l.total == 6,
        l.completados == hechos(l.pasos@, 6),
    ensures
        l.completados <= l.total,
        (l.completados == l.total) <==> forall|k: int|
            0 <= k < 6 ==> paso_completado(#[trigger] PASOS[k], r),
        forall|k: int|
            0 <= k < 6 ==> (#[trigger] l.pasos@[k]).disponible == (l.pasos@[k].ruta is Some),
{
    lema_hechos(l.pasos@, 6);
    assert forall|k: int| 0 <= k < 6 implies (#[trigger] l.pasos@[k]).completado == paso_completado(
        PASOS[k],
        r,
    ) by {
        assert(l.pasos@[k] == estado_de(PASOS[k], r));
    }
}

} // verus!
