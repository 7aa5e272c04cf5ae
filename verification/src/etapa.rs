//! Las etapas de una campaña, y las reglas que las ordenan.
//!
//! Una campaña tiene **una o dos etapas**, y cada etapa es de **un solo
//! canal**: sale el correo, y quien cumpla la condición recibe después el
//! WhatsApp. Cada etapa tiene su propio estado, y eso es lo que permite apagar
//! un canal sin apagar el otro.

use vstd::prelude::*;

use crate::canal::Canal;
use crate::texto::texto_igual;

verus! {

/// Cuántas etapas caben. Dos: el correo y el WhatsApp. Es una decisión de
/// producto, no una limitación técnica.
pub const MAX_ETAPAS: usize = 2;

/// Tope de la espera entre etapas: 30 días. Por encima, la segunda etapa llega
/// cuando el destinatario ya no recuerda la primera.
pub const MAX_ESPERA_HORAS: u32 = 24 * 30;

/// Qué tiene que cumplirse para que a alguien le llegue la segunda etapa.
///
/// Sólo lo que ARLES sabe de primera mano: qué pasó con su propio intento de la
/// etapa anterior. «Sólo a quien no contestó» exigiría leer el buzón, y una
/// condición que no se puede evaluar es peor que ninguna.
#[derive(Debug, Clone, Copy, PartialEq, Eq, Structural)]
pub enum CondicionDeEtapa {
    /// A todo el que tenga el canal y pase supresión y consentimiento.
    Siempre,
    /// Sólo a quien el intento anterior **no** le falló de forma definitiva.
    SoloSiLaAnteriorNoFallo,
}

/// Cómo se guarda cada condición en la base.
pub open spec fn texto_de_condicion(c: CondicionDeEtapa) -> &'static str {
    match c {
        CondicionDeEtapa::Siempre => "always",
        CondicionDeEtapa::SoloSiLaAnteriorNoFallo => "previous_not_failed",
    }
}

impl CondicionDeEtapa {
    pub const TODAS: [CondicionDeEtapa; 2] = [
        CondicionDeEtapa::Siempre,
        CondicionDeEtapa::SoloSiLaAnteriorNoFallo,
    ];

    pub fn como_texto(self) -> (r: &'static str)
        ensures
            r == texto_de_condicion(self),
    {
        match self {
            CondicionDeEtapa::Siempre => "always",
            CondicionDeEtapa::SoloSiLaAnteriorNoFallo => "previous_not_failed",
        }
    }

    /// Lee lo que hay guardado en la base.
    pub fn desde_texto(texto: &str) -> (r: Result<Self, ErrorDeSecuencia>)
        ensures
            texto@ == "always"@ ==> r == Ok::<Self, ErrorDeSecuencia>(CondicionDeEtapa::Siempre),
            texto@ == "previous_not_failed"@ ==> r == Ok::<Self, ErrorDeSecuencia>(
                CondicionDeEtapa::SoloSiLaAnteriorNoFallo,
            ),
            texto@ != "always"@ && texto@ != "previous_not_failed"@ ==> r == Err::<
                Self,
                ErrorDeSecuencia,
            >(ErrorDeSecuencia::CondicionDesconocida),
    {
        proof {
            reveal_strlit("always");
            reveal_strlit("previous_not_failed");
            assert("always"@.len() != "previous_not_failed"@.len());
        }
        if texto_igual(texto, "always") {
            Ok(CondicionDeEtapa::Siempre)
        } else if texto_igual(texto, "previous_not_failed") {
            Ok(CondicionDeEtapa::SoloSiLaAnteriorNoFallo)
        } else {
            Err(ErrorDeSecuencia::CondicionDesconocida)
        }
    }
}

/// Leer lo escrito devuelve la misma condición.
pub proof fn ley_condicion_ida_y_vuelta(a: CondicionDeEtapa, b: CondicionDeEtapa)
    ensures
        texto_de_condicion(a)@ == texto_de_condicion(b)@ <==> a == b,
{
    reveal_strlit("always");
    reveal_strlit("previous_not_failed");
    if a != b {
        assert(texto_de_condicion(a)@.len() != texto_de_condicion(b)@.len());
    }
}

/// Una etapa tal y como la plantea quien construye la campaña.
#[derive(Debug, Clone, Copy, PartialEq, Eq, Structural)]
pub struct EtapaPlanificada {
    /// 1 para la primera, 2 para la segunda.
    pub posicion: u8,
    pub canal: Canal,
    pub condicion: CondicionDeEtapa,
    /// Horas de espera desde que termina la etapa anterior.
    pub espera_horas: u32,
}

/// Por qué una secuencia de etapas no se sostiene. Una por motivo: quien la
/// está construyendo tiene que saber **qué** corregir.
#[derive(Debug, Clone, Copy, PartialEq, Eq, Structural)]
#[non_exhaustive]
pub enum ErrorDeSecuencia {
    SinEtapas,
    DemasiadasEtapas,
    PosicionesMal,
    CanalRepetido,
    LaPrimeraNoEspera,
    EsperaDesmesurada,
    CondicionDesconocida,
}

pub open spec fn clave_de_secuencia(e: ErrorDeSecuencia) -> &'static str {
    match e {
        ErrorDeSecuencia::SinEtapas => "error.etapa.sin_etapas",
        ErrorDeSecuencia::DemasiadasEtapas => "error.etapa.demasiadas",
        ErrorDeSecuencia::PosicionesMal => "error.etapa.posiciones",
        ErrorDeSecuencia::CanalRepetido => "error.etapa.canal_repetido",
        ErrorDeSecuencia::LaPrimeraNoEspera => "error.etapa.primera_no_espera",
        ErrorDeSecuencia::EsperaDesmesurada => "error.etapa.espera_desmesurada",
        ErrorDeSecuencia::CondicionDesconocida => "error.etapa.condicion_desconocida",
    }
}

pub open spec fn mensaje_de_secuencia(e: ErrorDeSecuencia) -> &'static str {
    match e {
        ErrorDeSecuencia::SinEtapas => "una campaña necesita al menos una etapa",
        ErrorDeSecuencia::DemasiadasEtapas => "una campaña admite como mucho dos etapas",
        ErrorDeSecuencia::PosicionesMal => "las etapas tienen que numerarse 1 y 2, sin huecos ni repeticiones",
        ErrorDeSecuencia::CanalRepetido => "las dos etapas son del mismo canal",
        ErrorDeSecuencia::LaPrimeraNoEspera => "la primera etapa no puede depender de una anterior",
        ErrorDeSecuencia::EsperaDesmesurada => "la espera entre etapas supera los 30 días",
        ErrorDeSecuencia::CondicionDesconocida => "la condición de la etapa no es una de las admitidas",
    }
}

impl ErrorDeSecuencia {
    /// Clave estable para que la interfaz traduzca el error con i18n.
    pub fn clave_i18n(self) -> (r: &'static str)
        ensures
            r == clave_de_secuencia(self),
    {
        match self {
            ErrorDeSecuencia::SinEtapas => "error.etapa.sin_etapas",
            ErrorDeSecuencia::DemasiadasEtapas => "error.etapa.demasiadas",
            ErrorDeSecuencia::PosicionesMal => "error.etapa.posiciones",
            ErrorDeSecuencia::CanalRepetido => "error.etapa.canal_repetido",
            ErrorDeSecuencia::LaPrimeraNoEspera => "error.etapa.primera_no_espera",
            ErrorDeSecuencia::EsperaDesmesurada => "error.etapa.espera_desmesurada",
            ErrorDeSecuencia::CondicionDesconocida => "error.etapa.condicion_desconocida",
        }
    }

    /// El texto técnico del error.
    pub fn mensaje(self) -> (r: &'static str)
        ensures
            r == mensaje_de_secuencia(self),
    {
        match self {
            ErrorDeSecuencia::SinEtapas => "una campaña necesita al menos una etapa",
            ErrorDeSecuencia::DemasiadasEtapas => "una campaña admite como mucho dos etapas",
            ErrorDeSecuencia::PosicionesMal => "las etapas tienen que numerarse 1 y 2, sin huecos ni repeticiones",
            ErrorDeSecuencia::CanalRepetido => "las dos etapas son del mismo canal",
            ErrorDeSecuencia::LaPrimeraNoEspera => "la primera etapa no puede depender de una anterior",
            ErrorDeSecuencia::EsperaDesmesurada => "la espera entre etapas supera los 30 días",
            ErrorDeSecuencia::CondicionDesconocida => "la condición de la etapa no es una de las admitidas",
        }
    }
}

// ─────────────────────────────────────────────────────────────────────────
// La regla
// ─────────────────────────────────────────────────────────────────────────

/// Las posiciones son exactamente 1, 2, …, n, cada una una vez, en cualquier
/// orden.
pub open spec fn posiciones_correctas(e: Seq<EtapaPlanificada>) -> bool {
    &&& forall|k: int| 0 <= k < e.len() ==> 1 <= (#[trigger] e[k]).posicion <= e.len()
    &&& forall|i: int, j: int|
        0 <= i < j < e.len() ==> (#[trigger] e[i]).posicion != (#[trigger] e[j]).posicion
}

/// Ningún canal se repite.
pub open spec fn canales_distintos(e: Seq<EtapaPlanificada>) -> bool {
    forall|i: int, j: int| 0 <= i < j < e.len() ==> (#[trigger] e[i]).canal != (#[trigger] e[j]).canal
}

/// Lo que tiene de malo una etapa por sí sola.
pub open spec fn problema_de_etapa(e: EtapaPlanificada) -> Option<ErrorDeSecuencia> {
    if e.posicion == 1 && (e.condicion != CondicionDeEtapa::Siempre || e.espera_horas != 0) {
        Some(ErrorDeSecuencia::LaPrimeraNoEspera)
    } else if e.espera_horas > MAX_ESPERA_HORAS {
        Some(ErrorDeSecuencia::EsperaDesmesurada)
    } else {
        None
    }
}

/// El problema de la primera etapa que lo tenga, desde la `k`.
pub open spec fn primer_problema(e: Seq<EtapaPlanificada>, k: int) -> Option<ErrorDeSecuencia>
    decreases e.len() - k,
{
    if k < 0 || k >= e.len() {
        None
    } else if problema_de_etapa(e[k]) is Some {
        problema_de_etapa(e[k])
    } else {
        primer_problema(e, k + 1)
    }
}

/// El veredicto sobre una secuencia: el primer problema, en este orden
/// —cuántas hay, cómo están numeradas, y sólo entonces lo que dicen—.
pub open spec fn veredicto(e: Seq<EtapaPlanificada>) -> Result<(), ErrorDeSecuencia> {
    if e.len() == 0 {
        Err(ErrorDeSecuencia::SinEtapas)
    } else if e.len() > MAX_ETAPAS {
        Err(ErrorDeSecuencia::DemasiadasEtapas)
    } else if !posiciones_correctas(e) {
        Err(ErrorDeSecuencia::PosicionesMal)
    } else if !canales_distintos(e) {
        Err(ErrorDeSecuencia::CanalRepetido)
    } else {
        match primer_problema(e, 0) {
            Some(p) => Err(p),
            None => Ok(()),
        }
    }
}

/// Comprueba que un conjunto de etapas forma una secuencia que se puede
/// ejecutar.
///
/// Las posiciones se comprueban como conjunto y no por el orden del vector:
/// quien construye la campaña puede mandarlas en cualquier orden. Los canales
/// se comparan **todos contra todos**: dos etapas del mismo canal son dos
/// envíos iguales, y la unicidad de los intentos rechazaría el segundo.
pub fn validar_secuencia(etapas: &[EtapaPlanificada]) -> (r: Result<(), ErrorDeSecuencia>)
    ensures
        r == veredicto(etapas@),
{
    let n = etapas.len();
    if n == 0 {
        return Err(ErrorDeSecuencia::SinEtapas);
    }
    if n > MAX_ETAPAS {
        return Err(ErrorDeSecuencia::DemasiadasEtapas);
    }
    let mut i: usize = 0;
    while i < n
        invariant
            n == etapas.len() <= MAX_ETAPAS,
            i <= n,
            forall|k: int| 0 <= k < i ==> 1 <= (#[trigger] etapas@[k]).posicion <= n,
            forall|a: int, b: int|
                0 <= a < b < i ==> (#[trigger] etapas@[a]).posicion != (#[trigger] etapas@[b]).posicion,
        decreases n - i,
    {
        let p = etapas[i].posicion;
        if p < 1 || (p as usize) > n {
            return Err(ErrorDeSecuencia::PosicionesMal);
        }
        let mut j: usize = 0;
        while j < i
            invariant
                j <= i < n == etapas.len() <= MAX_ETAPAS,
                p == etapas@[i as int].posicion,
                forall|a: int| 0 <= a < j ==> (#[trigger] etapas@[a]).posicion != p,
            decreases i - j,
        {
            if etapas[j].posicion == p {
                assert((etapas@[j as int]).posicion == (etapas@[i as int]).posicion);
                return Err(ErrorDeSecuencia::PosicionesMal);
            }
            j = j + 1;
        }
        i = i + 1;
    }
    let mut i: usize = 0;
    while i < n
        invariant
            n == etapas.len() <= MAX_ETAPAS,
            i <= n,
            posiciones_correctas(etapas@),
            forall|a: int, b: int|
                0 <= a < b < i ==> (#[trigger] etapas@[a]).canal != (#[trigger] etapas@[b]).canal,
        decreases n - i,
    {
        let c = etapas[i].canal;
        let mut j: usize = 0;
        while j < i
            invariant
                j <= i < n == etapas.len() <= MAX_ETAPAS,
                posiciones_correctas(etapas@),
                c == etapas@[i as int].canal,
                forall|a: int| 0 <= a < j ==> (#[trigger] etapas@[a]).canal != c,
            decreases i - j,
        {
            if etapas[j].canal == c {
                assert((etapas@[j as int]).canal == (etapas@[i as int]).canal);
                return Err(ErrorDeSecuencia::CanalRepetido);
            }
            j = j + 1;
        }
        i = i + 1;
    }
    let mut k: usize = 0;
    while k < n
        invariant
            n == etapas.len() <= MAX_ETAPAS,
            k <= n,
            posiciones_correctas(etapas@),
            canales_distintos(etapas@),
            primer_problema(etapas@, 0) == primer_problema(etapas@, k as int),
        decreases n - k,
    {
        let etapa = etapas[k];
        if etapa.posicion == 1 && (etapa.condicion != CondicionDeEtapa::Siempre || etapa.espera_horas
            != 0) {
            return Err(ErrorDeSecuencia::LaPrimeraNoEspera);
        }
        if etapa.espera_horas > MAX_ESPERA_HORAS {
            return Err(ErrorDeSecuencia::EsperaDesmesurada);
        }
        k = k + 1;
    }
    Ok(())
}

/// Una secuencia aceptada tiene una sola primera etapa, que ni espera ni
/// depende de nada, y ninguna espera pasa del tope.
pub proof fn ley_la_secuencia_aceptada(e: Seq<EtapaPlanificada>)
    requires
        veredicto(e) is Ok,
    ensures
        1 <= e.len() <= MAX_ETAPAS,
        canales_distintos(e),
        exists|k: int| 0 <= k < e.len() && (#[trigger] e[k]).posicion == 1,
        forall|k: int|
            0 <= k < e.len() && (#[trigger] e[k]).posicion == 1 ==> e[k].condicion
                == CondicionDeEtapa::Siempre && e[k].espera_horas == 0,
        forall|k: int| 0 <= k < e.len() ==> (#[trigger] e[k]).espera_horas <= MAX_ESPERA_HORAS,
{
    lema_sin_problemas(e, 0);
    // Con n ≤ 2 posiciones distintas dentro de 1..n, alguna es la 1.
    if e.len() == 1 {
        assert(e[0].posicion == 1);
    } else {
        assert(e[0].posicion != e[1].posicion);
        if e[0].posicion != 1 {
            assert(e[1].posicion == 1);
        }
    }
}

proof fn lema_sin_problemas(e: Seq<EtapaPlanificada>, k: int)
    requires
        0 <= k <= e.len(),
        primer_problema(e, k) is None,
    ensures
        forall|j: int| k <= j < e.len() ==> problema_de_etapa(#[trigger] e[j]) is None,
    decreases e.len() - k,
{
    if k < e.len() {
        lema_sin_problemas(e, k + 1);
    }
}


proof fn lema_sin_problemas_al_reves(e: Seq<EtapaPlanificada>, k: int)
    requires
        0 <= k <= e.len(),
        forall|j: int| k <= j < e.len() ==> problema_de_etapa(#[trigger] e[j]) is None,
    ensures
        primer_problema(e, k) is None,
    decreases e.len() - k,
{
    if k < e.len() {
        lema_sin_problemas_al_reves(e, k + 1);
    }
}

/// Si una secuencia se acepta, su inversa también: el orden en que llegan las
/// etapas no decide nada, lo deciden sus posiciones.
proof fn lema_aceptada_al_reves(e: Seq<EtapaPlanificada>)
    requires
        veredicto(e) is Ok,
    ensures
        veredicto(e.reverse()) is Ok,
{
    let r = e.reverse();
    let n = e.len() as int;
    lema_sin_problemas(e, 0);
    assert forall|k: int| 0 <= k < r.len() implies 1 <= (#[trigger] r[k]).posicion <= r.len() by {
        assert(r[k] == e[n - 1 - k]);
    }
    assert forall|i: int, j: int| 0 <= i < j < r.len() implies (#[trigger] r[i]).posicion
        != (#[trigger] r[j]).posicion && r[i].canal != r[j].canal by {
        assert(r[i] == e[n - 1 - i]);
        assert(r[j] == e[n - 1 - j]);
    }
    assert forall|j: int| 0 <= j < r.len() implies problema_de_etapa(#[trigger] r[j]) is None by {
        assert(r[j] == e[n - 1 - j]);
    }
    lema_sin_problemas_al_reves(r, 0);
}

/// **El orden en que llegan las etapas no importa**: una secuencia se acepta
/// si y sólo si se acepta al revés. Con dos etapas como mucho, darle la vuelta
/// es la única otra forma de ordenarlas.
pub proof fn ley_el_orden_no_importa(e: Seq<EtapaPlanificada>)
    ensures
        veredicto(e) is Ok <==> veredicto(e.reverse()) is Ok,
{
    if veredicto(e) is Ok {
        lema_aceptada_al_reves(e);
    }
    if veredicto(e.reverse()) is Ok {
        lema_aceptada_al_reves(e.reverse());
        assert(e.reverse().reverse() =~= e);
    }
}

} // verus!
