//! Máquina de estados de un intento de envío.
//!
//! Un intento es la unidad atómica del motor: **uno por contacto y campaña**.

use vstd::prelude::*;

verus! {

/// Estado de un intento de envío.
#[derive(Debug, Clone, Copy, PartialEq, Eq, Hash, Structural)]
pub enum AttemptState {
    /// En cola, esperando turno.
    Queued,
    /// Un worker lo tomó.
    Claimed,
    /// Llamada al proveedor en curso.
    Sending,
    /// El proveedor **aceptó** el mensaje. No significa «entregado».
    Sent,
    /// Fallo transitorio. Se reintentará.
    Failed,
    /// Fallo definitivo. No se reintenta.
    PermanentlyFailed,
    /// Bloqueado por la lista de supresión. No es un fallo.
    Suppressed,
    /// Cancelado por una parada.
    Cancelled,
    /// **Estado ambiguo**: la aplicación murió con el intento en `Sending`.
    /// Nunca se reenvía automáticamente.
    PresumedSent,
}

/// Transición rechazada por la máquina de estados.
#[derive(Debug, Clone, Copy, PartialEq, Eq, Structural)]
pub struct TransitionError {
    pub desde: AttemptState,
    pub hasta: AttemptState,
}

/// Identificador persistido de cada estado.
pub open spec fn texto_de_estado(s: AttemptState) -> &'static str {
    match s {
        AttemptState::Queued => "queued",
        AttemptState::Claimed => "claimed",
        AttemptState::Sending => "sending",
        AttemptState::Sent => "sent",
        AttemptState::Failed => "failed",
        AttemptState::PermanentlyFailed => "permanently_failed",
        AttemptState::Suppressed => "suppressed",
        AttemptState::Cancelled => "cancelled",
        AttemptState::PresumedSent => "presumed_sent",
    }
}

/// Los estados que no admiten más transiciones.
pub open spec fn es_terminal_spec(s: AttemptState) -> bool {
    s is Sent || s is PermanentlyFailed || s is Suppressed || s is Cancelled || s is PresumedSent
}

/// Las transiciones permitidas.
pub open spec fn puede_ir_a_spec(desde: AttemptState, hasta: AttemptState) -> bool {
    match desde {
        AttemptState::Queued => hasta is Claimed || hasta is Suppressed || hasta is Cancelled,
        AttemptState::Claimed => hasta is Sending || hasta is Suppressed || hasta is Cancelled,
        AttemptState::Sending => hasta is Sent || hasta is Failed || hasta is PermanentlyFailed
            || hasta is PresumedSent,
        AttemptState::Failed => hasta is Queued || hasta is PermanentlyFailed || hasta is Cancelled,
        _ => false,
    }
}

/// Lo que se hace con un intento al arrancar la aplicación.
pub open spec fn recuperar_spec(s: AttemptState) -> AttemptState {
    match s {
        AttemptState::Sending => AttemptState::PresumedSent,
        AttemptState::Claimed => AttemptState::Queued,
        otro => otro,
    }
}

impl AttemptState {
    /// Identificador estable para persistir. No cambiar: hay datos con él.
    pub fn as_str(self) -> (r: &'static str)
        ensures
            r == texto_de_estado(self),
    {
        match self {
            AttemptState::Queued => "queued",
            AttemptState::Claimed => "claimed",
            AttemptState::Sending => "sending",
            AttemptState::Sent => "sent",
            AttemptState::Failed => "failed",
            AttemptState::PermanentlyFailed => "permanently_failed",
            AttemptState::Suppressed => "suppressed",
            AttemptState::Cancelled => "cancelled",
            AttemptState::PresumedSent => "presumed_sent",
        }
    }

    /// Un estado terminal no admite más transiciones.
    pub fn es_terminal(self) -> (r: bool)
        ensures
            r == es_terminal_spec(self),
    {
        match self {
            AttemptState::Sent | AttemptState::PermanentlyFailed | AttemptState::Suppressed
            | AttemptState::Cancelled | AttemptState::PresumedSent => true,
            _ => false,
        }
    }

    /// ¿Este estado consumió un envío real hacia el proveedor?
    ///
    /// `PresumedSent` cuenta: pudo haber salido, y el presupuesto de envío debe
    /// asumir lo peor.
    pub fn consumio_envio(self) -> (r: bool)
        ensures
            r == (self is Sent || self is PresumedSent),
    {
        match self {
            AttemptState::Sent | AttemptState::PresumedSent => true,
            _ => false,
        }
    }

    /// Transiciones permitidas.
    pub fn puede_ir_a(self, destino: Self) -> (r: bool)
        ensures
            r == puede_ir_a_spec(self, destino),
    {
        match self {
            AttemptState::Queued => match destino {
                AttemptState::Claimed | AttemptState::Suppressed | AttemptState::Cancelled => true,
                _ => false,
            },
            AttemptState::Claimed => match destino {
                AttemptState::Sending | AttemptState::Suppressed | AttemptState::Cancelled => true,
                _ => false,
            },
            AttemptState::Sending => match destino {
                AttemptState::Sent | AttemptState::Failed | AttemptState::PermanentlyFailed
                | AttemptState::PresumedSent => true,
                _ => false,
            },
            AttemptState::Failed => match destino {
                AttemptState::Queued | AttemptState::PermanentlyFailed | AttemptState::Cancelled => true,
                _ => false,
            },
            _ => false,
        }
    }

    /// Aplica una transición, o explica por qué no procede.
    pub fn transicionar(self, destino: Self) -> (r: Result<Self, TransitionError>)
        ensures
            puede_ir_a_spec(self, destino) ==> r == Ok::<AttemptState, TransitionError>(destino),
            !puede_ir_a_spec(self, destino) ==> r == Err::<AttemptState, TransitionError>(
                TransitionError { desde: self, hasta: destino },
            ),
    {
        if self.puede_ir_a(destino) {
            Ok(destino)
        } else {
            Err(TransitionError { desde: self, hasta: destino })
        }
    }

    /// Qué hacer con un intento al arrancar la aplicación.
    ///
    /// Un intento que quedó en `Sending` es **genuinamente ambiguo**: pasa a
    /// `PresumedSent` y no se reenvía. Uno en `Claimed` vuelve a la cola: nadie
    /// llamó todavía al proveedor.
    pub fn recuperar_al_arrancar(self) -> (r: Self)
        ensures
            r == recuperar_spec(self),
    {
        match self {
            AttemptState::Sending => AttemptState::PresumedSent,
            AttemptState::Claimed => AttemptState::Queued,
            otro => otro,
        }
    }
}

/// Un estado terminal no tiene a dónde ir.
pub proof fn ley_los_terminales_no_se_mueven(desde: AttemptState, hasta: AttemptState)
    requires
        es_terminal_spec(desde),
    ensures
        !puede_ir_a_spec(desde, hasta),
{
}

/// Tras recuperar al arrancar no queda ningún intento a medias (`Claimed` o
/// `Sending`), lo terminal no cambia, y recuperar dos veces es recuperar una.
pub proof fn ley_recuperar_al_arrancar(s: AttemptState)
    ensures
        !(recuperar_spec(s) is Sending) && !(recuperar_spec(s) is Claimed),
        es_terminal_spec(s) ==> recuperar_spec(s) == s,
        recuperar_spec(recuperar_spec(s)) == recuperar_spec(s),
        s is Sending ==> recuperar_spec(s) is PresumedSent,
{
}

/// Un intento ambiguo nunca vuelve a enviarse: `PresumedSent` es terminal y
/// cuenta como envío consumido.
pub proof fn ley_lo_ambiguo_no_se_reenvia(hasta: AttemptState)
    ensures
        es_terminal_spec(AttemptState::PresumedSent),
        !puede_ir_a_spec(AttemptState::PresumedSent, hasta),
{
}

/// Sólo se llega a `Sent`, `PresumedSent` o a un fallo pasando por `Sending`:
/// no hay atajo desde la cola hasta el proveedor.
pub proof fn ley_al_proveedor_solo_desde_sending(desde: AttemptState, hasta: AttemptState)
    requires
        puede_ir_a_spec(desde, hasta),
        hasta is Sent || hasta is PresumedSent || hasta is Failed,
    ensures
        desde is Sending,
{
}

/// Un envío consumido sólo se da en un estado terminal.
pub proof fn ley_lo_consumido_es_terminal(s: AttemptState)
    requires
        s is Sent || s is PresumedSent,
    ensures
        es_terminal_spec(s),
{
}

/// El texto técnico de una transición rechazada.
pub open spec fn mensaje_de_transicion(e: TransitionError) -> Seq<char> {
    "transición de intento no permitida: "@ + texto_de_estado(e.desde)@ + " → "@ + texto_de_estado(
        e.hasta,
    )@
}

impl TransitionError {
    /// El texto técnico del error: de qué estado a cuál se quiso pasar.
    pub fn mensaje(&self) -> (r: String)
        ensures
            r@ == mensaje_de_transicion(*self),
    {
        let a = crate::texto::juntar("transición de intento no permitida: ", self.desde.as_str());
        let b = crate::texto::juntar(a.as_str(), " → ");
        crate::texto::juntar(b.as_str(), self.hasta.as_str())
    }
}

} // verus!
