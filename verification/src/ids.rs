//! Identificadores tipados.
//!
//! Que `ContactId` y `CampaignId` sean tipos distintos hace que el compilador
//! rechace pasar uno donde va el otro. En una tabla que referencia campaña,
//! contacto y cuenta a la vez, eso es la diferencia entre un error de
//! compilación y un correo al destinatario equivocado.
//!
//! Cada identificador es un UUID, guardado como sus 128 bits. Se genera con
//! `uuid` (versión 7: lleva la marca de tiempo en los bits altos y ordena por
//! creación), se escribe con guiones y en minúsculas, y se lee con el lector
//! del mismo crate.

use vstd::prelude::*;

use crate::email::{EmailAddress, dominio_de};
use crate::error::CoreError;
use crate::texto::{a_texto, caracteres, unir};

verus! {

/// El UUID del crate `uuid`, que sólo cruza la frontera de la aplicación.
#[verifier::external_type_specification]
#[verifier::external_body]
pub struct ExUuid(uuid::Uuid);

// ─────────────────────────────────────────────────────────────────────────
// El texto de un UUID
// ─────────────────────────────────────────────────────────────────────────

/// El dígito hexadecimal en minúscula de un valor menor que 16.
pub open spec fn digito_hex(d: u128) -> char {
    if d < 10 {
        (48 + d) as char
    } else {
        (87 + d) as char
    }
}

/// El `i`-ésimo dígito hexadecimal de un UUID, empezando por el más alto.
pub open spec fn nibble(v: u128, i: u128) -> u128 {
    (v >> (124 - 4 * i) as u128) & 15u128
}

/// Los primeros `n` dígitos, con un guion delante de los dígitos 8, 12, 16 y
/// 20: la forma 8-4-4-4-12.
pub open spec fn con_guiones(v: u128, n: nat) -> Seq<char>
    decreases n,
{
    if n == 0 {
        seq![]
    } else {
        let previo = con_guiones(v, (n - 1) as nat);
        let i = (n - 1) as u128;
        let con_guion = if i == 8 || i == 12 || i == 16 || i == 20 {
            previo.push('-')
        } else {
            previo
        };
        con_guion.push(digito_hex(nibble(v, i)))
    }
}

/// Cómo se escribe un UUID: con guiones y en minúsculas, como lo escribe
/// `uuid`.
pub open spec fn uuid_con_guiones(v: u128) -> Seq<char> {
    con_guiones(v, 32)
}

/// Lo que devuelve `uuid::Uuid::parse_str`, como sus 128 bits.
pub uninterp spec fn uuid_leido(s: Seq<char>) -> Option<u128>;

/// ¿Lleva el UUID las marcas de la versión 7: el nibble de versión a 7 y la
/// variante de RFC 9562 (`10` en los dos bits altos del octeto 8)?
pub open spec fn es_uuid_v7(v: u128) -> bool {
    (v >> 76u128) & 15u128 == 7u128 && (v >> 62u128) & 3u128 == 2u128
}

/// `uuid::Uuid::now_v7`, como sus 128 bits.
///
/// El valor depende del reloj y del azar, así que sólo se afirma lo que el
/// crate fija en todo UUID que genera así: su versión y su variante.
#[verifier::external_body]
fn uuid_v7() -> (r: u128)
    ensures
        es_uuid_v7(r),
{
    uuid::Uuid::now_v7().as_u128()
}

/// Los 128 bits que guarda un `uuid::Uuid`: sus 16 bytes leídos como un
/// entero de orden mayor primero, que es lo que devuelve `Uuid::as_u128`.
pub uninterp spec fn bits_de_uuid(u: uuid::Uuid) -> u128;

/// `uuid::Uuid::from_u128`: guarda los bytes del entero en orden mayor
/// primero, así que el UUID lleva exactamente esos 128 bits.
#[verifier::external_body]
fn uuid_desde_u128(v: u128) -> (r: uuid::Uuid)
    ensures
        bits_de_uuid(r) == v,
{
    uuid::Uuid::from_u128(v)
}

/// `uuid::Uuid::as_u128`: los 128 bits del UUID.
#[verifier::external_body]
fn uuid_a_u128(u: &uuid::Uuid) -> (r: u128)
    ensures
        r == bits_de_uuid(*u),
{
    u.as_u128()
}

/// `uuid::Uuid::parse_str`, como sus 128 bits.
///
/// Se afirma lo que muestra el código del crate: sólo se aceptan entradas de
/// 32, 36, 38 o 45 bytes, y la forma con guiones que escribe el propio crate
/// se lee de vuelta como el mismo valor. Lo demás queda en el nombre
/// `uuid_leido`.
#[verifier::external_body]
fn leer_uuid(s: &str) -> (r: Option<u128>)
    ensures
        r == uuid_leido(s@),
        r is Some ==> s.len() == 32 || s.len() == 36 || s.len() == 38 || s.len() == 45,
        forall|v: u128| s@ == #[trigger] uuid_con_guiones(v) ==> r == Some(v),
{
    match uuid::Uuid::parse_str(s) {
        Ok(u) => Some(u.as_u128()),
        Err(_) => None,
    }
}

fn digito(d: u128) -> (c: char)
    requires
        d < 16,
    ensures
        c == digito_hex(d),
{
    if d < 10 {
        ((48 + d) as u8) as char
    } else {
        ((87 + d) as u8) as char
    }
}

/// El UUID escrito con guiones y en minúsculas.
pub fn texto_de_uuid(v: u128) -> (r: String)
    ensures
        r@ == uuid_con_guiones(v),
{
    let mut s: Vec<char> = Vec::new();
    let mut i: u128 = 0;
    while i < 32
        invariant
            i <= 32,
            s@ == con_guiones(v, i as nat),
        decreases 32 - i,
    {
        if i == 8 || i == 12 || i == 16 || i == 20 {
            s.push('-');
        }
        let desplazamiento: u128 = 124 - 4 * i;
        let d = (v >> desplazamiento) & 15u128;
        assert(d == nibble(v, i));
        assert(d < 16) by (bit_vector)
            requires
                d == (v >> desplazamiento) & 15u128,
        ;
        s.push(digito(d));
        i = i + 1;
    }
    a_texto(s.as_slice())
}

// ─────────────────────────────────────────────────────────────────────────
// Los identificadores
// ─────────────────────────────────────────────────────────────────────────

/// Empresa operadora.
#[derive(Clone, Copy, PartialEq, Eq, PartialOrd, Ord, Hash, Debug, Structural)]
pub struct CompanyId(u128);

impl CompanyId {
    /// Los 128 bits del UUID.
    pub closed spec fn valor(&self) -> u128 {
        self.0
    }

    /// Genera uno nuevo. UUID **v7**: ordena por creación y mantiene los
    /// índices compactos.
    pub fn nuevo() -> (r: Self)
        ensures
            es_uuid_v7(r.valor()),
    {
        CompanyId(uuid_v7())
    }

    /// El mismo identificador como `uuid::Uuid`.
    pub fn as_uuid(&self) -> (r: uuid::Uuid)
        ensures
            bits_de_uuid(r) == self.valor(),
    {
        uuid_desde_u128(self.0)
    }

    /// El identificador que lleva ese `uuid::Uuid`.
    pub fn from_uuid(id: uuid::Uuid) -> (r: Self)
        ensures
            r.valor() == bits_de_uuid(id),
    {
        CompanyId(uuid_a_u128(&id))
    }

    /// Los 128 bits del UUID.
    pub fn como_u128(&self) -> (r: u128)
        ensures
            r == self.valor(),
    {
        self.0
    }

    pub fn desde_u128(v: u128) -> (r: Self)
        ensures
            r.valor() == v,
    {
        CompanyId(v)
    }

    /// El UUID escrito con guiones y en minúsculas.
    pub fn texto(&self) -> (r: String)
        ensures
            r@ == uuid_con_guiones(self.valor()),
    {
        texto_de_uuid(self.0)
    }

    /// Lee un identificador escrito. Lo que escribe [`Self::texto`] se lee de
    /// vuelta como el mismo identificador.
    pub fn leer(s: &str) -> (r: Result<Self, CoreError>)
        ensures
            match uuid_leido(s@) {
                Some(v) => r matches Ok(id) && id.valor() == v,
                None => r == Err::<Self, CoreError>(CoreError::IdInvalido { tipo: "CompanyId" }),
            },
            forall|v: u128| s@ == #[trigger] uuid_con_guiones(v) ==> (r matches Ok(id) && id.valor()
                == v),
    {
        match leer_uuid(s) {
            Some(v) => Ok(CompanyId(v)),
            None => Err(CoreError::IdInvalido { tipo: "CompanyId" }),
        }
    }
}

impl std::str::FromStr for CompanyId {
    type Err = CoreError;

    fn from_str(s: &str) -> (r: Result<Self, CoreError>)
        ensures
            match uuid_leido(s@) {
                Some(v) => r matches Ok(id) && id.valor() == v,
                None => r == Err::<Self, CoreError>(CoreError::IdInvalido { tipo: "CompanyId" }),
            },
    {
        CompanyId::leer(s)
    }
}

/// Cuenta remitente.
#[derive(Clone, Copy, PartialEq, Eq, PartialOrd, Ord, Hash, Debug, Structural)]
pub struct EmailAccountId(u128);

impl EmailAccountId {
    /// Los 128 bits del UUID.
    pub closed spec fn valor(&self) -> u128 {
        self.0
    }

    /// Genera uno nuevo. UUID **v7**: ordena por creación y mantiene los
    /// índices compactos.
    pub fn nuevo() -> (r: Self)
        ensures
            es_uuid_v7(r.valor()),
    {
        EmailAccountId(uuid_v7())
    }

    /// El mismo identificador como `uuid::Uuid`.
    pub fn as_uuid(&self) -> (r: uuid::Uuid)
        ensures
            bits_de_uuid(r) == self.valor(),
    {
        uuid_desde_u128(self.0)
    }

    /// El identificador que lleva ese `uuid::Uuid`.
    pub fn from_uuid(id: uuid::Uuid) -> (r: Self)
        ensures
            r.valor() == bits_de_uuid(id),
    {
        EmailAccountId(uuid_a_u128(&id))
    }

    /// Los 128 bits del UUID.
    pub fn como_u128(&self) -> (r: u128)
        ensures
            r == self.valor(),
    {
        self.0
    }

    pub fn desde_u128(v: u128) -> (r: Self)
        ensures
            r.valor() == v,
    {
        EmailAccountId(v)
    }

    /// El UUID escrito con guiones y en minúsculas.
    pub fn texto(&self) -> (r: String)
        ensures
            r@ == uuid_con_guiones(self.valor()),
    {
        texto_de_uuid(self.0)
    }

    /// Lee un identificador escrito. Lo que escribe [`Self::texto`] se lee de
    /// vuelta como el mismo identificador.
    pub fn leer(s: &str) -> (r: Result<Self, CoreError>)
        ensures
            match uuid_leido(s@) {
                Some(v) => r matches Ok(id) && id.valor() == v,
                None => r == Err::<Self, CoreError>(CoreError::IdInvalido { tipo: "EmailAccountId" }),
            },
            forall|v: u128| s@ == #[trigger] uuid_con_guiones(v) ==> (r matches Ok(id) && id.valor()
                == v),
    {
        match leer_uuid(s) {
            Some(v) => Ok(EmailAccountId(v)),
            None => Err(CoreError::IdInvalido { tipo: "EmailAccountId" }),
        }
    }
}

impl std::str::FromStr for EmailAccountId {
    type Err = CoreError;

    fn from_str(s: &str) -> (r: Result<Self, CoreError>)
        ensures
            match uuid_leido(s@) {
                Some(v) => r matches Ok(id) && id.valor() == v,
                None => r == Err::<Self, CoreError>(CoreError::IdInvalido { tipo: "EmailAccountId" }),
            },
    {
        EmailAccountId::leer(s)
    }
}

/// Contacto.
#[derive(Clone, Copy, PartialEq, Eq, PartialOrd, Ord, Hash, Debug, Structural)]
pub struct ContactId(u128);

impl ContactId {
    /// Los 128 bits del UUID.
    pub closed spec fn valor(&self) -> u128 {
        self.0
    }

    /// Genera uno nuevo. UUID **v7**: ordena por creación y mantiene los
    /// índices compactos.
    pub fn nuevo() -> (r: Self)
        ensures
            es_uuid_v7(r.valor()),
    {
        ContactId(uuid_v7())
    }

    /// El mismo identificador como `uuid::Uuid`.
    pub fn as_uuid(&self) -> (r: uuid::Uuid)
        ensures
            bits_de_uuid(r) == self.valor(),
    {
        uuid_desde_u128(self.0)
    }

    /// El identificador que lleva ese `uuid::Uuid`.
    pub fn from_uuid(id: uuid::Uuid) -> (r: Self)
        ensures
            r.valor() == bits_de_uuid(id),
    {
        ContactId(uuid_a_u128(&id))
    }

    /// Los 128 bits del UUID.
    pub fn como_u128(&self) -> (r: u128)
        ensures
            r == self.valor(),
    {
        self.0
    }

    pub fn desde_u128(v: u128) -> (r: Self)
        ensures
            r.valor() == v,
    {
        ContactId(v)
    }

    /// El UUID escrito con guiones y en minúsculas.
    pub fn texto(&self) -> (r: String)
        ensures
            r@ == uuid_con_guiones(self.valor()),
    {
        texto_de_uuid(self.0)
    }

    /// Lee un identificador escrito. Lo que escribe [`Self::texto`] se lee de
    /// vuelta como el mismo identificador.
    pub fn leer(s: &str) -> (r: Result<Self, CoreError>)
        ensures
            match uuid_leido(s@) {
                Some(v) => r matches Ok(id) && id.valor() == v,
                None => r == Err::<Self, CoreError>(CoreError::IdInvalido { tipo: "ContactId" }),
            },
            forall|v: u128| s@ == #[trigger] uuid_con_guiones(v) ==> (r matches Ok(id) && id.valor()
                == v),
    {
        match leer_uuid(s) {
            Some(v) => Ok(ContactId(v)),
            None => Err(CoreError::IdInvalido { tipo: "ContactId" }),
        }
    }
}

impl std::str::FromStr for ContactId {
    type Err = CoreError;

    fn from_str(s: &str) -> (r: Result<Self, CoreError>)
        ensures
            match uuid_leido(s@) {
                Some(v) => r matches Ok(id) && id.valor() == v,
                None => r == Err::<Self, CoreError>(CoreError::IdInvalido { tipo: "ContactId" }),
            },
    {
        ContactId::leer(s)
    }
}

/// Canal de un contacto: una dirección de correo o un número de WhatsApp.
///
/// Tiene identidad propia porque un canal se **retira** sin borrarse, y lo
/// retirado se sigue nombrando en el registro de envíos.
#[derive(Clone, Copy, PartialEq, Eq, PartialOrd, Ord, Hash, Debug, Structural)]
pub struct ContactChannelId(u128);

impl ContactChannelId {
    /// Los 128 bits del UUID.
    pub closed spec fn valor(&self) -> u128 {
        self.0
    }

    /// Genera uno nuevo. UUID **v7**: ordena por creación y mantiene los
    /// índices compactos.
    pub fn nuevo() -> (r: Self)
        ensures
            es_uuid_v7(r.valor()),
    {
        ContactChannelId(uuid_v7())
    }

    /// El mismo identificador como `uuid::Uuid`.
    pub fn as_uuid(&self) -> (r: uuid::Uuid)
        ensures
            bits_de_uuid(r) == self.valor(),
    {
        uuid_desde_u128(self.0)
    }

    /// El identificador que lleva ese `uuid::Uuid`.
    pub fn from_uuid(id: uuid::Uuid) -> (r: Self)
        ensures
            r.valor() == bits_de_uuid(id),
    {
        ContactChannelId(uuid_a_u128(&id))
    }

    /// Los 128 bits del UUID.
    pub fn como_u128(&self) -> (r: u128)
        ensures
            r == self.valor(),
    {
        self.0
    }

    pub fn desde_u128(v: u128) -> (r: Self)
        ensures
            r.valor() == v,
    {
        ContactChannelId(v)
    }

    /// El UUID escrito con guiones y en minúsculas.
    pub fn texto(&self) -> (r: String)
        ensures
            r@ == uuid_con_guiones(self.valor()),
    {
        texto_de_uuid(self.0)
    }

    /// Lee un identificador escrito. Lo que escribe [`Self::texto`] se lee de
    /// vuelta como el mismo identificador.
    pub fn leer(s: &str) -> (r: Result<Self, CoreError>)
        ensures
            match uuid_leido(s@) {
                Some(v) => r matches Ok(id) && id.valor() == v,
                None => r == Err::<Self, CoreError>(CoreError::IdInvalido { tipo: "ContactChannelId" }),
            },
            forall|v: u128| s@ == #[trigger] uuid_con_guiones(v) ==> (r matches Ok(id) && id.valor()
                == v),
    {
        match leer_uuid(s) {
            Some(v) => Ok(ContactChannelId(v)),
            None => Err(CoreError::IdInvalido { tipo: "ContactChannelId" }),
        }
    }
}

impl std::str::FromStr for ContactChannelId {
    type Err = CoreError;

    fn from_str(s: &str) -> (r: Result<Self, CoreError>)
        ensures
            match uuid_leido(s@) {
                Some(v) => r matches Ok(id) && id.valor() == v,
                None => r == Err::<Self, CoreError>(CoreError::IdInvalido { tipo: "ContactChannelId" }),
            },
    {
        ContactChannelId::leer(s)
    }
}

/// Lote de importación.
#[derive(Clone, Copy, PartialEq, Eq, PartialOrd, Ord, Hash, Debug, Structural)]
pub struct ImportBatchId(u128);

impl ImportBatchId {
    /// Los 128 bits del UUID.
    pub closed spec fn valor(&self) -> u128 {
        self.0
    }

    /// Genera uno nuevo. UUID **v7**: ordena por creación y mantiene los
    /// índices compactos.
    pub fn nuevo() -> (r: Self)
        ensures
            es_uuid_v7(r.valor()),
    {
        ImportBatchId(uuid_v7())
    }

    /// El mismo identificador como `uuid::Uuid`.
    pub fn as_uuid(&self) -> (r: uuid::Uuid)
        ensures
            bits_de_uuid(r) == self.valor(),
    {
        uuid_desde_u128(self.0)
    }

    /// El identificador que lleva ese `uuid::Uuid`.
    pub fn from_uuid(id: uuid::Uuid) -> (r: Self)
        ensures
            r.valor() == bits_de_uuid(id),
    {
        ImportBatchId(uuid_a_u128(&id))
    }

    /// Los 128 bits del UUID.
    pub fn como_u128(&self) -> (r: u128)
        ensures
            r == self.valor(),
    {
        self.0
    }

    pub fn desde_u128(v: u128) -> (r: Self)
        ensures
            r.valor() == v,
    {
        ImportBatchId(v)
    }

    /// El UUID escrito con guiones y en minúsculas.
    pub fn texto(&self) -> (r: String)
        ensures
            r@ == uuid_con_guiones(self.valor()),
    {
        texto_de_uuid(self.0)
    }

    /// Lee un identificador escrito. Lo que escribe [`Self::texto`] se lee de
    /// vuelta como el mismo identificador.
    pub fn leer(s: &str) -> (r: Result<Self, CoreError>)
        ensures
            match uuid_leido(s@) {
                Some(v) => r matches Ok(id) && id.valor() == v,
                None => r == Err::<Self, CoreError>(CoreError::IdInvalido { tipo: "ImportBatchId" }),
            },
            forall|v: u128| s@ == #[trigger] uuid_con_guiones(v) ==> (r matches Ok(id) && id.valor()
                == v),
    {
        match leer_uuid(s) {
            Some(v) => Ok(ImportBatchId(v)),
            None => Err(CoreError::IdInvalido { tipo: "ImportBatchId" }),
        }
    }
}

impl std::str::FromStr for ImportBatchId {
    type Err = CoreError;

    fn from_str(s: &str) -> (r: Result<Self, CoreError>)
        ensures
            match uuid_leido(s@) {
                Some(v) => r matches Ok(id) && id.valor() == v,
                None => r == Err::<Self, CoreError>(CoreError::IdInvalido { tipo: "ImportBatchId" }),
            },
    {
        ImportBatchId::leer(s)
    }
}

/// Lista de contactos.
#[derive(Clone, Copy, PartialEq, Eq, PartialOrd, Ord, Hash, Debug, Structural)]
pub struct ContactListId(u128);

impl ContactListId {
    /// Los 128 bits del UUID.
    pub closed spec fn valor(&self) -> u128 {
        self.0
    }

    /// Genera uno nuevo. UUID **v7**: ordena por creación y mantiene los
    /// índices compactos.
    pub fn nuevo() -> (r: Self)
        ensures
            es_uuid_v7(r.valor()),
    {
        ContactListId(uuid_v7())
    }

    /// El mismo identificador como `uuid::Uuid`.
    pub fn as_uuid(&self) -> (r: uuid::Uuid)
        ensures
            bits_de_uuid(r) == self.valor(),
    {
        uuid_desde_u128(self.0)
    }

    /// El identificador que lleva ese `uuid::Uuid`.
    pub fn from_uuid(id: uuid::Uuid) -> (r: Self)
        ensures
            r.valor() == bits_de_uuid(id),
    {
        ContactListId(uuid_a_u128(&id))
    }

    /// Los 128 bits del UUID.
    pub fn como_u128(&self) -> (r: u128)
        ensures
            r == self.valor(),
    {
        self.0
    }

    pub fn desde_u128(v: u128) -> (r: Self)
        ensures
            r.valor() == v,
    {
        ContactListId(v)
    }

    /// El UUID escrito con guiones y en minúsculas.
    pub fn texto(&self) -> (r: String)
        ensures
            r@ == uuid_con_guiones(self.valor()),
    {
        texto_de_uuid(self.0)
    }

    /// Lee un identificador escrito. Lo que escribe [`Self::texto`] se lee de
    /// vuelta como el mismo identificador.
    pub fn leer(s: &str) -> (r: Result<Self, CoreError>)
        ensures
            match uuid_leido(s@) {
                Some(v) => r matches Ok(id) && id.valor() == v,
                None => r == Err::<Self, CoreError>(CoreError::IdInvalido { tipo: "ContactListId" }),
            },
            forall|v: u128| s@ == #[trigger] uuid_con_guiones(v) ==> (r matches Ok(id) && id.valor()
                == v),
    {
        match leer_uuid(s) {
            Some(v) => Ok(ContactListId(v)),
            None => Err(CoreError::IdInvalido { tipo: "ContactListId" }),
        }
    }
}

impl std::str::FromStr for ContactListId {
    type Err = CoreError;

    fn from_str(s: &str) -> (r: Result<Self, CoreError>)
        ensures
            match uuid_leido(s@) {
                Some(v) => r matches Ok(id) && id.valor() == v,
                None => r == Err::<Self, CoreError>(CoreError::IdInvalido { tipo: "ContactListId" }),
            },
    {
        ContactListId::leer(s)
    }
}

/// Etiqueta.
#[derive(Clone, Copy, PartialEq, Eq, PartialOrd, Ord, Hash, Debug, Structural)]
pub struct TagId(u128);

impl TagId {
    /// Los 128 bits del UUID.
    pub closed spec fn valor(&self) -> u128 {
        self.0
    }

    /// Genera uno nuevo. UUID **v7**: ordena por creación y mantiene los
    /// índices compactos.
    pub fn nuevo() -> (r: Self)
        ensures
            es_uuid_v7(r.valor()),
    {
        TagId(uuid_v7())
    }

    /// El mismo identificador como `uuid::Uuid`.
    pub fn as_uuid(&self) -> (r: uuid::Uuid)
        ensures
            bits_de_uuid(r) == self.valor(),
    {
        uuid_desde_u128(self.0)
    }

    /// El identificador que lleva ese `uuid::Uuid`.
    pub fn from_uuid(id: uuid::Uuid) -> (r: Self)
        ensures
            r.valor() == bits_de_uuid(id),
    {
        TagId(uuid_a_u128(&id))
    }

    /// Los 128 bits del UUID.
    pub fn como_u128(&self) -> (r: u128)
        ensures
            r == self.valor(),
    {
        self.0
    }

    pub fn desde_u128(v: u128) -> (r: Self)
        ensures
            r.valor() == v,
    {
        TagId(v)
    }

    /// El UUID escrito con guiones y en minúsculas.
    pub fn texto(&self) -> (r: String)
        ensures
            r@ == uuid_con_guiones(self.valor()),
    {
        texto_de_uuid(self.0)
    }

    /// Lee un identificador escrito. Lo que escribe [`Self::texto`] se lee de
    /// vuelta como el mismo identificador.
    pub fn leer(s: &str) -> (r: Result<Self, CoreError>)
        ensures
            match uuid_leido(s@) {
                Some(v) => r matches Ok(id) && id.valor() == v,
                None => r == Err::<Self, CoreError>(CoreError::IdInvalido { tipo: "TagId" }),
            },
            forall|v: u128| s@ == #[trigger] uuid_con_guiones(v) ==> (r matches Ok(id) && id.valor()
                == v),
    {
        match leer_uuid(s) {
            Some(v) => Ok(TagId(v)),
            None => Err(CoreError::IdInvalido { tipo: "TagId" }),
        }
    }
}

impl std::str::FromStr for TagId {
    type Err = CoreError;

    fn from_str(s: &str) -> (r: Result<Self, CoreError>)
        ensures
            match uuid_leido(s@) {
                Some(v) => r matches Ok(id) && id.valor() == v,
                None => r == Err::<Self, CoreError>(CoreError::IdInvalido { tipo: "TagId" }),
            },
    {
        TagId::leer(s)
    }
}

/// Plantilla.
#[derive(Clone, Copy, PartialEq, Eq, PartialOrd, Ord, Hash, Debug, Structural)]
pub struct TemplateId(u128);

impl TemplateId {
    /// Los 128 bits del UUID.
    pub closed spec fn valor(&self) -> u128 {
        self.0
    }

    /// Genera uno nuevo. UUID **v7**: ordena por creación y mantiene los
    /// índices compactos.
    pub fn nuevo() -> (r: Self)
        ensures
            es_uuid_v7(r.valor()),
    {
        TemplateId(uuid_v7())
    }

    /// El mismo identificador como `uuid::Uuid`.
    pub fn as_uuid(&self) -> (r: uuid::Uuid)
        ensures
            bits_de_uuid(r) == self.valor(),
    {
        uuid_desde_u128(self.0)
    }

    /// El identificador que lleva ese `uuid::Uuid`.
    pub fn from_uuid(id: uuid::Uuid) -> (r: Self)
        ensures
            r.valor() == bits_de_uuid(id),
    {
        TemplateId(uuid_a_u128(&id))
    }

    /// Los 128 bits del UUID.
    pub fn como_u128(&self) -> (r: u128)
        ensures
            r == self.valor(),
    {
        self.0
    }

    pub fn desde_u128(v: u128) -> (r: Self)
        ensures
            r.valor() == v,
    {
        TemplateId(v)
    }

    /// El UUID escrito con guiones y en minúsculas.
    pub fn texto(&self) -> (r: String)
        ensures
            r@ == uuid_con_guiones(self.valor()),
    {
        texto_de_uuid(self.0)
    }

    /// Lee un identificador escrito. Lo que escribe [`Self::texto`] se lee de
    /// vuelta como el mismo identificador.
    pub fn leer(s: &str) -> (r: Result<Self, CoreError>)
        ensures
            match uuid_leido(s@) {
                Some(v) => r matches Ok(id) && id.valor() == v,
                None => r == Err::<Self, CoreError>(CoreError::IdInvalido { tipo: "TemplateId" }),
            },
            forall|v: u128| s@ == #[trigger] uuid_con_guiones(v) ==> (r matches Ok(id) && id.valor()
                == v),
    {
        match leer_uuid(s) {
            Some(v) => Ok(TemplateId(v)),
            None => Err(CoreError::IdInvalido { tipo: "TemplateId" }),
        }
    }
}

impl std::str::FromStr for TemplateId {
    type Err = CoreError;

    fn from_str(s: &str) -> (r: Result<Self, CoreError>)
        ensures
            match uuid_leido(s@) {
                Some(v) => r matches Ok(id) && id.valor() == v,
                None => r == Err::<Self, CoreError>(CoreError::IdInvalido { tipo: "TemplateId" }),
            },
    {
        TemplateId::leer(s)
    }
}

/// Versión inmutable de una plantilla.
#[derive(Clone, Copy, PartialEq, Eq, PartialOrd, Ord, Hash, Debug, Structural)]
pub struct TemplateVersionId(u128);

impl TemplateVersionId {
    /// Los 128 bits del UUID.
    pub closed spec fn valor(&self) -> u128 {
        self.0
    }

    /// Genera uno nuevo. UUID **v7**: ordena por creación y mantiene los
    /// índices compactos.
    pub fn nuevo() -> (r: Self)
        ensures
            es_uuid_v7(r.valor()),
    {
        TemplateVersionId(uuid_v7())
    }

    /// El mismo identificador como `uuid::Uuid`.
    pub fn as_uuid(&self) -> (r: uuid::Uuid)
        ensures
            bits_de_uuid(r) == self.valor(),
    {
        uuid_desde_u128(self.0)
    }

    /// El identificador que lleva ese `uuid::Uuid`.
    pub fn from_uuid(id: uuid::Uuid) -> (r: Self)
        ensures
            r.valor() == bits_de_uuid(id),
    {
        TemplateVersionId(uuid_a_u128(&id))
    }

    /// Los 128 bits del UUID.
    pub fn como_u128(&self) -> (r: u128)
        ensures
            r == self.valor(),
    {
        self.0
    }

    pub fn desde_u128(v: u128) -> (r: Self)
        ensures
            r.valor() == v,
    {
        TemplateVersionId(v)
    }

    /// El UUID escrito con guiones y en minúsculas.
    pub fn texto(&self) -> (r: String)
        ensures
            r@ == uuid_con_guiones(self.valor()),
    {
        texto_de_uuid(self.0)
    }

    /// Lee un identificador escrito. Lo que escribe [`Self::texto`] se lee de
    /// vuelta como el mismo identificador.
    pub fn leer(s: &str) -> (r: Result<Self, CoreError>)
        ensures
            match uuid_leido(s@) {
                Some(v) => r matches Ok(id) && id.valor() == v,
                None => r == Err::<Self, CoreError>(CoreError::IdInvalido { tipo: "TemplateVersionId" }),
            },
            forall|v: u128| s@ == #[trigger] uuid_con_guiones(v) ==> (r matches Ok(id) && id.valor()
                == v),
    {
        match leer_uuid(s) {
            Some(v) => Ok(TemplateVersionId(v)),
            None => Err(CoreError::IdInvalido { tipo: "TemplateVersionId" }),
        }
    }
}

impl std::str::FromStr for TemplateVersionId {
    type Err = CoreError;

    fn from_str(s: &str) -> (r: Result<Self, CoreError>)
        ensures
            match uuid_leido(s@) {
                Some(v) => r matches Ok(id) && id.valor() == v,
                None => r == Err::<Self, CoreError>(CoreError::IdInvalido { tipo: "TemplateVersionId" }),
            },
    {
        TemplateVersionId::leer(s)
    }
}

/// Campaña.
#[derive(Clone, Copy, PartialEq, Eq, PartialOrd, Ord, Hash, Debug, Structural)]
pub struct CampaignId(u128);

impl CampaignId {
    /// Los 128 bits del UUID.
    pub closed spec fn valor(&self) -> u128 {
        self.0
    }

    /// Genera uno nuevo. UUID **v7**: ordena por creación y mantiene los
    /// índices compactos.
    pub fn nuevo() -> (r: Self)
        ensures
            es_uuid_v7(r.valor()),
    {
        CampaignId(uuid_v7())
    }

    /// El mismo identificador como `uuid::Uuid`.
    pub fn as_uuid(&self) -> (r: uuid::Uuid)
        ensures
            bits_de_uuid(r) == self.valor(),
    {
        uuid_desde_u128(self.0)
    }

    /// El identificador que lleva ese `uuid::Uuid`.
    pub fn from_uuid(id: uuid::Uuid) -> (r: Self)
        ensures
            r.valor() == bits_de_uuid(id),
    {
        CampaignId(uuid_a_u128(&id))
    }

    /// Los 128 bits del UUID.
    pub fn como_u128(&self) -> (r: u128)
        ensures
            r == self.valor(),
    {
        self.0
    }

    pub fn desde_u128(v: u128) -> (r: Self)
        ensures
            r.valor() == v,
    {
        CampaignId(v)
    }

    /// El UUID escrito con guiones y en minúsculas.
    pub fn texto(&self) -> (r: String)
        ensures
            r@ == uuid_con_guiones(self.valor()),
    {
        texto_de_uuid(self.0)
    }

    /// Lee un identificador escrito. Lo que escribe [`Self::texto`] se lee de
    /// vuelta como el mismo identificador.
    pub fn leer(s: &str) -> (r: Result<Self, CoreError>)
        ensures
            match uuid_leido(s@) {
                Some(v) => r matches Ok(id) && id.valor() == v,
                None => r == Err::<Self, CoreError>(CoreError::IdInvalido { tipo: "CampaignId" }),
            },
            forall|v: u128| s@ == #[trigger] uuid_con_guiones(v) ==> (r matches Ok(id) && id.valor()
                == v),
    {
        match leer_uuid(s) {
            Some(v) => Ok(CampaignId(v)),
            None => Err(CoreError::IdInvalido { tipo: "CampaignId" }),
        }
    }
}

impl std::str::FromStr for CampaignId {
    type Err = CoreError;

    fn from_str(s: &str) -> (r: Result<Self, CoreError>)
        ensures
            match uuid_leido(s@) {
                Some(v) => r matches Ok(id) && id.valor() == v,
                None => r == Err::<Self, CoreError>(CoreError::IdInvalido { tipo: "CampaignId" }),
            },
    {
        CampaignId::leer(s)
    }
}

/// Intento de envío.
#[derive(Clone, Copy, PartialEq, Eq, PartialOrd, Ord, Hash, Debug, Structural)]
pub struct MessageAttemptId(u128);

impl MessageAttemptId {
    /// Los 128 bits del UUID.
    pub closed spec fn valor(&self) -> u128 {
        self.0
    }

    /// Genera uno nuevo. UUID **v7**: ordena por creación y mantiene los
    /// índices compactos.
    pub fn nuevo() -> (r: Self)
        ensures
            es_uuid_v7(r.valor()),
    {
        MessageAttemptId(uuid_v7())
    }

    /// El mismo identificador como `uuid::Uuid`.
    pub fn as_uuid(&self) -> (r: uuid::Uuid)
        ensures
            bits_de_uuid(r) == self.valor(),
    {
        uuid_desde_u128(self.0)
    }

    /// El identificador que lleva ese `uuid::Uuid`.
    pub fn from_uuid(id: uuid::Uuid) -> (r: Self)
        ensures
            r.valor() == bits_de_uuid(id),
    {
        MessageAttemptId(uuid_a_u128(&id))
    }

    /// Los 128 bits del UUID.
    pub fn como_u128(&self) -> (r: u128)
        ensures
            r == self.valor(),
    {
        self.0
    }

    pub fn desde_u128(v: u128) -> (r: Self)
        ensures
            r.valor() == v,
    {
        MessageAttemptId(v)
    }

    /// El UUID escrito con guiones y en minúsculas.
    pub fn texto(&self) -> (r: String)
        ensures
            r@ == uuid_con_guiones(self.valor()),
    {
        texto_de_uuid(self.0)
    }

    /// Lee un identificador escrito. Lo que escribe [`Self::texto`] se lee de
    /// vuelta como el mismo identificador.
    pub fn leer(s: &str) -> (r: Result<Self, CoreError>)
        ensures
            match uuid_leido(s@) {
                Some(v) => r matches Ok(id) && id.valor() == v,
                None => r == Err::<Self, CoreError>(CoreError::IdInvalido { tipo: "MessageAttemptId" }),
            },
            forall|v: u128| s@ == #[trigger] uuid_con_guiones(v) ==> (r matches Ok(id) && id.valor()
                == v),
    {
        match leer_uuid(s) {
            Some(v) => Ok(MessageAttemptId(v)),
            None => Err(CoreError::IdInvalido { tipo: "MessageAttemptId" }),
        }
    }
}

impl std::str::FromStr for MessageAttemptId {
    type Err = CoreError;

    fn from_str(s: &str) -> (r: Result<Self, CoreError>)
        ensures
            match uuid_leido(s@) {
                Some(v) => r matches Ok(id) && id.valor() == v,
                None => r == Err::<Self, CoreError>(CoreError::IdInvalido { tipo: "MessageAttemptId" }),
            },
    {
        MessageAttemptId::leer(s)
    }
}

/// Entrada de supresión.
#[derive(Clone, Copy, PartialEq, Eq, PartialOrd, Ord, Hash, Debug, Structural)]
pub struct SuppressionEntryId(u128);

impl SuppressionEntryId {
    /// Los 128 bits del UUID.
    pub closed spec fn valor(&self) -> u128 {
        self.0
    }

    /// Genera uno nuevo. UUID **v7**: ordena por creación y mantiene los
    /// índices compactos.
    pub fn nuevo() -> (r: Self)
        ensures
            es_uuid_v7(r.valor()),
    {
        SuppressionEntryId(uuid_v7())
    }

    /// El mismo identificador como `uuid::Uuid`.
    pub fn as_uuid(&self) -> (r: uuid::Uuid)
        ensures
            bits_de_uuid(r) == self.valor(),
    {
        uuid_desde_u128(self.0)
    }

    /// El identificador que lleva ese `uuid::Uuid`.
    pub fn from_uuid(id: uuid::Uuid) -> (r: Self)
        ensures
            r.valor() == bits_de_uuid(id),
    {
        SuppressionEntryId(uuid_a_u128(&id))
    }

    /// Los 128 bits del UUID.
    pub fn como_u128(&self) -> (r: u128)
        ensures
            r == self.valor(),
    {
        self.0
    }

    pub fn desde_u128(v: u128) -> (r: Self)
        ensures
            r.valor() == v,
    {
        SuppressionEntryId(v)
    }

    /// El UUID escrito con guiones y en minúsculas.
    pub fn texto(&self) -> (r: String)
        ensures
            r@ == uuid_con_guiones(self.valor()),
    {
        texto_de_uuid(self.0)
    }

    /// Lee un identificador escrito. Lo que escribe [`Self::texto`] se lee de
    /// vuelta como el mismo identificador.
    pub fn leer(s: &str) -> (r: Result<Self, CoreError>)
        ensures
            match uuid_leido(s@) {
                Some(v) => r matches Ok(id) && id.valor() == v,
                None => r == Err::<Self, CoreError>(CoreError::IdInvalido { tipo: "SuppressionEntryId" }),
            },
            forall|v: u128| s@ == #[trigger] uuid_con_guiones(v) ==> (r matches Ok(id) && id.valor()
                == v),
    {
        match leer_uuid(s) {
            Some(v) => Ok(SuppressionEntryId(v)),
            None => Err(CoreError::IdInvalido { tipo: "SuppressionEntryId" }),
        }
    }
}

impl std::str::FromStr for SuppressionEntryId {
    type Err = CoreError;

    fn from_str(s: &str) -> (r: Result<Self, CoreError>)
        ensures
            match uuid_leido(s@) {
                Some(v) => r matches Ok(id) && id.valor() == v,
                None => r == Err::<Self, CoreError>(CoreError::IdInvalido { tipo: "SuppressionEntryId" }),
            },
    {
        SuppressionEntryId::leer(s)
    }
}

// ─────────────────────────────────────────────────────────────────────────
// La clave de idempotencia
// ─────────────────────────────────────────────────────────────────────────

/// Clave de idempotencia de un intento de envío.
///
/// Se genera y se persiste **antes** de llamar al proveedor, y viaja como
/// `Message-Id` del correo.
#[derive(Clone, PartialEq, Eq, Hash, Debug, Structural)]
pub struct IdempotencyKey(u128);

impl IdempotencyKey {
    pub closed spec fn valor(&self) -> u128 {
        self.0
    }

    pub fn nueva() -> (r: Self)
        ensures
            es_uuid_v7(r.valor()),
    {
        IdempotencyKey(uuid_v7())
    }

    /// La clave escrita con guiones y en minúsculas.
    pub fn texto(&self) -> (r: String)
        ensures
            r@ == uuid_con_guiones(self.valor()),
    {
        texto_de_uuid(self.0)
    }

    /// Forma del `Message-Id` según RFC 5322: `<identificador@dominio>`.
    ///
    /// Toma una [`EmailAddress`] ya validada y no una cadena suelta: el dominio
    /// acaba en una cabecera SMTP, y con un texto cualquiera un CR o LF ahí
    /// permitiría inyectar cabeceras.
    pub fn como_message_id(&self, remitente: &EmailAddress) -> (r: String)
        ensures
            r@ == "<"@ + uuid_con_guiones(self.valor()) + "@"@ + dominio_de(
                remitente.normalized_spec(),
            ) + ">"@,
    {
        let abre = caracteres("<");
        let id = caracteres(texto_de_uuid(self.0).as_str());
        let arroba = caracteres("@");
        let dominio = caracteres(remitente.dominio());
        let cierra = caracteres(">");
        let a = unir(abre.as_slice(), id.as_slice());
        let b = unir(a.as_slice(), arroba.as_slice());
        let c = unir(b.as_slice(), dominio.as_slice());
        let d = unir(c.as_slice(), cierra.as_slice());
        a_texto(d.as_slice())
    }
}

} // verus!
