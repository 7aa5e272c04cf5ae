//! Canales de contacto, y el valor que identifica a alguien en cada uno.
//!
//! Un contacto **tiene canales**: un correo, un móvil, o los dos. Cada valor se
//! valida y se normaliza según su canal, y la forma normalizada es la clave de
//! la deduplicación, de la supresión y de la unicidad de los intentos.

use vstd::prelude::*;

use crate::email::{EmailAddress, motivo_de_rechazo_email};
use crate::error::CoreError;
use crate::texto::{
    a_texto, caracteres, recortado, recortar_texto, texto_igual, trozo, unir, minusculas,
};

verus! {

/// Por dónde se le escribe a un contacto. **Cerrado a propósito.**
#[derive(Debug, Clone, Copy, PartialEq, Eq, Hash, Structural)]
pub enum Canal {
    Correo,
    WhatsApp,
}

/// Cómo se escribe cada canal en la base de datos.
pub open spec fn texto_de_canal(c: Canal) -> &'static str {
    match c {
        Canal::Correo => "email",
        Canal::WhatsApp => "whatsapp",
    }
}

impl Canal {
    /// Todos los canales.
    pub const TODOS: [Canal; 2] = [Canal::Correo, Canal::WhatsApp];

    /// Cómo se escribe en la base de datos. Es un contrato con el esquema.
    pub fn como_texto(self) -> (r: &'static str)
        ensures
            r == texto_de_canal(self),
    {
        match self {
            Canal::Correo => "email",
            Canal::WhatsApp => "whatsapp",
        }
    }

    /// Lee lo que hay guardado en la base.
    ///
    /// Una fila con un canal que no reconocemos es un dato corrupto, no un caso
    /// a ignorar: decidiría a quién se le escribe.
    pub fn desde_texto(texto: &str) -> (r: Result<Canal, CoreError>)
        ensures
            texto@ == "email"@ ==> r == Ok::<Canal, CoreError>(Canal::Correo),
            texto@ == "whatsapp"@ ==> r == Ok::<Canal, CoreError>(Canal::WhatsApp),
            texto@ != "email"@ && texto@ != "whatsapp"@ ==> r == Err::<Canal, CoreError>(
                CoreError::CanalDesconocido,
            ),
    {
        proof {
            reveal_strlit("email");
            reveal_strlit("whatsapp");
            assert("email"@.len() != "whatsapp"@.len());
        }
        if texto_igual(texto, "email") {
            Ok(Canal::Correo)
        } else if texto_igual(texto, "whatsapp") {
            Ok(Canal::WhatsApp)
        } else {
            Err(CoreError::CanalDesconocido)
        }
    }
}

/// Leer lo escrito devuelve el mismo canal.
pub proof fn ley_canal_ida_y_vuelta(c: Canal)
    ensures
        texto_de_canal(c)@ == "email"@ <==> c == Canal::Correo,
        texto_de_canal(c)@ == "whatsapp"@ <==> c == Canal::WhatsApp,
{
    reveal_strlit("email");
    reveal_strlit("whatsapp");
    match c {
        Canal::Correo => {
            assert("email"@ != "whatsapp"@) by {
                assert("email"@.len() != "whatsapp"@.len());
            }
        },
        Canal::WhatsApp => {
            assert("email"@ != "whatsapp"@) by {
                assert("email"@.len() != "whatsapp"@.len());
            }
        },
    }
}

// ─────────────────────────────────────────────────────────────────────────
// El teléfono
// ─────────────────────────────────────────────────────────────────────────

/// Tope: un número internacional no pasa de 15 dígitos (E.164).
pub const MAX_DIGITOS: usize = 15;

/// Mínimo razonable. Por debajo no es un número al que se pueda escribir.
pub const MIN_DIGITOS: usize = 8;

pub open spec fn es_digito(c: char) -> bool {
    '0' <= c && c <= '9'
}

/// Puntuación que la gente escribe en un teléfono y que se tira.
pub open spec fn es_puntuacion_de_telefono(c: char) -> bool {
    c == '+' || c == ' ' || c == '-' || c == '(' || c == ')' || c == '.' || c == '\u{a0}'
}

/// Sólo los dígitos de un texto, en su orden.
pub open spec fn solo_digitos(s: Seq<char>) -> Seq<char>
    decreases s.len(),
{
    if s.len() == 0 {
        seq![]
    } else if es_digito(s.last()) {
        solo_digitos(s.drop_last()).push(s.last())
    } else {
        solo_digitos(s.drop_last())
    }
}

/// ¿Trae sólo caracteres que pueden estar en un teléfono escrito?
pub open spec fn todo_de_telefono(s: Seq<char>) -> bool {
    forall|k: int| 0 <= k < s.len() ==> es_digito(#[trigger] s[k]) || es_puntuacion_de_telefono(s[k])
}

/// ¿Viene con prefijo internacional (`+` o `00`)?
pub open spec fn es_internacional(raw: Seq<char>) -> bool {
    "+"@.is_prefix_of(raw) || "00"@.is_prefix_of(raw)
}

/// Los dígitos que cuentan: sin el `00` inicial, que equivale al `+`.
pub open spec fn digitos_utiles(raw: Seq<char>) -> Seq<char> {
    if "00"@.is_prefix_of(raw) {
        solo_digitos(raw).skip(2)
    } else {
        solo_digitos(raw)
    }
}

/// Quita el «1» mexicano cuando sobra: sólo `52` + `1` + diez dígitos.
pub open spec fn canonizar_spec(d: Seq<char>) -> Seq<char> {
    if "521"@.is_prefix_of(d) && d.len() == 13 {
        "52"@ + d.skip(3)
    } else {
        d
    }
}

/// Por qué un número ya recortado no es válido, o `None` si lo es.
pub open spec fn motivo_de_rechazo_telefono(raw: Seq<char>, pais: Seq<char>) -> Option<&'static str> {
    if raw.len() == 0 {
        Some("el número está vacío")
    } else if !todo_de_telefono(raw) {
        Some("el número contiene caracteres que no son de un teléfono")
    } else if digitos_utiles(raw).len() < MIN_DIGITOS {
        Some("el número tiene menos dígitos de los que necesita un teléfono")
    } else if digitos_utiles(raw).len() > MAX_DIGITOS {
        Some("el número supera los 15 dígitos que admite el formato internacional")
    } else if !es_internacional(raw) && pais != "MX"@ {
        Some("el número viene sin prefijo internacional y no sabemos cuál poner")
    } else {
        None
    }
}

/// La forma canónica E.164 de un número válido.
pub open spec fn telefono_normalizado(raw: Seq<char>) -> Seq<char> {
    let con_pais = if es_internacional(raw) {
        digitos_utiles(raw)
    } else {
        "52"@ + digitos_utiles(raw)
    };
    "+"@ + canonizar_spec(con_pais)
}

/// Un número de móvil en forma canónica E.164, sin el «1» mexicano.
#[derive(Debug)]
pub struct PhoneNumber {
    raw: String,
    normalized: String,
}

proof fn lema_solo_digitos_suma(a: Seq<char>, b: Seq<char>)
    ensures
        solo_digitos(a + b) == solo_digitos(a) + solo_digitos(b),
    decreases b.len(),
{
    if b.len() == 0 {
        assert(a + b =~= a);
        assert(solo_digitos(a) + seq![] =~= solo_digitos(a));
    } else {
        assert((a + b).drop_last() =~= a + b.drop_last());
        lema_solo_digitos_suma(a, b.drop_last());
        if es_digito(b.last()) {
            assert(solo_digitos(a) + solo_digitos(b) =~= solo_digitos(a) + solo_digitos(
                b.drop_last(),
            ).push(b.last()));
        }
    }
}

proof fn lema_solo_digitos_son_digitos(s: Seq<char>)
    ensures
        forall|k: int| 0 <= k < solo_digitos(s).len() ==> es_digito(#[trigger] solo_digitos(s)[k]),
        solo_digitos(s).len() <= s.len(),
    decreases s.len(),
{
    if s.len() > 0 {
        lema_solo_digitos_son_digitos(s.drop_last());
    }
}

fn lit_cero_cero() -> (r: Vec<char>)
    ensures
        r@ == "00"@,
{
    caracteres("00")
}

impl PhoneNumber {
    #[verifier::type_invariant]
    closed spec fn bien_formado(self) -> bool {
        &&& self.raw@.len() > 0
        &&& recortado(self.raw@) == self.raw@
        &&& self.normalized@ == telefono_normalizado(self.raw@)
    }

    /// Lo que escribió el usuario, recortado.
    pub closed spec fn raw_spec(&self) -> Seq<char> {
        self.raw@
    }

    /// La forma canónica E.164.
    pub closed spec fn normalized_spec(&self) -> Seq<char> {
        self.normalized@
    }

    /// Valida y normaliza un número.
    ///
    /// `pais_por_defecto` es el de la empresa, y **sólo se usa cuando el número
    /// viene sin prefijo internacional**. El único prefijo que se sabe poner es
    /// el de México: adivinar el de otro país sería peor que negarse, porque un
    /// número mal completado **le llega a otra persona**.
    pub fn parse(entrada: &str, pais_por_defecto: &str) -> (r: Result<Self, CoreError>)
        ensures
            match motivo_de_rechazo_telefono(recortado(entrada@), pais_por_defecto@) {
                Some(m) => r == Err::<Self, CoreError>(CoreError::TelefonoInvalido { motivo: m }),
                None => r matches Ok(t) && t.raw_spec() == recortado(entrada@)
                    && t.normalized_spec() == telefono_normalizado(recortado(entrada@)),
            },
    {
        let raw = recortar_texto(entrada);
        let ghost r0 = raw@;
        proof {
            crate::texto::lema_recortado(entrada@);
            crate::texto::lema_recortado(r0);
        }
        if raw.len() == 0 {
            return Err(CoreError::TelefonoInvalido { motivo: "el número está vacío" });
        }
        let mas = caracteres("+");
        let cero_cero = lit_cero_cero();
        let internacional = crate::texto::empieza_con(raw.as_slice(), mas.as_slice())
            || crate::texto::empieza_con(raw.as_slice(), cero_cero.as_slice());
        let mut digitos: Vec<char> = Vec::new();
        let mut k: usize = 0;
        while k < raw.len()
            invariant
                k <= raw.len(),
                raw@ == r0,
                r0 == recortado(entrada@),
                r0.len() > 0,
                digitos@ == solo_digitos(r0.take(k as int)),
                forall|m: int| 0 <= m < k ==> es_digito(#[trigger] r0[m]) || es_puntuacion_de_telefono(r0[m]),
            decreases raw.len() - k,
        {
            let c = raw[k];
            assert(r0.take(k + 1).drop_last() =~= r0.take(k as int));
            if '0' <= c && c <= '9' {
                digitos.push(c);
            } else if c == '+' || c == ' ' || c == '-' || c == '(' || c == ')' || c == '.' || c
                == '\u{a0}' {
            } else {
                assert(!es_digito(r0[k as int]) && !es_puntuacion_de_telefono(r0[k as int]));
                return Err(
                    CoreError::TelefonoInvalido {
                        motivo: "el número contiene caracteres que no son de un teléfono",
                    },
                );
            }
            k = k + 1;
        }
        assert(r0.take(r0.len() as int) =~= r0);
        if crate::texto::empieza_con(raw.as_slice(), cero_cero.as_slice()) {
            proof {
                reveal_strlit("00");
                assert(r0 =~= r0.take(2) + r0.skip(2));
                lema_solo_digitos_suma(r0.take(2), r0.skip(2));
                let t = r0.take(2);
                assert(t =~= seq!['0', '0']);
                assert(t.drop_last() =~= seq!['0']);
                assert(t.drop_last().drop_last() =~= Seq::<char>::empty());
                reveal_with_fuel(solo_digitos, 3);
                assert(solo_digitos(t) =~= seq!['0', '0']);
            }
            digitos = trozo(&digitos, 2, digitos.len());
        }
        if digitos.len() < MIN_DIGITOS {
            return Err(
                CoreError::TelefonoInvalido {
                    motivo: "el número tiene menos dígitos de los que necesita un teléfono",
                },
            );
        }
        if digitos.len() > MAX_DIGITOS {
            return Err(
                CoreError::TelefonoInvalido {
                    motivo: "el número supera los 15 dígitos que admite el formato internacional",
                },
            );
        }
        let con_pais = if internacional {
            digitos
        } else {
            if texto_igual(pais_por_defecto, "MX") {
                let cincuenta_y_dos = caracteres("52");
                unir(cincuenta_y_dos.as_slice(), digitos.as_slice())
            } else {
                return Err(
                    CoreError::TelefonoInvalido {
                        motivo: "el número viene sin prefijo internacional y no sabemos cuál poner",
                    },
                );
            }
        };
        let canonica = canonizar(&con_pais);
        let normalizado = unir(mas.as_slice(), canonica.as_slice());
        proof {
            assert(recortado(r0) == r0) by {
                crate::texto::lema_sin_espacios_en_los_bordes(r0);
            }
        }
        Ok(PhoneNumber { raw: a_texto(raw.as_slice()), normalized: a_texto(normalizado.as_slice()) })
    }

    /// Lo que escribió el usuario, para poder mostrarlo tal cual.
    pub fn raw(&self) -> (r: &str)
        ensures
            r@ == self.raw_spec(),
    {
        self.raw.as_str()
    }

    /// La forma canónica E.164, que es la clave de todo lo que compara.
    pub fn normalized(&self) -> (r: &str)
        ensures
            r@ == self.normalized_spec(),
            r@ == telefono_normalizado(self.raw_spec()),
    {
        proof {
            use_type_invariant(self);
        }
        self.normalized.as_str()
    }

    /// Una copia con los mismos valores.
    pub fn copia(&self) -> (r: Self)
        ensures
            r.raw_spec() == self.raw_spec(),
            r.normalized_spec() == self.normalized_spec(),
    {
        proof {
            use_type_invariant(self);
        }
        PhoneNumber { raw: self.raw.clone(), normalized: self.normalized.clone() }
    }
}

/// Quita el «1» mexicano cuando sobra. Sólo actúa sobre `52` + `1` + 10
/// dígitos: un `+521…` de otra longitud no se toca, porque recortarlo a ciegas
/// sería inventarse un teléfono.
pub fn canonizar(digitos: &Vec<char>) -> (r: Vec<char>)
    ensures
        r@ == canonizar_spec(digitos@),
{
    let prefijo = caracteres("521");
    if crate::texto::empieza_con(digitos.as_slice(), prefijo.as_slice()) && digitos.len() == 13 {
        let cincuenta_y_dos = caracteres("52");
        let resto = trozo(digitos, 3, digitos.len());
        proof {
            reveal_strlit("521");
        }
        unir(cincuenta_y_dos.as_slice(), resto.as_slice())
    } else {
        trozo(digitos, 0, digitos.len())
    }
}

impl Clone for PhoneNumber {
    fn clone(&self) -> (r: Self)
        ensures
            r.raw_spec() == self.raw_spec(),
            r.normalized_spec() == self.normalized_spec(),
    {
        self.copia()
    }
}

impl PartialEq for PhoneNumber {
    fn eq(&self, otro: &Self) -> (r: bool) {
        self.normalized == otro.normalized
    }
}

impl vstd::std_specs::cmp::PartialEqSpecImpl for PhoneNumber {
    open spec fn obeys_eq_spec() -> bool {
        true
    }

    open spec fn eq_spec(&self, otro: &Self) -> bool {
        self.normalized_spec() == otro.normalized_spec()
    }
}

impl Eq for PhoneNumber {

}

impl std::hash::Hash for PhoneNumber {
    /// `String::hash` sobre la forma canónica, que es la que decide la
    /// igualdad.
    #[verifier::external_body]
    fn hash<H: std::hash::Hasher>(&self, estado: &mut H) {
        self.normalized.hash(estado);
    }
}

// ─────────────────────────────────────────────────────────────────────────
// El valor de canal
// ─────────────────────────────────────────────────────────────────────────

/// Un canal con su valor: por dónde se le escribe a alguien, y a qué dirección.
#[derive(Clone, PartialEq, Eq, Hash)]
pub enum ValorDeCanal {
    Correo(EmailAddress),
    WhatsApp(PhoneNumber),
}

/// Cómo queda normalizado un valor en un canal, si es válido.
pub open spec fn valor_normalizado(canal: Canal, valor: Seq<char>, pais: Seq<char>) -> Option<
    Seq<char>,
> {
    match canal {
        Canal::Correo => if motivo_de_rechazo_email(recortado(valor)) is None {
            Some(minusculas(recortado(valor)))
        } else {
            None
        },
        Canal::WhatsApp => if motivo_de_rechazo_telefono(recortado(valor), pais) is None {
            Some(telefono_normalizado(recortado(valor)))
        } else {
            None
        },
    }
}

impl ValorDeCanal {
    /// Lo que escribió el usuario.
    pub open spec fn raw_spec(&self) -> Seq<char> {
        match self {
            ValorDeCanal::Correo(e) => e.raw_spec(),
            ValorDeCanal::WhatsApp(t) => t.raw_spec(),
        }
    }

    /// La forma normalizada.
    pub open spec fn normalized_spec(&self) -> Seq<char> {
        match self {
            ValorDeCanal::Correo(e) => e.normalized_spec(),
            ValorDeCanal::WhatsApp(t) => t.normalized_spec(),
        }
    }

    pub open spec fn canal_spec(&self) -> Canal {
        match self {
            ValorDeCanal::Correo(_) => Canal::Correo,
            ValorDeCanal::WhatsApp(_) => Canal::WhatsApp,
        }
    }

    /// Valida `valor` **según el canal que se diga**.
    pub fn parse(canal: Canal, valor: &str, pais_por_defecto: &str) -> (r: Result<Self, CoreError>)
        ensures
            canal is Correo ==> match motivo_de_rechazo_email(recortado(valor@)) {
                Some(m) => r == Err::<Self, CoreError>(CoreError::EmailInvalido { motivo: m }),
                None => r is Ok,
            },
            canal is WhatsApp ==> match motivo_de_rechazo_telefono(
                recortado(valor@),
                pais_por_defecto@,
            ) {
                Some(m) => r == Err::<Self, CoreError>(CoreError::TelefonoInvalido { motivo: m }),
                None => r is Ok,
            },
            r is Ok <==> valor_normalizado(canal, valor@, pais_por_defecto@) is Some,
            r matches Ok(v) ==> v.canal_spec() == canal && v.raw_spec() == recortado(valor@)
                && Some(v.normalized_spec()) == valor_normalizado(canal, valor@, pais_por_defecto@),
    {
        match canal {
            Canal::Correo => match EmailAddress::parse(valor) {
                Ok(e) => Ok(ValorDeCanal::Correo(e)),
                Err(e) => Err(e),
            },
            Canal::WhatsApp => match PhoneNumber::parse(valor, pais_por_defecto) {
                Ok(t) => Ok(ValorDeCanal::WhatsApp(t)),
                Err(e) => Err(e),
            },
        }
    }

    pub fn canal(&self) -> (r: Canal)
        ensures
            r == self.canal_spec(),
    {
        match self {
            ValorDeCanal::Correo(_) => Canal::Correo,
            ValorDeCanal::WhatsApp(_) => Canal::WhatsApp,
        }
    }

    /// Lo que escribió el usuario.
    pub fn raw(&self) -> (r: &str)
        ensures
            r@ == self.raw_spec(),
    {
        match self {
            ValorDeCanal::Correo(e) => e.raw(),
            ValorDeCanal::WhatsApp(t) => t.raw(),
        }
    }

    /// La forma normalizada: la clave de la deduplicación, de la supresión y de
    /// la unicidad de los intentos.
    pub fn normalized(&self) -> (r: &str)
        ensures
            r@ == self.normalized_spec(),
    {
        match self {
            ValorDeCanal::Correo(e) => e.normalized(),
            ValorDeCanal::WhatsApp(t) => t.normalized(),
        }
    }

    /// El canal y la forma normalizada, nunca lo escrito en bruto: es lo que se
    /// enseña en una bitácora.
    pub fn descripcion(&self) -> (r: String)
        ensures
            r@ == texto_de_canal(self.canal_spec())@ + ":"@ + self.normalized_spec(),
    {
        let canal = caracteres(self.canal().como_texto());
        let dos_puntos = caracteres(":");
        let norm = caracteres(self.normalized());
        let a = unir(canal.as_slice(), dos_puntos.as_slice());
        let b = unir(a.as_slice(), norm.as_slice());
        a_texto(b.as_slice())
    }
}

/// El «1» mexicano no crea una segunda persona: con y sin él, el mismo número
/// queda con la misma forma canónica.
pub proof fn ley_el_uno_mexicano(d: Seq<char>)
    requires
        d.len() == 10,
    ensures
        canonizar_spec("521"@ + d) == canonizar_spec("52"@ + d),
        canonizar_spec("52"@ + d) == "52"@ + d,
{
    reveal_strlit("521");
    reveal_strlit("52");
    assert(("521"@ + d).skip(3) =~= d);
    assert("521"@.is_prefix_of("521"@ + d)) by {
        assert(("521"@ + d).subrange(0, 3) =~= "521"@);
    }
}

/// Canonizar dos veces es canonizar una.
pub proof fn ley_canonizar_es_estable(d: Seq<char>)
    ensures
        canonizar_spec(canonizar_spec(d)) == canonizar_spec(d),
{
    reveal_strlit("521");
    reveal_strlit("52");
    if "521"@.is_prefix_of(d) && d.len() == 13 {
        assert(canonizar_spec(d).len() == 12);
    }
}

} // verus!
