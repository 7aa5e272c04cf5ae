//! La huella de un contenido: el resumen SHA-256 de sus bytes, en texto.
//!
//! Es lo que permite decir «este archivo exacto ya se importó» y guardar la
//! prueba de qué texto de consentimiento se aceptó sin depender del nombre
//! con que llegó.

use vstd::prelude::*;

use crate::datos::{escribir_hex, hex_de_bytes};
use crate::texto::copiar;
use vstd::string::StringSliceAdditionalSpecFns;

verus! {

/// Lo que devuelve `sha2::Sha256::digest`: el resumen SHA-256 de los bytes.
pub uninterp spec fn sha256_de(b: Seq<u8>) -> Seq<u8>;

/// `sha2::Sha256::digest`: los 32 bytes del resumen, función de los bytes
/// de entrada y de nada más.
#[verifier::external_body]
fn resumen_sha256(bytes: &[u8]) -> (r: Vec<u8>)
    ensures
        r@ == sha256_de(bytes@),
        r@.len() == 32,
{
    <sha2::Sha256 as sha2::Digest>::digest(bytes).to_vec()
}

/// La huella de unos bytes: `sha256:` y el resumen en hexadecimal.
pub open spec fn huella_spec(b: Seq<u8>) -> Seq<char> {
    "sha256:"@ + hex_de_bytes(sha256_de(b))
}

/// La huella de unos bytes. Dos contenidos iguales dan la misma huella, se
/// llamen como se llamen.
pub fn huella_de_bytes(bytes: &[u8]) -> (r: String)
    ensures
        r@ == huella_spec(bytes@),
{
    let resumen = resumen_sha256(bytes);
    let mut r = copiar("sha256:");
    escribir_hex(resumen.as_slice(), &mut r);
    r
}

/// La huella de un texto: la de sus bytes en UTF-8.
pub fn huella(texto: &str) -> (r: String)
    ensures
        r@ == huella_spec(texto.spec_bytes()),
{
    huella_de_bytes(texto.as_bytes())
}

} // verus!
