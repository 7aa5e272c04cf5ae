use arles::email::EmailAddress;
use arles::error::CoreError;
use arles::ids::{CampaignId, ContactId, IdempotencyKey, texto_de_uuid};

#[test]
fn los_identificadores_son_unicos() {
    let a = ContactId::nuevo();
    let b = ContactId::nuevo();
    assert_ne!(a, b);
}

#[test]
fn los_identificadores_ordenan_por_creacion() {
    let mut anterior = ContactId::nuevo();
    for _ in 0..50 {
        let siguiente = ContactId::nuevo();
        assert!(
            siguiente >= anterior,
            "los UUID v7 deberían ser monótonos: {anterior:?} → {siguiente:?}"
        );
        anterior = siguiente;
    }
}

#[test]
fn ida_y_vuelta_por_texto() {
    let id = CampaignId::nuevo();
    let recuperado: CampaignId = id.texto().parse().expect("debería parsear");
    assert_eq!(id, recuperado);
}

#[test]
fn rechaza_texto_que_no_es_uuid() {
    assert!("no-soy-un-uuid".parse::<CampaignId>().is_err());
    assert!("".parse::<ContactId>().is_err());
}

#[test]
fn el_message_id_sigue_el_rfc_5322() {
    let remitente = EmailAddress::parse("ventas@empresa.com").expect("válida");
    let clave = IdempotencyKey::nueva();
    let mid = clave.como_message_id(&remitente);
    assert!(mid.starts_with('<'));
    assert!(mid.ends_with("@empresa.com>"));
    assert!(mid.contains(&clave.texto()));
}

#[test]
fn el_message_id_no_puede_llevar_saltos_de_linea() {
    assert!(
        EmailAddress::parse("ventas@empresa.com\r\nBcc: victima@otra.com").is_err(),
        "si esto se aceptara, el dominio inyectaría cabeceras en el Message-Id"
    );

    let remitente = EmailAddress::parse("ventas@empresa.com").expect("válida");
    let mid = IdempotencyKey::nueva().como_message_id(&remitente);
    assert!(!mid.contains(['\r', '\n']));
}

// ── Propias ──

#[test]
fn el_texto_va_con_guiones_y_en_minusculas() {
    assert_eq!(
        texto_de_uuid(0xa1a2a3a4b1b2c1c2d1d2d3d4d5d6d7d8),
        "a1a2a3a4-b1b2-c1c2-d1d2-d3d4d5d6d7d8"
    );
    assert_eq!(texto_de_uuid(0), "00000000-0000-0000-0000-000000000000");
    let id = ContactId::desde_u128(0x0190_0000_0000_7000_8000_0000_0000_000a);
    assert_eq!(id.texto(), "01900000-0000-7000-8000-00000000000a");
}

#[test]
fn se_leen_las_formas_que_escribe_uuid() {
    let id = ContactId::leer("01900000-0000-7000-8000-00000000000A").expect("mayúsculas");
    assert_eq!(id.como_u128(), 0x0190_0000_0000_7000_8000_0000_0000_000a);
    let simple = ContactId::leer("01900000000070008000000000000000a");
    assert!(simple.is_err(), "33 dígitos no es un UUID");
    let sin_guiones = ContactId::leer("0190000000007000800000000000000a").expect("32 dígitos");
    assert_eq!(sin_guiones, id);
}

#[test]
fn el_error_nombra_el_tipo() {
    assert_eq!(
        CampaignId::leer("x").err(),
        Some(CoreError::IdInvalido { tipo: "CampaignId" })
    );
}

#[test]
fn el_uuid_cruza_la_frontera_sin_cambiar() {
    let id = ContactId::nuevo();
    let vuelta = ContactId::from_uuid(id.as_uuid());
    assert_eq!(id, vuelta);
    assert_eq!(id.as_uuid().to_string(), id.texto());
}

#[test]
fn un_identificador_nuevo_es_un_uuid_version_7() {
    let t = ContactId::nuevo().texto();
    let c: Vec<char> = t.chars().collect();
    assert_eq!(c.len(), 36);
    assert_eq!(c[14], '7', "{t}");
    assert!(matches!(c[19], '8' | '9' | 'a' | 'b'), "{t}");
}
