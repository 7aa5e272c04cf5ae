use arles::canal::{Canal, MAX_DIGITOS, PhoneNumber, ValorDeCanal};
use arles::error::CoreError;

#[test]
fn el_canal_va_y_vuelve_de_su_texto() {
    for canal in &Canal::TODOS {
        assert_eq!(Canal::desde_texto(canal.como_texto()), Ok(*canal));
    }
}

#[test]
fn los_textos_del_canal_son_los_del_esquema() {
    assert_eq!(Canal::Correo.como_texto(), "email");
    assert_eq!(Canal::WhatsApp.como_texto(), "whatsapp");
}

#[test]
fn un_canal_que_no_existe_se_rechaza() {
    assert_eq!(Canal::desde_texto("sms"), Err(CoreError::CanalDesconocido));
    assert_eq!(Canal::desde_texto(""), Err(CoreError::CanalDesconocido));
    assert_eq!(
        Canal::desde_texto("EMAIL"),
        Err(CoreError::CanalDesconocido)
    );
}

#[test]
fn un_movil_mexicano_de_diez_digitos_recibe_su_prefijo() {
    let t = PhoneNumber::parse("8112345678", "MX").expect("válido");
    assert_eq!(t.normalized(), "+528112345678");
    assert_eq!(t.raw(), "8112345678");
}

#[test]
fn la_puntuacion_que_escribe_la_gente_se_admite_y_se_tira() {
    for escrito in [
        "+52 (81) 1234-5678",
        "+52 81 1234 5678",
        "+52-81-1234-5678",
        "0052 81 1234 5678",
        "81 1234 5678",
        "81.1234.5678",
    ] {
        let t = PhoneNumber::parse(escrito, "MX").expect(escrito);
        assert_eq!(t.normalized(), "+528112345678", "escrito como «{escrito}»");
    }
}

#[test]
fn el_uno_mexicano_no_crea_una_segunda_persona() {
    let con = PhoneNumber::parse("+5218112345678", "MX").expect("válido");
    let sin = PhoneNumber::parse("+528112345678", "MX").expect("válido");

    assert_eq!(con.normalized(), "+528112345678");
    assert_eq!(con, sin, "con «1» y sin «1» tienen que ser el mismo número");

    let conjunto: std::collections::HashSet<_> = [con, sin].into_iter().collect();
    assert_eq!(conjunto.len(), 1, "la deduplicación los cuenta como uno");
}

#[test]
fn el_recorte_del_uno_no_se_aplica_a_cualquier_cosa() {
    let otro = PhoneNumber::parse("+5211234567", "MX").expect("válido");
    assert_eq!(otro.normalized(), "+5211234567");
}

#[test]
fn un_numero_de_fuera_conserva_su_prefijo() {
    let t = PhoneNumber::parse("+1 415 555 0132", "MX").expect("válido");
    assert_eq!(t.normalized(), "+14155550132");
}

#[test]
fn el_pais_por_defecto_no_pisa_un_prefijo_escrito() {
    let t = PhoneNumber::parse("+14155550132", "MX").expect("válido");
    assert!(t.normalized().starts_with("+1"));
}

#[test]
fn sin_prefijo_y_sin_pais_conocido_se_rechaza() {
    let e = PhoneNumber::parse("8112345678", "AR");
    assert!(matches!(e, Err(CoreError::TelefonoInvalido { .. })));
}

#[test]
fn lo_que_no_es_un_telefono_se_rechaza() {
    for malo in ["", "   ", "no tiene", "1234", "ext. 4021"] {
        assert!(
            matches!(
                PhoneNumber::parse(malo, "MX"),
                Err(CoreError::TelefonoInvalido { .. })
            ),
            "«{malo}» debería rechazarse"
        );
    }
}

#[test]
fn un_numero_desmesurado_se_rechaza() {
    let largo = format!("+{}", "9".repeat(MAX_DIGITOS + 1));
    assert!(matches!(
        PhoneNumber::parse(&largo, "MX"),
        Err(CoreError::TelefonoInvalido { .. })
    ));
}

#[test]
fn cada_canal_valida_con_su_propia_regla() {
    let correo = ValorDeCanal::parse(Canal::Correo, "Ana@Empresa.MX", "MX").expect("válido");
    assert_eq!(correo.normalized(), "ana@empresa.mx");
    assert_eq!(correo.canal(), Canal::Correo);

    let wa = ValorDeCanal::parse(Canal::WhatsApp, "81 1234 5678", "MX").expect("válido");
    assert_eq!(wa.normalized(), "+528112345678");
    assert_eq!(wa.canal(), Canal::WhatsApp);
}

#[test]
fn un_valor_no_vale_para_cualquier_canal() {
    assert!(ValorDeCanal::parse(Canal::Correo, "8112345678", "MX").is_err());
    assert!(ValorDeCanal::parse(Canal::WhatsApp, "ana@empresa.mx", "MX").is_err());
}

#[test]
fn el_debug_dice_el_canal_y_el_valor_normalizado() {
    let wa = ValorDeCanal::parse(Canal::WhatsApp, "+52 81 1234 5678", "MX").expect("válido");
    assert_eq!(wa.descripcion(), "whatsapp:+528112345678");
}

// ── Propias ──

#[test]
fn el_motivo_del_rechazo_dice_que_falta() {
    assert_eq!(
        PhoneNumber::parse("", "MX").err(),
        Some(CoreError::TelefonoInvalido {
            motivo: "el número está vacío"
        })
    );
    assert_eq!(
        PhoneNumber::parse("81x2345678", "MX").err(),
        Some(CoreError::TelefonoInvalido {
            motivo: "el número contiene caracteres que no son de un teléfono"
        })
    );
    assert_eq!(
        PhoneNumber::parse("1234567", "MX").err(),
        Some(CoreError::TelefonoInvalido {
            motivo: "el número tiene menos dígitos de los que necesita un teléfono"
        })
    );
    assert_eq!(
        PhoneNumber::parse("+1234567890123456", "MX").err(),
        Some(CoreError::TelefonoInvalido {
            motivo: "el número supera los 15 dígitos que admite el formato internacional"
        })
    );
    assert_eq!(
        PhoneNumber::parse("8112345678", "US").err(),
        Some(CoreError::TelefonoInvalido {
            motivo: "el número viene sin prefijo internacional y no sabemos cuál poner"
        })
    );
}

#[test]
fn canonizar_quita_el_uno_solo_con_trece_digitos() {
    let con: Vec<char> = "5218112345678".chars().collect();
    assert_eq!(
        arles::canal::canonizar(&con).into_iter().collect::<String>(),
        "528112345678"
    );
    let corto: Vec<char> = "52112345678".chars().collect();
    assert_eq!(
        arles::canal::canonizar(&corto).into_iter().collect::<String>(),
        "52112345678"
    );
}

#[test]
fn el_cero_cero_vale_como_el_mas() {
    let a = PhoneNumber::parse("0014155550132", "MX").expect("válido");
    assert_eq!(a.normalized(), "+14155550132");
}
