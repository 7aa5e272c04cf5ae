use arles::attempt::AttemptState;
use arles::error::CoreError;

#[test]
fn cada_variante_tiene_clave_i18n() {
    let casos = [
        CoreError::EmailInvalido { motivo: "prueba" },
        CoreError::TelefonoInvalido { motivo: "prueba" },
        CoreError::CanalDesconocido,
        CoreError::IdInvalido { tipo: "ContactId" },
        CoreError::Transicion(
            AttemptState::Sent
                .transicionar(AttemptState::Queued)
                .expect_err("debería fallar"),
        ),
    ];
    for e in casos {
        assert!(e.clave_i18n().starts_with("error."));
    }
}

#[test]
fn los_mensajes_no_revelan_rutas() {
    let e = CoreError::EmailInvalido {
        motivo: "falta la arroba",
    };
    let texto = e.mensaje();
    assert!(!texto.contains('/'));
    assert!(!texto.contains('\\'));
}

// ── Propias ──

#[test]
fn el_mensaje_de_cada_error_dice_que_paso() {
    assert_eq!(
        CoreError::EmailInvalido {
            motivo: "falta la arroba"
        }
        .mensaje(),
        "dirección de correo inválida: falta la arroba"
    );
    assert_eq!(
        CoreError::IdInvalido { tipo: "ContactId" }.mensaje(),
        "identificador de ContactId inválido"
    );
    assert_eq!(
        CoreError::OrigenDesconocido.clave_i18n(),
        "error.origen_desconocido"
    );
    assert_eq!(
        CoreError::CanalDesconocido.mensaje(),
        "el canal no es uno de los admitidos"
    );
}
