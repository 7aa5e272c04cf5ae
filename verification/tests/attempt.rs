use arles::attempt::AttemptState;

const TODOS: [AttemptState; 9] = [
    AttemptState::Queued,
    AttemptState::Claimed,
    AttemptState::Sending,
    AttemptState::Sent,
    AttemptState::Failed,
    AttemptState::PermanentlyFailed,
    AttemptState::Suppressed,
    AttemptState::Cancelled,
    AttemptState::PresumedSent,
];

#[test]
fn el_camino_feliz() {
    let s = AttemptState::Queued
        .transicionar(AttemptState::Claimed)
        .and_then(|s| s.transicionar(AttemptState::Sending))
        .and_then(|s| s.transicionar(AttemptState::Sent));
    assert_eq!(s, Ok(AttemptState::Sent));
}

#[test]
fn los_estados_terminales_no_admiten_transiciones() {
    for estado in TODOS.into_iter().filter(|e| e.es_terminal()) {
        for destino in TODOS {
            assert!(
                estado.transicionar(destino).is_err(),
                "{estado:?} es terminal y no debería ir a {destino:?}"
            );
        }
    }
}

#[test]
fn no_se_puede_enviar_sin_pasar_por_claimed() {
    assert!(AttemptState::Queued.transicionar(AttemptState::Sending).is_err());
}

#[test]
fn no_se_puede_marcar_enviado_desde_la_cola() {
    assert!(AttemptState::Queued.transicionar(AttemptState::Sent).is_err());
}

#[test]
fn un_fallo_transitorio_vuelve_a_la_cola() {
    assert_eq!(
        AttemptState::Sending.transicionar(AttemptState::Failed),
        Ok(AttemptState::Failed)
    );
    assert_eq!(
        AttemptState::Failed.transicionar(AttemptState::Queued),
        Ok(AttemptState::Queued)
    );
}

#[test]
fn un_intento_ambiguo_nunca_se_reenvia() {
    assert_eq!(
        AttemptState::Sending.recuperar_al_arrancar(),
        AttemptState::PresumedSent
    );
    assert!(
        AttemptState::PresumedSent.es_terminal(),
        "presumed_sent debe ser terminal"
    );
    assert!(AttemptState::PresumedSent
        .transicionar(AttemptState::Queued)
        .is_err());
}

#[test]
fn un_intento_tomado_pero_no_enviado_si_vuelve_a_la_cola() {
    assert_eq!(
        AttemptState::Claimed.recuperar_al_arrancar(),
        AttemptState::Queued
    );
}

#[test]
fn la_recuperacion_no_toca_los_estados_terminales() {
    for estado in TODOS.into_iter().filter(|e| e.es_terminal()) {
        assert_eq!(estado.recuperar_al_arrancar(), estado);
    }
}

#[test]
fn un_intento_ambiguo_cuenta_como_envio_consumido() {
    assert!(AttemptState::PresumedSent.consumio_envio());
    assert!(AttemptState::Sent.consumio_envio());
    assert!(!AttemptState::Failed.consumio_envio());
    assert!(!AttemptState::Suppressed.consumio_envio());
    assert!(!AttemptState::Cancelled.consumio_envio());
}

#[test]
fn la_supresion_puede_ganar_antes_de_llamar_al_proveedor() {
    assert_eq!(
        AttemptState::Claimed.transicionar(AttemptState::Suppressed),
        Ok(AttemptState::Suppressed)
    );
    assert_eq!(
        AttemptState::Queued.transicionar(AttemptState::Suppressed),
        Ok(AttemptState::Suppressed)
    );
    assert!(AttemptState::Sending
        .transicionar(AttemptState::Suppressed)
        .is_err());
}

#[test]
fn los_identificadores_persistidos_son_estables() {
    assert_eq!(AttemptState::Queued.as_str(), "queued");
    assert_eq!(AttemptState::PermanentlyFailed.as_str(), "permanently_failed");
    assert_eq!(AttemptState::PresumedSent.as_str(), "presumed_sent");
}

// ── Propias ──

#[test]
fn una_transicion_rechazada_dice_de_donde_a_donde() {
    let e = AttemptState::Sent
        .transicionar(AttemptState::Queued)
        .expect_err("debería fallar");
    assert_eq!(e.desde, AttemptState::Sent);
    assert_eq!(e.hasta, AttemptState::Queued);
    assert_eq!(
        e.mensaje(),
        "transición de intento no permitida: sent → queued"
    );
}

#[test]
fn la_recuperacion_devuelve_a_la_cola_lo_que_no_salio() {
    assert_eq!(
        AttemptState::Queued.recuperar_al_arrancar(),
        AttemptState::Queued
    );
    assert_eq!(
        AttemptState::Failed.recuperar_al_arrancar(),
        AttemptState::Failed
    );
}
