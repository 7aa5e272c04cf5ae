use arles::onboarding::{ListaDeOnboarding, PASOS, PasoDeOnboarding, RecuentoDeAlta};

#[test]
fn una_instalacion_nueva_no_tiene_nada_hecho() {
    let l = ListaDeOnboarding::desde(&RecuentoDeAlta::default());
    assert_eq!(l.completados, 0);
    assert_eq!(l.total, PASOS.len());
    assert!(!l.terminada());
    assert_eq!(l.siguiente, Some(PasoDeOnboarding::Empresa));
}

#[test]
fn configurar_la_empresa_marca_su_paso() {
    let r = RecuentoDeAlta {
        empresas: 1,
        ..RecuentoDeAlta::default()
    };
    let l = ListaDeOnboarding::desde(&r);
    assert_eq!(l.completados, 1);
    assert!(l
        .pasos
        .iter()
        .any(|p| p.paso == PasoDeOnboarding::Empresa && p.completado));
}

#[test]
fn borrar_el_dato_devuelve_el_paso_a_pendiente() {
    let con = RecuentoDeAlta {
        remitentes: 1,
        ..RecuentoDeAlta::default()
    };
    let sin = RecuentoDeAlta::default();
    let hecho = |r: &RecuentoDeAlta| PasoDeOnboarding::Remitente.completado(r);
    assert!(hecho(&con));
    assert!(!hecho(&sin), "el paso mintió después de borrar el dato");
}

#[test]
fn sin_siguiente_no_significa_terminada() {
    let r = RecuentoDeAlta {
        empresas: 1,
        ..RecuentoDeAlta::default()
    };
    let l = ListaDeOnboarding::desde(&r);
    assert_eq!(l.siguiente, None, "solo Empresa está construido");
    assert!(!l.terminada());
}

#[test]
fn con_todo_hecho_la_lista_termina() {
    let r = RecuentoDeAlta {
        empresas: 1,
        remitentes: 1,
        contactos: 1,
        plantillas: 1,
        ventanas: 1,
        campanas: 1,
    };
    let l = ListaDeOnboarding::desde(&r);
    assert!(l.terminada());
    assert_eq!(l.siguiente, None);
}

#[test]
fn cada_paso_dice_en_que_entrega_llega() {
    for p in PASOS {
        assert!(!p.entrega().is_empty(), "{p:?} no declara entrega");
        assert!(!p.clave().is_empty());
    }
}

#[test]
fn disponible_y_ruta_no_pueden_divergir() {
    let l = ListaDeOnboarding::desde(&RecuentoDeAlta::default());
    for p in &l.pasos {
        assert_eq!(p.disponible, p.ruta.is_some(), "{:?} incoherente", p.paso);
    }
}

#[test]
fn el_primer_paso_es_la_empresa() {
    assert_eq!(PASOS.first(), Some(&PasoDeOnboarding::Empresa));
    assert_eq!(PasoDeOnboarding::Empresa.ruta(), Some("/ajustes"));
}

// ── Propias ──

#[test]
fn los_pasos_salen_en_su_orden_con_su_entrega() {
    let l = ListaDeOnboarding::desde(&RecuentoDeAlta::default());
    let claves: Vec<_> = l.pasos.iter().map(|p| p.clave).collect();
    assert_eq!(
        claves,
        vec!["empresa", "remitente", "contactos", "plantilla", "ventana", "campana"]
    );
    let entregas: Vec<_> = l.pasos.iter().map(|p| p.entrega).collect();
    assert_eq!(entregas, vec!["3.1", "5", "3.2", "6", "6", "6"]);
}

#[test]
fn un_recuento_negativo_no_cuenta_como_hecho() {
    let r = RecuentoDeAlta {
        contactos: -1,
        ..RecuentoDeAlta::default()
    };
    assert!(!PasoDeOnboarding::Contactos.completado(&r));
}
