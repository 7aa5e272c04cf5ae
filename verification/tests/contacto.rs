use arles::canal::Canal;
use arles::contacto::{
    BorradorDeCanal, BorradorDeContacto, CampoDeContacto, CanalValidado, DatosDeContacto,
    ErrorDeContacto, MAX_CANALES, MAX_NOMBRE,
};

fn canal(canal: Canal, valor: &str, principal: bool) -> BorradorDeCanal {
    BorradorDeCanal {
        canal,
        valor: valor.to_owned(),
        principal,
    }
}

fn en(d: &DatosDeContacto, i: usize) -> &CanalValidado {
    d.canales
        .get(i)
        .unwrap_or_else(|| panic!("se esperaba un canal en la posición {i}: {:?}", d.canales))
}

fn err(e: &[ErrorDeContacto], i: usize) -> &ErrorDeContacto {
    e.get(i)
        .unwrap_or_else(|| panic!("se esperaba un error en la posición {i}: {e:?}"))
}

fn borrador(canales: Vec<BorradorDeCanal>) -> BorradorDeContacto {
    BorradorDeContacto {
        nombre: "Ana".into(),
        apellido: "Ruiz".into(),
        empresa: "Empresa SA".into(),
        canales,
    }
}

#[test]
fn un_contacto_con_correo_y_movil_es_valido() {
    let d = DatosDeContacto::validar(
        &borrador(vec![
            canal(Canal::Correo, "Ana@Empresa.MX", true),
            canal(Canal::WhatsApp, "81 1234 5678", true),
        ]),
        "MX",
    )
    .expect("válido");

    assert_eq!(d.canales.len(), 2);
    assert_eq!(en(&d, 0).valor_normalizado, "ana@empresa.mx");
    assert_eq!(en(&d, 1).valor_normalizado, "+528112345678");
    assert_eq!(en(&d, 0).valor_raw, "Ana@Empresa.MX");
}

#[test]
fn un_contacto_sin_canales_se_rechaza() {
    let e = DatosDeContacto::validar(&borrador(vec![]), "MX").expect_err("debe fallar");
    assert_eq!(e.len(), 1);
    assert_eq!(err(&e, 0).campo, CampoDeContacto::Canales);
    assert_eq!(err(&e, 0).clave, "contacto.error.sinCanales");
}

#[test]
fn se_devuelven_todos_los_errores_no_el_primero() {
    let mut b = borrador(vec![
        canal(Canal::Correo, "no-es-un-correo", true),
        canal(Canal::WhatsApp, "1234", false),
    ]);
    b.nombre = "a".repeat(MAX_NOMBRE + 1);

    let e = DatosDeContacto::validar(&b, "MX").expect_err("debe fallar");
    assert_eq!(e.len(), 3, "faltan errores: {e:?}");
    assert!(e.iter().any(|x| x.campo == CampoDeContacto::Nombre));
    assert_eq!(
        e.iter()
            .filter(|x| x.campo == CampoDeContacto::Canal)
            .count(),
        2
    );
}

#[test]
fn el_error_de_un_canal_dice_cual_es() {
    let e = DatosDeContacto::validar(
        &borrador(vec![
            canal(Canal::Correo, "ana@empresa.mx", true),
            canal(Canal::Correo, "esto-no", false),
        ]),
        "MX",
    )
    .expect_err("debe fallar");

    assert_eq!(e.len(), 1);
    assert_eq!(err(&e, 0).indice, Some(1));
    assert_eq!(err(&e, 0).clave, "contacto.error.correoInvalido");
}

#[test]
fn la_misma_direccion_dos_veces_en_un_contacto_se_rechaza() {
    let e = DatosDeContacto::validar(
        &borrador(vec![
            canal(Canal::Correo, "ana@empresa.mx", true),
            canal(Canal::Correo, "ANA@EMPRESA.MX", false),
        ]),
        "MX",
    )
    .expect_err("debe fallar");

    assert_eq!(err(&e, 0).clave, "contacto.error.canalRepetido");
    assert_eq!(err(&e, 0).indice, Some(1));
}

#[test]
fn el_mismo_contacto_puede_tener_correo_y_movil_distintos() {
    DatosDeContacto::validar(
        &borrador(vec![
            canal(Canal::Correo, "ana@empresa.mx", true),
            canal(Canal::WhatsApp, "+528112345678", true),
        ]),
        "MX",
    )
    .expect("válido");
}

#[test]
fn sin_ninguno_marcado_el_primero_de_cada_tipo_es_el_principal() {
    let d = DatosDeContacto::validar(
        &borrador(vec![
            canal(Canal::Correo, "uno@empresa.mx", false),
            canal(Canal::Correo, "dos@empresa.mx", false),
            canal(Canal::WhatsApp, "+528112345678", false),
        ]),
        "MX",
    )
    .expect("válido");

    assert_eq!(
        d.principal_de(Canal::Correo)
            .map(|c| c.valor_normalizado.as_str()),
        Some("uno@empresa.mx")
    );
    assert_eq!(
        d.principal_de(Canal::WhatsApp)
            .map(|c| c.valor_normalizado.as_str()),
        Some("+528112345678")
    );
}

#[test]
fn dos_principales_del_mismo_tipo_se_reducen_a_uno() {
    let d = DatosDeContacto::validar(
        &borrador(vec![
            canal(Canal::Correo, "uno@empresa.mx", true),
            canal(Canal::Correo, "dos@empresa.mx", true),
        ]),
        "MX",
    )
    .expect("válido");

    assert_eq!(
        d.canales.iter().filter(|c| c.principal).count(),
        1,
        "quedó más de un principal: {:?}",
        d.canales
    );
    assert_eq!(
        d.principal_de(Canal::Correo)
            .map(|c| c.valor_normalizado.as_str()),
        Some("uno@empresa.mx")
    );
}

#[test]
fn cada_tipo_tiene_su_propio_principal() {
    let d = DatosDeContacto::validar(
        &borrador(vec![
            canal(Canal::WhatsApp, "+528112345678", false),
            canal(Canal::Correo, "ana@empresa.mx", true),
        ]),
        "MX",
    )
    .expect("válido");

    assert!(d.principal_de(Canal::Correo).is_some());
    assert!(d.principal_de(Canal::WhatsApp).is_some());
}

#[test]
fn la_ficha_agrupa_por_tipo_y_pone_el_principal_arriba() {
    let d = DatosDeContacto::validar(
        &borrador(vec![
            canal(Canal::WhatsApp, "+528100000002", false),
            canal(Canal::Correo, "secundario@empresa.mx", false),
            canal(Canal::WhatsApp, "+528100000001", true),
            canal(Canal::Correo, "principal@empresa.mx", true),
        ]),
        "MX",
    )
    .expect("válido");

    let orden: Vec<_> = d
        .canales
        .iter()
        .map(|c| (c.canal, c.valor_normalizado.as_str()))
        .collect();
    assert_eq!(
        orden,
        vec![
            (Canal::Correo, "principal@empresa.mx"),
            (Canal::Correo, "secundario@empresa.mx"),
            (Canal::WhatsApp, "+528100000001"),
            (Canal::WhatsApp, "+528100000002"),
        ]
    );
}

#[test]
fn los_secundarios_conservan_su_orden() {
    let d = DatosDeContacto::validar(
        &borrador(vec![
            canal(Canal::Correo, "principal@empresa.mx", true),
            canal(Canal::Correo, "b@empresa.mx", false),
            canal(Canal::Correo, "a@empresa.mx", false),
        ]),
        "MX",
    )
    .expect("válido");

    assert_eq!(en(&d, 1).valor_normalizado, "b@empresa.mx");
    assert_eq!(en(&d, 2).valor_normalizado, "a@empresa.mx");
}

#[test]
fn se_puede_saber_cuantos_canales_de_cada_tipo_hay() {
    let d = DatosDeContacto::validar(
        &borrador(vec![
            canal(Canal::Correo, "uno@empresa.mx", true),
            canal(Canal::Correo, "dos@empresa.mx", false),
            canal(Canal::WhatsApp, "+528112345678", true),
        ]),
        "MX",
    )
    .expect("válido");

    assert_eq!(d.cuantos_de(Canal::Correo), 2);
    assert_eq!(d.cuantos_de(Canal::WhatsApp), 1);
}

#[test]
fn un_contacto_con_demasiados_canales_se_rechaza() {
    let muchos = (0..=MAX_CANALES)
        .map(|i| canal(Canal::Correo, &format!("c{i}@empresa.mx"), false))
        .collect();
    let e = DatosDeContacto::validar(&borrador(muchos), "MX").expect_err("debe fallar");
    assert!(e.iter().any(|x| x.clave == "contacto.error.demasiadosCanales"));
}

#[test]
fn los_espacios_de_los_nombres_se_recortan() {
    let mut b = borrador(vec![canal(Canal::Correo, "ana@empresa.mx", true)]);
    b.nombre = "  Ana  ".into();
    b.empresa = "  Empresa SA  ".into();

    let d = DatosDeContacto::validar(&b, "MX").expect("válido");
    assert_eq!(d.nombre, "Ana");
    assert_eq!(d.empresa, "Empresa SA");
}

#[test]
fn un_contacto_sin_nombre_es_valido() {
    let b = BorradorDeContacto {
        nombre: String::new(),
        apellido: String::new(),
        empresa: String::new(),
        canales: vec![canal(Canal::Correo, "ana@empresa.mx", true)],
    };
    DatosDeContacto::validar(&b, "MX").expect("válido");
}

// ── Propias ──

#[test]
fn el_movil_repetido_se_detecta_aunque_se_escriba_distinto() {
    let e = DatosDeContacto::validar(
        &borrador(vec![
            canal(Canal::WhatsApp, "81 1234 5678", true),
            canal(Canal::WhatsApp, "+52 1 81 1234 5678", false),
        ]),
        "MX",
    )
    .expect_err("debe fallar");
    assert_eq!(err(&e, 0).clave, "contacto.error.canalRepetido");
    assert_eq!(err(&e, 0).indice, Some(1));
}

#[test]
fn los_errores_salen_en_el_orden_del_formulario() {
    let mut b = borrador(vec![]);
    b.apellido = "x".repeat(MAX_NOMBRE + 1);
    b.empresa = "y".repeat(121);
    let e = DatosDeContacto::validar(&b, "MX").expect_err("debe fallar");
    let campos: Vec<_> = e.iter().map(|x| x.campo).collect();
    assert_eq!(
        campos,
        vec![
            CampoDeContacto::Apellido,
            CampoDeContacto::Empresa,
            CampoDeContacto::Canales
        ]
    );
}

#[test]
fn un_movil_invalido_da_la_clave_de_telefono() {
    let e = DatosDeContacto::validar(&borrador(vec![canal(Canal::WhatsApp, "12", true)]), "MX")
        .expect_err("debe fallar");
    assert_eq!(err(&e, 0).clave, "contacto.error.telefonoInvalido");
    assert_eq!(err(&e, 0).indice, Some(0));
}

#[test]
fn la_ficha_es_estable_y_cada_tipo_tiene_el_principal_que_toca() {
    let d = DatosDeContacto::validar(
        &borrador(vec![
            canal(Canal::WhatsApp, "55 1111 2222", false),
            canal(Canal::Correo, "b@x.mx", false),
            canal(Canal::Correo, "a@x.mx", true),
            canal(Canal::WhatsApp, "55 3333 4444", false),
        ]),
        "MX",
    )
    .expect("válido");

    assert_eq!(d.canales.len(), 4);
    assert_eq!(en(&d, 0).valor_normalizado, "a@x.mx");
    assert!(en(&d, 0).principal);
    assert_eq!(en(&d, 1).valor_normalizado, "b@x.mx");
    assert!(!en(&d, 1).principal);
    assert_eq!(en(&d, 2).valor_normalizado, "+525511112222");
    assert!(en(&d, 2).principal);
    assert_eq!(en(&d, 3).valor_normalizado, "+525533334444");
    assert!(!en(&d, 3).principal);
}
