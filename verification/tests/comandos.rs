use arles::analisis::analizar;
use arles::comandos::{
    archivo_leido, comprobar_tema, configuracion_de_empresa, direcciones_de_las_filas,
    es_tema_admitido, estado_de_arranque, info_app, lote_de_importacion, preferencias_desde,
    resumen_para_la_pantalla, valor_de_barra, BARRA_PLEGADA, POR_PAGINA, TEMA, TEMAS,
    TEMA_POR_DEFECTO, VERSION,
};
use arles::datos::{ResumenArranque, ResumenDeImportacion, CLAVES_DE_INTERFAZ, MAX_POR_PAGINA};
use arles::empresa::ZONAS_SOPORTADAS;
use arles::errores::{AppError, ErrorIpc};
use arles::ids::ImportBatchId;
use arles::importacion::{CampoImportable, OrigenDeLaLista};
use arles::lectura::armar;
use arles::onboarding::RecuentoDeAlta;

#[test]
fn la_info_separa_el_numeral_de_la_version() {
    let i = info_app();
    assert_eq!(i.nombre, "ARLES RELAY");
    assert_eq!(i.nombre_comercial, "ARLES RELAY I");
    assert!(!i.nombre.contains(&i.version));
    assert!(!i.nombre_comercial.contains(&i.version));
}

#[test]
fn la_version_coincide_con_la_del_paquete() {
    assert_eq!(info_app().version, "1.2.0");
    assert_eq!(VERSION, "1.2.0");
}

#[test]
fn la_clave_de_la_barra_esta_declarada_en_la_capa_de_datos() {
    assert!(
        CLAVES_DE_INTERFAZ.contains(&BARRA_PLEGADA),
        "«{BARRA_PLEGADA}» no está en las claves admitidas: {:?}",
        CLAVES_DE_INTERFAZ
    );
}

#[test]
fn la_clave_del_tema_esta_declarada_en_la_capa_de_datos() {
    assert!(
        CLAVES_DE_INTERFAZ.contains(&TEMA),
        "«{TEMA}» no está en las claves admitidas: {:?}",
        CLAVES_DE_INTERFAZ
    );
}

#[test]
fn el_tema_por_defecto_sigue_al_sistema() {
    assert_eq!(TEMA_POR_DEFECTO, "auto");
    assert!(TEMAS.contains(&TEMA_POR_DEFECTO));
    assert_eq!(TEMAS, ["auto", "oscuro", "claro"]);
}

#[test]
fn un_tema_inventado_no_es_admisible() {
    assert!(!TEMAS.contains(&"rosa"));
    assert!(!TEMAS.contains(&""));
    let ipc: ErrorIpc = AppError::TemaDesconocido.into();
    assert_eq!(ipc.clave, "error.app.tema_desconocido");
}

#[test]
fn la_configuracion_ofrece_las_zonas_del_nucleo() {
    let c = configuracion_de_empresa(None, &RecuentoDeAlta::default());
    assert_eq!(c.zonas, ZONAS_SOPORTADAS);
    assert!(c.zonas.contains(&"America/Mexico_City"));
    assert!(c.empresa.is_none());
    assert_eq!(c.onboarding.total, 6);
}

#[test]
fn el_tema_se_comprueba_contra_la_lista() {
    for t in TEMAS {
        assert!(es_tema_admitido(t));
        assert!(comprobar_tema(t).is_ok());
    }
    assert!(matches!(comprobar_tema("rosa"), Err(AppError::TemaDesconocido)));
    assert!(!es_tema_admitido("Auto"));
}

#[test]
fn la_barra_plegada_se_guarda_como_uno() {
    assert_eq!(valor_de_barra(true), "1");
    assert_eq!(valor_de_barra(false), "0");
}

#[test]
fn una_preferencia_corrupta_cae_en_lo_de_por_defecto() {
    let p = preferencias_desde(Some("1".into()), Some("claro".into()));
    assert!(p.barra_lateral_plegada);
    assert_eq!(p.tema, "claro");
    let q = preferencias_desde(Some("si".into()), Some("rosa".into()));
    assert!(!q.barra_lateral_plegada);
    assert_eq!(q.tema, TEMA_POR_DEFECTO);
    let r = preferencias_desde(None, None);
    assert!(!r.barra_lateral_plegada);
    assert_eq!(r.tema, "auto");
}

#[test]
fn la_pagina_de_la_tabla_cabe_en_el_tope() {
    assert!(POR_PAGINA <= MAX_POR_PAGINA);
}

#[test]
fn el_estado_de_arranque_dice_si_toca_el_alta() {
    let e = estado_de_arranque(&ResumenArranque {
        version_esquema: Some(4),
        empresas: 0,
    });
    assert!(e.base_de_datos_lista);
    assert!(!e.empresa_configurada);
    assert_eq!(e.version_esquema, Some(4));
    let f = estado_de_arranque(&ResumenArranque {
        version_esquema: Some(4),
        empresas: 1,
    });
    assert!(f.empresa_configurada);
}

#[test]
fn la_vista_previa_propone_un_mapeo_por_columna() {
    let t = armar(
        "x.csv".into(),
        "h".into(),
        vec![
            vec!["Nombre".into(), "Correo".into(), "Notas".into()],
            vec!["Ana".into(), "a@b.mx".into(), "n".into()],
        ],
    )
    .expect("arma");
    let a = archivo_leido("x.csv".into(), &t);
    assert_eq!(
        a.mapeo,
        vec![
            CampoImportable::Nombre,
            CampoImportable::Correo,
            CampoImportable::Ignorar
        ]
    );
    assert_eq!(a.total_de_filas, 1);
    assert_eq!(a.encabezados, t.encabezados);
}

#[test]
fn las_direcciones_de_las_filas_salen_normalizadas() {
    let mapeo = [CampoImportable::Correo, CampoImportable::WhatsApp];
    let filas = vec![
        vec!["Ana@Empresa.MX".to_owned(), "81 1234 5678".to_owned()],
        vec!["no-es-correo".to_owned(), String::new()],
        vec![String::new(), String::new()],
    ];
    let d = direcciones_de_las_filas(&mapeo, &filas, "MX");
    assert_eq!(d, vec!["ana@empresa.mx".to_owned(), "+528112345678".to_owned()]);
}

#[test]
fn cada_direccion_de_las_filas_sale_una_sola_vez() {
    let mapeo = [CampoImportable::Correo, CampoImportable::WhatsApp];
    let filas = vec![
        vec!["Ana@Empresa.MX".to_owned(), "81 1234 5678".to_owned()],
        vec!["beto@empresa.mx".to_owned(), "+52 81 1234 5678".to_owned()],
        vec!["ana@empresa.mx".to_owned(), String::new()],
    ];
    let d = direcciones_de_las_filas(&mapeo, &filas, "MX");
    assert_eq!(
        d,
        vec![
            "ana@empresa.mx".to_owned(),
            "+528112345678".to_owned(),
            "beto@empresa.mx".to_owned(),
        ]
    );
}

#[test]
fn el_lote_cuenta_las_rechazadas_como_invalidas() {
    let mapeo = [CampoImportable::Nombre, CampoImportable::Correo];
    let filas = vec![
        vec!["Ana".to_owned(), "a@b.mx".to_owned()],
        vec!["Mal".to_owned(), "no".to_owned()],
        vec!["Vacía".to_owned(), String::new()],
    ];
    let a = analizar(&mapeo, &filas, "MX", &Vec::new());
    let l = lote_de_importacion(
        "x.csv".into(),
        "h".into(),
        "[]".into(),
        "acepto".into(),
        OrigenDeLaLista::Otro,
        3,
        &a,
    );
    assert_eq!(l.invalidas, 2);
    assert_eq!(l.choques, 0);
    assert_eq!(l.total_de_filas, 3);
}

#[test]
fn el_resumen_para_la_pantalla_copia_las_cifras() {
    let r = ResumenDeImportacion {
        lote: ImportBatchId::desde_u128(1),
        importados: 4,
        choques: 1,
        invalidas: 2,
        total_de_filas: 7,
    };
    let p = resumen_para_la_pantalla(&r);
    assert_eq!(p.importados, 4);
    assert_eq!(p.choques, 1);
    assert_eq!(p.invalidas, 2);
    assert_eq!(p.total_de_filas, 7);
}
