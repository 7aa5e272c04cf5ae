use arles::contacto::MAX_CANALES;
use arles::importacion::{
    adivinar_campo, fila_a_borrador, normalizar_encabezado, proponer_mapeo, CampoImportable,
    MotivoDeRechazo, OrigenDeLaLista, MAX_COLUMNAS,
};

fn en(v: &[CampoImportable], i: usize) -> CampoImportable {
    *v.get(i).expect("la columna existe")
}

#[test]
fn hay_cinco_origenes_y_otro_va_el_ultimo() {
    assert_eq!(OrigenDeLaLista::TODOS.len(), 5);
    assert_eq!(
        OrigenDeLaLista::TODOS.last(),
        Some(&OrigenDeLaLista::Otro),
        "«Otro» es la salida, no la primera opción"
    );
}

#[test]
fn el_origen_va_y_vuelve_por_texto() {
    for o in &OrigenDeLaLista::TODOS {
        assert_eq!(
            OrigenDeLaLista::desde_texto(o.como_texto()),
            Ok(*o),
            "{o:?} no vuelve"
        );
    }
}

#[test]
fn un_origen_desconocido_no_se_repara_en_silencio() {
    for malo in ["comprada", "", "FORMULARIO_PROPIO", "varios"] {
        assert!(
            OrigenDeLaLista::desde_texto(malo).is_err(),
            "«{malo}» se aceptó"
        );
    }
}

#[test]
fn todos_los_origenes_tienen_clave_de_texto() {
    for o in &OrigenDeLaLista::TODOS {
        assert!(o.clave_i18n().starts_with("importacion.origen."), "{o:?}");
    }
}

#[test]
fn reconoce_los_encabezados_normales() {
    for (encabezado, esperado) in [
        ("Correo", CampoImportable::Correo),
        ("correo electrónico", CampoImportable::Correo),
        ("E-mail", CampoImportable::Correo),
        ("EMAIL", CampoImportable::Correo),
        ("WhatsApp", CampoImportable::WhatsApp),
        ("Teléfono móvil", CampoImportable::WhatsApp),
        ("Celular", CampoImportable::WhatsApp),
        ("Nombre", CampoImportable::Nombre),
        ("Apellidos", CampoImportable::Apellido),
        ("Razón social", CampoImportable::Empresa),
        ("Nombre completo", CampoImportable::NombreCompleto),
    ] {
        assert_eq!(
            adivinar_campo(encabezado),
            esperado,
            "«{encabezado}» no se reconoció"
        );
    }
}

#[test]
fn la_forma_de_escribirlo_no_importa() {
    for variante in [
        "Teléfono Móvil",
        "TELEFONO MOVIL",
        "telefono_movil",
        " Teléfono-Móvil ",
    ] {
        assert_eq!(
            adivinar_campo(variante),
            CampoImportable::WhatsApp,
            "«{variante}»"
        );
    }
}

#[test]
fn la_ene_no_se_convierte_en_n() {
    assert_eq!(normalizar_encabezado("Año de alta"), "añodealta");
    assert_ne!(normalizar_encabezado("Año"), normalizar_encabezado("Ano"));
}

#[test]
fn lo_desconocido_se_ignora_en_vez_de_arriesgar() {
    for raro in [
        "Notas",
        "RFC",
        "Fecha de alta",
        "Segmento",
        "",
        "   ",
        "xyz123",
    ] {
        assert_eq!(
            adivinar_campo(raro),
            CampoImportable::Ignorar,
            "«{raro}» se adivinó cuando no debía"
        );
    }
}

#[test]
fn nombre_completo_gana_a_nombre() {
    assert_eq!(
        adivinar_campo("Nombre completo"),
        CampoImportable::NombreCompleto
    );
    assert_eq!(adivinar_campo("Nombre"), CampoImportable::Nombre);
}

#[test]
fn mencionar_no_es_empezar_por() {
    assert_eq!(adivinar_campo("Sin correo"), CampoImportable::Ignorar);
    assert_eq!(adivinar_campo("Tiene whatsapp"), CampoImportable::Ignorar);
}

#[test]
fn el_correo_y_el_whatsapp_si_se_pueden_repetir() {
    let m = proponer_mapeo(&[
        "Correo 1".into(),
        "Correo 2".into(),
        "WhatsApp".into(),
        "Celular".into(),
    ]);
    assert_eq!(en(&m, 0), CampoImportable::Correo);
    assert_eq!(en(&m, 1), CampoImportable::Correo);
    assert_eq!(en(&m, 2), CampoImportable::WhatsApp);
    assert_eq!(en(&m, 3), CampoImportable::WhatsApp);
}

#[test]
fn un_campo_de_identidad_repetido_se_queda_con_el_primero() {
    let m = proponer_mapeo(&["Nombre".into(), "Nombres".into(), "Empresa".into()]);
    assert_eq!(en(&m, 0), CampoImportable::Nombre);
    assert_eq!(en(&m, 1), CampoImportable::Ignorar);
    assert_eq!(en(&m, 2), CampoImportable::Empresa);
}

#[test]
fn la_propuesta_incluye_las_columnas_ignoradas() {
    let m = proponer_mapeo(&["Nombre".into(), "Notas".into(), "Correo".into()]);
    assert_eq!(m.len(), 3);
    assert_eq!(en(&m, 1), CampoImportable::Ignorar);
}

#[test]
fn no_se_miran_mas_columnas_que_el_tope() {
    let muchas: Vec<String> = (0..MAX_COLUMNAS + 20).map(|i| format!("col{i}")).collect();
    assert_eq!(proponer_mapeo(&muchas).len(), MAX_COLUMNAS);
}

#[test]
fn una_fila_normal_se_convierte() {
    let mapeo = [
        CampoImportable::Nombre,
        CampoImportable::Apellido,
        CampoImportable::Empresa,
        CampoImportable::Correo,
        CampoImportable::WhatsApp,
    ];
    let fila = [
        "Ana".to_owned(),
        "Ruiz".to_owned(),
        "Empresa SA".to_owned(),
        "ana@empresa.mx".to_owned(),
        "81 1234 5678".to_owned(),
    ];
    let b = fila_a_borrador(&mapeo, &fila).expect("fila válida");
    assert_eq!(b.nombre, "Ana");
    assert_eq!(b.apellido, "Ruiz");
    assert_eq!(b.empresa, "Empresa SA");
    assert_eq!(b.canales.len(), 2);
    assert!(b.canales.iter().all(|c| c.principal), "uno de cada tipo");
}

#[test]
fn el_nombre_completo_se_parte_por_el_primer_espacio() {
    let mapeo = [CampoImportable::NombreCompleto, CampoImportable::Correo];
    let fila = ["Ana María Ruiz Pérez".to_owned(), "a@b.mx".to_owned()];
    let b = fila_a_borrador(&mapeo, &fila).expect("válida");
    assert_eq!(b.nombre, "Ana");
    assert_eq!(b.apellido, "María Ruiz Pérez");
}

#[test]
fn un_nombre_de_una_sola_palabra_no_deja_apellido() {
    let mapeo = [CampoImportable::NombreCompleto, CampoImportable::Correo];
    let fila = ["Ana".to_owned(), "a@b.mx".to_owned()];
    let b = fila_a_borrador(&mapeo, &fila).expect("válida");
    assert_eq!(b.nombre, "Ana");
    assert_eq!(b.apellido, "");
}

#[test]
fn el_primero_de_cada_tipo_es_el_principal() {
    let mapeo = [
        CampoImportable::Correo,
        CampoImportable::Correo,
        CampoImportable::WhatsApp,
        CampoImportable::WhatsApp,
    ];
    let fila = [
        "uno@b.mx".to_owned(),
        "dos@b.mx".to_owned(),
        "8110000001".to_owned(),
        "8110000002".to_owned(),
    ];
    let b = fila_a_borrador(&mapeo, &fila).expect("válida");
    let principales: Vec<_> = b
        .canales
        .iter()
        .filter(|c| c.principal)
        .map(|c| c.valor.as_str())
        .collect();
    assert_eq!(principales, vec!["uno@b.mx", "8110000001"]);
}

#[test]
fn una_fila_sin_canales_se_rechaza() {
    let mapeo = [CampoImportable::Nombre, CampoImportable::Correo];
    let fila = ["Ana".to_owned(), "   ".to_owned()];
    assert_eq!(
        fila_a_borrador(&mapeo, &fila),
        Err(MotivoDeRechazo::SinCanales)
    );
}

#[test]
fn una_fila_mas_corta_que_los_encabezados_no_es_un_error() {
    let mapeo = [
        CampoImportable::Nombre,
        CampoImportable::Correo,
        CampoImportable::WhatsApp,
    ];
    let fila = ["Ana".to_owned(), "ana@b.mx".to_owned()];
    let b = fila_a_borrador(&mapeo, &fila).expect("válida");
    assert_eq!(b.canales.len(), 1);
}

#[test]
fn una_fila_con_demasiados_canales_se_rechaza() {
    let mapeo: Vec<_> = (0..MAX_CANALES + 1)
        .map(|_| CampoImportable::Correo)
        .collect();
    let fila: Vec<_> = (0..MAX_CANALES + 1)
        .map(|i| format!("c{i}@b.mx"))
        .collect();
    assert_eq!(
        fila_a_borrador(&mapeo, &fila),
        Err(MotivoDeRechazo::DemasiadosCanales)
    );
}

#[test]
fn las_columnas_ignoradas_no_entran() {
    let mapeo = [
        CampoImportable::Ignorar,
        CampoImportable::Nombre,
        CampoImportable::Ignorar,
        CampoImportable::Correo,
    ];
    let fila = [
        "basura".to_owned(),
        "Ana".to_owned(),
        "más basura".to_owned(),
        "ana@b.mx".to_owned(),
    ];
    let b = fila_a_borrador(&mapeo, &fila).expect("válida");
    assert_eq!(b.nombre, "Ana");
    assert_eq!(b.empresa, "");
    assert_eq!(b.canales.len(), 1);
}

#[test]
fn todos_los_campos_tienen_clave_de_texto() {
    for c in &CampoImportable::TODOS {
        assert!(
            c.clave_i18n().starts_with("importacion.campo."),
            "{c:?} no tiene clave"
        );
    }
    assert_eq!(CampoImportable::TODOS.len(), 7);
}

#[test]
fn cada_motivo_de_rechazo_tiene_su_clave() {
    assert_ne!(
        MotivoDeRechazo::SinCanales.clave_i18n(),
        MotivoDeRechazo::DemasiadosCanales.clave_i18n()
    );
}

#[test]
fn una_celda_de_nombre_con_espacios_se_recorta() {
    let mapeo = [CampoImportable::Nombre, CampoImportable::Correo];
    let fila = ["  Ana  ".to_owned(), " a@b.mx ".to_owned()];
    let b = fila_a_borrador(&mapeo, &fila).expect("válida");
    assert_eq!(b.nombre, "Ana");
}

#[test]
fn el_mapeo_vacio_no_propone_nada() {
    assert!(proponer_mapeo(&[]).is_empty());
}
