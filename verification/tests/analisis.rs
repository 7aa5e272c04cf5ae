use arles::analisis::{analizar, Analisis, Choque, FilaRechazada};
use arles::canal::Canal;
use arles::importacion::{CampoImportable, MotivoDeRechazo};

fn mapeo_normal() -> Vec<CampoImportable> {
    vec![
        CampoImportable::Nombre,
        CampoImportable::Correo,
        CampoImportable::WhatsApp,
    ]
}

fn f(nombre: &str, correo: &str, movil: &str) -> Vec<String> {
    vec![nombre.to_owned(), correo.to_owned(), movil.to_owned()]
}

fn choque(a: &Analisis, i: usize) -> &Choque {
    a.choques.get(i).expect("el choque existe")
}

fn rechazada(a: &Analisis, i: usize) -> &FilaRechazada {
    a.rechazadas.get(i).expect("la fila existe")
}

fn nadie() -> Vec<(String, String)> {
    Vec::new()
}

fn ya(direccion: &str, de: &str) -> Vec<(String, String)> {
    vec![(direccion.to_owned(), de.to_owned())]
}

#[test]
fn un_archivo_limpio_sale_entero() {
    let filas = vec![
        f("Ana", "ana@empresa.mx", ""),
        f("Luis", "luis@empresa.mx", "8110000001"),
    ];
    let a = analizar(&mapeo_normal(), &filas, "MX", &nadie());
    assert_eq!(a.cuantas_listas(), 2);
    assert!(!a.hay_que_revisar());
}

#[test]
fn las_filas_se_numeran_como_en_excel() {
    let filas = vec![f("Ana", "no-es-un-correo", "")];
    let a = analizar(&mapeo_normal(), &filas, "MX", &nadie());
    assert_eq!(
        a.invalidas.first().map(|r| r.fila),
        Some(2),
        "la primera fila de datos tiene que ser la 2, que es la que ve el usuario"
    );
}

#[test]
fn un_choque_con_la_base_dice_de_quien_es_la_direccion() {
    let ya = ya("ana@empresa.mx", "Ana Ruiz");
    let filas = vec![f("Ana", "ana@empresa.mx", "")];
    let a = analizar(&mapeo_normal(), &filas, "MX", &ya);

    assert_eq!(a.cuantas_listas(), 0);
    assert_eq!(a.choques.len(), 1);
    assert_eq!(choque(&a, 0).con, "Ana Ruiz");
    assert_eq!(choque(&a, 0).direccion, "ana@empresa.mx");
    assert!(!choque(&a, 0).dentro_del_archivo);
}

#[test]
fn dos_filas_del_archivo_con_la_misma_direccion_chocan_entre_si() {
    let filas = vec![
        f("Ana", "ana@empresa.mx", ""),
        f("Ana de nuevo", "ana@empresa.mx", ""),
    ];
    let a = analizar(&mapeo_normal(), &filas, "MX", &nadie());

    assert_eq!(a.cuantas_listas(), 1, "la primera sí entra");
    assert_eq!(a.choques.len(), 1);
    assert!(choque(&a, 0).dentro_del_archivo);
    assert_eq!(choque(&a, 0).fila, 3);
    assert_eq!(choque(&a, 0).con, "2", "señala la fila con la que choca");
}

#[test]
fn el_choque_se_detecta_aunque_se_escriba_distinto() {
    let ya = ya("ana@empresa.mx", "Ana Ruiz");
    let filas = vec![f("Ana", "  Ana@Empresa.MX  ", "")];
    let a = analizar(&mapeo_normal(), &filas, "MX", &ya);

    assert_eq!(a.choques.len(), 1, "no se detectó: se comparó lo escrito");
    assert_eq!(a.cuantas_listas(), 0);
}

#[test]
fn el_choque_detecta_el_movil_con_y_sin_el_uno() {
    let ya = ya("+528112345678", "Luis");
    let filas = vec![f("Luis", "", "+52 1 81 1234 5678")];
    let a = analizar(&mapeo_normal(), &filas, "MX", &ya);

    assert_eq!(
        a.choques.len(),
        1,
        "el móvil con el «1» no se reconoció como el mismo número"
    );
}

#[test]
fn el_choque_se_busca_en_todos_los_canales_de_la_fila() {
    let ya = ya("+528112345678", "Luis");
    let filas = vec![f("Ana", "nueva@empresa.mx", "8112345678")];
    let a = analizar(&mapeo_normal(), &filas, "MX", &ya);

    assert_eq!(a.choques.len(), 1);
    assert_eq!(a.cuantas_listas(), 0, "la fila entera se queda fuera");
}

#[test]
fn una_fila_que_choca_no_arrastra_a_la_siguiente() {
    let ya = ya("ana@empresa.mx", "Ana Ruiz");
    let filas = vec![
        f("Ana", "ana@empresa.mx", "8110000001"),
        f("Otra", "otra@empresa.mx", "8110000001"),
    ];
    let a = analizar(&mapeo_normal(), &filas, "MX", &ya);

    assert_eq!(a.choques.len(), 1, "sólo la fila 2 choca");
    assert_eq!(choque(&a, 0).fila, 2);
    assert_eq!(a.cuantas_listas(), 1);
    assert_eq!(a.filas_de_las_listas, vec![3]);
}

#[test]
fn una_fila_sin_canales_se_rechaza_con_su_motivo() {
    let filas = vec![f("Ana", "", "")];
    let a = analizar(&mapeo_normal(), &filas, "MX", &nadie());

    assert_eq!(a.rechazadas.len(), 1);
    assert_eq!(
        rechazada(&a, 0).motivo,
        MotivoDeRechazo::SinCanales.clave_i18n()
    );
    assert_eq!(rechazada(&a, 0).referencia, "Ana");
    assert_eq!(a.cuantas_listas(), 0);
}

#[test]
fn una_direccion_mal_escrita_es_invalida_no_rechazada() {
    let filas = vec![f("Ana", "esto-no-es-un-correo", "")];
    let a = analizar(&mapeo_normal(), &filas, "MX", &nadie());

    assert_eq!(a.invalidas.len(), 1);
    assert!(a.rechazadas.is_empty());
    assert!(
        a.invalidas
            .first()
            .is_some_and(|r| r.motivo.starts_with("contacto.error.")),
        "el motivo salió de otra familia: {:?}",
        a.invalidas.first().map(|r| &r.motivo)
    );
}

#[test]
fn el_informe_separa_los_cuatro_destinos() {
    let ya = ya("existe@empresa.mx", "Quien sea");
    let filas = vec![
        f("Bien", "bien@empresa.mx", ""),
        f("Choca", "existe@empresa.mx", ""),
        f("Mal", "no-es-correo", ""),
        f("Vacía", "", ""),
    ];
    let a = analizar(&mapeo_normal(), &filas, "MX", &ya);

    assert_eq!(a.cuantas_listas(), 1);
    assert_eq!(a.choques.len(), 1);
    assert_eq!(a.invalidas.len(), 1);
    assert_eq!(a.rechazadas.len(), 1);
    assert!(a.hay_que_revisar());
    assert_eq!(a.filas_de_las_listas, vec![2]);
}

#[test]
fn lo_que_sale_listo_ya_esta_validado_y_normalizado() {
    let filas = vec![f("Ana", "  Ana@Empresa.MX  ", "+52 1 81 1234 5678")];
    let a = analizar(&mapeo_normal(), &filas, "MX", &nadie());

    let c = a.listas.first().expect("una lista");
    let correo = c
        .canales
        .iter()
        .find(|k| k.canal == Canal::Correo)
        .expect("hay correo");
    assert_eq!(correo.valor_normalizado, "ana@empresa.mx");
    assert_eq!(correo.valor_raw, "Ana@Empresa.MX");

    let movil = c
        .canales
        .iter()
        .find(|k| k.canal == Canal::WhatsApp)
        .expect("hay móvil");
    assert_eq!(
        movil.valor_normalizado, "+528112345678",
        "el «1» mexicano sigue dentro"
    );
}

#[test]
fn la_referencia_se_recorta() {
    let largo = "x".repeat(200);
    let filas = vec![vec![largo, String::new(), String::new()]];
    let a = analizar(&mapeo_normal(), &filas, "MX", &nadie());
    let r = &rechazada(&a, 0).referencia;
    assert!(
        r.chars().count() <= 41,
        "no se recortó: {} caracteres",
        r.chars().count()
    );
    assert!(r.ends_with('…'));
}

#[test]
fn un_archivo_vacio_no_produce_nada() {
    let a = analizar(&mapeo_normal(), &[], "MX", &nadie());
    assert_eq!(a.cuantas_listas(), 0);
    assert!(!a.hay_que_revisar());
}

#[test]
fn lo_listo_no_choca_con_la_base() {
    let ya = ya("ana@empresa.mx", "Ana Ruiz");
    let filas = vec![
        f("Ana", "ana@empresa.mx", ""),
        f("Luis", "luis@empresa.mx", ""),
    ];
    let a = analizar(&mapeo_normal(), &filas, "MX", &ya);
    for c in &a.listas {
        for k in &c.canales {
            assert_ne!(k.valor_normalizado, "ana@empresa.mx");
        }
    }
    assert_eq!(a.filas_de_las_listas, vec![3]);
}

#[test]
fn una_referencia_corta_no_lleva_puntos_suspensivos() {
    let filas = vec![f("Beto", "", "")];
    let a = analizar(&mapeo_normal(), &filas, "MX", &nadie());
    assert_eq!(rechazada(&a, 0).referencia, "Beto");
}

#[test]
fn una_fila_con_dos_choques_sigue_en_un_solo_destino() {
    let ya = vec![
        ("ana@empresa.mx".to_owned(), "Ana".to_owned()),
        ("+528112345678".to_owned(), "Luis".to_owned()),
    ];
    let filas = vec![f("Ana", "ana@empresa.mx", "8112345678")];
    let a = analizar(&mapeo_normal(), &filas, "MX", &ya);
    assert_eq!(a.choques.len(), 2);
    assert!(a.choques.iter().all(|c| c.fila == 2));
    assert!(a.listas.is_empty() && a.rechazadas.is_empty() && a.invalidas.is_empty());
}

#[test]
fn la_referencia_es_el_nombre_aunque_no_vaya_primero() {
    let mapeo = vec![
        CampoImportable::Ignorar,
        CampoImportable::Nombre,
        CampoImportable::Correo,
    ];
    let filas = vec![vec!["nota".to_owned(), "Ana".to_owned(), String::new()]];
    let a = analizar(&mapeo, &filas, "MX", &nadie());
    assert_eq!(a.rechazadas.len(), 1);
    assert_eq!(rechazada(&a, 0).fila, 2);
    assert_eq!(rechazada(&a, 0).referencia, "Ana");
}

#[test]
fn sin_nombre_la_referencia_es_la_primera_celda_con_algo() {
    let mapeo = vec![
        CampoImportable::Ignorar,
        CampoImportable::Nombre,
        CampoImportable::Correo,
    ];
    let filas = vec![vec!["nota".to_owned(), "  ".to_owned(), String::new()]];
    let a = analizar(&mapeo, &filas, "MX", &nadie());
    assert_eq!(rechazada(&a, 0).referencia, "nota");
}

#[test]
fn el_informe_sigue_el_orden_del_archivo() {
    let filas = vec![
        f("Ana", "ana@empresa.mx", ""),
        f("Sin", "", ""),
        f("Luis", "luis@empresa.mx", ""),
        f("Mal", "no-es-correo", ""),
        f("Otra", "", ""),
        f("Eva", "eva@empresa.mx", ""),
        f("Peor", "tampoco", ""),
    ];
    let a = analizar(&mapeo_normal(), &filas, "MX", &nadie());
    assert_eq!(a.filas_de_las_listas, vec![2, 4, 7]);
    assert_eq!(a.listas.len(), a.filas_de_las_listas.len());
    assert_eq!(
        a.rechazadas.iter().map(|r| r.fila).collect::<Vec<_>>(),
        vec![3, 6]
    );
    assert_eq!(
        a.invalidas.iter().map(|r| r.fila).collect::<Vec<_>>(),
        vec![5, 8]
    );
}
