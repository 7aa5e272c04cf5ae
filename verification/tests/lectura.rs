use arles::importacion::MAX_COLUMNAS;
use arles::lectura::{
    admitir_peso, adivinar_separador, armar, contar_celdas_de_hoja, decodificar,
    formato_por_extension, leer_csv, leer_registros, neutralizar_formula, ErrorDeLectura,
    FormatoDeArchivo, TablaLeida, FILAS_DE_MUESTRA, MAX_BYTES, MAX_CELDAS, SEP_COMA,
    SEP_PUNTO_Y_COMA, SEP_TABULADOR,
};

/// Lo que hace la lectura de un CSV una vez leídos sus bytes del disco.
fn leer(nombre: &str, contenido: &[u8]) -> Result<TablaLeida, ErrorDeLectura> {
    let extension = nombre.rsplit('.').next().unwrap_or("");
    formato_por_extension(extension)?;
    let filas = leer_csv(contenido)?;
    armar(nombre.to_owned(), "huella".to_owned(), filas)
}

fn fila(t: &TablaLeida, i: usize) -> &Vec<String> {
    t.filas.get(i).expect("la fila existe")
}

fn celda(t: &TablaLeida, f: usize, c: usize) -> &str {
    fila(t, f)
        .get(c)
        .map(String::as_str)
        .expect("la celda existe")
}

#[test]
fn lee_un_csv_normal() {
    let t = leer(
        "c.csv",
        b"Nombre,Correo\nAna,ana@empresa.mx\nLuis,luis@empresa.mx\n",
    )
    .expect("lee");
    assert_eq!(t.encabezados, vec!["Nombre", "Correo"]);
    assert_eq!(t.total_de_filas, 2);
    assert_eq!(celda(&t, 0, 0), "Ana");
}

#[test]
fn detecta_el_punto_y_coma_del_excel_en_espanol() {
    let t = leer("c.csv", b"Nombre;Correo\nAna;ana@empresa.mx\n").expect("lee");
    assert_eq!(
        t.encabezados,
        vec!["Nombre", "Correo"],
        "se leyó como una sola columna: el separador no se detectó"
    );
}

#[test]
fn detecta_el_tabulador() {
    let t = leer("c.csv", b"Nombre\tCorreo\nAna\tana@empresa.mx\n").expect("lee");
    assert_eq!(t.encabezados, vec!["Nombre", "Correo"]);
}

#[test]
fn lee_los_acentos_de_un_csv_de_excel_windows() {
    let mut bytes = b"Nombre,Tel".to_vec();
    bytes.push(0xE9);
    bytes.extend_from_slice(b"fono\nMar");
    bytes.push(0xED);
    bytes.extend_from_slice(b"a,8110000000\n");

    let t = leer("c.csv", &bytes).expect("lee");
    assert_eq!(
        t.encabezados.get(1).map(String::as_str),
        Some("Teléfono"),
        "los acentos llegaron rotos"
    );
    assert_eq!(celda(&t, 0, 0), "María");
}

#[test]
fn un_utf8_valido_no_se_lee_como_windows_1252() {
    let t = leer("c.csv", "Nombre,Compañía\nJosé,Ñandú SA\n".as_bytes()).expect("lee");
    assert_eq!(t.encabezados.get(1).map(String::as_str), Some("Compañía"));
    assert_eq!(celda(&t, 0, 0), "José");
    assert_eq!(celda(&t, 0, 1), "Ñandú SA");
}

#[test]
fn la_marca_de_orden_de_bytes_no_se_cuela_en_el_encabezado() {
    let mut bytes = vec![0xEF, 0xBB, 0xBF];
    bytes.extend_from_slice(b"Nombre,Correo\nAna,a@b.mx\n");
    let t = leer("c.csv", &bytes).expect("lee");
    assert_eq!(
        t.encabezados.first().map(String::as_str),
        Some("Nombre"),
        "la marca de orden de bytes se quedó pegada al primer encabezado"
    );
}

#[test]
fn se_salta_las_filas_vacias_de_arriba() {
    let t = leer("c.csv", b",\n,\nNombre,Correo\nAna,a@b.mx\n").expect("lee");
    assert_eq!(t.encabezados, vec!["Nombre", "Correo"]);
    assert_eq!(t.total_de_filas, 1);
}

#[test]
fn las_filas_vacias_no_cuentan_como_datos() {
    let t = leer("c.csv", b"Nombre,Correo\nAna,a@b.mx\n,\n,\n,\n").expect("lee");
    assert_eq!(t.total_de_filas, 1);
}

#[test]
fn un_archivo_sin_encabezados_se_rechaza() {
    assert!(matches!(
        leer("c.csv", b""),
        Err(ErrorDeLectura::SinEncabezados)
    ));
}

#[test]
fn una_extension_desconocida_se_rechaza() {
    assert!(matches!(
        leer("c.pdf", b"Nombre,Correo\n"),
        Err(ErrorDeLectura::FormatoDesconocido)
    ));
}

#[test]
fn un_archivo_con_demasiadas_celdas_se_corta() {
    let filas_necesarias = MAX_CELDAS / 2 + 10;
    let mut contenido = String::from("Nombre,Correo\n");
    contenido.reserve(filas_necesarias * 12);
    for i in 0..filas_necesarias {
        contenido.push_str(&format!("n{i},c{i}\n"));
    }
    assert!(
        matches!(
            leer("c.csv", contenido.as_bytes()),
            Err(ErrorDeLectura::DemasiadosDatos)
        ),
        "el tope de celdas no cortó la lectura"
    );
}

#[test]
fn las_columnas_de_mas_se_recortan() {
    let encabezados = (0..MAX_COLUMNAS + 30)
        .map(|i| format!("col{i}"))
        .collect::<Vec<_>>()
        .join(",");
    let contenido = format!("{encabezados}\n");
    let t = leer("c.csv", contenido.as_bytes()).expect("lee");
    assert_eq!(t.encabezados.len(), MAX_COLUMNAS);
}

#[test]
fn una_fila_mas_corta_no_tumba_el_archivo() {
    let t = leer("c.csv", b"Nombre,Correo,Empresa\nAna,a@b.mx\n").expect("lee");
    assert_eq!(t.total_de_filas, 1);
    assert_eq!(fila(&t, 0).len(), 2);
}

#[test]
fn la_muestra_no_pasa_de_su_tope() {
    let mut contenido = String::from("Nombre,Correo\n");
    for i in 0..FILAS_DE_MUESTRA + 15 {
        contenido.push_str(&format!("n{i},c{i}@b.mx\n"));
    }
    let t = leer("c.csv", contenido.as_bytes()).expect("lee");
    assert_eq!(t.muestra.len(), FILAS_DE_MUESTRA);
    assert_eq!(t.total_de_filas, FILAS_DE_MUESTRA + 15);
}

#[test]
fn una_formula_en_un_csv_se_lee_como_texto() {
    let t = leer(
        "c.csv",
        b"Nombre,Correo\n=1+1,a@b.mx\n\"=cmd|'/c calc'!A1\",c@b.mx\n",
    )
    .expect("lee");
    assert_eq!(celda(&t, 0, 0), "=1+1", "la fórmula se evaluó o se alteró");
    assert!(celda(&t, 1, 0).contains("cmd"));
}

#[test]
fn al_exportar_la_formula_se_neutraliza() {
    for peligrosa in ["=1+1", "+1", "-1", "@SUM(A1)", "=cmd|'/c calc'!A1"] {
        let salida = neutralizar_formula(peligrosa);
        assert!(
            salida.starts_with('\''),
            "«{peligrosa}» sale sin neutralizar: {salida}"
        );
    }
}

#[test]
fn al_exportar_lo_normal_no_se_toca() {
    for normal in [
        "Ana",
        "ana@empresa.mx",
        "+52 no es número aquí porque va después",
    ] {
        if normal.starts_with('+') {
            continue;
        }
        assert_eq!(neutralizar_formula(normal), normal);
    }
}

#[test]
fn lo_neutralizado_lleva_la_celda_entera_detras_de_la_comilla() {
    assert_eq!(neutralizar_formula("=1+1"), "'=1+1");
    assert_eq!(neutralizar_formula(""), "");
}

#[test]
fn el_separador_que_mas_aparece_gana() {
    assert_eq!(adivinar_separador("a;b;c,d\n1,2,3,4,5"), SEP_PUNTO_Y_COMA);
    assert_eq!(adivinar_separador("a\tb\tc"), SEP_TABULADOR);
    assert_eq!(adivinar_separador("sin separadores"), SEP_COMA);
    assert_eq!(adivinar_separador(""), SEP_COMA);
    assert_eq!(adivinar_separador("a;b,c"), SEP_PUNTO_Y_COMA, "el empate es del punto y coma");
}

#[test]
fn decodificar_quita_la_marca_y_respeta_el_utf8() {
    assert_eq!(decodificar(&[0xEF, 0xBB, 0xBF, b'h', b'o']), "ho");
    assert_eq!(decodificar("año".as_bytes()), "año");
    assert_eq!(decodificar(&[b'a', 0xF1, b'o']), "año");
}

#[test]
fn leer_registros_recorta_las_celdas() {
    let f = leer_registros("  a  , b \n", SEP_COMA).expect("lee");
    assert_eq!(f, vec![vec!["a".to_owned(), "b".to_owned()]]);
}

#[test]
fn la_extension_no_distingue_mayusculas() {
    assert_eq!(formato_por_extension("CSV"), Ok(FormatoDeArchivo::Csv));
    assert_eq!(formato_por_extension("Xlsx"), Ok(FormatoDeArchivo::HojaDeCalculo));
    assert_eq!(formato_por_extension("tsv"), Ok(FormatoDeArchivo::Csv));
    assert_eq!(formato_por_extension(""), Err(ErrorDeLectura::FormatoDesconocido));
}

#[test]
fn el_peso_tiene_tope() {
    assert_eq!(admitir_peso(MAX_BYTES), Ok(()));
    assert_eq!(admitir_peso(MAX_BYTES + 1), Err(ErrorDeLectura::DemasiadoGrande));
}

#[test]
fn las_celdas_de_una_hoja_se_cuentan_hasta_el_tope() {
    assert_eq!(contar_celdas_de_hoja(0, 3), Ok(3));
    assert_eq!(
        contar_celdas_de_hoja(MAX_CELDAS, 1),
        Err(ErrorDeLectura::DemasiadosDatos)
    );
}

#[test]
fn cada_error_de_lectura_tiene_su_clave() {
    let todos = [
        ErrorDeLectura::FormatoDesconocido,
        ErrorDeLectura::DemasiadoGrande,
        ErrorDeLectura::DemasiadosDatos,
        ErrorDeLectura::SinEncabezados,
        ErrorDeLectura::SinHojas,
        ErrorDeLectura::NoSePudoLeer,
    ];
    for e in todos {
        assert!(e.clave_i18n().starts_with("error.import."), "{e:?}");
        assert!(!e.mensaje().is_empty());
    }
}

#[test]
fn armar_conserva_el_nombre_y_la_huella() {
    let t = armar(
        "x.csv".to_owned(),
        "sha256:abc".to_owned(),
        vec![vec!["A".to_owned()], vec!["1".to_owned()]],
    )
    .expect("arma");
    assert_eq!(t.nombre, "x.csv");
    assert_eq!(t.huella, "sha256:abc");
    assert_eq!(t.filas, vec![vec!["1".to_owned()]]);
}
