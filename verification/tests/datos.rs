use arles::canal::Canal;
use arles::contacto::CanalValidado;
use arles::datos::{
    accion_de_guardado, canal_guardado, comprobar_longitud_de_clave, contacto_desde_fila,
    direccion_en_uso, empresa_desde_fila, escribir_literal_de_clave, exigir_clave,
    exigir_preferencia, huecos, recortar_nombre_de_archivo, resumen_de_importacion,
    tamano_de_pagina, vacio_a_nulo, DatosDelLote, DbError, CLAVES_DE_INTERFAZ, LONGITUD_CLAVE,
    MAX_NOMBRE_DE_ARCHIVO, MAX_POR_PAGINA, MAX_VALOR, POR_LOTE,
};
use arles::empresa::BorradorDeEmpresa;
use arles::ids::ImportBatchId;
use arles::importacion::OrigenDeLaLista;

fn borrador(zona: &str) -> BorradorDeEmpresa {
    BorradorDeEmpresa {
        nombre_comercial: "TELEMETRY".to_owned(),
        pais: "MX".to_owned(),
        zona_horaria: zona.to_owned(),
        correo_corporativo: "hola@telemetry.mx".to_owned(),
        sitio_web: String::new(),
    }
}

#[test]
fn rechaza_una_clave_de_longitud_equivocada() {
    assert!(matches!(
        comprobar_longitud_de_clave(16),
        Err(DbError::ClaveMalFormada {
            esperado: 32,
            recibido: 16
        })
    ));
    assert_eq!(comprobar_longitud_de_clave(LONGITUD_CLAVE), Ok(()));
}

#[test]
fn el_literal_de_la_clave_va_en_hexadecimal() {
    let mut s = String::from("PRAGMA key = \"");
    escribir_literal_de_clave(&[0x00, 0xAB, 0x1F, 0xFF], &mut s);
    assert_eq!(s, "PRAGMA key = \"x'00ab1fff'");
    let mut t = String::new();
    escribir_literal_de_clave(&[0_u8; 32], &mut t);
    assert_eq!(t.len(), 2 + 64 + 1);
}

#[test]
fn una_clave_desconocida_se_rechaza_al_escribir_y_al_leer() {
    assert!(matches!(
        exigir_preferencia("lo_que_sea", "1"),
        Err(DbError::DatoInvalido { .. })
    ));
    assert!(matches!(
        exigir_clave("lo_que_sea"),
        Err(DbError::DatoInvalido { .. })
    ));
}

#[test]
fn un_valor_desmesurado_se_rechaza() {
    let enorme = "a".repeat(MAX_VALOR + 1);
    assert!(matches!(
        exigir_preferencia("barra_lateral_plegada", &enorme),
        Err(DbError::DatoInvalido { .. })
    ));
    assert_eq!(
        exigir_preferencia("barra_lateral_plegada", &"a".repeat(MAX_VALOR)),
        Ok(())
    );
}

#[test]
fn las_claves_declaradas_se_admiten() {
    for c in CLAVES_DE_INTERFAZ {
        assert_eq!(exigir_clave(c), Ok(()));
        assert_eq!(exigir_preferencia(c, "1"), Ok(()));
    }
}

#[test]
fn el_tope_cuenta_bytes_y_no_caracteres() {
    let ene = "ñ".repeat(MAX_VALOR / 2 + 1);
    assert!(exigir_preferencia("tema", &ene).is_err());
}

#[test]
fn una_empresa_corrupta_se_nombra_en_vez_de_devolverse() {
    let id = "01900000-0000-7000-8000-000000000001";
    assert!(
        matches!(
            empresa_desde_fila(id, &borrador("America/Mexico")),
            Err(DbError::DatoInvalido { .. })
        ),
        "una empresa con zona inexistente no debería devolverse como válida"
    );
    let buena = empresa_desde_fila(id, &borrador("America/Mexico_City")).expect("válida");
    assert_eq!(buena.id.texto(), id);
    assert!(matches!(
        empresa_desde_fila("no-es-uuid", &borrador("America/Mexico_City")),
        Err(DbError::DatoInvalido { .. })
    ));
}

#[test]
fn una_direccion_repetida_da_un_error_que_dice_cual_es() {
    let c = CanalValidado {
        canal: Canal::Correo,
        valor_raw: "ANA@empresa.mx".to_owned(),
        valor_normalizado: "ana@empresa.mx".to_owned(),
        principal: true,
    };
    match direccion_en_uso(&c) {
        DbError::DireccionEnUso { canal, direccion } => {
            assert_eq!(canal, "email");
            assert_eq!(direccion, "ana@empresa.mx");
        }
        otro => panic!("se esperaba DireccionEnUso, llegó {otro:?}"),
    }
}

#[test]
fn pedir_una_pagina_desmesurada_se_recorta_en_vez_de_fallar() {
    assert_eq!(tamano_de_pagina(1_000_000), MAX_POR_PAGINA);
    assert_eq!(tamano_de_pagina(0), 1);
    assert_eq!(tamano_de_pagina(50), 50);
}

#[test]
fn un_nombre_interminable_se_recorta() {
    let largo = "a".repeat(4_000);
    assert_eq!(
        recortar_nombre_de_archivo(&largo).chars().count(),
        MAX_NOMBRE_DE_ARCHIVO
    );
    assert_eq!(recortar_nombre_de_archivo("marzo.csv"), "marzo.csv");
}

#[test]
fn el_sitio_web_ausente_se_guarda_como_nulo() {
    assert_eq!(vacio_a_nulo(""), None);
    assert_eq!(vacio_a_nulo("   "), None);
    assert_eq!(vacio_a_nulo(" https://x.mx "), Some("https://x.mx".to_owned()));
}

#[test]
fn los_huecos_van_separados_por_comas() {
    assert_eq!(huecos(0), "");
    assert_eq!(huecos(1), "?");
    assert_eq!(huecos(3), "?,?,?");
    assert_eq!(huecos(POR_LOTE).len(), 2 * POR_LOTE - 1);
}

#[test]
fn un_canal_guardado_desconocido_se_nombra() {
    let c = canal_guardado("email", "A@b.mx".into(), "a@b.mx".into(), 1).expect("válido");
    assert_eq!(c.canal, Canal::Correo);
    assert!(c.principal);
    let w = canal_guardado("whatsapp", "81".into(), "+5281".into(), 0).expect("válido");
    assert_eq!(w.canal, Canal::WhatsApp);
    assert!(!w.principal);
    assert!(matches!(
        canal_guardado("fax", "1".into(), "1".into(), 1),
        Err(DbError::DatoInvalido { .. })
    ));
}

#[test]
fn la_bitacora_distingue_alta_de_cambio() {
    assert_eq!(accion_de_guardado(false), "empresa.configurada");
    assert_eq!(accion_de_guardado(true), "empresa.actualizada");
}

#[test]
fn un_contacto_con_identificador_roto_se_nombra() {
    assert!(matches!(
        contacto_desde_fila(
            "x",
            String::new(),
            String::new(),
            String::new(),
            Vec::new(),
            String::new(),
            String::new()
        ),
        Err(DbError::DatoInvalido { .. })
    ));
    let c = contacto_desde_fila(
        "01900000-0000-7000-8000-000000000002",
        "Ana".into(),
        String::new(),
        String::new(),
        Vec::new(),
        "t0".into(),
        "t1".into(),
    )
    .expect("válido");
    assert_eq!(c.datos.nombre, "Ana");
    assert_eq!(c.creado_en, "t0");
}

#[test]
fn las_cifras_del_resumen_cuadran_con_las_del_analisis() {
    let datos = DatosDelLote {
        nombre_del_archivo: "x.csv".into(),
        huella_del_archivo: "sha256:abc".into(),
        mapeo_en_json: "[]".into(),
        texto_del_consentimiento: "acepto".into(),
        origen: OrigenDeLaLista::Otro,
        total_de_filas: 10,
        choques: 2,
        invalidas: 3,
    };
    let lote = ImportBatchId::desde_u128(7);
    let r = resumen_de_importacion(lote, 5, &datos);
    assert_eq!(r.lote, lote);
    assert_eq!(r.importados, 5);
    assert_eq!(r.choques, 2);
    assert_eq!(r.invalidas, 3);
    assert_eq!(r.total_de_filas, 10);
}

#[test]
fn cada_error_de_la_base_tiene_su_clave_y_su_texto() {
    let e = DbError::ClaveMalFormada {
        esperado: 32,
        recibido: 16,
    };
    assert_eq!(e.clave_i18n(), "error.db.clave_mal_formada");
    assert_eq!(
        e.mensaje(),
        "la clave maestra debe tener exactamente 32 bytes, tiene 16"
    );
    assert_eq!(DbError::Sqlite("x".into()).mensaje(), "error de SQLite: x");
    assert_eq!(DbError::ClaveIncorrecta.clave_i18n(), "error.db.clave_incorrecta");
}

#[test]
fn un_archivo_que_no_es_una_base_es_una_clave_incorrecta() {
    assert_eq!(
        arles::datos::fallo_al_verificar_la_clave(true, "file is not a database".into()),
        DbError::ClaveIncorrecta
    );
    assert_eq!(
        arles::datos::fallo_al_verificar_la_clave(false, "disk I/O error".into()),
        DbError::Sqlite("disk I/O error".into())
    );
}
