use arles::empresa::{
    BorradorDeEmpresa, CampoDeEmpresa, DatosDeEmpresa, MAX_NOMBRE, ZONAS_SOPORTADAS,
};

fn borrador_valido() -> BorradorDeEmpresa {
    BorradorDeEmpresa {
        nombre_comercial: "TELEMETRY INSIGHT".into(),
        pais: "MX".into(),
        zona_horaria: "America/Mexico_City".into(),
        correo_corporativo: "hola@telemetry.mx".into(),
        sitio_web: "https://telemetry.mx".into(),
    }
}

fn campos_con_error(b: &BorradorDeEmpresa) -> Vec<CampoDeEmpresa> {
    DatosDeEmpresa::validar(b)
        .err()
        .unwrap_or_default()
        .iter()
        .map(|e| e.campo)
        .collect()
}

#[test]
fn un_borrador_correcto_se_valida() {
    let d = DatosDeEmpresa::validar(&borrador_valido()).expect("válido");
    assert_eq!(d.nombre_comercial(), "TELEMETRY INSIGHT");
    assert_eq!(d.zona_horaria(), "America/Mexico_City");
    assert_eq!(d.correo_corporativo().normalized(), "hola@telemetry.mx");
    assert_eq!(d.sitio_web(), Some("https://telemetry.mx"));
}

#[test]
fn el_sitio_web_es_opcional() {
    let mut b = borrador_valido();
    b.sitio_web = "   ".into();
    let d = DatosDeEmpresa::validar(&b).expect("válido sin sitio");
    assert_eq!(d.sitio_web(), None);
}

#[test]
fn reporta_todos_los_campos_malos_de_una_vez() {
    let b = BorradorDeEmpresa {
        nombre_comercial: "  ".into(),
        pais: "ES".into(),
        zona_horaria: "Europe/Madrid".into(),
        correo_corporativo: "no-es-un-correo".into(),
        sitio_web: "telemetry.mx".into(),
    };
    let campos = campos_con_error(&b);
    assert_eq!(campos.len(), 5, "faltan campos por reportar: {campos:?}");
}

#[test]
fn rechaza_zonas_que_parecen_validas_pero_no_existen() {
    for zona in ["America/Mexico", "America/CDMX", "GMT-6", "", "UTC+0"] {
        let mut b = borrador_valido();
        b.zona_horaria = zona.into();
        assert!(
            campos_con_error(&b).contains(&CampoDeEmpresa::ZonaHoraria),
            "debería rechazarse la zona {zona:?}"
        );
    }
}

#[test]
fn el_nombre_no_admite_saltos_de_linea() {
    let mut b = borrador_valido();
    b.nombre_comercial = "TELEMETRY\r\nBcc: victima@otra.com".into();
    assert!(campos_con_error(&b).contains(&CampoDeEmpresa::NombreComercial));
}

#[test]
fn el_sitio_solo_admite_http_y_https() {
    for sitio in [
        "javascript:alert(1)",
        "file:///etc/passwd",
        "data:text/html,<script>",
        "JavaScript:alert(1)",
        "//telemetry.mx",
        "telemetry.mx",
        "https://",
        "https:// telemetry.mx",
    ] {
        let mut b = borrador_valido();
        b.sitio_web = sitio.into();
        assert!(
            campos_con_error(&b).contains(&CampoDeEmpresa::SitioWeb),
            "debería rechazarse el sitio {sitio:?}"
        );
    }
}

#[test]
fn el_nombre_tiene_tope() {
    let mut b = borrador_valido();
    b.nombre_comercial = "a".repeat(MAX_NOMBRE + 1);
    assert!(campos_con_error(&b).contains(&CampoDeEmpresa::NombreComercial));
}

#[test]
fn el_pais_se_acepta_en_minusculas() {
    let mut b = borrador_valido();
    b.pais = "mx".into();
    let d = DatosDeEmpresa::validar(&b).expect("válido");
    assert_eq!(d.pais(), "MX");
}

#[test]
fn toda_zona_soportada_se_acepta() {
    for zona in &ZONAS_SOPORTADAS {
        let mut b = borrador_valido();
        b.zona_horaria = (*zona).to_owned();
        assert!(
            DatosDeEmpresa::validar(&b).is_ok(),
            "la zona ofrecida {zona} no se acepta"
        );
    }
}

#[test]
fn cada_campo_tiene_nombre_estable_para_el_formulario() {
    let todos = [
        CampoDeEmpresa::NombreComercial,
        CampoDeEmpresa::Pais,
        CampoDeEmpresa::ZonaHoraria,
        CampoDeEmpresa::CorreoCorporativo,
        CampoDeEmpresa::SitioWeb,
    ];
    for c in todos {
        assert!(!c.como_str().is_empty());
    }
}

#[test]
fn un_borrador_invalido_no_produce_datos_que_guardar() {
    let malo = BorradorDeEmpresa {
        nombre_comercial: "TELEMETRY\r\nBcc: victima@otra.com".into(),
        pais: "MX".into(),
        zona_horaria: "America/Mexico".into(),
        correo_corporativo: "no-es-correo".into(),
        sitio_web: "javascript:alert(1)".into(),
    };
    let errores = DatosDeEmpresa::validar(&malo).expect_err("debería rechazarse");
    assert_eq!(errores.len(), 4, "faltan campos por reportar: {errores:?}");
}

// ── Propias ──

#[test]
fn cada_error_lleva_su_clave() {
    let b = BorradorDeEmpresa {
        nombre_comercial: String::new(),
        pais: "ES".into(),
        zona_horaria: "Europe/Madrid".into(),
        correo_corporativo: "x".into(),
        sitio_web: "ftp://telemetry.mx".into(),
    };
    let claves: Vec<_> = DatosDeEmpresa::validar(&b)
        .expect_err("debería rechazarse")
        .iter()
        .map(|e| e.clave)
        .collect();
    assert_eq!(
        claves,
        vec![
            "empresa.error.nombreVacio",
            "empresa.error.paisNoSoportado",
            "empresa.error.zonaNoSoportada",
            "empresa.error.correoInvalido",
            "empresa.error.sitioSinEsquema",
        ]
    );
}

#[test]
fn un_sitio_sin_punto_o_desmesurado_se_rechaza_con_su_clave() {
    let mut b = borrador_valido();
    b.sitio_web = "https://intranet".into();
    let e = DatosDeEmpresa::validar(&b).expect_err("sin punto");
    assert_eq!(e[0].clave, "empresa.error.sitioInvalido");

    b.sitio_web = format!("https://{}.mx", "a".repeat(300));
    let e = DatosDeEmpresa::validar(&b).expect_err("largo");
    assert_eq!(e[0].clave, "empresa.error.sitioLargo");
}

#[test]
fn los_nombres_de_los_campos_son_los_del_formulario() {
    assert_eq!(CampoDeEmpresa::NombreComercial.como_str(), "nombreComercial");
    assert_eq!(CampoDeEmpresa::ZonaHoraria.como_str(), "zonaHoraria");
    assert_eq!(CampoDeEmpresa::SitioWeb.como_str(), "sitioWeb");
}

#[test]
fn el_nombre_se_guarda_recortado() {
    let mut b = borrador_valido();
    b.nombre_comercial = "  TELEMETRY  ".into();
    b.zona_horaria = " UTC ".into();
    let d = DatosDeEmpresa::validar(&b).expect("válido");
    assert_eq!(d.nombre_comercial(), "TELEMETRY");
    assert_eq!(d.zona_horaria(), "UTC");
}

#[test]
fn cada_campo_malo_sale_una_vez_y_en_el_orden_del_formulario() {
    let b = BorradorDeEmpresa {
        nombre_comercial: "Linea\nrota".into(),
        pais: "mx".into(),
        zona_horaria: "Europe/Madrid".into(),
        correo_corporativo: "hola@telemetry.mx".into(),
        sitio_web: "ftp://telemetry.mx".into(),
    };
    assert_eq!(
        campos_con_error(&b),
        vec![
            CampoDeEmpresa::NombreComercial,
            CampoDeEmpresa::ZonaHoraria,
            CampoDeEmpresa::SitioWeb,
        ]
    );
}
