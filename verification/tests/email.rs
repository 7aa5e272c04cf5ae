use arles::email::EmailAddress;
use arles::error::CoreError;

fn norm(s: &str) -> String {
    EmailAddress::parse(s)
        .map(|e| e.normalized().to_owned())
        .unwrap_or_else(|_| panic!("debería ser válido: {s}"))
}

#[test]
fn normaliza_mayusculas_y_espacios() {
    assert_eq!(norm("  Juan.Perez@Empresa.COM  "), "juan.perez@empresa.com");
}

#[test]
fn conserva_la_forma_original_para_mostrarla() {
    let e = EmailAddress::parse(" Juan.Perez@Empresa.COM ").expect("válido");
    assert_eq!(e.raw(), "Juan.Perez@Empresa.COM");
    assert_eq!(e.normalized(), "juan.perez@empresa.com");
}

#[test]
fn no_elimina_puntos_porque_eso_es_especifico_de_gmail() {
    assert_ne!(
        norm("juan.perez@empresa.com"),
        norm("juanperez@empresa.com")
    );
}

#[test]
fn no_recorta_el_sufijo_mas() {
    assert_ne!(norm("juan+ofertas@empresa.com"), norm("juan@empresa.com"));
}

#[test]
fn detecta_duplicados_reales_por_mayusculas() {
    assert_eq!(norm("VENTAS@empresa.com"), norm("ventas@EMPRESA.com"));
}

#[test]
fn rechaza_direcciones_mal_formadas() {
    for entrada in [
        "",
        "   ",
        "sinarroba.com",
        "@empresa.com",
        "doble@@empresa.com",
        "juan@sinpunto",
        "juan@.empresa.com",
        "juan@empresa.com.",
        "juan perez@empresa.com",
    ] {
        assert!(
            EmailAddress::parse(entrada).is_err(),
            "debería rechazarse: {entrada:?}"
        );
    }
}

#[test]
fn rechaza_inyeccion_de_cabeceras() {
    for entrada in [
        "juan@empresa.com\r\nBcc: victima@otra.com",
        "juan@empresa.com\nSubject: secuestrado",
        "juan\r\n@empresa.com",
        "\r\nBcc: victima@otra.com",
    ] {
        assert!(
            EmailAddress::parse(entrada).is_err(),
            "debería rechazarse: {entrada:?}"
        );
    }
}

#[test]
fn recorta_saltos_de_linea_alrededor_sin_rechazar() {
    for entrada in [
        "juan@empresa.com\r",
        "\r\njuan@empresa.com\r\n",
        "\tjuan@empresa.com \n",
    ] {
        let e = EmailAddress::parse(entrada)
            .unwrap_or_else(|_| panic!("debería aceptarse: {entrada:?}"));
        assert_eq!(e.normalized(), "juan@empresa.com");
        assert!(!e.raw().contains(['\r', '\n']));
    }
}

#[test]
fn rechaza_direcciones_desmesuradas() {
    let larga = format!("{}@empresa.com", "a".repeat(400));
    assert!(EmailAddress::parse(&larga).is_err());
}

#[test]
fn la_igualdad_se_decide_por_la_forma_normalizada() {
    let a = EmailAddress::parse("VENTAS@empresa.com").expect("válida");
    let b = EmailAddress::parse("ventas@EMPRESA.com").expect("válida");

    assert_eq!(a, b, "dos escrituras de la misma dirección deben ser iguales");

    let mut set = std::collections::HashSet::new();
    set.insert(a);
    set.insert(b);
    assert_eq!(set.len(), 1, "el HashSet no dedujo que son la misma dirección");
}

#[test]
fn direcciones_distintas_siguen_siendo_distintas() {
    let a = EmailAddress::parse("ana@empresa.com").expect("válida");
    let b = EmailAddress::parse("beto@empresa.com").expect("válida");
    assert_ne!(a, b);
}

#[test]
fn el_dominio_se_extrae_normalizado() {
    let e = EmailAddress::parse("Ana@Empresa.COM").expect("válida");
    assert_eq!(e.dominio(), "empresa.com");
}

#[test]
fn acepta_direcciones_validas_poco_comunes() {
    for entrada in [
        "juan+etiqueta@empresa.com.mx",
        "j@a.io",
        "nombre_apellido-123@sub.dominio.com",
    ] {
        assert!(
            EmailAddress::parse(entrada).is_ok(),
            "debería aceptarse: {entrada:?}"
        );
    }
}

// ── Propias ──

#[test]
fn cada_rechazo_dice_su_motivo() {
    let casos = [
        ("", "la dirección está vacía"),
        ("sinarroba.com", "falta la arroba"),
        ("@empresa.com", "falta la parte anterior a la arroba"),
        ("doble@@empresa.com", "hay más de una arroba"),
        ("juan@sinpunto", "el dominio no es válido"),
        ("juan perez@empresa.com", "la dirección contiene espacios"),
    ];
    for (entrada, motivo) in casos {
        assert_eq!(
            EmailAddress::parse(entrada).err(),
            Some(CoreError::EmailInvalido { motivo }),
            "{entrada:?}"
        );
    }
}

#[test]
fn el_tope_es_de_320_bytes() {
    let justa = format!("{}@empresa.com", "a".repeat(320 - 12));
    assert!(EmailAddress::parse(&justa).is_ok());
    let pasada = format!("{}@empresa.com", "a".repeat(321 - 12));
    assert_eq!(
        EmailAddress::parse(&pasada).err(),
        Some(CoreError::EmailInvalido {
            motivo: "la dirección supera los 320 caracteres"
        })
    );
}
