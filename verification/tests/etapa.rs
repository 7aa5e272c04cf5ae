use arles::canal::Canal;
use arles::etapa::{
    CondicionDeEtapa, ErrorDeSecuencia, EtapaPlanificada, MAX_ESPERA_HORAS, validar_secuencia,
};

fn primera(canal: Canal) -> EtapaPlanificada {
    EtapaPlanificada {
        posicion: 1,
        canal,
        condicion: CondicionDeEtapa::Siempre,
        espera_horas: 0,
    }
}

fn segunda(canal: Canal, espera_horas: u32) -> EtapaPlanificada {
    EtapaPlanificada {
        posicion: 2,
        canal,
        condicion: CondicionDeEtapa::SoloSiLaAnteriorNoFallo,
        espera_horas,
    }
}

#[test]
fn correo_y_despues_whatsapp_es_una_secuencia_valida() {
    let etapas = [primera(Canal::Correo), segunda(Canal::WhatsApp, 48)];
    assert_eq!(validar_secuencia(&etapas), Ok(()));
}

#[test]
fn una_sola_etapa_es_valida() {
    assert_eq!(validar_secuencia(&[primera(Canal::Correo)]), Ok(()));
    assert_eq!(validar_secuencia(&[primera(Canal::WhatsApp)]), Ok(()));
}

#[test]
fn una_campana_sin_etapas_no_se_puede_ejecutar() {
    assert_eq!(validar_secuencia(&[]), Err(ErrorDeSecuencia::SinEtapas));
}

#[test]
fn tres_etapas_no_caben() {
    let etapas = [
        primera(Canal::Correo),
        segunda(Canal::WhatsApp, 24),
        EtapaPlanificada {
            posicion: 3,
            canal: Canal::Correo,
            condicion: CondicionDeEtapa::Siempre,
            espera_horas: 24,
        },
    ];
    assert_eq!(
        validar_secuencia(&etapas),
        Err(ErrorDeSecuencia::DemasiadasEtapas)
    );
}

#[test]
fn dos_etapas_del_mismo_canal_no_son_una_secuencia() {
    let etapas = [primera(Canal::Correo), segunda(Canal::Correo, 24)];
    assert_eq!(
        validar_secuencia(&etapas),
        Err(ErrorDeSecuencia::CanalRepetido)
    );
}

#[test]
fn las_posiciones_no_admiten_huecos_ni_repeticiones() {
    let repetida = [primera(Canal::Correo), {
        let mut e = segunda(Canal::WhatsApp, 24);
        e.posicion = 1;
        e
    }];
    assert_eq!(
        validar_secuencia(&repetida),
        Err(ErrorDeSecuencia::PosicionesMal)
    );

    let con_hueco = [primera(Canal::Correo), {
        let mut e = segunda(Canal::WhatsApp, 24);
        e.posicion = 3;
        e
    }];
    assert_eq!(
        validar_secuencia(&con_hueco),
        Err(ErrorDeSecuencia::PosicionesMal)
    );
}

#[test]
fn las_etapas_pueden_llegar_desordenadas() {
    let etapas = [segunda(Canal::WhatsApp, 48), primera(Canal::Correo)];
    assert_eq!(validar_secuencia(&etapas), Ok(()));
}

#[test]
fn la_primera_etapa_ni_espera_ni_depende() {
    let mut e = primera(Canal::Correo);
    e.espera_horas = 24;
    assert_eq!(
        validar_secuencia(&[e]),
        Err(ErrorDeSecuencia::LaPrimeraNoEspera)
    );

    let mut e = primera(Canal::Correo);
    e.condicion = CondicionDeEtapa::SoloSiLaAnteriorNoFallo;
    assert_eq!(
        validar_secuencia(&[e]),
        Err(ErrorDeSecuencia::LaPrimeraNoEspera)
    );
}

#[test]
fn una_espera_de_meses_no_es_una_secuencia() {
    let etapas = [
        primera(Canal::Correo),
        segunda(Canal::WhatsApp, MAX_ESPERA_HORAS + 1),
    ];
    assert_eq!(
        validar_secuencia(&etapas),
        Err(ErrorDeSecuencia::EsperaDesmesurada)
    );

    let etapas = [
        primera(Canal::Correo),
        segunda(Canal::WhatsApp, MAX_ESPERA_HORAS),
    ];
    assert_eq!(validar_secuencia(&etapas), Ok(()));
}

#[test]
fn la_segunda_etapa_puede_no_esperar() {
    let etapas = [primera(Canal::Correo), segunda(Canal::WhatsApp, 0)];
    assert_eq!(validar_secuencia(&etapas), Ok(()));
}

#[test]
fn la_condicion_va_y_vuelve_de_su_texto() {
    for c in &CondicionDeEtapa::TODAS {
        assert_eq!(CondicionDeEtapa::desde_texto(c.como_texto()), Ok(*c));
    }
    assert_eq!(
        CondicionDeEtapa::desde_texto("si_no_contesto"),
        Err(ErrorDeSecuencia::CondicionDesconocida)
    );
}

#[test]
fn los_textos_de_la_condicion_son_los_del_esquema() {
    assert_eq!(CondicionDeEtapa::Siempre.como_texto(), "always");
    assert_eq!(
        CondicionDeEtapa::SoloSiLaAnteriorNoFallo.como_texto(),
        "previous_not_failed"
    );
}

#[test]
fn cada_error_tiene_clave_i18n() {
    for e in [
        ErrorDeSecuencia::SinEtapas,
        ErrorDeSecuencia::DemasiadasEtapas,
        ErrorDeSecuencia::PosicionesMal,
        ErrorDeSecuencia::CanalRepetido,
        ErrorDeSecuencia::LaPrimeraNoEspera,
        ErrorDeSecuencia::EsperaDesmesurada,
        ErrorDeSecuencia::CondicionDesconocida,
    ] {
        assert!(e.clave_i18n().starts_with("error.etapa."));
    }
}

// ── Propias ──

#[test]
fn las_comprobaciones_van_en_orden() {
    // Numeración mala y canal repetido a la vez: manda la numeración.
    let etapas = [primera(Canal::Correo), {
        let mut e = segunda(Canal::Correo, 24);
        e.posicion = 5;
        e
    }];
    assert_eq!(
        validar_secuencia(&etapas),
        Err(ErrorDeSecuencia::PosicionesMal)
    );
}

#[test]
fn una_segunda_etapa_sola_no_se_numera_bien() {
    assert_eq!(
        validar_secuencia(&[segunda(Canal::Correo, 0)]),
        Err(ErrorDeSecuencia::PosicionesMal)
    );
}

#[test]
fn el_mensaje_de_cada_error() {
    assert_eq!(
        ErrorDeSecuencia::CanalRepetido.mensaje(),
        "las dos etapas son del mismo canal"
    );
    assert_eq!(MAX_ESPERA_HORAS, 720);
}
