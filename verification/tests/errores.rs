use arles::contacto::{CampoDeContacto, ErrorDeContacto};
use arles::datos::DbError;
use arles::empresa::{CampoDeEmpresa, ErrorDeCampo};
use arles::errores::{redactar_rutas, AppError, ErrorIpc};
use arles::error::CoreError;
use arles::lectura::ErrorDeLectura;

#[test]
fn toda_variante_tiene_clave_i18n() {
    let casos = [
        AppError::LlaveroNoDisponible("prueba".into()),
        AppError::DirectorioDeDatos,
        AppError::Db(DbError::ClaveIncorrecta),
    ];
    for e in casos {
        assert!(e.clave_i18n().starts_with("error."));
    }
}

#[test]
fn solo_el_error_de_formulario_lleva_campos() {
    let con: ErrorIpc = AppError::EmpresaInvalida(vec![ErrorDeCampo {
        campo: CampoDeEmpresa::ZonaHoraria,
        clave: "empresa.error.zonaNoSoportada",
    }])
    .into();
    assert_eq!(con.campos.len(), 1);
    assert_eq!(
        con.campos.first().map(|c| c.campo),
        Some(CampoDeEmpresa::ZonaHoraria)
    );

    let sin: ErrorIpc = AppError::DirectorioDeDatos.into();
    assert!(sin.campos.is_empty());
}

#[test]
fn el_error_ipc_lleva_clave_y_detalle() {
    let ipc: ErrorIpc = AppError::Db(DbError::ClaveIncorrecta).into();
    assert_eq!(ipc.clave, "error.db.clave_incorrecta");
    assert!(!ipc.detalle.is_empty());
}

#[test]
fn los_errores_no_revelan_rutas() {
    for e in [
        AppError::DirectorioDeDatos,
        AppError::ClaveMaestraPerdida,
        AppError::Db(DbError::ClaveIncorrecta),
    ] {
        let t = e.mensaje();
        assert!(!t.contains('/'), "el error revela una ruta: {t}");
        assert!(!t.contains('\\'), "el error revela una ruta: {t}");
    }
}

#[test]
fn el_error_ipc_redacta_las_rutas_de_las_capas_inferiores() {
    let e = AppError::LlaveroNoDisponible(
        "no se pudo abrir /home/ana/.local/share/keyrings/login.keyring".into(),
    );
    let ipc: ErrorIpc = e.into();

    assert!(
        !ipc.detalle.contains("/home/ana"),
        "la ruta cruzó la frontera IPC: {}",
        ipc.detalle
    );
    assert!(ipc.detalle.contains("[ruta]"));
    assert!(ipc.detalle.contains("no se pudo abrir"));
}

#[test]
fn la_redaccion_tambien_cubre_rutas_de_windows() {
    let ipc: ErrorIpc = AppError::LlaveroNoDisponible(
        r"fallo en C:\Users\Ana\AppData\Roaming\ArlesRelay".into(),
    )
    .into();
    assert!(!ipc.detalle.contains("Users"), "{}", ipc.detalle);
    assert!(ipc.detalle.contains("[ruta]"));
}

#[test]
fn la_redaccion_no_estropea_un_mensaje_sin_rutas() {
    let ipc: ErrorIpc = AppError::ClaveMaestraPerdida.into();
    assert!(!ipc.detalle.contains("[ruta]"));
    assert!(ipc.detalle.contains("clave"));
}

#[test]
fn redactar_sustituye_solo_la_palabra_con_la_ruta() {
    assert_eq!(
        redactar_rutas("abrir /tmp/x falló"),
        "abrir [ruta] falló"
    );
    assert_eq!(redactar_rutas("sin nada"), "sin nada");
    assert_eq!(redactar_rutas(""), "");
}

#[test]
fn los_errores_de_las_capas_se_convierten_sin_perder_la_clave() {
    let a: AppError = DbError::ContactoNoExiste.into();
    assert_eq!(a.clave_i18n(), "error.db.contacto_no_existe");
    let b: AppError = ErrorDeLectura::SinHojas.into();
    assert_eq!(b.clave_i18n(), ErrorDeLectura::SinHojas.clave_i18n());
    let c: AppError = CoreError::CanalDesconocido.into();
    assert_eq!(c.clave_i18n(), CoreError::CanalDesconocido.clave_i18n());
}

#[test]
fn el_error_de_contacto_lleva_sus_canales() {
    let ipc = ErrorIpc::desde(AppError::ContactoInvalido(Vec::new()));
    assert!(ipc.canales.is_empty());
    assert!(ipc.campos.is_empty());
    assert_eq!(ipc.clave, AppError::ContactoInvalido(Vec::new()).clave_i18n());
}

#[test]
fn una_ruta_que_empieza_por_barra_tambien_se_redacta() {
    assert_eq!(
        redactar_rutas("no se pudo abrir /etc"),
        "no se pudo abrir [ruta]"
    );
    assert_eq!(redactar_rutas("falta \\\\servidor\\"), "falta [ruta]");
}

#[test]
fn el_error_de_contacto_dice_que_canal_fallo() {
    let ipc: ErrorIpc = AppError::ContactoInvalido(vec![ErrorDeContacto {
        campo: CampoDeContacto::Canal,
        indice: Some(3),
        clave: "error.telefono_invalido",
    }])
    .into();

    assert_eq!(ipc.clave, "error.app.contacto_invalido");
    assert_eq!(ipc.canales.first().and_then(|c| c.indice), Some(3));
    assert!(ipc.campos.is_empty());
}
