use arles::arranque::{
    paso_de_la_clave, PasoDeLaClave,
    explicar_fallo, referencia_de_cuenta, Rutas, ARCHIVO_DE_LA_BASE, CUENTA_CLAVE_MAESTRA,
    SERVICIO,
};
use arles::datos::DbError;
use arles::errores::AppError;
use std::path::PathBuf;

#[test]
fn todo_fallo_de_arranque_es_accionable() {
    let casos = [
        AppError::ClaveMaestraPerdida,
        AppError::LlaveroNoDisponible("prueba".into()),
        AppError::DirectorioDeDatos,
        AppError::Db(DbError::ClaveIncorrecta),
    ];

    for e in casos {
        let f = explicar_fallo(&e);
        let m = e.mensaje();
        assert!(!f.que_paso.is_empty(), "falta qué pasó en {m}");
        assert!(!f.que_hacer.is_empty(), "falta qué hacer en {m}");
        assert!(!f.a_salvo.is_empty(), "falta qué está a salvo en {m}");

        let t = f.texto();
        assert!(t.contains("Qué pasó:"));
        assert!(t.contains("Qué hacer:"));
        assert!(t.contains(f.a_salvo));
    }
}

#[test]
fn la_clave_perdida_manda_al_respaldo() {
    let f = explicar_fallo(&AppError::ClaveMaestraPerdida);
    assert!(f.que_hacer.contains("respaldo"), "{}", f.que_hacer);
}

#[test]
fn la_referencia_no_contiene_el_secreto() {
    let r = referencia_de_cuenta("01900000-0000-7000-8000-00000000000a");
    assert!(r.starts_with("llavero://"));
    assert!(r.contains("01900000-0000-7000-8000-00000000000a"));
}

#[test]
fn el_identificador_del_servicio_es_estable() {
    assert_eq!(SERVICIO, "mx.telemetryinsight.arlesrelay");
    assert_eq!(CUENTA_CLAVE_MAESTRA, "db-master-key");
}

#[test]
fn el_nombre_del_archivo_es_estable() {
    let a = Rutas::en(PathBuf::from("/a")).base_de_datos();
    let b = Rutas::en(PathBuf::from("/b")).base_de_datos();
    assert_eq!(a.file_name(), b.file_name());
}

#[test]
fn la_base_de_datos_vive_bajo_el_directorio_de_datos() {
    let dir = PathBuf::from("/datos/de/prueba");
    let r = Rutas::en(dir.clone());
    let db = r.base_de_datos();
    assert!(db.starts_with(&dir));
    assert_eq!(
        db.file_name().and_then(|s| s.to_str()),
        Some(ARCHIVO_DE_LA_BASE)
    );
    assert_eq!(r.datos(), &dir);
}

#[test]
fn el_texto_del_fallo_tiene_las_tres_partes_en_orden() {
    let f = explicar_fallo(&AppError::DirectorioDeDatos);
    let t = f.texto();
    let a = t.find("Qué pasó:").expect("qué pasó");
    let b = t.find("Qué hacer:").expect("qué hacer");
    let c = t.find(f.a_salvo).expect("a salvo");
    assert!(a < b && b < c);
    assert!(t.starts_with("ARLES RELAY no pudo arrancar."));
}

#[test]
fn la_referencia_es_el_prefijo_y_el_identificador() {
    assert_eq!(
        referencia_de_cuenta("abc"),
        "llavero://mx.telemetryinsight.arlesrelay/email-account/abc"
    );
}

#[test]
fn sin_clave_y_con_base_se_nombra_la_perdida() {
    assert_eq!(paso_de_la_clave(true, true), PasoDeLaClave::UsarLaGuardada);
    assert_eq!(paso_de_la_clave(true, false), PasoDeLaClave::UsarLaGuardada);
    assert_eq!(paso_de_la_clave(false, true), PasoDeLaClave::NombrarLaPerdida);
    assert_eq!(paso_de_la_clave(false, false), PasoDeLaClave::CrearUnaNueva);
}
