use arles::huella::{huella, huella_de_bytes};

#[test]
fn la_huella_distingue_dos_archivos() {
    let a = huella_de_bytes(b"Nombre,Correo\nAna,a@b.mx\n");
    let b = huella_de_bytes(b"Nombre,Correo\nAna,otro@b.mx\n");
    assert!(a.starts_with("sha256:"), "{a}");
    assert_ne!(a, b, "dos archivos distintos, misma huella");
}

#[test]
fn la_huella_no_depende_del_nombre() {
    let contenido = b"Nombre,Correo\nAna,a@b.mx\n";
    assert_eq!(huella_de_bytes(contenido), huella_de_bytes(&contenido.to_vec()));
}

#[test]
fn la_huella_es_el_sha256_en_hexadecimal() {
    assert_eq!(
        huella_de_bytes(b""),
        "sha256:e3b0c44298fc1c149afbf4c8996fb92427ae41e4649b934ca495991b7852b855"
    );
    assert_eq!(
        huella("abc"),
        "sha256:ba7816bf8f01cfea414140de5dae2223b00361a396177a9cb410ff61f20015ad"
    );
}
