//! Núcleo verificado de ARLES RELAY: validación de contactos, empresa,
//! canales, etapas, importación y análisis de archivos.

pub mod analisis;
pub mod arranque;
pub mod attempt;
pub mod canal;
pub mod comandos;
pub mod contacto;
pub mod datos;
pub mod email;
pub mod empresa;
pub mod error;
pub mod errores;
pub mod etapa;
pub mod huella;
pub mod ids;
pub mod lectura;
pub mod importacion;
pub mod onboarding;
pub mod texto;
