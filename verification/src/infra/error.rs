use vstd::prelude::*;

use crate::error::DomainError;
use crate::texto::{agregar_str, cadena};

verus! {

/// Fallos de E/S, decodificación, inferencia o red de los adaptadores. Los
/// errores del sistema operativo se conservan por su mensaje.
#[derive(Debug, Clone, PartialEq, Eq)]
pub enum InfraError {
    Imagen(String),
    Pdf(String),
    Onnx(String),
    Io(String),
    Red(String),
    HashIncorrecto { esperado: String, obtenido: String },
}

/// Mensaje con que se muestra cada error.
pub open spec fn infra_mensaje_spec(e: InfraError) -> Seq<char> {
    match e {
        InfraError::Imagen(m) => "Error de imagen: "@ + m@,
        InfraError::Pdf(m) => "Error de PDF: "@ + m@,
        InfraError::Onnx(m) => "Error ONNX: "@ + m@,
        InfraError::Io(m) => "Error de I/O: "@ + m@,
        InfraError::Red(m) => "Error de red: "@ + m@,
        InfraError::HashIncorrecto { esperado, obtenido } =>
            "Hash incorrecto: esperado="@ + esperado@ + ", obtenido="@ + obtenido@,
    }
}

fn prefijado(prefijo: &str, m: &str) -> (r: String)
    ensures r@ == prefijo@ + m@,
{
    let mut v: Vec<char> = Vec::new();
    agregar_str(&mut v, prefijo);
    agregar_str(&mut v, m);
    assert(v@ =~= prefijo@ + m@);
    cadena(&v)
}

impl InfraError {
    /// Mensaje legible del error.
    pub fn mensaje(&self) -> (r: String)
        ensures r@ == infra_mensaje_spec(*self),
    {
        match self {
            InfraError::Imagen(m) => prefijado("Error de imagen: ", m.as_str()),
            InfraError::Pdf(m) => prefijado("Error de PDF: ", m.as_str()),
            InfraError::Onnx(m) => prefijado("Error ONNX: ", m.as_str()),
            InfraError::Io(m) => prefijado("Error de I/O: ", m.as_str()),
            InfraError::Red(m) => prefijado("Error de red: ", m.as_str()),
            InfraError::HashIncorrecto { esperado, obtenido } => {
                let mut v: Vec<char> = Vec::new();
                agregar_str(&mut v, "Hash incorrecto: esperado=");
                agregar_str(&mut v, esperado.as_str());
                agregar_str(&mut v, ", obtenido=");
                agregar_str(&mut v, obtenido.as_str());
                assert(v@ =~= infra_mensaje_spec(*self));
                cadena(&v)
            },
        }
    }

    /// El error al cruzar la frontera hacia el dominio: un error de
    /// infraestructura con el mensaje de este.
    pub fn a_dominio(&self) -> (r: DomainError)
        ensures r matches DomainError::Infraestructura(m) && m@ == infra_mensaje_spec(*self),
    {
        DomainError::Infraestructura(self.mensaje())
    }
}

} // verus!
