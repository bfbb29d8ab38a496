use vstd::prelude::*;

use crate::block_type::BlockType;
use crate::error::DomainError;
use crate::resolved::ResolvedContent;

verus! {

/// Entero sin signo de 32 bits codificado en big-endian en `b[i..i + 4]`.
pub open spec fn be32(b: Seq<u8>, i: int) -> nat {
    (b[i] as nat) * 16777216 + (b[i + 1] as nat) * 65536 + (b[i + 2] as nat) * 256 + (b[i + 3] as nat)
}

/// Dimensiones declaradas en la cabecera IHDR de un PNG, o `(0, 0)` si los
/// bytes no empiezan con la firma PNG o no alcanzan a contenerla.
pub open spec fn dimensiones_png_spec(b: Seq<u8>) -> (nat, nat) {
    if b.len() >= 24 && b[0] == 137 && b[1] == 80 && b[2] == 78 && b[3] == 71 {
        (be32(b, 16), be32(b, 20))
    } else {
        (0, 0)
    }
}

fn leer_be32(b: &[u8], i: usize) -> (r: u32)
    requires i + 4 <= b@.len(),
    ensures r == be32(b@, i as int),
{
    let x0 = b[i] as u32;
    let x1 = b[i + 1] as u32;
    let x2 = b[i + 2] as u32;
    let x3 = b[i + 3] as u32;
    assert(x0 * 16777216 + x1 * 65536 + x2 * 256 + x3 <= 0xffff_ffff) by (nonlinear_arith)
        requires x0 < 256, x1 < 256, x2 < 256, x3 < 256;
    x0 * 16777216 + x1 * 65536 + x2 * 256 + x3
}

/// Lee ancho y alto de la cabecera de un PNG sin decodificar la imagen.
pub fn dimensiones_png(bytes: &[u8]) -> (r: (u32, u32))
    ensures (r.0 as nat, r.1 as nat) == dimensiones_png_spec(bytes@),
{
    if bytes.len() >= 24 && bytes[0] == 137 && bytes[1] == 80 && bytes[2] == 78 && bytes[3] == 71 {
        (leer_be32(bytes, 16), leer_be32(bytes, 20))
    } else {
        (0, 0)
    }
}

/// Resolutor de último recurso: acepta cualquier región y conserva sus píxeles.
pub struct RasterFallbackResolver;

/// Confianza con que el resolutor raster entrega su resultado (certeza total).
pub const CONFIANZA_RASTER: u32 = 1_000_000;

impl RasterFallbackResolver {
    /// Acepta cualquier clase de región.
    pub fn puede_resolver(&self, _tipo: BlockType) -> (r: bool)
        ensures r,
    {
        true
    }

    /// Conserva el recorte tal cual como contenido raster, con las
    /// dimensiones leídas de su cabecera PNG, y lo entrega con confianza
    /// total. Nunca falla.
    pub fn resolver(&self, crop_bytes: &[u8]) -> (r: Result<(ResolvedContent, u32), DomainError>)
        ensures
            r matches Ok((ResolvedContent::Raster { imagen_bytes, ancho, alto }, conf))
                && imagen_bytes@ == crop_bytes@
                && (ancho as nat, alto as nat) == dimensiones_png_spec(crop_bytes@)
                && conf == CONFIANZA_RASTER,
    {
        let (ancho, alto) = dimensiones_png(crop_bytes);
        let imagen_bytes = vstd::slice::slice_to_vec(crop_bytes);
        Ok((ResolvedContent::Raster { imagen_bytes, ancho, alto }, CONFIANZA_RASTER))
    }
}

} // verus!
