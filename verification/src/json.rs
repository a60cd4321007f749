//! The deserialized records of a document, as the view layer reads them.
//!
//! A record is plain data: every field is public, and a field that the
//! document may leave out is an `Option`. No default is filled in here; the
//! views supply them.

use vstd::prelude::*;
use crate::scalar::Scalar;

verus! {

/// Application-specific data attached to a record, left uninterpreted.
#[derive(Clone, Debug, PartialEq, Eq)]
pub struct Extras {
    /// The payload as it stood in the document.
    pub raw: Vec<u8>,
}

/// Extension-specific data attached to a record, left uninterpreted.
#[derive(Clone, Debug, PartialEq, Eq)]
pub struct Extensions {
    /// The payload as it stood in the document.
    pub raw: Vec<u8>,
}

/// One entry of the document's texture collection.
#[derive(Clone, Debug, PartialEq, Eq)]
pub struct Texture {
    /// Optional user-defined name.
    pub name: Option<String>,
    /// Index of the sampler the texture is read with.
    pub sampler: Option<usize>,
    /// Index of the image the texture is read from.
    pub source: usize,
    /// Extension-specific data.
    pub extensions: Extensions,
    /// Application-specific data.
    pub extras: Extras,
}

/// A reference to a texture: which one, and through which UV set.
#[derive(Clone, Debug, PartialEq, Eq)]
pub struct TextureInfo {
    /// Index into the document's texture collection.
    pub index: usize,
    /// Set index of the `TEXCOORD` attribute; `0` where absent.
    pub tex_coord: Option<u32>,
    /// Extension-specific data.
    pub extensions: Extensions,
    /// Application-specific data.
    pub extras: Extras,
}

/// A texture reference with the scale of a normal map.
#[derive(Clone, Debug, PartialEq, Eq)]
pub struct NormalTexture {
    /// The texture reference proper.
    pub info: TextureInfo,
    /// Multiplier applied to each normal vector of the texture.
    pub scale: Scalar,
}

/// A texture reference with the strength of an occlusion map.
#[derive(Clone, Debug, PartialEq, Eq)]
pub struct OcclusionTexture {
    /// The texture reference proper.
    pub info: TextureInfo,
    /// Amount of occlusion applied; `1.0` where absent.
    pub strength: Option<Scalar>,
}

/// The parameters of the metallic-roughness material model.
#[derive(Clone, Debug, PartialEq, Eq)]
pub struct PbrMetallicRoughness {
    /// The base color factor, as red, green, blue, alpha.
    pub base_color_factor: [Scalar; 4],
    /// The base color texture.
    pub base_color_texture: Option<TextureInfo>,
    /// The metalness of the material; `1.0` where absent.
    pub metallic_factor: Option<Scalar>,
    /// The roughness of the material; `1.0` where absent.
    pub roughness_factor: Option<Scalar>,
    /// The metallic-roughness texture.
    pub metallic_roughness_texture: Option<TextureInfo>,
    /// Extension-specific data.
    pub extensions: Extensions,
    /// Application-specific data.
    pub extras: Extras,
}

/// The material appearance of a primitive.
#[derive(Clone, Debug, PartialEq, Eq)]
pub struct Material {
    /// Optional user-defined name.
    pub name: Option<String>,
    /// The alpha cutoff value; `0.5` where absent.
    pub alpha_cutoff: Option<Scalar>,
    /// The alpha rendering mode: `"OPAQUE"`, `"MASK"` or `"BLEND"`.
    pub alpha_mode: String,
    /// Whether the material is double-sided.
    pub double_sided: bool,
    /// The metallic-roughness parameters.
    pub pbr_metallic_roughness: Option<PbrMetallicRoughness>,
    /// The tangent-space normal map.
    pub normal_texture: Option<NormalTexture>,
    /// The occlusion map.
    pub occlusion_texture: Option<OcclusionTexture>,
    /// The emissive map.
    pub emissive_texture: Option<TextureInfo>,
    /// The emissive color, as red, green, blue.
    pub emissive_factor: [Scalar; 3],
    /// Extension-specific data.
    pub extensions: Extensions,
    /// Application-specific data.
    pub extras: Extras,
}

} // verus!
