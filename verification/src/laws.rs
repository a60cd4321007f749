//! What holds of the views as a whole, beyond any single accessor.

use vstd::prelude::*;
use crate::document::Document;
use crate::error::Fault;
use crate::json;
use crate::material::{
    resolve_optional, AlphaMode, MaterialModel, NormalTextureModel, OcclusionTextureModel,
    PbrMetallicRoughnessModel,
};
use crate::scalar::Scalar;
use crate::texture::{InfoModel, TextureModel};

verus! {

/// A material without a metallic-roughness block yields no view of one; a
/// material with one yields a view of exactly that block, read against the
/// same document, whose factors are those of the block.
pub proof fn lemma_pbr_block_is_reflected(material: MaterialModel)
    ensures
        material.record.pbr_metallic_roughness is None <==> material.pbr_metallic_roughness()
            is None,
        material.record.pbr_metallic_roughness matches Some(block) ==> {
            &&& material.pbr_metallic_roughness() matches Some(pbr)
            &&& pbr.record == block
            &&& pbr.document == material.document
            &&& block.metallic_factor matches Some(f) ==> pbr.metallic_factor() == f
            &&& block.roughness_factor matches Some(f) ==> pbr.roughness_factor() == f
            &&& pbr.base_color_texture() == resolve_optional(
                material.document,
                block.base_color_texture,
            )
            &&& pbr.metallic_roughness_texture() == resolve_optional(
                material.document,
                block.metallic_roughness_texture,
            )
        },
{
}

/// A texture index resolves exactly when it is below the length of the
/// texture collection, and then to the entry at that position and no other.
pub proof fn lemma_resolve_in_range(document: Document, index: usize)
    ensures
        document.resolve(index) is Some <==> index < document.textures@.len(),
        document.resolve(index) matches Some(texture) ==> {
            &&& texture.well_formed()
            &&& texture.document == document
            &&& texture.index == index
            &&& texture.record == document.textures@[index as int]
        },
{
}

/// Resolving a texture reference twice against one document yields two
/// views of the same entry of the texture collection: the one at the index
/// that the reference holds.
pub proof fn lemma_resolution_is_stable(
    document: Document,
    reference: json::TextureInfo,
    first: InfoModel,
    second: InfoModel,
)
    requires
        InfoModel::resolve(document, reference) == Some(first),
        InfoModel::resolve(document, reference) == Some(second),
    ensures
        first == second,
        first.texture.index == second.texture.index == reference.index,
        first.texture.record == document.textures@[reference.index as int],
        first.record == reference,
{
}

/// Reading an optional texture reference never fails where there is none,
/// succeeds exactly where the index is in range, and otherwise reports the
/// index together with the length of the texture collection.
pub proof fn lemma_resolve_optional(document: Document, reference: Option<json::TextureInfo>)
    ensures
        reference is None ==> resolve_optional(document, reference) == Ok::<
            Option<InfoModel>,
            Fault,
        >(None),
        reference matches Some(r) ==> {
            &&& r.index < document.textures@.len() ==> resolve_optional(document, reference)
                == Ok::<Option<InfoModel>, Fault>(InfoModel::resolve(document, r))
                && InfoModel::resolve(document, r) is Some
            &&& r.index >= document.textures@.len() ==> resolve_optional(document, reference)
                == Err::<Option<InfoModel>, Fault>(
                Fault::TextureIndexOutOfRange { index: r.index, count: document.textures.len() },
            )
        },
{
}

/// Where a record leaves a value out, the view supplies its default: `0.5`
/// for the alpha cutoff, `1.0` for the metallic factor, the roughness
/// factor and the occlusion strength, and `0` for the texture coordinate
/// set. Where the record holds a value, the view hands that value on.
pub proof fn lemma_defaults(
    material: MaterialModel,
    pbr: PbrMetallicRoughnessModel,
    occlusion: OcclusionTextureModel,
    info: InfoModel,
)
    ensures
        material.alpha_cutoff() == match material.record.alpha_cutoff {
            Some(cutoff) => cutoff,
            None => Scalar { bits: 0x3F00_0000 },
        },
        pbr.metallic_factor() == match pbr.record.metallic_factor {
            Some(factor) => factor,
            None => Scalar { bits: 0x3F80_0000 },
        },
        pbr.roughness_factor() == match pbr.record.roughness_factor {
            Some(factor) => factor,
            None => Scalar { bits: 0x3F80_0000 },
        },
        occlusion.strength() == match occlusion.record.strength {
            Some(strength) => strength,
            None => Scalar { bits: 0x3F80_0000 },
        },
        info.tex_coord() == match info.record.tex_coord {
            Some(set) => set,
            None => 0u32,
        },
{
}

/// The three names of the alpha modes are read as their modes, and no
/// other string is read as a mode.
pub proof fn lemma_alpha_mode_names(text: Seq<char>)
    ensures
        AlphaMode::decode("BLEND"@) == Some(AlphaMode::Blend),
        AlphaMode::decode("MASK"@) == Some(AlphaMode::Mask),
        AlphaMode::decode("OPAQUE"@) == Some(AlphaMode::Opaque),
        AlphaMode::decode(text) is Some <==> (text == "BLEND"@ || text == "MASK"@ || text
            == "OPAQUE"@),
        AlphaMode::decode(text) matches Some(mode) ==> mode.encode() == text,
{
    AlphaMode::lemma_decode_encode(AlphaMode::Blend);
    AlphaMode::lemma_decode_encode(AlphaMode::Mask);
    AlphaMode::lemma_decode_encode(AlphaMode::Opaque);
}

/// A normal texture that a material resolves to, taken as a plain texture
/// reference, is the reference that resolving the same reference record
/// directly gives: the same texture, read through the same coordinate set.
pub proof fn lemma_normal_texture_delegates(
    material: MaterialModel,
    normal: NormalTextureModel,
    direct: InfoModel,
)
    requires
        material.normal_texture() == Ok::<_, Fault>(Some(normal)),
        InfoModel::resolve(material.document, normal.record.info) == Some(direct),
    ensures
        material.record.normal_texture == Some(normal.record),
        normal.as_info() == direct,
        normal.texture == direct.texture,
        normal.as_info().tex_coord() == direct.tex_coord(),
        normal.as_info().record.extensions == direct.record.extensions,
        normal.as_info().record.extras == direct.record.extras,
{
}

/// An occlusion texture that a material resolves to, taken as a plain
/// texture reference, is the reference that resolving the same reference
/// record directly gives: the same texture, read through the same
/// coordinate set.
pub proof fn lemma_occlusion_texture_delegates(
    material: MaterialModel,
    occlusion: OcclusionTextureModel,
    direct: InfoModel,
)
    requires
        material.occlusion_texture() == Ok::<_, Fault>(Some(occlusion)),
        InfoModel::resolve(material.document, occlusion.record.info) == Some(direct),
    ensures
        material.record.occlusion_texture == Some(occlusion.record),
        occlusion.as_info() == direct,
        occlusion.texture == direct.texture,
        occlusion.as_info().tex_coord() == direct.tex_coord(),
        occlusion.as_info().record.extensions == direct.record.extensions,
        occlusion.as_info().record.extras == direct.record.extras,
{
}

/// Whatever texture and record a specialized reference is built from, a
/// plain reference built from the same texture and the same reference data
/// holds the same texture and the same coordinate set.
pub proof fn lemma_specializations_are_references(
    texture: TextureModel,
    normal: json::NormalTexture,
    occlusion: json::OcclusionTexture,
)
    ensures
        (NormalTextureModel { texture, record: normal }).as_info() == (InfoModel {
            texture,
            record: normal.info,
        }),
        (OcclusionTextureModel { texture, record: occlusion }).as_info() == (InfoModel {
            texture,
            record: occlusion.info,
        }),
        (NormalTextureModel { texture, record: normal }).as_info().tex_coord()
            == match normal.info.tex_coord {
            Some(set) => set,
            None => 0u32,
        },
        (OcclusionTextureModel { texture, record: occlusion }).as_info().tex_coord()
            == match occlusion.info.tex_coord {
            Some(set) => set,
            None => 0u32,
        },
{
}

} // verus!
