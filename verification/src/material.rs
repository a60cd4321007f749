//! Views over material records.

use vstd::prelude::*;
use crate::document::Document;
use crate::error::{DocumentIntegrityViolation, Fault, Field, Record};
use crate::json;
use crate::scalar::Scalar;
use crate::text::str_eq;
use crate::texture::{Info, InfoModel, Texture, TextureModel};

verus! {

/// The alpha rendering mode of a material.
#[derive(Clone, Copy, Debug, PartialEq, Eq, Structural)]
pub enum AlphaMode {
    /// The alpha value composites the material over the background.
    Blend,
    /// The material is fully opaque or fully transparent, by the cutoff.
    Mask,
    /// The alpha value is ignored.
    Opaque,
}

impl AlphaMode {
    /// The mode that a string of the document names, if it names one.
    pub open spec fn decode(text: Seq<char>) -> Option<AlphaMode> {
        if text == "BLEND"@ {
            Some(AlphaMode::Blend)
        } else if text == "MASK"@ {
            Some(AlphaMode::Mask)
        } else if text == "OPAQUE"@ {
            Some(AlphaMode::Opaque)
        } else {
            None
        }
    }

    /// The string that names the mode in a document.
    pub open spec fn encode(self) -> Seq<char> {
        match self {
            AlphaMode::Blend => "BLEND"@,
            AlphaMode::Mask => "MASK"@,
            AlphaMode::Opaque => "OPAQUE"@,
        }
    }

    /// Reads a mode from its name: `"BLEND"`, `"MASK"` or `"OPAQUE"`, and
    /// nothing else.
    pub fn parse(text: &str) -> (mode: Option<AlphaMode>)
        ensures
            mode == AlphaMode::decode(text@),
    {
        if str_eq(text, "BLEND") {
            Some(AlphaMode::Blend)
        } else if str_eq(text, "MASK") {
            Some(AlphaMode::Mask)
        } else if str_eq(text, "OPAQUE") {
            Some(AlphaMode::Opaque)
        } else {
            None
        }
    }

    /// The name of the mode, as a document writes it.
    pub fn as_str(&self) -> (text: &'static str)
        ensures
            text@ == self.encode(),
            AlphaMode::decode(text@) == Some(*self),
    {
        proof {
            AlphaMode::lemma_decode_encode(*self);
        }
        match self {
            AlphaMode::Blend => "BLEND",
            AlphaMode::Mask => "MASK",
            AlphaMode::Opaque => "OPAQUE",
        }
    }

    /// Reading the name of a mode gives the mode back.
    pub proof fn lemma_decode_encode(mode: AlphaMode)
        ensures
            AlphaMode::decode(mode.encode()) == Some(mode),
    {
        reveal_strlit("BLEND");
        reveal_strlit("MASK");
        reveal_strlit("OPAQUE");
        assert("BLEND"@.len() == 5);
        assert("MASK"@.len() == 4);
        assert("OPAQUE"@.len() == 6);
    }
}

/// What a [`NormalTexture`] stands for.
pub struct NormalTextureModel {
    /// The resolved texture.
    pub texture: TextureModel,
    /// The normal texture record.
    pub record: json::NormalTexture,
}

impl NormalTextureModel {
    /// The plain texture reference inside the normal texture.
    pub open spec fn as_info(self) -> InfoModel {
        InfoModel { texture: self.texture, record: self.record.info }
    }
}

/// What an [`OcclusionTexture`] stands for.
pub struct OcclusionTextureModel {
    /// The resolved texture.
    pub texture: TextureModel,
    /// The occlusion texture record.
    pub record: json::OcclusionTexture,
}

impl OcclusionTextureModel {
    /// The plain texture reference inside the occlusion texture.
    pub open spec fn as_info(self) -> InfoModel {
        InfoModel { texture: self.texture, record: self.record.info }
    }

    /// The occlusion strength: the one in the record, or `1.0` where the
    /// record holds none.
    pub open spec fn strength(self) -> Scalar {
        Scalar::spec_or(self.record.strength, Scalar::spec_one())
    }
}

/// What a [`PbrMetallicRoughness`] stands for: a metallic-roughness record
/// and the document it is read against.
pub struct PbrMetallicRoughnessModel {
    /// The document that texture indices are resolved against.
    pub document: Document,
    /// The metallic-roughness record.
    pub record: json::PbrMetallicRoughness,
}

/// What a [`Material`] stands for: a material record and the document it is
/// read against.
pub struct MaterialModel {
    /// The document that texture indices are resolved against.
    pub document: Document,
    /// The material record.
    pub record: json::Material,
}

/// What reading an optional texture reference against a document gives:
/// nothing where there is no reference, the resolved reference where its
/// index is in range, and a fault where it is not.
pub open spec fn resolve_optional(document: Document, reference: Option<json::TextureInfo>) -> Result<
    Option<InfoModel>,
    Fault,
> {
    match reference {
        None => Ok(None),
        Some(record) => match InfoModel::resolve(document, record) {
            Some(info) => Ok(Some(info)),
            None => Err(
                Fault::TextureIndexOutOfRange {
                    index: record.index,
                    count: document.textures.len(),
                },
            ),
        },
    }
}

impl PbrMetallicRoughnessModel {
    /// The metalness: the one in the record, or `1.0` where the record
    /// holds none.
    pub open spec fn metallic_factor(self) -> Scalar {
        Scalar::spec_or(self.record.metallic_factor, Scalar::spec_one())
    }

    /// The roughness: the one in the record, or `1.0` where the record
    /// holds none.
    pub open spec fn roughness_factor(self) -> Scalar {
        Scalar::spec_or(self.record.roughness_factor, Scalar::spec_one())
    }

    /// What the base color texture resolves to.
    pub open spec fn base_color_texture(self) -> Result<Option<InfoModel>, Fault> {
        resolve_optional(self.document, self.record.base_color_texture)
    }

    /// What the metallic-roughness texture resolves to.
    pub open spec fn metallic_roughness_texture(self) -> Result<Option<InfoModel>, Fault> {
        resolve_optional(self.document, self.record.metallic_roughness_texture)
    }
}

impl MaterialModel {
    /// The alpha cutoff: the one in the record, or `0.5` where the record
    /// holds none.
    pub open spec fn alpha_cutoff(self) -> Scalar {
        Scalar::spec_or(self.record.alpha_cutoff, Scalar::spec_half())
    }

    /// The alpha mode that the record names, if it names one.
    pub open spec fn alpha_mode(self) -> Option<AlphaMode> {
        AlphaMode::decode(self.record.alpha_mode@)
    }

    /// The metallic-roughness block, where the record holds one.
    pub open spec fn pbr_metallic_roughness(self) -> Option<PbrMetallicRoughnessModel> {
        match self.record.pbr_metallic_roughness {
            Some(record) => Some(PbrMetallicRoughnessModel { document: self.document, record }),
            None => None,
        }
    }

    /// What the normal texture resolves to.
    pub open spec fn normal_texture(self) -> Result<Option<NormalTextureModel>, Fault> {
        match self.record.normal_texture {
            None => Ok(None),
            Some(record) => match resolve_optional(self.document, Some(record.info)) {
                Ok(Some(info)) => Ok(Some(NormalTextureModel { texture: info.texture, record })),
                Ok(None) => Ok(None),
                Err(fault) => Err(fault),
            },
        }
    }

    /// What the occlusion texture resolves to.
    pub open spec fn occlusion_texture(self) -> Result<Option<OcclusionTextureModel>, Fault> {
        match self.record.occlusion_texture {
            None => Ok(None),
            Some(record) => match resolve_optional(self.document, Some(record.info)) {
                Ok(Some(info)) => Ok(Some(OcclusionTextureModel { texture: info.texture, record })),
                Ok(None) => Ok(None),
                Err(fault) => Err(fault),
            },
        }
    }

    /// What the emissive texture resolves to.
    pub open spec fn emissive_texture(self) -> Result<Option<InfoModel>, Fault> {
        resolve_optional(self.document, self.record.emissive_texture)
    }
}

/// Resolves a texture reference that `field` of `record` holds, and names
/// the two where the index is out of range.
fn resolve_reference<'a>(
    document: &'a Document,
    json: &'a json::TextureInfo,
    record: Record<'a>,
    field: Field,
) -> (outcome: Result<Info<'a>, DocumentIntegrityViolation<'a>>)
    ensures
        match outcome {
            Ok(info) => resolve_optional(*document, Some(*json)) == Ok::<_, Fault>(Some(info@)),
            Err(violation) => {
                &&& resolve_optional(*document, Some(*json)) == Err::<Option<InfoModel>, _>(
                    violation.fault,
                )
                &&& violation.record == record
                &&& violation.field == field
            },
        },
{
    match Info::resolve(document, json) {
        Some(info) => Ok(info),
        None => Err(
            DocumentIntegrityViolation {
                record,
                field,
                fault: Fault::TextureIndexOutOfRange {
                    index: json.index,
                    count: document.texture_count(),
                },
            },
        ),
    }
}

/// The material appearance of a primitive.
#[derive(Clone, Copy, Debug)]
pub struct Material<'a> {
    document: &'a Document,
    json: &'a json::Material,
}

impl<'a> View for Material<'a> {
    type V = MaterialModel;

    closed spec fn view(&self) -> MaterialModel {
        MaterialModel { document: *self.document, record: *self.json }
    }
}

impl<'a> Material<'a> {
    /// The view of `json`, read against `document`.
    pub fn new(document: &'a Document, json: &'a json::Material) -> (material: Self)
        ensures
            material@ == (MaterialModel { document: *document, record: *json }),
    {
        Material { document, json }
    }

    /// The material record.
    pub fn as_json(&self) -> (json: &'a json::Material)
        ensures
            *json == self@.record,
    {
        self.json
    }

    /// The alpha cutoff value of the material: `0.5` where the record holds
    /// none.
    pub fn alpha_cutoff(&self) -> (cutoff: Scalar)
        ensures
            cutoff == self@.alpha_cutoff(),
            self@.record.alpha_cutoff is None ==> cutoff.bits == 0x3F00_0000u32,
    {
        Scalar::or(self.json.alpha_cutoff, Scalar::half())
    }

    /// The alpha rendering mode of the material. A record whose mode is
    /// none of `"OPAQUE"`, `"MASK"` and `"BLEND"` is reported.
    pub fn alpha_mode(&self) -> (mode: Result<AlphaMode, DocumentIntegrityViolation<'a>>)
        ensures
            match mode {
                Ok(m) => self@.alpha_mode() == Some(m),
                Err(violation) => {
                    &&& self@.alpha_mode() is None
                    &&& violation.record == Record::Material(&self@.record)
                    &&& violation.field == Field::AlphaMode
                    &&& violation.fault == Fault::UnknownAlphaMode
                },
            },
    {
        match AlphaMode::parse(self.json.alpha_mode.as_str()) {
            Some(mode) => Ok(mode),
            None => Err(
                DocumentIntegrityViolation {
                    record: Record::Material(self.json),
                    field: Field::AlphaMode,
                    fault: Fault::UnknownAlphaMode,
                },
            ),
        }
    }

    /// Whether the material is double-sided.
    pub fn double_sided(&self) -> (double_sided: bool)
        ensures
            double_sided == self@.record.double_sided,
    {
        self.json.double_sided
    }

    /// Optional user-defined name of the material.
    pub fn name(&self) -> (name: Option<&'a str>)
        ensures
            name is Some <==> self@.record.name is Some,
            name matches Some(s) ==> s@ == self@.record.name->0@,
    {
        match &self.json.name {
            Some(s) => Some(s.as_str()),
            None => None,
        }
    }

    /// The parameters of the metallic-roughness model, where the record
    /// holds them.
    pub fn pbr_metallic_roughness(&self) -> (pbr: Option<PbrMetallicRoughness<'a>>)
        ensures
            match pbr {
                Some(p) => self@.pbr_metallic_roughness() == Some(p@),
                None => self@.pbr_metallic_roughness() is None,
            },
    {
        match &self.json.pbr_metallic_roughness {
            Some(json) => Some(PbrMetallicRoughness::new(self.document, json)),
            None => None,
        }
    }

    /// The tangent-space normal map, resolved against the document. A
    /// texture index out of range is reported.
    pub fn normal_texture(&self) -> (outcome: Result<
        Option<NormalTexture<'a>>,
        DocumentIntegrityViolation<'a>,
    >)
        ensures
            match outcome {
                Ok(Some(t)) => self@.normal_texture() == Ok::<_, Fault>(Some(t@)),
                Ok(None) => self@.normal_texture() == Ok::<Option<NormalTextureModel>, Fault>(None),
                Err(violation) => {
                    &&& self@.normal_texture() == Err::<Option<NormalTextureModel>, _>(
                        violation.fault,
                    )
                    &&& violation.record == Record::Material(&self@.record)
                    &&& violation.field == Field::NormalTexture
                },
            },
    {
        match &self.json.normal_texture {
            Some(json) => {
                let info = resolve_reference(
                    self.document,
                    &json.info,
                    Record::Material(self.json),
                    Field::NormalTexture,
                )?;
                Ok(Some(NormalTexture::new(info.texture(), json)))
            },
            None => Ok(None),
        }
    }

    /// The occlusion map, resolved against the document. A texture index
    /// out of range is reported.
    pub fn occlusion_texture(&self) -> (outcome: Result<
        Option<OcclusionTexture<'a>>,
        DocumentIntegrityViolation<'a>,
    >)
        ensures
            match outcome {
                Ok(Some(t)) => self@.occlusion_texture() == Ok::<_, Fault>(Some(t@)),
                Ok(None) => self@.occlusion_texture() == Ok::<Option<OcclusionTextureModel>, Fault>(
                    None,
                ),
                Err(violation) => {
                    &&& self@.occlusion_texture() == Err::<Option<OcclusionTextureModel>, _>(
                        violation.fault,
                    )
                    &&& violation.record == Record::Material(&self@.record)
                    &&& violation.field == Field::OcclusionTexture
                },
            },
    {
        match &self.json.occlusion_texture {
            Some(json) => {
                let info = resolve_reference(
                    self.document,
                    &json.info,
                    Record::Material(self.json),
                    Field::OcclusionTexture,
                )?;
                Ok(Some(OcclusionTexture::new(info.texture(), json)))
            },
            None => Ok(None),
        }
    }

    /// The emissive map, resolved against the document. A texture index out
    /// of range is reported.
    pub fn emissive_texture(&self) -> (outcome: Result<
        Option<Info<'a>>,
        DocumentIntegrityViolation<'a>,
    >)
        ensures
            match outcome {
                Ok(Some(t)) => self@.emissive_texture() == Ok::<_, Fault>(Some(t@)),
                Ok(None) => self@.emissive_texture() == Ok::<Option<InfoModel>, Fault>(None),
                Err(violation) => {
                    &&& self@.emissive_texture() == Err::<Option<InfoModel>, _>(violation.fault)
                    &&& violation.record == Record::Material(&self@.record)
                    &&& violation.field == Field::EmissiveTexture
                },
            },
    {
        match &self.json.emissive_texture {
            Some(json) => {
                let info = resolve_reference(
                    self.document,
                    json,
                    Record::Material(self.json),
                    Field::EmissiveTexture,
                )?;
                Ok(Some(info))
            },
            None => Ok(None),
        }
    }

    /// The emissive color of the material.
    pub fn emissive_factor(&self) -> (factor: [Scalar; 3])
        ensures
            factor == self@.record.emissive_factor,
    {
        self.json.emissive_factor
    }

    /// Extension-specific data.
    pub fn extensions(&self) -> (extensions: &'a json::Extensions)
        ensures
            *extensions == self@.record.extensions,
    {
        &self.json.extensions
    }

    /// Application-specific data.
    pub fn extras(&self) -> (extras: &'a json::Extras)
        ensures
            *extras == self@.record.extras,
    {
        &self.json.extras
    }
}

/// The parameters of the metallic-roughness material model.
#[derive(Clone, Copy, Debug)]
pub struct PbrMetallicRoughness<'a> {
    document: &'a Document,
    json: &'a json::PbrMetallicRoughness,
}

impl<'a> View for PbrMetallicRoughness<'a> {
    type V = PbrMetallicRoughnessModel;

    closed spec fn view(&self) -> PbrMetallicRoughnessModel {
        PbrMetallicRoughnessModel { document: *self.document, record: *self.json }
    }
}

impl<'a> PbrMetallicRoughness<'a> {
    /// The view of `json`, read against `document`.
    pub fn new(document: &'a Document, json: &'a json::PbrMetallicRoughness) -> (pbr: Self)
        ensures
            pbr@ == (PbrMetallicRoughnessModel { document: *document, record: *json }),
    {
        PbrMetallicRoughness { document, json }
    }

    /// The metallic-roughness record.
    pub fn as_json(&self) -> (json: &'a json::PbrMetallicRoughness)
        ensures
            *json == self@.record,
    {
        self.json
    }

    /// The base color factor of the material.
    pub fn base_color_factor(&self) -> (factor: [Scalar; 4])
        ensures
            factor == self@.record.base_color_factor,
    {
        self.json.base_color_factor
    }

    /// The base color texture, resolved against the document. A texture
    /// index out of range is reported.
    pub fn base_color_texture(&self) -> (outcome: Result<
        Option<Info<'a>>,
        DocumentIntegrityViolation<'a>,
    >)
        ensures
            match outcome {
                Ok(Some(t)) => self@.base_color_texture() == Ok::<_, Fault>(Some(t@)),
                Ok(None) => self@.base_color_texture() == Ok::<Option<InfoModel>, Fault>(None),
                Err(violation) => {
                    &&& self@.base_color_texture() == Err::<Option<InfoModel>, _>(violation.fault)
                    &&& violation.record == Record::PbrMetallicRoughness(&self@.record)
                    &&& violation.field == Field::BaseColorTexture
                },
            },
    {
        match &self.json.base_color_texture {
            Some(json) => {
                let info = resolve_reference(
                    self.document,
                    json,
                    Record::PbrMetallicRoughness(self.json),
                    Field::BaseColorTexture,
                )?;
                Ok(Some(info))
            },
            None => Ok(None),
        }
    }

    /// The metalness of the material: `1.0` where the record holds none.
    pub fn metallic_factor(&self) -> (factor: Scalar)
        ensures
            factor == self@.metallic_factor(),
            self@.record.metallic_factor is None ==> factor.bits == 0x3F80_0000u32,
    {
        Scalar::or(self.json.metallic_factor, Scalar::one())
    }

    /// The roughness of the material: `1.0` where the record holds none.
    pub fn roughness_factor(&self) -> (factor: Scalar)
        ensures
            factor == self@.roughness_factor(),
            self@.record.roughness_factor is None ==> factor.bits == 0x3F80_0000u32,
    {
        Scalar::or(self.json.roughness_factor, Scalar::one())
    }

    /// The metallic-roughness texture, resolved against the document. A
    /// texture index out of range is reported.
    pub fn metallic_roughness_texture(&self) -> (outcome: Result<
        Option<Info<'a>>,
        DocumentIntegrityViolation<'a>,
    >)
        ensures
            match outcome {
                Ok(Some(t)) => self@.metallic_roughness_texture() == Ok::<_, Fault>(Some(t@)),
                Ok(None) => self@.metallic_roughness_texture() == Ok::<Option<InfoModel>, Fault>(
                    None,
                ),
                Err(violation) => {
                    &&& self@.metallic_roughness_texture() == Err::<Option<InfoModel>, _>(
                        violation.fault,
                    )
                    &&& violation.record == Record::PbrMetallicRoughness(&self@.record)
                    &&& violation.field == Field::MetallicRoughnessTexture
                },
            },
    {
        match &self.json.metallic_roughness_texture {
            Some(json) => {
                let info = resolve_reference(
                    self.document,
                    json,
                    Record::PbrMetallicRoughness(self.json),
                    Field::MetallicRoughnessTexture,
                )?;
                Ok(Some(info))
            },
            None => Ok(None),
        }
    }

    /// Extension-specific data.
    pub fn extensions(&self) -> (extensions: &'a json::Extensions)
        ensures
            *extensions == self@.record.extensions,
    {
        &self.json.extensions
    }

    /// Application-specific data.
    pub fn extras(&self) -> (extras: &'a json::Extras)
        ensures
            *extras == self@.record.extras,
    {
        &self.json.extras
    }
}

/// The normal texture of a material: a texture reference with a scale.
#[derive(Clone, Copy, Debug)]
pub struct NormalTexture<'a> {
    texture: Texture<'a>,
    json: &'a json::NormalTexture,
}

impl<'a> View for NormalTexture<'a> {
    type V = NormalTextureModel;

    closed spec fn view(&self) -> NormalTextureModel {
        NormalTextureModel { texture: self.texture@, record: *self.json }
    }
}

impl<'a> NormalTexture<'a> {
    /// Pairs a resolved texture with the normal texture record it came
    /// from.
    pub fn new(texture: Texture<'a>, json: &'a json::NormalTexture) -> (normal: Self)
        ensures
            normal@ == (NormalTextureModel { texture: texture@, record: *json }),
    {
        NormalTexture { texture, json }
    }

    /// The normal texture record.
    pub fn as_json(&self) -> (json: &'a json::NormalTexture)
        ensures
            *json == self@.record,
    {
        self.json
    }

    /// The normal texture as a plain texture reference.
    pub fn as_info(&self) -> (info: Info<'a>)
        ensures
            info@ == self@.as_info(),
    {
        Info::new(self.texture, &self.json.info)
    }

    /// The scalar multiplier applied to each normal vector of the texture.
    pub fn scale(&self) -> (scale: Scalar)
        ensures
            scale == self@.record.scale,
    {
        self.json.scale
    }

    /// The set index of the texture's `TEXCOORD` attribute.
    pub fn tex_coord(&self) -> (set: u32)
        ensures
            set == self@.as_info().tex_coord(),
            self@.record.info.tex_coord is None ==> set == 0,
    {
        self.as_info().tex_coord()
    }

    /// Extension-specific data.
    pub fn extensions(&self) -> (extensions: &'a json::Extensions)
        ensures
            *extensions == self@.as_info().record.extensions,
    {
        self.as_info().extensions()
    }

    /// Application-specific data.
    pub fn extras(&self) -> (extras: &'a json::Extras)
        ensures
            *extras == self@.as_info().record.extras,
    {
        self.as_info().extras()
    }
}

/// The occlusion texture of a material: a texture reference with a
/// strength.
#[derive(Clone, Copy, Debug)]
pub struct OcclusionTexture<'a> {
    texture: Texture<'a>,
    json: &'a json::OcclusionTexture,
}

impl<'a> View for OcclusionTexture<'a> {
    type V = OcclusionTextureModel;

    closed spec fn view(&self) -> OcclusionTextureModel {
        OcclusionTextureModel { texture: self.texture@, record: *self.json }
    }
}

impl<'a> OcclusionTexture<'a> {
    /// Pairs a resolved texture with the occlusion texture record it came
    /// from.
    pub fn new(texture: Texture<'a>, json: &'a json::OcclusionTexture) -> (occlusion: Self)
        ensures
            occlusion@ == (OcclusionTextureModel { texture: texture@, record: *json }),
    {
        OcclusionTexture { texture, json }
    }

    /// The occlusion texture record.
    pub fn as_json(&self) -> (json: &'a json::OcclusionTexture)
        ensures
            *json == self@.record,
    {
        self.json
    }

    /// The occlusion texture as a plain texture reference.
    pub fn as_info(&self) -> (info: Info<'a>)
        ensures
            info@ == self@.as_info(),
    {
        Info::new(self.texture, &self.json.info)
    }

    /// The scalar multiplier controlling the amount of occlusion applied:
    /// `1.0` where the record holds none.
    pub fn strength(&self) -> (strength: Scalar)
        ensures
            strength == self@.strength(),
            self@.record.strength is None ==> strength.bits == 0x3F80_0000u32,
    {
        Scalar::or(self.json.strength, Scalar::one())
    }

    /// The set index of the texture's `TEXCOORD` attribute.
    pub fn tex_coord(&self) -> (set: u32)
        ensures
            set == self@.as_info().tex_coord(),
            self@.record.info.tex_coord is None ==> set == 0,
    {
        self.as_info().tex_coord()
    }

    /// Extension-specific data.
    pub fn extensions(&self) -> (extensions: &'a json::Extensions)
        ensures
            *extensions == self@.as_info().record.extensions,
    {
        self.as_info().extensions()
    }

    /// Application-specific data.
    pub fn extras(&self) -> (extras: &'a json::Extras)
        ensures
            *extras == self@.as_info().record.extras,
    {
        self.as_info().extras()
    }
}

impl<'a> std::ops::Deref for NormalTexture<'a> {
    type Target = Texture<'a>;

    fn deref(&self) -> (texture: &Texture<'a>)
        ensures
            texture@ == self@.texture,
            texture@ == self@.as_info().texture,
    {
        &self.texture
    }
}

impl<'a> std::ops::Deref for OcclusionTexture<'a> {
    type Target = Texture<'a>;

    fn deref(&self) -> (texture: &Texture<'a>)
        ensures
            texture@ == self@.texture,
            texture@ == self@.as_info().texture,
    {
        &self.texture
    }
}

} // verus!
