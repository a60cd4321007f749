//! What is reported when a record does not fit the document it is read
//! against.

use vstd::prelude::*;
use crate::json;

verus! {

/// The field of a record that could not be read.
#[derive(Clone, Copy, Debug, PartialEq, Eq, Structural)]
pub enum Field {
    /// `alphaMode` of a material.
    AlphaMode,
    /// `normalTexture` of a material.
    NormalTexture,
    /// `occlusionTexture` of a material.
    OcclusionTexture,
    /// `emissiveTexture` of a material.
    EmissiveTexture,
    /// `baseColorTexture` of a metallic-roughness block.
    BaseColorTexture,
    /// `metallicRoughnessTexture` of a metallic-roughness block.
    MetallicRoughnessTexture,
}

/// The record that holds the offending field.
#[derive(Clone, Copy, Debug, PartialEq, Eq)]
pub enum Record<'a> {
    /// A material record.
    Material(&'a json::Material),
    /// The metallic-roughness block of a material.
    PbrMetallicRoughness(&'a json::PbrMetallicRoughness),
}

/// What is wrong with the field.
#[derive(Clone, Copy, Debug, PartialEq, Eq, Structural)]
pub enum Fault {
    /// A texture index at or beyond the length of the texture collection.
    TextureIndexOutOfRange {
        /// The index found in the record.
        index: usize,
        /// The number of textures in the document.
        count: usize,
    },
    /// An alpha mode other than `"OPAQUE"`, `"MASK"` and `"BLEND"`.
    UnknownAlphaMode,
}

/// A record that does not fit its document: which record, which field of
/// it, and what is wrong there.
#[derive(Clone, Copy, Debug, PartialEq, Eq)]
pub struct DocumentIntegrityViolation<'a> {
    /// The record that holds the offending field.
    pub record: Record<'a>,
    /// The offending field.
    pub field: Field,
    /// What is wrong with it.
    pub fault: Fault,
}

impl<'a> DocumentIntegrityViolation<'a> {
    /// The name of the material at fault, where the record is a material
    /// and has a name.
    pub open spec fn spec_material_name(self) -> Option<Seq<char>> {
        match self.record {
            Record::Material(material) => match material.name {
                Some(name) => Some(name@),
                None => None,
            },
            Record::PbrMetallicRoughness(_) => None,
        }
    }

    /// The name of the material at fault, where the record is a material
    /// and has a name.
    pub fn material_name(&self) -> (name: Option<&'a str>)
        ensures
            name is Some <==> self.spec_material_name() is Some,
            name matches Some(s) ==> Some(s@) == self.spec_material_name(),
    {
        match self.record {
            Record::Material(material) => match &material.name {
                Some(name) => Some(name.as_str()),
                None => None,
            },
            Record::PbrMetallicRoughness(_) => None,
        }
    }
}

} // verus!
