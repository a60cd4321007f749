//! Resolved textures, and references to them.

use vstd::prelude::*;
use crate::document::Document;
use crate::json;

verus! {

/// What a [`Texture`] stands for: one entry of a document's texture
/// collection.
pub struct TextureModel {
    /// The document that owns the entry.
    pub document: Document,
    /// The position of the entry in the texture collection.
    pub index: nat,
    /// The entry itself.
    pub record: json::Texture,
}

impl TextureModel {
    /// The entry is the one that stands at `index` in `document`.
    pub open spec fn well_formed(self) -> bool {
        &&& self.index < self.document.textures@.len()
        &&& self.record == self.document.textures@[self.index as int]
    }
}

/// A handle to one entry of a document's texture collection.
#[derive(Clone, Copy, Debug)]
pub struct Texture<'a> {
    document: &'a Document,
    index: usize,
    json: &'a json::Texture,
}

impl<'a> View for Texture<'a> {
    type V = TextureModel;

    closed spec fn view(&self) -> TextureModel {
        TextureModel { document: *self.document, index: self.index as nat, record: *self.json }
    }
}

impl<'a> Texture<'a> {
    #[verifier::type_invariant]
    spec fn resolved(self) -> bool {
        self@.well_formed()
    }

    /// The handle to the entry at `index` of `document`, which `json` is.
    pub(crate) fn new(document: &'a Document, index: usize, json: &'a json::Texture) -> (texture:
        Self)
        requires
            index < document.textures@.len(),
            *json == document.textures@[index as int],
        ensures
            texture@ == (TextureModel { document: *document, index: index as nat, record: *json }),
            Some(texture@) == document.resolve(index),
    {
        Texture { document, index, json }
    }

    /// The document that owns the texture.
    pub fn document(&self) -> (document: &'a Document)
        ensures
            *document == self@.document,
    {
        self.document
    }

    /// The position of the texture in the document's texture collection.
    pub fn index(&self) -> (index: usize)
        ensures
            index == self@.index,
            index < self@.document.textures@.len(),
    {
        proof {
            use_type_invariant(self);
        }
        self.index
    }

    /// The record that the handle points at.
    pub fn as_json(&self) -> (json: &'a json::Texture)
        ensures
            *json == self@.record,
            *json == self@.document.textures@[self@.index as int],
    {
        proof {
            use_type_invariant(self);
        }
        self.json
    }

    /// Optional user-defined name of the texture.
    pub fn name(&self) -> (name: Option<&'a str>)
        ensures
            name is Some <==> self@.record.name is Some,
            name matches Some(s) ==> s@ == self@.record.name->0@,
    {
        match &self.json.name {
            Some(s) => Some(s.as_str()),
            None => None,
        }
    }
}

/// What an [`Info`] stands for: a texture reference record, and the texture
/// that it was resolved to.
pub struct InfoModel {
    /// The resolved texture.
    pub texture: TextureModel,
    /// The reference record.
    pub record: json::TextureInfo,
}

impl InfoModel {
    /// What a texture reference resolves to in `document`: the reference
    /// with the texture at its index, or nothing where the index is out of
    /// range.
    pub open spec fn resolve(document: Document, record: json::TextureInfo) -> Option<InfoModel> {
        match document.resolve(record.index) {
            Some(texture) => Some(InfoModel { texture, record }),
            None => None,
        }
    }

    /// The set index of the `TEXCOORD` attribute: the one in the record, or
    /// `0` where the record holds none.
    pub open spec fn tex_coord(self) -> u32 {
        match self.record.tex_coord {
            Some(set) => set,
            None => 0,
        }
    }
}

/// A reference to a texture: the texture, and the UV set it is read
/// through.
#[derive(Clone, Copy, Debug)]
pub struct Info<'a> {
    texture: Texture<'a>,
    json: &'a json::TextureInfo,
}

impl<'a> View for Info<'a> {
    type V = InfoModel;

    closed spec fn view(&self) -> InfoModel {
        InfoModel { texture: self.texture@, record: *self.json }
    }
}

impl<'a> Info<'a> {
    /// Pairs a resolved texture with the reference record it came from.
    pub fn new(texture: Texture<'a>, json: &'a json::TextureInfo) -> (info: Self)
        ensures
            info@ == (InfoModel { texture: texture@, record: *json }),
    {
        Info { texture, json }
    }

    /// Resolves a reference record against the texture collection of
    /// `document`.
    pub fn resolve(document: &'a Document, json: &'a json::TextureInfo) -> (info: Option<Self>)
        ensures
            info is Some <==> json.index < document.textures@.len(),
            match info {
                Some(i) => Some(i@) == InfoModel::resolve(*document, *json),
                None => InfoModel::resolve(*document, *json) is None,
            },
    {
        match document.texture(json.index) {
            Some(texture) => Some(Info::new(texture, json)),
            None => None,
        }
    }

    /// The referenced texture.
    pub fn texture(&self) -> (texture: Texture<'a>)
        ensures
            texture@ == self@.texture,
    {
        self.texture
    }

    /// The reference record.
    pub fn as_json(&self) -> (json: &'a json::TextureInfo)
        ensures
            *json == self@.record,
    {
        self.json
    }

    /// The set index of the texture's `TEXCOORD` attribute.
    pub fn tex_coord(&self) -> (set: u32)
        ensures
            set == self@.tex_coord(),
            self@.record.tex_coord is None ==> set == 0,
    {
        match self.json.tex_coord {
            Some(set) => set,
            None => 0,
        }
    }

    /// Extension-specific data.
    pub fn extensions(&self) -> (extensions: &'a json::Extensions)
        ensures
            *extensions == self@.record.extensions,
    {
        &self.json.extensions
    }

    /// Application-specific data.
    pub fn extras(&self) -> (extras: &'a json::Extras)
        ensures
            *extras == self@.record.extras,
    {
        &self.json.extras
    }
}

impl<'a> std::ops::Deref for Info<'a> {
    type Target = Texture<'a>;

    fn deref(&self) -> (texture: &Texture<'a>)
        ensures
            texture@ == self@.texture,
    {
        &self.texture
    }
}

} // verus!
