//! The document: the single owner of every record.

use vstd::prelude::*;
use crate::json;
use crate::material::Material;
use crate::texture::{Texture, TextureModel};

verus! {

/// A parsed document. It owns the records; every view borrows from it.
#[derive(Clone, Debug, PartialEq, Eq)]
pub struct Document {
    /// The texture collection, in document order.
    pub textures: Vec<json::Texture>,
    /// The material collection, in document order.
    pub materials: Vec<json::Material>,
}

impl Document {
    /// What a texture index resolves to: the entry at that position, or
    /// nothing where the collection is too short.
    pub open spec fn resolve(self, index: usize) -> Option<TextureModel> {
        if index < self.textures@.len() {
            Some(
                TextureModel {
                    document: self,
                    index: index as nat,
                    record: self.textures@[index as int],
                },
            )
        } else {
            None
        }
    }

    /// A document over the given collections.
    pub fn new(textures: Vec<json::Texture>, materials: Vec<json::Material>) -> (document: Document)
        ensures
            document.textures == textures,
            document.materials == materials,
    {
        Document { textures, materials }
    }

    /// The number of entries in the texture collection.
    pub fn texture_count(&self) -> (count: usize)
        ensures
            count == self.textures@.len(),
    {
        self.textures.len()
    }

    /// Resolves a texture index against the texture collection.
    pub fn texture<'a>(&'a self, index: usize) -> (texture: Option<Texture<'a>>)
        ensures
            texture is Some <==> index < self.textures@.len(),
            match texture {
                Some(t) => Some(t@) == self.resolve(index),
                None => self.resolve(index) is None,
            },
    {
        if index < self.textures.len() {
            Some(Texture::new(self, index, &self.textures[index]))
        } else {
            None
        }
    }

    /// The texture collection as views, in document order.
    pub fn textures<'a>(&'a self) -> (views: Vec<Texture<'a>>)
        ensures
            views@.len() == self.textures@.len(),
            forall|i: int|
                0 <= i < views@.len() ==> Some(#[trigger] views@[i]@) == self.resolve(i as usize),
    {
        let mut views: Vec<Texture<'a>> = Vec::new();
        let mut i: usize = 0;
        while i < self.textures.len()
            invariant
                i <= self.textures@.len(),
                views@.len() == i,
                forall|k: int|
                    0 <= k < i ==> Some(#[trigger] views@[k]@) == self.resolve(k as usize),
            decreases self.textures@.len() - i,
        {
            views.push(Texture::new(self, i, &self.textures[i]));
            i += 1;
        }
        views
    }

    /// The view of the material at `index`, or nothing where the material
    /// collection is too short.
    pub fn material<'a>(&'a self, index: usize) -> (material: Option<Material<'a>>)
        ensures
            material is Some <==> index < self.materials@.len(),
            material matches Some(m) ==> m@.document == *self && m@.record
                == self.materials@[index as int],
    {
        if index < self.materials.len() {
            Some(Material::new(self, &self.materials[index]))
        } else {
            None
        }
    }
}

} // verus!
