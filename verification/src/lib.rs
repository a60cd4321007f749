//! Read-only, typed views over the material records of a glTF document.
//!
//! A document stores its materials as records that refer to textures by
//! index. The views of this crate wrap a record together with the document
//! that owns it, and resolve such an index only when asked: against the
//! texture collection of the document, at the time of the call, and without
//! copying a record.
//!
//! * [`document::Document`] owns the records.
//! * [`material::Material`] and [`material::PbrMetallicRoughness`] wrap a
//!   record and hand out its values, the defaults filled in.
//! * [`texture::Info`], [`material::NormalTexture`] and
//!   [`material::OcclusionTexture`] pair a resolved [`texture::Texture`]
//!   with the reference record that named it.
//! * [`error::DocumentIntegrityViolation`] is what an accessor returns where
//!   a record does not fit the document: it never panics.
//!
//! Each view has a mathematical model, its `view()`, and each accessor is
//! specified as a function of that model. Numbers that the format writes as
//! floats are carried as bit patterns, see [`scalar::Scalar`].

pub mod document;
pub mod error;
pub mod json;
pub mod laws;
pub mod material;
pub mod scalar;
pub mod text;
pub mod texture;
