//! Sprites: the named textures of the interface.
use vstd::prelude::*;

verus! {

/// A named texture.
#[derive(Debug, Default, PartialEq, Eq)]
pub struct SpriteType {
    pub name: String,
    pub texture_file: String,
}

/// The mathematical model of a [`SpriteType`].
pub struct SpriteTypeView {
    pub name: Seq<char>,
    pub texture_file: Seq<char>,
}

impl View for SpriteType {
    type V = SpriteTypeView;

    open spec fn view(&self) -> SpriteTypeView {
        SpriteTypeView { name: self.name@, texture_file: self.texture_file@ }
    }
}

} // verus!
