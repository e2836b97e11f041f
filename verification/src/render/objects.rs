//! The catalog of sprites: a fixed list, each entry with the id that the
//! image refers to it by, the file that holds its picture, and its size.

use vstd::prelude::*;
use vstd::string::StringExecFns;

verus! {

#[derive(Debug, Clone, Copy, Hash, PartialEq, Eq, Structural)]
pub enum Objects {
    FlowerOne,
    FlowerTwo,
    FlowerThree,
    FlowerFour,
    TreeOne,
    TreeTwo,
    GrassOne,
    GrassTwo,
    GrassThree,
    GrassFour,
    GrassFive,
    GrassSix,
    Dirt,
}

/// Outline of the petals of the fourth flower, in the unit square: the one
/// mask of the catalog.
pub const FLOWER_FOUR_MASK: &'static str =
    "M0.0625 0.3125h0.06375v-0.0625H0.5v-0.061875L0.5625 0.1875v-0.0625h0.25v0.061875L0.875 0.1875v0.0625h0.0625v0.0625h0.0625v0.438125L0.9375 0.75v0.0625h-0.3125v0.0625h-0.0625v0.0625h-0.121875L0.4375 0.875h-0.0625v-0.0625h-0.25v-0.0625h-0.0625v-0.4375z";

/// Every sprite, in the order in which the catalog lists them.
pub open spec fn catalog() -> Seq<Objects> {
    seq![
        Objects::FlowerOne,
        Objects::FlowerTwo,
        Objects::FlowerThree,
        Objects::FlowerFour,
        Objects::TreeOne,
        Objects::TreeTwo,
        Objects::GrassOne,
        Objects::GrassTwo,
        Objects::GrassThree,
        Objects::GrassFour,
        Objects::GrassFive,
        Objects::GrassSix,
        Objects::Dirt,
    ]
}

impl Objects {
    /// The id under which the image defines the sprite and refers to it.
    pub open spec fn id(self) -> Seq<char> {
        match self {
            Objects::FlowerOne => "flower-1"@,
            Objects::FlowerTwo => "flower-2"@,
            Objects::FlowerThree => "flower-3"@,
            Objects::FlowerFour => "flower-4"@,
            Objects::TreeOne => "tree-1"@,
            Objects::TreeTwo => "tree-2"@,
            Objects::GrassOne => "grass-1"@,
            Objects::GrassTwo => "grass-2"@,
            Objects::GrassThree => "grass-3"@,
            Objects::GrassFour => "grass-4"@,
            Objects::GrassFive => "grass-5"@,
            Objects::GrassSix => "grass-6"@,
            Objects::Dirt => "dirt"@,
        }
    }

    /// The file of the sprite's picture, below the directory of assets.
    pub open spec fn asset_path(self) -> Seq<char> {
        match self {
            Objects::FlowerOne => "flowers/1-1.png"@,
            Objects::FlowerTwo => "flowers/1-2.png"@,
            Objects::FlowerThree => "flowers/1-3.png"@,
            Objects::FlowerFour => "flowers/1-4.png"@,
            Objects::TreeOne => "objects/tree1.png"@,
            Objects::TreeTwo => "objects/tree2.png"@,
            Objects::GrassOne => "field/grass1.png"@,
            Objects::GrassTwo => "field/grass2.png"@,
            Objects::GrassThree => "field/grass3.png"@,
            Objects::GrassFour => "field/grass4.png"@,
            Objects::GrassFive => "field/grass5.png"@,
            Objects::GrassSix => "field/grass6.png"@,
            Objects::Dirt => "field/dirt2.png"@,
        }
    }

    /// Width and height of the sprite, in pixels.
    pub open spec fn size(self) -> (u32, u32) {
        match self {
            Objects::TreeOne | Objects::TreeTwo => (35, 60),
            _ => (16, 16),
        }
    }

    /// The outline by which the sprite is tinted, if it is tinted at all:
    /// the fourth flower is, and no other sprite.
    pub open spec fn mask_path(self) -> Option<Seq<char>> {
        match self {
            Objects::FlowerFour => Some(FLOWER_FOUR_MASK@),
            _ => None,
        }
    }

    /// The id of the sprite's mask: "mask-" and the sprite's id.
    pub open spec fn mask_id(self) -> Option<Seq<char>> {
        match self.mask_path() {
            Some(_) => Some("mask-"@ + self.id()),
            None => None,
        }
    }

    /// The sprite's place in the catalog.
    pub open spec fn position(self) -> int {
        match self {
            Objects::FlowerOne => 0,
            Objects::FlowerTwo => 1,
            Objects::FlowerThree => 2,
            Objects::FlowerFour => 3,
            Objects::TreeOne => 4,
            Objects::TreeTwo => 5,
            Objects::GrassOne => 6,
            Objects::GrassTwo => 7,
            Objects::GrassThree => 8,
            Objects::GrassFour => 9,
            Objects::GrassFive => 10,
            Objects::GrassSix => 11,
            Objects::Dirt => 12,
        }
    }

    pub fn to_string(&self) -> (id: String)
        ensures
            id@ == self.id(),
    {
        match self {
            Objects::FlowerOne => "flower-1".to_string(),
            Objects::FlowerTwo => "flower-2".to_string(),
            Objects::FlowerThree => "flower-3".to_string(),
            Objects::FlowerFour => "flower-4".to_string(),
            Objects::TreeOne => "tree-1".to_string(),
            Objects::TreeTwo => "tree-2".to_string(),
            Objects::GrassOne => "grass-1".to_string(),
            Objects::GrassTwo => "grass-2".to_string(),
            Objects::GrassThree => "grass-3".to_string(),
            Objects::GrassFour => "grass-4".to_string(),
            Objects::GrassFive => "grass-5".to_string(),
            Objects::GrassSix => "grass-6".to_string(),
            Objects::Dirt => "dirt".to_string(),
        }
    }

    pub fn to_path(&self) -> (path: String)
        ensures
            path@ == self.asset_path(),
    {
        match self {
            Objects::FlowerOne => "flowers/1-1.png".to_string(),
            Objects::FlowerTwo => "flowers/1-2.png".to_string(),
            Objects::FlowerThree => "flowers/1-3.png".to_string(),
            Objects::FlowerFour => "flowers/1-4.png".to_string(),
            Objects::TreeOne => "objects/tree1.png".to_string(),
            Objects::TreeTwo => "objects/tree2.png".to_string(),
            Objects::GrassOne => "field/grass1.png".to_string(),
            Objects::GrassTwo => "field/grass2.png".to_string(),
            Objects::GrassThree => "field/grass3.png".to_string(),
            Objects::GrassFour => "field/grass4.png".to_string(),
            Objects::GrassFive => "field/grass5.png".to_string(),
            Objects::GrassSix => "field/grass6.png".to_string(),
            Objects::Dirt => "field/dirt2.png".to_string(),
        }
    }

    pub fn to_size(&self) -> (size: (u32, u32))
        ensures
            size == self.size(),
    {
        match self {
            Objects::TreeOne | Objects::TreeTwo => (35, 60),
            _ => (16, 16),
        }
    }

    /// The whole catalog, in its order.
    pub fn iter() -> (all: Vec<Objects>)
        ensures
            all@ == catalog(),
    {
        let mut all: Vec<Objects> = Vec::new();
        all.push(Objects::FlowerOne);
        all.push(Objects::FlowerTwo);
        all.push(Objects::FlowerThree);
        all.push(Objects::FlowerFour);
        all.push(Objects::TreeOne);
        all.push(Objects::TreeTwo);
        all.push(Objects::GrassOne);
        all.push(Objects::GrassTwo);
        all.push(Objects::GrassThree);
        all.push(Objects::GrassFour);
        all.push(Objects::GrassFive);
        all.push(Objects::GrassSix);
        all.push(Objects::Dirt);
        all
    }

    pub fn get_mask_path(&self) -> (path: Option<&'static str>)
        ensures
            path is Some == self.mask_path() is Some,
            path is Some == (*self == Objects::FlowerFour),
            path matches Some(p) ==> self.mask_path() == Some(p@),
    {
        match self {
            Objects::FlowerFour => Some(FLOWER_FOUR_MASK),
            _ => None,
        }
    }

    pub fn get_mask_id(&self) -> (id: Option<String>)
        ensures
            id is Some == self.mask_id() is Some,
            id is Some == (*self == Objects::FlowerFour),
            id matches Some(text) ==> self.mask_id() == Some(text@),
    {
        match self.get_mask_path() {
            Some(_) => {
                let mut id = "mask-".to_string();
                id.append(self.to_string().as_str());
                Some(id)
            },
            None => None,
        }
    }
}

/// The catalog lists every sprite, each at its position and nowhere else.
pub proof fn lemma_catalog_is_complete(object: Objects)
    ensures
        0 <= object.position() < catalog().len(),
        catalog()[object.position()] == object,
        forall|i: int| 0 <= i < catalog().len() && catalog()[i] == object ==> i == object.position(),
{
}

/// The sprites of the catalog that have a mask.
pub open spec fn masked() -> Seq<Objects> {
    catalog().filter(|object: Objects| object.mask_path() is Some)
}

/// Sprites without a mask leave nothing when those with a mask are picked.
proof fn lemma_none_of_them_has_a_mask(sprites: Seq<Objects>)
    requires
        forall|i: int| 0 <= i < sprites.len() ==> sprites[i] != Objects::FlowerFour,
    ensures
        sprites.filter(|object: Objects| object.mask_path() is Some) == Seq::<Objects>::empty(),
    decreases sprites.len(),
{
    reveal(Seq::filter);
    if sprites.len() > 0 {
        lemma_none_of_them_has_a_mask(sprites.drop_last());
        assert(sprites.last() != Objects::FlowerFour);
    }
}

/// The catalog is what comes before the fourth flower, the fourth flower,
/// and what comes after it.
proof fn lemma_catalog_in_three_parts() -> (parts: (Seq<Objects>, Seq<Objects>))
    ensures
        catalog() == parts.0 + seq![Objects::FlowerFour] + parts.1,
        forall|i: int| 0 <= i < parts.0.len() ==> parts.0[i] != Objects::FlowerFour,
        forall|i: int| 0 <= i < parts.1.len() ==> parts.1[i] != Objects::FlowerFour,
{
    let before = catalog().take(3);
    let after = catalog().skip(4);
    assert(catalog() =~= before + seq![Objects::FlowerFour] + after);
    (before, after)
}

/// Exactly one sprite of the catalog has a mask, and it is a flower: the
/// fourth. A sprite has an id for its mask where it has a mask, and
/// nowhere else.
pub proof fn lemma_one_sprite_has_a_mask(object: Objects)
    ensures
        masked() == seq![Objects::FlowerFour],
        masked().len() == 1,
        object.mask_path() is Some <==> object == Objects::FlowerFour,
        object.mask_id() is Some <==> object.mask_path() is Some,
{
    let has_mask = |object: Objects| object.mask_path() is Some;
    let (before, after) = lemma_catalog_in_three_parts();
    let fourth = seq![Objects::FlowerFour];
    lemma_none_of_them_has_a_mask(before);
    lemma_none_of_them_has_a_mask(after);
    assert(fourth.filter(has_mask) =~= fourth) by {
        reveal(Seq::filter);
        lemma_none_of_them_has_a_mask(fourth.drop_last());
    }
    assert(masked() =~= fourth) by {
        Seq::filter_distributes_over_add(before + fourth, after, has_mask);
        Seq::filter_distributes_over_add(before, fourth, has_mask);
    }
}

/// Two sprites with the same id are the same sprite.
pub proof fn lemma_ids_are_distinct(a: Objects, b: Objects)
    requires
        a.id() == b.id(),
    ensures
        a == b,
{
    reveal_strlit("flower-1");
    reveal_strlit("flower-2");
    reveal_strlit("flower-3");
    reveal_strlit("flower-4");
    reveal_strlit("tree-1");
    reveal_strlit("tree-2");
    reveal_strlit("grass-1");
    reveal_strlit("grass-2");
    reveal_strlit("grass-3");
    reveal_strlit("grass-4");
    reveal_strlit("grass-5");
    reveal_strlit("grass-6");
    reveal_strlit("dirt");
    if a != b {
        let s = a.id();
        let t = b.id();
        assert(s.len() != t.len() || s[0] != t[0] || s[s.len() - 1] != t[t.len() - 1]);
    }
}

} // verus!
