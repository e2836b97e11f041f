//! The image as a whole: a ground whose colour tells how much of the year
//! saw commits, the sprites and masks that the layers refer to, and the
//! layers, the first at the bottom.

use crate::constants::render::MASK_CLASS;
use crate::render::contribution_cells::ContributionCells;
use crate::render::grasses::Grasses;
use crate::render::home::Home;
use crate::render::objects::{catalog, Objects};
use crate::render::renderable::Renderable;
use crate::render::trees::Trees;
use crate::utils::color::{Rgb, FULL_SHARE};
use crate::utils::encode::{asset_text, bytes_of, encode_asset};
use crate::utils::text::{decimal, push_decimal};
use vstd::prelude::*;
use vstd::string::StringExecFns;

verus! {

/// A layer of the image.
pub enum Layer {
    ContributionCells(ContributionCells),
    Grasses(Grasses),
    Trees(Trees),
    Home(Home),
}

pub struct Farm {
    pub width: u32,
    pub height: u32,
    pub progress: u32,
    pub objects: Vec<Layer>,
    pub pictures: Vec<Option<Vec<u8>>>,
}

/// The colour of the ground in a year without commits.
pub open spec fn dirt_color() -> Rgb {
    Rgb { red: 0xe5, green: 0xc7, blue: 0x7c }
}

/// The colour of the ground in a year full of commits.
pub open spec fn grass_color() -> Rgb {
    Rgb { red: 0xa5, green: 0xc5, blue: 0x43 }
}

pub const DOCUMENT_OPEN: &'static str =
    "\n            <svg\n                xmlns=\"http://www.w3.org/2000/svg\"\n                xmlns:xlink=\"http://www.w3.org/1999/xlink\"\n                viewBox=\"0 0 ";

pub const DOCUMENT_STYLE: &'static str =
    "\"\n                fill=\"none\"\n                style=\"width: ";

pub const DOCUMENT_GROUND: &'static str =
    "px;\"\n            >\n               <rect width=\"100%\" height=\"100%\" fill=\"";

pub const DOCUMENT_CLASS: &'static str =
    "\" />\n               <defs>\n                    <style>\n                        .";

pub const DOCUMENT_BLEND: &'static str =
    " {\n                            mix-blend-mode: color;\n                            opacity: 0.8;\n                        }\n                    </style>\n               </defs>\n               <defs>";

pub const DOCUMENT_MASKS: &'static str = "</defs>\n               <defs>";

pub const DOCUMENT_LAYERS: &'static str = "</defs>\n               ";

pub const DOCUMENT_CLOSE: &'static str = "\n            </svg>\n            ";

pub const MASK_OPEN: &'static str = "\n                    <mask id=\"";

pub const MASK_SHAPE: &'static str =
    "\" maskUnits=\"objectBoundingBox\" maskContentUnits=\"objectBoundingBox\">\n                        <rect x=\"0\" y=\"0\" width=\"1\" height=\"1\" fill=\"#000\"/>\n                        <path d=\"";

pub const MASK_CLOSE: &'static str =
    "\" fill=\"#fff\"/>\n                    </mask>\n                    ";

/// The picture of the sprite at a place of the catalog: what the list
/// holds at that place, and none where the list is shorter.
pub open spec fn picture_at(pictures: Seq<Option<Vec<u8>>>, place: int) -> Option<Seq<u8>> {
    if 0 <= place < pictures.len() {
        bytes_of(&pictures[place])
    } else {
        None
    }
}

/// The element that defines a sprite under its id.
pub open spec fn definition_text(object: Objects, picture: Option<Seq<u8>>) -> Seq<char> {
    "<image id=\""@ + object.id() + "\" width=\""@ + decimal(object.size().0 as nat)
        + "\" height=\""@ + decimal(object.size().1 as nat)
        + "\" xlink:href=\"data:image/png;base64,"@ + asset_text(picture) + "\" />"@
}

/// The definitions of the first `sprites` sprites of the catalog.
pub open spec fn definitions_text(pictures: Seq<Option<Vec<u8>>>, sprites: int) -> Seq<char>
    decreases sprites,
{
    if sprites <= 0 {
        Seq::empty()
    } else {
        definitions_text(pictures, sprites - 1) + definition_text(
            catalog()[sprites - 1],
            picture_at(pictures, sprites - 1),
        )
    }
}

/// The element that defines the mask of a sprite; nothing for a sprite
/// without a mask.
pub open spec fn mask_text(object: Objects) -> Seq<char> {
    match object.mask_path() {
        Some(path) => MASK_OPEN@ + object.mask_id()->0 + MASK_SHAPE@ + path + MASK_CLOSE@,
        None => Seq::empty(),
    }
}

/// The masks of the first `sprites` sprites of the catalog.
pub open spec fn masks_text(sprites: int) -> Seq<char>
    decreases sprites,
{
    if sprites <= 0 {
        Seq::empty()
    } else {
        masks_text(sprites - 1) + mask_text(catalog()[sprites - 1])
    }
}

/// The texts of the first `layers` layers, one after the other.
pub open spec fn layers_text(objects: Seq<Layer>, layers: int) -> Seq<char>
    decreases layers,
{
    if layers <= 0 {
        Seq::empty()
    } else {
        layers_text(objects, layers - 1) + objects[layers - 1].fragment()
    }
}

fn push_definition(out: &mut String, object: Objects, picture: &Option<Vec<u8>>)
    ensures
        final(out)@ == old(out)@ + definition_text(object, bytes_of(picture)),
{
    let (width, height) = object.to_size();
    out.append("<image id=\"");
    out.append(object.to_string().as_str());
    out.append("\" width=\"");
    push_decimal(out, width as u64);
    out.append("\" height=\"");
    push_decimal(out, height as u64);
    out.append("\" xlink:href=\"data:image/png;base64,");
    out.append(encode_asset(picture).as_str());
    out.append("\" />");
}

fn push_mask(out: &mut String, object: Objects)
    ensures
        final(out)@ == old(out)@ + mask_text(object),
{
    match object.get_mask_path() {
        Some(mask_path) => {
            match object.get_mask_id() {
                Some(mask_id) => {
                    out.append(MASK_OPEN);
                    out.append(mask_id.as_str());
                    out.append(MASK_SHAPE);
                    out.append(mask_path);
                    out.append(MASK_CLOSE);
                },
                None => {},
            }
        },
        None => {},
    }
}

impl Renderable for Layer {
    open spec fn wf(&self) -> bool {
        match self {
            Layer::ContributionCells(cells) => cells.wf(),
            Layer::Grasses(grasses) => grasses.wf(),
            Layer::Trees(trees) => trees.wf(),
            Layer::Home(home) => home.wf(),
        }
    }

    open spec fn fragment(&self) -> Seq<char> {
        match self {
            Layer::ContributionCells(cells) => cells.fragment(),
            Layer::Grasses(grasses) => grasses.fragment(),
            Layer::Trees(trees) => trees.fragment(),
            Layer::Home(home) => home.fragment(),
        }
    }

    fn render(&self) -> (text: String) {
        match self {
            Layer::ContributionCells(cells) => cells.render(),
            Layer::Grasses(grasses) => grasses.render(),
            Layer::Trees(trees) => trees.render(),
            Layer::Home(home) => home.render(),
        }
    }
}

impl Farm {
    /// Every layer can be written down, and the progress is a share.
    pub open spec fn wf(&self) -> bool {
        &&& self.progress <= FULL_SHARE
        &&& forall|i: int| 0 <= i < self.objects.len() ==> (#[trigger] self.objects[i]).wf()
    }

    /// The colour of the ground: as far from dirt to grass as the year has
    /// progressed.
    pub open spec fn background(&self) -> Rgb {
        dirt_color().mixed(grass_color(), self.progress)
    }

    /// The image: its frame in the size of the farm, the ground, the style
    /// of the tints, a definition for every sprite of the catalog, a mask
    /// for every sprite that has one, and the layers in the order in which
    /// they were added.
    pub open spec fn document(&self) -> Seq<char> {
        DOCUMENT_OPEN@ + decimal(self.width as nat) + " "@ + decimal(self.height as nat)
            + DOCUMENT_STYLE@ + decimal(self.width as nat) + "px; height: "@ + decimal(
            self.height as nat,
        ) + DOCUMENT_GROUND@ + self.background().hex() + DOCUMENT_CLASS@ + MASK_CLASS@
            + DOCUMENT_BLEND@ + definitions_text(self.pictures@, catalog().len() as int)
            + DOCUMENT_MASKS@ + masks_text(catalog().len() as int) + DOCUMENT_LAYERS@
            + layers_text(self.objects@, self.objects.len() as int) + DOCUMENT_CLOSE@
    }

    /// An empty farm on bare dirt, without pictures.
    pub fn new(width: u32, height: u32) -> (farm: Self)
        ensures
            farm.wf(),
            farm.width == width,
            farm.height == height,
            farm.progress == 0,
            farm.objects@ == Seq::<Layer>::empty(),
            farm.pictures@ == Seq::<Option<Vec<u8>>>::empty(),
    {
        Self { width, height, progress: 0, objects: Vec::new(), pictures: Vec::new() }
    }

    /// Puts a layer on top of those that are there.
    pub fn add_object(&mut self, object: Layer)
        requires
            old(self).wf(),
            object.wf(),
        ensures
            final(self).wf(),
            final(self).objects@ == old(self).objects@.push(object),
            final(self).width == old(self).width,
            final(self).height == old(self).height,
            final(self).progress == old(self).progress,
            final(self).pictures == old(self).pictures,
    {
        self.objects.push(object);
    }

    /// Sets how far the year has progressed, in hundredths of a percent.
    pub fn set_progress(&mut self, progress: u32)
        requires
            old(self).wf(),
            progress <= FULL_SHARE,
        ensures
            final(self).wf(),
            final(self).progress == progress,
            final(self).objects == old(self).objects,
            final(self).width == old(self).width,
            final(self).height == old(self).height,
            final(self).pictures == old(self).pictures,
    {
        self.progress = progress;
    }

    /// Sets the pictures of the sprites: the bytes of the file of each
    /// sprite of the catalog, in the catalog's order, and `None` for a
    /// picture that is missing.
    pub fn set_pictures(&mut self, pictures: Vec<Option<Vec<u8>>>)
        requires
            old(self).wf(),
        ensures
            final(self).wf(),
            final(self).pictures == pictures,
            final(self).objects == old(self).objects,
            final(self).width == old(self).width,
            final(self).height == old(self).height,
            final(self).progress == old(self).progress,
    {
        self.pictures = pictures;
    }

    fn register_objects(&self) -> (text: String)
        ensures
            text@ == definitions_text(self.pictures@, catalog().len() as int),
    {
        let all = Objects::iter();
        let missing: Option<Vec<u8>> = None;
        let mut text = String::new();
        let mut i: usize = 0;
        while i < all.len()
            invariant
                i <= all.len(),
                all@ == catalog(),
                missing is None,
                text@ == definitions_text(self.pictures@, i as int),
            decreases all.len() - i,
        {
            let picture = if i < self.pictures.len() {
                &self.pictures[i]
            } else {
                &missing
            };
            push_definition(&mut text, all[i], picture);
            i += 1;
        }
        text
    }

    fn register_masks(&self) -> (text: String)
        ensures
            text@ == masks_text(catalog().len() as int),
    {
        let all = Objects::iter();
        let mut text = String::new();
        let mut i: usize = 0;
        while i < all.len()
            invariant
                i <= all.len(),
                all@ == catalog(),
                text@ == masks_text(i as int),
            decreases all.len() - i,
        {
            push_mask(&mut text, all[i]);
            i += 1;
        }
        text
    }

    /// Writes the image down: see [`Farm::document`].
    pub fn render(&self) -> (svg: String)
        requires
            self.wf(),
        ensures
            svg@ == self.document(),
    {
        let dirt_color = Rgb::new(0xe5, 0xc7, 0x7c);
        let grass_color = Rgb::new(0xa5, 0xc5, 0x43);
        let background_color = dirt_color.interpolate(&grass_color, self.progress);
        let mut svg = String::new();
        svg.append(DOCUMENT_OPEN);
        push_decimal(&mut svg, self.width as u64);
        svg.append(" ");
        push_decimal(&mut svg, self.height as u64);
        svg.append(DOCUMENT_STYLE);
        push_decimal(&mut svg, self.width as u64);
        svg.append("px; height: ");
        push_decimal(&mut svg, self.height as u64);
        svg.append(DOCUMENT_GROUND);
        svg.append(background_color.to_string().as_str());
        svg.append(DOCUMENT_CLASS);
        svg.append(MASK_CLASS);
        svg.append(DOCUMENT_BLEND);
        svg.append(self.register_objects().as_str());
        svg.append(DOCUMENT_MASKS);
        svg.append(self.register_masks().as_str());
        svg.append(DOCUMENT_LAYERS);
        let ghost head = svg@;
        let mut i: usize = 0;
        while i < self.objects.len()
            invariant
                i <= self.objects.len(),
                self.wf(),
                svg@ == head + layers_text(self.objects@, i as int),
            decreases self.objects.len() - i,
        {
            svg.append(self.objects[i].render().as_str());
            i += 1;
        }
        svg.append(DOCUMENT_CLOSE);
        svg
    }
}

/// Every sprite that a layer may show is defined in the image: the
/// definitions go through the whole catalog, and the catalog holds every
/// sprite.
pub proof fn lemma_every_sprite_is_defined(pictures: Seq<Option<Vec<u8>>>, object: Objects)
    ensures
        definitions_text(pictures, object.position() + 1) == definitions_text(
            pictures,
            object.position(),
        ) + definition_text(object, picture_at(pictures, object.position())),
        object.position() < catalog().len(),
        masks_text(object.position() + 1) == masks_text(object.position()) + mask_text(object),
{
}

} // verus!
