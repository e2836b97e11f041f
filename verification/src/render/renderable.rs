//! What a layer of the image is made of, and how it is written down.

use crate::render::objects::Objects;
use crate::utils::text::{decimal, push_decimal, push_units, units_text};
use vstd::prelude::*;
use vstd::string::StringExecFns;

verus! {

/// One thing that a layer puts on the image. Lengths are in units.
pub enum Mark {
    /// A sprite of the catalog, with its upper left corner at `(x, y)`.
    Sprite { x: int, y: int, object: Objects },
    /// A square of `side` pixels at `(x, y)`, filled with the colour `fill`
    /// and cut to the mask of `object`.
    Tint { x: int, y: int, side: nat, object: Objects, fill: Seq<char>, class: Seq<char> },
}

/// A part of the image that can be written down by itself.
pub trait Renderable {
    /// What the layer needs to hold for it to be written down.
    spec fn wf(&self) -> bool;

    /// The text of the layer.
    spec fn fragment(&self) -> Seq<char>;

    fn render(&self) -> (text: String)
        requires
            self.wf(),
        ensures
            text@ == self.fragment(),
    ;
}

/// The element that shows a sprite.
pub open spec fn sprite_text(x: int, y: int, object: Objects) -> Seq<char> {
    "<use x=\""@ + units_text(x) + "\" y=\""@ + units_text(y) + "\" xlink:href=\"#"@ + object.id()
        + "\" />"@
}

/// The element that tints a sprite.
pub open spec fn tint_text(
    x: int,
    y: int,
    side: nat,
    object: Objects,
    fill: Seq<char>,
    class: Seq<char>,
) -> Seq<char> {
    "<rect mask=\"url(#mask-"@ + object.id() + ")\" x=\""@ + units_text(x) + "\" y=\""@
        + units_text(y) + "\" width=\""@ + decimal(side) + "\" height=\""@ + decimal(side)
        + "\" fill=\""@ + fill + "\" class=\""@ + class + "\" />"@
}

/// The element that a mark is written as.
pub open spec fn mark_text(mark: Mark) -> Seq<char> {
    match mark {
        Mark::Sprite { x, y, object } => sprite_text(x, y, object),
        Mark::Tint { x, y, side, object, fill, class } => tint_text(x, y, side, object, fill, class),
    }
}

/// The elements of the marks, one after the other.
pub open spec fn marks_text(marks: Seq<Mark>) -> Seq<char>
    decreases marks.len(),
{
    if marks.len() == 0 {
        Seq::empty()
    } else {
        marks_text(marks.drop_last()) + mark_text(marks.last())
    }
}

/// The mark is a sprite of `object`.
pub open spec fn is_sprite_of(mark: Mark, object: Objects) -> bool {
    mark matches Mark::Sprite { object: shown, .. } && shown == object
}

/// How many of the marks are sprites of `object`.
pub open spec fn count_sprites(marks: Seq<Mark>, object: Objects) -> nat
    decreases marks.len(),
{
    if marks.len() == 0 {
        0
    } else {
        count_sprites(marks.drop_last(), object) + if is_sprite_of(marks.last(), object) {
            1nat
        } else {
            0nat
        }
    }
}

/// The text of marks put together is the texts put together.
pub proof fn lemma_marks_text_of_both(first: Seq<Mark>, second: Seq<Mark>)
    ensures
        marks_text(first + second) == marks_text(first) + marks_text(second),
    decreases second.len(),
{
    if second.len() == 0 {
        assert(first + second =~= first);
    } else {
        lemma_marks_text_of_both(first, second.drop_last());
        assert((first + second).drop_last() =~= first + second.drop_last());
        assert((first + second).last() == second.last());
    }
}

/// The sprites of marks put together are the sprites of both.
pub proof fn lemma_count_sprites_of_both(first: Seq<Mark>, second: Seq<Mark>, object: Objects)
    ensures
        count_sprites(first + second, object) == count_sprites(first, object) + count_sprites(
            second,
            object,
        ),
    decreases second.len(),
{
    if second.len() == 0 {
        assert(first + second =~= first);
    } else {
        lemma_count_sprites_of_both(first, second.drop_last(), object);
        assert((first + second).drop_last() =~= first + second.drop_last());
        assert((first + second).last() == second.last());
    }
}

/// Appends the element that shows a sprite.
pub fn push_sprite(out: &mut String, x: i64, y: i64, object: Objects)
    ensures
        final(out)@ == old(out)@ + sprite_text(x as int, y as int, object),
{
    out.append("<use x=\"");
    push_units(out, x);
    out.append("\" y=\"");
    push_units(out, y);
    out.append("\" xlink:href=\"#");
    out.append(object.to_string().as_str());
    out.append("\" />");
}

/// Appends the element that tints a sprite.
pub fn push_tint(out: &mut String, x: i64, y: i64, side: u32, object: Objects, fill: &str, class: &str)
    ensures
        final(out)@ == old(out)@ + tint_text(
            x as int,
            y as int,
            side as nat,
            object,
            fill@,
            class@,
        ),
{
    out.append("<rect mask=\"url(#mask-");
    out.append(object.to_string().as_str());
    out.append(")\" x=\"");
    push_units(out, x);
    out.append("\" y=\"");
    push_units(out, y);
    out.append("\" width=\"");
    push_decimal(out, side as u64);
    out.append("\" height=\"");
    push_decimal(out, side as u64);
    out.append("\" fill=\"");
    out.append(fill);
    out.append("\" class=\"");
    out.append(class);
    out.append("\" />");
}

} // verus!
