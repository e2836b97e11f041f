//! Tufts of grass on the field: one for each contribution that the six
//! counters count, each counter with a tuft of its own kind.

use crate::api::stats::ContributionsCollection;
use crate::render::objects::Objects;
use crate::render::renderable::{marks_text, push_sprite, Mark, Renderable};
use crate::utils::coordinate::{
    forced_placement, key_seed, lemma_placement_keeps_to_its_ranges, must_generate_coordinate,
    Rectangle, UNITS_PER_PIXEL,
};
use crate::utils::text::{decimal, push_decimal};
use vstd::prelude::*;
use vstd::string::StringExecFns;

verus! {

pub struct Grasses {
    pub user_name: String,
    pub width: u32,
    pub contributions: ContributionsCollection,
    pub dead_zone: Rectangle,
}

/// The kinds of grass.
pub const GRASS_KINDS: usize = 6;

/// Width of a tuft, in pixels: the field ends that far from the right edge.
pub const GRASS_WIDTH: u32 = 16;

/// Height of the field, in pixels.
pub const FIELD_HEIGHT: i64 = 300;

/// The sprite of a kind of grass, the kinds counted from 0.
pub open spec fn grass_of(kind: int) -> Objects {
    if kind == 0 {
        Objects::GrassOne
    } else if kind == 1 {
        Objects::GrassTwo
    } else if kind == 2 {
        Objects::GrassThree
    } else if kind == 3 {
        Objects::GrassFour
    } else if kind == 4 {
        Objects::GrassFive
    } else {
        Objects::GrassSix
    }
}

/// The counter that a kind of grass stands for: issues, pull requests,
/// reviews, and the repositories with each of the three.
pub open spec fn grass_count(contributions: ContributionsCollection, kind: int) -> int {
    if kind == 0 {
        contributions.total_issue_contributions as int
    } else if kind == 1 {
        contributions.total_pull_request_contributions as int
    } else if kind == 2 {
        contributions.total_pull_request_review_contributions as int
    } else if kind == 3 {
        contributions.total_repositories_with_contributed_issues as int
    } else if kind == 4 {
        contributions.total_repositories_with_contributed_pull_requests as int
    } else {
        contributions.total_repositories_with_contributed_pull_request_reviews as int
    }
}

/// The key of a tuft: the user, the kind counted from 1, and the number of
/// the tuft among those of its kind, counted from 0.
pub open spec fn grass_key(user_name: Seq<char>, kind: int, number: int) -> Seq<char> {
    user_name + "-grass-"@ + decimal((kind + 1) as nat) + "-"@ + decimal(number as nat)
}

/// The field of an image `width` pixels wide, in units: where the upper
/// left corner of a tuft may lie.
pub open spec fn grass_ranges(width: u32) -> ((i64, i64), (i64, i64)) {
    (
        (0i64, ((width - GRASS_WIDTH) * UNITS_PER_PIXEL) as i64),
        (0i64, (FIELD_HEIGHT * UNITS_PER_PIXEL) as i64),
    )
}

impl Grasses {
    /// A tuft: where its key places it on the field, off the zone if a
    /// point off the zone is found.
    pub open spec fn tuft(&self, kind: int, number: int) -> Mark {
        let ranges = grass_ranges(self.width);
        let point = forced_placement(
            key_seed(grass_key(self.user_name@, kind, number)),
            ranges.0,
            ranges.1,
            Some(self.dead_zone),
        );
        Mark::Sprite { x: point.0 as int, y: point.1 as int, object: grass_of(kind) }
    }

    /// The first `tufts` tufts of a kind.
    pub open spec fn kind_marks(&self, kind: int, tufts: int) -> Seq<Mark>
        decreases tufts,
    {
        if tufts <= 0 {
            Seq::empty()
        } else {
            self.kind_marks(kind, tufts - 1).push(self.tuft(kind, tufts - 1))
        }
    }

    /// The tufts of the first `kinds` kinds, as many of each kind as its
    /// counter says.
    pub open spec fn field_marks(&self, kinds: int) -> Seq<Mark>
        decreases kinds,
    {
        if kinds <= 0 {
            Seq::empty()
        } else {
            self.field_marks(kinds - 1) + self.kind_marks(
                kinds - 1,
                grass_count(self.contributions, kinds - 1),
            )
        }
    }

    /// All tufts, kind by kind.
    pub open spec fn marks(&self) -> Seq<Mark> {
        self.field_marks(GRASS_KINDS as int)
    }

    /// The grass of a user on an image `width` pixels wide, which is wider
    /// than a tuft.
    pub fn new(
        user_name: &str,
        width: u32,
        contributions: &ContributionsCollection,
        dead_zone: &Rectangle,
    ) -> (grasses: Self)
        requires
            width > GRASS_WIDTH,
        ensures
            grasses.wf(),
            grasses.user_name@ == user_name@,
            grasses.width == width,
            grasses.contributions == *contributions,
            grasses.dead_zone == *dead_zone,
    {
        Self {
            user_name: user_name.to_string(),
            width,
            contributions: *contributions,
            dead_zone: *dead_zone,
        }
    }

    fn count_of(&self, kind: usize) -> (count: i32)
        requires
            kind < GRASS_KINDS,
        ensures
            count == grass_count(self.contributions, kind as int),
    {
        match kind {
            0 => self.contributions.total_issue_contributions,
            1 => self.contributions.total_pull_request_contributions,
            2 => self.contributions.total_pull_request_review_contributions,
            3 => self.contributions.total_repositories_with_contributed_issues,
            4 => self.contributions.total_repositories_with_contributed_pull_requests,
            _ => self.contributions.total_repositories_with_contributed_pull_request_reviews,
        }
    }
}

/// The sprite of a kind of grass.
pub fn grass_for(kind: usize) -> (grass: Objects)
    ensures
        grass == grass_of(kind as int),
{
    match kind {
        0 => Objects::GrassOne,
        1 => Objects::GrassTwo,
        2 => Objects::GrassThree,
        3 => Objects::GrassFour,
        4 => Objects::GrassFive,
        _ => Objects::GrassSix,
    }
}

fn key_of_tuft(user_name: &str, kind: usize, number: i32) -> (key: String)
    requires
        kind < GRASS_KINDS,
        number >= 0,
    ensures
        key@ == grass_key(user_name@, kind as int, number as int),
{
    let mut key = user_name.to_string();
    key.append("-grass-");
    push_decimal(&mut key, kind as u64 + 1);
    key.append("-");
    push_decimal(&mut key, number as u64);
    key
}

impl Renderable for Grasses {
    /// The image is wider than a tuft.
    open spec fn wf(&self) -> bool {
        self.width > GRASS_WIDTH
    }

    open spec fn fragment(&self) -> Seq<char> {
        marks_text(self.marks())
    }

    fn render(&self) -> (text: String) {
        let x_max: i64 = (self.width - GRASS_WIDTH) as i64 * UNITS_PER_PIXEL;
        let y_max: i64 = FIELD_HEIGHT * UNITS_PER_PIXEL;
        let mut text = String::new();
        let mut kind: usize = 0;
        while kind < GRASS_KINDS
            invariant
                kind <= GRASS_KINDS,
                self.wf(),
                ((0i64, x_max), (0i64, y_max)) == grass_ranges(self.width),
                text@ == marks_text(self.field_marks(kind as int)),
            decreases GRASS_KINDS - kind,
        {
            let grass_type = grass_for(kind);
            let count = self.count_of(kind);
            let mut i: i32 = 0;
            while i < count
                invariant
                    0 <= i,
                    i <= count || i == 0,
                    kind < GRASS_KINDS,
                    self.wf(),
                    ((0i64, x_max), (0i64, y_max)) == grass_ranges(self.width),
                    grass_type == grass_of(kind as int),
                    count == grass_count(self.contributions, kind as int),
                    text@ == marks_text(
                        self.field_marks(kind as int) + self.kind_marks(kind as int, i as int),
                    ),
                decreases count - i,
            {
                let key = key_of_tuft(self.user_name.as_str(), kind, i);
                let (x, y) = must_generate_coordinate(
                    key.as_str(),
                    (0, x_max),
                    (0, y_max),
                    Some(&self.dead_zone),
                );
                proof {
                    let before = self.field_marks(kind as int) + self.kind_marks(
                        kind as int,
                        i as int,
                    );
                    let mark = self.tuft(kind as int, i as int);
                    assert(before.push(mark) =~= self.field_marks(kind as int) + self.kind_marks(
                        kind as int,
                        i + 1,
                    ));
                    assert(before.push(mark).drop_last() =~= before);
                }
                push_sprite(&mut text, x, y, grass_type);
                i += 1;
            }
            assert(self.kind_marks(kind as int, i as int) == self.kind_marks(
                kind as int,
                count as int,
            ));
            kind += 1;
        }
        text
    }
}

/// There are as many tufts as the counters count, a counter below zero
/// counting none; the tufts of a kind are sprites of that kind.
pub proof fn lemma_tufts_follow_the_counters(grasses: Grasses, kind: int, tufts: int)
    ensures
        grasses.kind_marks(kind, tufts).len() == if tufts > 0 {
            tufts
        } else {
            0
        },
        forall|i: int|
            0 <= i < grasses.kind_marks(kind, tufts).len() ==> grasses.kind_marks(kind, tufts)[i]
                == grasses.tuft(kind, i),
    decreases tufts,
{
    if tufts > 0 {
        lemma_tufts_follow_the_counters(grasses, kind, tufts - 1);
    }
}

/// Every tuft lies on the field: its upper left corner is on the image, at
/// least the width of a tuft from the right edge and no further down than
/// the field reaches.
pub proof fn lemma_tufts_lie_on_the_field(grasses: Grasses, kind: int, number: int)
    requires
        grasses.wf(),
    ensures
        grasses.tuft(kind, number) matches Mark::Sprite { x, y, object } && object == grass_of(kind)
            && 0 <= x < (grasses.width - GRASS_WIDTH) * UNITS_PER_PIXEL && 0 <= y < FIELD_HEIGHT
            * UNITS_PER_PIXEL,
{
    let ranges = grass_ranges(grasses.width);
    lemma_placement_keeps_to_its_ranges(
        key_seed(grass_key(grasses.user_name@, kind, number)),
        ranges.0,
        ranges.1,
        Some(grasses.dead_zone),
    );
}

} // verus!
