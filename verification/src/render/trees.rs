//! Trees on the field: one for each repository with commits, the ones
//! further up drawn first, so that a tree stands in front of those behind it.

use crate::render::objects::Objects;
use crate::render::renderable::{marks_text, push_sprite, Mark, Renderable};
use crate::utils::coordinate::{
    forced_placement, in_ranges, key_seed, lemma_placement_keeps_to_its_ranges,
    must_generate_coordinate, Rectangle, UNITS_PER_PIXEL,
};
use crate::utils::text::{decimal, push_decimal, push_units, units_text};
use vstd::prelude::*;
use vstd::string::StringExecFns;

verus! {

pub struct Trees {
    pub user_name: String,
    pub width: u32,
    pub count: i32,
    pub dead_zone: Rectangle,
}

/// Space between a tree and the left and upper edge, in pixels.
pub const TREE_MARGIN: i64 = 5;

/// Space that a tree keeps to the right edge, in pixels.
pub const TREE_RESERVE: u32 = 50;

/// How far down a tree may stand, in pixels.
pub const TREE_LINE: i64 = 230;

/// The key of a tree: the user and the tree's number, counted from 0.
pub open spec fn tree_key(user_name: Seq<char>, number: int) -> Seq<char> {
    user_name + "-tree-"@ + decimal(number as nat)
}

/// The key by which the kind of a tree is drawn: the user and where the
/// tree stands from left to right.
pub open spec fn tree_kind_key(user_name: Seq<char>, x: int) -> Seq<char> {
    user_name + "-tree-kind-"@ + units_text(x)
}

/// Where the upper left corner of a tree may lie on an image `width` pixels
/// wide, in units.
pub open spec fn tree_ranges(width: u32) -> ((i64, i64), (i64, i64)) {
    (
        (
            (TREE_MARGIN * UNITS_PER_PIXEL) as i64,
            ((width - TREE_RESERVE) * UNITS_PER_PIXEL) as i64,
        ),
        ((TREE_MARGIN * UNITS_PER_PIXEL) as i64, (TREE_LINE * UNITS_PER_PIXEL) as i64),
    )
}

/// The kind of the tree of a user that stands at `x`: a number from one to
/// under two pixels is drawn by the tree's key and rounded; one is the first
/// kind, two the second.
pub open spec fn tree_kind(user_name: Seq<char>, x: int) -> Objects {
    let unit = (UNITS_PER_PIXEL as i64, (2 * UNITS_PER_PIXEL) as i64);
    let drawn = forced_placement(key_seed(tree_kind_key(user_name, x)), unit, unit, None).0;
    if 2 * drawn < 3 * UNITS_PER_PIXEL {
        Objects::TreeOne
    } else {
        Objects::TreeTwo
    }
}

/// The points with `point` put behind the last of them that is not further
/// down than it.
pub open spec fn placed_in_order(sorted: Seq<(i64, i64)>, point: (i64, i64)) -> Seq<(i64, i64)>
    decreases sorted.len(),
{
    if sorted.len() > 0 && sorted.last().1 > point.1 {
        placed_in_order(sorted.drop_last(), point).push(sorted.last())
    } else {
        sorted.push(point)
    }
}

/// The points from the top down; points at the same height stay in their
/// order.
pub open spec fn sorted_by_y(points: Seq<(i64, i64)>) -> Seq<(i64, i64)>
    decreases points.len(),
{
    if points.len() == 0 {
        points
    } else {
        placed_in_order(sorted_by_y(points.drop_last()), points.last())
    }
}

/// No point is further down than one that comes after it.
pub open spec fn ordered_by_y(points: Seq<(i64, i64)>) -> bool {
    forall|i: int, j: int| 0 <= i <= j < points.len() ==> points[i].1 <= points[j].1
}

impl Trees {
    /// Where the key of a tree places it, off the zone if a point off the
    /// zone is found.
    pub open spec fn tree_point(&self, number: int) -> (i64, i64) {
        let ranges = tree_ranges(self.width);
        forced_placement(
            key_seed(tree_key(self.user_name@, number)),
            ranges.0,
            ranges.1,
            Some(self.dead_zone),
        )
    }

    /// The points of the first `trees` trees, in the order of their numbers.
    pub open spec fn tree_points(&self, trees: int) -> Seq<(i64, i64)>
        decreases trees,
    {
        if trees <= 0 {
            Seq::empty()
        } else {
            self.tree_points(trees - 1).push(self.tree_point(trees - 1))
        }
    }

    /// The trees that stand at the first `trees` of the points.
    pub open spec fn tree_marks(&self, points: Seq<(i64, i64)>, trees: int) -> Seq<Mark>
        decreases trees,
    {
        if trees <= 0 {
            Seq::empty()
        } else {
            self.tree_marks(points, trees - 1).push(
                Mark::Sprite {
                    x: points[trees - 1].0 as int,
                    y: points[trees - 1].1 as int,
                    object: tree_kind(self.user_name@, points[trees - 1].0 as int),
                },
            )
        }
    }

    /// All trees, from the top down.
    pub open spec fn marks(&self) -> Seq<Mark> {
        let points = sorted_by_y(self.tree_points(self.count as int));
        self.tree_marks(points, points.len() as int)
    }

    /// The trees of a user on an image `width` pixels wide, which leaves
    /// room for a tree between the margin and the reserve.
    pub fn new(user_name: &str, width: u32, count: i32, dead_zone: &Rectangle) -> (trees: Self)
        requires
            width > TREE_RESERVE + TREE_MARGIN,
        ensures
            trees.wf(),
            trees.user_name@ == user_name@,
            trees.width == width,
            trees.count == count,
            trees.dead_zone == *dead_zone,
    {
        Self { user_name: user_name.to_string(), width, count, dead_zone: *dead_zone }
    }
}

fn key_of_tree(user_name: &str, number: i32) -> (key: String)
    requires
        number >= 0,
    ensures
        key@ == tree_key(user_name@, number as int),
{
    let mut key = user_name.to_string();
    key.append("-tree-");
    push_decimal(&mut key, number as u64);
    key
}

/// The kind of the tree of a user that stands at `x`: see [`tree_kind`].
pub fn kind_of_tree(user_name: &str, x: i64) -> (kind: Objects)
    ensures
        kind == tree_kind(user_name@, x as int),
{
    let mut key = user_name.to_string();
    key.append("-tree-kind-");
    push_units(&mut key, x);
    let unit = (UNITS_PER_PIXEL, 2 * UNITS_PER_PIXEL);
    let (tree_kind, _) = must_generate_coordinate(key.as_str(), unit, unit, None);
    if 2 * tree_kind < 3 * UNITS_PER_PIXEL {
        Objects::TreeOne
    } else {
        Objects::TreeTwo
    }
}

/// What lies behind the place of a point does not matter for the place.
proof fn lemma_placed_before_the_rest(sorted: Seq<(i64, i64)>, point: (i64, i64), from: int)
    requires
        0 <= from <= sorted.len(),
        forall|i: int| from <= i < sorted.len() ==> sorted[i].1 > point.1,
    ensures
        placed_in_order(sorted, point) == placed_in_order(sorted.take(from), point) + sorted.skip(
            from,
        ),
    decreases sorted.len() - from,
{
    if from == sorted.len() {
        assert(sorted.take(from) =~= sorted);
        assert(placed_in_order(sorted, point) + sorted.skip(from) =~= placed_in_order(
            sorted,
            point,
        ));
    } else {
        lemma_placed_before_the_rest(sorted.drop_last(), point, from);
        assert(sorted.drop_last().take(from) =~= sorted.take(from));
        assert(sorted.drop_last().skip(from).push(sorted.last()) =~= sorted.skip(from));
        assert((placed_in_order(sorted.take(from), point) + sorted.drop_last().skip(from)).push(
            sorted.last(),
        ) =~= placed_in_order(sorted.take(from), point) + sorted.skip(from));
    }
}

fn place_in_order(sorted: &mut Vec<(i64, i64)>, point: (i64, i64))
    ensures
        final(sorted)@ == placed_in_order(old(sorted)@, point),
{
    let mut place: usize = sorted.len();
    while place > 0 && sorted[place - 1].1 > point.1
        invariant
            place <= sorted.len(),
            sorted@ == old(sorted)@,
            forall|i: int| place <= i < sorted.len() ==> sorted[i].1 > point.1,
        decreases place,
    {
        place -= 1;
    }
    proof {
        lemma_placed_before_the_rest(sorted@, point, place as int);
        assert(sorted@.take(place as int).push(point) + sorted@.skip(place as int)
            =~= sorted@.insert(place as int, point));
        if place > 0 {
            assert(sorted@.take(place as int).last() == sorted@[place - 1]);
        }
    }
    sorted.insert(place, point);
}

/// Sorts points from the top down: see [`sorted_by_y`].
pub fn sort_by_y(points: &Vec<(i64, i64)>) -> (sorted: Vec<(i64, i64)>)
    ensures
        sorted@ == sorted_by_y(points@),
{
    let mut sorted: Vec<(i64, i64)> = Vec::new();
    let mut i: usize = 0;
    while i < points.len()
        invariant
            i <= points.len(),
            sorted@ == sorted_by_y(points@.take(i as int)),
        decreases points.len() - i,
    {
        assert(points@.take(i + 1).drop_last() =~= points@.take(i as int));
        place_in_order(&mut sorted, points[i]);
        i += 1;
    }
    assert(points@.take(i as int) =~= points@);
    sorted
}

impl Renderable for Trees {
    /// The image leaves room for a tree between the margin and the reserve.
    open spec fn wf(&self) -> bool {
        self.width > TREE_RESERVE + TREE_MARGIN
    }

    open spec fn fragment(&self) -> Seq<char> {
        marks_text(self.marks())
    }

    fn render(&self) -> (text: String) {
        let x_range: (i64, i64) = (
            TREE_MARGIN * UNITS_PER_PIXEL,
            (self.width - TREE_RESERVE) as i64 * UNITS_PER_PIXEL,
        );
        let y_range: (i64, i64) = (TREE_MARGIN * UNITS_PER_PIXEL, TREE_LINE * UNITS_PER_PIXEL);
        let mut coords: Vec<(i64, i64)> = Vec::new();
        let mut i: i32 = 0;
        while i < self.count
            invariant
                0 <= i,
                i <= self.count || i == 0,
                self.wf(),
                (x_range, y_range) == tree_ranges(self.width),
                coords@ == self.tree_points(i as int),
            decreases self.count - i,
        {
            let key = key_of_tree(self.user_name.as_str(), i);
            let point = must_generate_coordinate(
                key.as_str(),
                x_range,
                y_range,
                Some(&self.dead_zone),
            );
            coords.push(point);
            i += 1;
        }
        assert(coords@ == self.tree_points(self.count as int));
        let coords = sort_by_y(&coords);
        let mut trees = String::new();
        let mut k: usize = 0;
        while k < coords.len()
            invariant
                k <= coords.len(),
                trees@ == marks_text(self.tree_marks(coords@, k as int)),
            decreases coords.len() - k,
        {
            let (x, y) = coords[k];
            let tree = kind_of_tree(self.user_name.as_str(), x);
            proof {
                assert(self.tree_marks(coords@, k + 1).drop_last() =~= self.tree_marks(
                    coords@,
                    k as int,
                ));
            }
            push_sprite(&mut trees, x, y, tree);
            k += 1;
        }
        trees
    }
}

/// Putting a point in its place keeps an order and adds the point to what
/// is there.
pub proof fn lemma_placed_in_order_keeps_order(sorted: Seq<(i64, i64)>, point: (i64, i64))
    requires
        ordered_by_y(sorted),
    ensures
        ordered_by_y(placed_in_order(sorted, point)),
        placed_in_order(sorted, point).to_multiset() == sorted.to_multiset().insert(point),
        placed_in_order(sorted, point).len() == sorted.len() + 1,
    decreases sorted.len(),
{
    broadcast use vstd::seq_lib::group_to_multiset_ensures;

    let placed = placed_in_order(sorted, point);
    if sorted.len() > 0 && sorted.last().1 > point.1 {
        let rest = sorted.drop_last();
        assert forall|i: int, j: int| 0 <= i <= j < rest.len() implies rest[i].1 <= rest[j].1 by {
            assert(sorted[i].1 <= sorted[j].1);
        }
        lemma_placed_in_order_keeps_order(rest, point);
        let inner = placed_in_order(rest, point);
        assert(sorted =~= rest.push(sorted.last()));
        assert forall|i: int| 0 <= i < inner.len() implies inner[i].1 <= sorted.last().1 by {
            assert(inner.to_multiset().count(inner[i]) > 0);
            if inner[i] != point {
                assert(rest.to_multiset().count(inner[i]) > 0);
                let at = choose|at: int| 0 <= at < rest.len() && rest[at] == inner[i];
                assert(sorted[at].1 <= sorted[sorted.len() - 1].1);
            }
        }
        assert forall|i: int, j: int| 0 <= i <= j < placed.len() implies placed[i].1
            <= placed[j].1 by {
            if j < inner.len() {
                assert(inner[i].1 <= inner[j].1);
            } else if i < inner.len() {
                assert(inner[i].1 <= sorted.last().1);
            }
        }
        assert(placed.to_multiset() =~= sorted.to_multiset().insert(point));
    } else {
        assert forall|i: int, j: int| 0 <= i <= j < placed.len() implies placed[i].1
            <= placed[j].1 by {
            if j < sorted.len() {
                assert(sorted[i].1 <= sorted[j].1);
            } else if i < sorted.len() {
                assert(sorted[i].1 <= sorted[sorted.len() - 1].1);
            }
        }
    }
}

/// Sorting gives the same points, each as often as before, and none of them
/// comes after one that is further down.
pub proof fn lemma_sorted_by_y_orders(points: Seq<(i64, i64)>)
    ensures
        ordered_by_y(sorted_by_y(points)),
        sorted_by_y(points).to_multiset() == points.to_multiset(),
        sorted_by_y(points).len() == points.len(),
    decreases points.len(),
{
    broadcast use vstd::seq_lib::group_to_multiset_ensures;

    if points.len() > 0 {
        lemma_sorted_by_y_orders(points.drop_last());
        lemma_placed_in_order_keeps_order(sorted_by_y(points.drop_last()), points.last());
        assert(points =~= points.drop_last().push(points.last()));
    }
}

/// The points of the trees lie where trees may stand.
proof fn lemma_tree_points_lie_in_their_ranges(trees: Trees, count: int)
    requires
        trees.wf(),
    ensures
        trees.tree_points(count).len() == if count > 0 {
            count
        } else {
            0
        },
        forall|i: int|
            0 <= i < trees.tree_points(count).len() ==> in_ranges(
                #[trigger] trees.tree_points(count)[i],
                tree_ranges(trees.width).0,
                tree_ranges(trees.width).1,
            ),
    decreases count,
{
    if count > 0 {
        lemma_tree_points_lie_in_their_ranges(trees, count - 1);
        let ranges = tree_ranges(trees.width);
        lemma_placement_keeps_to_its_ranges(
            key_seed(tree_key(trees.user_name@, count - 1)),
            ranges.0,
            ranges.1,
            Some(trees.dead_zone),
        );
    }
}

/// There is a tree for each repository, none for a count below zero; each
/// is a tree of one of the two kinds and stands where a tree may stand: on
/// the image, a margin from its left and upper edge, the reserve from its
/// right edge, and no further down than the tree line.
pub proof fn lemma_trees_lie_on_the_field(trees: Trees)
    requires
        trees.wf(),
    ensures
        trees.marks().len() == if trees.count > 0 {
            trees.count as int
        } else {
            0
        },
        forall|i: int|
            0 <= i < trees.marks().len() ==> (#[trigger] trees.marks()[i] matches Mark::Sprite {
                x,
                y,
                object,
            } && (object == Objects::TreeOne || object == Objects::TreeTwo) && TREE_MARGIN
                * UNITS_PER_PIXEL <= x < (trees.width - TREE_RESERVE) * UNITS_PER_PIXEL
                && TREE_MARGIN * UNITS_PER_PIXEL <= y < TREE_LINE * UNITS_PER_PIXEL),
{
    broadcast use vstd::seq_lib::group_to_multiset_ensures;

    let points = trees.tree_points(trees.count as int);
    let sorted = sorted_by_y(points);
    lemma_tree_points_lie_in_their_ranges(trees, trees.count as int);
    lemma_sorted_by_y_orders(points);
    lemma_tree_marks_stand_at_their_points(trees, sorted, sorted.len() as int);
    assert forall|i: int| 0 <= i < sorted.len() implies in_ranges(
        #[trigger] sorted[i],
        tree_ranges(trees.width).0,
        tree_ranges(trees.width).1,
    ) by {
        assert(sorted.to_multiset().count(sorted[i]) > 0);
        assert(points.to_multiset().count(sorted[i]) > 0);
        let at = choose|at: int| 0 <= at < points.len() && points[at] == sorted[i];
        assert(in_ranges(points[at], tree_ranges(trees.width).0, tree_ranges(trees.width).1));
    }
    assert forall|i: int| 0 <= i < trees.marks().len() implies (
    #[trigger] trees.marks()[i] matches Mark::Sprite { x, y, object } && (object
        == Objects::TreeOne || object == Objects::TreeTwo) && TREE_MARGIN * UNITS_PER_PIXEL <= x < (
    trees.width - TREE_RESERVE) * UNITS_PER_PIXEL && TREE_MARGIN * UNITS_PER_PIXEL <= y
        < TREE_LINE * UNITS_PER_PIXEL) by {
        assert(in_ranges(sorted[i], tree_ranges(trees.width).0, tree_ranges(trees.width).1));
    }
}

/// The marks of trees are the trees at the points, one for each point.
proof fn lemma_tree_marks_stand_at_their_points(trees: Trees, points: Seq<(i64, i64)>, count: int)
    ensures
        trees.tree_marks(points, count).len() == if count > 0 {
            count
        } else {
            0
        },
        forall|i: int|
            0 <= i < trees.tree_marks(points, count).len() ==> #[trigger] trees.tree_marks(
                points,
                count,
            )[i] == (Mark::Sprite {
                x: points[i].0 as int,
                y: points[i].1 as int,
                object: tree_kind(trees.user_name@, points[i].0 as int),
            }),
    decreases count,
{
    if count > 0 {
        lemma_tree_marks_stand_at_their_points(trees, points, count - 1);
    }
}

} // verus!
