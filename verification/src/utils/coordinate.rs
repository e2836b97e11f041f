//! Placement of sprites: a key decides, once and for all, where its sprite
//! goes.
//!
//! The key's bytes are hashed to a 64-bit seed, the seed starts a ChaCha
//! stream with eight rounds, and the stream is asked for uniform integers.
//! All lengths are whole numbers of units, [`UNITS_PER_PIXEL`] to the pixel.

use rand::{Rng, SeedableRng};
use rand_chacha::ChaCha8Rng;
use std::collections::hash_map::DefaultHasher;
use std::hash::Hasher;
use vstd::prelude::*;
use vstd::std_specs::hash::DefaultHasherAdditionalSpecFns;
use vstd::utf8::encode_utf8;

verus! {

/// How many points are drawn at most before a placement that has to avoid a
/// rectangle is given up.
pub const MAX_RETRY: u32 = 10;

/// The number of units that make one pixel.
pub const UNITS_PER_PIXEL: i64 = 1000;

/// An axis-parallel rectangle with its borders, in units. It serves as a
/// zone that placements have to avoid.
#[derive(Debug, Clone, Copy)]
pub struct Rectangle {
    pub x1: i64,
    pub y1: i64,
    pub x2: i64,
    pub y2: i64,
}

impl Rectangle {
    /// The corners are in order.
    pub open spec fn wf(&self) -> bool {
        self.x1 <= self.x2 && self.y1 <= self.y2
    }

    /// The point lies in the rectangle or on its border.
    pub open spec fn contains(&self, x: int, y: int) -> bool {
        self.x1 <= x <= self.x2 && self.y1 <= y <= self.y2
    }

    /// Every point with `x_range.0 <= x < x_range.1` and
    /// `y_range.0 <= y < y_range.1` lies in the rectangle.
    pub open spec fn covers(&self, x_range: (i64, i64), y_range: (i64, i64)) -> bool {
        self.x1 <= x_range.0 && x_range.1 - 1 <= self.x2 && self.y1 <= y_range.0 && y_range.1 - 1
            <= self.y2
    }
}

/// A half-open range that holds at least one number.
pub open spec fn valid_range(range: (i64, i64)) -> bool {
    range.0 < range.1
}

/// The point avoids the zone, if there is one.
pub open spec fn avoids(zone: Option<Rectangle>, point: (i64, i64)) -> bool {
    match zone {
        Some(rectangle) => !rectangle.contains(point.0 as int, point.1 as int),
        None => true,
    }
}

/// The generator of `rand_chacha` with eight rounds. Nothing is seen of
/// what is inside it.
#[verifier::external_type_specification]
#[verifier::external_body]
pub struct ExChaCha8Rng(ChaCha8Rng);

/// The state that a generator is in: what it was seeded with and how far its
/// stream has been read.
pub uninterp spec fn stream_state(rng: ChaCha8Rng) -> int;

/// The state of a generator that `seed_from_u64` has just made from `seed`.
pub uninterp spec fn seeded_state(seed: u64) -> int;

/// What `gen_range(low..high)` gives a generator in `state`: the number
/// drawn, and the state that the generator is left in.
pub uninterp spec fn drawn(state: int, low: i64, high: i64) -> (i64, int);

/// `ChaCha8Rng::seed_from_u64` expands the seed by a fixed rule to the
/// generator's key. The state of the generator it returns is a function of
/// the seed alone.
#[verifier::external_body]
fn seed_stream(seed: u64) -> (rng: ChaCha8Rng)
    ensures
        stream_state(rng) == seeded_state(seed),
{
    ChaCha8Rng::seed_from_u64(seed)
}

/// `Rng::gen_range` on a half-open range of `i64`. It panics on an empty
/// range, which `requires` leaves out. The number it returns lies in the
/// range; that number and the state it leaves the generator in are functions
/// of the state it found and of the two bounds.
#[verifier::external_body]
fn draw(rng: &mut ChaCha8Rng, low: i64, high: i64) -> (value: i64)
    requires
        low < high,
    ensures
        value == drawn(stream_state(*old(rng)), low, high).0,
        stream_state(*final(rng)) == drawn(stream_state(*old(rng)), low, high).1,
        low <= value < high,
{
    rng.gen_range(low..high)
}

/// The seed of a key: the hash that std's default hasher gives the UTF-8
/// bytes of the key followed by the byte 0xff, which is how std hashes a
/// string.
pub open spec fn key_seed(key: Seq<char>) -> u64 {
    DefaultHasher::spec_finish(seq![encode_utf8(key), seq![0xffu8]])
}

/// The number that a generator in `state` draws from a range. The generator
/// returns no number outside the range; were there one, `low` would stand
/// for it.
pub open spec fn drawn_number(state: int, low: i64, high: i64) -> i64 {
    let number = drawn(state, low, high).0;
    if low <= number < high {
        number
    } else {
        low
    }
}

/// The point that a generator in `state` draws, x first, and the state after.
pub open spec fn drawn_point(state: int, x_range: (i64, i64), y_range: (i64, i64)) -> (
    (i64, i64),
    int,
) {
    let after_x = drawn(state, x_range.0, x_range.1).1;
    let after_y = drawn(after_x, y_range.0, y_range.1).1;
    (
        (
            drawn_number(state, x_range.0, x_range.1),
            drawn_number(after_x, y_range.0, y_range.1),
        ),
        after_y,
    )
}

/// The first of the next `budget` points of a generator in `state` that
/// avoids the zone, if one of them does.
pub open spec fn first_outside(
    state: int,
    x_range: (i64, i64),
    y_range: (i64, i64),
    zone: Option<Rectangle>,
    budget: nat,
) -> Option<(i64, i64)>
    decreases budget,
{
    if budget == 0 {
        None
    } else {
        let (point, next) = drawn_point(state, x_range, y_range);
        if avoids(zone, point) {
            Some(point)
        } else {
            first_outside(next, x_range, y_range, zone, (budget - 1) as nat)
        }
    }
}

/// The placement that a seed decides: the first of the [`MAX_RETRY`] points
/// of its stream that avoids the zone.
pub open spec fn placement(
    seed: u64,
    x_range: (i64, i64),
    y_range: (i64, i64),
    zone: Option<Rectangle>,
) -> Option<(i64, i64)> {
    first_outside(seeded_state(seed), x_range, y_range, zone, MAX_RETRY as nat)
}

/// The placement that is used where one is needed in any case: the one that
/// avoids the zone, and where there is none, the first point of the stream.
pub open spec fn forced_placement(
    seed: u64,
    x_range: (i64, i64),
    y_range: (i64, i64),
    zone: Option<Rectangle>,
) -> (i64, i64) {
    match placement(seed, x_range, y_range, zone) {
        Some(point) => point,
        None => drawn_point(seeded_state(seed), x_range, y_range).0,
    }
}

/// What `Option<&Rectangle>` stands for in contracts.
pub open spec fn zone_of(dead_zone: Option<&Rectangle>) -> Option<Rectangle> {
    match dead_zone {
        Some(rectangle) => Some(*rectangle),
        None => None,
    }
}

/// Whether the point lies in the rectangle or on its border.
pub fn is_in_rectangle(x: i64, y: i64, rectangles: &Rectangle) -> (inside: bool)
    ensures
        inside == rectangles.contains(x as int, y as int),
{
    x >= rectangles.x1 && x <= rectangles.x2 && y >= rectangles.y1 && y <= rectangles.y2
}

/// Hashes a key to its seed.
pub fn seed_of_key(key: &str) -> (seed: u64)
    ensures
        seed == key_seed(key@),
{
    let mut hasher = DefaultHasher::new();
    hasher.write(key.as_bytes());
    let end: [u8; 1] = [0xff];
    assert(end@ =~= seq![0xffu8]);
    hasher.write(end.as_slice());
    assert(hasher@ =~= seq![encode_utf8(key@), seq![0xffu8]]);
    hasher.finish()
}

/// Places a sprite by a seed. The result is [`placement`] of the arguments,
/// so the same arguments give the same point. A point that is returned lies
/// in both ranges and avoids the zone. Without a zone there is always a
/// point; with a zone that covers both ranges there is none.
pub fn generate_from_seed(
    seed: u64,
    x_range: (i64, i64),
    y_range: (i64, i64),
    dead_zone: Option<&Rectangle>,
) -> (point: Option<(i64, i64)>)
    requires
        valid_range(x_range),
        valid_range(y_range),
    ensures
        point == placement(seed, x_range, y_range, zone_of(dead_zone)),
        point matches Some(p) ==> x_range.0 <= p.0 < x_range.1 && y_range.0 <= p.1 < y_range.1
            && avoids(zone_of(dead_zone), p),
        dead_zone is None ==> point is Some,
        dead_zone matches Some(zone) && zone.covers(x_range, y_range) ==> point is None,
{
    let mut rng = seed_stream(seed);
    let mut tries: u32 = 0;
    while tries < MAX_RETRY
        invariant
            tries <= MAX_RETRY,
            valid_range(x_range),
            valid_range(y_range),
            tries > 0 ==> dead_zone is Some,
            placement(seed, x_range, y_range, zone_of(dead_zone)) == first_outside(
                stream_state(rng),
                x_range,
                y_range,
                zone_of(dead_zone),
                (MAX_RETRY - tries) as nat,
            ),
        decreases MAX_RETRY - tries,
    {
        let x = draw(&mut rng, x_range.0, x_range.1);
        let y = draw(&mut rng, y_range.0, y_range.1);
        match dead_zone {
            Some(zone) => {
                if !is_in_rectangle(x, y, zone) {
                    return Some((x, y));
                }
            },
            None => {
                return Some((x, y));
            },
        }
        tries += 1;
    }
    None
}

/// Places a sprite by a key: [`generate_from_seed`] with the seed of the key.
pub fn generate_coordinate(
    key: &str,
    x_range: (i64, i64),
    y_range: (i64, i64),
    dead_zone: Option<&Rectangle>,
) -> (point: Option<(i64, i64)>)
    requires
        valid_range(x_range),
        valid_range(y_range),
    ensures
        point == placement(key_seed(key@), x_range, y_range, zone_of(dead_zone)),
        point matches Some(p) ==> x_range.0 <= p.0 < x_range.1 && y_range.0 <= p.1 < y_range.1
            && avoids(zone_of(dead_zone), p),
        dead_zone is None ==> point is Some,
        dead_zone matches Some(zone) && zone.covers(x_range, y_range) ==> point is None,
{
    generate_from_seed(seed_of_key(key), x_range, y_range, dead_zone)
}

/// Places a sprite in any case: where no point of the budget avoids the zone,
/// the zone is given up and the first point of the stream is taken.
pub fn must_generate_from_seed(
    seed: u64,
    x_range: (i64, i64),
    y_range: (i64, i64),
    dead_zone: Option<&Rectangle>,
) -> (point: (i64, i64))
    requires
        valid_range(x_range),
        valid_range(y_range),
    ensures
        point == forced_placement(seed, x_range, y_range, zone_of(dead_zone)),
        x_range.0 <= point.0 < x_range.1,
        y_range.0 <= point.1 < y_range.1,
        placement(seed, x_range, y_range, zone_of(dead_zone)) is Some ==> avoids(
            zone_of(dead_zone),
            point,
        ),
{
    match generate_from_seed(seed, x_range, y_range, dead_zone) {
        Some(point) => point,
        None => {
            match generate_from_seed(seed, x_range, y_range, None) {
                Some(point) => point,
                None => (x_range.0, y_range.0),
            }
        },
    }
}

/// [`must_generate_from_seed`] with the seed of the key.
pub fn must_generate_coordinate(
    key: &str,
    x_range: (i64, i64),
    y_range: (i64, i64),
    dead_zone: Option<&Rectangle>,
) -> (point: (i64, i64))
    requires
        valid_range(x_range),
        valid_range(y_range),
    ensures
        point == forced_placement(key_seed(key@), x_range, y_range, zone_of(dead_zone)),
        x_range.0 <= point.0 < x_range.1,
        y_range.0 <= point.1 < y_range.1,
        placement(key_seed(key@), x_range, y_range, zone_of(dead_zone)) is Some ==> avoids(
            zone_of(dead_zone),
            point,
        ),
{
    must_generate_from_seed(seed_of_key(key), x_range, y_range, dead_zone)
}

/// A point lies in both ranges.
pub open spec fn in_ranges(point: (i64, i64), x_range: (i64, i64), y_range: (i64, i64)) -> bool {
    x_range.0 <= point.0 < x_range.1 && y_range.0 <= point.1 < y_range.1
}

/// Of the points that a generator draws from two ranges, the first that
/// avoids a zone lies in both ranges and avoids the zone. With a budget and
/// without a zone there is such a point; where the zone covers both ranges
/// there is none.
pub proof fn lemma_first_outside_is_outside(
    state: int,
    x_range: (i64, i64),
    y_range: (i64, i64),
    zone: Option<Rectangle>,
    budget: nat,
)
    requires
        valid_range(x_range),
        valid_range(y_range),
    ensures
        in_ranges(drawn_point(state, x_range, y_range).0, x_range, y_range),
        first_outside(state, x_range, y_range, zone, budget) matches Some(point) ==> in_ranges(
            point,
            x_range,
            y_range,
        ) && avoids(zone, point),
        zone is None && budget > 0 ==> first_outside(state, x_range, y_range, zone, budget)
            == Some(drawn_point(state, x_range, y_range).0),
        zone matches Some(rectangle) && rectangle.covers(x_range, y_range) ==> first_outside(
            state,
            x_range,
            y_range,
            zone,
            budget,
        ) is None,
    decreases budget,
{
    if budget > 0 {
        lemma_first_outside_is_outside(
            drawn_point(state, x_range, y_range).1,
            x_range,
            y_range,
            zone,
            (budget - 1) as nat,
        );
    }
}

/// A placement lies in both ranges and avoids the zone; without a zone
/// there is one, and where the zone covers both ranges there is none. The
/// placement that is used in any case lies in both ranges, and avoids the
/// zone wherever a placement that does is found.
pub proof fn lemma_placement_keeps_to_its_ranges(
    seed: u64,
    x_range: (i64, i64),
    y_range: (i64, i64),
    zone: Option<Rectangle>,
)
    requires
        valid_range(x_range),
        valid_range(y_range),
    ensures
        placement(seed, x_range, y_range, zone) matches Some(point) ==> in_ranges(
            point,
            x_range,
            y_range,
        ) && avoids(zone, point),
        zone is None ==> placement(seed, x_range, y_range, zone) is Some,
        zone matches Some(rectangle) && rectangle.covers(x_range, y_range) ==> placement(
            seed,
            x_range,
            y_range,
            zone,
        ) is None,
        in_ranges(forced_placement(seed, x_range, y_range, zone), x_range, y_range),
        placement(seed, x_range, y_range, zone) is Some ==> avoids(
            zone,
            forced_placement(seed, x_range, y_range, zone),
        ),
{
    lemma_first_outside_is_outside(seeded_state(seed), x_range, y_range, zone, MAX_RETRY as nat);
}

/// Equal keys, ranges and zones give equal placements, whoever asks and when.
pub proof fn lemma_placement_is_determined(
    key_a: Seq<char>,
    key_b: Seq<char>,
    x_range: (i64, i64),
    y_range: (i64, i64),
    zone: Option<Rectangle>,
)
    requires
        key_a == key_b,
    ensures
        placement(key_seed(key_a), x_range, y_range, zone) == placement(
            key_seed(key_b),
            x_range,
            y_range,
            zone,
        ),
        forced_placement(key_seed(key_a), x_range, y_range, zone) == forced_placement(
            key_seed(key_b),
            x_range,
            y_range,
            zone,
        ),
{
}

} // verus!
