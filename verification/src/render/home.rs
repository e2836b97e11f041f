//! The landmark: a house and the road to its door. Nothing else is placed
//! on it or on the road.

use crate::render::renderable::Renderable;
use crate::utils::coordinate::{
    forced_placement, key_seed, must_generate_coordinate, Rectangle, UNITS_PER_PIXEL,
};
use crate::utils::encode::{asset_text, bytes_of, encode_asset};
use crate::utils::text::{push_units, units_text};
use vstd::prelude::*;
use vstd::string::StringExecFns;

verus! {

pub struct Home {
    pub coordinate: Rectangle,
    pub dead_zone: Rectangle,
    pub home_picture: Option<Vec<u8>>,
    pub road_picture: Option<Vec<u8>>,
}

/// The file of the picture of the house, below the directory of assets.
pub const HOME_PATH: &'static str = "objects/home.png";

/// The file of the picture of the road, below the directory of assets.
pub const ROAD_PATH: &'static str = "objects/stone_road.png";

/// From the left edge of the house to the left edge of the road, in pixels.
pub const HOME_WIDTH: i64 = 67;

/// From the upper edge of the house to the start of the road, in pixels.
pub const HOME_HEIGHT: i64 = 152;

/// Length of the road, in pixels.
pub const ROAD_LENGTH: i64 = 89;

/// Where the upper left corner of the house may lie, in units.
pub open spec fn home_ranges() -> ((i64, i64), (i64, i64)) {
    ((80_000i64, 730_000i64), (25_000i64, 70_000i64))
}

/// Where the house of a user stands: its upper left corner is placed by the
/// user's name, and it reaches to where the road starts.
pub open spec fn home_footprint(user_name: Seq<char>) -> Rectangle {
    let point = forced_placement(key_seed(user_name), home_ranges().0, home_ranges().1, None);
    Rectangle {
        x1: point.0,
        y1: point.1,
        x2: (point.0 + HOME_WIDTH * UNITS_PER_PIXEL) as i64,
        y2: (point.1 + HOME_HEIGHT * UNITS_PER_PIXEL) as i64,
    }
}

/// What the house and its road take up: the footprint of the house, made
/// taller by the length of the road.
pub open spec fn home_zone(user_name: Seq<char>) -> Rectangle {
    let footprint = home_footprint(user_name);
    Rectangle {
        x1: footprint.x1,
        y1: footprint.y1,
        x2: footprint.x2,
        y2: (footprint.y2 + ROAD_LENGTH * UNITS_PER_PIXEL) as i64,
    }
}

/// The element that shows a picture.
pub open spec fn picture_text(
    width: Seq<char>,
    height: Seq<char>,
    x: int,
    y: int,
    picture: Option<Seq<u8>>,
) -> Seq<char> {
    "<image width=\""@ + width + "\" height=\""@ + height + "\" x=\""@ + units_text(x)
        + "\" y=\""@ + units_text(y) + "\" xlink:href=\"data:image/png;base64,"@ + asset_text(
        picture,
    ) + "\" />"@
}

fn push_picture(
    out: &mut String,
    width: &str,
    height: &str,
    x: i64,
    y: i64,
    picture: &Option<Vec<u8>>,
)
    ensures
        final(out)@ == old(out)@ + picture_text(
            width@,
            height@,
            x as int,
            y as int,
            bytes_of(picture),
        ),
{
    out.append("<image width=\"");
    out.append(width);
    out.append("\" height=\"");
    out.append(height);
    out.append("\" x=\"");
    push_units(out, x);
    out.append("\" y=\"");
    push_units(out, y);
    out.append("\" xlink:href=\"data:image/png;base64,");
    out.append(encode_asset(picture).as_str());
    out.append("\" />");
}

impl Home {
    /// The house of a user, without its pictures.
    pub fn new(user_name: &str) -> (home: Self)
        ensures
            home.wf(),
            home.coordinate == home_footprint(user_name@),
            home.dead_zone == home_zone(user_name@),
            home.home_picture is None,
            home.road_picture is None,
    {
        let (x, y) = must_generate_coordinate(
            user_name,
            (80 * UNITS_PER_PIXEL, 730 * UNITS_PER_PIXEL),
            (25 * UNITS_PER_PIXEL, 70 * UNITS_PER_PIXEL),
            None,
        );
        let coordinate = Rectangle {
            x1: x,
            y1: y,
            x2: x + HOME_WIDTH * UNITS_PER_PIXEL,
            y2: y + HOME_HEIGHT * UNITS_PER_PIXEL,
        };
        Self {
            coordinate,
            dead_zone: Rectangle {
                x1: coordinate.x1,
                y1: coordinate.y1,
                x2: coordinate.x2,
                y2: coordinate.y2 + ROAD_LENGTH * UNITS_PER_PIXEL,
            },
            home_picture: None,
            road_picture: None,
        }
    }

    /// The same house with the bytes of its two pictures, those of
    /// [`HOME_PATH`] and of [`ROAD_PATH`]; `None` for one that is missing.
    pub fn with_pictures(self, home_picture: Option<Vec<u8>>, road_picture: Option<Vec<u8>>) -> (home:
        Self)
        requires
            self.wf(),
        ensures
            home.wf(),
            home.coordinate == self.coordinate,
            home.dead_zone == self.dead_zone,
            home.home_picture == home_picture,
            home.road_picture == road_picture,
    {
        Self { coordinate: self.coordinate, dead_zone: self.dead_zone, home_picture, road_picture }
    }
}

impl Renderable for Home {
    /// The house stands where a house may stand.
    open spec fn wf(&self) -> bool {
        &&& home_ranges().0.0 <= self.coordinate.x1 < home_ranges().0.1
        &&& home_ranges().1.0 <= self.coordinate.y1 < home_ranges().1.1
        &&& self.coordinate.x2 == self.coordinate.x1 + HOME_WIDTH * UNITS_PER_PIXEL
        &&& self.coordinate.y2 == self.coordinate.y1 + HOME_HEIGHT * UNITS_PER_PIXEL
        &&& self.dead_zone.x1 == self.coordinate.x1
        &&& self.dead_zone.y1 == self.coordinate.y1
        &&& self.dead_zone.x2 == self.coordinate.x2
        &&& self.dead_zone.y2 == self.coordinate.y2 + ROAD_LENGTH * UNITS_PER_PIXEL
    }

    /// The house at the upper left corner of its footprint, and the road at
    /// the lower right.
    open spec fn fragment(&self) -> Seq<char> {
        picture_text(
            "151"@,
            "155"@,
            self.coordinate.x1 as int,
            self.coordinate.y1 as int,
            bytes_of(&self.home_picture),
        ) + "\n            "@ + picture_text(
            "31"@,
            "89"@,
            self.coordinate.x2 as int,
            self.coordinate.y2 as int,
            bytes_of(&self.road_picture),
        )
    }

    fn render(&self) -> (text: String) {
        let mut text = String::new();
        push_picture(
            &mut text,
            "151",
            "155",
            self.coordinate.x1,
            self.coordinate.y1,
            &self.home_picture,
        );
        text.append("\n            ");
        push_picture(
            &mut text,
            "31",
            "89",
            self.coordinate.x2,
            self.coordinate.y2,
            &self.road_picture,
        );
        text
    }
}

/// The zone of a house is a rectangle with its corners in order that holds
/// the footprint of the house, and it lies on the image.
pub proof fn lemma_home_zone_holds_the_house(home: Home)
    requires
        home.wf(),
    ensures
        home.coordinate.wf(),
        home.dead_zone.wf(),
        home.dead_zone.contains(home.coordinate.x1 as int, home.coordinate.y1 as int),
        home.dead_zone.contains(home.coordinate.x2 as int, home.coordinate.y2 as int),
        0 <= home.dead_zone.x1,
        0 <= home.dead_zone.y1,
{
}

} // verus!
