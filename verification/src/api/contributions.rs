//! The commits of a user's year, read from the page that shows them: a
//! table with a cell for each day, each cell with the day and the level of
//! its commits as attributes.

use crate::utils::date::{date_number, Date};
use crate::utils::http::{parse_u64, parsed_u64};
use crate::utils::text::{push_signed_decimal, signed_decimal};
use std::collections::HashMap;
use tl::{parse, ParseError, ParserOptions};
use vstd::prelude::*;
use vstd::string::StringExecFns;
use vstd::utf8::encode_utf8;

verus! {

broadcast use vstd::std_specs::hash::group_hash_axioms;

/// The error of `tl::parse`. Nothing is seen of what is inside it.
#[verifier::external_type_specification]
#[verifier::external_body]
pub struct ExParseError(ParseError);

/// The attribute of a cell that names its day.
pub const DATE_ATTRIBUTE: &'static str = "data-date";

/// The attribute of a cell that gives the level of its commits.
pub const LEVEL_ATTRIBUTE: &'static str = "data-level";

/// What the page says of a tag: its name, and the values of the two
/// attributes that were asked for, where it has them and they are text.
pub struct TagFacts {
    pub name: Vec<u8>,
    pub date: Option<String>,
    pub level: Option<String>,
}

/// The facts of a tag as plain values.
pub type Facts = (Seq<u8>, Option<Seq<char>>, Option<Seq<char>>);

#[derive(Debug)]
pub enum CommitsError {
    /// The page is longer than the parser takes.
    PageTooLong,
}

/// The nodes that the parser finds in a page, in its order: for a tag its
/// name and the values of the attributes `date` and `level`, for text and
/// comments `None`; and `None` for a page that the parser refuses.
pub uninterp spec fn html_nodes(html: Seq<char>, date: Seq<char>, level: Seq<char>) -> Option<
    Seq<Option<Facts>>,
>;

/// The nodes of a page with the attributes of the cells of its table.
pub open spec fn cell_nodes(html: Seq<char>) -> Option<Seq<Option<Facts>>> {
    html_nodes(html, DATE_ATTRIBUTE@, LEVEL_ATTRIBUTE@)
}

pub open spec fn text_of(text: Option<String>) -> Option<Seq<char>> {
    match text {
        Some(text) => Some(text@),
        None => None,
    }
}

pub open spec fn facts_of(tag: Option<TagFacts>) -> Option<Facts> {
    match tag {
        Some(tag) => Some((tag.name@, text_of(tag.date), text_of(tag.level))),
        None => None,
    }
}

pub open spec fn nodes_of(parsed: Result<Vec<Option<TagFacts>>, ParseError>) -> Option<
    Seq<Option<Facts>>,
> {
    match parsed {
        Ok(nodes) => Some(Seq::new(nodes@.len(), |i: int| facts_of(nodes@[i]))),
        Err(_) => None,
    }
}

/// `tl::parse` with the default options reads a page into its nodes, and
/// fails on a page of more bytes than a `u32` counts. Of each node that is
/// a tag, `name` gives the name and `attributes().get` the value of the
/// attribute of a name, which `try_as_utf8_str` gives as text where it is
/// UTF-8. What comes of a page is a function of the page and of the two
/// names alone.
#[verifier::external_body]
fn parse_nodes(html: &str, date: &'static str, level: &'static str) -> (parsed: Result<
    Vec<Option<TagFacts>>,
    ParseError,
>)
    ensures
        nodes_of(parsed) == html_nodes(html@, date@, level@),
        parsed is Ok == (encode_utf8(html@).len() <= u32::MAX),
{
    let document = parse(html, ParserOptions::default())?;
    Ok(document.nodes().iter().map(|node| node.as_tag().map(|tag| TagFacts {
        name: tag.name().as_bytes().to_vec(),
        date: tag.attributes().get(date).flatten()
            .and_then(|value| value.try_as_utf8_str()).map(String::from),
        level: tag.attributes().get(level).flatten()
            .and_then(|value| value.try_as_utf8_str()).map(String::from),
    })).collect())
}

/// The number that two decimal digits spell.
pub open spec fn two_digits(tens: u8, units: u8) -> int {
    (tens - 0x30) * 10 + (units - 0x30)
}

/// The bytes are a date as the calendar writes it: four digits for the
/// year, two for the month and two for the day, with a hyphen between them.
pub open spec fn is_iso_date(bytes: Seq<u8>) -> bool {
    &&& bytes.len() == 10
    &&& bytes[4] == 0x2d
    &&& bytes[7] == 0x2d
    &&& forall|i: int| 0 <= i < 10 && i != 4 && i != 7 ==> 0x30 <= #[trigger] bytes[i] <= 0x39
}

/// The number of the day that the bytes write, where they write a day of
/// the calendar.
pub open spec fn iso_day(bytes: Seq<u8>) -> Option<i32> {
    if is_iso_date(bytes) {
        date_number(
            (two_digits(bytes[0], bytes[1]) * 100 + two_digits(bytes[2], bytes[3])) as i32,
            two_digits(bytes[5], bytes[6]) as u32,
            two_digits(bytes[8], bytes[9]) as u32,
        )
    } else {
        None
    }
}

/// The level that the bytes write: a number that a `u32` holds.
pub open spec fn level_of(bytes: Seq<u8>) -> Option<u32> {
    match parsed_u64(bytes) {
        Some(level) => if level <= u32::MAX {
            Some(level as u32)
        } else {
            None
        },
        None => None,
    }
}

/// What a node adds to the commits: a cell of the table, a tag named `td`,
/// that has a day and a level above zero adds the level for the day, in the
/// place of what was there for the day; a cell whose level cannot be read
/// or whose day is none of the calendar adds nothing, and nor does any
/// other node.
pub open spec fn with_node(commits: Map<i32, u32>, node: Option<Facts>) -> Map<i32, u32> {
    match node {
        Some((name, Some(date), Some(level))) => {
            if name == seq![0x74u8, 0x64u8] {
                match (level_of(encode_utf8(level)), iso_day(encode_utf8(date))) {
                    (Some(level), Some(day)) => if level > 0 {
                        commits.insert(day, level)
                    } else {
                        commits
                    },
                    _ => commits,
                }
            } else {
                commits
            }
        },
        _ => commits,
    }
}

/// The commits that the nodes of a page tell of.
pub open spec fn commits_of(nodes: Seq<Option<Facts>>) -> Map<i32, u32>
    decreases nodes.len(),
{
    if nodes.len() == 0 {
        Map::empty()
    } else {
        with_node(commits_of(nodes.drop_last()), nodes.last())
    }
}

/// Where the page with the commits of a user's year is found.
pub open spec fn contributions_url_text(user_name: Seq<char>, year: i32) -> Seq<char> {
    "https://github.com/users/"@ + user_name + "/contributions?from="@ + signed_decimal(
        year as int,
    ) + "-01-01&to="@ + signed_decimal(year as int) + "-12-31"@
}

impl CommitsError {
    pub open spec fn text(self) -> Seq<char> {
        "The input string length is too large to fit in a `u32`"@
    }

    pub fn to_string(&self) -> (message: String)
        ensures
            message@ == self.text(),
    {
        "The input string length is too large to fit in a `u32`".to_string()
    }
}

fn digit_pair(bytes: &[u8], at: usize) -> (value: Option<u32>)
    requires
        at + 1 < bytes.len(),
    ensures
        value is Some == (0x30 <= bytes@[at as int] <= 0x39 && 0x30 <= bytes@[at + 1] <= 0x39),
        value matches Some(v) ==> v == two_digits(bytes@[at as int], bytes@[at + 1]) && v < 100,
{
    let tens = bytes[at];
    let units = bytes[at + 1];
    if 0x30 <= tens && tens <= 0x39 && 0x30 <= units && units <= 0x39 {
        Some((tens - 0x30) as u32 * 10 + (units - 0x30) as u32)
    } else {
        None
    }
}

/// Reads a day as the calendar writes it: see [`iso_day`].
pub fn parse_iso_date(text: &str) -> (date: Option<Date>)
    ensures
        date is Some == iso_day(encode_utf8(text@)) is Some,
        date matches Some(day) ==> day.wf() && iso_day(encode_utf8(text@)) == Some(day@ as i32),
{
    let bytes = text.as_bytes();
    if bytes.len() != 10 || bytes[4] != 0x2d || bytes[7] != 0x2d {
        return None;
    }
    let century = digit_pair(bytes, 0);
    let years = digit_pair(bytes, 2);
    let month = digit_pair(bytes, 5);
    let day = digit_pair(bytes, 8);
    match (century, years, month, day) {
        (Some(century), Some(years), Some(month), Some(day)) => {
            assert(is_iso_date(bytes@));
            Date::from_ymd((century * 100 + years) as i32, month, day)
        },
        _ => {
            assert(!is_iso_date(bytes@)) by {
                if is_iso_date(bytes@) {
                    assert(0x30 <= bytes@[0] <= 0x39 && 0x30 <= bytes@[1] <= 0x39);
                    assert(0x30 <= bytes@[2] <= 0x39 && 0x30 <= bytes@[3] <= 0x39);
                    assert(0x30 <= bytes@[5] <= 0x39 && 0x30 <= bytes@[6] <= 0x39);
                    assert(0x30 <= bytes@[8] <= 0x39 && 0x30 <= bytes@[9] <= 0x39);
                }
            }
            None
        },
    }
}

/// Reads a level of commits: see [`level_of`].
pub fn parse_level(text: &str) -> (level: Option<u32>)
    ensures
        level == level_of(encode_utf8(text@)),
{
    let bytes = text.as_bytes();
    assert(bytes@.take(bytes@.len() as int) =~= bytes@);
    match parse_u64(bytes, bytes.len()) {
        Some(level) => if level <= u32::MAX as u64 {
            Some(level as u32)
        } else {
            None
        },
        None => None,
    }
}

fn add_node(commits: &mut HashMap<i32, u32>, node: &Option<TagFacts>)
    ensures
        final(commits)@ == with_node(old(commits)@, facts_of(*node)),
{
    match node {
        Some(TagFacts { name, date: Some(date), level: Some(level) }) => {
            if name.len() == 2 && name[0] == 0x74 && name[1] == 0x64 {
                assert(name@ =~= seq![0x74u8, 0x64u8]);
                match (parse_level(level.as_str()), parse_iso_date(date.as_str())) {
                    (Some(level), Some(day)) => {
                        if level > 0 {
                            commits.insert(day.day_number(), level);
                        }
                    },
                    _ => {},
                }
            } else {
                assert(name@ != seq![0x74u8, 0x64u8]) by {
                    if name@ == seq![0x74u8, 0x64u8] {
                        assert(name@.len() == 2 && name@[0] == 0x74 && name@[1] == 0x64);
                    }
                }
            }
        },
        _ => {},
    }
}

/// Reads the commits off a page: the levels above zero of the cells of its
/// table, by the number of their day. It fails on a page that the parser
/// refuses, which is one of more bytes than a `u32` counts, and on no other.
pub fn parse_commit_from_string(data: &str) -> (commits: Result<HashMap<i32, u32>, CommitsError>)
    ensures
        commits is Ok == (encode_utf8(data@).len() <= u32::MAX),
        commits is Ok == cell_nodes(data@) is Some,
        commits matches Ok(found) ==> found@ == commits_of(cell_nodes(data@)->0),
{
    let nodes = match parse_nodes(data, DATE_ATTRIBUTE, LEVEL_ATTRIBUTE) {
        Ok(nodes) => nodes,
        Err(_) => {
            return Err(CommitsError::PageTooLong);
        },
    };
    let ghost facts = cell_nodes(data@)->0;
    let mut commits_by_day: HashMap<i32, u32> = HashMap::with_capacity(366);
    let mut i: usize = 0;
    while i < nodes.len()
        invariant
            i <= nodes.len(),
            facts.len() == nodes.len(),
            forall|k: int| 0 <= k < nodes.len() ==> facts[k] == facts_of(#[trigger] nodes@[k]),
            commits_by_day@ == commits_of(facts.take(i as int)),
        decreases nodes.len() - i,
    {
        assert(facts.take(i + 1).drop_last() =~= facts.take(i as int));
        add_node(&mut commits_by_day, &nodes[i]);
        i += 1;
    }
    assert(facts.take(i as int) =~= facts);
    Ok(commits_by_day)
}

/// Where the page with the commits of a user's year is found.
pub fn contributions_url(user_name: &str, year: i32) -> (url: String)
    ensures
        url@ == contributions_url_text(user_name@, year),
{
    let mut url = "https://github.com/users/".to_string();
    url.append(user_name);
    url.append("/contributions?from=");
    push_signed_decimal(&mut url, year as i64);
    url.append("-01-01&to=");
    push_signed_decimal(&mut url, year as i64);
    url.append("-12-31");
    url
}

} // verus!
