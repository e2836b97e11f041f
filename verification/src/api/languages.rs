//! The languages of a user's repositories, and the share of each.

use crate::api::stats::is_failure;
use crate::api::structures::{GithubGraphQLError, GithubGraphQLResponse};
use vstd::prelude::*;

verus! {

#[derive(Clone, Debug)]
pub struct Root {
    pub data: LanguageData,
}

#[derive(Clone, Debug)]
pub struct LanguageData {
    pub user: Option<User>,
}

#[derive(Clone, Debug)]
pub struct User {
    pub repositories: Repositories,
}

#[derive(Clone, Debug)]
pub struct Repositories {
    pub nodes: Vec<Repository>,
}

#[derive(Clone, Debug)]
pub struct Repository {
    pub name: String,
    pub languages: Languages,
}

#[derive(Clone, Debug)]
pub struct Languages {
    pub edges: Vec<LanguageEdge>,
}

#[derive(Clone, Debug)]
pub struct LanguageEdge {
    pub size: i32,
    pub node: LanguageNode,
}

#[derive(Clone, Debug)]
pub struct LanguageNode {
    pub color: String,
    pub name: String,
}

/// A language and its share of a user's code, in hundredths of a percent.
#[derive(Clone, Debug)]
pub struct MostUsedLanguage {
    pub color: String,
    pub name: String,
    pub percentage: u32,
}

/// What is known of a language while the repositories are gone through:
/// its name, the colour it had where it was first seen, and the bytes of
/// code counted for it so far.
pub struct Tally {
    pub name: Seq<char>,
    pub color: Seq<char>,
    pub size: int,
}

/// The languages of all repositories in one list, repository by repository.
pub open spec fn all_edges(nodes: Seq<Repository>) -> Seq<LanguageEdge>
    decreases nodes.len(),
{
    if nodes.len() == 0 {
        Seq::empty()
    } else {
        all_edges(nodes.drop_last()) + nodes.last().languages.edges@
    }
}

/// The bytes of code in all the entries.
pub open spec fn total_size(edges: Seq<LanguageEdge>) -> int
    decreases edges.len(),
{
    if edges.len() == 0 {
        0
    } else {
        total_size(edges.drop_last()) + edges.last().size
    }
}

/// The place of a language in the tallies, if it has one.
pub open spec fn place_of(tallies: Seq<Tally>, name: Seq<char>) -> Option<int>
    decreases tallies.len(),
{
    if tallies.len() == 0 {
        None
    } else {
        match place_of(tallies.drop_last(), name) {
            Some(place) => Some(place),
            None => if tallies.last().name == name {
                Some(tallies.len() - 1)
            } else {
                None
            },
        }
    }
}

/// The tallies after one more entry: its bytes are added to those of its
/// language, and a language not seen before is put at the end with the
/// colour of the entry.
pub open spec fn counted(tallies: Seq<Tally>, edge: LanguageEdge) -> Seq<Tally> {
    match place_of(tallies, edge.node.name@) {
        Some(place) => tallies.update(
            place,
            Tally {
                name: tallies[place].name,
                color: tallies[place].color,
                size: tallies[place].size + edge.size,
            },
        ),
        None => tallies.push(
            Tally { name: edge.node.name@, color: edge.node.color@, size: edge.size as int },
        ),
    }
}

/// The tallies of a list of entries: one for each language, in the order in
/// which the languages are first seen.
pub open spec fn tallies_of(edges: Seq<LanguageEdge>) -> Seq<Tally>
    decreases edges.len(),
{
    if edges.len() == 0 {
        Seq::empty()
    } else {
        counted(tallies_of(edges.drop_last()), edges.last())
    }
}

/// The share that `size` bytes are of `total` bytes, in hundredths of a
/// percent and rounded down; none where either is not positive, and no more
/// than a `u32` holds.
pub open spec fn share_of(size: int, total: int) -> u32 {
    if size <= 0 || total <= 0 {
        0
    } else if size * 10000 / total > u32::MAX {
        u32::MAX
    } else {
        (size * 10000 / total) as u32
    }
}

/// The language says what the tally says, with the share that the tally's
/// bytes are of `total`.
pub open spec fn reports(language: MostUsedLanguage, tally: Tally, total: int) -> bool {
    &&& language.name@ == tally.name
    &&& language.color@ == tally.color
    &&& language.percentage == share_of(tally.size, total)
}

/// The languages are those of the repositories: one for each language that
/// the repositories name, in the order in which they are first named, each
/// with the colour it is first named with and its share of all bytes.
pub open spec fn are_languages_of(languages: Seq<MostUsedLanguage>, nodes: Seq<Repository>) -> bool {
    let edges = all_edges(nodes);
    let tallies = tallies_of(edges);
    &&& languages.len() == tallies.len()
    &&& forall|i: int|
        0 <= i < languages.len() ==> reports(#[trigger] languages[i], tallies[i], total_size(edges))
}

struct Count {
    name: String,
    color: String,
    size: i128,
}

spec fn tally_view(count: Count) -> Tally {
    Tally { name: count.name@, color: count.color@, size: count.size as int }
}

spec fn tallies_view(counts: Seq<Count>) -> Seq<Tally> {
    Seq::new(counts.len(), |i: int| tally_view(counts[i]))
}

/// The most bytes that so many entries can stand for, either way.
spec fn limit(entries: nat) -> int {
    0x8000_0000 * (entries as int)
}

/// Tallies and totals of entries stay within what the entries can hold.
proof fn lemma_tallies_are_bounded(edges: Seq<LanguageEdge>)
    ensures
        -limit(edges.len()) <= total_size(edges) <= limit(edges.len()),
        tallies_of(edges).len() <= edges.len(),
        forall|i: int|
            0 <= i < tallies_of(edges).len() ==> -limit(edges.len()) <= (#[trigger] tallies_of(
                edges,
            )[i]).size <= limit(edges.len()),
        edges.len() < 0x1_0000_0000_0000_0000 ==> limit(edges.len()) < 0x8000_0000
            * 0x1_0000_0000_0000_0000,
    decreases edges.len(),
{
    if edges.len() > 0 {
        let rest = edges.drop_last();
        lemma_tallies_are_bounded(rest);
        lemma_place_is_in_the_tallies(tallies_of(rest), edges.last().node.name@);
        assert(limit(edges.len()) == limit(rest.len()) + 0x8000_0000);
        assert forall|i: int| 0 <= i < tallies_of(edges).len() implies -limit(edges.len()) <= (
        #[trigger] tallies_of(edges)[i]).size <= limit(edges.len()) by {
            if i < tallies_of(rest).len() {
                assert(-limit(rest.len()) <= tallies_of(rest)[i].size <= limit(rest.len()));
            }
        }
    }
}

/// The place of a language is one of the tallies, that of the first tally
/// with its name; a language without a place has no tally.
proof fn lemma_place_is_in_the_tallies(tallies: Seq<Tally>, name: Seq<char>)
    ensures
        place_of(tallies, name) matches Some(place) ==> 0 <= place < tallies.len()
            && tallies[place].name == name && forall|i: int|
            0 <= i < place ==> (#[trigger] tallies[i]).name != name,
        place_of(tallies, name) is None ==> forall|i: int|
            0 <= i < tallies.len() ==> (#[trigger] tallies[i]).name != name,
    decreases tallies.len(),
{
    if tallies.len() > 0 {
        lemma_place_is_in_the_tallies(tallies.drop_last(), name);
        if place_of(tallies, name) is None {
            assert forall|i: int| 0 <= i < tallies.len() implies (#[trigger] tallies[i]).name
                != name by {
                if i < tallies.len() - 1 {
                    assert(tallies.drop_last()[i].name != name);
                }
            }
        } else {
            let place = place_of(tallies, name)->0;
            assert forall|i: int| 0 <= i < place implies (#[trigger] tallies[i]).name != name by {
                assert(tallies.drop_last()[i].name != name);
            }
        }
    }
}

fn find(counts: &Vec<Count>, name: &String) -> (found: Option<usize>)
    ensures
        found is Some == place_of(tallies_view(counts@), name@) is Some,
        found matches Some(place) ==> place_of(tallies_view(counts@), name@) == Some(place as int)
            && place < counts.len(),
{
    let mut i: usize = 0;
    while i < counts.len()
        invariant
            i <= counts.len(),
            forall|k: int| 0 <= k < i ==> (#[trigger] tallies_view(counts@)[k]).name != name@,
        decreases counts.len() - i,
    {
        if counts[i].name == *name {
            proof {
                assert(tallies_view(counts@)[i as int].name == name@);
                lemma_place_is_in_the_tallies(tallies_view(counts@), name@);
            }
            return Some(i);
        }
        i += 1;
    }
    proof {
        lemma_place_is_in_the_tallies(tallies_view(counts@), name@);
    }
    None
}

fn count_edge(counts: &mut Vec<Count>, edge: &LanguageEdge, Ghost(seen): Ghost<Seq<LanguageEdge>>)
    requires
        tallies_view(old(counts)@) == tallies_of(seen),
        seen.len() < usize::MAX,
    ensures
        tallies_view(final(counts)@) == tallies_of(seen.push(*edge)),
{
    proof {
        lemma_tallies_are_bounded(seen);
        lemma_tallies_are_bounded(seen.push(*edge));
        assert(seen.push(*edge).drop_last() =~= seen);
    }
    match find(counts, &edge.node.name) {
        Some(place) => {
            let ghost before = counts@;
            assert(tallies_of(seen)[place as int].size == before[place as int].size) by {
                assert(tallies_view(before)[place as int].size == before[place as int].size);
            }
            let size: i128 = counts[place].size + edge.size as i128;
            let name = counts[place].name.clone();
            let color = counts[place].color.clone();
            counts.set(place, Count { name, color, size });
            assert(tallies_view(counts@) =~= counted(tallies_view(before), *edge));
        },
        None => {
            let ghost before = counts@;
            counts.push(
                Count {
                    name: edge.node.name.clone(),
                    color: edge.node.color.clone(),
                    size: edge.size as i128,
                },
            );
            assert(tallies_view(counts@) =~= counted(tallies_view(before), *edge));
        },
    }
}

fn share(size: i128, total: i128) -> (percentage: u32)
    requires
        -0x8000_0000 * 0x1_0000_0000_0000_0000 <= size <= 0x8000_0000 * 0x1_0000_0000_0000_0000,
    ensures
        percentage == share_of(size as int, total as int),
{
    if size <= 0 || total <= 0 {
        0
    } else {
        let parts: i128 = size * 10000 / total;
        if parts > u32::MAX as i128 {
            u32::MAX
        } else {
            parts as u32
        }
    }
}

/// The languages of repositories and their shares: see
/// [`are_languages_of`]. The repositories have fewer entries than a `usize`
/// counts.
pub fn most_used_languages(nodes: &Vec<Repository>) -> (languages: Vec<MostUsedLanguage>)
    requires
        all_edges(nodes@).len() < usize::MAX,
    ensures
        are_languages_of(languages@, nodes@),
{
    let mut counts: Vec<Count> = Vec::new();
    let mut total: i128 = 0;
    let mut r: usize = 0;
    assert(tallies_view(counts@) =~= tallies_of(all_edges(nodes@.take(0))));
    while r < nodes.len()
        invariant
            r <= nodes.len(),
            all_edges(nodes@).len() < usize::MAX,
            tallies_view(counts@) == tallies_of(all_edges(nodes@.take(r as int))),
            total == total_size(all_edges(nodes@.take(r as int))),
        decreases nodes.len() - r,
    {
        let edges = &nodes[r].languages.edges;
        let ghost before = all_edges(nodes@.take(r as int));
        proof {
            assert(nodes@.take(r + 1).drop_last() =~= nodes@.take(r as int));
            lemma_edges_of_some_are_edges_of_all(nodes@, r + 1);
        }
        let mut e: usize = 0;
        assert(before + edges@.take(0) =~= before);
        while e < edges.len()
            invariant
                e <= edges.len(),
                r < nodes.len(),
                edges == &nodes@[r as int].languages.edges,
                before == all_edges(nodes@.take(r as int)),
                before.len() + edges.len() < usize::MAX,
                tallies_view(counts@) == tallies_of(before + edges@.take(e as int)),
                total == total_size(before + edges@.take(e as int)),
            decreases edges.len() - e,
        {
            let ghost seen = before + edges@.take(e as int);
            proof {
                assert(seen.push(edges@[e as int]) =~= before + edges@.take(e + 1));
                assert(seen.push(edges@[e as int]).drop_last() =~= seen);
                lemma_tallies_are_bounded(seen);
            }
            count_edge(&mut counts, &edges[e], Ghost(seen));
            total = total + edges[e].size as i128;
            e += 1;
        }
        assert(edges@.take(e as int) =~= edges@);
        r += 1;
    }
    assert(nodes@.take(r as int) =~= nodes@);
    let ghost edges = all_edges(nodes@);
    let mut languages: Vec<MostUsedLanguage> = Vec::new();
    let mut i: usize = 0;
    while i < counts.len()
        invariant
            i <= counts.len(),
            edges.len() < usize::MAX,
            tallies_view(counts@) == tallies_of(edges),
            total == total_size(edges),
            languages@.len() == i,
            forall|k: int|
                0 <= k < i ==> reports(#[trigger] languages@[k], tallies_of(edges)[k], total as int),
        decreases counts.len() - i,
    {
        proof {
            lemma_tallies_are_bounded(edges);
            assert(tallies_of(edges)[i as int].size == counts@[i as int].size) by {
                assert(tallies_view(counts@)[i as int].size == counts@[i as int].size);
            }
        }
        languages.push(
            MostUsedLanguage {
                color: counts[i].color.clone(),
                name: counts[i].name.clone(),
                percentage: share(counts[i].size, total),
            },
        );
        i += 1;
    }
    languages
}

/// The entries of the first repositories are among those of all.
proof fn lemma_edges_of_some_are_edges_of_all(nodes: Seq<Repository>, some: int)
    requires
        0 <= some <= nodes.len(),
    ensures
        all_edges(nodes.take(some)).len() <= all_edges(nodes).len(),
    decreases nodes.len() - some,
{
    if some < nodes.len() {
        lemma_edges_of_some_are_edges_of_all(nodes.drop_last(), some);
        assert(nodes.drop_last().take(some) =~= nodes.take(some));
    } else {
        assert(nodes.take(some) =~= nodes);
    }
}

/// Reads the answer to a question for a user's languages. An answer with
/// data and without errors gives the languages of the user's repositories;
/// any other gives one error that calls the answer unexpected. An answer
/// with data and without errors names a user, whose repositories have fewer
/// entries than a `usize` counts.
pub fn languages_from_response(response: GithubGraphQLResponse<LanguageData>) -> (languages: Result<
    Vec<MostUsedLanguage>,
    Vec<GithubGraphQLError>,
>)
    requires
        response.data is Some && response.errors is None ==> response.data->0.user is Some
            && all_edges(response.data->0.user->0.repositories.nodes@).len() < usize::MAX,
    ensures
        languages is Ok == (response.data is Some && response.errors is None),
        languages matches Ok(found) ==> are_languages_of(
            found@,
            response.data->0.user->0.repositories.nodes@,
        ),
        languages matches Err(errors) ==> errors@.len() == 1 && is_failure(
            errors@[0],
            "ResponseError"@,
            "Unexpected response"@,
            Seq::empty(),
        ),
{
    let GithubGraphQLResponse { data, errors } = response;
    match (data, errors) {
        (Some(LanguageData { user: Some(user) }), None) => Ok(
            most_used_languages(&user.repositories.nodes),
        ),
        _ => {
            let mut errors = Vec::new();
            errors.push(
                GithubGraphQLError {
                    error_type: "ResponseError".to_string(),
                    locations: Vec::new(),
                    message: "Unexpected response".to_string(),
                    path: Vec::new(),
                },
            );
            Err(errors)
        },
    }
}

/// No two of the languages that are found have the same name, and every one
/// of them is named by an entry.
pub proof fn lemma_tallies_name_each_language_once(edges: Seq<LanguageEdge>)
    ensures
        forall|i: int, j: int|
            0 <= i < j < tallies_of(edges).len() ==> (#[trigger] tallies_of(edges)[i]).name != (
            #[trigger] tallies_of(edges)[j]).name,
        forall|i: int|
            0 <= i < tallies_of(edges).len() ==> exists|k: int|
                0 <= k < edges.len() && (#[trigger] edges[k]).node.name@ == (
                #[trigger] tallies_of(edges)[i]).name,
    decreases edges.len(),
{
    if edges.len() > 0 {
        let rest = edges.drop_last();
        let before = tallies_of(rest);
        let after = tallies_of(edges);
        lemma_tallies_name_each_language_once(rest);
        lemma_place_is_in_the_tallies(before, edges.last().node.name@);
        assert forall|i: int, j: int| 0 <= i < j < after.len() implies (#[trigger] after[i]).name
            != (#[trigger] after[j]).name by {
            if j < before.len() {
                assert(before[i].name != before[j].name);
            } else {
                assert(before[i].name != edges.last().node.name@);
            }
        }
        assert forall|i: int| 0 <= i < after.len() implies exists|k: int|
            0 <= k < edges.len() && (#[trigger] edges[k]).node.name@ == (#[trigger] after[i]).name by {
            if i < before.len() {
                let k = choose|k: int|
                    0 <= k < rest.len() && (#[trigger] rest[k]).node.name@ == before[i].name;
                assert(edges[k] == rest[k]);
                assert(after[i].name == before[i].name);
            } else {
                assert(edges[edges.len() - 1].node.name@ == after[i].name);
            }
        }
    }
}

} // verus!
