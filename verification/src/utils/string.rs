use vstd::prelude::*;

verus! {

/// A character after which a space carries no meaning.
pub open spec fn closes_token(c: char) -> bool {
    c == '>' || c == '{' || c == '}' || c == ';' || c == ':'
}

/// A character before which a space carries no meaning.
pub open spec fn opens_token(c: char) -> bool {
    c == '<' || c == '{' || c == '}' || c == ';' || c == ':'
}

/// The character at `i`, or NUL past the end.
pub open spec fn char_or_nul(text: Seq<char>, i: int) -> char {
    if 0 <= i < text.len() {
        text[i]
    } else {
        '\0'
    }
}

/// What is kept of `text` from position `i` on, where `prev` is the last
/// character other than a space that was kept (NUL at the start) and
/// `space_kept` says that a space was kept since then.
pub open spec fn minified_from(text: Seq<char>, i: int, prev: char, space_kept: bool) -> Seq<char>
    decreases text.len() - i,
{
    if i < 0 || i >= text.len() {
        Seq::empty()
    } else if text[i] == ' ' {
        if closes_token(prev) || opens_token(char_or_nul(text, i + 1)) {
            minified_from(text, i + 1, prev, space_kept)
        } else if space_kept {
            minified_from(text, i + 1, prev, true)
        } else {
            seq![' '] + minified_from(text, i + 1, prev, true)
        }
    } else {
        seq![text[i]] + minified_from(text, i + 1, text[i], false)
    }
}

/// The minified form of `text`: line feeds go first; then every space that
/// follows one of `> { } ; :` (spaces between them not counted) or stands
/// directly before one of `< { } ; :` goes, and of the spaces left in a run
/// only the first stays.
pub open spec fn minified(text: Seq<char>) -> Seq<char> {
    minified_from(without_line_feeds(text), 0, '\0', false)
}

/// `text` with its line feeds taken out.
pub open spec fn without_line_feeds(text: Seq<char>) -> Seq<char> {
    text.filter(|c: char| c != '\n')
}

/// Reads the characters of `s` that are no line feed into a vector.
fn chars_without_line_feeds(s: &str) -> (chars: Vec<char>)
    ensures
        chars@ == without_line_feeds(s@),
{
    let mut chars: Vec<char> = Vec::new();
    let source = s.chars();
    let ghost mut seen: Seq<char> = Seq::empty();
    for c in it: source
        invariant
            it.seq() == s@,
            seen == s@.take(it.index()),
            chars@ == without_line_feeds(seen),
    {
        proof {
            seen.lemma_filter_push(c, |c: char| c != '\n');
            assert(s@.take(it.index() + 1) =~= seen.push(c));
            seen = seen.push(c);
        }
        if c != '\n' {
            chars.push(c);
        }
    }
    assert(seen =~= s@);
    chars
}

/// Minifies a piece of XML or CSS text: see [`minified`].
pub fn minify_xml(s: &str) -> (out: String)
    ensures
        out@ == minified(s@),
{
    let chars = chars_without_line_feeds(s);
    let mut minified = String::new();
    let mut space_kept = false;
    let mut prev_char = '\0';
    let mut i: usize = 0;
    while i < chars.len()
        invariant
            i <= chars.len(),
            minified@ + minified_from(chars@, i as int, prev_char, space_kept) == minified_from(
                chars@,
                0,
                '\0',
                false,
            ),
        decreases chars.len() - i,
    {
        let c = chars[i];
        let next_char = if i + 1 < chars.len() {
            chars[i + 1]
        } else {
            '\0'
        };
        let ghost before = minified@;
        let ghost prev_before = prev_char;
        let ghost kept_before = space_kept;
        if c == ' ' {
            let dropped = prev_char == '>' || prev_char == '{' || prev_char == '}' || prev_char
                == ';' || prev_char == ':' || next_char == '<' || next_char == '{' || next_char
                == '}' || next_char == ';' || next_char == ':';
            if !dropped {
                if !space_kept {
                    minified.push(c);
                }
                space_kept = true;
            }
        } else {
            space_kept = false;
            minified.push(c);
            prev_char = c;
        }
        i += 1;
        assert(minified@ + minified_from(chars@, i as int, prev_char, space_kept) =~= before
            + minified_from(chars@, i - 1, prev_before, kept_before));
    }
    minified
}

/// What is kept from a position on has no line feed where the text has
/// none; it starts with no space where a space was kept last or the last
/// character kept ends a token; and it has no space behind another space
/// or behind a character that ends a token.
proof fn lemma_minified_from_is_tidy(text: Seq<char>, i: int, prev: char, space_kept: bool)
    requires
        0 <= i,
        forall|k: int| 0 <= k < text.len() ==> text[k] != '\n',
    ensures
        ({
            let kept = minified_from(text, i, prev, space_kept);
            &&& forall|j: int| 0 <= j < kept.len() ==> kept[j] != '\n'
            &&& kept.len() > 0 && kept[0] == ' ' ==> !space_kept && !closes_token(prev)
            &&& forall|j: int|
                1 <= j < kept.len() && #[trigger] kept[j] == ' ' ==> kept[j - 1] != ' '
                    && !closes_token(kept[j - 1])
        }),
    decreases text.len() - i,
{
    if i < text.len() {
        if text[i] == ' ' {
            if closes_token(prev) || opens_token(char_or_nul(text, i + 1)) {
                lemma_minified_from_is_tidy(text, i + 1, prev, space_kept);
            } else {
                lemma_minified_from_is_tidy(text, i + 1, prev, true);
            }
        } else {
            lemma_minified_from_is_tidy(text, i + 1, text[i], false);
        }
    }
}

/// Minified text has no line feed, and no space behind another space or
/// behind one of `> { } ; :`.
pub proof fn lemma_minified_is_tidy(text: Seq<char>)
    ensures
        forall|j: int| 0 <= j < minified(text).len() ==> minified(text)[j] != '\n',
        forall|j: int|
            1 <= j < minified(text).len() && #[trigger] minified(text)[j] == ' ' ==> minified(
                text,
            )[j - 1] != ' ' && !closes_token(minified(text)[j - 1]),
{
    let kept = without_line_feeds(text);
    assert forall|k: int| 0 <= k < kept.len() implies kept[k] != '\n' by {
        text.lemma_filter_pred(|c: char| c != '\n', k);
    }
    lemma_minified_from_is_tidy(kept, 0, '\0', false);
}

} // verus!
