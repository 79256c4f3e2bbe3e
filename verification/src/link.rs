//! The `link` header of a paginated response.
//!
//! The header is a list of entries between commas. An entry is a URL between
//! `<` and `>`, followed by parameters, each after a `;`. The parameter
//! `rel` names the relation of the URL to the page at hand: `next`, `prev`,
//! `first` or `last`. Its value may stand between double quotes, and blanks
//! around a parameter do not count.
//!
//! The URL may hold commas and semicolons: an entry ends at the first comma
//! after its `>`. The name `rel` is read in lower case only, directly before
//! its `=`, and a relation is compared as a whole: an entry with the
//! relation `next last` is not one with the relation `next`.

use vstd::prelude::*;
use vstd::string::{StrSliceExecFns, StringExecFns};

verus! {

/// The first position in `from..to` at which `text` holds `c`, or `to` where
/// it holds none there.
pub open spec fn find(text: Seq<char>, c: char, from: int, to: int) -> int
    decreases to - from,
{
    if from >= to {
        to
    } else if text[from] == c {
        from
    } else {
        find(text, c, from + 1, to)
    }
}

/// The first position in `from..to` at which `text` holds no blank, or `to`
/// where it holds only blanks there.
pub open spec fn skip_blanks(text: Seq<char>, from: int, to: int) -> int
    decreases to - from,
{
    if from >= to {
        to
    } else if text[from] != ' ' {
        from
    } else {
        skip_blanks(text, from + 1, to)
    }
}

/// The end of `from..to` without the blanks that `text` holds at its end: the
/// least `end` such that `end..to` holds only blanks.
pub open spec fn drop_blanks(text: Seq<char>, from: int, to: int) -> int
    decreases to - from,
{
    if from >= to {
        from
    } else if text[to - 1] != ' ' {
        to
    } else {
        drop_blanks(text, from, to - 1)
    }
}

/// `find` stays within the range it searches.
pub proof fn lemma_find_bounds(text: Seq<char>, c: char, from: int, to: int)
    ensures
        from <= to ==> from <= find(text, c, from, to) <= to,
        from > to ==> find(text, c, from, to) == to,
    decreases to - from,
{
    if from < to && text[from] != c {
        lemma_find_bounds(text, c, from + 1, to);
    }
}

/// `skip_blanks` stays within the range it searches.
pub proof fn lemma_skip_blanks_bounds(text: Seq<char>, from: int, to: int)
    ensures
        from <= to ==> from <= skip_blanks(text, from, to) <= to,
    decreases to - from,
{
    if from < to && text[from] == ' ' {
        lemma_skip_blanks_bounds(text, from + 1, to);
    }
}

/// `drop_blanks` stays within the range it searches.
pub proof fn lemma_drop_blanks_bounds(text: Seq<char>, from: int, to: int)
    ensures
        from <= to ==> from <= drop_blanks(text, from, to) <= to,
    decreases to - from,
{
    if from < to && text[to - 1] == ' ' {
        lemma_drop_blanks_bounds(text, from, to - 1);
    }
}

/// `text` holds `rel=` at `at`, before `to`.
pub open spec fn names_relation(text: Seq<char>, at: int, to: int) -> bool {
    at + 4 <= to && text[at] == 'r' && text[at + 1] == 'e' && text[at + 2] == 'l' && text[at + 3]
        == '='
}

/// The value in `from..to`, without the double quotes around it if it stands
/// between two.
pub open spec fn unquoted(text: Seq<char>, from: int, to: int) -> Seq<char> {
    if from + 2 <= to && text[from] == '"' && text[to - 1] == '"' {
        text.subrange(from + 1, to - 1)
    } else {
        text.subrange(from, to)
    }
}

/// The relation that the parameters in `from..to` name: the value of the
/// first parameter `rel` among those that `;` separates.
pub open spec fn relation_in(text: Seq<char>, from: int, to: int) -> Option<Seq<char>>
    decreases to - from,
{
    if from >= to {
        None
    } else {
        let stop = find(text, ';', from, to);
        let start = skip_blanks(text, from, stop);
        let end = drop_blanks(text, start, stop);
        if names_relation(text, start, end) {
            Some(unquoted(text, start + 4, end))
        } else if stop >= to {
            None
        } else {
            proof {
                lemma_find_bounds(text, ';', from, to);
            }
            relation_in(text, stop + 1, to)
        }
    }
}

/// The URL of the first entry at or after `from` whose relation is
/// `relation`.
pub open spec fn link_from(text: Seq<char>, relation: Seq<char>, from: int) -> Option<Seq<char>>
    decreases text.len() - from,
{
    let len = text.len() as int;
    let open = find(text, '<', from, len);
    let close = find(text, '>', open + 1, len);
    let end = find(text, ',', close + 1, len);
    if from < 0 || close >= len {
        None
    } else if relation_in(text, close + 1, end) == Some(relation) {
        Some(text.subrange(open + 1, close))
    } else if end >= len {
        None
    } else {
        proof {
            lemma_find_bounds(text, '<', from, len);
            lemma_find_bounds(text, '>', open + 1, len);
            lemma_find_bounds(text, ',', close + 1, len);
        }
        link_from(text, relation, end + 1)
    }
}

/// The URL that a `link` header gives for `relation`, if it gives one.
pub open spec fn link_to(text: Seq<char>, relation: Seq<char>) -> Option<Seq<char>> {
    link_from(text, relation, 0)
}

/// The first position in `from..to` at which `text` holds `c`.
fn find_char(text: &str, c: char, from: usize, to: usize) -> (at: usize)
    requires
        to <= text@.len(),
    ensures
        at == find(text@, c, from as int, to as int),
        from <= to ==> from <= at <= to,
        from > to ==> at == to,
{
    if from >= to {
        return to;
    }
    let mut at: usize = from;
    while at < to && text.get_char(at) != c
        invariant
            from <= at <= to <= text@.len(),
            find(text@, c, from as int, to as int) == find(text@, c, at as int, to as int),
        decreases to - at,
    {
        at = at + 1;
    }
    at
}

/// The first position in `from..to` at which `text` holds no blank.
fn skip_blank_chars(text: &str, from: usize, to: usize) -> (at: usize)
    requires
        from <= to <= text@.len(),
    ensures
        at == skip_blanks(text@, from as int, to as int),
        from <= at <= to,
{
    let mut at: usize = from;
    while at < to && text.get_char(at) == ' '
        invariant
            from <= at <= to <= text@.len(),
            skip_blanks(text@, from as int, to as int) == skip_blanks(text@, at as int, to as int),
        decreases to - at,
    {
        at = at + 1;
    }
    at
}

/// The end of `from..to` without the blanks at its end.
fn drop_blank_chars(text: &str, from: usize, to: usize) -> (end: usize)
    requires
        from <= to <= text@.len(),
    ensures
        end == drop_blanks(text@, from as int, to as int),
        from <= end <= to,
{
    let mut end: usize = to;
    while end > from && text.get_char(end - 1) == ' '
        invariant
            from <= end <= to <= text@.len(),
            drop_blanks(text@, from as int, to as int) == drop_blanks(text@, from as int, end as int),
        decreases end - from,
    {
        end = end - 1;
    }
    end
}

/// Whether `text` holds `rel=` at `at`, before `to`.
fn names_relation_at(text: &str, at: usize, to: usize) -> (yes: bool)
    requires
        at <= to <= text@.len(),
    ensures
        yes == names_relation(text@, at as int, to as int),
{
    to - at >= 4 && text.get_char(at) == 'r' && text.get_char(at + 1) == 'e' && text.get_char(
        at + 2,
    ) == 'l' && text.get_char(at + 3) == '='
}

/// The value in `from..to`, without the double quotes around it.
fn unquoted_value(text: &str, from: usize, to: usize) -> (value: String)
    requires
        from <= to <= text@.len(),
    ensures
        value@ == unquoted(text@, from as int, to as int),
{
    if to - from >= 2 && text.get_char(from) == '"' && text.get_char(to - 1) == '"' {
        String::from_str(text.substring_char(from + 1, to - 1))
    } else {
        String::from_str(text.substring_char(from, to))
    }
}

/// The relation that the parameters in `from..to` name.
fn relation_of(text: &str, from: usize, to: usize) -> (relation: Option<String>)
    requires
        from <= to <= text@.len(),
    ensures
        crate::error::text_view(relation) == relation_in(text@, from as int, to as int),
{
    let mut at: usize = from;
    while at < to
        invariant
            from <= at <= to <= text@.len(),
            relation_in(text@, from as int, to as int) == relation_in(text@, at as int, to as int),
        decreases to - at,
    {
        let stop = find_char(text, ';', at, to);
        let start = skip_blank_chars(text, at, stop);
        let end = drop_blank_chars(text, start, stop);
        if names_relation_at(text, start, end) {
            return Some(unquoted_value(text, start + 4, end));
        }
        if stop >= to {
            return None;
        }
        at = stop + 1;
    }
    None
}

/// The URL that the `link` header `text` gives for `relation`: that of the
/// first entry whose parameter `rel` has this value.
pub fn link_url(text: &str, relation: &str) -> (url: Option<String>)
    ensures
        crate::error::text_view(url) == link_to(text@, relation@),
{
    let len = text.unicode_len();
    let wanted = String::from_str(relation);
    let mut at: usize = 0;
    while at < len
        invariant
            at <= len == text@.len(),
            wanted@ == relation@,
            link_to(text@, relation@) == link_from(text@, relation@, at as int),
        decreases len - at,
    {
        let open = find_char(text, '<', at, len);
        if open >= len {
            return None;
        }
        let close = find_char(text, '>', open + 1, len);
        if close >= len {
            return None;
        }
        let end = find_char(text, ',', close + 1, len);
        if let Some(found) = relation_of(text, close + 1, end) {
            if found == wanted {
                return Some(String::from_str(text.substring_char(open + 1, close)));
            }
        }
        if end >= len {
            return None;
        }
        at = end + 1;
    }
    None
}

} // verus!
