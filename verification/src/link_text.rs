//! Writing a `link` header, and what reading gives for a header so written.
//!
//! A list of entries is written as each URL between `<` and `>`, followed by
//! `; rel="` and the relation and `"`, with `, ` between two entries.
//! Reading such a header for a relation gives the URL of the first entry of
//! that relation: [`lemma_read_written`].

use crate::link::{
    drop_blanks, find, link_from, link_to, names_relation, relation_in, skip_blanks, unquoted,
};
use vstd::prelude::*;

verus! {

/// One entry of a `link` header.
pub struct LinkEntry {
    pub url: Seq<char>,
    pub relation: Seq<char>,
}

/// An entry that can be written: its URL holds no `>`, and its relation
/// neither `,` nor `;`.
pub open spec fn writable(entry: LinkEntry) -> bool {
    &&& forall|i: int| 0 <= i < entry.url.len() ==> entry.url[i] != '>'
    &&& forall|i: int|
        0 <= i < entry.relation.len() ==> entry.relation[i] != ',' && entry.relation[i] != ';'
}

/// The text of one entry.
pub open spec fn entry_text(entry: LinkEntry) -> Seq<char> {
    seq!['<'] + entry.url + seq!['>', ';', ' ', 'r', 'e', 'l', '=', '"'] + entry.relation
        + seq!['"']
}

/// The text of a header with the given entries.
pub open spec fn links_text(entries: Seq<LinkEntry>) -> Seq<char>
    decreases entries.len(),
{
    if entries.len() == 0 {
        Seq::empty()
    } else if entries.len() == 1 {
        entry_text(entries[0])
    } else {
        entry_text(entries[0]) + seq![',', ' '] + links_text(entries.drop_first())
    }
}

/// The URL of the first entry with the given relation.
pub open spec fn first_link(entries: Seq<LinkEntry>, relation: Seq<char>) -> Option<Seq<char>>
    decreases entries.len(),
{
    if entries.len() == 0 {
        None
    } else if entries[0].relation == relation {
        Some(entries[0].url)
    } else {
        first_link(entries.drop_first(), relation)
    }
}

/// `find` gives the first position that holds the character: a position
/// that holds it, with none before it, is what `find` gives.
pub proof fn lemma_find_first(text: Seq<char>, c: char, from: int, to: int, at: int)
    requires
        from <= at <= to,
        forall|j: int| from <= j < at ==> text[j] != c,
        at < to ==> text[at] == c,
    ensures
        find(text, c, from, to) == at,
    decreases at - from,
{
    if from < at {
        lemma_find_first(text, c, from + 1, to, at);
    }
}

/// `find` looks at the searched range only: on two texts that agree there,
/// one of them shifted by `by`, it gives the same position, shifted.
pub proof fn lemma_find_window(a: Seq<char>, b: Seq<char>, c: char, from: int, to: int, by: int)
    requires
        forall|j: int| from <= j < to ==> a[j] == b[j + by],
    ensures
        find(b, c, from + by, to + by) == find(a, c, from, to) + by,
    decreases to - from,
{
    if from < to && a[from] != c {
        lemma_find_window(a, b, c, from + 1, to, by);
    }
}

/// `skip_blanks` looks at the searched range only.
pub proof fn lemma_skip_blanks_window(a: Seq<char>, b: Seq<char>, from: int, to: int, by: int)
    requires
        forall|j: int| from <= j < to ==> a[j] == b[j + by],
    ensures
        skip_blanks(b, from + by, to + by) == skip_blanks(a, from, to) + by,
    decreases to - from,
{
    if from < to && a[from] == ' ' {
        lemma_skip_blanks_window(a, b, from + 1, to, by);
    }
}

/// `drop_blanks` looks at the searched range only.
pub proof fn lemma_drop_blanks_window(a: Seq<char>, b: Seq<char>, from: int, to: int, by: int)
    requires
        forall|j: int| from <= j < to ==> a[j] == b[j + by],
    ensures
        drop_blanks(b, from + by, to + by) == drop_blanks(a, from, to) + by,
    decreases to - from,
{
    if from < to && a[to - 1] == ' ' {
        lemma_drop_blanks_window(a, b, from, to - 1, by);
    }
}

/// `relation_in` looks at the searched range only.
pub proof fn lemma_relation_window(a: Seq<char>, b: Seq<char>, from: int, to: int, by: int)
    requires
        0 <= from,
        to <= a.len(),
        0 <= from + by,
        to + by <= b.len(),
        forall|j: int| from <= j < to ==> a[j] == b[j + by],
    ensures
        relation_in(b, from + by, to + by) == relation_in(a, from, to),
    decreases to - from,
{
    if from < to {
        let stop = find(a, ';', from, to);
        crate::link::lemma_find_bounds(a, ';', from, to);
        lemma_find_window(a, b, ';', from, to, by);
        let start = skip_blanks(a, from, stop);
        crate::link::lemma_skip_blanks_bounds(a, from, stop);
        lemma_skip_blanks_window(a, b, from, stop, by);
        let end = drop_blanks(a, start, stop);
        crate::link::lemma_drop_blanks_bounds(a, start, stop);
        lemma_drop_blanks_window(a, b, start, stop, by);
        if names_relation(a, start, end) {
            assert(names_relation(b, start + by, end + by));
            assert(unquoted(b, start + 4 + by, end + by) =~= unquoted(a, start + 4, end));
        } else {
            assert(!names_relation(b, start + by, end + by));
            if stop < to {
                lemma_relation_window(a, b, stop + 1, to, by);
            }
        }
    }
}

/// `link_from` looks at the text from `from` on only: on a text with
/// something put in front, it gives the same from the shifted position.
pub proof fn lemma_link_from_shift(
    a: Seq<char>,
    b: Seq<char>,
    relation: Seq<char>,
    from: int,
    by: int,
)
    requires
        0 <= from,
        0 <= by,
        b.len() == a.len() + by,
        forall|j: int| from <= j < a.len() ==> a[j] == b[j + by],
    ensures
        link_from(b, relation, from + by) == link_from(a, relation, from),
    decreases a.len() - from,
{
    let len = a.len() as int;
    let open = find(a, '<', from, len);
    let close = find(a, '>', open + 1, len);
    let end = find(a, ',', close + 1, len);
    crate::link::lemma_find_bounds(a, '<', from, len);
    crate::link::lemma_find_bounds(a, '>', open + 1, len);
    crate::link::lemma_find_bounds(a, ',', close + 1, len);
    lemma_find_window(a, b, '<', from, len, by);
    lemma_find_window(a, b, '>', open + 1, len, by);
    lemma_find_window(a, b, ',', close + 1, len, by);
    if close < len {
        lemma_relation_window(a, b, close + 1, end, by);
        if relation_in(a, close + 1, end) == Some(relation) {
            assert(b.subrange(open + 1 + by, close + by) =~= a.subrange(open + 1, close));
        } else if end < len {
            lemma_link_from_shift(a, b, relation, end + 1, by);
        }
    }
}

/// Reading starts at the first `<`: a position that holds another
/// character is passed over.
pub proof fn lemma_link_from_passes(text: Seq<char>, relation: Seq<char>, from: int)
    requires
        0 <= from < text.len(),
        text[from] != '<',
    ensures
        link_from(text, relation, from) == link_from(text, relation, from + 1),
{
    let len = text.len() as int;
    assert(find(text, '<', from, len) == find(text, '<', from + 1, len));
}

/// What reading gives for a text that starts with a written entry, at the
/// end of the text or before a comma: the URL of the entry if it has the
/// relation asked for, and otherwise what the text after the comma gives.
pub proof fn lemma_read_first_entry(text: Seq<char>, entry: LinkEntry, relation: Seq<char>)
    requires
        writable(entry),
        entry_text(entry).len() <= text.len(),
        text.subrange(0, entry_text(entry).len() as int) == entry_text(entry),
        entry_text(entry).len() < text.len() ==> text[entry_text(entry).len() as int] == ',',
    ensures
        link_to(text, relation) == if entry.relation == relation {
            Some(entry.url)
        } else if entry_text(entry).len() == text.len() {
            None
        } else {
            link_from(text, relation, entry_text(entry).len() as int + 1)
        },
{
    let written = entry_text(entry);
    let len = text.len() as int;
    let n = written.len() as int;
    let u = entry.url.len() as int;
    let r = entry.relation.len() as int;
    assert(n == u + r + 10);
    assert forall|j: int| 0 <= j < n implies text[j] == written[j] by {
        assert(text.subrange(0, n)[j] == text[j]);
    }
    let close = u + 1;
    assert(text[0] == '<');
    assert forall|j: int| 1 <= j < close implies text[j] != '>' by {
        assert(written[j] == entry.url[j - 1]);
    }
    assert(text[close] == '>');
    lemma_find_first(text, '>', 1, len, close);
    assert(text[close + 1] == ';');
    assert(text[close + 2] == ' ');
    assert(text[close + 3] == 'r');
    assert(text[close + 4] == 'e');
    assert(text[close + 5] == 'l');
    assert(text[close + 6] == '=');
    assert(text[close + 7] == '"');
    assert(text[n - 1] == '"');
    assert forall|j: int| close + 8 <= j < n - 1 implies text[j] == entry.relation[j - close - 8] by {
        assert(written[j] == entry.relation[j - close - 8]);
    }
    assert forall|j: int| close + 1 <= j < n implies text[j] != ',' by {
        if close + 8 <= j < n - 1 {
            assert(text[j] == entry.relation[j - close - 8]);
        }
    }
    lemma_find_first(text, ',', close + 1, len, n);
    // The parameters: an empty one before the first `;`, then ` rel="…"`.
    lemma_find_first(text, ';', close + 1, n, close + 1);
    assert(skip_blanks(text, close + 1, close + 1) == close + 1);
    assert(drop_blanks(text, close + 1, close + 1) == close + 1);
    assert(!names_relation(text, close + 1, close + 1));
    assert forall|j: int| close + 2 <= j < n implies text[j] != ';' by {
        if close + 8 <= j < n - 1 {
            assert(text[j] == entry.relation[j - close - 8]);
        }
    }
    lemma_find_first(text, ';', close + 2, n, n);
    assert(skip_blanks(text, close + 3, n) == close + 3);
    assert(skip_blanks(text, close + 2, n) == close + 3);
    assert(drop_blanks(text, close + 3, n) == n);
    assert(names_relation(text, close + 3, n));
    assert(unquoted(text, close + 7, n) =~= entry.relation);
    assert(relation_in(text, close + 2, n) == Some(entry.relation));
    assert(relation_in(text, close + 1, n) == Some(entry.relation));
    assert(text.subrange(1, close) =~= entry.url);
    assert(find(text, '<', 0, len) == 0);
}

/// Reading a written header for a relation gives the URL of the first entry
/// with that relation, whatever the entries are, as long as each can be
/// written.
pub proof fn lemma_read_written(entries: Seq<LinkEntry>, relation: Seq<char>)
    requires
        forall|i: int| 0 <= i < entries.len() ==> writable(#[trigger] entries[i]),
    ensures
        link_to(links_text(entries), relation) == first_link(entries, relation),
    decreases entries.len(),
{
    let text = links_text(entries);
    if entries.len() == 0 {
        assert(find(text, '<', 0, 0) == 0);
    } else {
        let entry = entries[0];
        let written = entry_text(entry);
        let n = written.len() as int;
        if entries.len() == 1 {
            assert(text.subrange(0, n) =~= written);
            lemma_read_first_entry(text, entry, relation);
            assert(first_link(entries.drop_first(), relation) is None);
        } else {
            let rest = entries.drop_first();
            let after = links_text(rest);
            assert(text.subrange(0, n) =~= written);
            assert(text[n] == ',');
            assert(text[n + 1] == ' ');
            lemma_read_first_entry(text, entry, relation);
            if entry.relation != relation {
                lemma_link_from_passes(text, relation, n + 1);
                assert forall|j: int| 0 <= j < after.len() implies after[j] == text[j + n + 2] by {}
                lemma_link_from_shift(after, text, relation, 0, n + 2);
                assert forall|i: int| 0 <= i < rest.len() implies writable(#[trigger] rest[i]) by {
                    assert(rest[i] == entries[i + 1]);
                }
                lemma_read_written(rest, relation);
            }
        }
    }
}

} // verus!
