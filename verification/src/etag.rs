//! Entity tags: the cache validators of conditional requests.
//!
//! A tag is written in a header as its opaque text between double quotes, with
//! `W/` in front of a weak one. [`EntityTag::parse`] reads that form,
//! [`EntityTag::header_value`] writes it, and the two are inverse to each
//! other.

use crate::error::{Error, ErrorView};
use crate::response::{is_success, Response, NOT_MODIFIED};
use crate::header::{
    header_bytes_accepted, header_bytes_visible, header_entries, header_map_get,
    header_map_put, header_value_from_str, header_value_to_str, no_headers,
};
use crate::header_text::{
    header_char_accepted, header_char_visible, header_text_accepted, header_text_visible,
    lemma_accepted_text, lemma_visible_text,
};
use vstd::prelude::*;
use vstd::string::{StrSliceExecFns, StringExecFns};
use vstd::utf8::{decode_utf8, encode_utf8};

verus! {

/// An entity tag: an opaque text and whether the tag is weak.
#[derive(Debug, PartialEq, Eq)]
pub enum EntityTag {
    /// A strong tag, by its opaque text.
    Strong(String),
    /// A weak tag, by its opaque text.
    Weak(String),
}

/// A possibly absent tag beside a possibly absent value. After a conditional
/// read the value is absent exactly when the server answered "not modified".
#[derive(Debug, Clone, PartialEq, Eq)]
pub struct Etagged<T> {
    /// The validator of the response, if it carried one.
    pub etag: Option<EntityTag>,
    /// The resource, unless the cached copy is still current.
    pub value: Option<T>,
}

impl<T> Etagged<T> {
    /// What holds of a conditional read that was answered with `status`: it
    /// has a value and the status is a success, or it has none and the status
    /// is "not modified"; nothing else.
    pub open spec fn answers(&self, status: u16) -> bool {
        (self.value is Some && is_success(status)) || (self.value is None && status
            == NOT_MODIFIED)
    }
}

/// The plain content of an [`EntityTag`].
pub struct EntityTagView {
    pub weak: bool,
    pub opaque: Seq<char>,
}

impl View for EntityTag {
    type V = EntityTagView;

    open spec fn view(&self) -> EntityTagView {
        match *self {
            EntityTag::Strong(opaque) => EntityTagView { weak: false, opaque: opaque@ },
            EntityTag::Weak(opaque) => EntityTagView { weak: true, opaque: opaque@ },
        }
    }
}

impl Clone for EntityTag {
    /// A copy with the same content.
    fn clone(&self) -> (copy: EntityTag)
        ensures
            copy@ == self@,
    {
        match self {
            EntityTag::Strong(opaque) => EntityTag::Strong(opaque.clone()),
            EntityTag::Weak(opaque) => EntityTag::Weak(opaque.clone()),
        }
    }
}

/// The view of an optional tag.
pub open spec fn tag_view(tag: Option<EntityTag>) -> Option<EntityTagView> {
    match tag {
        Some(t) => Some(t@),
        None => None,
    }
}

/// `text` between double quotes.
pub open spec fn quote(text: Seq<char>) -> Seq<char> {
    seq!['"'] + text + seq!['"']
}

/// `text` starts with a double quote and ends with another.
pub open spec fn is_quoted(text: Seq<char>) -> bool {
    text.len() >= 2 && text[0] == '"' && text[text.len() - 1] == '"'
}

/// `text` is `W/` followed by a quoted text.
pub open spec fn is_weak_form(text: Seq<char>) -> bool {
    text.len() >= 4 && text[0] == 'W' && text[1] == '/' && is_quoted(text.skip(2))
}

/// `text` is a well-formed entity tag header: a quoted text, with or without
/// `W/` in front.
pub open spec fn is_entity_tag(text: Seq<char>) -> bool {
    is_quoted(text) || is_weak_form(text)
}

/// The header text of a tag.
pub open spec fn header_text(tag: EntityTagView) -> Seq<char> {
    if tag.weak {
        seq!['W', '/'] + quote(tag.opaque)
    } else {
        quote(tag.opaque)
    }
}

/// The tag that a header text stands for, if it is well-formed.
pub open spec fn tag_of(text: Seq<char>) -> Option<EntityTagView> {
    if is_weak_form(text) {
        Some(EntityTagView { weak: true, opaque: text.subrange(3, text.len() - 1) })
    } else if is_quoted(text) {
        Some(EntityTagView { weak: false, opaque: text.subrange(1, text.len() - 1) })
    } else {
        None
    }
}

/// Writing a tag and reading it back gives the tag.
pub proof fn lemma_tag_of_header_text(tag: EntityTagView)
    ensures
        is_entity_tag(header_text(tag)),
        tag_of(header_text(tag)) == Some(tag),
{
    let text = header_text(tag);
    if tag.weak {
        assert(text.skip(2) =~= quote(tag.opaque));
        assert(text.subrange(3, text.len() - 1) =~= tag.opaque);
    } else {
        assert(text.subrange(1, text.len() - 1) =~= tag.opaque);
    }
}

/// Reading a well-formed header text and writing the tag back reproduces the
/// text, character for character, and so byte for byte.
pub proof fn lemma_header_text_of_tag(text: Seq<char>)
    requires
        is_entity_tag(text),
    ensures
        tag_of(text) is Some,
        header_text(tag_of(text).unwrap()) == text,
        header_bytes(tag_of(text).unwrap()) == encode_utf8(text),
{
    let tag = tag_of(text).unwrap();
    assert(header_text(tag) =~= text);
}

impl EntityTag {
    /// Reads a tag from a header value. Fails with `InvalidEntityTag`, which
    /// carries the value, exactly when the value is not well-formed.
    pub fn parse(value: &str) -> (parsed: Result<EntityTag, Error>)
        ensures
            match parsed {
                Ok(tag) => tag_of(value@) == Some(tag@) && header_text(tag@) == value@,
                Err(e) => !is_entity_tag(value@) && e@ == (ErrorView::InvalidEntityTag {
                    value: value@,
                }),
            },
    {
        let n = value.unicode_len();
        if n >= 4 && value.get_char(0) == 'W' && value.get_char(1) == '/' && value.get_char(2)
            == '"' && value.get_char(n - 1) == '"' {
            let opaque = value.substring_char(3, n - 1);
            let tag = EntityTag::Weak(String::from_str(opaque));
            proof {
                lemma_header_text_of_tag(value@);
            }
            Ok(tag)
        } else if n >= 2 && value.get_char(0) == '"' && value.get_char(n - 1) == '"' {
            let opaque = value.substring_char(1, n - 1);
            let tag = EntityTag::Strong(String::from_str(opaque));
            proof {
                lemma_header_text_of_tag(value@);
            }
            Ok(tag)
        } else {
            Err(Error::InvalidEntityTag { value: String::from_str(value) })
        }
    }

    /// Whether the tag is weak.
    pub fn is_weak(&self) -> (weak: bool)
        ensures
            weak == self@.weak,
    {
        match self {
            EntityTag::Strong(_) => false,
            EntityTag::Weak(_) => true,
        }
    }

    /// The opaque text of the tag, without quotes.
    pub fn opaque(&self) -> (text: &str)
        ensures
            text@ == self@.opaque,
    {
        match self {
            EntityTag::Strong(opaque) => opaque.as_str(),
            EntityTag::Weak(opaque) => opaque.as_str(),
        }
    }

    /// Writes the tag as a header value: the opaque text between double
    /// quotes, after `W/` for a weak tag.
    pub fn header_value(&self) -> (text: String)
        ensures
            text@ == header_text(self@),
            tag_of(text@) == Some(self@),
    {
        let mut text = String::new();
        proof {
            reveal_strlit("W/");
            reveal_strlit("\"");
            lemma_tag_of_header_text(self@);
        }
        if self.is_weak() {
            text.append("W/");
        }
        text.append("\"");
        text.append(self.opaque());
        text.append("\"");
        assert(text@ =~= header_text(self@));
        text
    }
}

/// The bytes that a tag is written with into a header.
pub open spec fn header_bytes(tag: EntityTagView) -> Seq<u8> {
    encode_utf8(header_text(tag))
}

/// The tag that the `etag` header of a header map stands for: the header must
/// be there, hold visible ASCII only, and be a well-formed entity tag.
pub open spec fn tag_in(entries: Map<Seq<char>, Seq<u8>>) -> Option<EntityTagView> {
    if entries.contains_key("etag"@) && header_bytes_visible(entries["etag"@]) {
        tag_of(decode_utf8(entries["etag"@]))
    } else {
        None
    }
}

/// The bytes of a tag can be written into a header exactly when each
/// character of its opaque text is accepted there, and read back as text
/// exactly when each is visible.
pub proof fn lemma_tag_bytes(tag: EntityTagView)
    ensures
        header_bytes_accepted(header_bytes(tag)) <==> header_text_accepted(tag.opaque),
        header_bytes_visible(header_bytes(tag)) <==> header_text_visible(tag.opaque),
{
    let text = header_text(tag);
    let lead: int = if tag.weak {
        3
    } else {
        1
    };
    lemma_accepted_text(text);
    lemma_visible_text(text);
    assert forall|i: int| 0 <= i < tag.opaque.len() implies tag.opaque[i] == text[i + lead] by {}
    if header_text_accepted(tag.opaque) {
        assert forall|i: int| 0 <= i < text.len() implies header_char_accepted(
            #[trigger] text[i],
        ) by {
            if lead <= i < text.len() - 1 {
                assert(text[i] == tag.opaque[i - lead]);
            }
        }
    }
    if header_text_visible(tag.opaque) {
        assert forall|i: int| 0 <= i < text.len() implies header_char_visible(
            #[trigger] text[i],
        ) by {
            if lead <= i < text.len() - 1 {
                assert(text[i] == tag.opaque[i - lead]);
            }
        }
    }
    if header_text_accepted(text) {
        assert forall|i: int| 0 <= i < tag.opaque.len() implies header_char_accepted(
            #[trigger] tag.opaque[i],
        ) by {
            assert(tag.opaque[i] == text[i + lead]);
        }
    }
    if header_text_visible(text) {
        assert forall|i: int| 0 <= i < tag.opaque.len() implies header_char_visible(
            #[trigger] tag.opaque[i],
        ) by {
            assert(tag.opaque[i] == text[i + lead]);
        }
    }
}

/// A response that carries the bytes of a tag under `etag` gives the tag
/// back, as long as each character of its opaque text is visible.
pub proof fn lemma_written_tag_is_read(tag: EntityTagView, entries: Map<Seq<char>, Seq<u8>>)
    requires
        header_text_visible(tag.opaque),
    ensures
        tag_in(entries.insert("etag"@, header_bytes(tag))) == Some(tag),
{
    lemma_tag_bytes(tag);
    vstd::utf8::encode_utf8_decode_utf8(header_text(tag));
    lemma_tag_of_header_text(tag);
}

impl EntityTag {
    /// Reads the validator of a response from its `etag` header. Absence is no
    /// failure: a response without the header, or with one that is no
    /// well-formed tag, has no validator.
    pub fn extract_from_response(response: &Response) -> (tag: Option<EntityTag>)
        ensures
            tag_view(tag) == tag_in(header_entries(response.headers)),
    {
        match header_map_get(&response.headers, "etag") {
            Some(value) => match header_value_to_str(value) {
                Some(text) => {
                    proof {
                        vstd::utf8::encode_utf8_decode_utf8(text@);
                    }
                    match EntityTag::parse(text) {
                        Ok(tag) => Some(tag),
                        Err(_) => None,
                    }
                },
                None => None,
            },
            None => None,
        }
    }

    /// Writes the tag into the `if-none-match` header of an outgoing request,
    /// in place of whatever the header held.
    ///
    /// Fails with `HeaderConstruction`, which carries the header text, and
    /// leaves the headers as they were, where the opaque text holds a
    /// character that no header value may hold: a control character other
    /// than the tab. A tag without such a character is always written into
    /// headers that hold nothing; into others it is written unless the header
    /// map has reached its greatest size.
    pub fn insert_if_none_match_header(
        headers: &mut reqwest::header::HeaderMap,
        etag: EntityTag,
    ) -> (done: Result<(), Error>)
        ensures
            match done {
                Ok(_) => header_text_accepted(etag@.opaque) && header_entries(*final(headers))
                    == header_entries(*old(headers)).insert("if-none-match"@, header_bytes(etag@)),
                Err(e) => header_entries(*final(headers)) == header_entries(*old(headers)) && e@
                    == (ErrorView::HeaderConstruction { value: header_text(etag@) }),
            },
            !header_text_accepted(etag@.opaque) ==> done is Err,
            header_text_accepted(etag@.opaque) && header_entries(*old(headers)) == no_headers()
                ==> done is Ok,
    {
        proof {
            lemma_tag_bytes(etag@);
        }
        let text = etag.header_value();
        match header_value_from_str(text.as_str()) {
            Some(value) => {
                if header_map_put(headers, "if-none-match", value) {
                    Ok(())
                } else {
                    Err(Error::HeaderConstruction { value: text })
                }
            },
            None => Err(Error::HeaderConstruction { value: text }),
        }
    }
}

} // verus!
