use vstd::prelude::*;

use crate::model::Model;
use crate::msg::Msg;

verus! {

/// No character of `s` is a line feed.
pub open spec fn no_newline(s: Seq<char>) -> bool {
    forall|i: int| 0 <= i < s.len() ==> s[i] != '\n'
}

/// `s` with every line feed removed; every other character stays, in order.
pub open spec fn stripped(s: Seq<char>) -> Seq<char>
    decreases s.len(),
{
    if s.len() == 0 {
        Seq::empty()
    } else if s.last() == '\n' {
        stripped(s.drop_last())
    } else {
        stripped(s.drop_last()).push(s.last())
    }
}

/// Stripping leaves no line feed behind.
pub proof fn lemma_stripped_no_newline(s: Seq<char>)
    ensures
        no_newline(stripped(s)),
    decreases s.len(),
{
    if s.len() > 0 {
        lemma_stripped_no_newline(s.drop_last());
    }
}

/// Remove every line feed from `s`, keeping all other characters in order.
pub fn strip_newlines(s: &str) -> (r: String)
    ensures
        r@ == stripped(s@),
{
    let len = s.unicode_len();
    let mut out = String::new();
    let mut i: usize = 0;
    while i < len
        invariant
            len == s@.len(),
            i <= len,
            out@ == stripped(s@.subrange(0, i as int)),
        decreases len - i,
    {
        let c = s.get_char(i);
        proof {
            let t = s@.subrange(0, i as int + 1);
            assert(t.drop_last() =~= s@.subrange(0, i as int));
            assert(t.last() == s@[i as int]);
        }
        if c != '\n' {
            let piece = s.substring_char(i, i + 1);
            out.append(piece);
            proof {
                assert(out@ =~= stripped(s@.subrange(0, i as int + 1)));
            }
        }
        i = i + 1;
    }
    proof {
        assert(s@.subrange(0, len as int) =~= s@);
    }
    out
}

/// The `src` attribute rendered for content `c` under content type `mime`:
/// a data URL whose payload is `c` with its line wrapping removed.
pub open spec fn data_url(mime: Seq<char>, c: Seq<char>) -> Seq<char> {
    "data:"@ + mime + ";base64,"@ + stripped(c)
}

/// A data URL built from a line-feed-free content type has no line feed
/// anywhere: neither scheme, type nor stripped payload carries one.
pub proof fn lemma_data_url_no_newline(mime: Seq<char>, c: Seq<char>)
    requires
        no_newline(mime),
    ensures
        no_newline(data_url(mime, c)),
{
    reveal_strlit("data:");
    reveal_strlit(";base64,");
    lemma_stripped_no_newline(c);
    assert(no_newline("data:"@));
    assert(no_newline(";base64,"@));
}

/// The document body: placeholder prose before any cycle has succeeded, a
/// single inline image afterwards, carrying the value of its `src` attribute.
pub enum Body {
    Placeholder(String),
    Image(String),
}

/// The rendered tree: one nav of the given class holding one button, whose
/// click dispatches `button_msg`, and the body beside it.
pub struct Vdom {
    pub menu_class: String,
    pub button_label: String,
    pub button_msg: Msg,
    pub body: Body,
}

/// The body `b` projects the component's content: placeholder text while
/// `data` is empty, otherwise an image whose `src` is the data URL of the
/// content under content type `mime`.
pub open spec fn body_matches(data: Option<String>, mime: Seq<char>, b: Body) -> bool {
    match data {
        None => b matches Body::Placeholder(t) && t@ == "Data hasn't fetched yet."@,
        Some(c) => b matches Body::Image(src) && src@ == data_url(mime, c@),
    }
}

impl Model {
    /// The data-dependent part of the view: the placeholder paragraph, or the
    /// inline image whose `src` is the content's data URL. The `src` never
    /// contains a line feed.
    pub fn view_data(&self) -> (b: Body)
        requires
            self.wf(),
        ensures
            body_matches(self.data, self.mime_type@, b),
            b matches Body::Image(src) ==> no_newline(src@),
    {
        match &self.data {
            None => Body::Placeholder(String::from_str("Data hasn't fetched yet.")),
            Some(value) => {
                let payload = strip_newlines(value.as_str());
                let src = String::from_str("data:")
                    .concat(self.mime_type.as_str())
                    .concat(";base64,")
                    .concat(payload.as_str());
                proof {
                    assert(src@ =~= data_url(self.mime_type@, value@));
                    lemma_data_url_no_newline(self.mime_type@, value@);
                }
                Body::Image(src)
            },
        }
    }

    /// The whole view: a nav of class `menu` holding the fetch button and the
    /// body. The button dispatches `FetchData`; the body projects the state.
    pub fn view(&self) -> (v: Vdom)
        requires
            self.wf(),
        ensures
            v.menu_class@ == "menu"@,
            v.button_label@ == "Fetch Data"@,
            v.button_msg is FetchData,
            body_matches(self.data, self.mime_type@, v.body),
            v.body matches Body::Image(src) ==> no_newline(src@),
    {
        Vdom {
            menu_class: String::from_str("menu"),
            button_label: String::from_str("Fetch Data"),
            button_msg: Msg::FetchData,
            body: self.view_data(),
        }
    }
}

} // verus!
