//! Link nodes: text and other content tied to a destination.

use vstd::prelude::*;

use crate::geom::Length;

verus! {

/// A place inside the document.
#[derive(Debug, Clone, Copy, PartialEq, Eq, Structural)]
pub struct Location {
    /// The page, counted from one.
    pub page: u64,
    /// The horizontal position on the page.
    pub x: Length,
    /// The vertical position on the page.
    pub y: Length,
}

/// A link destination.
#[derive(Debug, Clone, PartialEq, Eq)]
pub enum Destination {
    /// A link to a URL.
    Url(String),
    /// A link to a place inside the document.
    Internal(Location),
}

/// Link text and other elements to a destination.
#[derive(Debug, Clone, PartialEq, Eq)]
pub struct LinkNode {
    /// The destination the link points to.
    pub dest: Destination,
    /// How the link is represented.
    pub body: String,
}

/// The value of a field of a link node.
#[derive(Debug, Clone, PartialEq, Eq)]
pub enum FieldValue {
    /// A URL.
    Str(String),
    /// A place inside the document.
    Location(Location),
    /// The body of the link.
    Content(String),
}

/// Why a link node could not be constructed.
#[derive(Debug, Clone, Copy, PartialEq, Eq, Structural)]
pub enum LinkError {
    /// A link to a place inside the document was given no body.
    MissingBody,
}

/// `s` with every leading repetition of the non-empty `prefix` removed.
pub open spec fn trimmed_start(s: Seq<char>, prefix: Seq<char>) -> Seq<char>
    decreases s.len(),
{
    if prefix.len() > 0 && prefix.len() <= s.len() && s.take(prefix.len() as int) == prefix {
        trimmed_start(s.skip(prefix.len() as int), prefix)
    } else {
        s
    }
}

/// The scheme that marks an e-mail address.
pub open spec fn mailto_scheme() -> Seq<char> {
    seq!['m', 'a', 'i', 'l', 't', 'o', ':']
}

/// The scheme that marks a telephone number.
pub open spec fn tel_scheme() -> Seq<char> {
    seq!['t', 'e', 'l', ':']
}

/// The bare text shown for a URL: the URL without leading `mailto:` and
/// then without leading `tel:` schemes.
pub open spec fn bare_text(url: Seq<char>) -> Seq<char> {
    trimmed_start(trimmed_start(url, mailto_scheme()), tel_scheme())
}

/// The name of the field that holds the destination.
pub open spec fn url_field() -> Seq<char> {
    seq!['u', 'r', 'l']
}

/// The name of the field that holds the body.
pub open spec fn body_field() -> Seq<char> {
    seq!['b', 'o', 'd', 'y']
}

/// Relies on str::trim_start_matches with a string pattern: it strips the
/// pattern from the start as often as it matches there.
#[verifier::external_body]
fn trim_start<'a>(s: &'a str, prefix: &str) -> (r: &'a str)
    requires
        prefix@.len() > 0,
    ensures
        r@ == trimmed_start(s@, prefix@),
{
    s.trim_start_matches(prefix)
}

/// Relies on `==` on str: equal exactly when the characters are.
#[verifier::external_body]
fn str_eq(a: &str, b: &str) -> (r: bool)
    ensures
        r == (a@ == b@),
{
    a == b
}

impl LinkNode {
    /// Create a link node from a URL with its bare text.
    pub fn from_url(url: String) -> (r: Self)
        ensures
            r.dest == Destination::Url(url),
            r.body@ == bare_text(url@),
    {
        let mailto = "mailto:";
        let tel = "tel:";
        proof {
            reveal_strlit("mailto:");
            reveal_strlit("tel:");
            assert(mailto@ == mailto_scheme());
            assert(tel@ == tel_scheme());
        }
        let text = trim_start(url.as_str(), mailto);
        let text = trim_start(text, tel);
        let body = text.to_owned();
        LinkNode { dest: Destination::Url(url), body }
    }

    /// Construct a link node from a destination and an optional body. A URL
    /// without a body shows its bare text; a place inside the document needs
    /// a body.
    pub fn construct(dest: Destination, body: Option<String>) -> (r: Result<Self, LinkError>)
        ensures
            r is Err <==> (dest is Internal && body is None),
            r is Err ==> r == Err::<Self, LinkError>(LinkError::MissingBody),
            r is Ok ==> r->Ok_0.dest == dest,
            r is Ok && body is Some ==> r->Ok_0.body == body->Some_0,
            body is None && dest is Url ==> r is Ok && r->Ok_0.body@ == bare_text(dest->Url_0@),
    {
        match dest {
            Destination::Url(url) => match body {
                Some(body) => Ok(LinkNode { dest: Destination::Url(url), body }),
                None => Ok(Self::from_url(url)),
            },
            Destination::Internal(loc) => match body {
                Some(body) => Ok(LinkNode { dest: Destination::Internal(loc), body }),
                None => Err(LinkError::MissingBody),
            },
        }
    }

    /// The content the link is shown as: its body.
    pub fn show(&self) -> (r: String)
        ensures
            r@ == self.body@,
    {
        self.body.clone()
    }

    /// The value of the field with the given name: `url` is the
    /// destination, `body` the body; other names have no value.
    pub fn field(&self, name: &str) -> (r: Option<FieldValue>)
        ensures
            name@ == url_field() ==> match self.dest {
                Destination::Url(url) => (r matches Some(FieldValue::Str(v)) && v@ == url@),
                Destination::Internal(loc) => r == Some(FieldValue::Location(loc)),
            },
            name@ == body_field() ==> (r matches Some(FieldValue::Content(b)) && b@ == self.body@),
            name@ != url_field() && name@ != body_field() ==> r is None,
    {
        let url_name = "url";
        let body_name = "body";
        proof {
            reveal_strlit("url");
            reveal_strlit("body");
            assert(url_name@ == url_field());
            assert(body_name@ == body_field());
        }
        if str_eq(name, url_name) {
            Some(
                match &self.dest {
                    Destination::Url(url) => FieldValue::Str(url.clone()),
                    Destination::Internal(loc) => FieldValue::Location(*loc),
                },
            )
        } else if str_eq(name, body_name) {
            Some(FieldValue::Content(self.body.clone()))
        } else {
            None
        }
    }
}

} // verus!
