//! Blob names out of the XML of a listing.
//!
//! The document is read as a sequence of tokens by the `xml` crate. A `Name`
//! start tag that character data follows at once yields that data as a blob
//! name, at whatever depth the element stands.

use crate::error::Failure;
use crate::text::same_text;
use vstd::prelude::*;
use vstd::string::*;
use xml::reader::{EventReader, XmlEvent};

verus! {

/// An `EventReader` of the `xml` crate over a document in memory. Its
/// contents are hidden; [`pending`] names the steps it has still to take.
#[verifier::external_body]
pub struct TokenReader<'a> {
    inner: EventReader<&'a [u8]>,
}

/// What the scan reads of one parser event.
#[derive(Clone, Debug, PartialEq, Eq)]
pub enum XmlToken {
    /// A start tag, with the local name of its element.
    ElementStart(String),
    /// Character data.
    Text(String),
    /// The end of the document.
    DocumentEnd,
    /// Any other event.
    Other,
}

/// A step of the parser: a token, or the report that the document is
/// malformed.
pub enum Step {
    ElementStart(Seq<char>),
    Text(Seq<char>),
    DocumentEnd,
    Other,
    Malformed,
}

impl Step {
    /// Whether the parser stops at this step.
    pub open spec fn is_last(self) -> bool {
        self is DocumentEnd || self is Malformed
    }
}

impl View for XmlToken {
    type V = Step;

    open spec fn view(&self) -> Step {
        match *self {
            XmlToken::ElementStart(name) => Step::ElementStart(name@),
            XmlToken::Text(text) => Step::Text(text@),
            XmlToken::DocumentEnd => Step::DocumentEnd,
            XmlToken::Other => Step::Other,
        }
    }
}

/// The steps that the parser takes through a document, up to the end of the
/// document or the first report that it is malformed.
pub uninterp spec fn xml_steps(document: Seq<char>) -> Seq<Step>;

/// The steps that a reader has still to take.
pub uninterp spec fn pending(reader: TokenReader) -> Seq<Step>;

/// `EventReader::from_str` of the `xml` crate. Trusted: what the reader will
/// yield is a function of the document alone, named [`xml_steps`].
#[verifier::external_body]
fn open_reader<'a>(document: &'a str) -> (reader: TokenReader<'a>)
    ensures
        pending(reader) == xml_steps(document@),
{
    TokenReader { inner: EventReader::from_str(document) }
}

/// `EventReader::next` of the `xml` crate. Trusted: the reader yields its
/// pending steps one by one; the end of the document and an error are
/// yielded again by every later call.
#[verifier::external_body]
fn next_token(reader: &mut TokenReader) -> (r: Result<XmlToken, xml::reader::Error>)
    ensures
        pending(*old(reader)).len() > 0,
        match r {
            Ok(token) => token@ == pending(*old(reader))[0],
            Err(_) => pending(*old(reader))[0] is Malformed,
        },
        pending(*final(reader)) == if pending(*old(reader))[0].is_last() {
            pending(*old(reader))
        } else {
            pending(*old(reader)).drop_first()
        },
{
    match reader.inner.next()? {
        XmlEvent::StartElement { name, .. } => Ok(XmlToken::ElementStart(name.local_name)),
        XmlEvent::Characters(text) => Ok(XmlToken::Text(text)),
        XmlEvent::EndDocument => Ok(XmlToken::DocumentEnd),
        _ => Ok(XmlToken::Other),
    }
}

/// The blob names among the steps of a parser: the text of each `Text` step
/// that directly follows the start of a `Name` element, in document order,
/// up to the step at which the parser stops. `after_name` says whether such
/// a start precedes the first step.
pub open spec fn names_in(steps: Seq<Step>, after_name: bool) -> Seq<Seq<char>>
    decreases steps.len(),
{
    if steps.len() == 0 || steps[0].is_last() {
        Seq::empty()
    } else {
        let rest = names_in(steps.drop_first(), steps[0] == Step::ElementStart("Name"@));
        match steps[0] {
            Step::Text(text) => if after_name {
                seq![text] + rest
            } else {
                rest
            },
            _ => rest,
        }
    }
}

/// Whether the parser stops on a malformed document rather than at the end
/// of a well-formed one.
pub open spec fn ends_malformed(steps: Seq<Step>) -> bool
    decreases steps.len(),
{
    if steps.len() == 0 {
        false
    } else if steps[0].is_last() {
        steps[0] is Malformed
    } else {
        ends_malformed(steps.drop_first())
    }
}

/// The blob names of a listing, read one at a time as the document is
/// parsed. The sequence is finite and cannot be restarted.
pub struct BlobNames<'a> {
    reader: TokenReader<'a>,
    after_name: bool,
    halted: bool,
}

impl<'a> BlobNames<'a> {
    /// The names that are still to come, in their order.
    pub closed spec fn upcoming(&self) -> Seq<Seq<char>> {
        if self.halted {
            Seq::empty()
        } else {
            names_in(pending(self.reader), self.after_name)
        }
    }

    /// Whether a parse failure is still to come, after the upcoming names.
    pub closed spec fn failure_ahead(&self) -> bool {
        !self.halted && ends_malformed(pending(self.reader))
    }

    /// Starts reading the names of a listing.
    pub fn new(document: &'a str) -> (names: Self)
        ensures
            names.upcoming() == names_in(xml_steps(document@), false),
            names.failure_ahead() == ends_malformed(xml_steps(document@)),
    {
        BlobNames { reader: open_reader(document), after_name: false, halted: false }
    }

    /// The next name. Malformed XML is reported once, as
    /// [`Failure::ResponseParseError`], after the names that precede it, and
    /// ends the sequence; `None` is returned from the end on.
    pub fn next_name(&mut self) -> (r: Option<Result<String, Failure>>)
        ensures
            match r {
                Some(Ok(name)) => {
                    &&& old(self).upcoming().len() > 0
                    &&& name@ == old(self).upcoming()[0]
                    &&& final(self).upcoming() == old(self).upcoming().drop_first()
                    &&& final(self).failure_ahead() == old(self).failure_ahead()
                },
                Some(Err(e)) => {
                    &&& e == Failure::ResponseParseError
                    &&& old(self).upcoming().len() == 0
                    &&& old(self).failure_ahead()
                    &&& final(self).upcoming().len() == 0
                    &&& !final(self).failure_ahead()
                },
                None => {
                    &&& old(self).upcoming().len() == 0
                    &&& !old(self).failure_ahead()
                    &&& final(self).upcoming().len() == 0
                    &&& !final(self).failure_ahead()
                },
            },
    {
        if self.halted {
            return None;
        }
        loop
            invariant
                !self.halted,
                names_in(pending(self.reader), self.after_name) == old(self).upcoming(),
                ends_malformed(pending(self.reader)) == old(self).failure_ahead(),
            decreases pending(self.reader).len(),
        {
            match next_token(&mut self.reader) {
                Err(_) => {
                    self.halted = true;
                    return Some(Err(Failure::ResponseParseError));
                },
                Ok(XmlToken::DocumentEnd) => {
                    self.halted = true;
                    return None;
                },
                Ok(XmlToken::Text(text)) => {
                    if self.after_name {
                        self.after_name = false;
                        return Some(Ok(text));
                    }
                },
                Ok(XmlToken::ElementStart(name)) => {
                    self.after_name = same_text(name.as_str(), "Name");
                },
                Ok(XmlToken::Other) => {
                    self.after_name = false;
                },
            }
        }
    }
}

/// The texts of a list of names, in its order.
pub open spec fn name_views(names: Seq<String>) -> Seq<Seq<char>> {
    names.map_values(|name: String| name@)
}

/// What a listing held.
#[derive(Clone, Debug, PartialEq, Eq)]
pub struct Listing {
    /// The blob names, in document order. Where `failure` is set, these are
    /// the names that precede the malformed part.
    pub names: Vec<String>,
    /// [`Failure::ResponseParseError`] where the document is malformed.
    pub failure: Option<Failure>,
}

/// Reads all blob names of a listing.
pub fn blob_names(document: &str) -> (listing: Listing)
    ensures
        name_views(listing.names@) == names_in(xml_steps(document@), false),
        listing.failure == if ends_malformed(xml_steps(document@)) {
            Some(Failure::ResponseParseError)
        } else {
            None
        },
{
    let mut scanner = BlobNames::new(document);
    let mut names: Vec<String> = Vec::new();
    loop
        invariant
            name_views(names@) + scanner.upcoming() == names_in(xml_steps(document@), false),
            scanner.failure_ahead() == ends_malformed(xml_steps(document@)),
        decreases scanner.upcoming().len(),
    {
        match scanner.next_name() {
            Some(Ok(name)) => {
                names.push(name);
            },
            Some(Err(e)) => {
                return Listing { names, failure: Some(e) };
            },
            None => {
                return Listing { names, failure: None };
            },
        }
    }
}

} // verus!
