//! The canonical string of a request: the text that is signed.
//!
//! The layout is fixed byte for byte. Twelve slots for standard headers come
//! first, each closed by a line feed whether or not it holds a value; then
//! the `x-ms-*` headers in ascending order of their names, one per line; then
//! the resource, followed for a listing by its query parameters.

use crate::query::{
    canonical_order, lemma_param_order_total, param_le, param_order, param_views, sort_params,
    ParamView, QueryParam,
};
use crate::text::lemma_decimal_shape;
use crate::text::{decimal, decimal_text};
use vstd::prelude::*;
use vstd::relations::*;
use vstd::seq_lib::*;
use vstd::string::*;
use vstd::utf8::*;

verus! {

/// The version of the service API that requests are made and signed for.
pub const API_VERSION: &'static str = "2019-12-12";

/// The HTTP method of a request.
#[derive(Clone, Copy, Debug, PartialEq, Eq, Structural)]
pub enum Method {
    Get,
    Put,
}

impl Method {
    /// The verb as it is written in a request and signed.
    pub open spec fn name(self) -> Seq<char> {
        match self {
            Method::Get => "GET"@,
            Method::Put => "PUT"@,
        }
    }

    /// The verb as it is written in a request and signed.
    pub fn as_str(self) -> (r: &'static str)
        ensures
            r@ == self.name(),
    {
        match self {
            Method::Get => "GET",
            Method::Put => "PUT",
        }
    }
}

/// What is asked of the service, with the target it is asked for.
#[derive(Clone, Debug, PartialEq, Eq)]
pub enum Operation {
    /// Fetch a blob.
    DownloadBlob { container: String, blob: String },
    /// List the blobs of a container whose names start with `prefix`.
    ListBlobs { container: String, prefix: String },
    /// Store `payload` as a block blob.
    UploadBlob { container: String, blob: String, payload: Vec<u8> },
}

/// An [`Operation`] as plain sequences.
pub enum OperationView {
    DownloadBlob { container: Seq<char>, blob: Seq<char> },
    ListBlobs { container: Seq<char>, prefix: Seq<char> },
    UploadBlob { container: Seq<char>, blob: Seq<char>, payload: Seq<u8> },
}

impl View for Operation {
    type V = OperationView;

    open spec fn view(&self) -> OperationView {
        match *self {
            Operation::DownloadBlob { container, blob } => OperationView::DownloadBlob {
                container: container@,
                blob: blob@,
            },
            Operation::ListBlobs { container, prefix } => OperationView::ListBlobs {
                container: container@,
                prefix: prefix@,
            },
            Operation::UploadBlob { container, blob, payload } => OperationView::UploadBlob {
                container: container@,
                blob: blob@,
                payload: payload@,
            },
        }
    }
}

impl OperationView {
    /// The HTTP method: `PUT` to upload, `GET` otherwise.
    pub open spec fn method(self) -> Method {
        if self is UploadBlob {
            Method::Put
        } else {
            Method::Get
        }
    }

    /// The container that is addressed.
    pub open spec fn container(self) -> Seq<char> {
        match self {
            OperationView::DownloadBlob { container, .. } => container,
            OperationView::ListBlobs { container, .. } => container,
            OperationView::UploadBlob { container, .. } => container,
        }
    }

    /// The blob that is addressed; empty for a listing, which addresses the
    /// container itself.
    pub open spec fn blob(self) -> Seq<char> {
        match self {
            OperationView::DownloadBlob { blob, .. } => blob,
            OperationView::ListBlobs { .. } => Seq::empty(),
            OperationView::UploadBlob { blob, .. } => blob,
        }
    }

    /// The query parameters, in the order in which the URL carries them. An
    /// empty prefix is still a parameter.
    pub open spec fn query(self) -> Seq<ParamView> {
        match self {
            OperationView::ListBlobs { prefix, .. } => seq![
                ("comp"@, "list"@),
                ("restype"@, "container"@),
                ("prefix"@, prefix),
            ],
            _ => Seq::empty(),
        }
    }

    /// The number of bytes that are sent as the body.
    pub open spec fn payload_len(self) -> nat {
        match self {
            OperationView::UploadBlob { payload, .. } => payload.len(),
            _ => 0,
        }
    }

    /// The `Content-Length` slot: the decimal byte count of a body, and blank
    /// where there is no body or the body is empty. It never reads `0`.
    pub open spec fn content_length_slot(self) -> Seq<char> {
        if self.payload_len() == 0 {
            Seq::empty()
        } else {
            decimal(self.payload_len())
        }
    }

    /// The `Content-Type` slot.
    pub open spec fn content_type_slot(self) -> Seq<char> {
        if self is UploadBlob {
            "application/octet-stream"@
        } else {
            Seq::empty()
        }
    }
}

/// The `x-ms-*` headers, one per line, in ascending order of their names.
pub open spec fn canonical_headers(op: OperationView, timestamp: Seq<char>, version: Seq<char>) -> Seq<
    char,
> {
    (if op is UploadBlob {
        "x-ms-blob-type:BlockBlob\n"@
    } else {
        Seq::empty()
    }) + "x-ms-date:"@ + timestamp + "\n"@ + "x-ms-version:"@ + version + "\n"@
}

/// One line per parameter, each opened by a line feed, as `name:value`.
pub open spec fn query_lines(params: Seq<ParamView>) -> Seq<char>
    decreases params.len(),
{
    if params.len() == 0 {
        Seq::empty()
    } else {
        query_lines(params.drop_last()) + "\n"@ + params.last().0 + ":"@ + params.last().1
    }
}

/// The resource: account, container and blob as a path, not percent-encoded,
/// followed by the query parameters in their signing order.
pub open spec fn canonical_resource(op: OperationView, account_name: Seq<char>) -> Seq<char> {
    "/"@ + account_name + "/"@ + op.container() + "/"@ + op.blob() + query_lines(
        canonical_order(op.query()),
    )
}

/// The canonical string of an operation on an account at a time.
pub open spec fn canonical_string(
    op: OperationView,
    account_name: Seq<char>,
    timestamp: Seq<char>,
    version: Seq<char>,
) -> Seq<char> {
    op.method().name() + "\n"@  // verb
     + "\n"@  // Content-Encoding
     + "\n"@  // Content-Language
     + op.content_length_slot() + "\n"@  // Content-Length
     + "\n"@  // Content-MD5
     + op.content_type_slot() + "\n"@  // Content-Type
     + "\n"@  // Date: the time travels as x-ms-date
     + "\n"@  // If-Modified-Since
     + "\n"@  // If-Match
     + "\n"@  // If-None-Match
     + "\n"@  // If-Unmodified-Since
     + "\n"@  // Range
     + canonical_headers(op, timestamp, version) + canonical_resource(op, account_name)
}

impl Operation {
    /// The HTTP method: `PUT` to upload, `GET` otherwise.
    pub fn method(&self) -> (r: Method)
        ensures
            r == self@.method(),
    {
        match self {
            Operation::UploadBlob { .. } => Method::Put,
            _ => Method::Get,
        }
    }

    /// The blob that is addressed; empty for a listing.
    pub fn blob(&self) -> (r: &str)
        ensures
            r@ == self@.blob(),
    {
        match self {
            Operation::DownloadBlob { blob, .. } => blob.as_str(),
            Operation::UploadBlob { blob, .. } => blob.as_str(),
            Operation::ListBlobs { .. } => {
                proof {
                    reveal_strlit("");
                }
                ""
            },
        }
    }

    /// The container that is addressed.
    pub fn container(&self) -> (r: &str)
        ensures
            r@ == self@.container(),
    {
        match self {
            Operation::DownloadBlob { container, .. } => container.as_str(),
            Operation::ListBlobs { container, .. } => container.as_str(),
            Operation::UploadBlob { container, .. } => container.as_str(),
        }
    }

    /// The query parameters, in the order in which the URL carries them.
    pub fn query(&self) -> (r: Vec<QueryParam>)
        ensures
            param_views(r@) == self@.query(),
    {
        let mut params: Vec<QueryParam> = Vec::new();
        match self {
            Operation::ListBlobs { prefix, .. } => {
                params.push(
                    QueryParam { name: String::from_str("comp"), value: String::from_str("list") },
                );
                params.push(
                    QueryParam {
                        name: String::from_str("restype"),
                        value: String::from_str("container"),
                    },
                );
                params.push(QueryParam { name: String::from_str("prefix"), value: prefix.clone() });
            },
            _ => {},
        }
        params
    }

    /// The number of bytes that are sent as the body.
    pub fn payload_len(&self) -> (r: usize)
        ensures
            r == self@.payload_len(),
    {
        match self {
            Operation::UploadBlob { payload, .. } => payload.len(),
            _ => 0,
        }
    }
}

fn content_length_text(op: &Operation) -> (r: String)
    ensures
        r@ == op@.content_length_slot(),
{
    let len = op.payload_len();
    if len == 0 {
        String::new()
    } else {
        decimal_text(len as u64)
    }
}

fn content_type_text(op: &Operation) -> (r: &'static str)
    ensures
        r@ == op@.content_type_slot(),
{
    match op {
        Operation::UploadBlob { .. } => "application/octet-stream",
        _ => {
            proof {
                reveal_strlit("");
            }
            ""
        },
    }
}

fn canonical_headers_text(op: &Operation, timestamp: &str) -> (r: String)
    ensures
        r@ == canonical_headers(op@, timestamp@, API_VERSION@),
{
    let mut text = match op {
        Operation::UploadBlob { .. } => String::from_str("x-ms-blob-type:BlockBlob\n"),
        _ => String::new(),
    };
    text.append("x-ms-date:");
    text.append(timestamp);
    text.append("\n");
    text.append("x-ms-version:");
    text.append(API_VERSION);
    text.append("\n");
    text
}

/// Writes one line per parameter, in the order given.
pub fn query_lines_text(params: &Vec<QueryParam>) -> (r: String)
    ensures
        r@ == query_lines(param_views(params@)),
{
    let ghost views = param_views(params@);
    let mut text = String::new();
    let mut i: usize = 0;
    while i < params.len()
        invariant
            i <= params@.len(),
            views == param_views(params@),
            text@ == query_lines(views.take(i as int)),
        decreases params@.len() - i,
    {
        assert(views.take(i + 1).drop_last() =~= views.take(i as int));
        text.append("\n");
        text.append(params[i].name.as_str());
        text.append(":");
        text.append(params[i].value.as_str());
        i += 1;
    }
    assert(views.take(i as int) =~= views);
    text
}

/// Writes the resource of an operation on an account.
pub fn canonical_resource_text(op: &Operation, account_name: &str) -> (r: String)
    ensures
        r@ == canonical_resource(op@, account_name@),
{
    let mut text = String::from_str("/");
    text.append(account_name);
    text.append("/");
    text.append(op.container());
    text.append("/");
    text.append(op.blob());
    let lines = query_lines_text(&sort_params(op.query()));
    text.append(lines.as_str());
    text
}

/// Writes the canonical string of an operation on an account at a time.
pub fn string_to_sign(op: &Operation, account_name: &str, timestamp: &str) -> (r: String)
    ensures
        r@ == canonical_string(op@, account_name@, timestamp@, API_VERSION@),
{
    let mut text = String::from_str(op.method().as_str());
    text.append("\n");
    text.append("\n");
    text.append("\n");
    text.append(content_length_text(op).as_str());
    text.append("\n");
    text.append("\n");
    text.append(content_type_text(op));
    text.append("\n");
    text.append("\n");
    text.append("\n");
    text.append("\n");
    text.append("\n");
    text.append("\n");
    text.append("\n");
    text.append(canonical_headers_text(op, timestamp).as_str());
    text.append(canonical_resource_text(op, account_name).as_str());
    text
}

/// An empty body leaves the `Content-Length` slot blank, and whatever the
/// body, the slot never reads `0`.
pub proof fn lemma_content_length_slot_never_zero(op: OperationView)
    ensures
        op.payload_len() == 0 ==> op.content_length_slot() == Seq::<char>::empty(),
        op.content_length_slot() != "0"@,
{
    reveal_strlit("0");
    lemma_decimal_shape(op.payload_len());
}

/// A listing signs its parameters as `comp`, `prefix`, `restype`, whatever
/// the prefix, though its URL carries them in another order.
pub proof fn lemma_listing_is_signed_in_name_order(container: Seq<char>, prefix: Seq<char>)
    ensures
        canonical_order((OperationView::ListBlobs { container, prefix }).query()) == seq![
            ("comp"@, "list"@),
            ("prefix"@, prefix),
            ("restype"@, "container"@),
        ],
        query_lines(canonical_order((OperationView::ListBlobs { container, prefix }).query()))
            == "\n"@ + "comp"@ + ":"@ + "list"@ + "\n"@ + "prefix"@ + ":"@ + prefix + "\n"@
            + "restype"@ + ":"@ + "container"@,
{
    let comp = ("comp"@, "list"@);
    let restype = ("restype"@, "container"@);
    let by_prefix = ("prefix"@, prefix);
    let given = (OperationView::ListBlobs { container, prefix }).query();
    let sorted = seq![comp, by_prefix, restype];
    lemma_param_order_total();
    given.lemma_sort_by_ensures(param_order());
    assert(param_le(comp, by_prefix) && param_le(by_prefix, restype) && param_le(comp, restype))
        by {
        reveal_strlit("comp");
        reveal_strlit("prefix");
        reveal_strlit("restype");
        is_ascii_chars_encode_utf8("comp"@);
        is_ascii_chars_encode_utf8("prefix"@);
        is_ascii_chars_encode_utf8("restype"@);
    }
    assert(sorted.to_multiset() =~= given.to_multiset()) by {
        broadcast use vstd::multiset::group_multiset_axioms;

        let none = Seq::<ParamView>::empty();
        assert(given =~= none.push(comp).push(restype).push(by_prefix));
        assert(sorted =~= none.push(comp).push(by_prefix).push(restype));
        to_multiset_build(none, comp);
        to_multiset_build(none.push(comp), restype);
        to_multiset_build(none.push(comp).push(restype), by_prefix);
        to_multiset_build(none.push(comp), by_prefix);
        to_multiset_build(none.push(comp).push(by_prefix), restype);
    }
    lemma_sorted_unique(sorted, canonical_order(given), param_order());
    assert(query_lines(sorted) == "\n"@ + "comp"@ + ":"@ + "list"@ + "\n"@ + "prefix"@ + ":"@
        + prefix + "\n"@ + "restype"@ + ":"@ + "container"@) by {
        let two = sorted.drop_last();
        let one = two.drop_last();
        assert(query_lines(one.drop_last()) =~= Seq::<char>::empty());
        assert(query_lines(two) =~= query_lines(one) + "\n"@ + "prefix"@ + ":"@ + prefix);
    }
}

} // verus!
