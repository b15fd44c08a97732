//! The outbound request: URL, headers and body, signed for one moment.

use crate::canonical::{
    canonical_string, string_to_sign, Method, Operation, OperationView, API_VERSION,
};
use crate::error::Failure;
use crate::query::{param_views, ParamView, QueryParam};
use crate::signer::{authorization_header, authorization_value, generate_signature_b64, signature};
use crate::text::{decimal, decimal_text};
use vstd::prelude::*;
use vstd::string::*;

verus! {

/// The identity under which requests are signed. The type has no `Debug`
/// form, so that the key is not printed by accident.
#[derive(Clone, PartialEq, Eq)]
pub struct Credentials {
    pub account_name: String,
    /// The shared secret, as base64 text.
    pub account_key: String,
}

/// A header of a request.
#[derive(Clone, Debug, PartialEq, Eq)]
pub struct Header {
    pub name: String,
    pub value: String,
}

/// A header as a pair of name and value.
pub type HeaderView = (Seq<char>, Seq<char>);

impl View for Header {
    type V = HeaderView;

    open spec fn view(&self) -> HeaderView {
        (self.name@, self.value@)
    }
}

/// The headers of a list, in its order.
pub open spec fn header_views(headers: Seq<Header>) -> Seq<HeaderView> {
    headers.map_values(|h: Header| h@)
}

/// A request, ready to be sent.
#[derive(Clone, Debug, PartialEq, Eq)]
pub struct Request {
    pub method: Method,
    pub url: String,
    pub headers: Vec<Header>,
    /// The bytes to send; `None` where the method sends none.
    pub body: Option<Vec<u8>>,
}

/// A [`Request`] as plain sequences.
pub struct RequestView {
    pub method: Method,
    pub url: Seq<char>,
    pub headers: Seq<HeaderView>,
    pub body: Option<Seq<u8>>,
}

impl View for Request {
    type V = RequestView;

    open spec fn view(&self) -> RequestView {
        RequestView {
            method: self.method,
            url: self.url@,
            headers: header_views(self.headers@),
            body: match self.body {
                Some(bytes) => Some(bytes@),
                None => None,
            },
        }
    }
}

/// The query of a URL: `?` before the first parameter, `&` before each
/// other, each parameter as `name=value`, in the order given.
pub open spec fn url_query(params: Seq<ParamView>) -> Seq<char>
    decreases params.len(),
{
    if params.len() == 0 {
        Seq::empty()
    } else {
        url_query(params.drop_last()) + (if params.len() == 1 {
            "?"@
        } else {
            "&"@
        }) + params.last().0 + "="@ + params.last().1
    }
}

/// The URL of an operation on an account.
pub open spec fn request_url(op: OperationView, account_name: Seq<char>) -> Seq<char> {
    "https://"@ + account_name + ".blob.core.windows.net/"@ + op.container() + "/"@ + op.blob()
        + url_query(op.query())
}

/// The headers of an operation, in the order in which they are set: the
/// time, the API version and the authorization, and for an upload also the
/// blob type, the length and the type of the body.
pub open spec fn request_headers(
    op: OperationView,
    timestamp: Seq<char>,
    version: Seq<char>,
    authorization: Seq<char>,
) -> Seq<HeaderView> {
    if op is UploadBlob {
        seq![
            ("x-ms-date"@, timestamp),
            ("x-ms-version"@, version),
            ("x-ms-blob-type"@, "BlockBlob"@),
            ("Authorization"@, authorization),
            ("Content-Length"@, decimal(op.payload_len())),
            ("Content-Type"@, "application/octet-stream"@),
        ]
    } else {
        seq![("x-ms-date"@, timestamp), ("x-ms-version"@, version), ("Authorization"@, authorization)]
    }
}

/// The body of an operation.
pub open spec fn request_body(op: OperationView) -> Option<Seq<u8>> {
    match op {
        OperationView::UploadBlob { payload, .. } => Some(payload),
        _ => None,
    }
}

/// The request of an operation on an account at a time, under an
/// `Authorization` value.
pub open spec fn assembled(
    op: OperationView,
    account_name: Seq<char>,
    timestamp: Seq<char>,
    version: Seq<char>,
    authorization: Seq<char>,
) -> RequestView {
    RequestView {
        method: op.method(),
        url: request_url(op, account_name),
        headers: request_headers(op, timestamp, version, authorization),
        body: request_body(op),
    }
}

/// The outcome of signing an operation: an empty upload is refused where
/// `reject_empty_payload` is set; a key that cannot be used fails as
/// [`signature`] says; otherwise the request carries the signature of its
/// canonical string.
pub open spec fn signed(
    credentials: Credentials,
    op: OperationView,
    timestamp: Seq<char>,
    version: Seq<char>,
    reject_empty_payload: bool,
) -> Result<RequestView, Failure> {
    if reject_empty_payload && op is UploadBlob && op.payload_len() == 0 {
        Err(Failure::PayloadReadError)
    } else {
        match signature(
            credentials.account_key@,
            canonical_string(op, credentials.account_name@, timestamp, version),
        ) {
            Err(e) => Err(e),
            Ok(text) => Ok(
                assembled(
                    op,
                    credentials.account_name@,
                    timestamp,
                    version,
                    authorization_value(credentials.account_name@, text),
                ),
            ),
        }
    }
}

fn header(name: &str, value: &str) -> (r: Header)
    ensures
        r@ == (name@, value@),
{
    Header { name: String::from_str(name), value: String::from_str(value) }
}

/// Writes the query of a URL.
pub fn url_query_text(params: &Vec<QueryParam>) -> (r: String)
    ensures
        r@ == url_query(param_views(params@)),
{
    let ghost views = param_views(params@);
    let mut text = String::new();
    let mut i: usize = 0;
    while i < params.len()
        invariant
            i <= params@.len(),
            views == param_views(params@),
            text@ == url_query(views.take(i as int)),
        decreases params@.len() - i,
    {
        assert(views.take(i + 1).drop_last() =~= views.take(i as int));
        text.append(if i == 0 { "?" } else { "&" });
        text.append(params[i].name.as_str());
        text.append("=");
        text.append(params[i].value.as_str());
        i += 1;
    }
    assert(views.take(i as int) =~= views);
    text
}

/// Writes the URL of an operation on an account.
pub fn request_url_text(op: &Operation, account_name: &str) -> (r: String)
    ensures
        r@ == request_url(op@, account_name@),
{
    let mut url = String::from_str("https://");
    url.append(account_name);
    url.append(".blob.core.windows.net/");
    url.append(op.container());
    url.append("/");
    url.append(op.blob());
    url.append(url_query_text(&op.query()).as_str());
    url
}

/// Assembles the request of an operation. Nothing is sent.
pub fn assemble(op: Operation, account_name: &str, timestamp: &str, authorization: &str) -> (r:
    Request)
    ensures
        r@ == assembled(op@, account_name@, timestamp@, API_VERSION@, authorization@),
{
    let method = op.method();
    let url = request_url_text(&op, account_name);
    let mut headers: Vec<Header> = Vec::new();
    headers.push(header("x-ms-date", timestamp));
    headers.push(header("x-ms-version", API_VERSION));
    let body = match op {
        Operation::UploadBlob { payload, .. } => {
            headers.push(header("x-ms-blob-type", "BlockBlob"));
            headers.push(header("Authorization", authorization));
            headers.push(header("Content-Length", decimal_text(payload.len() as u64).as_str()));
            headers.push(header("Content-Type", "application/octet-stream"));
            Some(payload)
        },
        _ => {
            headers.push(header("Authorization", authorization));
            None
        },
    };
    let request = Request { method, url, headers, body };
    assert(request@.headers =~= request_headers(
        op@,
        timestamp@,
        API_VERSION@,
        authorization@,
    ));
    request
}

/// Signs an operation for the moment `timestamp` and assembles its request.
/// With `reject_empty_payload` an upload of no bytes is refused before
/// anything is signed.
pub fn sign_request(
    credentials: &Credentials,
    op: Operation,
    timestamp: &str,
    reject_empty_payload: bool,
) -> (r: Result<Request, Failure>)
    ensures
        match r {
            Ok(request) => signed(*credentials, op@, timestamp@, API_VERSION@, reject_empty_payload)
                == Ok::<RequestView, Failure>(request@),
            Err(e) => signed(*credentials, op@, timestamp@, API_VERSION@, reject_empty_payload)
                == Err::<RequestView, Failure>(e),
        },
{
    if reject_empty_payload && op.method() == Method::Put && op.payload_len() == 0 {
        return Err(Failure::PayloadReadError);
    }
    let account_name = credentials.account_name.as_str();
    let text = string_to_sign(&op, account_name, timestamp);
    match generate_signature_b64(credentials.account_key.as_str(), text.as_str()) {
        Err(e) => Err(e),
        Ok(signature_b64) => {
            let authorization = authorization_header(account_name, signature_b64.as_str());
            Ok(assemble(op, account_name, timestamp, authorization.as_str()))
        },
    }
}

/// `Utc::now` and `DateTime::format` of the `chrono` crate: the present time
/// in GMT in the style of RFC 1123. Trusted, with nothing claimed of the
/// text: it depends on the clock. `Utc::now` panics where the system clock
/// stands before 1970.
#[verifier::external_body]
fn utc_now_text() -> String {
    chrono::Utc::now().format("%a, %d %b %Y %H:%M:%S GMT").to_string()
}

/// Signs an operation for the present moment. The time is read once; the
/// text returned with the outcome is the one that was signed and that the
/// request carries as `x-ms-date`.
pub fn sign_request_now(credentials: &Credentials, op: Operation, reject_empty_payload: bool) -> (r:
    (String, Result<Request, Failure>))
    ensures
        match r.1 {
            Ok(request) => signed(*credentials, op@, r.0@, API_VERSION@, reject_empty_payload)
                == Ok::<RequestView, Failure>(request@),
            Err(e) => signed(*credentials, op@, r.0@, API_VERSION@, reject_empty_payload) == Err::<
                RequestView,
                Failure,
            >(e),
        },
{
    let timestamp = utc_now_text();
    let outcome = sign_request(credentials, op, timestamp.as_str(), reject_empty_payload);
    (timestamp, outcome)
}

/// The time that is signed is the time that is sent: a signed request
/// carries as `x-ms-date` the very text that its canonical string holds, and
/// its `Authorization` value is made from the signature of that string.
pub proof fn lemma_signed_time_is_sent(
    credentials: Credentials,
    op: OperationView,
    timestamp: Seq<char>,
    version: Seq<char>,
    reject_empty_payload: bool,
)
    ensures
        signed(credentials, op, timestamp, version, reject_empty_payload) matches Ok(request) ==> {
            &&& request.headers[0] == ("x-ms-date"@, timestamp)
            &&& signature(
                credentials.account_key@,
                canonical_string(op, credentials.account_name@, timestamp, version),
            ) matches Ok(text)
            &&& request.headers.contains(
                ("Authorization"@, authorization_value(credentials.account_name@, text)),
            )
        },
{
    if signed(credentials, op, timestamp, version, reject_empty_payload) is Ok {
        let sent = request_headers(
            op,
            timestamp,
            version,
            authorization_value(
                credentials.account_name@,
                signature(
                    credentials.account_key@,
                    canonical_string(op, credentials.account_name@, timestamp, version),
                )->Ok_0,
            ),
        );
        assert(sent.contains(if op is UploadBlob {
            sent[3]
        } else {
            sent[2]
        }));
    }
}

} // verus!
