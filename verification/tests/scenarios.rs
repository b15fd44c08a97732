use blob_shared_key::canonical::{Method, Operation};
use blob_shared_key::error::Failure;
use blob_shared_key::request::{sign_request, Credentials, Request};
use blob_shared_key::response::{download_outcome, listing_outcome, upload_outcome};

const TIME: &str = "Tue, 01 Jan 2019 00:00:00 GMT";

fn credentials() -> Credentials {
    Credentials {
        account_name: String::from("acct"),
        account_key: String::from("MDEyMzQ1Njc4OWFiY2RlZjAxMjM0NTY3ODlhYmNkZWY="),
    }
}

/// A transport that sends nothing: it records the request and answers with
/// a fixed status and body.
struct MockTransport {
    status: u16,
    body: Vec<u8>,
    sent: Vec<Request>,
}

impl MockTransport {
    fn answering(status: u16, body: &[u8]) -> Self {
        MockTransport { status, body: body.to_vec(), sent: Vec::new() }
    }

    fn send(&mut self, request: Request) -> (u16, Vec<u8>) {
        self.sent.push(request);
        (self.status, self.body.clone())
    }
}

fn authorization(request: &Request) -> &str {
    let header = request.headers.iter().find(|header| header.name == "Authorization");
    header.map(|header| header.value.as_str()).unwrap_or("")
}

#[test]
fn download_scenario_stores_the_bytes_of_the_answer() {
    let mut transport = MockTransport::answering(200, b"hello");
    let op = Operation::DownloadBlob { container: String::from("c"), blob: String::from("b.txt") };
    let request = sign_request(&credentials(), op, TIME, false).unwrap();
    assert_eq!(
        authorization(&request),
        "SharedKey acct:NxQ1wsglSDBhylkbIXvIaSJhuKcKMOEPvyumDtQNeLY="
    );
    let (status, body) = transport.send(request);
    let mut destination: Vec<u8> = Vec::new();
    destination.extend_from_slice(&download_outcome(status, body).unwrap());
    assert_eq!(destination, b"hello");
    assert_eq!(transport.sent.len(), 1);
    assert_eq!(transport.sent[0].method, Method::Get);
    assert_eq!(transport.sent[0].url, "https://acct.blob.core.windows.net/c/b.txt");
}

#[test]
fn list_scenario_yields_both_names_in_order() {
    let mut transport = MockTransport::answering(
        200,
        b"<EnumerationResults><Blobs><Blob><Name>a.txt</Name></Blob><Blob><Name>b.txt</Name></Blob></Blobs></EnumerationResults>",
    );
    let op = Operation::ListBlobs { container: String::from("c"), prefix: String::new() };
    let request = sign_request(&credentials(), op, TIME, false).unwrap();
    let (status, body) = transport.send(request);
    let listing = listing_outcome(status, &String::from_utf8_lossy(&body)).unwrap();
    assert_eq!(listing.names, vec![String::from("a.txt"), String::from("b.txt")]);
    assert_eq!(listing.failure, None);
    assert_eq!(
        transport.sent[0].url,
        "https://acct.blob.core.windows.net/c/?comp=list&restype=container&prefix="
    );
}

#[test]
fn upload_failure_scenario_reports_status_403() {
    let mut transport = MockTransport::answering(403, b"AuthenticationFailed");
    let op = Operation::UploadBlob {
        container: String::from("c"),
        blob: String::from("b.txt"),
        payload: b"hello".to_vec(),
    };
    let request = sign_request(&credentials(), op, TIME, true).unwrap();
    let (status, body) = transport.send(request);
    let outcome = upload_outcome(status, body);
    assert_eq!(
        outcome,
        Err(Failure::RemoteRejection { status: 403, body: b"AuthenticationFailed".to_vec() })
    );
    assert_ne!(outcome, Err(Failure::ResponseParseError));
    assert_eq!(transport.sent[0].body, Some(b"hello".to_vec()));
}

#[test]
fn refused_upload_never_reaches_the_transport() {
    let mut transport = MockTransport::answering(201, b"");
    let op = Operation::UploadBlob {
        container: String::from("c"),
        blob: String::from("b.txt"),
        payload: Vec::new(),
    };
    match sign_request(&credentials(), op, TIME, true) {
        Ok(request) => {
            transport.send(request);
        }
        Err(failure) => assert_eq!(failure, Failure::PayloadReadError),
    }
    assert!(transport.sent.is_empty());
}
