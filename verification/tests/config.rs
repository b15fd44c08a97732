use blob_shared_key::canonical::Operation;
use blob_shared_key::config::{resolve, Intent, Settings};
use blob_shared_key::error::{Failure, Setting};
use blob_shared_key::request::Credentials;

fn complete() -> Settings {
    Settings {
        account_name: Some(String::from("acct")),
        account_key: Some(String::from("a2V5")),
        container_name: Some(String::from("c")),
        blob_name: Some(String::from("b.txt")),
        prefix: Some(String::from("logs/")),
    }
}

fn expected_credentials() -> Credentials {
    Credentials { account_name: String::from("acct"), account_key: String::from("a2V5") }
}

fn resolves_to(intent: Intent, settings: Settings, operation: Operation) -> bool {
    match resolve(intent, settings) {
        Ok((credentials, resolved)) => {
            credentials == expected_credentials() && resolved == operation
        }
        Err(_) => false,
    }
}

fn fails_for(intent: Intent, settings: Settings, setting: Setting) -> bool {
    match resolve(intent, settings) {
        Ok(_) => false,
        Err(found) => found == Failure::ConfigurationMissing(setting),
    }
}

#[test]
fn complete_settings_resolve_to_a_download() {
    assert!(resolves_to(
        Intent::Download,
        complete(),
        Operation::DownloadBlob { container: String::from("c"), blob: String::from("b.txt") }
    ));
}

#[test]
fn complete_settings_resolve_to_an_upload_with_its_payload() {
    assert!(resolves_to(
        Intent::Upload { payload: b"hello".to_vec() },
        complete(),
        Operation::UploadBlob {
            container: String::from("c"),
            blob: String::from("b.txt"),
            payload: b"hello".to_vec(),
        }
    ));
}

#[test]
fn a_listing_needs_no_blob_name_and_no_prefix() {
    let mut settings = complete();
    settings.blob_name = None;
    assert!(resolves_to(
        Intent::List,
        settings,
        Operation::ListBlobs { container: String::from("c"), prefix: String::from("logs/") }
    ));
    let mut bare = complete();
    bare.blob_name = None;
    bare.prefix = None;
    assert!(resolves_to(
        Intent::List,
        bare,
        Operation::ListBlobs { container: String::from("c"), prefix: String::new() }
    ));
}

#[test]
fn each_missing_value_is_named() {
    let mut settings = complete();
    settings.blob_name = None;
    assert!(fails_for(Intent::Download, settings.clone(), Setting::BlobName));
    assert!(fails_for(Intent::Upload { payload: vec![1] }, settings.clone(), Setting::BlobName));
    settings.container_name = None;
    assert!(fails_for(Intent::Download, settings.clone(), Setting::ContainerName));
    assert!(fails_for(Intent::List, settings.clone(), Setting::ContainerName));
    settings.account_key = None;
    assert!(fails_for(Intent::List, settings.clone(), Setting::AccountKey));
    settings.account_name = None;
    assert!(fails_for(Intent::Upload { payload: Vec::new() }, settings, Setting::AccountName));
}

#[test]
fn a_missing_value_is_not_mistaken_for_another() {
    let mut settings = complete();
    settings.account_key = None;
    assert!(!fails_for(Intent::Download, settings.clone(), Setting::AccountName));
    assert!(!resolves_to(
        Intent::Download,
        settings,
        Operation::DownloadBlob { container: String::from("c"), blob: String::from("b.txt") }
    ));
}

#[test]
fn an_empty_value_is_not_a_missing_one() {
    let mut settings = complete();
    settings.blob_name = Some(String::new());
    assert!(resolves_to(
        Intent::Download,
        settings,
        Operation::DownloadBlob { container: String::from("c"), blob: String::new() }
    ));
}
