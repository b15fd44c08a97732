//! From configuration values to credentials and an operation.

use crate::canonical::{Operation, OperationView};
use crate::error::{Failure, Setting};
use crate::request::Credentials;
use vstd::prelude::*;
use vstd::string::*;

verus! {

/// The configuration values, each as far as it was supplied. The type has
/// no `Debug` form, so that the key is not printed by accident.
#[derive(Clone, PartialEq, Eq)]
pub struct Settings {
    pub account_name: Option<String>,
    pub account_key: Option<String>,
    pub container_name: Option<String>,
    pub blob_name: Option<String>,
    /// Restricts a listing to the names that start with it.
    pub prefix: Option<String>,
}

/// What the caller wants done.
#[derive(Clone, Debug, PartialEq, Eq)]
pub enum Intent {
    Download,
    List,
    Upload { payload: Vec<u8> },
}

/// The first required value that is absent, in the order account name,
/// account key, container name, blob name. A listing needs no blob name,
/// and no operation needs a prefix.
pub open spec fn first_missing(intent: Intent, settings: Settings) -> Option<Setting> {
    if settings.account_name is None {
        Some(Setting::AccountName)
    } else if settings.account_key is None {
        Some(Setting::AccountKey)
    } else if settings.container_name is None {
        Some(Setting::ContainerName)
    } else if !(intent is List) && settings.blob_name is None {
        Some(Setting::BlobName)
    } else {
        None
    }
}

/// The text of an optional value; empty where it is absent.
pub open spec fn text_or_empty(value: Option<String>) -> Seq<char> {
    match value {
        Some(text) => text@,
        None => Seq::empty(),
    }
}

/// The operation that complete settings describe. An absent prefix lists
/// every blob.
pub open spec fn planned(intent: Intent, settings: Settings) -> OperationView {
    match intent {
        Intent::Download => OperationView::DownloadBlob {
            container: text_or_empty(settings.container_name),
            blob: text_or_empty(settings.blob_name),
        },
        Intent::List => OperationView::ListBlobs {
            container: text_or_empty(settings.container_name),
            prefix: text_or_empty(settings.prefix),
        },
        Intent::Upload { payload } => OperationView::UploadBlob {
            container: text_or_empty(settings.container_name),
            blob: text_or_empty(settings.blob_name),
            payload: payload@,
        },
    }
}

/// Turns settings into credentials and an operation, or names the first
/// required value that is absent.
pub fn resolve(intent: Intent, settings: Settings) -> (r: Result<(Credentials, Operation), Failure>)
    ensures
        match first_missing(intent, settings) {
            Some(setting) => r == Err::<(Credentials, Operation), Failure>(
                Failure::ConfigurationMissing(setting),
            ),
            None => {
                &&& r matches Ok(pair)
                &&& pair.0.account_name@ == text_or_empty(settings.account_name)
                &&& pair.0.account_key@ == text_or_empty(settings.account_key)
                &&& pair.1@ == planned(intent, settings)
            },
        },
{
    let Settings { account_name, account_key, container_name, blob_name, prefix } = settings;
    let account_name = match account_name {
        Some(text) => text,
        None => return Err(Failure::ConfigurationMissing(Setting::AccountName)),
    };
    let account_key = match account_key {
        Some(text) => text,
        None => return Err(Failure::ConfigurationMissing(Setting::AccountKey)),
    };
    let container = match container_name {
        Some(text) => text,
        None => return Err(Failure::ConfigurationMissing(Setting::ContainerName)),
    };
    let credentials = Credentials { account_name, account_key };
    let op = match intent {
        Intent::List => {
            let prefix = match prefix {
                Some(text) => text,
                None => String::new(),
            };
            Operation::ListBlobs { container, prefix }
        },
        Intent::Download => match blob_name {
            Some(blob) => Operation::DownloadBlob { container, blob },
            None => return Err(Failure::ConfigurationMissing(Setting::BlobName)),
        },
        Intent::Upload { payload } => match blob_name {
            Some(blob) => Operation::UploadBlob { container, blob, payload },
            None => return Err(Failure::ConfigurationMissing(Setting::BlobName)),
        },
    };
    Ok((credentials, op))
}

} // verus!
