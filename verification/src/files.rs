//! Files kept by the service, and the URLs that stand for them.

use vstd::prelude::*;
use vstd::utf8::encode_utf8;

use crate::decode::{option_view, Family};
use crate::named::Named;
use crate::text::concat;
use crate::url::{host_of_url, scheme_text, url_of_text, Url};
use crate::uuid::{hyphenated, uuid_of_text, Uuid};

verus! {

/// Whether a file has reached cloud storage.
#[derive(Clone, Copy, Debug, PartialEq, Eq, Structural, Hash)]
pub enum FileCloudStatus {
    Disabled,
    Uploading,
    Uploaded,
}

impl Named for FileCloudStatus {
    open spec fn name(self) -> Seq<char> {
        match self {
            FileCloudStatus::Disabled => "disabled"@,
            FileCloudStatus::Uploading => "uploading"@,
            FileCloudStatus::Uploaded => "uploaded"@,
        }
    }

    open spec fn named(name: Seq<char>) -> Option<FileCloudStatus> {
        if name == "disabled"@ {
            Some(FileCloudStatus::Disabled)
        } else if name == "uploading"@ {
            Some(FileCloudStatus::Uploading)
        } else if name == "uploaded"@ {
            Some(FileCloudStatus::Uploaded)
        } else {
            None
        }
    }

    open spec fn family() -> Family {
        Family::FileCloudStatus
    }

    proof fn lemma_name_reads_back(self) {
        reveal_strlit("disabled");
        reveal_strlit("uploading");
        reveal_strlit("uploaded");
        assert("disabled"@.len() == 8);
        assert("uploading"@.len() == 9);
        assert("uploaded"@.len() == 8);
        assert("disabled"@[0] == 'd');
        assert("uploaded"@[0] == 'u');
    }

    fn as_str(self) -> (out: &'static str) {
        match self {
            FileCloudStatus::Disabled => "disabled",
            FileCloudStatus::Uploading => "uploading",
            FileCloudStatus::Uploaded => "uploaded",
        }
    }

    fn from_name(name: &str) -> (out: Option<FileCloudStatus>) {
        if name.eq("disabled") {
            Some(FileCloudStatus::Disabled)
        } else if name.eq("uploading") {
            Some(FileCloudStatus::Uploading)
        } else if name.eq("uploaded") {
            Some(FileCloudStatus::Uploaded)
        } else {
            None
        }
    }

    fn kind() -> (out: Family) {
        Family::FileCloudStatus
    }
}

/// Why a URL does not stand for a file of the service.
#[derive(Clone, Debug, PartialEq, Eq)]
pub enum FileUrlError {
    /// The scheme is not `lumeo`; it is the one given here.
    InvalidScheme(String),
    MissingHost,
    /// The URL holds more than its scheme and its host.
    InvalidLength,
    /// The host, given here, is not a UUID.
    InvalidUuid(String),
}

/// The mathematical value of a `FileUrlError`.
pub enum FileUrlFailure {
    InvalidScheme(Seq<char>),
    MissingHost,
    InvalidLength,
    InvalidUuid(Seq<char>),
}

impl View for FileUrlError {
    type V = FileUrlFailure;

    open spec fn view(&self) -> FileUrlFailure {
        match self {
            FileUrlError::InvalidScheme(s) => FileUrlFailure::InvalidScheme(s@),
            FileUrlError::MissingHost => FileUrlFailure::MissingHost,
            FileUrlError::InvalidLength => FileUrlFailure::InvalidLength,
            FileUrlError::InvalidUuid(s) => FileUrlFailure::InvalidUuid(s@),
        }
    }
}

impl FileUrlError {
    /// The sentence that reports this error.
    pub fn message(&self) -> (out: String)
        ensures
            out@ == match self@ {
                FileUrlFailure::InvalidScheme(s) => "Invalid scheme, expected 'lumeo', got '"@ + s
                    + "'"@,
                FileUrlFailure::MissingHost => "Missing host"@,
                FileUrlFailure::InvalidLength => "Invalid length"@,
                FileUrlFailure::InvalidUuid(s) => "Invalid UUID: '"@ + s + "'"@,
            },
    {
        match self {
            FileUrlError::InvalidScheme(s) => {
                let head = concat("Invalid scheme, expected 'lumeo', got '", s.as_str());
                concat(head.as_str(), "'")
            },
            FileUrlError::MissingHost => "Missing host".to_owned(),
            FileUrlError::InvalidLength => "Invalid length".to_owned(),
            FileUrlError::InvalidUuid(s) => {
                let head = concat("Invalid UUID: '", s.as_str());
                concat(head.as_str(), "'")
            },
        }
    }
}

/// The text of the URL that stands for the file `file_id`.
pub open spec fn lumeo_file_url_text(file_id: Uuid) -> Seq<char> {
    "lumeo://"@ + hyphenated(file_id.value)
}

/// The URL that stands for the file `file_id`: `lumeo://` and the hyphenated
/// identifier. It is `None` only if that text were not a URL.
pub fn create_lumeo_file_url(file_id: Uuid) -> (out: Option<Url>)
    ensures
        option_view(out) == url_of_text(lumeo_file_url_text(file_id)),
{
    let id = file_id.to_hyphenated_string();
    let text = concat("lumeo://", id.as_str());
    Url::parse(text.as_str())
}

/// The file that the URL with the normal text `url` stands for.
///
/// The scheme must be `lumeo`, there must be a host, the URL must hold
/// nothing but the scheme and the host, counted in bytes, and the host must
/// spell a UUID. The first of these that fails gives the error.
pub open spec fn file_id_of_url(url: Seq<char>) -> Result<Uuid, FileUrlFailure> {
    if scheme_text(url) != "lumeo"@ {
        Err(FileUrlFailure::InvalidScheme(scheme_text(url)))
    } else {
        match host_of_url(url) {
            None => Err(FileUrlFailure::MissingHost),
            Some(host) => if encode_utf8(url).len() != encode_utf8("lumeo://"@).len() + encode_utf8(
                host,
            ).len() {
                Err(FileUrlFailure::InvalidLength)
            } else {
                match uuid_of_text(host) {
                    Some(value) => Ok(Uuid { value }),
                    None => Err(FileUrlFailure::InvalidUuid(host)),
                }
            },
        }
    }
}

/// Reads the identifier of a file from the URL that stands for it.
pub fn parse_file_id_from_lumeo_url(url: &Url) -> (out: Result<Uuid, FileUrlError>)
    ensures
        match out {
            Ok(id) => file_id_of_url(url@) == Ok::<Uuid, FileUrlFailure>(id),
            Err(e) => file_id_of_url(url@) == Err::<Uuid, FileUrlFailure>(e@),
        },
{
    let scheme = url.scheme();
    if !scheme.as_str().eq("lumeo") {
        return Err(FileUrlError::InvalidScheme(scheme));
    }
    let file_id = match url.host_str() {
        Some(host) => host,
        None => {
            return Err(FileUrlError::MissingHost);
        },
    };
    let prefix: usize = "lumeo://".as_bytes().len();
    let total: usize = url.as_str().as_bytes().len();
    let host: usize = file_id.as_str().as_bytes().len();
    if total < prefix || total - prefix != host {
        return Err(FileUrlError::InvalidLength);
    }
    match Uuid::parse_str(file_id.as_str()) {
        Some(id) => Ok(id),
        None => Err(FileUrlError::InvalidUuid(file_id)),
    }
}

} // verus!
