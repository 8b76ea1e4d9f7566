//! Failures of the client, each carrying a human-readable description.

use vstd::prelude::*;
use vstd::string::StringExecFns;

verus! {

/// A failure of a request to the remote API.
#[derive(Clone, Debug, PartialEq, Eq)]
pub enum FetchError {
    /// The request URL could not be built.
    UrlConstruction(String),
    /// The connection or the transport failed.
    Network(String),
    /// The server answered with a non-success status.
    HttpStatus(String),
    /// The response body did not have the expected shape.
    Decode(String),
}

/// A `FetchError` as a mathematical value.
pub enum FetchErrorView {
    UrlConstruction(Seq<char>),
    Network(Seq<char>),
    HttpStatus(Seq<char>),
    Decode(Seq<char>),
}

impl FetchErrorView {
    /// The description that the error carries.
    pub open spec fn description(self) -> Seq<char> {
        match self {
            FetchErrorView::UrlConstruction(d) => d,
            FetchErrorView::Network(d) => d,
            FetchErrorView::HttpStatus(d) => d,
            FetchErrorView::Decode(d) => d,
        }
    }
}

impl View for FetchError {
    type V = FetchErrorView;

    open spec fn view(&self) -> FetchErrorView {
        match self {
            FetchError::UrlConstruction(d) => FetchErrorView::UrlConstruction(d@),
            FetchError::Network(d) => FetchErrorView::Network(d@),
            FetchError::HttpStatus(d) => FetchErrorView::HttpStatus(d@),
            FetchError::Decode(d) => FetchErrorView::Decode(d@),
        }
    }
}

impl FetchError {
    /// The description, as shown to the user.
    pub fn description(&self) -> (text: &str)
        ensures
            text@ == self@.description(),
    {
        match self {
            FetchError::UrlConstruction(d) => d.as_str(),
            FetchError::Network(d) => d.as_str(),
            FetchError::HttpStatus(d) => d.as_str(),
            FetchError::Decode(d) => d.as_str(),
        }
    }
}

/// The kind of a failed request, from what the transport tells of it. A
/// request that could not be built comes first, then a non-success status,
/// then a body that did not decode; everything else is a failure of the
/// connection or the transport.
pub open spec fn classified(
    building: bool,
    status: bool,
    decoding: bool,
    description: Seq<char>,
) -> FetchErrorView {
    if building {
        FetchErrorView::UrlConstruction(description)
    } else if status {
        FetchErrorView::HttpStatus(description)
    } else if decoding {
        FetchErrorView::Decode(description)
    } else {
        FetchErrorView::Network(description)
    }
}

/// A failure while resolving a media asset to a local file.
#[derive(Clone, Debug, PartialEq, Eq)]
pub enum MediaError {
    /// The remote path holds no `/`; it is carried along.
    InvalidPath(String),
    /// The media directory could not be created.
    Directory(String),
    /// The destination file could not be created.
    FileCreate(String),
    /// The download failed; the file created before it may be left empty.
    Download(FetchError),
    /// The downloaded bytes could not be written.
    FileWrite(String),
}

/// A `MediaError` as a mathematical value.
pub enum MediaErrorView {
    InvalidPath(Seq<char>),
    Directory(Seq<char>),
    FileCreate(Seq<char>),
    Download(FetchErrorView),
    FileWrite(Seq<char>),
}

impl MediaErrorView {
    /// The message shown to the user: what failed, then the description.
    pub open spec fn message(self) -> Seq<char> {
        match self {
            MediaErrorView::InvalidPath(p) => "media path has no separator: "@ + p,
            MediaErrorView::Directory(d) => "couldn't create media directory: "@ + d,
            MediaErrorView::FileCreate(d) => "couldn't create media file: "@ + d,
            MediaErrorView::Download(e) => "failed to download image: "@ + e.description(),
            MediaErrorView::FileWrite(d) => "error writing to media file: "@ + d,
        }
    }
}

impl View for MediaError {
    type V = MediaErrorView;

    open spec fn view(&self) -> MediaErrorView {
        match self {
            MediaError::InvalidPath(p) => MediaErrorView::InvalidPath(p@),
            MediaError::Directory(d) => MediaErrorView::Directory(d@),
            MediaError::FileCreate(d) => MediaErrorView::FileCreate(d@),
            MediaError::Download(e) => MediaErrorView::Download(e@),
            MediaError::FileWrite(d) => MediaErrorView::FileWrite(d@),
        }
    }
}

impl MediaError {
    /// The message shown to the user.
    pub fn message(&self) -> (text: String)
        ensures
            text@ == self@.message(),
    {
        match self {
            MediaError::InvalidPath(p) => String::from_str("media path has no separator: ").concat(
                p.as_str(),
            ),
            MediaError::Directory(d) => String::from_str(
                "couldn't create media directory: ",
            ).concat(d.as_str()),
            MediaError::FileCreate(d) => String::from_str("couldn't create media file: ").concat(
                d.as_str(),
            ),
            MediaError::Download(e) => String::from_str("failed to download image: ").concat(
                e.description(),
            ),
            MediaError::FileWrite(d) => String::from_str("error writing to media file: ").concat(
                d.as_str(),
            ),
        }
    }
}

} // verus!
