//! The media store: where a media asset lives on disk, and the steps that
//! bring it there.
//!
//! Resolving an asset alternates filesystem and network work with decisions.
//! The decisions are made here: each step names the work to do next, and the
//! caller reports how it went.

use crate::error::{FetchError, FetchErrorView, MediaError, MediaErrorView};
use crate::url::{media_url, media_url_spec};
use vstd::prelude::*;
use vstd::string::{StrSliceExecFns, StringExecFns};

verus! {

/// The directory of the media store, below the application's data directory.
pub const MEDIA_DIRECTORY: &'static str = "/media";

/// What separates the segments of a path.
pub const SEPARATOR: &'static str = "/";

/// The place of the last `c` in `text`, or -1 where there is none.
pub open spec fn last_index_of(text: Seq<char>, c: char) -> int
    decreases text.len(),
{
    if text.len() == 0 {
        -1
    } else if text.last() == c {
        text.len() - 1
    } else {
        last_index_of(text.drop_last(), c)
    }
}

/// The file name of a remote path: what follows its last `/`. A path without
/// `/` has none.
pub open spec fn file_name(path: Seq<char>) -> Option<Seq<char>> {
    let slash = last_index_of(path, '/');
    if slash < 0 {
        None
    } else {
        Some(path.subrange(slash + 1, path.len() as int))
    }
}

/// `last_index_of` is within the text, points at a `c`, and no `c` follows.
pub proof fn lemma_last_index_of(text: Seq<char>, c: char)
    ensures
        -1 <= last_index_of(text, c) < text.len(),
        last_index_of(text, c) >= 0 ==> text[last_index_of(text, c)] == c,
        forall|i: int| last_index_of(text, c) < i < text.len() ==> text[i] != c,
    decreases text.len(),
{
    if text.len() > 0 && text.last() != c {
        let shorter = text.drop_last();
        lemma_last_index_of(shorter, c);
        assert forall|i: int| last_index_of(text, c) < i < text.len() implies text[i] != c by {
            if i < shorter.len() {
                assert(shorter[i] == text[i]);
            }
        }
    }
}

/// Whatever directories precede it, a name without `/` is the file name of
/// the path that ends in `/` and that name.
pub proof fn lemma_file_name_of_join(directories: Seq<char>, name: Seq<char>)
    requires
        !name.contains('/'),
    ensures
        file_name(directories + seq!['/'] + name) == Some(name),
    decreases name.len(),
{
    let path = directories + seq!['/'] + name;
    if name.len() == 0 {
        assert(path.last() == '/');
        assert(path.subrange(path.len() as int, path.len() as int) =~= name);
    } else {
        assert(path.last() == name.last());
        assert(name.contains(name.last()));
        assert(path.drop_last() =~= directories + seq!['/'] + name.drop_last());
        assert(!name.drop_last().contains('/')) by {
            if name.drop_last().contains('/') {
                let i = choose|i: int|
                    0 <= i < name.drop_last().len() && name.drop_last()[i] == '/';
                assert(name[i] == '/');
            }
        }
        lemma_file_name_of_join(directories, name.drop_last());
        let slash = directories.len() as int;
        assert(last_index_of(path.drop_last(), '/') == slash) by {
            lemma_last_index_of(path.drop_last(), '/');
            assert(path.drop_last()[slash] == '/');
            let found = last_index_of(path.drop_last(), '/');
            if found > slash {
                assert(path.drop_last()[found] == name.drop_last()[found - slash - 1]);
                assert(name.drop_last().contains('/'));
            }
        }
        assert(path.subrange(slash + 1, path.len() as int) =~= name);
    }
}

/// Derives the file name of a remote path: what follows its last `/`.
pub fn media_file_name(path: &str) -> (name: Option<&str>)
    ensures
        match name {
            Some(found) => file_name(path@) == Some(found@),
            None => file_name(path@) is None,
        },
{
    let len = path.unicode_len();
    let mut i = len;
    assert(path@.take(i as int) =~= path@);
    while i > 0
        invariant
            i <= len,
            len == path@.len(),
            last_index_of(path@, '/') == last_index_of(path@.take(i as int), '/'),
        decreases i,
    {
        if path.get_char(i - 1) == '/' {
            assert(path@.take(i as int).last() == '/');
            return Some(path.substring_char(i, len));
        }
        assert(path@.take(i as int).drop_last() =~= path@.take(i as int - 1));
        i -= 1;
    }
    None
}

/// The directory that holds the cached media files.
pub open spec fn media_directory(data_dir: Seq<char>) -> Seq<char> {
    data_dir + MEDIA_DIRECTORY@
}

/// The local file of a media asset: its file name inside the media
/// directory.
pub open spec fn local_media_path(data_dir: Seq<char>, name: Seq<char>) -> Seq<char> {
    media_directory(data_dir) + SEPARATOR@ + name
}

/// The work to do next for one media asset, or how resolving it ended.
#[derive(Clone, Debug, PartialEq, Eq)]
pub enum MediaAction {
    /// Find out whether `local_path` exists.
    Probe { remote_path: String, directory: String, local_path: String },
    /// Create `directory` and the directories above it.
    CreateDirectory { remote_path: String, directory: String, local_path: String },
    /// Create an empty file at `local_path`.
    CreateFile { remote_path: String, local_path: String },
    /// Download the bytes at `url`.
    Download { url: String, local_path: String },
    /// Write `bytes` over the file at `local_path`.
    Write { local_path: String, bytes: Vec<u8> },
    /// The asset is at `local_path`.
    Done { local_path: String },
    /// Resolving failed.
    Failed { error: MediaError },
}

/// A `MediaAction` as a mathematical value.
pub enum MediaActionView {
    Probe { remote_path: Seq<char>, directory: Seq<char>, local_path: Seq<char> },
    CreateDirectory { remote_path: Seq<char>, directory: Seq<char>, local_path: Seq<char> },
    CreateFile { remote_path: Seq<char>, local_path: Seq<char> },
    Download { url: Seq<char>, local_path: Seq<char> },
    Write { local_path: Seq<char>, bytes: Seq<u8> },
    Done { local_path: Seq<char> },
    Failed { error: MediaErrorView },
}

impl View for MediaAction {
    type V = MediaActionView;

    open spec fn view(&self) -> MediaActionView {
        match self {
            MediaAction::Probe { remote_path, directory, local_path } => MediaActionView::Probe {
                remote_path: remote_path@,
                directory: directory@,
                local_path: local_path@,
            },
            MediaAction::CreateDirectory {
                remote_path,
                directory,
                local_path,
            } => MediaActionView::CreateDirectory {
                remote_path: remote_path@,
                directory: directory@,
                local_path: local_path@,
            },
            MediaAction::CreateFile { remote_path, local_path } => MediaActionView::CreateFile {
                remote_path: remote_path@,
                local_path: local_path@,
            },
            MediaAction::Download { url, local_path } => MediaActionView::Download {
                url: url@,
                local_path: local_path@,
            },
            MediaAction::Write { local_path, bytes } => MediaActionView::Write {
                local_path: local_path@,
                bytes: bytes@,
            },
            MediaAction::Done { local_path } => MediaActionView::Done { local_path: local_path@ },
            MediaAction::Failed { error } => MediaActionView::Failed { error: error@ },
        }
    }
}

/// How the work that an action named went.
#[derive(Debug)]
pub enum MediaEvent {
    /// Answers `Probe`: whether the file exists.
    Exists(bool),
    /// Answers `CreateDirectory`.
    DirectoryCreated(Result<(), String>),
    /// Answers `CreateFile`.
    FileCreated(Result<(), String>),
    /// Answers `Download`: the bytes of the body in the order received.
    Downloaded(Result<Vec<u8>, FetchError>),
    /// Answers `Write`.
    Written(Result<(), String>),
}

/// A `MediaEvent` as a mathematical value.
pub enum MediaEventView {
    Exists(bool),
    DirectoryCreated(Result<(), Seq<char>>),
    FileCreated(Result<(), Seq<char>>),
    Downloaded(Result<Seq<u8>, FetchErrorView>),
    Written(Result<(), Seq<char>>),
}

/// The outcome of a filesystem step as a mathematical value.
pub open spec fn step_view(outcome: Result<(), String>) -> Result<(), Seq<char>> {
    match outcome {
        Ok(_) => Ok(()),
        Err(description) => Err(description@),
    }
}

impl View for MediaEvent {
    type V = MediaEventView;

    open spec fn view(&self) -> MediaEventView {
        match self {
            MediaEvent::Exists(found) => MediaEventView::Exists(*found),
            MediaEvent::DirectoryCreated(outcome) => MediaEventView::DirectoryCreated(
                step_view(*outcome),
            ),
            MediaEvent::FileCreated(outcome) => MediaEventView::FileCreated(step_view(*outcome)),
            MediaEvent::Downloaded(outcome) => MediaEventView::Downloaded(
                match outcome {
                    Ok(bytes) => Ok(bytes@),
                    Err(error) => Err(error@),
                },
            ),
            MediaEvent::Written(outcome) => MediaEventView::Written(step_view(*outcome)),
        }
    }
}

/// The first action for a media asset: to look for its local file, or the
/// failure of a path without `/`.
pub open spec fn media_start(data_dir: Seq<char>, path: Seq<char>) -> MediaActionView {
    match file_name(path) {
        Some(name) => MediaActionView::Probe {
            remote_path: path,
            directory: media_directory(data_dir),
            local_path: local_media_path(data_dir, name),
        },
        None => MediaActionView::Failed { error: MediaErrorView::InvalidPath(path) },
    }
}

/// The download that follows the creation of the empty file, or the failure
/// to build its URL.
pub open spec fn download_of(remote_path: Seq<char>, local_path: Seq<char>) -> MediaActionView {
    match media_url_spec(remote_path) {
        Ok(url) => MediaActionView::Download { url, local_path },
        Err(error) => MediaActionView::Failed { error: MediaErrorView::Download(error) },
    }
}

/// The action that follows `pending` once `event` has answered it. A file
/// that exists is the result, with no further work. Otherwise the directory
/// is created, then the empty file, then the bytes are downloaded and
/// written; the first failure ends the run with the error of its step. An
/// event that does not answer `pending` leaves it as it is.
pub open spec fn next_action(pending: MediaActionView, event: MediaEventView) -> MediaActionView {
    match (pending, event) {
        (
            MediaActionView::Probe { remote_path, directory, local_path },
            MediaEventView::Exists(found),
        ) => {
            if found {
                MediaActionView::Done { local_path }
            } else {
                MediaActionView::CreateDirectory { remote_path, directory, local_path }
            }
        },
        (
            MediaActionView::CreateDirectory { remote_path, directory, local_path },
            MediaEventView::DirectoryCreated(outcome),
        ) => match outcome {
            Ok(_) => MediaActionView::CreateFile { remote_path, local_path },
            Err(description) => MediaActionView::Failed {
                error: MediaErrorView::Directory(description),
            },
        },
        (
            MediaActionView::CreateFile { remote_path, local_path },
            MediaEventView::FileCreated(outcome),
        ) => match outcome {
            Ok(_) => download_of(remote_path, local_path),
            Err(description) => MediaActionView::Failed {
                error: MediaErrorView::FileCreate(description),
            },
        },
        (
            MediaActionView::Download { url, local_path },
            MediaEventView::Downloaded(outcome),
        ) => match outcome {
            Ok(bytes) => MediaActionView::Write { local_path, bytes },
            Err(error) => MediaActionView::Failed { error: MediaErrorView::Download(error) },
        },
        (
            MediaActionView::Write { local_path, bytes },
            MediaEventView::Written(outcome),
        ) => match outcome {
            Ok(_) => MediaActionView::Done { local_path },
            Err(description) => MediaActionView::Failed {
                error: MediaErrorView::FileWrite(description),
            },
        },
        _ => pending,
    }
}

/// How a run ended: the local path, or the message of the failure. `None`
/// while work is left.
pub open spec fn outcome_of(action: MediaActionView) -> Option<Result<Seq<char>, Seq<char>>> {
    match action {
        MediaActionView::Done { local_path } => Some(Ok(local_path)),
        MediaActionView::Failed { error } => Some(Err(error.message())),
        _ => None,
    }
}

/// Starts resolving the media asset at `path` for a store below `data_dir`:
/// the first action is to look for the local file. A path without `/` fails
/// at once.
pub fn get_media_path(data_dir: &str, path: String) -> (action: MediaAction)
    ensures
        action@ == media_start(data_dir@, path@),
{
    let directory = String::from_str(data_dir).concat(MEDIA_DIRECTORY);
    let local_path = match media_file_name(path.as_str()) {
        Some(name) => directory.clone().concat(SEPARATOR).concat(name),
        None => {
            return MediaAction::Failed { error: MediaError::InvalidPath(path) };
        },
    };
    MediaAction::Probe { remote_path: path, directory, local_path }
}

impl MediaAction {
    /// The action that follows this one once `event` has answered it.
    pub fn advance(self, event: MediaEvent) -> (next: MediaAction)
        ensures
            next@ == next_action(self@, event@),
    {
        match (self, event) {
            (
                MediaAction::Probe { remote_path, directory, local_path },
                MediaEvent::Exists(found),
            ) => {
                if found {
                    MediaAction::Done { local_path }
                } else {
                    MediaAction::CreateDirectory { remote_path, directory, local_path }
                }
            },
            (
                MediaAction::CreateDirectory { remote_path, directory, local_path },
                MediaEvent::DirectoryCreated(outcome),
            ) => match outcome {
                Ok(_) => MediaAction::CreateFile { remote_path, local_path },
                Err(description) => MediaAction::Failed {
                    error: MediaError::Directory(description),
                },
            },
            (
                MediaAction::CreateFile { remote_path, local_path },
                MediaEvent::FileCreated(outcome),
            ) => match outcome {
                Ok(_) => match media_url(remote_path.as_str()) {
                    Ok(url) => MediaAction::Download { url, local_path },
                    Err(error) => MediaAction::Failed { error: MediaError::Download(error) },
                },
                Err(description) => MediaAction::Failed {
                    error: MediaError::FileCreate(description),
                },
            },
            (
                MediaAction::Download { url, local_path },
                MediaEvent::Downloaded(outcome),
            ) => match outcome {
                Ok(bytes) => MediaAction::Write { local_path, bytes },
                Err(error) => MediaAction::Failed { error: MediaError::Download(error) },
            },
            (
                MediaAction::Write { local_path, bytes },
                MediaEvent::Written(outcome),
            ) => match outcome {
                Ok(_) => MediaAction::Done { local_path },
                Err(description) => MediaAction::Failed {
                    error: MediaError::FileWrite(description),
                },
            },
            (pending, _) => pending,
        }
    }

    /// How the run ended: the local path, or the message of the failure.
    /// `None` while work is left.
    pub fn outcome(&self) -> (result: Option<Result<String, String>>)
        ensures
            match result {
                Some(Ok(local_path)) => outcome_of(self@) == Some(
                    Ok::<Seq<char>, Seq<char>>(local_path@),
                ),
                Some(Err(message)) => outcome_of(self@) == Some(
                    Err::<Seq<char>, Seq<char>>(message@),
                ),
                None => outcome_of(self@) is None,
            },
    {
        match self {
            MediaAction::Done { local_path } => Some(Ok(local_path.clone())),
            MediaAction::Failed { error } => Some(Err(error.message())),
            _ => None,
        }
    }
}

/// Two remote paths with the same file name resolve to the same local file,
/// and where that file exists the run ends there at once: nothing is
/// created and nothing is downloaded.
pub proof fn lemma_same_file_name_same_local_file(
    data_dir: Seq<char>,
    first: Seq<char>,
    second: Seq<char>,
)
    requires
        file_name(first) is Some,
        file_name(second) == file_name(first),
    ensures
        next_action(media_start(data_dir, second), MediaEventView::Exists(true))
            == (MediaActionView::Done {
            local_path: local_media_path(data_dir, file_name(first)->0),
        }),
        next_action(media_start(data_dir, second), MediaEventView::Exists(true)) == next_action(
            media_start(data_dir, first),
            MediaEventView::Exists(true),
        ),
{
}

/// The local file that an action is about; a failure is about none.
pub open spec fn local_path_of(action: MediaActionView) -> Option<Seq<char>> {
    match action {
        MediaActionView::Probe { local_path, .. } => Some(local_path),
        MediaActionView::CreateDirectory { local_path, .. } => Some(local_path),
        MediaActionView::CreateFile { local_path, .. } => Some(local_path),
        MediaActionView::Download { local_path, .. } => Some(local_path),
        MediaActionView::Write { local_path, .. } => Some(local_path),
        MediaActionView::Done { local_path } => Some(local_path),
        MediaActionView::Failed { .. } => None,
    }
}

/// A run never changes its local file: each step is about the file of the
/// step before, or is a failure. What is written in the end are the bytes
/// that were downloaded.
pub proof fn lemma_run_keeps_local_file(pending: MediaActionView, event: MediaEventView)
    ensures
        local_path_of(next_action(pending, event)) is Some ==> local_path_of(
            next_action(pending, event),
        ) == local_path_of(pending),
        next_action(pending, event) is Write && !(pending is Write) ==> event
            == MediaEventView::Downloaded(Ok(next_action(pending, event)->bytes)),
{
}

/// A download that fails ends the run with a download error that carries
/// the cause. Whatever the descriptions say, it is not reported as a failure
/// to write, to create the file or to create the directory.
pub proof fn lemma_download_failure(
    url: Seq<char>,
    local_path: Seq<char>,
    cause: FetchErrorView,
    description: Seq<char>,
)
    ensures
        ({
            let next = next_action(
                MediaActionView::Download { url, local_path },
                MediaEventView::Downloaded(Err(cause)),
            );
            &&& next == (MediaActionView::Failed { error: MediaErrorView::Download(cause) })
            &&& next != (MediaActionView::Failed { error: MediaErrorView::FileWrite(description) })
            &&& next != (MediaActionView::Failed {
                error: MediaErrorView::FileCreate(description),
            })
            &&& next != (MediaActionView::Failed { error: MediaErrorView::Directory(description) })
        }),
{
}

/// A step reports a failure to write only where the write itself failed.
pub proof fn lemma_write_failure_comes_from_write(
    pending: MediaActionView,
    event: MediaEventView,
    description: Seq<char>,
)
    requires
        pending != (MediaActionView::Failed { error: MediaErrorView::FileWrite(description) }),
        next_action(pending, event) == (MediaActionView::Failed {
            error: MediaErrorView::FileWrite(description),
        }),
    ensures
        pending is Write,
        event == MediaEventView::Written(Err(description)),
{
    if pending is CreateFile && event is FileCreated {
        let next = download_of(pending->CreateFile_remote_path, pending->CreateFile_local_path);
        assert(next is Download || (next is Failed && next->error is Download));
    }
}

/// The chunks of a body as mathematical values.
pub open spec fn chunk_views(chunks: Seq<Vec<u8>>) -> Seq<Seq<u8>> {
    Seq::new(chunks.len(), |i: int| chunks[i]@)
}

/// The chunks joined end to end, in the order given.
pub open spec fn joined(chunks: Seq<Seq<u8>>) -> Seq<u8>
    decreases chunks.len(),
{
    if chunks.len() == 0 {
        Seq::<u8>::empty()
    } else {
        joined(chunks.drop_last()) + chunks.last()
    }
}

/// Joins the chunks of a response body in the order in which they arrived.
pub fn assemble_body(chunks: &Vec<Vec<u8>>) -> (body: Vec<u8>)
    ensures
        body@ == joined(chunk_views(chunks@)),
{
    let ghost all = chunk_views(chunks@);
    let mut body: Vec<u8> = Vec::new();
    let mut i: usize = 0;
    assert(all.take(0) =~= Seq::<Seq<u8>>::empty());
    while i < chunks.len()
        invariant
            i <= chunks.len(),
            all == chunk_views(chunks@),
            body@ == joined(all.take(i as int)),
        decreases chunks.len() - i,
    {
        let chunk = &chunks[i];
        let ghost before = body@;
        let mut j: usize = 0;
        while j < chunk.len()
            invariant
                j <= chunk.len(),
                body@ == before + chunk@.take(j as int),
            decreases chunk.len() - j,
        {
            body.push(chunk[j]);
            assert(chunk@.take(j as int + 1) =~= chunk@.take(j as int).push(chunk@[j as int]));
            j += 1;
        }
        proof {
            assert(chunk@.take(j as int) =~= chunk@);
            let next = all.take(i as int + 1);
            assert(next.drop_last() =~= all.take(i as int));
            assert(next.last() == chunk@);
        }
        i += 1;
    }
    assert(all.take(i as int) =~= all);
    body
}

} // verus!
