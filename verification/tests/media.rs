use shadertoy_client::{
    assemble_body, get_media_path, media_file_name, FetchError, MediaAction, MediaError,
    MediaEvent,
};

const DATA_DIR: &str = "/home/u/.local/share/saver";

fn probe(path: &str) -> MediaAction {
    get_media_path(DATA_DIR, String::from(path))
}

fn downloading(path: &str) -> MediaAction {
    probe(path)
        .advance(MediaEvent::Exists(false))
        .advance(MediaEvent::DirectoryCreated(Ok(())))
        .advance(MediaEvent::FileCreated(Ok(())))
}

#[test]
fn file_name_is_what_follows_the_last_slash() {
    assert_eq!(media_file_name("/media/abc/xyz.png"), Some("xyz.png"));
    assert_eq!(media_file_name("/xyz.png"), Some("xyz.png"));
    assert_eq!(media_file_name("a/b"), Some("b"));
    assert_eq!(media_file_name("/media/abc/"), Some(""));
    assert_eq!(media_file_name("/"), Some(""));
    assert_eq!(media_file_name("/m\u{e9}dia/\u{4e2d}\u{6587}.png"), Some("\u{4e2d}\u{6587}.png"));
}

#[test]
fn path_without_slash_has_no_file_name() {
    assert_eq!(media_file_name("xyz.png"), None);
    assert_eq!(media_file_name(""), None);
}

#[test]
fn resolving_starts_by_probing_the_local_file() {
    assert_eq!(
        probe("/media/abc/xyz.png"),
        MediaAction::Probe {
            remote_path: String::from("/media/abc/xyz.png"),
            directory: String::from("/home/u/.local/share/saver/media"),
            local_path: String::from("/home/u/.local/share/saver/media/xyz.png"),
        }
    );
}

#[test]
fn path_without_slash_is_rejected() {
    let action = probe("xyz.png");
    assert_eq!(
        action,
        MediaAction::Failed { error: MediaError::InvalidPath(String::from("xyz.png")) }
    );
    assert_eq!(
        action.outcome(),
        Some(Err(String::from("media path has no separator: xyz.png")))
    );
}

#[test]
fn existing_file_is_returned_without_download() {
    let action = probe("/media/abc/xyz.png").advance(MediaEvent::Exists(true));
    assert_eq!(
        action,
        MediaAction::Done { local_path: String::from("/home/u/.local/share/saver/media/xyz.png") }
    );
    assert_eq!(
        action.outcome(),
        Some(Ok(String::from("/home/u/.local/share/saver/media/xyz.png")))
    );
}

#[test]
fn any_path_with_the_same_file_name_hits_the_same_file() {
    let first = probe("/media/abc/xyz.png").advance(MediaEvent::Exists(true));
    let second = probe("/presets/other/xyz.png").advance(MediaEvent::Exists(true));
    let third = probe("/xyz.png").advance(MediaEvent::Exists(true));
    assert_eq!(first, second);
    assert_eq!(first, third);
    assert_eq!(
        second.outcome(),
        Some(Ok(String::from("/home/u/.local/share/saver/media/xyz.png")))
    );
}

#[test]
fn missing_file_is_created_downloaded_and_written() {
    let action = probe("/media/abc/xyz.png");
    assert_eq!(action.outcome(), None);
    let action = action.advance(MediaEvent::Exists(false));
    assert_eq!(
        action,
        MediaAction::CreateDirectory {
            remote_path: String::from("/media/abc/xyz.png"),
            directory: String::from("/home/u/.local/share/saver/media"),
            local_path: String::from("/home/u/.local/share/saver/media/xyz.png"),
        }
    );
    let action = action.advance(MediaEvent::DirectoryCreated(Ok(())));
    assert_eq!(
        action,
        MediaAction::CreateFile {
            remote_path: String::from("/media/abc/xyz.png"),
            local_path: String::from("/home/u/.local/share/saver/media/xyz.png"),
        }
    );
    let action = action.advance(MediaEvent::FileCreated(Ok(())));
    assert_eq!(
        action,
        MediaAction::Download {
            url: String::from("https://www.shadertoy.com/media/abc/xyz.png"),
            local_path: String::from("/home/u/.local/share/saver/media/xyz.png"),
        }
    );
    assert_eq!(action.outcome(), None);
    let action = action.advance(MediaEvent::Downloaded(Ok(vec![0x89, 0x50, 0x4e, 0x47])));
    assert_eq!(
        action,
        MediaAction::Write {
            local_path: String::from("/home/u/.local/share/saver/media/xyz.png"),
            bytes: vec![0x89, 0x50, 0x4e, 0x47],
        }
    );
    let action = action.advance(MediaEvent::Written(Ok(())));
    assert_eq!(
        action.outcome(),
        Some(Ok(String::from("/home/u/.local/share/saver/media/xyz.png")))
    );
}

#[test]
fn directory_failure_is_reported_as_such() {
    let action = probe("/media/abc/xyz.png")
        .advance(MediaEvent::Exists(false))
        .advance(MediaEvent::DirectoryCreated(Err(String::from("permission denied"))));
    assert_eq!(
        action,
        MediaAction::Failed { error: MediaError::Directory(String::from("permission denied")) }
    );
    assert_eq!(
        action.outcome(),
        Some(Err(String::from("couldn't create media directory: permission denied")))
    );
}

#[test]
fn file_creation_failure_is_reported_as_such() {
    let action = probe("/media/abc/xyz.png")
        .advance(MediaEvent::Exists(false))
        .advance(MediaEvent::DirectoryCreated(Ok(())))
        .advance(MediaEvent::FileCreated(Err(String::from("disk full"))));
    assert_eq!(
        action,
        MediaAction::Failed { error: MediaError::FileCreate(String::from("disk full")) }
    );
    assert_eq!(
        action.outcome(),
        Some(Err(String::from("couldn't create media file: disk full")))
    );
}

#[test]
fn download_failure_after_file_creation_is_a_download_error() {
    let cause = FetchError::Network(String::from("connection reset"));
    let action =
        downloading("/media/abc/xyz.png").advance(MediaEvent::Downloaded(Err(cause.clone())));
    assert_eq!(action, MediaAction::Failed { error: MediaError::Download(cause) });
    assert_ne!(
        action,
        MediaAction::Failed { error: MediaError::FileWrite(String::from("connection reset")) }
    );
    assert_eq!(
        action.outcome(),
        Some(Err(String::from("failed to download image: connection reset")))
    );
}

#[test]
fn write_failure_is_distinct_from_download_failure() {
    let action = downloading("/media/abc/xyz.png")
        .advance(MediaEvent::Downloaded(Ok(vec![1, 2, 3])))
        .advance(MediaEvent::Written(Err(String::from("read-only file system"))));
    assert_eq!(
        action,
        MediaAction::Failed { error: MediaError::FileWrite(String::from("read-only file system")) }
    );
    assert_eq!(
        action.outcome(),
        Some(Err(String::from("error writing to media file: read-only file system")))
    );
}

#[test]
fn http_status_failure_of_the_download_keeps_its_kind() {
    let cause = FetchError::HttpStatus(String::from("404 Not Found"));
    let action =
        downloading("/media/abc/xyz.png").advance(MediaEvent::Downloaded(Err(cause.clone())));
    assert_eq!(action, MediaAction::Failed { error: MediaError::Download(cause) });
}

#[test]
fn unparsable_media_url_fails_after_the_file_was_created() {
    let action = probe(":99999/x.png")
        .advance(MediaEvent::Exists(false))
        .advance(MediaEvent::DirectoryCreated(Ok(())));
    assert!(matches!(action, MediaAction::CreateFile { .. }));
    let action = action.advance(MediaEvent::FileCreated(Ok(())));
    assert_eq!(
        action,
        MediaAction::Failed {
            error: MediaError::Download(FetchError::UrlConstruction(String::from(
                "invalid port number"
            ))),
        }
    );
    assert_eq!(
        action.outcome(),
        Some(Err(String::from("failed to download image: invalid port number")))
    );
}

#[test]
fn event_that_does_not_answer_the_action_is_ignored() {
    let action = probe("/media/abc/xyz.png");
    let same = action.clone().advance(MediaEvent::Written(Ok(())));
    assert_eq!(same, action);
    let same = action.clone().advance(MediaEvent::Downloaded(Ok(vec![1])));
    assert_eq!(same, action);
    let pending = downloading("/media/abc/xyz.png");
    assert_eq!(pending.clone().advance(MediaEvent::Exists(true)), pending);
    assert_eq!(pending.clone().advance(MediaEvent::FileCreated(Ok(()))), pending);
}

#[test]
fn finished_run_stays_finished() {
    let done = probe("/media/abc/xyz.png").advance(MediaEvent::Exists(true));
    assert_eq!(done.clone().advance(MediaEvent::Exists(false)), done);
    assert_eq!(done.clone().advance(MediaEvent::Written(Err(String::from("late")))), done);
    let failed = probe("nowhere");
    assert_eq!(failed.clone().advance(MediaEvent::Exists(true)), failed);
}

#[test]
fn path_ending_in_slash_resolves_to_the_directory_itself() {
    assert_eq!(
        probe("/media/abc/"),
        MediaAction::Probe {
            remote_path: String::from("/media/abc/"),
            directory: String::from("/home/u/.local/share/saver/media"),
            local_path: String::from("/home/u/.local/share/saver/media/"),
        }
    );
}

#[test]
fn body_chunks_are_joined_in_arrival_order() {
    assert_eq!(assemble_body(&vec![]), Vec::<u8>::new());
    assert_eq!(assemble_body(&vec![vec![1, 2, 3]]), vec![1, 2, 3]);
    assert_eq!(
        assemble_body(&vec![vec![9, 8], vec![], vec![7], vec![6, 5, 4]]),
        vec![9, 8, 7, 6, 5, 4]
    );
}

#[test]
fn media_error_messages() {
    assert_eq!(
        MediaError::InvalidPath(String::from("p")).message(),
        "media path has no separator: p"
    );
    assert_eq!(
        MediaError::Directory(String::from("d")).message(),
        "couldn't create media directory: d"
    );
    assert_eq!(
        MediaError::FileCreate(String::from("c")).message(),
        "couldn't create media file: c"
    );
    assert_eq!(
        MediaError::Download(FetchError::Decode(String::from("x"))).message(),
        "failed to download image: x"
    );
    assert_eq!(
        MediaError::FileWrite(String::from("w")).message(),
        "error writing to media file: w"
    );
}
