use spectrum_native::text::{split_lines, trim};
use spectrum_native::uri::{
    file_uri, media_at, media_title, remote_media, title_from_path, uri_from_argument, MediaUri,
};
use std::path::PathBuf;

#[test]
fn absolute_paths_have_addresses() {
    assert_eq!(
        file_uri(&PathBuf::from("/tmp/a video.mp4")),
        Some(MediaUri { text: "file:///tmp/a%20video.mp4".to_owned() })
    );
    assert_eq!(file_uri(&PathBuf::from("a.mp4")), None);
    let uri = file_uri(&PathBuf::from("/tmp/a video.mp4")).unwrap();
    assert_eq!(media_title(&uri), "a%20video.mp4");
}

#[test]
fn media_are_where_their_address_says() {
    assert_eq!(
        media_at(Some("file:///a".to_owned())),
        Some(MediaUri { text: "file:///a".to_owned() })
    );
    assert_eq!(media_at(None), None);
}

#[test]
fn arguments_to_stream_from_are_addresses() {
    assert_eq!(
        uri_from_argument("https://media.example/video.mp4?token=secret"),
        Some(MediaUri { text: "https://media.example/video.mp4?token=secret".to_owned() })
    );
    assert_eq!(
        uri_from_argument("HTTP://Media.example"),
        Some(MediaUri { text: "http://media.example/".to_owned() })
    );
}

#[test]
fn other_arguments_name_files() {
    assert_eq!(uri_from_argument("/path/to/video.mkv"), None);
    assert_eq!(uri_from_argument("video.mkv"), None);
    assert_eq!(uri_from_argument("ftp://media.example/video.mkv"), None);
    assert_eq!(uri_from_argument(""), None);
}

#[test]
fn the_title_is_the_last_segment() {
    let uri = MediaUri { text: "https://media.example/a/video.mp4?token=secret".to_owned() };
    assert_eq!(media_title(&uri), "video.mp4");
    let root = MediaUri { text: "https://media.example/".to_owned() };
    assert_eq!(media_title(&root), "https://media.example/");
    let unreadable = MediaUri { text: "video".to_owned() };
    assert_eq!(media_title(&unreadable), "video");
}

#[test]
fn a_path_without_a_last_segment_shows_the_address() {
    assert_eq!(title_from_path("x:", Some("a/b/".to_owned())), "x:");
    assert_eq!(title_from_path("x:", Some("b".to_owned())), "b");
    assert_eq!(title_from_path("x:", None), "x:");
}

#[test]
fn lines_end_at_feeds_with_or_without_a_return() {
    assert_eq!(split_lines("a\r\nb\n\nc\r"), vec!["a", "b", "", "c\r"]);
    assert_eq!(split_lines(""), Vec::<String>::new());
    assert_eq!(split_lines("\n"), vec![""]);
}

#[test]
fn trimming_takes_white_space_of_every_kind() {
    assert_eq!(trim(" \t\u{2003}a b\u{00a0}\r\n"), "a b");
    assert_eq!(trim(" \u{3000}"), "");
    assert_eq!(trim("\u{200b}a"), "\u{200b}a");
}

#[test]
fn only_urls_to_stream_from_are_remote_media() {
    let some = |text: &str| Some(text.to_owned());
    assert_eq!(
        remote_media(some("http"), some("http://a/")),
        Some(MediaUri { text: "http://a/".to_owned() })
    );
    assert_eq!(
        remote_media(some("https"), some("https://a/")),
        Some(MediaUri { text: "https://a/".to_owned() })
    );
    assert_eq!(remote_media(some("file"), some("file:///a")), None);
    assert_eq!(remote_media(None, None), None);
    assert_eq!(remote_media(None, some("http://a/")), None);
    assert_eq!(remote_media(some("http"), None), None);
}
