use spectrum_native::uri::MediaUri;
use spectrum_native::wayland_drop::{
    choose_media, choose_media_uri, first_media_uri_from_uri_list, receive_uri_list, DropState, UserEvent,
};
use std::path::PathBuf;

#[test]
fn parses_wayland_uri_lists_and_percent_encoding() {
    let data =
        "# generated by file manager\r\nfile:///tmp/a%20video.mp4\r\nfile:///tmp/second.mp4\r\n";
    let uri = url::Url::parse(&first_media_uri_from_uri_list(data).unwrap().text).unwrap();
    assert_eq!(uri.to_file_path(), Ok(PathBuf::from("/tmp/a video.mp4")));
}

#[test]
fn parses_http_media_urls() {
    let uri = url::Url::parse("https://example.com/video.mp4?token=secret").unwrap();
    assert_eq!(
        first_media_uri_from_uri_list(uri.as_str()),
        Ok(MediaUri { text: uri.to_string() })
    );
}

#[test]
fn rejects_unsupported_uri_schemes() {
    assert_eq!(
        first_media_uri_from_uri_list("ftp://example.com/video.mp4"),
        Err("unsupported dropped URI: ftp://example.com/video.mp4".to_owned())
    );
}

#[test]
fn an_empty_list_holds_no_files() {
    let complaint = Err("the drop contained no local files".to_owned());
    assert_eq!(first_media_uri_from_uri_list(""), complaint);
    assert_eq!(first_media_uri_from_uri_list("# nothing\r\n  \n\t# here\n"), complaint);
}

#[test]
fn the_first_entry_that_plays_is_taken_and_written_out() {
    assert_eq!(
        first_media_uri_from_uri_list("not a url\n  HTTP://Example.com/a b.mp4 \nhttp://b/\n"),
        Ok(MediaUri { text: "http://example.com/a%20b.mp4".to_owned() })
    );
}

#[test]
fn the_complaint_is_about_the_first_entry() {
    assert_eq!(
        first_media_uri_from_uri_list(" \r\n ftp://a/ \nmailto:b@c\n"),
        Err("unsupported dropped URI: ftp://a/".to_owned())
    );
}

#[test]
fn files_of_other_hosts_are_not_local() {
    assert_eq!(
        first_media_uri_from_uri_list("file://elsewhere/a.mp4\nfile:///b.mp4"),
        Ok(MediaUri { text: "file:///b.mp4".to_owned() })
    );
}

#[test]
fn files_are_taken_where_they_have_a_path() {
    let list = vec!["file:///a.mp4".to_owned(), "file:///b.mp4".to_owned()];
    assert_eq!(
        choose_media_uri(&list, &vec![false, true]),
        Ok(MediaUri { text: "file:///b.mp4".to_owned() })
    );
    assert_eq!(
        choose_media_uri(&list, &vec![false, false]),
        Err("unsupported dropped URI: file:///a.mp4".to_owned())
    );
    let remote = vec!["https://a/".to_owned()];
    assert_eq!(choose_media_uri(&remote, &vec![true]), choose_media_uri(&remote, &vec![false]));
}

#[test]
fn what_was_read_becomes_an_event() {
    assert_eq!(
        receive_uri_list(Ok("https://a/b\r\n".to_owned())),
        UserEvent::DroppedMedia(MediaUri { text: "https://a/b".to_owned() })
    );
    assert_eq!(
        receive_uri_list(Ok("x:y".to_owned())),
        UserEvent::DropError("unsupported dropped URI: x:y".to_owned())
    );
    assert_eq!(
        receive_uri_list(Err("broken pipe".to_owned())),
        UserEvent::DropError("broken pipe".to_owned())
    );
}

#[test]
fn only_lists_over_the_window_are_received() {
    let list = Some(vec!["text/plain".to_owned(), "text/uri-list".to_owned()]);
    let other = Some(vec!["text/plain".to_owned()]);
    let mut state = DropState::new();
    assert!(!state.drop_performed(&list));
    assert!(!state.enter(false, &list));
    assert!(!state.drop_performed(&list));
    assert!(!state.enter(true, &other));
    assert!(!state.enter(true, &None));
    assert!(state.enter(true, &list));
    assert!(!state.drop_performed(&other));
    assert!(state.drop_performed(&list));
    state.leave();
    assert!(!state.drop_performed(&list));
}

#[test]
fn schemes_and_written_forms_decide() {
    let texts = |list: &[&str]| -> Vec<String> { list.iter().map(|text| text.to_string()).collect() };
    let optional = |list: &[Option<&str>]| -> Vec<Option<String>> {
        list.iter().map(|text| text.map(str::to_owned)).collect()
    };
    let list = texts(&["x", "ftp:b", "file:c", "https:d"]);
    let schemes = optional(&[None, Some("ftp"), Some("file"), Some("https")]);
    let written = optional(&[None, Some("ftp://b/"), Some("file:///c"), Some("https://d/")]);
    let choose = |local: [bool; 4]| choose_media(&list, &schemes, &written, &local.to_vec());
    assert_eq!(choose([true; 4]), Ok(MediaUri { text: "file:///c".to_owned() }));
    assert_eq!(choose([false; 4]), Ok(MediaUri { text: "https://d/".to_owned() }));
    assert_eq!(
        choose_media(&texts(&["x"]), &vec![None], &vec![None], &vec![true]),
        Err("unsupported dropped URI: x".to_owned())
    );
    assert_eq!(
        choose_media(&vec![], &vec![], &vec![], &vec![]),
        Err("the drop contained no local files".to_owned())
    );
}
