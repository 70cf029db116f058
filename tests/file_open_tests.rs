use winit_open::file_open::{handle_file_open, FileOpenReply};

fn paths(items: &[&str]) -> Vec<String> {
    items.iter().map(|s| s.to_string()).collect()
}

#[test]
fn single_path_sets_title() {
    let r = handle_file_open(true, &paths(&["/a/one.txt"]));
    assert_eq!(r.reply, FileOpenReply::Success);
    assert_eq!(r.title, Some("Opened: '/a/one.txt'".to_string()));
}

#[test]
fn only_last_path_is_shown() {
    let r = handle_file_open(true, &paths(&["/a/one.txt", "/b/two.txt", "/c/three.txt"]));
    assert_eq!(r.reply, FileOpenReply::Success);
    assert_eq!(r.title, Some("Opened: '/c/three.txt'".to_string()));
}

#[test]
fn empty_request_leaves_title() {
    let r = handle_file_open(true, &paths(&[]));
    assert_eq!(r.reply, FileOpenReply::Success);
    assert_eq!(r.title, None);
}

#[test]
fn request_before_window_fails() {
    let r = handle_file_open(false, &paths(&["/a/one.txt"]));
    assert_eq!(r.reply, FileOpenReply::Failure);
    assert_eq!(r.title, None);
}
