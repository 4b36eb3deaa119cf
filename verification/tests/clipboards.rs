use std::collections::hash_map::DefaultHasher;
use std::hash::{Hash, Hasher};
use uniclip::clipboard::{Clipboard, ClipboardContext, ClipboardState};
use uniclip::error::{ClipboardFault, UniClipError};
use uniclip::picture::{encode_as_png, ImageData};

fn text(s: &str) -> ClipboardState {
    ClipboardState::Text(String::from(s))
}

fn knowing(state: ClipboardState, stamp: u64) -> Clipboard {
    let hash = state.digest();
    Clipboard { ctx: ClipboardContext { hash, state, stamp } }
}

#[derive(Hash)]
enum Contents {
    Text(String),
    Image(Vec<u8>),
}

fn std_hash(contents: &Contents) -> u64 {
    let mut hasher = DefaultHasher::new();
    contents.hash(&mut hasher);
    hasher.finish()
}

#[test]
fn digest_is_that_of_the_contents() {
    assert_eq!(text("abc").digest(), text("abc").digest());
    assert_ne!(text("abc").digest(), text("abd").digest());
    assert_ne!(text("abc").digest(), ClipboardState::Image(b"abc".to_vec()).digest());
    if usize::BITS == 64 {
        assert_eq!(text("abc").digest(), std_hash(&Contents::Text(String::from("abc"))));
        assert_eq!(
            ClipboardState::Image(vec![1, 2]).digest(),
            std_hash(&Contents::Image(vec![1, 2]))
        );
    }
}

#[test]
fn new_clipboard_is_blank() {
    assert_eq!(
        Clipboard::new().ctx,
        ClipboardContext { hash: 0, state: text(""), stamp: 0 }
    );
}

#[test]
fn found_contents_are_new_once() {
    let mut clipboard = Clipboard::new();
    let news = clipboard.get_at(text("abc"), Some(5)).unwrap().unwrap();
    assert_eq!(news.state, text("abc"));
    assert_eq!(news.stamp, 5);
    assert_eq!(news.hash, text("abc").digest());
    assert_eq!(clipboard.ctx, news);
    assert_eq!(clipboard.get_at(text("abc"), Some(6)), Ok(None));
    assert_eq!(clipboard.ctx, news);
}

#[test]
fn found_contents_need_a_clock() {
    let mut clipboard = knowing(text("abc"), 5);
    assert_eq!(clipboard.get_at(text("abd"), None), Err(UniClipError::SystemClockError));
    assert_eq!(clipboard, knowing(text("abc"), 5));
    assert_eq!(clipboard.get_at(text("abc"), None), Ok(None));
}

#[test]
fn newer_text_replaces_what_is_known() {
    let mut clipboard = knowing(text("old"), 5);
    let write = clipboard.set_text_at(String::from("new"), 6, Some(100));
    assert_eq!(write, Ok(Some(String::from("new"))));
    assert_eq!(clipboard, knowing(text("new"), 100));
    // What was written is not news.
    assert_eq!(clipboard.get_at(text("new"), Some(101)), Ok(None));
}

#[test]
fn text_is_ignored() {
    let mut clipboard = knowing(text("old"), 5);
    assert_eq!(clipboard.set_text_at(String::from("new"), 5, Some(100)), Ok(None));
    assert_eq!(clipboard.set_text_at(String::from("new"), 4, None), Ok(None));
    assert_eq!(clipboard.set_text_at(String::from("old"), 9, Some(100)), Ok(None));
    assert_eq!(clipboard, knowing(text("old"), 5));
}

#[test]
fn text_needs_a_clock() {
    let mut clipboard = knowing(text("old"), 5);
    assert_eq!(
        clipboard.set_text_at(String::from("new"), 6, None),
        Err(UniClipError::SystemClockError)
    );
    assert_eq!(clipboard, knowing(text("old"), 5));
}

#[test]
fn newer_picture_replaces_what_is_known() {
    let image = ImageData { width: 1, height: 1, bytes: vec![9, 8, 7, 255] };
    let png = encode_as_png(&image).unwrap();
    let mut clipboard = knowing(text("old"), 5);
    assert_eq!(clipboard.set_image_at(png.clone(), 5, Some(100)), Ok(None));
    assert_eq!(clipboard.set_image_at(png.clone(), 6, Some(100)), Ok(Some(image)));
    assert_eq!(clipboard, knowing(ClipboardState::Image(png.clone()), 100));
    assert_eq!(clipboard.set_image_at(png, 200, Some(201)), Ok(None));
}

#[test]
fn file_that_is_no_picture_is_known_but_not_written() {
    let mut clipboard = knowing(text("old"), 5);
    assert_eq!(
        clipboard.set_image_at(vec![1, 2, 3], 6, Some(100)),
        Err(UniClipError::ClipboardError(ClipboardFault::ConversionFailure))
    );
    assert_eq!(clipboard, knowing(ClipboardState::Image(vec![1, 2, 3]), 100));
}

#[test]
fn clipboard_reads_the_clock() {
    let before = uniclip::timestamp::get_utc_now().unwrap();
    let mut clipboard = Clipboard::new();
    let found = clipboard.get(text("a")).unwrap().unwrap();
    assert!(before <= found.stamp);
    let later = clipboard.ctx.stamp + 1;
    assert_eq!(clipboard.set_text(String::from("b"), later), Ok(Some(String::from("b"))));
    assert!(before <= clipboard.ctx.stamp);
    let later = clipboard.ctx.stamp + 1;
    assert_eq!(
        clipboard.set_image(vec![], later),
        Err(UniClipError::ClipboardError(ClipboardFault::ConversionFailure))
    );
    assert_eq!(clipboard.ctx.state, ClipboardState::Image(vec![]));
}
