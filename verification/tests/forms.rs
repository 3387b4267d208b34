use tuisky::actions::{Transition, ViewAction};
use tuisky::at_uri::parse_at_uri;
use tuisky::embed::{ChildRequest, EmbedData, EmbedModal, ImageData, ModalAction, ModalData, StrongRef};
use tuisky::embed_images::{path_state, PathState};
use tuisky::embed_record::{check_record_uri, RecordModal, RecordState};
use tuisky::keys::{Key, KeyCode, KeyParseError, CONTROL, NONE, SHIFT};
use tuisky::login_form::{login_outcome, login_update, Focus as LoginFocus, LoginAttempt};
use tuisky::new_post::{
    check_image, embed_kind, embed_lines, embed_summary, key_target, langs_valid, length_state, post_langs,
    remaining_label, text_length, upload_plan, Focus, ImageCheck, KeyTarget, LengthState, NewPost, PostEmbedKind,
};
use tuisky::text::{i64_to_decimal, join, split_char, trim, u64_to_decimal};

fn lines(v: &[&str]) -> Vec<String> {
    v.iter().map(|s| s.to_string()).collect()
}

#[test]
fn decimal_text() {
    assert_eq!(u64_to_decimal(0), "0");
    assert_eq!(u64_to_decimal(1234567890), "1234567890");
    assert_eq!(i64_to_decimal(-42), "-42");
    assert_eq!(i64_to_decimal(i64::MIN), "-9223372036854775808");
    assert_eq!(join(&lines(&["a", "b", "c"]), ", "), "a, b, c");
    assert_eq!(split_char("a,,b,", ','), lines(&["a", "", "b", ""]));
    assert_eq!(split_char("", ','), lines(&[""]));
    assert_eq!(trim(" \t ja \u{3000}"), "ja");
    assert_eq!(trim("   "), "");
}

#[test]
fn key_text_round_trip() {
    for key in [
        Key(KeyCode::Char('c'), CONTROL),
        Key(KeyCode::Char('X'), SHIFT),
        Key(KeyCode::Left, NONE),
        Key(KeyCode::PageDown, NONE),
        Key(KeyCode::Char('a'), NONE),
    ] {
        let text = key.to_text().expect("has a text form");
        assert_eq!(Key::parse(&text), Ok(key));
    }
    assert_eq!(Key(KeyCode::Char('c'), CONTROL).to_text().unwrap(), "Ctrl-c");
    assert_eq!(Key::parse("Alt-x"), Err(KeyParseError::InvalidKeyModifier));
    assert_eq!(Key::parse("Ctrl-xy"), Err(KeyParseError::InvalidKey));
    assert_eq!(Key::parse("Nope"), Err(KeyParseError::UnsupportedKeyCode));
    assert!(Key(KeyCode::Char('c'), 6).to_text().is_err());
}

#[test]
fn new_post_languages() {
    assert_eq!(post_langs(&lines(&["en, ja", ",x!x, fr"])), Some(lines(&["en", "ja", "fr"])));
    assert_eq!(post_langs(&lines(&[""])), None);
    assert!(langs_valid(&lines(&["en,ja"])));
    assert!(!langs_valid(&lines(&["en,"])));
    assert!(!langs_valid(&lines(&[""])));
}

#[test]
fn new_post_text_and_embed() {
    assert_eq!(text_length(&lines(&["héllo", "wörld"])), 11);
    assert_eq!(text_length(&lines(&["👨‍👩‍👧"])), 1);
    assert_eq!(length_state(0), LengthState::Empty);
    assert_eq!(length_state(300), LengthState::Fits);
    assert_eq!(length_state(301), LengthState::TooLong);
    assert_eq!(remaining_label(5), "295 ");
    assert_eq!(remaining_label(310), "-10 ");
    assert_eq!(embed_summary(true, 0), "  a record");
    assert_eq!(embed_summary(true, 1), "  a record with 1 image");
    assert_eq!(embed_summary(true, 3), "  a record with 3 images");
    assert_eq!(embed_summary(false, 2), "  2 images");
    let data = EmbedData { images: vec![ImageData { path: "a.png".into(), alt: String::new() }], record: None };
    assert_eq!(embed_lines(&Some(data)), lines(&["+ Embed", "  1 images"]));
    assert_eq!(embed_kind(true, 0), PostEmbedKind::Record);
    assert_eq!(embed_kind(true, 2), PostEmbedKind::RecordWithMedia);
    assert_eq!(embed_kind(false, 0), PostEmbedKind::Images);
}

#[test]
fn new_post_flow() {
    let mut form = NewPost::new();
    assert_eq!(key_target(false, form.focus, false), KeyTarget::Text);
    form.update(ViewAction::NextItem);
    assert_eq!(form.focus, Focus::Embed);
    let step = form.update(ViewAction::Enter);
    assert!(step.open_embed && form.modal_open);
    assert_eq!(key_target(form.modal_open, form.focus, true), KeyTarget::Modal);
    // an empty embedding leaves nothing embedded
    let r = form.modal_done(Some(ModalAction::Confirm(ModalData::Embed(EmbedData { images: Vec::new(), record: None }))));
    assert_eq!(r, Some(ViewAction::Render));
    assert!(form.embed.is_none() && !form.modal_open);
    form.update(ViewAction::PrevItem);
    form.update(ViewAction::PrevItem);
    assert_eq!(form.focus, Focus::Submit);
    let step = form.update(ViewAction::Enter);
    assert!(step.submit);
    assert_eq!(form.focus, Focus::Unfocused);
    assert_eq!(form.update(ViewAction::Back).reply, Some(ViewAction::Transition(Transition::Pop)));
    let (reply, state) = form.text_edited(true, false, &lines(&["hi"]));
    assert_eq!(reply, Some(ViewAction::Render));
    assert_eq!(state, LengthState::Fits);
    assert_eq!(form.text_len, 2);
}

fn crc32(bytes: &[u8]) -> u32 {
    let mut crc: u32 = 0xffff_ffff;
    for &b in bytes {
        crc ^= b as u32;
        for _ in 0..8 {
            let mask = (crc & 1).wrapping_neg();
            crc = (crc >> 1) ^ (0xedb8_8320 & mask);
        }
    }
    !crc
}

fn chunk(kind: &[u8], data: &[u8]) -> Vec<u8> {
    let mut out = (data.len() as u32).to_be_bytes().to_vec();
    let mut body = kind.to_vec();
    body.extend_from_slice(data);
    out.extend_from_slice(&body);
    out.extend_from_slice(&crc32(&body).to_be_bytes());
    out
}

fn png(width: u32, height: u32) -> Vec<u8> {
    let mut out = vec![0x89, b'P', b'N', b'G', 0x0d, 0x0a, 0x1a, 0x0a];
    let mut ihdr = width.to_be_bytes().to_vec();
    ihdr.extend_from_slice(&height.to_be_bytes());
    ihdr.extend_from_slice(&[8, 0, 0, 0, 0]);
    out.extend(chunk(b"IHDR", &ihdr));
    // one grey pixel, zlib-compressed
    out.extend(chunk(b"IDAT", &[0x78, 0x9c, 0x63, 0x60, 0x00, 0x00, 0x00, 0x02, 0x00, 0x01]));
    out.extend(chunk(b"IEND", &[]));
    out
}

#[test]
fn images_for_a_post() {
    assert_eq!(check_image("a.png", &png(3, 2)), ImageCheck::Ready(3, 2));
    assert_eq!(check_image("a.unknown", &png(3, 2)), ImageCheck::Fail);
    assert_eq!(check_image("a.png", b"not an image"), ImageCheck::Fail);
    assert_eq!(check_image("a.png", &vec![0u8; 1_000_001]), ImageCheck::Skip);
    assert_eq!(
        upload_plan(&vec![ImageCheck::Skip, ImageCheck::Ready(1, 2), ImageCheck::Ready(3, 4)]),
        Ok(vec![(1, 1, 2), (2, 3, 4)])
    );
    assert_eq!(upload_plan(&vec![ImageCheck::Ready(1, 2), ImageCheck::Fail, ImageCheck::Fail]), Err(1));
}

#[test]
fn login_form_steps() {
    let step = login_update(LoginFocus::Password, ViewAction::Enter);
    assert_eq!(step.focus, LoginFocus::Submit);
    assert!(!step.submit);
    let step = login_update(LoginFocus::Submit, ViewAction::Enter);
    assert!(step.submit);
    let out = login_outcome(LoginAttempt::Unreachable);
    assert_eq!(out.message.as_deref(), Some("failed to connect to server"));
    let out = login_outcome(LoginAttempt::Refused("bad password".to_string()));
    assert_eq!(out.message.as_deref(), Some("bad password"));
    assert!(login_outcome(LoginAttempt::SignedIn).signed_in);
    assert!(!login_outcome(LoginAttempt::NoClient).redraw);
}

#[test]
fn record_uris() {
    let parts = parse_at_uri("at://did:plc:abc/app.bsky.feed.post/3k2a").expect("valid");
    assert_eq!(parts.authority, "did:plc:abc");
    assert_eq!(parts.collection, "app.bsky.feed.post");
    assert_eq!(parts.rkey, "3k2a");
    assert!(parse_at_uri("https://example.com").is_none());
    assert!(check_record_uri("at://did:plc:abc/app.bsky.feed.post/3k2a").is_ok());
    assert_eq!(check_record_uri("nope").err().as_deref(), Some("invalid at uri"));
    assert_eq!(
        check_record_uri("at://did:plc:abc/notansid/3k2a").err().as_deref(),
        Some("invalid authority or collection")
    );
    let mut modal = RecordModal::new(false);
    modal.fetched(None);
    assert!(matches!(&modal.state, RecordState::Failed(m) if m == "failed to get record"));
}

#[test]
fn embed_modal_edits() {
    let mut modal = EmbedModal::new(Some(EmbedData {
        images: vec![ImageData { path: "a.png".into(), alt: "A".into() }],
        record: Some(StrongRef { uri: "at://x".into(), cid: "c".into() }),
    }));
    modal.update(ViewAction::NextItem);
    assert_eq!(modal.actions_selected, Some(0));
    modal.update(ViewAction::PrevItem);
    assert_eq!(modal.embeds_selected, Some(1));
    let step = modal.update(ViewAction::Enter);
    assert!(modal.child_open);
    assert!(step.open.is_some());
    modal.child_done(Some(ModalAction::Delete(Some(0))));
    assert!(modal.images.is_empty());
    assert_eq!(modal.embeds_selected, None);
    assert_eq!(path_state(None, false), PathState::Missing);
    assert_eq!(path_state(Some((true, 2_000_000)), true), PathState::Invalid);
    assert_eq!(path_state(Some((true, 10)), true), PathState::Valid);
}

#[test]
fn embed_modal_holds_at_most_four_images() {
    let mut modal = EmbedModal::new(None);
    modal.update(ViewAction::NextItem);
    assert_eq!(modal.actions_selected, Some(0));
    for n in 0..4 {
        let step = modal.update(ViewAction::Enter);
        assert!(matches!(step.open, Some(ChildRequest::AddImage)));
        assert!(modal.adding_image);
        let image = ImageData { path: format!("{n}.png"), alt: String::new() };
        modal.child_done(Some(ModalAction::Confirm(ModalData::Image(image, None))));
        assert!(!modal.child_open && !modal.adding_image);
    }
    assert_eq!(modal.images.len(), 4);
    let step = modal.update(ViewAction::Enter);
    assert!(step.open.is_none());
    assert!(!modal.child_open);
    assert_eq!(modal.images.len(), 4);
}

#[test]
fn record_uri_identifiers() {
    // handles: two or more labels, the last starting with a letter
    assert!(check_record_uri("at://alice.bsky.social/app.bsky.feed.post/3k2a").is_ok());
    assert!(check_record_uri("at://a-b.c0/app.bsky.feed.post/3k2a").is_ok());
    assert!(check_record_uri("at://alice/app.bsky.feed.post/3k2a").is_err());
    assert!(check_record_uri("at://-alice.test/app.bsky.feed.post/3k2a").is_err());
    assert!(check_record_uri("at://alice.0test/app.bsky.feed.post/3k2a").is_err());
    // DIDs: lowercase method, identifier not ending in ':' or '%'
    assert!(check_record_uri("at://did:web:example.com%3A8080/app.bsky.feed.post/3k2a").is_ok());
    assert!(check_record_uri("at://did:Plc:abc/app.bsky.feed.post/3k2a").is_err());
    assert!(check_record_uri("at://did:plc:abc%/app.bsky.feed.post/3k2a").is_err());
    // NSIDs: three or more segments, the last letters and digits only
    assert!(check_record_uri("at://did:plc:abc/app.bsky/3k2a").is_err());
    assert!(check_record_uri("at://did:plc:abc/app.bsky.feed-post/3k2a").is_err());
    assert!(check_record_uri("at://did:plc:abc/app.b-sky.feed.post2/3k2a").is_ok());
    assert!(check_record_uri("at://did:plc:abc/1app.bsky.post/3k2a").is_err());
}
