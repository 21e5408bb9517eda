use clipstash::ask;
use clipstash::field::{Content, Expires, Password, Title};
use clipstash::model::{GetClip, NewClip, UpdateClip};
use clipstash::time::Time;
use clipstash::ShortCode;

fn new_ask(content: &str) -> ask::NewClip {
    ask::NewClip {
        content: Content::new(content).expect("non-blank"),
        title: Title::new(None),
        expires: Expires::new(None),
        password: Password::new(String::new()).expect("always succeeds"),
    }
}

#[test]
fn new_clip_mints_fresh_identity_each_time() {
    let now = Time::from_timestamp(5000);
    let first = NewClip::from_ask(new_ask("hello"), now);
    let second = NewClip::from_ask(new_ask("hello"), now);
    assert_ne!(first.clip_id, second.clip_id);
    assert_ne!(first.shortcode, second.shortcode);
}

#[test]
fn new_clip_copies_fields_verbatim_and_stamps_posted() {
    let req = ask::NewClip {
        content: Content::new("hello").expect("non-blank"),
        title: Title::new(Some(String::from("a title"))),
        expires: Expires::new(Some(Time::from_timestamp(1000))),
        password: Password::new(String::from("pw")).expect("always succeeds"),
    };
    let cmd = NewClip::from_ask(req, Time::from_timestamp(5000));
    assert_eq!(cmd.content, "hello");
    assert_eq!(cmd.title, Some(String::from("a title")));
    assert_eq!(cmd.expires, Some(1000));
    assert_eq!(cmd.password, Some(String::from("pw")));
    assert_eq!(cmd.posted, 5000);
    assert_eq!(cmd.clip_id.len(), 36);
    assert_eq!(cmd.shortcode.len(), 16);
}

#[test]
fn new_clip_never_mints_the_nil_identity() {
    let cmd = NewClip::from_ask(new_ask("hello"), Time::from_timestamp(0));
    assert_ne!(cmd.clip_id, "00000000-0000-0000-0000-000000000000");
    assert_ne!(cmd.shortcode, "0000000000000000");
}

#[test]
fn update_clip_preserves_target_shortcode() {
    let req = ask::UpdateClip {
        shortcode: ShortCode::from_string(String::from("abc123")),
        content: Content::new("changed").expect("non-blank"),
        title: Title::new(None),
        expires: Expires::new(None),
        password: Password::new(String::new()).expect("always succeeds"),
    };
    let cmd = UpdateClip::from_ask(req);
    assert_eq!(cmd.shortcode, "abc123");
    assert_eq!(cmd.content, "changed");
    assert_eq!(cmd.title, None);
    assert_eq!(cmd.expires, None);
    assert_eq!(cmd.password, None);
}

#[test]
fn get_clip_carries_the_shortcode_through() {
    let from_code = GetClip::from_shortcode(ShortCode::from_string(String::from("abc123")));
    assert_eq!(from_code.shortcode, "abc123");
    let from_raw = GetClip::from_raw(String::from("abc123"));
    assert_eq!(from_raw.shortcode, "abc123");
    let from_ask = GetClip::from_ask(ask::GetClip {
        shortcode: ShortCode::from_string(String::from("abc123")),
    });
    assert_eq!(from_ask.shortcode, "abc123");
}
