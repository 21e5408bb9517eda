use clipstash::clip::RetrievalOutcome;
use clipstash::ctx::{Home, PageContext, PasswordRequired, ViewClip};
use clipstash::model::PersistedRow;
use clipstash::time::Time;
use clipstash::{Clip, ClipError, ShortCode};

fn sample_row() -> PersistedRow {
    PersistedRow {
        clip_id: String::from("550e8400-e29b-41d4-a716-446655440000"),
        shortcode: String::from("abc123"),
        content: String::from("hello"),
        title: None,
        expires: None,
        password: None,
        posted: 1000,
        hits: 0,
    }
}

#[test]
fn valid_row_converts_to_clip() {
    let clip = Clip::try_from(sample_row()).expect("valid row must convert");
    assert_eq!(clip.content.into_inner(), "hello");
    assert_eq!(clip.hits.into_inner(), 0);
    assert_eq!(clip.shortcode.into_inner(), "abc123");
    assert_eq!(clip.title.into_inner(), None);
    assert!(!clip.password.has_password());
    assert_eq!(clip.posted.into_inner().timestamp(), 1000);
    assert_eq!(
        clip.clip_id.into_inner().to_string(),
        "550e8400-e29b-41d4-a716-446655440000"
    );
}

#[test]
fn row_with_malformed_id_is_rejected_whole() {
    let mut row = sample_row();
    row.clip_id = String::from("not-a-uuid");
    assert!(matches!(Clip::try_from(row), Err(ClipError::InvalidId)));
}

#[test]
fn row_with_blank_content_is_rejected() {
    let mut row = sample_row();
    row.content = String::from("  \t ");
    assert!(matches!(Clip::try_from(row), Err(ClipError::EmptyContent)));
}

#[test]
fn row_with_negative_hits_is_rejected() {
    let mut row = sample_row();
    row.hits = -5;
    assert!(matches!(Clip::try_from(row), Err(ClipError::CountRangeError)));
}

#[test]
fn malformed_id_outranks_other_corruption() {
    let mut row = sample_row();
    row.clip_id = String::from("broken");
    row.content = String::new();
    row.hits = -1;
    assert!(matches!(Clip::try_from(row), Err(ClipError::InvalidId)));
}

#[test]
fn empty_string_password_column_means_unset() {
    let mut row = sample_row();
    row.password = Some(String::new());
    let clip = Clip::try_from(row).expect("valid row must convert");
    assert!(!clip.password.has_password());
}

#[test]
fn expired_clip_is_denied_even_though_row_parses() {
    let mut row = sample_row();
    row.expires = Some(10);
    let clip = Clip::try_from(row).expect("the row itself is valid");
    let outcome = clip.retrieval_outcome(Time::from_timestamp(100), None);
    assert_eq!(outcome, RetrievalOutcome::Denied);
}

#[test]
fn expired_clip_is_denied_regardless_of_password() {
    let mut row = sample_row();
    row.expires = Some(10);
    row.password = Some(String::from("secret"));
    let clip = Clip::try_from(row).expect("the row itself is valid");
    let outcome = clip.retrieval_outcome(Time::from_timestamp(100), Some("secret"));
    assert_eq!(outcome, RetrievalOutcome::Denied);
}

#[test]
fn protected_clip_gates_content_on_verification() {
    let mut row = sample_row();
    row.password = Some(String::from("secret"));
    let clip = Clip::try_from(row).expect("valid row must convert");
    let now = Time::from_timestamp(2000);
    assert_eq!(
        clip.retrieval_outcome(now, Some("wrong")),
        RetrievalOutcome::NeedsPassword
    );
    assert_eq!(
        clip.retrieval_outcome(now, None),
        RetrievalOutcome::NeedsPassword
    );
    assert_eq!(
        clip.retrieval_outcome(now, Some("secret")),
        RetrievalOutcome::Granted
    );
}

#[test]
fn unprotected_unexpired_clip_is_granted() {
    let clip = Clip::try_from(sample_row()).expect("valid row must convert");
    let outcome = clip.retrieval_outcome(Time::from_timestamp(2000), None);
    assert_eq!(outcome, RetrievalOutcome::Granted);
}

#[test]
fn page_contexts_describe_their_templates() {
    let home = Home::default();
    assert_eq!(home.template_path(), "home");
    assert_eq!(home.title(), "Stash Your Clipboard!");
    assert_eq!(home.parent(), "base");

    let clip = Clip::try_from(sample_row()).expect("valid row must convert");
    let view = ViewClip::new(clip);
    assert_eq!(view.template_path(), "clip");
    assert_eq!(view.title(), "View Clip");
    assert_eq!(view.parent(), "base");

    let need = PasswordRequired::new(ShortCode::from_string(String::from("abc123")));
    assert_eq!(need.template_path(), "clip_need_password");
    assert_eq!(need.title(), "Password required");
    assert_eq!(need.parent(), "base");
    assert_eq!(need.shortcode.into_inner(), "abc123");
}
