use rhyon::article::Article;
use rhyon::error::RhyonError;
use rhyon::value_objects::{Content, Slug, Status, Summary, Title};
use uuid::Uuid;

fn draft(content: &str) -> Article {
    Article::create(
        Title::new("A title".to_string()).unwrap(),
        Slug::new("a-title".to_string()).unwrap(),
        None,
        Content::new(content.to_string()),
    )
    .unwrap()
}

#[test]
fn create_makes_a_fresh_draft() {
    let a = draft("Some text.");
    assert_eq!(*a.status(), Status::Draft);
    assert!(a.published_at().is_none());
    assert!(a.id().is_none());
    assert_eq!(a.created_at(), a.updated_at());
    assert!(a.created_at().micros > 0);
    assert_eq!(a.summary().value(), "Some text.");
    assert_eq!(a.title().value(), "A title");
    assert_eq!(a.slug().value(), "a-title");
    assert_eq!(a.content().value(), "Some text.");
}

#[test]
fn create_keeps_a_given_summary() {
    let a = Article::create(
        Title::new("T".to_string()).unwrap(),
        Slug::new("t".to_string()).unwrap(),
        Some(Summary::new("given".to_string()).unwrap()),
        Content::new("body".to_string()),
    )
    .unwrap();
    assert_eq!(a.summary().value(), "given");
}

#[test]
fn publish_blank_content_fails_and_keeps_draft() {
    let mut a = draft("   ");
    let r = a.publish();
    assert!(matches!(r, Err(RhyonError::Validation(_))));
    assert_eq!(a.status, Status::Draft);
    assert!(a.published_at.is_none());
}

#[test]
fn publish_then_unpublish_keeps_publication_time() {
    let mut a = draft("Body.");
    a.publish().unwrap();
    assert_eq!(a.status, Status::Published);
    let stamped = a.published_at.expect("publication time");
    assert_eq!(stamped, a.updated_at);
    a.unpublish().unwrap();
    assert_eq!(a.status, Status::Draft);
    assert_eq!(a.published_at, Some(stamped));
    assert!(a.updated_at.micros >= a.created_at.micros);
}

#[test]
fn unpublish_of_a_draft_fails() {
    let mut a = draft("Body.");
    assert!(matches!(a.unpublish(), Err(RhyonError::Validation(_))));
    assert_eq!(a.status, Status::Draft);
}

#[test]
fn update_slug_only_on_drafts() {
    let mut a = draft("Body.");
    let before = a.updated_at;
    a.update_slug(Slug::new("new-slug".to_string()).unwrap()).unwrap();
    assert_eq!(a.slug().value(), "new-slug");
    assert!(a.updated_at.micros >= before.micros);
    a.publish().unwrap();
    let r = a.update_slug(Slug::new("other".to_string()).unwrap());
    assert!(matches!(r, Err(RhyonError::Validation(_))));
    assert_eq!(a.slug().value(), "new-slug");
}

#[test]
fn updates_replace_fields() {
    let mut a = draft("Old body.");
    a.update_title(Title::new("New title".to_string()).unwrap());
    assert_eq!(a.title().value(), "New title");
    a.update_content(Content::new("New body. More.".to_string()));
    assert_eq!(a.content().value(), "New body. More.");
    assert_eq!(a.summary().value(), "Old body.");
    a.update_summary(None);
    assert_eq!(a.summary().value(), "New body. More.");
    a.update_summary(Some(Summary::new("Mine".to_string()).unwrap()));
    assert_eq!(a.summary().value(), "Mine");
    assert!(a.updated_at.micros >= a.created_at.micros);
}

#[test]
fn set_id_only_once() {
    let mut a = draft("Body.");
    let first = Uuid::from_u128(7);
    a.set_id(first);
    assert_eq!(*a.id().unwrap().value(), first);
    a.set_id(Uuid::from_u128(8));
    assert_eq!(*a.id().unwrap().value(), first);
}

#[test]
fn clone_keeps_every_field() {
    let a = draft("Body.");
    let b = a.clone();
    assert_eq!(b.title().value(), a.title().value());
    assert_eq!(b.created_at, a.created_at);
    assert_eq!(b.status, a.status);
}
