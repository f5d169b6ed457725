//! The decisions of the article use cases. Loading and saving belong to the
//! caller, which hands over what the store answered.

use vstd::prelude::*;
use crate::article::{Article, publish_step};
use crate::error::{RhyonError, is_validation};
use crate::text::{is_blank, trimmed};
use crate::value_objects::{
    Content, Slug, Status, Summary, Title, SUMMARY_MAX, TITLE_MAX, slug_of, slug_source,
    summary_of,
};

verus! {

/// The slug key of a new article: the given one, or one derived from the
/// trimmed title.
pub open spec fn draft_slug(slug: Option<String>, title: Seq<char>) -> Seq<char> {
    match slug {
        Some(s) => slug_of(s@),
        None => slug_of(slug_source(trimmed(title))),
    }
}

/// The summary of a new article: the given one, trimmed, or one generated
/// from the content.
pub open spec fn draft_summary(summary: Option<String>, content: Seq<char>) -> Seq<char> {
    match summary {
        Some(s) => trimmed(s@),
        None => summary_of(content),
    }
}

/// True when the raw input of a new article meets every rule.
pub open spec fn draft_ok(
    title: Seq<char>,
    slug: Option<String>,
    summary: Option<String>,
) -> bool {
    &&& 0 < trimmed(title).len() <= TITLE_MAX
    &&& (summary matches Some(s) ==> trimmed(s@).len() <= SUMMARY_MAX)
    &&& draft_slug(slug, title).len() > 0
}

/// Builds the draft that creating an article stores: checks the title, the
/// summary when given, then the slug, given or derived from the title, and
/// fails with the first rule broken. The store assigns the identity later
/// (see [`Article::set_id`]).
pub fn draft_article(
    title: String,
    slug: Option<String>,
    summary: Option<String>,
    content: String,
) -> (r: Result<Article, RhyonError>)
    ensures
        r is Ok <==> draft_ok(title@, slug, summary),
        r is Err ==> is_validation(r),
        r matches Ok(a) ==> {
            &&& a.wf()
            &&& a.id is None
            &&& a.title@ == trimmed(title@)
            &&& a.slug@ == draft_slug(slug, title@)
            &&& a.summary@ == draft_summary(summary, content@)
            &&& a.content@ == content@
            &&& a.status == Status::Draft
            &&& a.published_at is None
            &&& a.created_at == a.updated_at
        },
{
    let title = Title::new(title)?;
    let content = Content::new(content);
    let summary = match summary {
        Some(text) => Some(Summary::new(text)?),
        None => None,
    };
    let slug = match slug {
        Some(text) => Slug::new(text),
        None => Slug::from_title(title.value()),
    }?;
    Article::create(title, slug, summary, content)
}

/// Publishes the article that a lookup by slug found; fails when there was
/// none, or when its content is blank.
pub fn publish_found(found: Option<Article>) -> (r: Result<Article, RhyonError>)
    ensures
        r is Ok <==> (found matches Some(a) && !is_blank(a.content@)),
        r is Err ==> is_validation(r),
        r matches Ok(b) ==> (found matches Some(a) && publish_step(a, b) && b.wf()),
{
    match found {
        Some(a) => {
            let mut a = a;
            a.publish()?;
            Ok(a)
        },
        None => Err(RhyonError::validation("article does not exist")),
    }
}

} // verus!
