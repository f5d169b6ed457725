//! The article aggregate and its lifecycle rules.

use vstd::prelude::*;
use uuid::Uuid;
use crate::error::{RhyonError, is_validation};
use crate::text::is_blank;
use crate::time::{Timestamp, now};
use crate::value_objects::{Content, Id, Slug, Status, Summary, Title, summary_of};

verus! {

/// An article: its identity, its value objects, its status and when it was
/// created, last changed and last published.
#[derive(Debug)]
pub struct Article {
    pub id: Option<Id>,
    pub slug: Slug,
    pub title: Title,
    pub summary: Summary,
    pub content: Content,
    pub status: Status,
    pub created_at: Timestamp,
    pub updated_at: Timestamp,
    pub published_at: Option<Timestamp>,
}

/// The time that a change of `a` at `now` records: `now`, or the creation
/// time should the clock read earlier than that.
pub open spec fn stamp_for(a: Article, now: Timestamp) -> Timestamp {
    if now.micros >= a.created_at.micros {
        now
    } else {
        a.created_at
    }
}

/// `after` is `before` with only its modification time changed, to a time
/// no earlier than its creation.
pub open spec fn touched(before: Article, after: Article) -> bool {
    &&& after == Article { updated_at: after.updated_at, ..before }
    &&& after.updated_at.micros >= before.created_at.micros
}

/// `after` is what publishing `before` gives: status `Published`, with the
/// publication time equal to the new modification time.
pub open spec fn publish_step(before: Article, after: Article) -> bool {
    &&& after == Article {
        status: Status::Published,
        published_at: Some(after.updated_at),
        updated_at: after.updated_at,
        ..before
    }
    &&& after.updated_at.micros >= before.created_at.micros
}

/// `after` is what unpublishing `before` gives: status `Draft`, the
/// publication time kept.
pub open spec fn unpublish_step(before: Article, after: Article) -> bool {
    &&& after == Article { status: Status::Draft, updated_at: after.updated_at, ..before }
    &&& after.updated_at.micros >= before.created_at.micros
}

/// `a` is a fresh draft built from the given parts.
pub open spec fn is_new_draft(
    a: Article,
    title: Title,
    slug: Slug,
    summary: Option<Summary>,
    content: Content,
) -> bool {
    &&& a.id is None
    &&& a.title == title
    &&& a.slug == slug
    &&& a.summary@ == match summary {
        Some(s) => s@,
        None => summary_of(content@),
    }
    &&& a.content == content
    &&& a.status == Status::Draft
    &&& a.published_at is None
    &&& a.created_at == a.updated_at
}

/// Publishing and then unpublishing an article leaves a draft that keeps the
/// publication time stamped by the publishing: the round trip does not
/// restore the article as it was.
pub proof fn lemma_publish_then_unpublish(a: Article, b: Article, c: Article)
    requires
        publish_step(a, b),
        unpublish_step(b, c),
    ensures
        b.status == Status::Published,
        b.published_at == Some(b.updated_at),
        c.status == Status::Draft,
        c.published_at == b.published_at,
        c.published_at is Some,
{
}

impl Article {
    /// The aggregate's invariant: it was not changed before it was created,
    /// and a published article has a publication time.
    pub open spec fn wf(&self) -> bool {
        &&& self.created_at.micros <= self.updated_at.micros
        &&& (self.status == Status::Published ==> self.published_at is Some)
    }

    /// Records a change made at `now`.
    fn touch(&mut self, now: Timestamp)
        ensures
            *final(self) == (Article { updated_at: stamp_for(*old(self), now), ..*old(self) }),
    {
        let at = if now.micros >= self.created_at.micros {
            now
        } else {
            self.created_at
        };
        self.updated_at = at;
    }

    /// A new draft, without identity. The summary, when absent, is generated
    /// from the content.
    pub fn create(title: Title, slug: Slug, summary: Option<Summary>, content: Content) -> (r:
        Result<Article, RhyonError>)
        ensures
            r matches Ok(a) && a.wf() && is_new_draft(a, title, slug, summary, content),
    {
        let now = now();
        let summary = match summary {
            Some(s) => s,
            None => Summary::generate_from_content(&content),
        };
        Ok(
            Article {
                id: None,
                title,
                slug,
                summary,
                content,
                status: Status::Draft,
                created_at: now,
                updated_at: now,
                published_at: None,
            },
        )
    }

    /// Rebuilds an article from stored parts, as they are.
    pub fn reconstitute(
        id: Option<Id>,
        slug: Slug,
        title: Title,
        summary: Summary,
        content: Content,
        status: Status,
        created_at: Timestamp,
        updated_at: Timestamp,
        published_at: Option<Timestamp>,
    ) -> (r: Article)
        ensures
            r == (Article {
                id,
                slug,
                title,
                summary,
                content,
                status,
                created_at,
                updated_at,
                published_at,
            }),
    {
        Article { id, slug, title, summary, content, status, created_at, updated_at, published_at }
    }

    /// Gives the article its store identity, unless it has one already.
    pub fn set_id(&mut self, id: Uuid)
        ensures
            old(self).id is Some ==> *final(self) == *old(self),
            old(self).id is None ==> *final(self) == (Article { id: final(self).id, ..*old(self) }),
            old(self).id is None ==> (final(self).id matches Some(i) && i@ == id),
    {
        if self.id.is_none() {
            self.id = Some(Id::from(id));
        }
    }

    /// Publishes the article; fails, changing nothing, when its content is
    /// blank. Publishing again stamps a new publication time.
    pub fn publish(&mut self) -> (r: Result<(), RhyonError>)
        ensures
            r is Err <==> is_blank(old(self).content@),
            r is Err ==> is_validation(r) && *final(self) == *old(self),
            r is Ok ==> publish_step(*old(self), *final(self)),
            r is Ok ==> final(self).wf(),
    {
        if self.content.is_empty() {
            return Err(RhyonError::validation("cannot publish an article without content"));
        }
        let now = now();
        self.status = Status::Published;
        self.touch(now);
        self.published_at = Some(self.updated_at);
        Ok(())
    }

    /// Turns a published article back into a draft; fails, changing nothing,
    /// on a draft. The publication time is kept.
    pub fn unpublish(&mut self) -> (r: Result<(), RhyonError>)
        ensures
            r is Err <==> old(self).status != Status::Published,
            r is Err ==> is_validation(r) && *final(self) == *old(self),
            r is Ok ==> unpublish_step(*old(self), *final(self)),
            old(self).wf() ==> final(self).wf(),
    {
        if self.status != Status::Published {
            return Err(RhyonError::validation("only a published article can become a draft"));
        }
        self.status = Status::Draft;
        self.touch(now());
        Ok(())
    }

    pub fn update_title(&mut self, title: Title)
        ensures
            final(self).title == title,
            touched(Article { title: title, ..*old(self) }, *final(self)),
            old(self).wf() ==> final(self).wf(),
    {
        self.title = title;
        self.touch(now());
    }

    pub fn update_content(&mut self, content: Content)
        ensures
            final(self).content == content,
            touched(Article { content: content, ..*old(self) }, *final(self)),
            old(self).wf() ==> final(self).wf(),
    {
        self.content = content;
        self.touch(now());
    }

    /// Replaces the summary, or regenerates it from the content when none is
    /// given.
    pub fn update_summary(&mut self, summary: Option<Summary>)
        ensures
            final(self).summary@ == match summary {
                Some(s) => s@,
                None => summary_of(old(self).content@),
            },
            touched(Article { summary: final(self).summary, ..*old(self) }, *final(self)),
            old(self).wf() ==> final(self).wf(),
    {
        let summary = match summary {
            Some(s) => s,
            None => Summary::generate_from_content(&self.content),
        };
        self.summary = summary;
        self.touch(now());
    }

    /// Replaces the slug of a draft; fails, changing nothing, once the
    /// article is published.
    pub fn update_slug(&mut self, slug: Slug) -> (r: Result<(), RhyonError>)
        ensures
            r is Err <==> old(self).status == Status::Published,
            r is Err ==> is_validation(r) && *final(self) == *old(self),
            r is Ok ==> final(self).slug == slug,
            r is Ok ==> touched(Article { slug: slug, ..*old(self) }, *final(self)),
            old(self).wf() ==> final(self).wf(),
    {
        if self.status == Status::Published {
            return Err(RhyonError::validation("the slug of a published article cannot change"));
        }
        self.slug = slug;
        self.touch(now());
        Ok(())
    }

    pub fn id(&self) -> (r: Option<&Id>)
        ensures
            r matches Some(i) ==> self.id == Some(*i),
            r is None <==> self.id is None,
    {
        self.id.as_ref()
    }

    pub fn slug(&self) -> (r: &Slug)
        ensures
            *r == self.slug,
    {
        &self.slug
    }

    pub fn title(&self) -> (r: &Title)
        ensures
            *r == self.title,
    {
        &self.title
    }

    pub fn summary(&self) -> (r: &Summary)
        ensures
            *r == self.summary,
    {
        &self.summary
    }

    pub fn content(&self) -> (r: &Content)
        ensures
            *r == self.content,
    {
        &self.content
    }

    pub fn status(&self) -> (r: &Status)
        ensures
            *r == self.status,
    {
        &self.status
    }

    pub fn created_at(&self) -> (r: &Timestamp)
        ensures
            *r == self.created_at,
    {
        &self.created_at
    }

    pub fn updated_at(&self) -> (r: &Timestamp)
        ensures
            *r == self.updated_at,
    {
        &self.updated_at
    }

    pub fn published_at(&self) -> (r: Option<&Timestamp>)
        ensures
            r matches Some(t) ==> self.published_at == Some(*t),
            r is None <==> self.published_at is None,
    {
        self.published_at.as_ref()
    }
}

impl Clone for Article {
    fn clone(&self) -> (r: Article)
        ensures
            r == *self,
    {
        Article {
            id: self.id,
            slug: self.slug.clone(),
            title: self.title.clone(),
            summary: self.summary.clone(),
            content: self.content.clone(),
            status: self.status,
            created_at: self.created_at,
            updated_at: self.updated_at,
            published_at: self.published_at,
        }
    }
}

} // verus!
