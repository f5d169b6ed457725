//! The flat form in which an article is stored, and the checks that turn a
//! stored row back into an article.

use vstd::prelude::*;
use uuid::Uuid;
use crate::article::Article;
use crate::error::{RhyonError, is_validation};
use crate::pagination::{PageRequest, PageResponse, page_count};
use crate::text::{lower_of, trimmed};
use crate::time::Timestamp;
use crate::value_objects::{
    Content, Id, Slug, Status, Summary, Title, SUMMARY_MAX, TITLE_MAX, slug_of, status_name,
};

verus! {

broadcast use vstd::string::group_string_axioms;

/// An article as a row of plain values.
#[derive(Debug)]
pub struct ArticleRecord {
    pub id: Option<Uuid>,
    pub slug: String,
    pub title: String,
    pub summary: String,
    pub content: String,
    pub status: String,
    pub created_at: Timestamp,
    pub updated_at: Timestamp,
    pub published_at: Option<Timestamp>,
}

/// The identity that an optional `Id` carries.
pub open spec fn uuid_of(id: Option<Id>) -> Option<Uuid> {
    match id {
        Some(i) => Some(i@),
        None => None,
    }
}

/// True when every text field of the row meets its value object's rules.
pub open spec fn record_ok(rec: ArticleRecord) -> bool {
    &&& 0 < trimmed(rec.title@).len() <= TITLE_MAX
    &&& slug_of(rec.slug@).len() > 0
    &&& trimmed(rec.summary@).len() <= SUMMARY_MAX
    &&& (lower_of(rec.status@) == "draft"@ || lower_of(rec.status@) == "published"@)
}

/// `a` is the article that the row `rec` describes.
pub open spec fn loaded_from(a: Article, rec: ArticleRecord) -> bool {
    &&& uuid_of(a.id) == rec.id
    &&& a.title@ == trimmed(rec.title@)
    &&& a.slug@ == slug_of(rec.slug@)
    &&& a.summary@ == trimmed(rec.summary@)
    &&& a.content@ == rec.content@
    &&& status_name(a.status) == lower_of(rec.status@)
    &&& a.created_at == rec.created_at
    &&& a.updated_at == rec.updated_at
    &&& a.published_at == rec.published_at
}

/// `rec` is the row that stores `a`.
pub open spec fn stored_as(a: Article, rec: ArticleRecord) -> bool {
    &&& rec.id == uuid_of(a.id)
    &&& rec.slug@ == a.slug@
    &&& rec.title@ == a.title@
    &&& rec.summary@ == a.summary@
    &&& rec.content@ == a.content@
    &&& rec.status@ == status_name(a.status)
    &&& rec.created_at == a.created_at
    &&& rec.updated_at == a.updated_at
    &&& rec.published_at == a.published_at
}

impl Article {
    /// Rebuilds an article from a stored row, checking each field with its
    /// value object; fails on the first field that breaks its rules.
    pub fn from_record(rec: &ArticleRecord) -> (r: Result<Article, RhyonError>)
        ensures
            r is Ok <==> record_ok(*rec),
            r matches Ok(a) ==> loaded_from(a, *rec),
            r is Err ==> is_validation(r),
    {
        let id = match rec.id {
            Some(u) => Some(Id::from(u)),
            None => None,
        };
        let title = Title::new(rec.title.clone())?;
        let slug = Slug::new(rec.slug.clone())?;
        let summary = Summary::new(rec.summary.clone())?;
        let content = Content::new(rec.content.clone());
        let status = Status::from_str(rec.status.as_str())?;
        Ok(
            Article::reconstitute(
                id,
                slug,
                title,
                summary,
                content,
                status,
                rec.created_at,
                rec.updated_at,
                rec.published_at,
            ),
        )
    }

    /// The row that stores this article.
    pub fn to_record(&self) -> (r: ArticleRecord)
        ensures
            stored_as(*self, r),
    {
        let id = match self.id {
            Some(i) => Some(*i.value()),
            None => None,
        };
        ArticleRecord {
            id,
            slug: self.slug.value().to_string(),
            title: self.title.value().to_string(),
            summary: self.summary.value().to_string(),
            content: self.content.value().to_string(),
            status: self.status.as_str().to_string(),
            created_at: self.created_at,
            updated_at: self.updated_at,
            published_at: self.published_at,
        }
    }
}

/// Rebuilds the articles of a page of stored rows, in order. A row that
/// breaks the rules fails the whole page with a `ServerError` naming its
/// slug.
pub fn articles_from_records(records: &Vec<ArticleRecord>) -> (r: Result<Vec<Article>, RhyonError>)
    ensures
        r is Ok <==> forall|i: int| 0 <= i < records@.len() ==> record_ok(#[trigger] records@[i]),
        r matches Ok(v) ==> v@.len() == records@.len() && forall|i: int|
            0 <= i < v@.len() ==> loaded_from(#[trigger] v@[i], records@[i]),
        r is Err ==> r matches Err(RhyonError::ServerError(_)),
{
    let mut out: Vec<Article> = Vec::new();
    let mut i: usize = 0;
    while i < records.len()
        invariant
            i <= records@.len(),
            out@.len() == i,
            forall|j: int| 0 <= j < i ==> record_ok(#[trigger] records@[j]),
            forall|j: int| 0 <= j < i ==> loaded_from(#[trigger] out@[j], records@[j]),
        decreases records@.len() - i,
    {
        match Article::from_record(&records[i]) {
            Ok(a) => {
                out.push(a);
            },
            Err(e) => {
                let mut msg = "failed to load article ".to_string();
                msg.append(records[i].slug.as_str());
                msg.append(": ");
                msg.append(e.message().as_str());
                return Err(RhyonError::ServerError(msg));
            },
        }
        i = i + 1;
    }
    Ok(out)
}

/// The page answering `request`, built from the stored rows of that page
/// and the total count of matching rows.
pub fn page_from_records(records: &Vec<ArticleRecord>, request: PageRequest, total: u64) -> (r:
    Result<PageResponse<Article>, RhyonError>)
    ensures
        r is Ok <==> forall|i: int| 0 <= i < records@.len() ==> record_ok(#[trigger] records@[i]),
        r matches Ok(p) ==> {
            &&& p.items@.len() == records@.len()
            &&& forall|i: int| 0 <= i < p.items@.len() ==> loaded_from(#[trigger] p.items@[i], records@[i])
            &&& p.page == request@.0
            &&& p.size == request@.1
            &&& p.total == total
            &&& p.pages == page_count(total, request@.1)
        },
        r is Err ==> r matches Err(RhyonError::ServerError(_)),
{
    let items = articles_from_records(records)?;
    Ok(PageResponse::new(items, request.page(), request.size(), total))
}

} // verus!
