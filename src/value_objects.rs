//! Constrained primitives of an article, each checked when it is built.

use vstd::prelude::*;
use vstd::string::StrSliceExecFns;
use uuid::Uuid;
use crate::error::{RhyonError, is_validation};
use crate::text::{
    char_is_ascii_alphanumeric, char_is_whitespace, chars_of, is_ascii_alnum, is_white_space,
    lower_of, string_of, to_lowercase, trim, trimmed, is_blank,
};

verus! {

broadcast use vstd::string::group_string_axioms;

/// Longest title, in characters.
pub const TITLE_MAX: usize = 200;

/// Longest summary, in characters.
pub const SUMMARY_MAX: usize = 500;

/// Length of the excerpt that a generated summary is cut from.
pub const EXCERPT_MAX: usize = 200;

#[verifier::external_type_specification]
#[verifier::external_body]
pub struct ExUuid(Uuid);

/// Store-assigned identity of a persisted article.
#[derive(Debug, Clone, Copy)]
pub struct Id(Uuid);

impl View for Id {
    type V = Uuid;

    closed spec fn view(&self) -> Uuid {
        self.0
    }
}

impl Id {
    pub fn from(id: Uuid) -> (r: Id)
        ensures
            r@ == id,
    {
        Id(id)
    }

    pub fn value(&self) -> (r: &Uuid)
        ensures
            *r == self@,
    {
        &self.0
    }
}

/// A title: trimmed, between 1 and 200 characters.
#[derive(Debug)]
pub struct Title {
    value: String,
}

impl View for Title {
    type V = Seq<char>;

    closed spec fn view(&self) -> Seq<char> {
        self.value@
    }
}

impl Title {
    #[verifier::type_invariant]
    spec fn inv(self) -> bool {
        0 < self.value@.len() <= TITLE_MAX
    }

    /// Trims `title`; fails unless 1 to 200 characters remain.
    pub fn new(title: String) -> (r: Result<Title, RhyonError>)
        ensures
            r is Ok <==> 0 < trimmed(title@).len() <= TITLE_MAX,
            r matches Ok(t) ==> t@ == trimmed(title@),
            r is Err ==> is_validation(r),
    {
        let t = trim(title.as_str());
        let n = t.unicode_len();
        if n == 0 {
            return Err(RhyonError::validation("article title must not be empty"));
        }
        if n > TITLE_MAX {
            return Err(RhyonError::validation("article title is too long (at most 200 characters)"));
        }
        Ok(Title { value: t.to_string() })
    }

    pub fn value(&self) -> (r: &str)
        ensures
            r@ == self@,
            0 < r@.len() <= TITLE_MAX,
    {
        proof {
            use_type_invariant(self);
        }
        self.value.as_str()
    }
}

impl Clone for Title {
    fn clone(&self) -> (r: Title)
        ensures
            r == *self,
    {
        proof {
            use_type_invariant(self);
        }
        Title { value: self.value.clone() }
    }
}


/// The key that a raw slug string stands for: trimmed, then lowercased.
pub open spec fn slug_of(s: Seq<char>) -> Seq<char> {
    lower_of(trimmed(s))
}

/// How one character of a lowercased title appears in a derived slug.
pub open spec fn slug_char(c: char) -> char {
    if is_ascii_alnum(c) {
        c
    } else if is_white_space(c) {
        '-'
    } else {
        '_'
    }
}

/// `s` with each `--`, read left to right without overlap, replaced by `-`.
pub open spec fn collapse_dashes(s: Seq<char>) -> Seq<char>
    decreases s.len(),
{
    if s.len() >= 2 && s[0] == '-' && s[1] == '-' {
        seq!['-'] + collapse_dashes(s.subrange(2, s.len() as int))
    } else if s.len() == 0 {
        s
    } else {
        seq![s[0]] + collapse_dashes(s.drop_first())
    }
}

/// The raw slug derived from a title, before the slug rules apply.
pub open spec fn slug_source(title: Seq<char>) -> Seq<char> {
    collapse_dashes(lower_of(title).map_values(|c: char| slug_char(c)))
}

/// A URL key: trimmed, lowercased and non-empty.
#[derive(Debug)]
pub struct Slug {
    value: String,
}

impl View for Slug {
    type V = Seq<char>;

    closed spec fn view(&self) -> Seq<char> {
        self.value@
    }
}

impl Slug {
    #[verifier::type_invariant]
    spec fn inv(self) -> bool {
        self.value@.len() > 0
    }

    /// Trims and lowercases `slug`; fails when nothing remains.
    pub fn new(slug: String) -> (r: Result<Slug, RhyonError>)
        ensures
            r is Ok <==> slug_of(slug@).len() > 0,
            r matches Ok(k) ==> k@ == slug_of(slug@),
            r is Err ==> is_validation(r),
    {
        let lowered = to_lowercase(trim(slug.as_str()));
        if lowered.as_str().is_empty() {
            return Err(RhyonError::validation("article slug must not be empty"));
        }
        Ok(Slug { value: lowered })
    }

    /// Derives a slug from a title: lowercase it, keep ASCII letters and
    /// digits, turn white space into `-` and anything else into `_`, replace
    /// `--` by `-`, then apply the rules of [`Slug::new`].
    pub fn from_title(title: &str) -> (r: Result<Slug, RhyonError>)
        ensures
            r is Ok <==> slug_of(slug_source(title@)).len() > 0,
            r matches Ok(k) ==> k@ == slug_of(slug_source(title@)),
            r is Err ==> is_validation(r),
    {
        let lowered = to_lowercase(title);
        let cs = chars_of(lowered.as_str());
        let ghost mapped = lowered@.map_values(|c: char| slug_char(c));
        let mut m: Vec<char> = Vec::new();
        let mut i: usize = 0;
        assert(forall|j: int| 0 <= j < mapped.len() ==> mapped[j] == slug_char(#[trigger] cs@[j]));
        while i < cs.len()
            invariant
                i <= cs.len(),
                cs@ == lowered@,
                mapped.len() == cs@.len(),
                forall|j: int| 0 <= j < mapped.len() ==> mapped[j] == slug_char(#[trigger] cs@[j]),
                m@ == mapped.subrange(0, i as int),
            decreases cs.len() - i,
        {
            let c = cs[i];
            let d = if char_is_ascii_alphanumeric(c) {
                c
            } else if char_is_whitespace(c) {
                '-'
            } else {
                '_'
            };
            m.push(d);
            i = i + 1;
            assert(m@ =~= mapped.subrange(0, i as int));
        }
        assert(m@ =~= mapped);
        let collapsed = collapse_dash_chars(&m);
        Slug::new(string_of(&collapsed))
    }

    pub fn value(&self) -> (r: &str)
        ensures
            r@ == self@,
            r@.len() > 0,
    {
        proof {
            use_type_invariant(self);
        }
        self.value.as_str()
    }
}

impl Clone for Slug {
    fn clone(&self) -> (r: Slug)
        ensures
            r == *self,
    {
        proof {
            use_type_invariant(self);
        }
        Slug { value: self.value.clone() }
    }
}

/// Replaces each `--` of `cs`, read left to right, by `-`.
fn collapse_dash_chars(cs: &Vec<char>) -> (r: Vec<char>)
    ensures
        r@ == collapse_dashes(cs@),
{
    let n = cs.len();
    let mut out: Vec<char> = Vec::new();
    let mut i: usize = 0;
    assert(cs@.subrange(0, n as int) =~= cs@);
    assert(out@ + collapse_dashes(cs@) =~= collapse_dashes(cs@));
    while i < n
        invariant
            n == cs.len(),
            i <= n,
            out@ + collapse_dashes(cs@.subrange(i as int, n as int)) == collapse_dashes(cs@),
        decreases n - i,
    {
        let ghost rest = cs@.subrange(i as int, n as int);
        if i + 1 < n && cs[i] == '-' && cs[i + 1] == '-' {
            assert(rest.subrange(2, rest.len() as int) =~= cs@.subrange(i + 2, n as int));
            let ghost before = out@;
            out.push('-');
            i = i + 2;
            assert(out@ + collapse_dashes(cs@.subrange(i as int, n as int)) =~= before
                + collapse_dashes(rest));
        } else {
            assert(rest.drop_first() =~= cs@.subrange(i + 1, n as int));
            let ghost before = out@;
            out.push(cs[i]);
            i = i + 1;
            assert(out@ + collapse_dashes(cs@.subrange(i as int, n as int)) =~= before
                + collapse_dashes(rest));
        }
    }
    assert(cs@.subrange(n as int, n as int) =~= Seq::<char>::empty());
    assert(out@ + Seq::<char>::empty() =~= out@);
    out
}

/// A sentence end or a line break: where a generated summary may stop.
pub open spec fn is_break(c: char) -> bool {
    c == '.' || c == '\n'
}

/// The position just past the last break among the first `n` characters of
/// `c`, or 0 when there is none.
pub open spec fn break_end(c: Seq<char>, n: nat) -> nat
    decreases n,
{
    if n == 0 {
        0
    } else if is_break(c[n - 1]) {
        n
    } else {
        break_end(c, (n - 1) as nat)
    }
}

/// How many characters of a long text a generated summary keeps.
pub open spec fn excerpt_len(c: Seq<char>) -> nat {
    if break_end(c, EXCERPT_MAX as nat) == 0 {
        EXCERPT_MAX as nat
    } else {
        break_end(c, EXCERPT_MAX as nat)
    }
}

/// The summary generated from a text: the text itself when it has at most
/// 200 characters, else its first characters up to the last break within the
/// first 200 (or all 200 when there is none), followed by `...`.
pub open spec fn summary_of(c: Seq<char>) -> Seq<char> {
    if c.len() <= EXCERPT_MAX {
        c
    } else {
        c.subrange(0, excerpt_len(c) as int) + seq!['.', '.', '.']
    }
}

/// The break position found among the first `n` characters lies within them.
proof fn lemma_break_end_bound(c: Seq<char>, n: nat)
    requires
        n <= c.len(),
    ensures
        break_end(c, n) <= n,
    decreases n,
{
    if n > 0 && !is_break(c[n - 1]) {
        lemma_break_end_bound(c, (n - 1) as nat);
    }
}

/// A generated summary is the text itself when the text has at most 200
/// characters; otherwise it ends with `...`, and what stands before the
/// `...` is a prefix of the text of at most 200 characters.
pub proof fn lemma_generated_summary(c: Seq<char>)
    ensures
        c.len() <= EXCERPT_MAX ==> summary_of(c) == c,
        c.len() > EXCERPT_MAX ==> {
            let s = summary_of(c);
            let k = s.len() - 3;
            &&& s.len() >= 3
            &&& s.subrange(k, s.len() as int) == seq!['.', '.', '.']
            &&& k <= EXCERPT_MAX
            &&& s.subrange(0, k) == c.subrange(0, k)
        },
{
    if c.len() > EXCERPT_MAX {
        lemma_break_end_bound(c, EXCERPT_MAX as nat);
        let s = summary_of(c);
        let k = s.len() - 3;
        assert(k == excerpt_len(c));
        assert(s.subrange(k, s.len() as int) =~= seq!['.', '.', '.']);
        assert(s.subrange(0, k) =~= c.subrange(0, k));
    }
}

/// A summary: trimmed when given, at most 500 characters.
#[derive(Debug)]
pub struct Summary {
    value: String,
}

impl View for Summary {
    type V = Seq<char>;

    closed spec fn view(&self) -> Seq<char> {
        self.value@
    }
}

impl Summary {
    #[verifier::type_invariant]
    spec fn inv(self) -> bool {
        self.value@.len() <= SUMMARY_MAX
    }

    /// Trims `summary`; fails when more than 500 characters remain.
    pub fn new(summary: String) -> (r: Result<Summary, RhyonError>)
        ensures
            r is Ok <==> trimmed(summary@).len() <= SUMMARY_MAX,
            r matches Ok(s) ==> s@ == trimmed(summary@),
            r is Err ==> is_validation(r),
    {
        let t = trim(summary.as_str());
        if t.unicode_len() > SUMMARY_MAX {
            return Err(RhyonError::validation("summary is too long (at most 500 characters)"));
        }
        Ok(Summary { value: t.to_string() })
    }

    /// The summary generated from `content` (see [`summary_of`]).
    pub fn generate_from_content(content: &Content) -> (r: Summary)
        ensures
            r@ == summary_of(content@),
    {
        let text = content.value();
        if text.unicode_len() <= EXCERPT_MAX {
            return Summary { value: text.to_string() };
        }
        let cs = chars_of(text);
        let mut k: usize = EXCERPT_MAX;
        while k > 0 && cs[k - 1] != '.' && cs[k - 1] != '\n'
            invariant
                cs@ == content@,
                cs@.len() > EXCERPT_MAX,
                k <= EXCERPT_MAX,
                break_end(cs@, EXCERPT_MAX as nat) == break_end(cs@, k as nat),
            decreases k,
        {
            k = k - 1;
        }
        let end: usize = if k == 0 {
            EXCERPT_MAX
        } else {
            k
        };
        assert(end == excerpt_len(cs@));
        let mut value = String::new();
        let mut i: usize = 0;
        while i < end
            invariant
                end <= EXCERPT_MAX < cs@.len(),
                value@ == cs@.subrange(0, i as int),
                i <= end,
            decreases end - i,
        {
            crate::text::push_char(&mut value, cs[i]);
            i = i + 1;
            assert(value@ =~= cs@.subrange(0, i as int));
        }
        crate::text::push_char(&mut value, '.');
        crate::text::push_char(&mut value, '.');
        crate::text::push_char(&mut value, '.');
        assert(value@ =~= summary_of(content@));
        Summary { value }
    }

    pub fn value(&self) -> (r: &str)
        ensures
            r@ == self@,
            r@.len() <= SUMMARY_MAX,
    {
        proof {
            use_type_invariant(self);
        }
        self.value.as_str()
    }

    pub fn is_empty(&self) -> (r: bool)
        ensures
            r == (self@.len() == 0),
    {
        self.value.as_str().is_empty()
    }
}

impl Clone for Summary {
    fn clone(&self) -> (r: Summary)
        ensures
            r == *self,
    {
        proof {
            use_type_invariant(self);
        }
        Summary { value: self.value.clone() }
    }
}

/// The body of an article, kept as given.
#[derive(Debug)]
pub struct Content {
    value: String,
}

impl View for Content {
    type V = Seq<char>;

    closed spec fn view(&self) -> Seq<char> {
        self.value@
    }
}

impl Content {
    pub fn new(content: String) -> (r: Content)
        ensures
            r@ == content@,
    {
        Content { value: content }
    }

    pub fn value(&self) -> (r: &str)
        ensures
            r@ == self@,
    {
        self.value.as_str()
    }

    /// True when the content is nothing but white space.
    pub fn is_empty(&self) -> (r: bool)
        ensures
            r == is_blank(self@),
    {
        trim(self.value.as_str()).is_empty()
    }
}

impl Clone for Content {
    fn clone(&self) -> (r: Content)
        ensures
            r == *self,
    {
        Content { value: self.value.clone() }
    }
}

/// Publication state of an article.
#[derive(Debug, Clone, Copy, PartialEq, Eq, Structural)]
pub enum Status {
    Draft,
    Published,
}

/// The stored name of a status.
pub open spec fn status_name(s: Status) -> Seq<char> {
    match s {
        Status::Draft => "draft"@,
        Status::Published => "published"@,
    }
}

impl Status {
    pub fn as_str(&self) -> (r: &'static str)
        ensures
            r@ == status_name(*self),
    {
        match self {
            Status::Draft => "draft",
            Status::Published => "published",
        }
    }

    /// Reads a status name, ignoring case.
    pub fn from_str(s: &str) -> (r: Result<Status, RhyonError>)
        ensures
            r matches Ok(st) ==> lower_of(s@) == status_name(st),
            r is Err <==> (lower_of(s@) != "draft"@ && lower_of(s@) != "published"@),
            r is Err ==> is_validation(r),
    {
        let lowered = to_lowercase(s);
        if lowered == "draft".to_string() {
            Ok(Status::Draft)
        } else if lowered == "published".to_string() {
            Ok(Status::Published)
        } else {
            Err(RhyonError::validation("invalid article status"))
        }
    }
}

} // verus!
