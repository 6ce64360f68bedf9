//! The paste service: orchestration between callers and a storage backend.
//!
//! A service translates caller intent into backend operations and a narrow,
//! closed set of results: the stored content, a first-class "not found"
//! answer, or one of three error kinds. Backend-specific failures never leak
//! to callers. Two implementations are provided: an in-memory one, which is
//! authoritative, and one delegating to any [`PasteRepository`].

use vstd::prelude::*;
use rand::Rng;
use crate::domain::{byte_len, Paste, PasteError, MAX_CONTENT_BYTES};
use crate::repo::{PasteRepository, RepositoryError};
use crate::store::MemoryStore;

verus! {

/// The closed error set a service surfaces to its callers.
#[derive(Debug, Clone, Copy, PartialEq, Eq)]
pub enum PasteServiceError {
    /// The submitted content exceeds the content size limit. User-correctable.
    ContentTooLarge,
    /// A slug was invalid, or a backend failed to assign one. Not
    /// user-correctable.
    InvalidSlug,
    /// The backend failed. Not user-correctable.
    InternalError,
}

/// The two-state outcome of a delete, so callers can tell "deleted" from
/// "nothing to delete" without treating the latter as an error.
#[derive(Debug, Clone, Copy, PartialEq, Eq)]
pub enum DeleteResult {
    Present,
    NotPresent,
}

impl PasteServiceError {
    /// A human-readable description, one fixed text per variant.
    pub fn message(&self) -> (r: String)
        ensures
            match *self {
                PasteServiceError::ContentTooLarge => r@ == "content was too long"@,
                PasteServiceError::InvalidSlug => r@ == "invalid slug provided"@,
                PasteServiceError::InternalError => r@ == "internal error occurred"@,
            },
    {
        match self {
            PasteServiceError::ContentTooLarge => "content was too long".to_owned(),
            PasteServiceError::InvalidSlug => "invalid slug provided".to_owned(),
            PasteServiceError::InternalError => "internal error occurred".to_owned(),
        }
    }
}

/// Validation errors surface unchanged where possible: an oversized content
/// keeps its meaning, while an oversized slug means a caller-supplied slug
/// was unusable.
impl From<PasteError> for PasteServiceError {
    fn from(value: PasteError) -> Self {
        match value {
            PasteError::ContentTooLarge => PasteServiceError::ContentTooLarge,
            PasteError::SlugTooLarge => PasteServiceError::InvalidSlug,
        }
    }
}

impl vstd::std_specs::convert::FromSpecImpl<PasteError> for PasteServiceError {
    open spec fn obeys_from_spec() -> bool {
        true
    }

    open spec fn from_spec(value: PasteError) -> Self {
        match value {
            PasteError::ContentTooLarge => PasteServiceError::ContentTooLarge,
            PasteError::SlugTooLarge => PasteServiceError::InvalidSlug,
        }
    }
}

/// Every backend failure collapses into the one internal error kind.
impl From<RepositoryError> for PasteServiceError {
    fn from(value: RepositoryError) -> Self {
        match value {
            RepositoryError::UnknownError => PasteServiceError::InternalError,
        }
    }
}

impl vstd::std_specs::convert::FromSpecImpl<RepositoryError> for PasteServiceError {
    open spec fn obeys_from_spec() -> bool {
        true
    }

    open spec fn from_spec(value: RepositoryError) -> Self {
        match value {
            RepositoryError::UnknownError => PasteServiceError::InternalError,
        }
    }
}

/// How many fresh random slugs a create tries before it gives the attempt
/// up as an internal error. Collisions are vanishingly rare until the
/// keyspace nears saturation, so the bound keeps every create terminating
/// without being observable in ordinary operation.
const SLUG_RETRY_BUDGET: usize = 1000;

/// An ASCII digit or letter.
pub open spec fn is_slug_char(c: char) -> bool {
    ('0' <= c && c <= '9') || ('A' <= c && c <= 'Z') || ('a' <= c && c <= 'z')
}

/// A slug as produced by the in-memory generator: exactly five characters,
/// each alphanumeric, case-sensitive.
pub open spec fn is_generated_slug(s: Seq<char>) -> bool {
    s.len() == 5 && forall|i: int| 0 <= i < s.len() ==> is_slug_char(#[trigger] s[i])
}

/// Relies on `rand::thread_rng` and `Rng::sample_iter` with the
/// `rand::distributions::Alphanumeric` distribution: each sampled byte is
/// one of the 62 characters `0-9A-Za-z`, and five samples are taken, so the
/// result is a five-character alphanumeric string. Nothing more is assumed
/// of a random result; in particular, no freshness — the caller checks for
/// collisions itself.
#[verifier::external_body]
fn random_slug() -> (s: String)
    ensures
        s@.len() == 5,
        forall|i: int| 0 <= i < s@.len() ==> is_slug_char(#[trigger] s@[i]),
{
    rand::thread_rng().sample_iter(&rand::distributions::Alphanumeric).take(5).map(
        char::from,
    ).collect::<String>()
}

/// The orchestration contract a service offers the transport layer.
///
/// `pastes` is the slug-to-content mapping the service presents, the
/// abstract state every operation is specified against; `inv` is the
/// implementation's internal invariant; `may_fail` says whether operations
/// may report failures beyond content validation — false for the in-memory
/// service, whose operations cannot fail internally.
pub trait PasteService: Sized {
    /// The mapping from slug to stored content that the service presents.
    spec fn pastes(&self) -> Map<Seq<char>, Seq<char>>;

    /// The implementation's internal invariant.
    spec fn inv(&self) -> bool;

    /// Whether the implementation can fail internally: a get or delete can
    /// report an error, and a create `InvalidSlug`, only when this holds.
    spec fn may_fail(&self) -> bool;

    /// The stored content under `slug`. Absence is a valid empty result, not
    /// an error.
    fn get_paste(&self, slug: &str) -> (r: Result<Option<String>, PasteServiceError>)
        requires
            self.inv(),
        ensures
            match r {
                Ok(Some(c)) => self.pastes().contains_key(slug@) && c@ == self.pastes()[slug@],
                Ok(None) => !self.pastes().contains_key(slug@),
                Err(e) => self.may_fail() && e == PasteServiceError::InternalError,
            },
    ;

    /// Stores `content` under a slug not previously in use and returns that
    /// slug. Oversized content is reported as `ContentTooLarge`, and as
    /// nothing else; a failed create leaves the mapping unchanged. An
    /// implementation may report `InternalError` only when it can fail
    /// internally or some slug was already in use (a collision can then, in
    /// principle, exhaust its search for a fresh one) — so on an empty
    /// mapping, a service that cannot fail internally owes success for every
    /// content within the limit.
    fn create_paste(&mut self, content: String) -> (r: Result<String, PasteServiceError>)
        requires
            old(self).inv(),
        ensures
            final(self).inv(),
            match r {
                Ok(slug) => byte_len(content@) <= MAX_CONTENT_BYTES && !old(self).pastes()
                    .contains_key(slug@) && final(self).pastes() == old(self).pastes().insert(
                    slug@,
                    content@,
                ),
                Err(e) => final(self).pastes() == old(self).pastes() && ((e
                    == PasteServiceError::ContentTooLarge) <==> byte_len(content@)
                    > MAX_CONTENT_BYTES) && (e == PasteServiceError::InvalidSlug ==> old(
                    self,
                ).may_fail()) && (e == PasteServiceError::InternalError ==> old(self).may_fail()
                    || old(self).pastes() != Map::<Seq<char>, Seq<char>>::empty()),
            },
    ;

    /// Removes the entry under `slug` if present, and says whether it was
    /// there. Deleting an absent slug is a valid outcome, not an error.
    fn delete_paste(&mut self, slug: &str) -> (r: Result<DeleteResult, PasteServiceError>)
        requires
            old(self).inv(),
        ensures
            final(self).inv(),
            match r {
                Ok(d) => final(self).pastes() == old(self).pastes().remove(slug@) && (d
                    == DeleteResult::Present <==> old(self).pastes().contains_key(slug@)),
                Err(e) => final(self).pastes() == old(self).pastes() && old(self).may_fail() && e
                    == PasteServiceError::InternalError,
            },
    ;
}

/// In-memory implementation of the paste service: the whole keyspace lives
/// in one owned table. Reads share the service; writes take it exclusively,
/// so callers that share a service across tasks put it behind a
/// reader-writer lock and each operation is atomic in isolation.
pub struct InMemoryPasteService {
    store: MemoryStore,
}

impl InMemoryPasteService {
    /// A service with no pastes stored.
    pub fn new() -> (s: Self)
        ensures
            s.inv(),
            s.pastes() == Map::<Seq<char>, Seq<char>>::empty(),
    {
        InMemoryPasteService { store: MemoryStore::new() }
    }
}

impl PasteService for InMemoryPasteService {
    closed spec fn pastes(&self) -> Map<Seq<char>, Seq<char>> {
        self.store@
    }

    closed spec fn inv(&self) -> bool {
        &&& self.store.wf()
        &&& forall|k: Seq<char>| #[trigger] self.store@.contains_key(k) ==> is_generated_slug(k)
    }

    open spec fn may_fail(&self) -> bool {
        false
    }

    fn get_paste(&self, slug: &str) -> (r: Result<Option<String>, PasteServiceError>) {
        let key = slug.to_owned();
        match self.store.get(&key) {
            Some(content) => Ok(Some(content)),
            None => Ok(None),
        }
    }

    fn create_paste(&mut self, content: String) -> (r: Result<String, PasteServiceError>) {
        let paste = match Paste::new(content, None) {
            Ok(p) => p,
            Err(e) => {
                return Err(PasteServiceError::from(e));
            },
        };
        let body = paste.into_content();
        let mut attempts: usize = 0;
        while attempts < SLUG_RETRY_BUDGET
            invariant
                self.store.wf(),
                self.store@ == old(self).store@,
                forall|k: Seq<char>| #[trigger] self.store@.contains_key(k) ==> is_generated_slug(
                    k,
                ),
                body@ == content@,
                byte_len(content@) <= MAX_CONTENT_BYTES,
                old(self).store@ == Map::<Seq<char>, Seq<char>>::empty() ==> attempts == 0,
            decreases SLUG_RETRY_BUDGET - attempts,
        {
            let slug = random_slug();
            if !self.store.contains(&slug) {
                let key = slug.clone();
                self.store.insert(key, body);
                proof {
                    assert forall|k: Seq<char>| #[trigger] self.store@.contains_key(k)
                        implies is_generated_slug(k) by {
                        if k != slug@ {
                            assert(old(self).store@.contains_key(k));
                        }
                    }
                }
                return Ok(slug);
            }
            attempts += 1;
        }
        Err(PasteServiceError::InternalError)
    }

    fn delete_paste(&mut self, slug: &str) -> (r: Result<DeleteResult, PasteServiceError>) {
        let key = slug.to_owned();
        let present = self.store.remove(&key);
        proof {
            assert forall|k: Seq<char>| #[trigger] self.store@.contains_key(k)
                implies is_generated_slug(k) by {
                assert(old(self).store@.contains_key(k));
            }
        }
        if present {
            Ok(DeleteResult::Present)
        } else {
            Ok(DeleteResult::NotPresent)
        }
    }
}

/// Paste service delegating every operation to a storage backend, with the
/// backend's errors re-mapped so no backend-internal representation reaches
/// a caller.
pub struct RepoBackedPasteService<R: PasteRepository> {
    repository: R,
}

impl<R: PasteRepository> RepoBackedPasteService<R> {
    /// A service over the given backend.
    pub fn new(repository: R) -> (s: Self)
        ensures
            s.pastes() == repository.repo_map(),
            s.inv() <==> repository.inv(),
    {
        RepoBackedPasteService { repository }
    }
}

impl<R: PasteRepository> PasteService for RepoBackedPasteService<R> {
    closed spec fn pastes(&self) -> Map<Seq<char>, Seq<char>> {
        self.repository.repo_map()
    }

    closed spec fn inv(&self) -> bool {
        self.repository.inv()
    }

    open spec fn may_fail(&self) -> bool {
        true
    }

    fn get_paste(&self, slug: &str) -> (r: Result<Option<String>, PasteServiceError>) {
        match self.repository.get_paste(slug) {
            Ok(Some(p)) => Ok(Some(p.into_content())),
            Ok(None) => Ok(None),
            Err(e) => Err(PasteServiceError::from(e)),
        }
    }

    fn create_paste(&mut self, content: String) -> (r: Result<String, PasteServiceError>) {
        let paste = match Paste::new(content, None) {
            Ok(p) => p,
            Err(e) => {
                return Err(PasteServiceError::from(e));
            },
        };
        match self.repository.save_paste(&paste) {
            Ok(saved) => match saved.get_slug() {
                Some(s) => Ok(s.to_owned()),
                None => Err(PasteServiceError::InvalidSlug),
            },
            Err(e) => Err(PasteServiceError::from(e)),
        }
    }

    fn delete_paste(&mut self, slug: &str) -> (r: Result<DeleteResult, PasteServiceError>) {
        match self.repository.delete_paste(slug) {
            Ok(n) => if n > 0 {
                Ok(DeleteResult::Present)
            } else {
                Ok(DeleteResult::NotPresent)
            },
            Err(e) => Err(PasteServiceError::from(e)),
        }
    }
}

/// Round trip: a create that stored content `c` under slug `s` leaves the
/// service's mapping with `s` bound to `c`, so a get of `s` — whose contract
/// answers exactly the mapping — yields `c`, bit for bit.
pub proof fn lemma_create_then_get(
    pre: Map<Seq<char>, Seq<char>>,
    post: Map<Seq<char>, Seq<char>>,
    slug: Seq<char>,
    content: Seq<char>,
)
    requires
        post == pre.insert(slug, content),
    ensures
        post.contains_key(slug),
        post[slug] == content,
{
}

/// Idempotent delete: once a slug is removed it is absent, so a second and a
/// third delete of the same slug find nothing and change nothing.
pub proof fn lemma_delete_idempotent(m: Map<Seq<char>, Seq<char>>, slug: Seq<char>)
    ensures
        !m.remove(slug).contains_key(slug),
        m.remove(slug).remove(slug) == m.remove(slug),
{
    assert(m.remove(slug).remove(slug) =~= m.remove(slug));
}

/// Uniqueness: two creates issue distinct slugs — the second slug was not in
/// use after the first create, which had just bound the first slug — and
/// each slug stays independently bound to its own content.
pub proof fn lemma_distinct_slugs(
    m: Map<Seq<char>, Seq<char>>,
    s1: Seq<char>,
    c1: Seq<char>,
    s2: Seq<char>,
    c2: Seq<char>,
)
    requires
        !m.contains_key(s1),
        !m.insert(s1, c1).contains_key(s2),
    ensures
        s1 != s2,
        m.insert(s1, c1).insert(s2, c2)[s1] == c1,
        m.insert(s1, c1).insert(s2, c2)[s2] == c2,
{
}

/// Every slug the in-memory service has in use is of the generated format:
/// exactly five characters, each an ASCII digit or letter.
pub proof fn lemma_in_memory_slug_format(s: &InMemoryPasteService, k: Seq<char>)
    requires
        s.inv(),
        s.pastes().contains_key(k),
    ensures
        k.len() == 5,
        forall|i: int| 0 <= i < k.len() ==> is_slug_char(#[trigger] k[i]),
{
}

} // verus!
