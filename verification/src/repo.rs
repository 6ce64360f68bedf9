//! The storage backend contract.
//!
//! A backend owns a mapping from slug to paste content; the mapping is the
//! sole source of truth. Any implementation — in particular a durable one
//! supplied by a user of this crate — must satisfy the [`PasteRepository`]
//! contract. Absence is a valid result at this layer, never an error; the
//! single error kind reports the storage medium as unreachable or corrupted.

use vstd::prelude::*;
use crate::domain::{byte_len, Paste, MAX_SLUG_BYTES};

verus! {

/// The only error a backend reports: the storage medium failed. There is no
/// partial-failure taxonomy at this layer.
#[derive(Debug, Clone, Copy, PartialEq, Eq)]
pub enum RepositoryError {
    UnknownError,
}

/// The contract a storage backend must honor.
///
/// `repo_map` is the backend's mapping from slug to content, the abstract
/// state every operation is specified against; `inv` is whatever internal
/// well-formedness the implementation maintains. Two points the contract
/// fixes explicitly: a save that assigns a slug assigns one not currently in
/// use (no silent overwrite), and a save that reports no assigned slug
/// counts as not having stored anything.
pub trait PasteRepository: Sized {
    /// The mapping from slug to stored content.
    spec fn repo_map(&self) -> Map<Seq<char>, Seq<char>>;

    /// The implementation's internal invariant.
    spec fn inv(&self) -> bool;

    /// The stored paste under `slug`, or nothing when the slug is not bound.
    fn get_paste(&self, slug: &str) -> (r: Result<Option<Paste>, RepositoryError>)
        requires
            self.inv(),
        ensures
            match r {
                Ok(Some(p)) => self.repo_map().contains_key(slug@) && p.wf()
                    && p.spec_content() == self.repo_map()[slug@],
                Ok(None) => !self.repo_map().contains_key(slug@),
                Err(_) => true,
            },
    ;

    /// Persists a paste. On success the returned paste carries the same
    /// content and, when a slug is reported, the mapping gained exactly that
    /// binding under a previously unused slug.
    fn save_paste(&mut self, paste: &Paste) -> (r: Result<Paste, RepositoryError>)
        requires
            old(self).inv(),
            paste.wf(),
        ensures
            final(self).inv(),
            match r {
                Ok(saved) => saved.wf() && saved.spec_content() == paste.spec_content()
                    && match saved.spec_slug() {
                    Some(s) => !old(self).repo_map().contains_key(s) && final(self).repo_map()
                        == old(self).repo_map().insert(s, paste.spec_content()),
                    None => final(self).repo_map() == old(self).repo_map(),
                },
                Err(_) => final(self).repo_map() == old(self).repo_map(),
            },
    ;

    /// Removes the binding under `slug` if present and returns the number of
    /// entries removed, zero or one, so a delete is idempotent.
    fn delete_paste(&mut self, slug: &str) -> (r: Result<usize, RepositoryError>)
        requires
            old(self).inv(),
        ensures
            final(self).inv(),
            match r {
                Ok(n) => n <= 1 && (n == 1 <==> old(self).repo_map().contains_key(slug@))
                    && final(self).repo_map() == old(self).repo_map().remove(slug@),
                Err(_) => final(self).repo_map() == old(self).repo_map(),
            },
    ;

    /// Produces a slug not currently in use, small enough to be carried by a
    /// paste.
    fn generate_slug(&self) -> (r: Result<String, RepositoryError>)
        requires
            self.inv(),
        ensures
            match r {
                Ok(s) => !self.repo_map().contains_key(s@) && byte_len(s@) <= MAX_SLUG_BYTES,
                Err(_) => true,
            },
    ;
}

/// Placeholder for a durable backend. No storage medium is wired up yet, so
/// every operation reports the medium unreachable; its mapping is empty.
pub struct PostgresRepository {}

impl PasteRepository for PostgresRepository {
    closed spec fn repo_map(&self) -> Map<Seq<char>, Seq<char>> {
        Map::empty()
    }

    closed spec fn inv(&self) -> bool {
        true
    }

    fn get_paste(&self, slug: &str) -> (r: Result<Option<Paste>, RepositoryError>) {
        Err(RepositoryError::UnknownError)
    }

    fn save_paste(&mut self, paste: &Paste) -> (r: Result<Paste, RepositoryError>) {
        Err(RepositoryError::UnknownError)
    }

    fn delete_paste(&mut self, slug: &str) -> (r: Result<usize, RepositoryError>) {
        Err(RepositoryError::UnknownError)
    }

    fn generate_slug(&self) -> (r: Result<String, RepositoryError>) {
        Err(RepositoryError::UnknownError)
    }
}

} // verus!
