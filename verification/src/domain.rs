//! The paste entity and its size invariants.
//!
//! A [`Paste`] is validated content plus an optional slug. The validated
//! constructor is the only way to build one, so every `Paste` in the system
//! satisfies the size limits; a paste is immutable after construction.

use vstd::prelude::*;

verus! {

/// Largest content a paste may carry, in bytes of its UTF-8 encoding (1 MiB).
pub const MAX_CONTENT_BYTES: usize = 1048576;

/// Largest slug a paste may carry, in bytes of its UTF-8 encoding.
pub const MAX_SLUG_BYTES: usize = 256;

/// The length, in bytes, of the UTF-8 encoding of a string value.
pub open spec fn byte_len(s: Seq<char>) -> nat {
    vstd::utf8::encode_utf8(s).len()
}

/// Whether an optional slug is within the slug size limit. A paste without a
/// slug trivially fits.
pub open spec fn slug_fits(slug: Option<Seq<char>>) -> bool {
    match slug {
        Some(s) => byte_len(s) <= MAX_SLUG_BYTES,
        None => true,
    }
}

/// Why constructing a [`Paste`] was refused.
#[derive(Debug, Clone, Copy, PartialEq, Eq)]
pub enum PasteError {
    /// The content exceeds [`MAX_CONTENT_BYTES`].
    ContentTooLarge,
    /// The supplied slug exceeds [`MAX_SLUG_BYTES`].
    SlugTooLarge,
}

/// A validated unit of stored content plus its optional slug.
///
/// The slug is `None` for a paste that has not been assigned one yet; a
/// backend that assigns slugs returns a copy with the slug populated.
#[derive(Debug, Clone)]
pub struct Paste {
    slug: Option<String>,
    content: String,
}

impl Paste {
    /// The slug, as a mathematical value.
    pub closed spec fn spec_slug(&self) -> Option<Seq<char>> {
        self.slug.deep_view()
    }

    /// The content, as a mathematical value.
    pub closed spec fn spec_content(&self) -> Seq<char> {
        self.content@
    }

    /// Both size invariants. Every constructed paste satisfies this.
    pub open spec fn wf(&self) -> bool {
        &&& byte_len(self.spec_content()) <= MAX_CONTENT_BYTES
        &&& slug_fits(self.spec_slug())
    }

    /// Validated constructor: the only way to build a paste.
    ///
    /// Fails with `SlugTooLarge` exactly when a supplied slug exceeds the
    /// slug limit, and otherwise with `ContentTooLarge` exactly when the
    /// content exceeds the content limit; otherwise returns a paste holding
    /// exactly the given slug and content.
    pub fn new(content: String, slug: Option<String>) -> (r: Result<Paste, PasteError>)
        ensures
            match r {
                Ok(p) => {
                    &&& slug_fits(slug.deep_view())
                    &&& byte_len(content@) <= MAX_CONTENT_BYTES
                    &&& p.spec_slug() == slug.deep_view()
                    &&& p.spec_content() == content@
                    &&& p.wf()
                },
                Err(PasteError::SlugTooLarge) => !slug_fits(slug.deep_view()),
                Err(PasteError::ContentTooLarge) => {
                    &&& slug_fits(slug.deep_view())
                    &&& byte_len(content@) > MAX_CONTENT_BYTES
                },
            },
    {
        match &slug {
            Some(s) => {
                if str_byte_len(s.as_str()) > MAX_SLUG_BYTES {
                    return Err(PasteError::SlugTooLarge);
                }
            },
            None => {},
        }
        if str_byte_len(content.as_str()) > MAX_CONTENT_BYTES {
            return Err(PasteError::ContentTooLarge);
        }
        Ok(Paste { slug, content })
    }

    /// The slug, if one has been assigned.
    pub fn get_slug(&self) -> (r: Option<&str>)
        ensures
            match r {
                Some(s) => self.spec_slug() == Some(s@),
                None => self.spec_slug() is None,
            },
    {
        match &self.slug {
            Some(s) => Some(s.as_str()),
            None => None,
        }
    }

    /// The content.
    pub fn get_content(&self) -> (r: &str)
        ensures
            r@ == self.spec_content(),
    {
        self.content.as_str()
    }

    /// Consumes the paste and hands back its content.
    pub fn into_content(self) -> (r: String)
        ensures
            r@ == self.spec_content(),
    {
        self.content
    }
}

/// The length in bytes of a string slice, tied to the UTF-8 encoding of its
/// characters.
fn str_byte_len(s: &str) -> (n: usize)
    ensures
        n == byte_len(s@),
{
    s.as_bytes().len()
}

} // verus!
