//! Path normalization and the normalized-path pair.
//!
//! Canonicalization resolves a path against the file system, so nothing can
//! be promised of its result; the surrounding logic only arranges the values.

use std::path::PathBuf;
use vstd::prelude::*;

verus! {

#[verifier::external_type_specification]
#[verifier::external_body]
pub struct ExPathBuf(PathBuf);

/// Relies on `dunce::canonicalize`: resolves the path against the file
/// system, returning the canonical form without Windows UNC prefixes; the
/// result depends on what is on disk, so no outcome is promised.
#[verifier::external_body]
fn try_canonicalize(path: &PathBuf) -> Option<PathBuf> {
    dunce::canonicalize(path).ok()
}

/// Canonicalizes `path`, falling back to the input when resolution fails.
pub fn canonicalize(path: PathBuf) -> PathBuf {
    match try_canonicalize(&path) {
        Some(canonical) => canonical,
        None => path,
    }
}

/// Normalizes `path`: canonical where the file system can resolve it, the
/// input itself otherwise.
pub fn normalize(path: PathBuf) -> PathBuf {
    canonicalize(path)
}

/// Relies on `<PathBuf as From<String>>::from`: builds the path holding the
/// given text.
#[verifier::external_body]
fn path_from_string(s: String) -> PathBuf {
    PathBuf::from(s)
}

/// A path kept alongside its normalized form, computed once.
pub struct NormalizedPathBuf {
    pub normalized: PathBuf,
    path: PathBuf,
}

impl NormalizedPathBuf {
    /// The original, un-normalized path.
    pub fn path(&self) -> &PathBuf {
        &self.path
    }

    /// Pairs `path` with its normalized form.
    pub fn from_path(path: PathBuf) -> NormalizedPathBuf {
        NormalizedPathBuf { path: path.clone(), normalized: normalize(path) }
    }

    /// Pairs the path written in `s` with its normalized form.
    pub fn from_string(s: String) -> NormalizedPathBuf {
        NormalizedPathBuf::from_path(path_from_string(s))
    }
}

} // verus!
