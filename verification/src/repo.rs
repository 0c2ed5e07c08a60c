//! The repository snapshot the project pages render: metadata plus the
//! language byte-count breakdown, combined from two upstream calls and
//! cached as one atomic value.

use vstd::prelude::*;

verus! {

/// The metadata half of a repository lookup, as plain values.
#[derive(Debug, PartialEq, Eq)]
pub struct RepoMeta {
    pub name: String,
    pub description: String,
    pub url: String,
    pub stars: u64,
    pub forks: u64,
}

impl Clone for RepoMeta {
    fn clone(&self) -> (r: Self)
        ensures
            r == *self,
    {
        RepoMeta {
            name: self.name.clone(),
            description: self.description.clone(),
            url: self.url.clone(),
            stars: self.stars,
            forks: self.forks,
        }
    }
}

/// One row of the language breakdown: a language name and how many bytes of
/// it the repository holds.
#[derive(Debug, PartialEq, Eq)]
pub struct LanguageBytes {
    pub language: String,
    pub bytes: u64,
}

impl Clone for LanguageBytes {
    fn clone(&self) -> (r: Self)
        ensures
            r == *self,
    {
        LanguageBytes { language: self.language.clone(), bytes: self.bytes }
    }
}

/// The combined result of one repository resolution. Both upstream calls
/// must have succeeded for a value of this type to exist; a partial result
/// is never built and never cached.
#[derive(Debug, PartialEq, Eq)]
pub struct RepoInfo {
    pub meta: RepoMeta,
    pub languages: Vec<LanguageBytes>,
}

impl RepoInfo {
    /// Everything a caller can observe of the value: the metadata and the
    /// language rows in order.
    pub open spec fn model(self) -> (RepoMeta, Seq<LanguageBytes>) {
        (self.meta, self.languages@)
    }
}

impl Clone for RepoInfo {
    fn clone(&self) -> (r: Self)
        ensures
            r.model() == self.model(),
    {
        let r = RepoInfo { meta: self.meta.clone(), languages: self.languages.clone() };
        proof {
            assert(r.languages@ =~= self.languages@);
        }
        r
    }
}

/// Whether two resolution results are indistinguishable to a caller: equal
/// errors, or successes with equal models.
pub open spec fn repo_result_models<E>(r: Result<RepoInfo, E>, s: Result<RepoInfo, E>) -> bool {
    match (r, s) {
        (Ok(a), Ok(b)) => a.model() == b.model(),
        (Err(a), Err(b)) => a == b,
        _ => false,
    }
}

} // verus!
