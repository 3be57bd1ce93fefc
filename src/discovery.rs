//! Finding a kernel's artifacts under the cache root.
use std::path::PathBuf;
use vstd::prelude::*;
use vstd::string::*;
use crate::cache::{CacheRoot, CacheError};
use crate::json::texts;

verus! {

#[verifier::external_type_specification]
#[verifier::external_body]
pub struct ExPathBuf(PathBuf);

/// Whether glob parses `pattern`; this depends on the pattern's text alone.
pub uninterp spec fn glob_accepts(pattern: Seq<char>) -> bool;

/// Relies on glob::glob: it fails exactly when it cannot parse `pattern`;
/// otherwise it expands the pattern against the filesystem as it is at the
/// call, yielding each match or the error met on one entry. What it finds
/// depends on the disk, so nothing more is stated of it.
#[verifier::external_body]
fn glob_entries(pattern: &str) -> (r: Result<Vec<Result<PathBuf, String>>, String>)
    ensures
        r is Err <==> !glob_accepts(pattern@),
{
    match glob::glob(pattern) {
        Ok(paths) => Ok(paths.map(|entry| entry.map_err(|e| e.to_string())).collect()),
        Err(e) => Err(e.to_string()),
    }
}

/// The paths among the entries of a scan, in order.
pub open spec fn matched(entries: Seq<Result<PathBuf, String>>) -> Seq<PathBuf>
    decreases entries.len(),
{
    if entries.len() == 0 {
        Seq::empty()
    } else {
        match entries.last() {
            Ok(p) => matched(entries.drop_last()).push(p),
            Err(_) => matched(entries.drop_last()),
        }
    }
}

/// The diagnostics among the entries of a scan, in order.
pub open spec fn failed(entries: Seq<Result<PathBuf, String>>) -> Seq<Seq<char>>
    decreases entries.len(),
{
    if entries.len() == 0 {
        Seq::empty()
    } else {
        match entries.last() {
            Ok(_) => failed(entries.drop_last()),
            Err(e) => failed(entries.drop_last()).push(e@),
        }
    }
}

/// The glob pattern that finds `<kernel_name>.<ext>` at any depth under the root.
pub open spec fn pattern_for(root: Seq<char>, kernel_name: Seq<char>, ext: Seq<char>) -> Seq<char> {
    root + "/**/"@ + kernel_name + "."@ + ext
}

/// What one scan of the cache found: the matching paths, and a diagnostic for
/// each entry that could not be read; or, when the pattern could not be
/// parsed, the parser's diagnostic and nothing else.
#[derive(Debug)]
pub struct Discovery {
    pub paths: Vec<PathBuf>,
    pub skipped: Vec<String>,
    pub pattern_error: Option<String>,
}

impl Discovery {
    /// The outcome of a scan: its paths and its diagnostics, each in the order
    /// met. A pattern that could not be used leaves no path, no diagnostic of
    /// an entry, and the pattern's error.
    pub fn from_scan(scan: Result<Vec<Result<PathBuf, String>>, String>) -> (r: Discovery)
        ensures
            scan matches Ok(entries) ==> r.paths@ == matched(entries@) && texts(r.skipped@) == failed(entries@)
                && r.pattern_error is None,
            scan matches Err(msg) ==> r.paths@.len() == 0 && r.skipped@.len() == 0
                && (r.pattern_error matches Some(m) && m@ == msg@),
    {
        match scan {
            Ok(entries) => {
                let ghost all = entries@;
                let mut rest = entries;
                let mut paths: Vec<PathBuf> = Vec::new();
                let mut skipped: Vec<String> = Vec::new();
                let mut i: usize = 0;
                let n = rest.len();
                assert(all.subrange(0, 0) =~= Seq::<Result<PathBuf, String>>::empty());
                assert(texts(skipped@) =~= Seq::<Seq<char>>::empty());
                while i < n
                    invariant
                        n == all.len(),
                        i <= n,
                        rest@ == all.subrange(i as int, n as int),
                        paths@ == matched(all.subrange(0, i as int)),
                        texts(skipped@) == failed(all.subrange(0, i as int)),
                    decreases n - i,
                {
                    let entry = rest.remove(0);
                    proof {
                        assert(entry == all[i as int]);
                        assert(all.subrange(0, i + 1).drop_last() =~= all.subrange(0, i as int));
                    }
                    match entry {
                        Ok(p) => paths.push(p),
                        Err(e) => {
                            let ghost before = skipped@;
                            skipped.push(e);
                            assert(texts(skipped@) =~= texts(before).push(skipped@.last()@));
                        },
                    }
                    i = i + 1;
                    assert(rest@ =~= all.subrange(i as int, n as int));
                }
                assert(all.subrange(0, n as int) =~= all);
                Discovery { paths, skipped, pattern_error: None }
            },
            Err(msg) => Discovery { paths: Vec::new(), skipped: Vec::new(), pattern_error: Some(msg) },
        }
    }

    /// The one path that a resolution must find: the pattern's error when the
    /// pattern could not be parsed, else the count error unless there is
    /// exactly one path.
    pub fn single(self) -> (r: Result<PathBuf, CacheError>)
        ensures
            self.pattern_error matches Some(m) ==> (r matches Err(CacheError::InvalidPattern(e)) && e@ == m@),
            self.pattern_error is None && self.paths@.len() == 1 ==> (r matches Ok(p) && p == self.paths@[0]),
            self.pattern_error is None && self.paths@.len() != 1 ==> (r matches Err(
                CacheError::AmbiguousOrMissingArtifact(n),
            ) && n == self.paths@.len()),
    {
        match self.pattern_error {
            Some(m) => Err(CacheError::InvalidPattern(m)),
            None => select_single(self.paths),
        }
    }
}

/// The glob pattern for the files named `<kernel_name>.<ext>` at any depth
/// under the cache root.
pub fn artifact_pattern(root: &CacheRoot, kernel_name: &str, ext: &str) -> (r: String)
    ensures
        r@ == pattern_for(root.dir@, kernel_name@, ext@),
{
    root.dir.clone().concat("/**/").concat(kernel_name).concat(".").concat(ext)
}

/// Scans the cache, as it is now, for the files named `<kernel_name>.<ext>`
/// at any depth. Nothing is kept between calls: each call scans again. The
/// scan fails as a whole only when glob rejects the pattern.
pub fn find_ext(root: &CacheRoot, kernel_name: &str, ext: &str) -> (r: Discovery)
    ensures
        r.pattern_error is Some <==> !glob_accepts(pattern_for(root.dir@, kernel_name@, ext@)),
        r.pattern_error is Some ==> r.paths@.len() == 0 && r.skipped@.len() == 0,
{
    let pattern = artifact_pattern(root, kernel_name, ext);
    Discovery::from_scan(glob_entries(pattern.as_str()))
}

/// The one path of a resolution that must be unique; when there are none or
/// several, an error that gives how many there are.
pub fn select_single(paths: Vec<PathBuf>) -> (r: Result<PathBuf, CacheError>)
    ensures
        paths@.len() == 1 ==> (r matches Ok(p) && p == paths@[0]),
        paths@.len() != 1 ==> (r matches Err(CacheError::AmbiguousOrMissingArtifact(n)) && n == paths@.len()),
{
    let n = paths.len();
    if n == 1 {
        let mut paths = paths;
        Ok(paths.remove(0))
    } else {
        Err(CacheError::AmbiguousOrMissingArtifact(n))
    }
}

} // verus!
