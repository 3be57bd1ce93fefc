//! A compiled kernel, known by the name under which the compiler cached it.
use std::path::PathBuf;
use vstd::prelude::*;
use vstd::string::*;
use crate::cache::{CacheRoot, CacheError};
use crate::discovery::{find_ext, glob_accepts, pattern_for};

verus! {

/// A kernel whose artifacts are looked up by name in the cache.
#[derive(Debug)]
pub struct TritonKernel {
    pub name: String,
}

impl TritonKernel {
    pub fn new(name: &str) -> (r: TritonKernel)
        ensures
            r.name@ == name@,
    {
        TritonKernel { name: String::from_str(name) }
    }

    /// The binary objects (`<name>.cubin`) found under the root now, as many
    /// as there are; none when glob rejects the pattern.
    pub fn cubin(&self, root: &CacheRoot) -> (r: Vec<PathBuf>)
        ensures
            !glob_accepts(pattern_for(root.dir@, self.name@, "cubin"@)) ==> r@.len() == 0,
    {
        find_ext(root, self.name.as_str(), "cubin").paths
    }

    /// The intermediate representations (`<name>.ptx`) found under the root
    /// now, as many as there are; none when glob rejects the pattern.
    pub fn ptx(&self, root: &CacheRoot) -> (r: Vec<PathBuf>)
        ensures
            !glob_accepts(pattern_for(root.dir@, self.name@, "ptx"@)) ==> r@.len() == 0,
    {
        find_ext(root, self.name.as_str(), "ptx").paths
    }

    /// The one metadata document (`<name>.json`) under the root; when none or
    /// several are found, the error gives how many. A pattern that glob
    /// rejects is an error of its own.
    pub fn metadata_path(&self, root: &CacheRoot) -> (r: Result<PathBuf, CacheError>)
        ensures
            r matches Err(CacheError::InvalidPattern(_)) <==> !glob_accepts(pattern_for(root.dir@, self.name@, "json"@)),
            r matches Err(e) ==> (e matches CacheError::AmbiguousOrMissingArtifact(n) && n != 1)
                || e is InvalidPattern,
    {
        find_ext(root, self.name.as_str(), "json").single()
    }
}

} // verus!
