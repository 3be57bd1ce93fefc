//! The cache root and the errors met while resolving a kernel's artifacts.
use vstd::prelude::*;
use vstd::string::*;

verus! {

/// The directory under which the compiler stores its per-kernel artifacts.
#[derive(Debug)]
pub struct CacheRoot {
    pub dir: String,
}

/// Why a kernel's artifacts could not be resolved.
#[derive(Debug)]
pub enum CacheError {
    /// No override was given and no home directory is known.
    ConfigurationError,
    /// Discovery for the metadata document found this many files instead of one.
    AmbiguousOrMissingArtifact(usize),
    /// The glob pattern built from the kernel name could not be parsed; the
    /// parser's diagnostic.
    InvalidPattern(String),
    /// The metadata document does not fit the schema.
    MalformedMetadata(crate::metadata::MetadataError),
}

/// The default cache directory under a home directory.
pub open spec fn default_cache_dir(home: Seq<char>) -> Seq<char> {
    home + "/.triton/cache"@
}

/// The characters of an optional string.
pub open spec fn text_of(s: Option<String>) -> Option<Seq<char>> {
    match s {
        Some(t) => Some(t@),
        None => None,
    }
}

/// What the cache root is, given the override and the home directory.
pub open spec fn resolved_dir(env_override: Option<Seq<char>>, home: Option<Seq<char>>) -> Option<Seq<char>> {
    match env_override {
        Some(o) => Some(o),
        None => match home {
            Some(h) => Some(default_cache_dir(h)),
            None => None,
        },
    }
}

impl CacheRoot {
    /// The cache root: the override verbatim when there is one, else
    /// `<home>/.triton/cache`; a configuration error when neither is known.
    pub fn resolve(env_override: Option<String>, home: Option<String>) -> (r: Result<CacheRoot, CacheError>)
        ensures
            r matches Ok(root) ==> resolved_dir(text_of(env_override), text_of(home)) == Some(root.dir@),
            r is Err <==> resolved_dir(text_of(env_override), text_of(home)) is None,
            r matches Err(e) ==> e is ConfigurationError,
    {
        match env_override {
            Some(o) => Ok(CacheRoot { dir: o }),
            None => match home {
                Some(h) => Ok(CacheRoot { dir: h.concat("/.triton/cache") }),
                None => Err(CacheError::ConfigurationError),
            },
        }
    }
}

/// The override, when present, decides the cache root whatever the home
/// directory is.
pub proof fn lemma_override_takes_precedence(env_override: Seq<char>, home: Option<Seq<char>>)
    ensures
        resolved_dir(Some(env_override), home) == Some(env_override),
{
}

} // verus!
