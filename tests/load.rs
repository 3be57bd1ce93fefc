use std::io::Write;
use std::path::Path;

use tempfile::{Builder, NamedTempFile, TempDir};
use triton_cache::cache::{CacheError, CacheRoot};
use triton_cache::discovery::find_ext;
use triton_cache::kernel::TritonKernel;

fn cache_dir() -> TempDir {
    Builder::new().prefix("cache").tempdir().unwrap()
}

fn root_of(dir: &TempDir) -> CacheRoot {
    CacheRoot::resolve(Some(dir.path().display().to_string()), None).ok().unwrap()
}

fn sub_dir(parent: &Path, name: &str) -> TempDir {
    Builder::new().prefix(name).rand_bytes(0).tempdir_in(parent).unwrap()
}

fn artifact(dir: &Path, file_stem: &str, ext: &str, contents: &str) -> NamedTempFile {
    let mut f = Builder::new()
        .prefix(file_stem)
        .suffix(&format!(".{}", ext))
        .rand_bytes(0)
        .tempfile_in(dir)
        .unwrap();
    f.write_all(contents.as_bytes()).unwrap();
    f
}

#[test]
fn test_load() {
    let cache = cache_dir();
    let hash = sub_dir(cache.path(), "abc123");
    let _cubin = artifact(hash.path(), "add_kernel", "cubin", "");
    let _ptx = artifact(hash.path(), "add_kernel", "ptx", "");
    let root = root_of(&cache);

    let kernel = TritonKernel::new("add_kernel");
    let paths = kernel.cubin(&root);
    assert!(paths.len() == 1);
    let paths = kernel.ptx(&root);
    assert!(paths.len() == 1);
}

#[test]
fn scenario_one_of_each_artifact() {
    let cache = cache_dir();
    let hash = sub_dir(cache.path(), "abc123");
    let cubin = artifact(hash.path(), "add_kernel", "cubin", "");
    let _ptx = artifact(hash.path(), "add_kernel", "ptx", "");
    let json = artifact(
        hash.path(),
        "add_kernel",
        "json",
        "{\"num_warps\": 4, \"shared\": 0, \"name\": \"add_kernel_0d1d2d3de\"}",
    );
    let root = root_of(&cache);
    let kernel = TritonKernel::new("add_kernel");

    let binaries = kernel.cubin(&root);
    assert_eq!(binaries, vec![cubin.path().to_path_buf()]);
    assert_eq!(kernel.ptx(&root).len(), 1);
    let found = kernel.metadata_path(&root).ok().unwrap();
    assert_eq!(found, json.path().to_path_buf());
}

#[test]
fn found_path_names_the_artifact() {
    let cache = cache_dir();
    let hash = sub_dir(cache.path(), "abc123");
    let _cubin = artifact(hash.path(), "add_kernel", "cubin", "");
    let root = root_of(&cache);
    let found = find_ext(&root, "add_kernel", "cubin");
    assert_eq!(found.paths.len(), 1);
    assert!(found.paths[0].ends_with("abc123/add_kernel.cubin"));
    assert!(found.skipped.is_empty());
}

#[test]
fn other_extensions_and_names_are_not_found() {
    let cache = cache_dir();
    let hash = sub_dir(cache.path(), "abc123");
    let _a = artifact(hash.path(), "add_kernel", "cubin", "");
    let _b = artifact(hash.path(), "mul_kernel", "ptx", "");
    let root = root_of(&cache);
    let kernel = TritonKernel::new("add_kernel");
    assert_eq!(kernel.ptx(&root).len(), 0);
    assert_eq!(TritonKernel::new("mul_kernel").cubin(&root).len(), 0);
}

#[test]
fn discovery_at_any_depth() {
    let cache = cache_dir();
    let one = sub_dir(cache.path(), "d1");
    let _f1 = artifact(one.path(), "k_one", "cubin", "");
    let two = sub_dir(one.path(), "d2");
    let _f2 = artifact(two.path(), "k_two", "cubin", "");
    let three = sub_dir(two.path(), "d3");
    let _f3 = artifact(three.path(), "k_three", "cubin", "");
    let root = root_of(&cache);
    assert_eq!(TritonKernel::new("k_one").cubin(&root).len(), 1);
    assert_eq!(TritonKernel::new("k_two").cubin(&root).len(), 1);
    assert_eq!(TritonKernel::new("k_three").cubin(&root).len(), 1);
}

#[test]
fn missing_metadata_is_reported_with_zero() {
    let cache = cache_dir();
    let hash = sub_dir(cache.path(), "abc123");
    let _cubin = artifact(hash.path(), "add_kernel", "cubin", "");
    let root = root_of(&cache);
    let r = TritonKernel::new("add_kernel").metadata_path(&root);
    assert!(matches!(r, Err(CacheError::AmbiguousOrMissingArtifact(0))));
}

#[test]
fn duplicate_metadata_is_reported_with_count() {
    let cache = cache_dir();
    let first = sub_dir(cache.path(), "abc123");
    let second = sub_dir(cache.path(), "def456");
    let _a = artifact(first.path(), "add_kernel", "json", "{}");
    let _b = artifact(second.path(), "add_kernel", "json", "{}");
    let root = root_of(&cache);
    let r = TritonKernel::new("add_kernel").metadata_path(&root);
    assert!(matches!(r, Err(CacheError::AmbiguousOrMissingArtifact(2))));
}

#[test]
fn requery_sees_a_new_artifact() {
    let cache = cache_dir();
    let hash = sub_dir(cache.path(), "abc123");
    let root = root_of(&cache);
    let kernel = TritonKernel::new("add_kernel");
    assert_eq!(kernel.cubin(&root).len(), 0);
    assert!(kernel.metadata_path(&root).is_err());
    let _cubin = artifact(hash.path(), "add_kernel", "cubin", "");
    let _json = artifact(hash.path(), "add_kernel", "json", "{}");
    assert_eq!(kernel.cubin(&root).len(), 1);
    assert!(kernel.metadata_path(&root).is_ok());
}

#[test]
fn override_root_is_the_only_one_searched() {
    let home = cache_dir();
    let home_cache = sub_dir(home.path(), ".triton");
    let home_cache = sub_dir(home_cache.path(), "cache");
    let _in_home = artifact(home_cache.path(), "add_kernel", "cubin", "");
    let isolated = cache_dir();
    let _in_override = artifact(isolated.path(), "other_kernel", "cubin", "");

    let root = CacheRoot::resolve(
        Some(isolated.path().display().to_string()),
        Some(home.path().display().to_string()),
    )
    .ok()
    .unwrap();
    assert_eq!(TritonKernel::new("add_kernel").cubin(&root).len(), 0);
    assert_eq!(TritonKernel::new("other_kernel").cubin(&root).len(), 1);

    let default_root = CacheRoot::resolve(None, Some(home.path().display().to_string()))
        .ok()
        .unwrap();
    assert_eq!(TritonKernel::new("add_kernel").cubin(&default_root).len(), 1);
    assert_eq!(TritonKernel::new("other_kernel").cubin(&default_root).len(), 0);
}

#[test]
fn rejected_pattern_is_reported() {
    let cache = cache_dir();
    let hash = sub_dir(cache.path(), "abc123");
    let _json = artifact(hash.path(), "add_kernel", "json", "{}");
    let root = root_of(&cache);
    let kernel = TritonKernel::new("add[kernel");
    assert!(matches!(kernel.metadata_path(&root), Err(CacheError::InvalidPattern(_))));
    assert!(kernel.cubin(&root).is_empty());
    let found = find_ext(&root, "add[kernel", "json");
    assert!(found.pattern_error.is_some());
    assert!(found.paths.is_empty());
}

#[test]
fn accessors_do_not_require_a_single_match() {
    let cache = cache_dir();
    let first = sub_dir(cache.path(), "a");
    let second = sub_dir(cache.path(), "b");
    let _x = artifact(first.path(), "add_kernel", "cubin", "");
    let _y = artifact(second.path(), "add_kernel", "cubin", "");
    let _z = artifact(first.path(), "add_kernel_2", "cubin", "");
    let _w = artifact(first.path(), "my_add_kernel", "cubin", "");
    let root = root_of(&cache);
    let kernel = TritonKernel::new("add_kernel");
    assert_eq!(kernel.cubin(&root).len(), 2);
    assert!(kernel.ptx(&root).is_empty());
    assert!(find_ext(&root, "add_kernel", "cubin").pattern_error.is_none());
}
