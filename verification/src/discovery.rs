//! Plugin discovery: which files of a plugin directory are modules to load,
//! and under which symbol a module offers its factory.

use vstd::prelude::*;
use crate::codec::{extension_of, path_extension};
use crate::text::{str_eq, texts};

verus! {

/// The symbol under which a provider module offers its factory to the
/// indexer's registry.
pub fn provider_factory_symbol() -> (r: &'static str)
    ensures
        r@ == "_plugin_create"@,
{
    "_plugin_create"
}

/// The symbol under which a provider module offers its factory to the
/// ingestion side's registry.
pub fn ingestion_factory_symbol() -> (r: &'static str)
    ensures
        r@ == "_create_provider"@,
{
    "_create_provider"
}

/// The symbol under which a storage module offers its factory.
pub fn storage_factory_symbol() -> (r: &'static str)
    ensures
        r@ == "create_storage_plugin"@,
{
    "create_storage_plugin"
}

/// Whether a path names a module to load: it has an extension, and the
/// extension is `so` or `dll`.
pub open spec fn is_plugin_path(path: Seq<char>) -> bool {
    match path_extension(path) {
        Some(extension) => extension == "so"@ || extension == "dll"@,
        None => false,
    }
}

/// The paths of `paths` that name modules to load, in the same order.
pub open spec fn plugin_paths(paths: Seq<Seq<char>>) -> Seq<Seq<char>>
    decreases paths.len(),
{
    if paths.len() == 0 {
        Seq::empty()
    } else if is_plugin_path(paths.last()) {
        plugin_paths(paths.drop_last()).push(paths.last())
    } else {
        plugin_paths(paths.drop_last())
    }
}

/// Whether a file of this extension is a module to load: the extension is
/// `so` or `dll`, in lower case.
pub fn is_plugin_extension(extension: &str) -> (r: bool)
    ensures
        r == (extension@ == "so"@ || extension@ == "dll"@),
{
    str_eq(extension, "so") || str_eq(extension, "dll")
}

/// Whether a path names a module to load.
pub fn is_plugin_file(path: &str) -> (r: bool)
    ensures
        r == is_plugin_path(path@),
{
    match extension_of(path) {
        Some(extension) => is_plugin_extension(extension.as_str()),
        None => false,
    }
}

/// Picks the modules to load from the files of a plugin directory. Every
/// file that is picked is to be loaded, whether or not one before it fails.
pub fn select_plugin_files(paths: &Vec<String>) -> (r: Vec<String>)
    ensures
        texts(r@) == plugin_paths(texts(paths@)),
{
    let ghost all = texts(paths@);
    let mut out: Vec<String> = Vec::new();
    let mut i: usize = 0;
    while i < paths.len()
        invariant
            i <= paths.len(),
            all == texts(paths@),
            texts(out@) == plugin_paths(all.take(i as int)),
        decreases paths.len() - i,
    {
        proof {
            assert(all.take(i + 1).drop_last() =~= all.take(i as int));
        }
        if is_plugin_file(paths[i].as_str()) {
            let path = paths[i].clone();
            out.push(path);
        }
        i += 1;
    }
    proof {
        assert(all.take(i as int) =~= all);
    }
    out
}

} // verus!
