//! Module loading decisions: which module file a name stands for, which
//! files of a directory are modules, how a single component is named, how
//! the module cache weighs entries, and how the AOT cache is configured.
//!
//! Compiling components and touching the file system happen outside this
//! module.

use crate::paths::{joined, path_join};
use crate::runtime::aot_cache::AotCacheConfig;
use crate::runtime::error::Error;
use crate::runtime::security::error::module_error_message;
use crate::runtime::security::{module_name_spec, sanitize_module_name};
use crate::text::{chars_of, push_str, string_from_chars};
use std::path::PathBuf;
use vstd::prelude::*;

verus! {

broadcast use vstd::string::group_string_axioms;

/// Default size limit of the AOT cache (1 GiB).
pub const DEFAULT_AOT_CACHE_SIZE_BYTES: u64 = 1073741824;

/// The message for a module name that fails validation.
pub open spec fn invalid_name_message(name: Seq<char>, reason: Seq<char>) -> Seq<char> {
    "Invalid module name '"@ + name + "': "@ + reason
}

/// A validated module name, or the `InvalidRequest` error naming the name
/// and the reason it was refused.
pub fn validated_module_name(name: &str) -> (r: Result<String, Error>)
    ensures
        match module_name_spec(name@) {
            Ok(n) => r matches Ok(x) && x@ == n,
            Err(e) => r matches Err(Error::InvalidRequest(m)) && m@ == invalid_name_message(
                name@,
                module_error_message(e),
            ),
        },
{
    match sanitize_module_name(name) {
        Ok(n) => Ok(n),
        Err(e) => {
            let mut m = String::new();
            push_str(&mut m, "Invalid module name '");
            push_str(&mut m, name);
            push_str(&mut m, "': ");
            let reason = e.to_string();
            push_str(&mut m, reason.as_str());
            Err(Error::InvalidRequest(m))
        },
    }
}

/// The file of module `name` in `modules_dir`: `<name>.wasm`.
pub fn module_wasm_path(modules_dir: &PathBuf, name: &str) -> (p: PathBuf)
    ensures
        p == joined(*modules_dir, name@ + ".wasm"@),
{
    let mut file = String::new();
    push_str(&mut file, name);
    push_str(&mut file, ".wasm");
    path_join(modules_dir, file.as_str())
}

/// The weight of a cached module: its size in bytes, at most `u32::MAX`.
pub fn cache_weight(size_bytes: usize) -> (w: u32)
    ensures
        w == (if size_bytes > u32::MAX { u32::MAX as int } else { size_bytes as int }),
{
    if size_bytes > 4294967295 {
        4294967295
    } else {
        size_bytes as u32
    }
}

/// The position of the last `.` of a file name, if any.
pub open spec fn last_dot(name: Seq<char>) -> Option<int> {
    if name.contains('.') {
        Some(choose|i: int| 0 <= i < name.len() && name[i] == '.' && forall|j: int| i < j < name.len() ==> name[j] != '.')
    } else {
        None
    }
}

/// The stem and extension of a file name, as `Path::file_stem` and
/// `Path::extension` split it: at the last `.`, unless that dot starts the
/// name or the name is `..`.
pub open spec fn split_extension(name: Seq<char>) -> (Seq<char>, Option<Seq<char>>) {
    if name == ".."@ {
        (name, None)
    } else {
        match last_dot(name) {
            Some(i) => if i == 0 {
                (name, None)
            } else {
                (name.take(i), Some(name.skip(i + 1)))
            },
            None => (name, None),
        }
    }
}

/// Splits a file name into stem and extension.
pub fn file_stem_and_extension(name: &str) -> (r: (String, Option<String>))
    ensures
        r.0@ == split_extension(name@).0,
        match r.1 {
            Some(e) => split_extension(name@).1 == Some(e@),
            None => split_extension(name@).1 is None,
        },
{
    proof {
        reveal_strlit("..");
    }
    let cs = chars_of(name);
    if crate::text::str_eq(name, "..") {
        return (name.to_string(), None);
    }
    let mut i: usize = cs.len();
    while i > 0 && cs[i - 1] != '.'
        invariant
            0 <= i <= cs@.len(),
            cs@ == name@,
            forall|j: int| i <= j < cs@.len() ==> cs@[j] != '.',
        decreases i,
    {
        i = i - 1;
    }
    if i == 0 {
        assert(!cs@.contains('.'));
        return (name.to_string(), None);
    }
    let dot = i - 1;
    assert(cs@.contains('.')) by {
        assert(cs@[dot as int] == '.');
    }
    let ghost k = choose|k: int| 0 <= k < cs@.len() && cs@[k] == '.' && forall|j: int| k < j < cs@.len() ==> cs@[j] != '.';
    assert(k == dot) by {
        if k < dot {
            assert(cs@[dot as int] == '.');
        } else if k > dot {
            assert(cs@[k] != '.');
        }
    }
    if dot == 0 {
        return (name.to_string(), None);
    }
    let stem = vstd::slice::slice_subrange(cs.as_slice(), 0, dot);
    let ext = vstd::slice::slice_subrange(cs.as_slice(), dot + 1, cs.len());
    assert(stem@ =~= cs@.take(dot as int));
    assert(ext@ =~= cs@.skip(dot + 1));
    (string_from_chars(stem), Some(string_from_chars(ext)))
}

/// The module names among directory entries: the stems of the files with
/// extension `wasm`, in order.
pub open spec fn wasm_modules(names: Seq<Seq<char>>) -> Seq<Seq<char>>
    decreases names.len(),
{
    if names.len() == 0 {
        Seq::empty()
    } else {
        let rest = wasm_modules(names.drop_last());
        let (stem, ext) = split_extension(names.last());
        if ext == Some("wasm"@) {
            rest.push(stem)
        } else {
            rest
        }
    }
}

/// The names of the modules in a directory listing.
pub fn available_modules(file_names: &Vec<String>) -> (r: Vec<String>)
    ensures
        r@.map_values(|s: String| s@) == wasm_modules(file_names@.map_values(|s: String| s@)),
{
    let ghost names = file_names@.map_values(|s: String| s@);
    let mut out: Vec<String> = Vec::new();
    let mut i: usize = 0;
    while i < file_names.len()
        invariant
            0 <= i <= file_names@.len(),
            names == file_names@.map_values(|s: String| s@),
            out@.map_values(|s: String| s@) == wasm_modules(names.take(i as int)),
        decreases file_names@.len() - i,
    {
        assert(names.take(i + 1).drop_last() =~= names.take(i as int));
        assert(names.take(i + 1).last() == file_names@[i as int]@);
        let (stem, ext) = file_stem_and_extension(file_names[i].as_str());
        let is_wasm = match &ext {
            Some(e) => crate::text::str_eq(e.as_str(), "wasm"),
            None => false,
        };
        if is_wasm {
            let ghost prev = out@;
            out.push(stem);
            assert(out@.map_values(|s: String| s@) =~= prev.map_values(|s: String| s@).push(
                split_extension(names[i as int]).0,
            ));
        }
        i = i + 1;
    }
    assert(names.take(file_names@.len() as int) =~= names);
    out
}

/// The name a single component is served under: its file stem without a
/// `-composed` suffix, or `component` when it has no stem.
pub open spec fn component_name(stem: Option<Seq<char>>) -> Seq<char> {
    match stem {
        Some(s) => if s.len() >= 9 && s.skip(s.len() - 9) == "-composed"@ {
            s.take(s.len() - 9)
        } else {
            s
        },
        None => "component"@,
    }
}

/// Names a single component from its file stem.
pub fn single_component_name(stem: Option<&str>) -> (n: String)
    ensures
        n@ == component_name(match stem {
            Some(s) => Some(s@),
            None => None::<Seq<char>>,
        }),
{
    proof {
        reveal_strlit("-composed");
    }
    match stem {
        Some(s) => {
            let cs = chars_of(s);
            let suffix = chars_of("-composed");
            if cs.len() >= 9 {
                let tail = vstd::slice::slice_subrange(cs.as_slice(), cs.len() - 9, cs.len());
                assert(tail@ =~= cs@.skip(cs@.len() - 9));
                if crate::text::chars_eq(tail, suffix.as_slice()) {
                    let head = vstd::slice::slice_subrange(cs.as_slice(), 0, cs.len() - 9);
                    assert(head@ =~= cs@.take(cs@.len() - 9));
                    return string_from_chars(head);
                }
            }
            s.to_string()
        },
        None => "component".to_string(),
    }
}

/// What the configured modules path is on disk.
#[derive(Debug, Clone, Copy, PartialEq, Eq, Structural)]
pub enum PathKind {
    /// A file: a single component.
    File,
    /// A directory of modules.
    Directory,
    /// Nothing.
    Missing,
}

/// How a host serves modules.
#[derive(Debug, Clone, PartialEq, Eq)]
pub enum ModuleMode {
    /// One component, served under this name.
    Single {
        /// The name of the component.
        name: String,
    },
    /// The modules of a directory, loaded on demand.
    Multi {
        /// The modules found in the directory.
        modules: Vec<String>,
    },
}

/// The module mode of a host whose modules path (shown as `path_text`) is
/// of kind `kind`: a file is a single component named after its stem; a
/// directory serves the `.wasm` files among `file_names`, and is refused
/// when there are none; a missing path is refused.
pub fn module_mode(kind: PathKind, path_text: &str, stem: Option<&str>, file_names: &Vec<String>) -> (r: Result<ModuleMode, Error>)
    ensures
        kind == PathKind::File ==> (r matches Ok(ModuleMode::Single { name }) && name@ == component_name(
            match stem {
                Some(s) => Some(s@),
                None => None::<Seq<char>>,
            },
        )),
        kind == PathKind::Directory && wasm_modules(file_names@.map_values(|s: String| s@)).len() > 0
            ==> (r matches Ok(ModuleMode::Multi { modules }) && modules@.map_values(|s: String| s@)
            == wasm_modules(file_names@.map_values(|s: String| s@))),
        kind == PathKind::Directory && wasm_modules(file_names@.map_values(|s: String| s@)).len() == 0
            ==> (r matches Err(Error::Config(m)) && m@ == "No .wasm files found in "@ + path_text@),
        kind == PathKind::Missing ==> (r matches Err(Error::Config(m)) && m@ == "Path does not exist: "@ + path_text@),
{
    match kind {
        PathKind::File => Ok(ModuleMode::Single { name: single_component_name(stem) }),
        PathKind::Directory => {
            let modules = available_modules(file_names);
            if modules.len() == 0 {
                let mut m = String::new();
                push_str(&mut m, "No .wasm files found in ");
                push_str(&mut m, path_text);
                Err(Error::Config(m))
            } else {
                Ok(ModuleMode::Multi { modules })
            }
        },
        PathKind::Missing => {
            let mut m = String::new();
            push_str(&mut m, "Path does not exist: ");
            push_str(&mut m, path_text);
            Err(Error::Config(m))
        },
    }
}

/// The AOT cache settings of a host: none in hot-reload mode (the cache is
/// bypassed); otherwise the configured limit in MB, or 1 GiB when it is 0.
pub open spec fn aot_settings(hot_reload: bool, aot_cache_max_mb: usize) -> Option<u64> {
    if hot_reload {
        None
    } else if aot_cache_max_mb > 0 {
        Some((aot_cache_max_mb * 1048576) as u64)
    } else {
        Some(DEFAULT_AOT_CACHE_SIZE_BYTES)
    }
}

/// The configuration of the AOT cache for a host, `None` in hot-reload mode.
pub fn aot_cache_config(hot_reload: bool, aot_cache_max_mb: usize) -> (c: Option<AotCacheConfig>)
    requires
        aot_cache_max_mb * 1048576 <= u64::MAX,
    ensures
        match aot_settings(hot_reload, aot_cache_max_mb) {
            Some(max) => c matches Some(x) && x.max_size_bytes == max && !x.bypass,
            None => c is None,
        },
{
    if hot_reload {
        return None;
    }
    let max_size_bytes = if aot_cache_max_mb > 0 {
        (aot_cache_max_mb as u64) * 1024 * 1024
    } else {
        DEFAULT_AOT_CACHE_SIZE_BYTES
    };
    Some(AotCacheConfig { max_size_bytes, bypass: false })
}

} // verus!
