//! Locating the runtime install and enumerating its platform assemblies.
//!
//! The runtime library lives under a fixed, versioned path convention
//! below an install root. Its directory of loadable platform assemblies
//! is enumerated by the embedding process; this module keeps the entries
//! whose file extension is the managed-binary suffix and joins their
//! paths with a separator, in the order they were handed in.

use vstd::prelude::*;
use vstd::string::StrSliceExecFns;
use vstd::string::StringExecFns;

verus! {

/// Relies on std's `String::push`, documented to append the given
/// character to the end of the string.
pub assume_specification[ String::push ](s: &mut String, ch: char)
    ensures
        final (s)@ == old(s)@.push(ch),
;

/// Index of the first character of the file name of `path`: the position
/// right after the last separator, or zero when there is none.
pub open spec fn file_name_start(path: Seq<char>, sep: char) -> int
    decreases path.len(),
{
    if path.len() == 0 {
        0
    } else if path[path.len() - 1] == sep {
        path.len() as int
    } else {
        file_name_start(path.drop_last(), sep)
    }
}

proof fn lemma_file_name_start_bounds(path: Seq<char>, sep: char)
    ensures
        0 <= file_name_start(path, sep) <= path.len(),
    decreases path.len(),
{
    if path.len() > 0 && path[path.len() - 1] != sep {
        lemma_file_name_start_bounds(path.drop_last(), sep);
    }
}

proof fn lemma_file_name_start_at(path: Seq<char>, sep: char, k: int)
    requires
        0 <= k <= path.len(),
        forall|j: int| k <= j < path.len() ==> path[j] != sep,
        k > 0 ==> path[k - 1] == sep,
    ensures
        file_name_start(path, sep) == k,
    decreases path.len(),
{
    if path.len() == 0 {
    } else if path[path.len() - 1] == sep {
        assert(k == path.len());
    } else {
        assert(k < path.len());
        lemma_file_name_start_at(path.drop_last(), sep, k);
    }
}

/// The file name of `path`: everything after the last separator.
pub open spec fn spec_file_name(path: Seq<char>, sep: char) -> Seq<char> {
    path.subrange(file_name_start(path, sep), path.len() as int)
}

/// Whether the file name of `path` carries the managed-binary extension:
/// it ends in `.dll` and the dot is not its first character.
pub open spec fn is_dll_path(path: Seq<char>, sep: char) -> bool {
    let name = spec_file_name(path, sep);
    name.len() > 4 && name.subrange(name.len() - 4, name.len() as int) == ".dll"@
}

proof fn lemma_dll_path_len(path: Seq<char>, sep: char)
    requires
        is_dll_path(path, sep),
    ensures
        path.len() > 4,
{
    lemma_file_name_start_bounds(path, sep);
}

/// Reports whether `path` names a file with the managed-binary extension.
pub fn is_dll_file(path: &str, sep: char) -> (r: bool)
    ensures
        r == is_dll_path(path@, sep),
{
    let len: usize = path.unicode_len();
    let mut start: usize = 0;
    let mut i: usize = 0;
    while i < len
        invariant
            len == path@.len(),
            i <= len,
            start <= i,
            start > 0 ==> path@[start - 1] == sep,
            forall|j: int| start <= j < i ==> path@[j] != sep,
        decreases len - i,
    {
        if path.get_char(i) == sep {
            start = i + 1;
        }
        i += 1;
    }
    proof {
        lemma_file_name_start_at(path@, sep, start as int);
    }
    if len - start <= 4 {
        return false;
    }
    let matched = path.get_char(len - 4) == '.' && path.get_char(len - 3) == 'd' && path.get_char(
        len - 2,
    ) == 'l' && path.get_char(len - 1) == 'l';
    proof {
        reveal_strlit(".dll");
        let name = spec_file_name(path@, sep);
        let tail = name.subrange(name.len() - 4, name.len() as int);
        assert(tail[0] == path@[len - 4] && tail[1] == path@[len - 3] && tail[2] == path@[len - 2]
            && tail[3] == path@[len - 1]);
        if matched {
            assert(tail =~= ".dll"@);
        } else {
            assert(tail != ".dll"@);
        }
    }
    matched
}

/// The views of a list of path strings, in order.
pub open spec fn views_of(entries: Seq<String>) -> Seq<Seq<char>> {
    entries.map_values(|e: String| e@)
}

/// The entries that carry the managed-binary extension, in the order
/// they were handed in.
pub open spec fn spec_dll_entries(entries: Seq<Seq<char>>, sep: char) -> Seq<Seq<char>>
    decreases entries.len(),
{
    if entries.len() == 0 {
        Seq::empty()
    } else if is_dll_path(entries.last(), sep) {
        spec_dll_entries(entries.drop_last(), sep).push(entries.last())
    } else {
        spec_dll_entries(entries.drop_last(), sep)
    }
}

/// The items joined with a `;` between each pair, and nothing else.
pub open spec fn spec_join_paths(items: Seq<Seq<char>>) -> Seq<char>
    decreases items.len(),
{
    if items.len() == 0 {
        Seq::empty()
    } else if items.len() == 1 {
        items[0]
    } else {
        spec_join_paths(items.drop_last()) + seq![';'] + items.last()
    }
}

proof fn lemma_dll_entries_long(entries: Seq<Seq<char>>, sep: char)
    ensures
        forall|i: int|
            0 <= i < spec_dll_entries(entries, sep).len() ==> #[trigger] spec_dll_entries(
                entries,
                sep,
            )[i].len() > 4,
    decreases entries.len(),
{
    if entries.len() > 0 {
        lemma_dll_entries_long(entries.drop_last(), sep);
        if is_dll_path(entries.last(), sep) {
            lemma_dll_path_len(entries.last(), sep);
            let prev = spec_dll_entries(entries.drop_last(), sep);
            assert forall|i: int|
                0 <= i < spec_dll_entries(entries, sep).len() implies #[trigger] spec_dll_entries(
                entries,
                sep,
            )[i].len() > 4 by {
                if i < prev.len() {
                    assert(spec_dll_entries(entries, sep)[i] == prev[i]);
                } else {
                    assert(spec_dll_entries(entries, sep)[i] == entries.last());
                }
            }
        }
    }
}

proof fn lemma_join_paths_len(items: Seq<Seq<char>>)
    requires
        forall|i: int| 0 <= i < items.len() ==> #[trigger] items[i].len() > 0,
    ensures
        items.len() > 0 ==> spec_join_paths(items).len() > 0,
{
}

/// Joins the paths among `entries` that carry the managed-binary
/// extension, in order, with a `;` between each pair. Entries without
/// the extension contribute nothing; an empty selection yields the
/// empty string.
pub fn get_trusted_assemblies(entries: &Vec<String>, sep: char) -> (r: String)
    ensures
        r@ == spec_join_paths(spec_dll_entries(views_of(entries@), sep)),
{
    let mut result = String::new();
    let mut i: usize = 0;
    while i < entries.len()
        invariant
            i <= entries@.len(),
            result@ == spec_join_paths(spec_dll_entries(views_of(entries@).take(i as int), sep)),
        decreases entries@.len() - i,
    {
        let ghost prefix = views_of(entries@).take(i as int);
        let ghost selected = spec_dll_entries(prefix, sep);
        if is_dll_file(entries[i].as_str(), sep) {
            proof {
                lemma_dll_entries_long(prefix, sep);
                lemma_join_paths_len(selected);
            }
            if result.as_str().unicode_len() > 0 {
                result.append(";");
            } else {
                proof {
                    assert(selected.len() == 0);
                }
            }
            result.append(entries[i].as_str());
            proof {
                reveal_strlit(";");
                let next = views_of(entries@).take(i as int + 1);
                assert(next.drop_last() =~= prefix);
                assert(next.last() == entries@[i as int]@);
                assert(spec_dll_entries(next, sep) == selected.push(entries@[i as int]@));
                if selected.len() == 0 {
                    assert(result@ =~= spec_join_paths(spec_dll_entries(next, sep)));
                } else {
                    assert(selected.push(entries@[i as int]@).drop_last() =~= selected);
                    assert(result@ =~= spec_join_paths(spec_dll_entries(next, sep)));
                }
            }
        } else {
            proof {
                let next = views_of(entries@).take(i as int + 1);
                assert(next.drop_last() =~= prefix);
                assert(next.last() == entries@[i as int]@);
                assert(spec_dll_entries(next, sep) == selected);
            }
        }
        i += 1;
    }
    proof {
        assert(views_of(entries@).take(entries@.len() as int) =~= views_of(entries@));
    }
    result
}

/// The versioned install directory of the runtime below `install_root`.
pub open spec fn spec_runtime_dir(install_root: Seq<char>, sep: char) -> Seq<char> {
    install_root + seq![sep] + "dotnet"@ + seq![sep] + "shared"@ + seq![sep]
        + "Microsoft.NETCore.App"@ + seq![sep] + "2.0.6"@
}

/// The path of the runtime's shared library inside its install directory.
pub open spec fn spec_runtime_library_path(install_root: Seq<char>, sep: char) -> Seq<char> {
    spec_runtime_dir(install_root, sep) + seq![sep] + "CoreCLR.dll"@
}

/// Resolves the runtime's versioned install directory below
/// `install_root`, using `sep` as the platform's path separator. The
/// version is fixed by convention rather than probed.
pub fn get_runtime_dir(install_root: &str, sep: char) -> (r: String)
    ensures
        r@ == spec_runtime_dir(install_root@, sep),
{
    let mut dir = install_root.to_owned();
    dir.push(sep);
    dir.append("dotnet");
    dir.push(sep);
    dir.append("shared");
    dir.push(sep);
    dir.append("Microsoft.NETCore.App");
    dir.push(sep);
    dir.append("2.0.6");
    proof {
        assert(dir@ =~= spec_runtime_dir(install_root@, sep));
    }
    dir
}

/// Resolves the full path of the runtime's shared library below
/// `install_root`.
pub fn get_runtime_path(install_root: &str, sep: char) -> (r: String)
    ensures
        r@ == spec_runtime_library_path(install_root@, sep),
{
    let mut dll = get_runtime_dir(install_root, sep);
    dll.push(sep);
    dll.append("CoreCLR.dll");
    proof {
        assert(dll@ =~= spec_runtime_library_path(install_root@, sep));
    }
    dll
}

} // verus!
