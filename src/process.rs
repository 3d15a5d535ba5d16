//! Which running processes belong to a game's installation directory.
//!
//! A path is held as its components, the way `std::path::Path::components`
//! splits it; containment is a whole-component prefix, as in
//! `Path::starts_with`.

use vstd::prelude::*;

verus! {

/// One component of a file-system path.
#[derive(Clone, Debug)]
pub enum PathPart {
    /// A Windows prefix such as `C:` or `\\server\share`, by its text.
    Prefix(String),
    /// The root directory.
    Root,
    /// `.`
    Current,
    /// `..`
    Parent,
    /// A file or directory name.
    Normal(String),
}

/// A running process and the path of its executable.
#[derive(Clone, Debug)]
pub struct ProcessEntry {
    pub pid: u32,
    pub exe: Vec<PathPart>,
}

/// Two components are the same component.
pub open spec fn same_part(a: PathPart, b: PathPart) -> bool {
    match (a, b) {
        (PathPart::Prefix(x), PathPart::Prefix(y)) => x@ == y@,
        (PathPart::Root, PathPart::Root) => true,
        (PathPart::Current, PathPart::Current) => true,
        (PathPart::Parent, PathPart::Parent) => true,
        (PathPart::Normal(x), PathPart::Normal(y)) => x@ == y@,
        _ => false,
    }
}

/// `dir` is `path` itself or one of its ancestors, component by component.
pub open spec fn is_within(dir: Seq<PathPart>, path: Seq<PathPart>) -> bool {
    dir.len() <= path.len() && forall|i: int| 0 <= i < dir.len() ==> same_part(dir[i], path[i])
}

/// The directory that holds `path`: none when the path is empty or ends in a
/// root or a prefix.
pub open spec fn parent_of(path: Seq<PathPart>) -> Option<Seq<PathPart>> {
    if path.len() > 0 && !(path.last() is Root) && !(path.last() is Prefix) {
        Some(path.drop_last())
    } else {
        None
    }
}

/// The executable of `entry` lies in `dir` or in a directory below it.
pub open spec fn runs_from(dir: Seq<PathPart>, entry: ProcessEntry) -> bool {
    match parent_of(entry.exe@) {
        Some(d) => is_within(dir, d),
        None => false,
    }
}

/// The pids of the processes in `table` that run from `dir`, in table order.
pub open spec fn pids_running_from(dir: Seq<PathPart>, table: Seq<ProcessEntry>) -> Seq<u32>
    decreases table.len(),
{
    if table.len() == 0 {
        Seq::empty()
    } else {
        let rest = pids_running_from(dir, table.drop_last());
        if runs_from(dir, table.last()) {
            rest.push(table.last().pid)
        } else {
            rest
        }
    }
}

/// The pids of the processes in `table` whose executables lie under the
/// directory of `executable`.
pub open spec fn pids_under_executable_dir(
    executable: Seq<PathPart>,
    table: Seq<ProcessEntry>,
) -> Seq<u32> {
    match parent_of(executable) {
        Some(dir) => pids_running_from(dir, table),
        None => Seq::empty(),
    }
}

fn same_part_exec(a: &PathPart, b: &PathPart) -> (r: bool)
    ensures
        r == same_part(*a, *b),
{
    match (a, b) {
        (PathPart::Prefix(x), PathPart::Prefix(y)) => x.eq(y),
        (PathPart::Root, PathPart::Root) => true,
        (PathPart::Current, PathPart::Current) => true,
        (PathPart::Parent, PathPart::Parent) => true,
        (PathPart::Normal(x), PathPart::Normal(y)) => x.eq(y),
        _ => false,
    }
}

/// Whether the first `dir_len` components of `dir` are the first components
/// of `path`.
fn prefix_within(dir: &Vec<PathPart>, dir_len: usize, path: &Vec<PathPart>, path_len: usize) -> (r:
    bool)
    requires
        dir_len <= dir@.len(),
        path_len <= path@.len(),
    ensures
        r == is_within(dir@.subrange(0, dir_len as int), path@.subrange(0, path_len as int)),
{
    if dir_len > path_len {
        return false;
    }
    let mut i: usize = 0;
    while i < dir_len
        invariant
            dir_len <= path_len,
            dir_len <= dir@.len(),
            path_len <= path@.len(),
            i <= dir_len,
            forall|k: int| 0 <= k < i ==> same_part(#[trigger] dir@[k], path@[k]),
        decreases dir_len - i,
    {
        if !same_part_exec(&dir[i], &path[i]) {
            assert(dir@.subrange(0, dir_len as int)[i as int] == dir@[i as int]);
            assert(path@.subrange(0, path_len as int)[i as int] == path@[i as int]);
            return false;
        }
        i = i + 1;
    }
    assert forall|k: int| 0 <= k < dir_len implies same_part(
        #[trigger] dir@.subrange(0, dir_len as int)[k],
        path@.subrange(0, path_len as int)[k],
    ) by {
        assert(dir@.subrange(0, dir_len as int)[k] == dir@[k]);
        assert(path@.subrange(0, path_len as int)[k] == path@[k]);
    }
    true
}

/// The number of components of the parent directory of `path`, if it has one.
fn parent_len(path: &Vec<PathPart>) -> (r: Option<usize>)
    ensures
        r is None <==> parent_of(path@) is None,
        r is Some ==> r->0 + 1 == path@.len() && parent_of(path@) == Some(path@.subrange(0, r->0 as int)),
{
    let n = path.len();
    if n == 0 {
        return None;
    }
    match &path[n - 1] {
        PathPart::Root => None,
        PathPart::Prefix(_) => None,
        _ => {
            assert(path@.drop_last() =~= path@.subrange(0, n - 1));
            Some(n - 1)
        },
    }
}

/// The pids of the running processes whose executables lie in the directory
/// of `executable` or below it, in the order of `table`. An executable path
/// with no parent directory gives none.
pub fn get_processes_in_directory(executable: &Vec<PathPart>, table: &Vec<ProcessEntry>) -> (r: Vec<
    u32,
>)
    ensures
        r@ == pids_under_executable_dir(executable@, table@),
{
    let mut pids: Vec<u32> = Vec::new();
    let dir_len = match parent_len(executable) {
        Some(k) => k,
        None => {
            return pids;
        },
    };
    let ghost dir = executable@.subrange(0, dir_len as int);
    let mut i: usize = 0;
    while i < table.len()
        invariant
            i <= table@.len(),
            dir_len <= executable@.len(),
            dir == executable@.subrange(0, dir_len as int),
            parent_of(executable@) == Some(dir),
            pids@ == pids_running_from(dir, table@.subrange(0, i as int)),
        decreases table.len() - i,
    {
        let entry = &table[i];
        assert(table@.subrange(0, i + 1).drop_last() =~= table@.subrange(0, i as int));
        assert(table@.subrange(0, i + 1).last() == table@[i as int]);
        match parent_len(&entry.exe) {
            Some(k) => {
                if prefix_within(executable, dir_len, &entry.exe, k) {
                    pids.push(entry.pid);
                }
            },
            None => {},
        }
        i = i + 1;
    }
    assert(table@.subrange(0, table@.len() as int) =~= table@);
    pids
}

} // verus!
