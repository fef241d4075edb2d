//! Insertion of a rendered box into file contents, once and only once, and
//! over every file below a directory.

use vstd::prelude::*;

verus! {

/// Whether `file` begins with `data`.
pub open spec fn has_prefix(file: Seq<u8>, data: Seq<u8>) -> bool {
    data.len() <= file.len() && file.subrange(0, data.len() as int) == data
}

/// Whether `file` ends with `data`.
pub open spec fn has_suffix(file: Seq<u8>, data: Seq<u8>) -> bool {
    data.len() <= file.len() && file.subrange(file.len() - data.len(), file.len() as int) == data
}

/// Whether `data` already stands where it would be inserted: at the end of
/// `file` when appending, at its start when prepending.
pub open spec fn present(data: Seq<u8>, file: Seq<u8>, append: bool) -> bool {
    if append {
        has_suffix(file, data)
    } else {
        has_prefix(file, data)
    }
}

/// The contents of a file after `data` was inserted into `file`: unchanged
/// where `data` is present, else with `data` behind or in front.
pub open spec fn inserted(data: Seq<u8>, file: Seq<u8>, append: bool) -> Seq<u8> {
    if present(data, file, append) {
        file
    } else if append {
        file + data
    } else {
        data + file
    }
}

/// Inserting the same data a second time changes nothing.
pub proof fn insertion_idempotent(data: Seq<u8>, file: Seq<u8>, append: bool)
    ensures
        present(data, inserted(data, file, append), append),
        inserted(data, inserted(data, file, append), append) == inserted(data, file, append),
{
    if !present(data, file, append) {
        if append {
            let after = file + data;
            assert(after.subrange(after.len() - data.len(), after.len() as int) =~= data);
        } else {
            let after = data + file;
            assert(after.subrange(0, data.len() as int) =~= data);
        }
    }
}

/// Whether `file` begins with `data`.
pub fn starts_with(file: &[u8], data: &[u8]) -> (b: bool)
    ensures
        b == has_prefix(file@, data@),
{
    if data.len() > file.len() {
        return false;
    }
    let mut i: usize = 0;
    while i < data.len()
        invariant
            i <= data.len() <= file.len(),
            forall|j: int| 0 <= j < i ==> file@[j] == data@[j],
        decreases data.len() - i,
    {
        if file[i] != data[i] {
            assert(file@.subrange(0, data@.len() as int)[i as int] != data@[i as int]);
            return false;
        }
        i += 1;
    }
    assert(file@.subrange(0, data@.len() as int) =~= data@);
    true
}

/// Whether `file` ends with `data`.
pub fn ends_with(file: &[u8], data: &[u8]) -> (b: bool)
    ensures
        b == has_suffix(file@, data@),
{
    if data.len() > file.len() {
        return false;
    }
    let base: usize = file.len() - data.len();
    let mut i: usize = 0;
    while i < data.len()
        invariant
            i <= data.len() <= file.len(),
            base == file.len() - data.len(),
            forall|j: int| 0 <= j < i ==> file@[base + j] == data@[j],
        decreases data.len() - i,
    {
        if file[base + i] != data[i] {
            assert(file@.subrange(base as int, file@.len() as int)[i as int] != data@[i as int]);
            return false;
        }
        i += 1;
    }
    assert(file@.subrange(base as int, file@.len() as int) =~= data@);
    true
}

/// Whether inserting `data` into `file` would change nothing.
pub fn is_present(data: &[u8], file: &[u8], append: bool) -> (b: bool)
    ensures
        b == present(data@, file@, append),
{
    if append {
        ends_with(file, data)
    } else {
        starts_with(file, data)
    }
}

/// The contents of a file that held `file`, after `data` was inserted.
pub fn insert(data: &[u8], file: &[u8], append: bool) -> (out: Vec<u8>)
    ensures
        out@ == inserted(data@, file@, append),
{
    let mut out: Vec<u8> = Vec::new();
    if is_present(data, file, append) {
        out.extend_from_slice(file);
        assert(out@ =~= file@);
    } else if append {
        out.extend_from_slice(file);
        out.extend_from_slice(data);
        assert(out@ =~= file@ + data@);
    } else {
        out.extend_from_slice(data);
        out.extend_from_slice(file);
        assert(out@ =~= data@ + file@);
    }
    out
}

/// What a path names: a file with its contents, or a directory with what it
/// holds, in the order in which it is read.
#[derive(Debug)]
pub enum Entry {
    File(Vec<u8>),
    Directory(Vec<Entry>),
}

/// An `Entry` as a value of mathematics.
pub enum Tree {
    File(Seq<u8>),
    Directory(Seq<Tree>),
}

impl View for Entry {
    type V = Tree;

    open spec fn view(&self) -> Tree
        decreases self,
    {
        match self {
            Entry::File(contents) => Tree::File(contents@),
            Entry::Directory(entries) => Tree::Directory(
                Seq::new(
                    entries@.len(),
                    |i: int|
                        if 0 <= i < entries@.len() {
                            entries@[i]@
                        } else {
                            Tree::File(Seq::empty())
                        },
                ),
            ),
        }
    }
}

/// Why an insertion was not made.
#[derive(Clone, Copy, Debug, PartialEq, Eq, Structural)]
pub enum InsertError {
    /// A directory was handed over where a single file was expected.
    IsDirectoryMismatch,
}

/// The tree in which `data` was inserted into every file of `t`, whatever
/// its depth, and nothing else was changed.
pub open spec fn tree_inserted(data: Seq<u8>, t: Tree, append: bool) -> Tree
    decreases t,
{
    match t {
        Tree::File(contents) => Tree::File(inserted(data, contents, append)),
        Tree::Directory(entries) => Tree::Directory(
            Seq::new(
                entries.len(),
                |i: int|
                    if 0 <= i < entries.len() {
                        tree_inserted(data, entries[i], append)
                    } else {
                        Tree::File(Seq::empty())
                    },
            ),
        ),
    }
}

/// Applying the same data to a tree a second time changes nothing, whether
/// it is appended or prepended.
pub proof fn tree_insertion_idempotent(data: Seq<u8>, t: Tree, append: bool)
    ensures
        tree_inserted(data, tree_inserted(data, t, append), append) == tree_inserted(
            data,
            t,
            append,
        ),
    decreases t,
{
    match t {
        Tree::File(contents) => {
            insertion_idempotent(data, contents, append);
        },
        Tree::Directory(entries) => {
            let once = tree_inserted(data, t, append);
            let twice = tree_inserted(data, once, append);
            assert forall|i: int| 0 <= i < entries.len() implies twice->Directory_0[i]
                == once->Directory_0[i] by {
                tree_insertion_idempotent(data, entries[i], append);
            }
            assert(twice->Directory_0 =~= once->Directory_0);
        },
    }
}

/// The contents of the files of `t`, however deep they lie: those of a
/// directory in the order in which it holds them, each entry's before the
/// next one's.
pub open spec fn files_of(t: Tree) -> Seq<Seq<u8>>
    decreases t, 0nat,
{
    match t {
        Tree::File(contents) => seq![contents],
        Tree::Directory(entries) => files_below(entries, entries.len()),
    }
}

/// The contents of the files of the first `n` of `entries`.
pub open spec fn files_below(entries: Seq<Tree>, n: nat) -> Seq<Seq<u8>>
    decreases entries, n,
{
    if n == 0 || n > entries.len() {
        Seq::empty()
    } else {
        files_below(entries, (n - 1) as nat) + files_of(entries[n - 1])
    }
}

/// Each of `files` with `data` inserted.
pub open spec fn all_inserted(data: Seq<u8>, files: Seq<Seq<u8>>, append: bool) -> Seq<Seq<u8>> {
    Seq::new(files.len(), |i: int| inserted(data, files[i], append))
}

/// An insertion into a tree reaches every file in it exactly once, at any
/// depth: the files afterwards are the files before, as many and in the same
/// order, each with the data inserted once.
pub proof fn every_file_visited_once(data: Seq<u8>, t: Tree, append: bool)
    ensures
        files_of(tree_inserted(data, t, append)) == all_inserted(data, files_of(t), append),
        files_of(tree_inserted(data, t, append)).len() == files_of(t).len(),
    decreases t, 0nat,
{
    match t {
        Tree::File(contents) => {
            assert(files_of(tree_inserted(data, t, append)) =~= all_inserted(
                data,
                files_of(t),
                append,
            ));
        },
        Tree::Directory(entries) => {
            files_below_visited_once(data, entries, entries.len(), append);
        },
    }
}

/// The same for the first `n` entries of a directory.
pub proof fn files_below_visited_once(data: Seq<u8>, entries: Seq<Tree>, n: nat, append: bool)
    requires
        n <= entries.len(),
    ensures
        files_below(tree_inserted(data, Tree::Directory(entries), append)->Directory_0, n)
            == all_inserted(data, files_below(entries, n), append),
    decreases entries, n,
{
    let after = tree_inserted(data, Tree::Directory(entries), append)->Directory_0;
    if n == 0 {
        assert(files_below(after, n) =~= all_inserted(data, files_below(entries, n), append));
    } else {
        files_below_visited_once(data, entries, (n - 1) as nat, append);
        every_file_visited_once(data, entries[n - 1], append);
        assert(after[n - 1] == tree_inserted(data, entries[n - 1], append));
        assert(files_below(after, n) =~= all_inserted(data, files_below(entries, n), append));
    }
}

/// Inserts `data` at the start of the one file `entry`.
pub fn prepend_file(data: &[u8], entry: &Entry) -> (r: Result<Entry, InsertError>)
    ensures
        match entry@ {
            Tree::File(contents) => r matches Ok(e) && e@ == Tree::File(
                inserted(data@, contents, false),
            ),
            Tree::Directory(_) => r == Err::<Entry, InsertError>(InsertError::IsDirectoryMismatch),
        },
{
    match entry {
        Entry::File(contents) => Ok(Entry::File(insert(data, contents.as_slice(), false))),
        Entry::Directory(_) => Err(InsertError::IsDirectoryMismatch),
    }
}

/// Inserts `data` at the end of the one file `entry`.
pub fn append_file(data: &[u8], entry: &Entry) -> (r: Result<Entry, InsertError>)
    ensures
        match entry@ {
            Tree::File(contents) => r matches Ok(e) && e@ == Tree::File(
                inserted(data@, contents, true),
            ),
            Tree::Directory(_) => r == Err::<Entry, InsertError>(InsertError::IsDirectoryMismatch),
        },
{
    match entry {
        Entry::File(contents) => Ok(Entry::File(insert(data, contents.as_slice(), true))),
        Entry::Directory(_) => Err(InsertError::IsDirectoryMismatch),
    }
}

/// Inserts `data` into `entry` if it is a file, and into every file below it
/// if it is a directory: each file once, the directories as they were.
pub fn commentize_file(data: &[u8], entry: &Entry, append: bool) -> (out: Entry)
    ensures
        out@ == tree_inserted(data@, entry@, append),
    decreases entry,
{
    match entry {
        Entry::File(contents) => Entry::File(insert(data, contents.as_slice(), append)),
        Entry::Directory(entries) => {
            let mut done: Vec<Entry> = Vec::new();
            let mut i: usize = 0;
            while i < entries.len()
                invariant
                    i <= entries.len(),
                    done@.len() == i,
                    entry == Entry::Directory(*entries),
                    forall|j: int|
                        0 <= j < i ==> (#[trigger] done@[j])@ == tree_inserted(
                            data@,
                            entries@[j]@,
                            append,
                        ),
                decreases entries.len() - i,
            {
                proof {
                    broadcast use vstd::std_specs::vec::axiom_vec_index_decreases;

                    assert(decreases_to!(entries => entries[i as int]));
                    assert(decreases_to!(entry => entry->Directory_0));
                }
                let next = commentize_file(data, &entries[i], append);
                done.push(next);
                i += 1;
            }
            let out = Entry::Directory(done);
            assert(out@->Directory_0 =~= tree_inserted(data@, entry@, append)->Directory_0);
            out
        },
    }
}

} // verus!
