//! The layout of an enrollment corpus, and what a scan picks out of a
//! directory listing.
//!
//! A corpus is a directory with one subdirectory per identity; the image
//! files in a subdirectory are the photographs of that identity:
//! `root/<identity>/<file>.{jpg,jpeg,png}`. The caller lists directories; the
//! functions here say which entries count.

use vstd::prelude::*;
use crate::error::FaceError;

verus! {

/// What kind of thing a directory entry is.
#[derive(Clone, Copy, Debug, PartialEq, Eq, Structural)]
pub enum EntryKind {
    /// A regular file.
    File,
    /// A directory.
    Directory,
    /// Anything else.
    Other,
}

/// One entry of a directory listing.
pub struct Entry {
    /// The entry's file name, without any directory. Empty if the name cannot
    /// be written as text.
    pub name: String,
    /// What the entry is.
    pub kind: EntryKind,
}

/// What came of listing a directory.
pub enum Listing {
    /// There is no such directory.
    Missing,
    /// The directory is there but could not be listed.
    Unreadable,
    /// The entries of the directory, in the order the file system gave them.
    Entries(Vec<Entry>),
}

/// How a rebuild goes on after a look at the corpus root.
pub enum ScanStart {
    /// There is no corpus yet: create the empty root directory. There is no
    /// identity to visit.
    CreateRoot,
    /// List these subdirectories, one identity each, in this order.
    Visit(Vec<String>),
}

/// The names in a list of strings.
pub open spec fn texts(names: Seq<String>) -> Seq<Seq<char>> {
    names.map_values(|s: String| s@)
}

/// The part of a file name after its last dot. A name without a dot has no
/// extension, nor has one whose only dot comes first.
pub open spec fn extension(name: Seq<char>) -> Option<Seq<char>> {
    match name.index_of_last('.') {
        Some(dot) => if dot > 0 {
            Some(name.skip(dot + 1))
        } else {
            None
        },
        None => None,
    }
}

/// Whether `c` is the lower-case ASCII letter `letter` or its upper-case
/// form.
pub open spec fn is_letter(c: char, letter: char) -> bool {
    c == letter || c as int + 32 == letter as int
}

/// Whether `text` spells `word`, a word of lower-case ASCII letters, in any
/// mix of cases.
pub open spec fn spells(text: Seq<char>, word: Seq<char>) -> bool {
    &&& text.len() == word.len()
    &&& forall|i: int| 0 <= i < word.len() ==> is_letter(#[trigger] text[i], word[i])
}

/// Whether a file name ends in one of the image extensions `jpg`, `jpeg` and
/// `png`, in any mix of cases.
pub open spec fn is_image_name(name: Seq<char>) -> bool {
    match extension(name) {
        Some(ext) => spells(ext, seq!['j', 'p', 'g']) || spells(ext, seq!['j', 'p', 'e', 'g'])
            || spells(ext, seq!['p', 'n', 'g']),
        None => false,
    }
}

/// Whether an entry of the corpus root is the partition of an identity: a
/// directory whose name is not empty.
pub open spec fn is_identity_dir(e: Entry) -> bool {
    e.kind == EntryKind::Directory && e.name@.len() > 0
}

/// Whether an entry of a partition is a photograph: a regular file with an
/// image extension.
pub open spec fn is_image_entry(e: Entry) -> bool {
    e.kind == EntryKind::File && is_image_name(e.name@)
}

/// The identities of a corpus, in listing order.
pub open spec fn identities_in(entries: Seq<Entry>) -> Seq<Seq<char>> {
    entries.filter(|e: Entry| is_identity_dir(e)).map_values(|e: Entry| e.name@)
}

/// The photographs of a partition, in listing order.
pub open spec fn images_in(entries: Seq<Entry>) -> Seq<Seq<char>> {
    entries.filter(|e: Entry| is_image_entry(e)).map_values(|e: Entry| e.name@)
}

/// The path of `name` inside the directory `dir`.
pub open spec fn joined(dir: Seq<char>, name: Seq<char>) -> Seq<char> {
    dir + seq!['/'] + name
}

/// The paths of the photographs of the partition `dir`, in listing order.
pub open spec fn image_paths_in(dir: Seq<char>, entries: Seq<Entry>) -> Seq<Seq<char>> {
    images_in(entries).map_values(|name: Seq<char>| joined(dir, name))
}

/// The characters of a string.
fn chars_of(text: &str) -> (chars: Vec<char>)
    ensures
        chars@ == text@,
{
    let mut chars: Vec<char> = Vec::new();
    for c in it: text.chars()
        invariant
            it.seq() == text@,
            chars@ == text@.take(it.index()),
    {
        proof {
            assert(text@.take(it.index() + 1) =~= text@.take(it.index()).push(c));
        }
        chars.push(c);
    }
    proof {
        assert(text@.take(text@.len() as int) =~= text@);
    }
    chars
}

/// Whether `c` is `letter` in either case.
fn letter_is(c: char, letter: char) -> (same: bool)
    ensures
        same == is_letter(c, letter),
{
    c == letter || c as u32 + 32 == letter as u32
}

/// Whether the characters of `text` from `from` on spell `word`.
fn tail_spells(text: &Vec<char>, from: usize, word: &Vec<char>) -> (same: bool)
    requires
        from <= text.len(),
    ensures
        same == spells(text@.skip(from as int), word@),
{
    if text.len() - from != word.len() {
        return false;
    }
    let n = word.len();
    let mut i: usize = 0;
    while i < n
        invariant
            i <= n,
            n == word.len(),
            from + n == text.len(),
            forall|j: int| 0 <= j < i ==> is_letter(#[trigger] text@.skip(from as int)[j], word@[j]),
        decreases n - i,
    {
        if !letter_is(text[from + i], word[i]) {
            assert(!is_letter(text@.skip(from as int)[i as int], word@[i as int]));
            return false;
        }
        i += 1;
    }
    true
}

/// Whether a file name ends in `jpg`, `jpeg` or `png`, in any mix of cases.
pub fn is_image_file(name: &str) -> (image: bool)
    ensures
        image == is_image_name(name@),
{
    let chars = chars_of(name);
    let n = chars.len();
    let mut end: usize = n;
    while end > 0 && chars[end - 1] != '.'
        invariant
            end <= n,
            n == chars.len(),
            forall|j: int| end <= j < n ==> chars@[j] != '.',
        decreases end,
    {
        end -= 1;
    }
    proof {
        chars@.index_of_last_ensures('.');
        if end > 0 {
            assert(chars@[end - 1] == '.');
            assert(chars@.index_of_last('.') == Some(end - 1));
        } else {
            assert(chars@.index_of_last('.') is None);
        }
    }
    if end <= 1 {
        return false;
    }
    let jpg: Vec<char> = vec!['j', 'p', 'g'];
    let jpeg: Vec<char> = vec!['j', 'p', 'e', 'g'];
    let png: Vec<char> = vec!['p', 'n', 'g'];
    proof {
        assert(jpg@ =~= seq!['j', 'p', 'g']);
        assert(jpeg@ =~= seq!['j', 'p', 'e', 'g']);
        assert(png@ =~= seq!['p', 'n', 'g']);
    }
    tail_spells(&chars, end, &jpg) || tail_spells(&chars, end, &jpeg) || tail_spells(
        &chars,
        end,
        &png,
    )
}

/// The names of the entries of the corpus root that are identity partitions,
/// in listing order.
pub fn identity_dirs(entries: &Vec<Entry>) -> (names: Vec<String>)
    ensures
        texts(names@) == identities_in(entries@),
{
    let ghost keep = |e: Entry| is_identity_dir(e);
    let ghost name_of = |e: Entry| e.name@;
    let mut names: Vec<String> = Vec::new();
    let n = entries.len();
    let mut i: usize = 0;
    proof {
        assert(entries@.take(0) =~= Seq::<Entry>::empty());
        assert(entries@.take(0).filter(keep) =~= Seq::<Entry>::empty()) by {
            reveal(Seq::filter);
        }
        assert(texts(names@) =~= entries@.take(0).filter(keep).map_values(name_of));
    }
    while i < n
        invariant
            i <= n,
            n == entries.len(),
            keep == |e: Entry| is_identity_dir(e),
            name_of == |e: Entry| e.name@,
            texts(names@) == entries@.take(i as int).filter(keep).map_values(name_of),
        decreases n - i,
    {
        let entry = &entries[i];
        let ghost before = entries@.take(i as int);
        let ghost listed = names@;
        proof {
            assert(entries@.take(i + 1) =~= before.push(*entry));
            before.lemma_filter_push(*entry, keep);
        }
        let is_dir = match entry.kind {
            EntryKind::Directory => true,
            _ => false,
        };
        if is_dir && !entry.name.as_str().is_empty() {
            names.push(entry.name.clone());
            proof {
                assert(texts(names@) =~= texts(listed).push(entry.name@));
                assert(before.filter(keep).push(*entry).map_values(name_of) =~= before.filter(
                    keep,
                ).map_values(name_of).push(entry.name@));
            }
        }
        i += 1;
    }
    proof {
        assert(entries@.take(n as int) =~= entries@);
    }
    names
}

/// The names of the entries of a partition that are photographs, in listing
/// order.
pub fn image_files(entries: &Vec<Entry>) -> (names: Vec<String>)
    ensures
        texts(names@) == images_in(entries@),
{
    let ghost keep = |e: Entry| is_image_entry(e);
    let ghost name_of = |e: Entry| e.name@;
    let mut names: Vec<String> = Vec::new();
    let n = entries.len();
    let mut i: usize = 0;
    proof {
        assert(entries@.take(0) =~= Seq::<Entry>::empty());
        assert(entries@.take(0).filter(keep) =~= Seq::<Entry>::empty()) by {
            reveal(Seq::filter);
        }
        assert(texts(names@) =~= entries@.take(0).filter(keep).map_values(name_of));
    }
    while i < n
        invariant
            i <= n,
            n == entries.len(),
            keep == |e: Entry| is_image_entry(e),
            name_of == |e: Entry| e.name@,
            texts(names@) == entries@.take(i as int).filter(keep).map_values(name_of),
        decreases n - i,
    {
        let entry = &entries[i];
        let ghost before = entries@.take(i as int);
        let ghost listed = names@;
        proof {
            assert(entries@.take(i + 1) =~= before.push(*entry));
            before.lemma_filter_push(*entry, keep);
        }
        let is_file = match entry.kind {
            EntryKind::File => true,
            _ => false,
        };
        if is_file && is_image_file(entry.name.as_str()) {
            names.push(entry.name.clone());
            proof {
                assert(texts(names@) =~= texts(listed).push(entry.name@));
                assert(before.filter(keep).push(*entry).map_values(name_of) =~= before.filter(
                    keep,
                ).map_values(name_of).push(entry.name@));
            }
        }
        i += 1;
    }
    proof {
        assert(entries@.take(n as int) =~= entries@);
    }
    names
}

/// Starts a rebuild from the listing of the corpus root. A missing root is no
/// error: it is created, and the rebuild ends with nothing to train on. A
/// root that cannot be listed fails the rebuild.
pub fn begin_scan(root: &Listing) -> (start: Result<ScanStart, FaceError>)
    ensures
        match *root {
            Listing::Missing => start matches Ok(ScanStart::CreateRoot),
            Listing::Unreadable => start == Err::<ScanStart, FaceError>(FaceError::CorpusIo),
            Listing::Entries(entries) => start matches Ok(ScanStart::Visit(names)) && texts(
                names@,
            ) == identities_in(entries@),
        },
{
    match root {
        Listing::Missing => Ok(ScanStart::CreateRoot),
        Listing::Unreadable => Err(FaceError::CorpusIo),
        Listing::Entries(entries) => Ok(ScanStart::Visit(identity_dirs(entries))),
    }
}

/// The paths of the photographs in the partition `dir`, in listing order:
/// these are the files that a scan tries to extract a face from. A partition
/// that cannot be listed fails the rebuild, also one that has disappeared
/// since the root was listed.
pub fn photographs(dir: &str, partition: &Listing) -> (paths: Result<Vec<String>, FaceError>)
    ensures
        match *partition {
            Listing::Entries(entries) => paths matches Ok(found) && texts(found@)
                == image_paths_in(dir@, entries@),
            _ => paths == Err::<Vec<String>, FaceError>(FaceError::CorpusIo),
        },
{
    match partition {
        Listing::Entries(entries) => {
            let names = image_files(entries);
            let ghost place = |name: Seq<char>| joined(dir@, name);
            let mut found: Vec<String> = Vec::new();
            let n = names.len();
            let mut i: usize = 0;
            while i < n
                invariant
                    i <= n,
                    n == names.len(),
                    place == |name: Seq<char>| joined(dir@, name),
                    texts(found@) == texts(names@).take(i as int).map_values(place),
                decreases n - i,
            {
                let ghost before = texts(found@);
                let path = join_path(dir, names[i].as_str());
                found.push(path);
                proof {
                    assert(texts(names@).take(i + 1) =~= texts(names@).take(i as int).push(
                        names@[i as int]@,
                    ));
                    assert(texts(found@) =~= before.push(joined(dir@, names@[i as int]@)));
                }
                i += 1;
            }
            proof {
                assert(texts(names@).take(n as int) =~= texts(names@));
            }
            Ok(found)
        },
        _ => Err(FaceError::CorpusIo),
    }
}

/// The path of the entry `name` of the directory `dir`.
pub fn join_path(dir: &str, name: &str) -> (path: String)
    ensures
        path@ == joined(dir@, name@),
{
    let mut path = dir.to_owned();
    path.append("/");
    path.append(name);
    proof {
        reveal_strlit("/");
        assert("/"@ =~= seq!['/']);
    }
    path
}

} // verus!
