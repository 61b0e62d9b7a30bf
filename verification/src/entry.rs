use vstd::prelude::*;
use vstd::string::StrSliceExecFns;

verus! {

/// Where the last dot of `name` stands, if it has one.
pub open spec fn last_dot(name: Seq<char>) -> Option<int>
    decreases name.len(),
{
    if name.len() == 0 {
        None
    } else if name.last() == '.' {
        Some(name.len() - 1)
    } else {
        last_dot(name.drop_last())
    }
}

/// The extension of a file name: what follows its last dot. A name that
/// ends in a dot has the empty extension; a name without a dot has none.
pub open spec fn extension_of(name: Seq<char>) -> Option<Seq<char>> {
    match last_dot(name) {
        Some(dot) => Some(name.skip(dot + 1)),
        None => None,
    }
}

/// The stem of a file name: the name without its last dot and what follows
/// it. A name without a dot is its own stem, and so is a name whose only
/// dot is its first character.
pub open spec fn stem_of(name: Seq<char>) -> Seq<char> {
    match last_dot(name) {
        Some(dot) => if dot > 0 {
            name.take(dot)
        } else {
            name
        },
        None => name,
    }
}

/// The last dot is a dot and no dot follows it; where there is none, the
/// name has no dot at all.
pub proof fn lemma_last_dot_is_last(name: Seq<char>)
    ensures
        match last_dot(name) {
            Some(dot) => {
                &&& 0 <= dot < name.len()
                &&& name[dot] == '.'
                &&& forall|i: int| dot < i < name.len() ==> #[trigger] name[i] != '.'
            },
            None => forall|i: int| 0 <= i < name.len() ==> #[trigger] name[i] != '.',
        },
    decreases name.len(),
{
    if name.len() > 0 && name.last() != '.' {
        let front = name.drop_last();
        lemma_last_dot_is_last(front);
        match last_dot(front) {
            Some(dot) => {
                assert forall|i: int| dot < i < name.len() implies #[trigger] name[i] != '.' by {
                    if i < front.len() {
                        assert(front[i] == name[i]);
                    }
                }
            },
            None => {
                assert forall|i: int| 0 <= i < name.len() implies #[trigger] name[i] != '.' by {
                    if i < front.len() {
                        assert(front[i] == name[i]);
                    }
                }
            },
        }
    }
}

/// A name with a dot behind its first character is its stem, a dot, and
/// its extension.
pub proof fn lemma_stem_dot_extension(name: Seq<char>)
    requires
        last_dot(name) matches Some(dot) && dot > 0,
    ensures
        extension_of(name) is Some,
        name == stem_of(name) + seq!['.'] + extension_of(name)->0,
{
    lemma_last_dot_is_last(name);
}

/// Finds the last dot of a text and counts its characters.
fn find_last_dot(s: &str) -> (found: (Option<usize>, usize))
    ensures
        found.1 == s@.len(),
        match found.0 {
            Some(dot) => last_dot(s@) == Some(dot as int),
            None => last_dot(s@) is None,
        },
{
    let mut dot: Option<usize> = None;
    let mut i: usize = 0;
    let n: usize = s.unicode_len();
    for c in it: s.chars()
        invariant
            n == s@.len(),
            i == it.index(),
            it.seq() == s@,
            match dot {
                Some(d) => last_dot(s@.take(i as int)) == Some(d as int),
                None => last_dot(s@.take(i as int)) is None,
            },
    {
        proof {
            assert(s@.take(i + 1).drop_last() == s@.take(i as int));
        }
        if c == '.' {
            dot = Some(i);
        }
        i += 1;
    }
    proof {
        assert(s@.take(i as int) == s@);
    }
    (dot, n)
}

/// The extension of a file name: what follows its last dot, if it has one.
pub fn extension(s: &str) -> (ext: Option<&str>)
    ensures
        match ext {
            Some(e) => extension_of(s@) == Some(e@),
            None => extension_of(s@) is None,
        },
{
    let (dot, n) = find_last_dot(s);
    proof {
        lemma_last_dot_is_last(s@);
    }
    match dot {
        Some(d) => Some(s.substring_char(d + 1, n)),
        None => None,
    }
}

/// The stem of a file name: the name without its extension.
pub fn file_stem(name: &str) -> (stem: &str)
    ensures
        stem@ == stem_of(name@),
{
    let (dot, n) = find_last_dot(name);
    proof {
        lemma_last_dot_is_last(name@);
    }
    match dot {
        Some(d) => if d > 0 {
            name.substring_char(0, d)
        } else {
            name
        },
        None => name,
    }
}

/// Whether `s` is one of the strings in `v`, compared character by
/// character: `MD` is not `md`.
pub fn str_vec_contains(v: &Vec<String>, s: &str) -> (found: bool)
    ensures
        found == v.deep_view().contains(s@),
{
    let wanted = s.to_owned();
    let mut i: usize = 0;
    while i < v.len()
        invariant
            i <= v.len(),
            wanted@ == s@,
            forall|j: int| 0 <= j < i ==> v.deep_view()[j] != s@,
        decreases v.len() - i,
    {
        if v[i] == wanted {
            assert(v.deep_view()[i as int] == s@);
            return true;
        }
        i += 1;
    }
    false
}

/// Whether a name is set aside: names that start with a dot are hidden and
/// names that start with an underscore are bookkeeping.
pub open spec fn is_reserved(name: Seq<char>) -> bool {
    name.len() > 0 && (name[0] == '.' || name[0] == '_')
}

/// Whether a name is set aside and so never a note.
pub fn is_reserved_name(name: &str) -> (reserved: bool)
    ensures
        reserved == is_reserved(name@),
{
    if name.is_empty() {
        false
    } else {
        let first = name.get_char(0);
        first == '.' || first == '_'
    }
}

/// What a directory entry is to the publisher.
#[derive(Debug, Clone, Copy, PartialEq, Eq, Structural)]
pub enum EntryKind {
    /// Its name is set aside.
    Reserved,
    /// It is a directory.
    Directory,
    /// Its name has no dot.
    NoExtension,
    /// Its extension is not one of the note extensions.
    OtherExtension,
    /// It is a note and gets published.
    Note,
}

/// What an entry is: a note if it is a file whose name is not set aside
/// and whose extension is, letter for letter, one of `extensions`.
pub open spec fn entry_kind(name: Seq<char>, is_dir: bool, extensions: Seq<Seq<char>>) -> EntryKind {
    if is_reserved(name) {
        EntryKind::Reserved
    } else if is_dir {
        EntryKind::Directory
    } else {
        match extension_of(name) {
            None => EntryKind::NoExtension,
            Some(ext) => if extensions.contains(ext) {
                EntryKind::Note
            } else {
                EntryKind::OtherExtension
            },
        }
    }
}

/// Decides what to do with a directory entry from its name, from whether
/// it is a directory, and from the extensions that notes have.
pub fn classify_entry(name: &str, is_dir: bool, extensions: &Vec<String>) -> (kind: EntryKind)
    ensures
        kind == entry_kind(name@, is_dir, extensions.deep_view()),
{
    if is_reserved_name(name) {
        EntryKind::Reserved
    } else if is_dir {
        EntryKind::Directory
    } else {
        match extension(name) {
            None => EntryKind::NoExtension,
            Some(ext) => if str_vec_contains(extensions, ext) {
                EntryKind::Note
            } else {
                EntryKind::OtherExtension
            },
        }
    }
}

/// Only a file with an open name and a listed extension is a note.
pub proof fn lemma_note_has_listed_extension(
    name: Seq<char>,
    is_dir: bool,
    extensions: Seq<Seq<char>>,
)
    ensures
        entry_kind(name, is_dir, extensions) == EntryKind::Note <==> {
            &&& !is_dir
            &&& !is_reserved(name)
            &&& extension_of(name) matches Some(ext)
            &&& extensions.contains(ext)
        },
{
}

/// The extensions are a set: neither their order nor a repetition changes
/// what an entry is.
pub proof fn lemma_extensions_are_a_set(
    name: Seq<char>,
    is_dir: bool,
    first: Seq<Seq<char>>,
    second: Seq<Seq<char>>,
)
    requires
        first.to_set() == second.to_set(),
    ensures
        entry_kind(name, is_dir, first) == entry_kind(name, is_dir, second),
{
    match extension_of(name) {
        Some(ext) => {
            assert(first.contains(ext) <==> first.to_set().contains(ext));
            assert(second.contains(ext) <==> second.to_set().contains(ext));
        },
        None => {},
    }
}

} // verus!
