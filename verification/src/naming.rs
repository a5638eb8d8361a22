//! File names: stem, extension, and the timestamp suffix of a stem.

use vstd::prelude::*;
use vstd::string::*;
use crate::timestamp::{is_timestamp, Timestamp};

verus! {

/// Index of the last `.` of `name`, or -1 if it has none.
pub open spec fn last_dot(name: Seq<char>) -> int
    decreases name.len(),
{
    if name.len() == 0 {
        -1
    } else if name.last() == '.' {
        name.len() - 1
    } else {
        last_dot(name.drop_last())
    }
}

/// Whether `name` has a `.`, and so an extension, which may be empty.
pub open spec fn has_extension(name: Seq<char>) -> bool {
    last_dot(name) >= 0
}

/// What stands before the last `.` of the name; the whole name if it has
/// no `.`.
pub open spec fn file_stem(name: Seq<char>) -> Seq<char> {
    if has_extension(name) {
        name.take(last_dot(name))
    } else {
        name
    }
}

/// What follows the last `.` of the name; empty if it has no `.`.
pub open spec fn file_extension(name: Seq<char>) -> Seq<char> {
    if has_extension(name) {
        name.skip(last_dot(name) + 1)
    } else {
        Seq::empty()
    }
}

/// Whether `stem` ends in an underscore followed by a timestamp.
pub open spec fn has_timestamp_suffix(stem: Seq<char>) -> bool {
    &&& stem.len() >= 14
    &&& stem[stem.len() - 14] == '_'
    &&& is_timestamp(stem.skip(stem.len() - 13))
}

/// The regular expression for a timestamp suffix at the end of a stem.
pub const SUFFIX_PATTERN: &'static str = "_([0-9]{8}_[0-9]{4})$";

/// The name with `_` and the timestamp put between stem and extension. The
/// `.` before the extension is always written, also where the extension is
/// empty.
pub open spec fn stamped(name: Seq<char>, stamp: Seq<char>) -> Seq<char> {
    file_stem(name) + seq!['_'] + stamp + seq!['.'] + file_extension(name)
}

/// `last_dot` points at a `.`, and no `.` follows it.
pub proof fn lemma_last_dot(name: Seq<char>)
    ensures
        -1 <= last_dot(name) < name.len(),
        last_dot(name) >= 0 ==> name[last_dot(name)] == '.',
        forall|j: int| last_dot(name) < j < name.len() ==> name[j] != '.',
    decreases name.len(),
{
    if name.len() > 0 && name.last() != '.' {
        let front = name.drop_last();
        lemma_last_dot(front);
        assert forall|j: int| last_dot(name) < j < name.len() implies name[j] != '.' by {
            if j < front.len() {
                assert(name[j] == front[j]);
            }
        }
    }
}

/// A `.` that no `.` follows is the last one.
pub proof fn lemma_last_dot_at(name: Seq<char>, i: int)
    requires
        0 <= i < name.len(),
        name[i] == '.',
        forall|j: int| i < j < name.len() ==> name[j] != '.',
    ensures
        last_dot(name) == i,
{
    lemma_last_dot(name);
}

/// Stem, `.` and extension make up a name that has an extension; without
/// one the stem is the whole name. The extension holds no `.`.
pub proof fn lemma_split(name: Seq<char>)
    ensures
        has_extension(name) ==> name == file_stem(name) + seq!['.'] + file_extension(name),
        !has_extension(name) ==> name == file_stem(name) && file_extension(name).len() == 0,
        forall|j: int| 0 <= j < file_extension(name).len() ==> file_extension(name)[j] != '.',
{
    lemma_last_dot(name);
    if has_extension(name) {
        assert(name =~= file_stem(name) + seq!['.'] + file_extension(name));
    }
}

fn find_last_dot(name: &str) -> (found: Option<usize>)
    ensures
        match found {
            Some(i) => i == last_dot(name@),
            None => last_dot(name@) == -1,
        },
{
    let n: usize = name.unicode_len();
    let mut found: Option<usize> = None;
    let mut i: usize = 0;
    for c in it: name.chars()
        invariant
            n == name@.len(),
            it.seq() == name@,
            i == it.index(),
            match found {
                Some(k) => k == last_dot(name@.take(i as int)),
                None => last_dot(name@.take(i as int)) == -1,
            },
    {
        assert(name@.take(i + 1).drop_last() =~= name@.take(i as int));
        if c == '.' {
            found = Some(i);
        }
        i += 1;
    }
    assert(name@.take(n as int) =~= name@);
    found
}

/// Splits a file name into stem and extension.
pub fn split_file_name<'a>(name: &'a str) -> (parts: (&'a str, &'a str))
    ensures
        parts.0@ == file_stem(name@),
        parts.1@ == file_extension(name@),
{
    let n: usize = name.unicode_len();
    proof {
        lemma_last_dot(name@);
    }
    match find_last_dot(name) {
        Some(i) => (name.substring_char(0, i), name.substring_char(i + 1, n)),
        None => {
            assert(name@.subrange(0, n as int) =~= name@);
            assert(name@.subrange(n as int, n as int) =~= Seq::<char>::empty());
            (name.substring_char(0, n), name.substring_char(n, n))
        },
    }
}

/// `regex::Regex::new` and `Regex::is_match`: whether the regular
/// expression `pattern` matches anywhere in `text`.
///
/// The contract reads the one pattern that it admits: `_`, eight of `[0-9]`,
/// `_`, four of `[0-9]`, and `$`, which matches at the end of the text
/// only. The group changes nothing for a search, and `[0-9]` holds the ASCII
/// digits alone. The pattern compiles, so the result is never `None`.
#[verifier::external_body]
fn search(pattern: &str, text: &str) -> (found: Option<bool>)
    requires
        pattern@ == SUFFIX_PATTERN@,
    ensures
        found == Some(has_timestamp_suffix(text@)),
{
    match regex::Regex::new(pattern) {
        Ok(re) => Some(re.is_match(text)),
        Err(_) => None,
    }
}

/// Whether `stem` already ends in a timestamp suffix.
pub fn is_stamped(stem: &str) -> (found: bool)
    ensures
        found == has_timestamp_suffix(stem@),
{
    search(SUFFIX_PATTERN, stem).unwrap()
}

/// Builds the name that carries `stamp` before its extension.
pub fn stamped_name(name: &str, stamp: &Timestamp) -> (renamed: String)
    ensures
        renamed@ == stamped(name@, stamp@),
{
    proof {
        reveal_strlit("_");
        reveal_strlit(".");
    }
    let (stem, extension) = split_file_name(name);
    let mut renamed: String = String::from_str(stem);
    renamed.append("_");
    renamed.append(stamp.as_str());
    renamed.append(".");
    renamed.append(extension);
    assert(renamed@ =~= stamped(name@, stamp@));
    renamed
}

/// Putting a timestamp into a name changes the stem only: the new stem is
/// the old one with `_` and the timestamp behind it, and the extension
/// stays.
pub proof fn lemma_stamped_parts(name: Seq<char>, stamp: Seq<char>)
    requires
        is_timestamp(stamp),
    ensures
        has_extension(stamped(name, stamp)),
        file_stem(stamped(name, stamp)) == file_stem(name) + seq!['_'] + stamp,
        file_extension(stamped(name, stamp)) == file_extension(name),
{
    let stem = file_stem(name);
    let extension = file_extension(name);
    let renamed = stamped(name, stamp);
    let dot: int = stem.len() as int + 14;
    lemma_split(name);
    assert(renamed[dot] == '.');
    assert forall|j: int| dot < j < renamed.len() implies renamed[j] != '.' by {
        assert(renamed[j] == extension[j - dot - 1]);
    }
    lemma_last_dot_at(renamed, dot);
    assert(renamed.take(dot) =~= stem + seq!['_'] + stamp);
    assert(renamed.skip(dot + 1) =~= extension);
}

/// The timestamp stands right before the extension of a stamped name:
/// the stem of the new name ends in `_` and the timestamp.
pub proof fn lemma_stamped_has_suffix(name: Seq<char>, stamp: Seq<char>)
    requires
        is_timestamp(stamp),
    ensures
        has_timestamp_suffix(file_stem(stamped(name, stamp))),
{
    lemma_stamped_parts(name, stamp);
    let stem = file_stem(name) + seq!['_'] + stamp;
    assert(stem.skip(stem.len() - 13) =~= stamp);
}

} // verus!
