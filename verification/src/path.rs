//! Path arithmetic on plain strings, with `/` as the only separator.
//!
//! A path is modelled as its sequence of characters. Its file name is what
//! follows the last separator; the extension of a file name is what follows
//! its last dot, unless that dot is the name's first character.
//!
//! On the canonical path of a file (absolute or not, without a closing
//! separator and without `.` or `..` as its last component) the functions
//! here give what `std::path::Path` gives on a Unix system.

use vstd::prelude::*;

verus! {

/// The index just behind the last occurrence of `c` in `s`, or 0 if `c` does
/// not occur.
pub open spec fn after_last(s: Seq<char>, c: char) -> int
    decreases s.len(),
{
    if s.len() == 0 {
        0
    } else if s.last() == c {
        s.len() as int
    } else {
        after_last(s.drop_last(), c)
    }
}

/// Everything up to and including the last separator: the containing
/// directory, ready to have a file name appended.
pub open spec fn dir_prefix(p: Seq<char>) -> Seq<char> {
    p.take(after_last(p, '/'))
}

/// What follows the last separator.
pub open spec fn file_name(p: Seq<char>) -> Seq<char> {
    p.skip(after_last(p, '/'))
}

/// Whether the file name of `p` carries an extension.
pub open spec fn has_extension(p: Seq<char>) -> bool {
    after_last(file_name(p), '.') >= 2
}

/// The extension of the file name of `p`, without its dot.
pub open spec fn extension(p: Seq<char>) -> Option<Seq<char>> {
    let f = file_name(p);
    if has_extension(p) {
        Some(f.skip(after_last(f, '.')))
    } else {
        None
    }
}

/// The file name of `p` without its extension and the dot before it.
pub open spec fn file_stem(p: Seq<char>) -> Seq<char> {
    let f = file_name(p);
    if has_extension(p) {
        f.take(after_last(f, '.') - 1)
    } else {
        f
    }
}

/// `p` with the extension of its file name replaced by `ext`. A path without
/// a file name is left as it is.
pub open spec fn with_extension(p: Seq<char>, ext: Seq<char>) -> Seq<char> {
    if file_name(p).len() == 0 {
        p
    } else {
        dir_prefix(p) + file_stem(p) + seq!['.'] + ext
    }
}

/// The path of the file called `name` in the directory that holds `p`. A
/// `name` that starts at the root stands for itself.
pub open spec fn sibling(p: Seq<char>, name: Seq<char>) -> Seq<char> {
    if name.len() > 0 && name[0] == '/' {
        name
    } else {
        dir_prefix(p) + name
    }
}

/// `after_last` stays within the text, points just behind an occurrence of
/// `c` unless it is 0, and no `c` follows it.
pub proof fn lemma_after_last_bounds(s: Seq<char>, c: char)
    ensures
        0 <= after_last(s, c) <= s.len(),
        after_last(s, c) > 0 ==> s[after_last(s, c) - 1] == c,
        forall|i: int| after_last(s, c) <= i < s.len() ==> s[i] != c,
    decreases s.len(),
{
    if s.len() > 0 && s.last() != c {
        lemma_after_last_bounds(s.drop_last(), c);
        assert forall|i: int| after_last(s, c) <= i < s.len() implies s[i] != c by {
            if i < s.len() - 1 {
                assert(s.drop_last()[i] == s[i]);
            }
        }
    }
}

/// A path is its directory part followed by its file name, and the file
/// name holds no separator.
pub proof fn lemma_path_splits(p: Seq<char>)
    ensures
        dir_prefix(p) + file_name(p) == p,
        forall|i: int| 0 <= i < file_name(p).len() ==> file_name(p)[i] != '/',
{
    lemma_after_last_bounds(p, '/');
    assert(dir_prefix(p) + file_name(p) =~= p);
}

/// A file name with an extension is its stem, a dot and the extension, and
/// the extension holds no dot.
pub proof fn lemma_file_name_splits(p: Seq<char>)
    requires
        has_extension(p),
    ensures
        file_stem(p).len() > 0,
        file_stem(p) + seq!['.'] + extension(p)->0 == file_name(p),
        forall|i: int| 0 <= i < extension(p)->0.len() ==> extension(p)->0[i] != '.',
{
    lemma_after_last_bounds(file_name(p), '.');
    assert(file_stem(p) + seq!['.'] + extension(p)->0 =~= file_name(p));
}

/// Appending a text without `c` to a text that is empty or ends in `c`
/// leaves the last `c` where it was.
proof fn lemma_after_last_append(head: Seq<char>, tail: Seq<char>, c: char)
    requires
        head.len() > 0 ==> head.last() == c,
        forall|i: int| 0 <= i < tail.len() ==> tail[i] != c,
    ensures
        after_last(head + tail, c) == head.len(),
    decreases tail.len(),
{
    if tail.len() == 0 {
        assert(head + tail =~= head);
    } else {
        assert((head + tail).last() == tail.last());
        assert((head + tail).drop_last() =~= head + tail.drop_last());
        lemma_after_last_append(head, tail.drop_last(), c);
    }
}

/// A sibling stands in the same directory and carries the name it was
/// given, for every name without a separator.
pub proof fn lemma_sibling_parts(p: Seq<char>, name: Seq<char>)
    requires
        forall|i: int| 0 <= i < name.len() ==> name[i] != '/',
    ensures
        dir_prefix(sibling(p, name)) == dir_prefix(p),
        file_name(sibling(p, name)) == name,
{
    lemma_after_last_bounds(p, '/');
    lemma_after_last_append(dir_prefix(p), name, '/');
    assert(dir_prefix(sibling(p, name)) =~= dir_prefix(p));
    assert(file_name(sibling(p, name)) =~= name);
}

/// Replacing the extension keeps the directory and the stem: the new file
/// name is the old stem, a dot and the new extension, for every extension
/// without a separator or a dot.
pub proof fn lemma_with_extension_parts(p: Seq<char>, ext: Seq<char>)
    requires
        file_name(p).len() > 0,
        forall|i: int| 0 <= i < ext.len() ==> ext[i] != '/' && ext[i] != '.',
    ensures
        dir_prefix(with_extension(p, ext)) == dir_prefix(p),
        file_name(with_extension(p, ext)) == file_stem(p) + seq!['.'] + ext,
        file_stem(with_extension(p, ext)) == file_stem(p),
        extension(with_extension(p, ext)) == Some(ext),
{
    let name = file_stem(p) + seq!['.'] + ext;
    lemma_path_splits(p);
    lemma_after_last_bounds(file_name(p), '.');
    assert forall|i: int| 0 <= i < name.len() implies name[i] != '/' by {
        if i < file_stem(p).len() {
            assert(name[i] == file_name(p)[i]);
        }
    }
    lemma_after_last_bounds(p, '/');
    assert(with_extension(p, ext) =~= dir_prefix(p) + name);
    lemma_after_last_append(dir_prefix(p), name, '/');
    assert(dir_prefix(with_extension(p, ext)) =~= dir_prefix(p));
    assert(file_name(with_extension(p, ext)) =~= name);
    lemma_after_last_append(file_stem(p) + seq!['.'], ext, '.');
    assert((file_stem(p) + seq!['.']) + ext =~= name);
    assert(name.take(after_last(name, '.') - 1) =~= file_stem(p));
    assert(name.skip(after_last(name, '.')) =~= ext);
}

proof fn lemma_after_last_step(s: Seq<char>, c: char, i: int)
    requires
        0 <= i < s.len(),
    ensures
        after_last(s.take(i + 1), c) == if s[i] == c {
            i + 1
        } else {
            after_last(s.take(i), c)
        },
{
    assert(s.take(i + 1).drop_last() =~= s.take(i));
}

/// Position just behind the last `c` in `s`, counted in characters.
pub fn index_after_last(s: &str, c: char) -> (pos: usize)
    ensures
        pos == after_last(s@, c),
        pos <= s@.len(),
{
    let n: usize = s.unicode_len();
    let mut pos: usize = 0;
    let mut i: usize = 0;
    while i < n
        invariant
            n == s@.len(),
            i <= n,
            pos <= i,
            pos == after_last(s@.take(i as int), c),
        decreases n - i,
    {
        proof {
            lemma_after_last_step(s@, c, i as int);
        }
        if s.get_char(i) == c {
            pos = i + 1;
        }
        i = i + 1;
    }
    assert(s@.take(n as int) =~= s@);
    pos
}

/// The file name of `path`.
pub fn file_name_of(path: &str) -> (name: String)
    ensures
        name@ == file_name(path@),
{
    let n: usize = path.unicode_len();
    let start: usize = index_after_last(path, '/');
    let name = String::from_str(path.substring_char(start, n));
    assert(path@.subrange(start as int, n as int) =~= path@.skip(start as int));
    name
}

/// The directory part of `path`, with its closing separator.
pub fn dir_prefix_of(path: &str) -> (dir: String)
    ensures
        dir@ == dir_prefix(path@),
{
    let start: usize = index_after_last(path, '/');
    let dir = String::from_str(path.substring_char(0, start));
    assert(path@.subrange(0, start as int) =~= path@.take(start as int));
    dir
}

/// The extension of `path`, if its file name has one.
pub fn extension_of(path: &str) -> (ext: Option<String>)
    ensures
        ext is Some == has_extension(path@),
        ext is Some ==> Some(ext->0@) == extension(path@),
{
    let name = file_name_of(path);
    let n: usize = name.as_str().unicode_len();
    let dot: usize = index_after_last(name.as_str(), '.');
    if dot >= 2 {
        let ext = String::from_str(name.as_str().substring_char(dot, n));
        assert(name@.subrange(dot as int, n as int) =~= name@.skip(dot as int));
        Some(ext)
    } else {
        None
    }
}

/// The file name of `path` without its extension.
pub fn file_stem_of(path: &str) -> (stem: String)
    ensures
        stem@ == file_stem(path@),
{
    let name = file_name_of(path);
    let dot: usize = index_after_last(name.as_str(), '.');
    if dot >= 2 {
        let stem = String::from_str(name.as_str().substring_char(0, dot - 1));
        assert(name@.subrange(0, dot - 1) =~= name@.take(dot - 1));
        stem
    } else {
        name
    }
}

/// `path` with the extension of its file name replaced by `ext`.
pub fn with_extension_of(path: &str, ext: &str) -> (out: String)
    ensures
        out@ == with_extension(path@, ext@),
{
    let name = file_name_of(path);
    if name.as_str().unicode_len() == 0 {
        String::from_str(path)
    } else {
        let dir = dir_prefix_of(path);
        let stem = file_stem_of(path);
        proof {
            reveal_strlit(".");
            assert("."@ =~= seq!['.']);
        }
        dir.concat(stem.as_str()).concat(".").concat(ext)
    }
}

/// The path of the file called `name` beside `path`.
pub fn sibling_of(path: &str, name: &str) -> (out: String)
    ensures
        out@ == sibling(path@, name@),
{
    if name.unicode_len() > 0 && name.get_char(0) == '/' {
        String::from_str(name)
    } else {
        dir_prefix_of(path).concat(name)
    }
}

} // verus!
