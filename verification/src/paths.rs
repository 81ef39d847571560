//! File paths as text, with `/` between components.

use crate::text::{self, chars_of, is_blank, rsplit_after, rsplit_before, same, text_between};
use vstd::prelude::*;
use vstd::string::*;

verus! {

/// A path below a directory.
pub open spec fn path_below(dir: Seq<char>, name: Seq<char>) -> Seq<char> {
    if dir.len() == 0 {
        name
    } else if dir.last() == '/' {
        dir + name
    } else {
        dir + "/"@ + name
    }
}

pub fn join_path(dir: &str, name: &str) -> (r: String)
    ensures
        r@ == path_below(dir@, name@),
{
    let chars = chars_of(dir);
    if chars.len() == 0 {
        name.to_owned()
    } else if chars[chars.len() - 1] == '/' {
        dir.to_owned().concat(name)
    } else {
        dir.to_owned().concat("/").concat(name)
    }
}

/// A path without the separators and the components `.` at its end.
pub open spec fn without_trail(p: Seq<char>) -> Seq<char>
    decreases p.len(),
{
    if p.len() > 0 && p.last() == '/' {
        without_trail(p.drop_last())
    } else if p.len() > 1 && p.last() == '.' && p[p.len() - 2] == '/' {
        without_trail(p.drop_last())
    } else {
        p
    }
}

/// The last component of a path, if it names a file or directory.
pub open spec fn file_name_of(p: Seq<char>) -> Option<Seq<char>> {
    let base = without_trail(p);
    let name = match text::after_last(base, '/') {
        Some(n) => n,
        None => base,
    };
    if name.len() == 0 || name == "."@ || name == ".."@ {
        None
    } else {
        Some(name)
    }
}

/// A file name without its extension; a leading dot starts no extension.
pub open spec fn stem_of(name: Seq<char>) -> Seq<char> {
    match text::last_position(name, '.') {
        Some(i) => if i > 0 {
            name.take(i)
        } else {
            name
        },
        None => name,
    }
}

/// The file name at the end of a path, without its extension.
pub open spec fn file_stem_of(p: Seq<char>) -> Option<Seq<char>> {
    match file_name_of(p) {
        Some(n) => Some(stem_of(n)),
        None => None,
    }
}

fn cut_trail(path: &str) -> (r: String)
    ensures
        r@ == without_trail(path@),
{
    let chars = chars_of(path);
    let mut n: usize = chars.len();
    assert(chars@.take(n as int) =~= path@);
    while n > 0 && (chars[n - 1] == '/' || (n > 1 && chars[n - 1] == '.' && chars[n - 2] == '/'))
        invariant
            n <= chars@.len(),
            chars@ == path@,
            without_trail(path@) == without_trail(chars@.take(n as int)),
        decreases n,
    {
        assert(chars@.take(n as int).drop_last() =~= chars@.take(n - 1));
        n -= 1;
    }
    assert(chars@.subrange(0, n as int) =~= chars@.take(n as int));
    text_between(&chars, 0, n)
}

/// The file name at the end of a path.
pub fn file_name(path: &str) -> (r: Option<String>)
    ensures
        text::text_opt(r) == file_name_of(path@),
{
    let base = cut_trail(path);
    let name = match rsplit_after(&base, '/') {
        Some(n) => n,
        None => base,
    };
    if is_blank(&name) || same(&name, ".") || same(&name, "..") {
        None
    } else {
        Some(name)
    }
}

/// The file name at the end of a path, without its extension.
pub fn file_stem(path: &str) -> (r: Option<String>)
    ensures
        text::text_opt(r) == file_stem_of(path@),
{
    match file_name(path) {
        None => None,
        Some(name) => {
            proof {
                text::lemma_last_position(name@, '.');
            }
            match rsplit_before(&name, '.') {
                Some(stem) => if is_blank(&stem) {
                    Some(name)
                } else {
                    Some(stem)
                },
                None => Some(name),
            }
        },
    }
}

/// A path below a directory has one slash between the two, and none before a name alone.
pub proof fn law_path_below(dir: Seq<char>, name: Seq<char>)
    ensures
        path_below(Seq::empty(), name) == name,
        path_below(dir + seq!['/'], name) == dir + seq!['/'] + name,
        dir.len() > 0 && dir.last() != '/' ==> path_below(dir, name) == dir + seq!['/'] + name,
{
    reveal_strlit("/");
    assert("/"@ =~= seq!['/']);
    assert((dir + seq!['/']).last() == '/');
}

/// The stem of a file is its name up to the last dot, and the whole name where that is the
/// first character or missing.
pub proof fn law_file_stem(dir: Seq<char>, name: Seq<char>, extension: Seq<char>)
    requires
        name.len() > 0,
        extension.len() > 0,
        forall|i: int| 0 <= i < name.len() ==> #[trigger] name[i] != '/',
        forall|i: int|
            0 <= i < extension.len() ==> #[trigger] extension[i] != '/' && extension[i] != '.',
    ensures
        file_stem_of(dir + seq!['/'] + name + seq!['.'] + extension) == Some(name),
{
    reveal_strlit(".");
    reveal_strlit("..");
    let file = name + seq!['.'] + extension;
    let p = dir + seq!['/'] + name + seq!['.'] + extension;
    assert(p.last() == extension.last());
    assert(extension.last() == extension[extension.len() - 1]);
    assert(without_trail(p) == p);
    lemma_last_at(p, '/', dir.len() as int);
    assert(p.skip(dir.len() as int + 1) =~= file);
    lemma_last_at(file, '.', name.len() as int);
    assert(file.take(name.len() as int) =~= name);
    assert(file[name.len() as int] == '.');
    assert(file.len() >= 3);
}

proof fn lemma_last_at(s: Seq<char>, c: char, at: int)
    requires
        0 <= at < s.len(),
        s[at] == c,
        forall|i: int| at < i < s.len() ==> #[trigger] s[i] != c,
    ensures
        text::last_position(s, c) == Some(at),
    decreases s.len(),
{
    if at < s.len() - 1 {
        assert(s.last() == s[s.len() - 1]);
        lemma_last_at(s.drop_last(), c, at);
    }
}

} // verus!
