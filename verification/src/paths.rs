//! The anatomy of file names and of paths written with `/`.

use crate::text::{chars_of, last_index_of, lemma_last_index_of, rfind, rfind_in, string_of};
use vstd::prelude::*;

verus! {

/// The extension of a file name: what follows its last dot. A name without
/// a dot, or whose only dot comes first, has none, which is the empty
/// sequence here.
pub open spec fn extension(name: Seq<char>) -> Seq<char> {
    let dot = last_index_of(name, '.');
    if dot <= 0 {
        Seq::empty()
    } else {
        name.skip(dot + 1)
    }
}

/// The stem of a file name: what precedes its last dot, or the whole name
/// where it has no extension.
pub open spec fn stem(name: Seq<char>) -> Seq<char> {
    let dot = last_index_of(name, '.');
    if dot <= 0 {
        name
    } else {
        name.take(dot)
    }
}

/// Where the components of a path begin: after the `/` of the root, or
/// after a `.` that leads the path, which stands for the current directory
/// and is kept.
pub open spec fn body_start(path: Seq<char>) -> int {
    if path.len() > 0 && path[0] == '/' {
        1
    } else if path.len() > 0 && path[0] == '.' && (path.len() == 1 || path[1] == '/') {
        1
    } else {
        0
    }
}

/// Where the last component of `path[begin..end]` begins, its `/`
/// included: at the last `/`, or at `begin` where there is none.
pub open spec fn last_component(path: Seq<char>, begin: int, end: int) -> int {
    let slash = last_index_of(path.subrange(begin, end), '/');
    if slash < 0 {
        begin
    } else {
        begin + slash
    }
}

/// Whether the last component of `path[begin..end]` says nothing: it is
/// empty, as after a repeated or trailing `/`, or it is `.`.
pub open spec fn ends_idle(path: Seq<char>, begin: int, end: int) -> bool {
    let slash = last_index_of(path.subrange(begin, end), '/');
    let name = path.subrange(begin + slash + 1, end);
    name.len() == 0 || name == seq!['.']
}

/// Where `path[..end]` ends once the components at its end that say
/// nothing are dropped, each with its `/`. Nothing before `begin` is
/// dropped.
pub open spec fn settled(path: Seq<char>, begin: int, end: int) -> int
    decreases end,
    via settled_decreases
{
    if 0 <= begin < end <= path.len() && ends_idle(path, begin, end) {
        settled(path, begin, last_component(path, begin, end))
    } else {
        end
    }
}

#[via_fn]
proof fn settled_decreases(path: Seq<char>, begin: int, end: int) {
    if 0 <= begin < end <= path.len() {
        lemma_last_index_of(path.subrange(begin, end), '/');
    }
}

/// What `settled` gives lies between `begin` and `end`, and the path that
/// ends there has a last component that says something, unless nothing is
/// left beyond `begin`.
pub proof fn lemma_settled(path: Seq<char>, begin: int, end: int)
    requires
        0 <= begin <= end <= path.len(),
    ensures
        begin <= settled(path, begin, end) <= end,
        settled(path, begin, end) > begin ==> !ends_idle(path, begin, settled(path, begin, end)),
    decreases end,
{
    if begin < end && ends_idle(path, begin, end) {
        lemma_last_index_of(path.subrange(begin, end), '/');
        lemma_settled(path, begin, last_component(path, begin, end));
    }
}

/// The last component of a path: what stands between the last `/` and the
/// end, once what says nothing at the end is dropped. A path that is all
/// root, or that ends in `..`, has none, which is the empty sequence here.
pub open spec fn base_name(path: Seq<char>) -> Seq<char> {
    let begin = body_start(path);
    let end = settled(path, begin, path.len() as int);
    let slash = last_index_of(path.subrange(begin, end), '/');
    let name = path.subrange(begin + slash + 1, end);
    if end <= begin || name == seq!['.', '.'] {
        Seq::empty()
    } else {
        name
    }
}

/// The directory that holds the last component of a path: the path up to
/// that component, without the `/` before it and without what says nothing
/// at its end, repeated separators and `.` components. A path of one
/// component lies in the empty directory, a component right under the root
/// lies in `/`, and the root lies in itself.
pub open spec fn directory(path: Seq<char>) -> Seq<char> {
    let begin = body_start(path);
    let end = settled(path, begin, path.len() as int);
    if end <= begin {
        if path.len() > 0 && path[0] == '/' {
            seq!['/']
        } else {
            Seq::empty()
        }
    } else {
        path.take(settled(path, begin, last_component(path, begin, end)))
    }
}

/// The path of `child` inside `dir`.
pub open spec fn joined(dir: Seq<char>, child: Seq<char>) -> Seq<char> {
    if dir.len() == 0 || dir.last() == '/' {
        dir + child
    } else {
        dir + seq!['/'] + child
    }
}

/// The extension of a file name, empty where it has none.
pub fn file_extension(name: &str) -> (ext: String)
    ensures
        ext@ == extension(name@),
{
    let chars = chars_of(name);
    match rfind(&chars, '.') {
        Some(dot) => {
            if dot == 0 {
                String::new()
            } else {
                proof {
                    lemma_last_index_of(chars@, '.');
                }
                string_of(&chars, dot + 1, chars.len())
            }
        },
        None => String::new(),
    }
}

/// The stem of a file name.
pub fn file_stem(name: &str) -> (stem_text: String)
    ensures
        stem_text@ == stem(name@),
{
    let chars = chars_of(name);
    match rfind(&chars, '.') {
        Some(dot) => {
            if dot == 0 {
                assert(chars@.subrange(0, chars@.len() as int) =~= chars@);
                string_of(&chars, 0, chars.len())
            } else {
                proof {
                    lemma_last_index_of(chars@, '.');
                }
                string_of(&chars, 0, dot)
            }
        },
        None => {
            assert(chars@.subrange(0, chars@.len() as int) =~= chars@);
            string_of(&chars, 0, chars.len())
        },
    }
}

/// Where the components of a path begin.
fn start_of_body(chars: &Vec<char>) -> (begin: usize)
    ensures
        begin == body_start(chars@),
        begin <= chars.len(),
{
    if chars.len() > 0 && chars[0] == '/' {
        1
    } else if chars.len() > 0 && chars[0] == '.' && (chars.len() == 1 || chars[1] == '/') {
        1
    } else {
        0
    }
}

/// Where the last component of `chars[begin..end]` begins, its `/`
/// included.
fn start_of_last(chars: &Vec<char>, begin: usize, end: usize) -> (at: usize)
    requires
        begin <= end <= chars.len(),
    ensures
        at == last_component(chars@, begin as int, end as int),
        begin <= at <= end,
        begin < end ==> at < end,
{
    match rfind_in(chars, begin, end, '/') {
        Some(slash) => slash,
        None => begin,
    }
}

/// Drops from `chars[..end]` the components at its end that say nothing.
fn settle(chars: &Vec<char>, begin: usize, end: usize) -> (settled_end: usize)
    requires
        begin <= chars.len(),
        end <= chars.len(),
    ensures
        settled_end == settled(chars@, begin as int, end as int),
        settled_end <= end,
        begin <= end ==> begin <= settled_end,
{
    let mut rest: usize = end;
    while begin < rest
        invariant
            begin <= chars.len(),
            rest <= end <= chars.len(),
            begin <= end ==> begin <= rest,
            settled(chars@, begin as int, rest as int) == settled(chars@, begin as int, end as int),
        decreases rest,
    {
        let name_at = match rfind_in(chars, begin, rest, '/') {
            Some(slash) => slash + 1,
            None => begin,
        };
        let idle = name_at == rest || (name_at + 1 == rest && chars[name_at] == '.');
        proof {
            let name = chars@.subrange(name_at as int, rest as int);
            if name_at + 1 == rest {
                assert(name =~= seq![chars@[name_at as int]]);
                if name == seq!['.'] {
                    assert(name[0] == '.');
                }
            } else if name_at < rest {
                assert(seq!['.'].len() == 1);
            }
            assert(idle == ends_idle(chars@, begin as int, rest as int));
        }
        if !idle {
            return rest;
        }
        rest = start_of_last(chars, begin, rest);
    }
    rest
}

/// The last component of a path.
pub fn file_name(path: &str) -> (name: String)
    ensures
        name@ == base_name(path@),
{
    let chars = chars_of(path);
    let begin = start_of_body(&chars);
    let end = settle(&chars, begin, chars.len());
    if end <= begin {
        return String::new();
    }
    let name_at = match rfind_in(&chars, begin, end, '/') {
        Some(slash) => slash + 1,
        None => begin,
    };
    let ghost name = chars@.subrange(name_at as int, end as int);
    if end - name_at == 2 && chars[name_at] == '.' && chars[name_at + 1] == '.' {
        assert(name =~= seq!['.', '.']);
        String::new()
    } else {
        proof {
            if name == seq!['.', '.'] {
                assert(name.len() == 2);
                assert(name[0] == '.' && name[1] == '.');
            }
        }
        string_of(&chars, name_at, end)
    }
}

/// The directory that holds the last component of a path.
pub fn parent(path: &str) -> (dir: String)
    ensures
        dir@ == directory(path@),
{
    let chars = chars_of(path);
    let begin = start_of_body(&chars);
    let end = settle(&chars, begin, chars.len());
    if end <= begin {
        if chars.len() > 0 && chars[0] == '/' {
            assert(chars@.subrange(0, 1) =~= seq!['/']);
            string_of(&chars, 0, 1)
        } else {
            String::new()
        }
    } else {
        let cut = settle(&chars, begin, start_of_last(&chars, begin, end));
        string_of(&chars, 0, cut)
    }
}

/// The path of `child` inside `dir`.
pub fn join(dir: &str, child: &str) -> (path: String)
    ensures
        path@ == joined(dir@, child@),
{
    let chars = chars_of(dir);
    let mut path = String::from_str(dir);
    if chars.len() > 0 && chars[chars.len() - 1] != '/' {
        proof {
            reveal_strlit("/");
            assert("/"@ =~= seq!['/']);
        }
        path.append("/");
    }
    path.append(child);
    path
}

} // verus!
