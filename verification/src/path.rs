//! Paths, written with `/` between their components. Where a machine writes them in another way,
//! they are handed over in this form; any other character is part of a name.
use vstd::prelude::*;

use crate::text;

verus! {

/// The place of the last `c` in `s`, or -1.
pub open spec fn last_index(s: Seq<char>, c: char) -> int
    decreases s.len(),
{
    if s.len() == 0 {
        -1
    } else if s.last() == c {
        s.len() - 1
    } else {
        last_index(s.drop_last(), c)
    }
}

/// The last component of a path that is neither empty nor `.`, or nothing.
pub open spec fn last_component(path: Seq<char>) -> Seq<char>
    decreases path.len(),
{
    let slash = last_index(path, '/');
    let component = path.skip(slash + 1);
    if component.len() > 0 && component != seq!['.'] {
        component
    } else if 0 <= slash < path.len() {
        last_component(path.take(slash))
    } else {
        Seq::empty()
    }
}

/// The file name that a path ends in. A path that ends in `..`, or that has no component at all,
/// has none.
pub open spec fn file_name_of(path: Seq<char>) -> Option<Seq<char>> {
    let component = last_component(path);
    if component.len() == 0 || component == seq!['.', '.'] {
        None
    } else {
        Some(component)
    }
}

/// What follows the last dot of a file name. A dot at the very beginning does not count.
pub open spec fn extension_of(path: Seq<char>) -> Option<Seq<char>> {
    match file_name_of(path) {
        Some(name) => if last_index(name, '.') > 0 {
            Some(name.skip(last_index(name, '.') + 1))
        } else {
            None
        },
        None => None,
    }
}

proof fn lemma_last_index(s: Seq<char>, c: char, i: int)
    requires
        -1 <= i < s.len(),
        i >= 0 ==> s[i] == c,
        forall|j: int| i < j < s.len() ==> s[j] != c,
    ensures
        last_index(s, c) == i,
    decreases s.len(),
{
    if i < s.len() - 1 {
        lemma_last_index(s.drop_last(), c, i);
    }
}

/// The number of characters up to and with the last `c` among the first `end`.
fn after_last(cs: &Vec<char>, end: usize, c: char) -> (r: usize)
    requires
        end <= cs@.len(),
    ensures
        r <= end,
        r == last_index(cs@.take(end as int), c) + 1,
{
    let mut i: usize = end;
    while i > 0 && cs[i - 1] != c
        invariant
            i <= end <= cs@.len(),
            forall|j: int| i <= j < end ==> cs@[j] != c,
        decreases i,
    {
        i -= 1;
    }
    proof {
        lemma_last_index(cs@.take(end as int), c, i - 1);
    }
    i
}

/// The file name that a path ends in.
pub fn file_name(path: &str) -> (r: Option<&str>)
    ensures
        match r {
            Some(name) => file_name_of(path@) == Some(name@),
            None => file_name_of(path@) is None,
        },
{
    let cs: Vec<char> = text::chars(path);
    let mut end: usize = cs.len();
    assert(cs@.take(end as int) == cs@);
    loop
        invariant
            end <= cs@.len(),
            cs@ == path@,
            last_component(path@) == last_component(cs@.take(end as int)),
        decreases end,
    {
        let start: usize = after_last(&cs, end, '/');
        let ghost head = cs@.take(end as int);
        let ghost component = head.skip(start as int);
        assert(component == cs@.subrange(start as int, end as int));
        if start < end && !(end - start == 1 && cs[start] == '.') {
            assert(component != seq!['.']) by {
                assert(component[0] == cs@[start as int]);
            }
            assert(last_component(path@) == component);
            if end - start == 2 && cs[start] == '.' && cs[start + 1] == '.' {
                assert(component == seq!['.', '.']);
                return None;
            }
            assert(component != seq!['.', '.']) by {
                if component.len() == 2 {
                    assert(component[0] == cs@[start as int]);
                    assert(component[1] == cs@[start + 1]);
                }
            }
            return Some(path.substring_char(start, end));
        }
        assert(component.len() == 0 || component == seq!['.']);
        if start == 0 {
            return None;
        }
        assert(head.take(start - 1) == cs@.take(start - 1));
        end = start - 1;
    }
}

/// What follows the last dot of the file name that a path ends in.
pub fn extension(path: &str) -> (r: Option<&str>)
    ensures
        match r {
            Some(ext) => extension_of(path@) == Some(ext@),
            None => extension_of(path@) is None,
        },
{
    match file_name(path) {
        Some(name) => {
            let cs: Vec<char> = text::chars(name);
            assert(cs@.take(cs@.len() as int) == cs@);
            let start: usize = after_last(&cs, cs.len(), '.');
            if start <= 1 {
                return None;
            }
            assert(cs@.skip(start as int) == cs@.subrange(start as int, cs@.len() as int));
            Some(name.substring_char(start, cs.len()))
        },
        None => None,
    }
}

/// The path of `name` in a directory.
pub open spec fn joined(dir: Seq<char>, name: Seq<char>) -> Seq<char> {
    if dir.len() == 0 || dir.last() == '/' {
        dir + name
    } else {
        dir + seq!['/'] + name
    }
}

/// The path of `name` in a directory.
pub fn join(dir: &str, name: &str) -> (r: String)
    ensures
        r@ == joined(dir@, name@),
{
    let mut out: String = dir.to_owned();
    let n: usize = dir.unicode_len();
    if n > 0 && dir.get_char(n - 1) != '/' {
        proof {
            reveal_strlit("/");
        }
        assert("/"@ == seq!['/']);
        out.append("/");
    }
    out.append(name);
    out
}

/// A file name is found at the end of a path, in whatever directory it lies and whether or not a
/// slash or a dot follows it.
pub proof fn file_names_end_paths(dir: Seq<char>, name: Seq<char>)
    requires
        name.len() > 0,
        forall|i: int| 0 <= i < name.len() ==> name[i] != '/',
        name != seq!['.'],
        name != seq!['.', '.'],
    ensures
        file_name_of(name) == Some(name),
        file_name_of(dir + seq!['/'] + name) == Some(name),
        file_name_of(name + seq!['/']) == Some(name),
        file_name_of(dir + seq!['/'] + name + seq!['/']) == Some(name),
        file_name_of(name + seq!['/', '.']) == Some(name),
{
    lemma_last_index(name, '/', -1);
    assert(name.skip(0) =~= name);
    let path = dir + seq!['/'] + name;
    lemma_last_index(path, '/', dir.len() as int);
    assert(path.skip(dir.len() as int + 1) =~= name);
    closing_slashes_do_not_count(name);
    closing_slashes_do_not_count(path);
}

/// A slash at the end of a path does not change the file name, nor does a slash with a dot.
pub proof fn closing_slashes_do_not_count(path: Seq<char>)
    ensures
        file_name_of(path + seq!['/']) == file_name_of(path),
        file_name_of(path + seq!['/', '.']) == file_name_of(path),
{
    let a = path + seq!['/'];
    lemma_last_index(a, '/', path.len() as int);
    assert(a.skip(path.len() as int + 1).len() == 0);
    assert(a.take(path.len() as int) =~= path);
    let b = path + seq!['/', '.'];
    lemma_last_index(b, '/', path.len() as int);
    assert(b.skip(path.len() as int + 1) =~= seq!['.']);
    assert(b.take(path.len() as int) =~= path);
}

/// A path that leads up, or nowhere, has no file name and no extension.
pub proof fn paths_without_file_name(dir: Seq<char>)
    ensures
        file_name_of(Seq::empty()) is None,
        file_name_of(seq!['.', '.']) is None,
        file_name_of(dir + seq!['/', '.', '.']) is None,
        extension_of(dir + seq!['/', '.', '.']) is None,
{
    let empty = Seq::<char>::empty();
    lemma_last_index(empty, '/', -1);
    assert(empty.skip(0) =~= empty);
    let up = seq!['.', '.'];
    lemma_last_index(up, '/', -1);
    assert(up.skip(0) =~= up);
    let path = dir + seq!['/', '.', '.'];
    lemma_last_index(path, '/', dir.len() as int);
    assert(path.skip(dir.len() as int + 1) =~= up);
}

/// The extension is what follows the last dot of the file name, if something stands in front of
/// that dot.
pub proof fn extensions_end_file_names(dir: Seq<char>, stem: Seq<char>, ext: Seq<char>)
    requires
        stem.len() > 0,
        forall|i: int| 0 <= i < stem.len() ==> stem[i] != '/',
        forall|i: int| 0 <= i < ext.len() ==> ext[i] != '/' && ext[i] != '.',
        stem + seq!['.'] + ext != seq!['.', '.'],
    ensures
        extension_of(stem + seq!['.'] + ext) == Some(ext),
        extension_of(dir + seq!['/'] + (stem + seq!['.'] + ext)) == Some(ext),
{
    let name = stem + seq!['.'] + ext;
    file_names_end_paths(dir, name);
    lemma_last_index(name, '.', stem.len() as int);
    assert(name.skip(stem.len() as int + 1) =~= ext);
}

/// A file name without a dot has no extension, and a dot in front of it makes none.
pub proof fn names_without_extension(name: Seq<char>)
    requires
        name.len() > 0,
        forall|i: int| 0 <= i < name.len() ==> name[i] != '/' && name[i] != '.',
    ensures
        extension_of(name) is None,
        extension_of(seq!['.'] + name) is None,
{
    file_names_end_paths(name, name);
    lemma_last_index(name, '.', -1);
    let hidden = seq!['.'] + name;
    assert(hidden[1] == name[0]);
    file_names_end_paths(name, hidden);
    lemma_last_index(hidden, '.', 0);
}

/// A name is put behind its directory with one slash between them.
pub proof fn joined_with_one_slash(dir: Seq<char>, name: Seq<char>)
    ensures
        joined(dir.push('/'), name) == dir + seq!['/'] + name,
        dir.len() > 0 && dir.last() != '/' ==> joined(dir, name) == dir + seq!['/'] + name,
        joined(Seq::empty(), name) == name,
{
    assert(joined(dir.push('/'), name) =~= dir + seq!['/'] + name);
    assert(joined(Seq::empty(), name) =~= name);
}

} // verus!
