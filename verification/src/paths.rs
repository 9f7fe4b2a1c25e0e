use vstd::prelude::*;
use vstd::string::*;

verus! {

/// A path is absolute when it begins with a separator.
pub open spec fn is_absolute_path(s: Seq<char>) -> bool {
    s.len() > 0 && s[0] == '/'
}

/// A relative path names the current directory first: it is `.` alone, or
/// begins with `./`. Such a leading entry is kept, while `.` anywhere else
/// in a path says nothing and is dropped.
pub open spec fn has_leading_cur_dir(s: Seq<char>) -> bool {
    &&& !is_absolute_path(s)
    &&& s.len() > 0
    &&& s[0] == '.'
    &&& (s.len() == 1 || s[1] == '/')
}

/// A finished run of non-separator characters, as the entries it contributes:
/// none when the run is empty or is the no-op entry `.`, else the run itself.
pub open spec fn close_component(cur: Seq<char>) -> Seq<Seq<char>> {
    if cur.len() == 0 || cur == seq!['.'] {
        Seq::empty()
    } else {
        seq![cur]
    }
}

/// The entries of `s`, read left to right with `cur` the run of
/// non-separator characters already seen.
pub open spec fn components_from(s: Seq<char>, cur: Seq<char>) -> Seq<Seq<char>>
    decreases s.len(),
{
    if s.len() == 0 {
        close_component(cur)
    } else if s[0] == '/' {
        close_component(cur) + components_from(s.drop_first(), Seq::empty())
    } else {
        components_from(s.drop_first(), cur.push(s[0]))
    }
}

/// The entries of a path: maximal runs of non-separator characters, with
/// empty runs (from repeated or trailing separators) and `.` runs dropped.
pub open spec fn path_components(s: Seq<char>) -> Seq<Seq<char>> {
    components_from(s, Seq::empty())
}

/// Two paths name the same location when they agree on absoluteness, on a
/// leading `.`, and on their entries. This is how the standard library
/// compares paths: `a/b/`, `a//b` and `a/./b` all equal `a/b`, while `./a`,
/// `/a` and `a` are pairwise distinct.
pub open spec fn same_path(a: Seq<char>, b: Seq<char>) -> bool {
    &&& is_absolute_path(a) == is_absolute_path(b)
    &&& has_leading_cur_dir(a) == has_leading_cur_dir(b)
    &&& path_components(a) == path_components(b)
}

/// Appending one entry to a directory path: a separator goes between them
/// unless the directory is empty or already ends with one.
pub open spec fn joined_path(dir: Seq<char>, name: Seq<char>) -> Seq<char> {
    if dir.len() == 0 {
        name
    } else if dir.last() == '/' {
        dir + name
    } else {
        dir + seq!['/'] + name
    }
}

pub fn is_absolute(s: &str) -> (r: bool)
    ensures
        r == is_absolute_path(s@),
{
    let n: usize = s.unicode_len();
    n > 0 && s.get_char(0) == '/'
}

pub fn leading_cur_dir(s: &str) -> (r: bool)
    ensures
        r == has_leading_cur_dir(s@),
{
    let n: usize = s.unicode_len();
    if n == 0 {
        return false;
    }
    let c0 = s.get_char(0);
    if c0 == '/' || c0 != '.' {
        return false;
    }
    n == 1 || s.get_char(1) == '/'
}

/// Closes the run `s[start..end]` and pushes the entry it contributes, if
/// any, onto `comps`.
fn push_component(comps: &mut Vec<String>, s: &str, start: usize, end: usize)
    requires
        start <= end <= s@.len(),
    ensures
        final(comps).deep_view() == old(comps).deep_view() + close_component(
            s@.subrange(start as int, end as int),
        ),
{
    let ghost cur = s@.subrange(start as int, end as int);
    if end > start {
        let piece = s.substring_char(start, end);
        let is_dot = end - start == 1 && piece.get_char(0) == '.';
        if is_dot {
            proof {
                assert(cur =~= seq!['.']);
                assert(comps.deep_view() =~= comps.deep_view() + close_component(cur));
            }
        } else {
            proof {
                if end - start == 1 {
                    assert(cur[0] != '.');
                    assert(cur != seq!['.']);
                } else {
                    assert(cur.len() != seq!['.'].len());
                }
            }
            comps.push(String::from_str(piece));
            proof {
                assert(comps.deep_view() =~= old(comps).deep_view() + close_component(cur));
            }
        }
    } else {
        proof {
            assert(cur.len() == 0);
            assert(comps.deep_view() =~= comps.deep_view() + close_component(cur));
        }
    }
}

/// The entries of `s`, each as its own string, exactly as `path_components`
/// names them.
pub fn split_components(s: &str) -> (comps: Vec<String>)
    ensures
        comps.deep_view() == path_components(s@),
{
    let n: usize = s.unicode_len();
    let mut comps: Vec<String> = Vec::new();
    let mut start: usize = 0;
    let mut i: usize = 0;
    proof {
        assert(s@.subrange(0, n as int) =~= s@);
        assert(s@.subrange(0, 0) =~= Seq::<char>::empty());
        assert(comps.deep_view() =~= Seq::<Seq<char>>::empty());
        assert(comps.deep_view() + components_from(s@, Seq::empty()) =~= path_components(s@));
    }
    while i < n
        invariant
            n == s@.len(),
            start <= i <= n,
            comps.deep_view() + components_from(
                s@.subrange(i as int, n as int),
                s@.subrange(start as int, i as int),
            ) == path_components(s@),
        decreases n - i,
    {
        let ghost cur = s@.subrange(start as int, i as int);
        let ghost rest = s@.subrange(i as int, n as int);
        proof {
            assert(rest[0] == s@[i as int]);
            assert(rest.drop_first() =~= s@.subrange(i as int + 1, n as int));
        }
        let c = s.get_char(i);
        if c == '/' {
            proof {
                assert(components_from(rest, cur) == close_component(cur) + components_from(
                    rest.drop_first(),
                    Seq::empty(),
                ));
            }
            push_component(&mut comps, s, start, i);
            proof {
                assert(comps.deep_view() + components_from(
                    s@.subrange(i as int + 1, n as int),
                    Seq::empty(),
                ) =~= path_components(s@));
                assert(s@.subrange(i as int + 1, i as int + 1) =~= Seq::<char>::empty());
            }
            start = i + 1;
        } else {
            proof {
                assert(cur.push(s@[i as int]) =~= s@.subrange(start as int, i as int + 1));
            }
        }
        i = i + 1;
    }
    proof {
        assert(s@.subrange(n as int, n as int) =~= Seq::<char>::empty());
    }
    push_component(&mut comps, s, start, n);
    proof {
        assert(comps.deep_view() =~= path_components(s@));
    }
    comps
}

fn string_seqs_equal(x: &Vec<String>, y: &Vec<String>) -> (r: bool)
    ensures
        r == (x.deep_view() == y.deep_view()),
{
    if x.len() != y.len() {
        proof {
            assert(x.deep_view().len() != y.deep_view().len());
        }
        return false;
    }
    let mut i: usize = 0;
    while i < x.len()
        invariant
            i <= x@.len(),
            x@.len() == y@.len(),
            forall|j: int| 0 <= j < i ==> x.deep_view()[j] == y.deep_view()[j],
        decreases x@.len() - i,
    {
        if !(x[i] == y[i]) {
            proof {
                assert(x.deep_view()[i as int] != y.deep_view()[i as int]);
            }
            return false;
        }
        i = i + 1;
    }
    proof {
        assert(x.deep_view() =~= y.deep_view());
    }
    true
}

/// Whether two paths name the same location, in the sense of `same_path`.
pub fn paths_equal(a: &str, b: &str) -> (r: bool)
    ensures
        r == same_path(a@, b@),
{
    if is_absolute(a) != is_absolute(b) {
        return false;
    }
    if leading_cur_dir(a) != leading_cur_dir(b) {
        return false;
    }
    let ca = split_components(a);
    let cb = split_components(b);
    string_seqs_equal(&ca, &cb)
}

/// Appends the entry `name` to the directory path `dir`, in the sense of
/// `joined_path`: with a separator between them unless `dir` is empty or
/// already ends with one.
pub fn join_entry(dir: &str, name: &str) -> (r: String)
    ensures
        r@ == joined_path(dir@, name@),
{
    let n: usize = dir.unicode_len();
    if n == 0 {
        String::from_str(name)
    } else if dir.get_char(n - 1) == '/' {
        String::from_str(dir).concat(name)
    } else {
        proof {
            reveal_strlit("/");
        }
        let with_sep = String::from_str(dir).concat("/");
        proof {
            assert(with_sep@ =~= dir@ + seq!['/']);
        }
        with_sep.concat(name)
    }
}

} // verus!
