//! Verified lexical path handling: joining, parent directories, file
//! names and extensions, all over plain path strings, together with
//! the trusted cleanup step.
use vstd::prelude::*;

use crate::text::{
    chars_of, eq_chars, find_last_char, last_index_of, lemma_last_index_of, str_concat, string_of,
    sub_chars,
};

verus! {

/// What path_clean::clean returns for the given path text; the
/// cleanup is lexical, a function of the characters alone.
pub uninterp spec fn cleaned_path(s: Seq<char>) -> Seq<char>;

/// Relies on path_clean::clean: a lexical cleanup (collapsing repeated
/// separators and resolving `.` and `..` elements) that depends on the
/// path text alone; an empty cleanup result is replaced by ".", so the
/// result is never empty.
#[verifier::external_body]
pub fn clean_path(s: &str) -> (r: String)
    ensures
        r@ == cleaned_path(s@),
        r@.len() > 0,
{
    path_clean::clean(s).to_string_lossy().into_owned()
}

/// `n` appended to the directory `d` with a single separator, the way
/// a path join writes it.
pub open spec fn join_seq(d: Seq<char>, n: Seq<char>) -> Seq<char> {
    if d.len() == 0 {
        n
    } else if d[d.len() - 1] == '/' {
        d + n
    } else {
        d + seq!['/'] + n
    }
}

pub fn join_path(d: &str, n: &str) -> (r: String)
    ensures
        r@ == join_seq(d@, n@),
{
    let dv = chars_of(d);
    if dv.len() == 0 {
        n.to_owned()
    } else if dv[dv.len() - 1] == '/' {
        str_concat(d, n)
    } else {
        let s = str_concat(d, "/");
        let r = str_concat(s.as_str(), n);
        proof {
            reveal_strlit("/");
            assert(d@ + "/"@ + n@ =~= d@ + seq!['/'] + n@);
        }
        r
    }
}

/// The enclosing directory of `p`, read lexically: everything before
/// the last separator; `None` for the root and for the empty path.
pub open spec fn parent_seq(p: Seq<char>) -> Option<Seq<char>> {
    if p.len() == 0 || p == seq!['/'] {
        Option::None
    } else {
        let i = last_index_of(p, '/');
        if i == -1 {
            Option::Some(Seq::empty())
        } else if i == 0 {
            Option::Some(seq!['/'])
        } else {
            Option::Some(p.take(i))
        }
    }
}

pub fn parent_path(p: &str) -> (r: Option<String>)
    ensures
        match r {
            Option::Some(d) => parent_seq(p@) == Option::Some(d@),
            Option::None => parent_seq(p@) is None,
        },
{
    let v = chars_of(p);
    if v.len() == 0 {
        return None;
    }
    if v.len() == 1 && v[0] == '/' {
        proof {
            assert(p@ =~= seq!['/']);
        }
        return None;
    }
    proof {
        if p@.len() == 1 {
            assert(p@[0] != seq!['/'][0]);
            assert(p@ != seq!['/']);
        }
        lemma_last_index_of(p@, '/');
    }
    match find_last_char(&v, '/') {
        Option::None => Some(String::new()),
        Option::Some(i) => {
            if i == 0 {
                let root = sub_chars(&v, 0, 1);
                proof {
                    assert(root@ =~= seq!['/']);
                }
                Some(string_of(&root))
            } else {
                let d = sub_chars(&v, 0, i);
                proof {
                    assert(d@ =~= p@.take(i as int));
                }
                Some(string_of(&d))
            }
        },
    }
}

/// The last path segment, or `None` when the path ends in a separator
/// or in a `.` or `..` element.
pub open spec fn file_name_seq(p: Seq<char>) -> Option<Seq<char>> {
    let f = p.skip(last_index_of(p, '/') + 1);
    if f.len() == 0 || f == seq!['.'] || f == seq!['.', '.'] {
        Option::None
    } else {
        Option::Some(f)
    }
}

pub fn file_name_of(p: &str) -> (r: Option<Vec<char>>)
    ensures
        match r {
            Option::Some(f) => file_name_seq(p@) == Option::Some(f@),
            Option::None => file_name_seq(p@) is None,
        },
{
    let v = chars_of(p);
    let n: usize = v.len();
    proof {
        lemma_last_index_of(p@, '/');
    }
    let start: usize = match find_last_char(&v, '/') {
        Option::Some(i) => i + 1,
        Option::None => 0,
    };
    let f = sub_chars(&v, start, n);
    proof {
        assert(f@ =~= p@.skip(last_index_of(p@, '/') + 1));
    }
    if f.len() == 0 {
        return None;
    }
    let dot = chars_of(".");
    let dotdot = chars_of("..");
    proof {
        reveal_strlit(".");
        reveal_strlit("..");
        assert(dot@ =~= seq!['.']);
        assert(dotdot@ =~= seq!['.', '.']);
    }
    if eq_chars(&f, &dot) || eq_chars(&f, &dotdot) {
        return None;
    }
    Some(f)
}

/// The extension of the last path segment: what follows its last dot,
/// unless the dot is missing or leads the segment.
pub open spec fn extension_seq(p: Seq<char>) -> Option<Seq<char>> {
    match file_name_seq(p) {
        Option::None => Option::None,
        Option::Some(f) => {
            let d = last_index_of(f, '.');
            if d <= 0 {
                Option::None
            } else {
                Option::Some(f.skip(d + 1))
            }
        },
    }
}

pub fn extension_of(p: &str) -> (r: Option<Vec<char>>)
    ensures
        match r {
            Option::Some(e) => extension_seq(p@) == Option::Some(e@),
            Option::None => extension_seq(p@) is None,
        },
{
    let f = match file_name_of(p) {
        Option::Some(f) => f,
        Option::None => {
            return None;
        },
    };
    proof {
        lemma_last_index_of(f@, '.');
    }
    match find_last_char(&f, '.') {
        Option::None => None,
        Option::Some(d) => {
            if d == 0 {
                None
            } else {
                let e = sub_chars(&f, d + 1, f.len());
                proof {
                    assert(e@ =~= f@.skip(d + 1));
                }
                Some(e)
            }
        },
    }
}

} // verus!
