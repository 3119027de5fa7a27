//! Verified text primitives: conversions between strings and character
//! vectors, substring search, replacement, suffix trimming and line
//! splitting. All contracts are stated over `Seq<char>` views.
use vstd::prelude::*;
use vstd::string::StrSliceExecFns;
use vstd::string::StringExecFns;

verus! {

/// Relies on String::push: appends the given character to the end of
/// the string.
#[verifier::external_body]
pub fn push_char(s: &mut String, c: char)
    ensures
        final(s)@ == old(s)@.push(c),
{
    s.push(c);
}

pub fn chars_of(s: &str) -> (v: Vec<char>)
    ensures
        v@ == s@,
{
    let n: usize = s.unicode_len();
    let mut v: Vec<char> = Vec::new();
    let mut i: usize = 0;
    while i < n
        invariant
            n == s@.len(),
            i <= n,
            v@ == s@.take(i as int),
        decreases n - i,
    {
        let c = s.get_char(i);
        v.push(c);
        proof {
            assert(s@.take((i + 1) as int) =~= s@.take(i as int).push(s@[i as int]));
        }
        i = i + 1;
    }
    proof {
        assert(s@.take(n as int) =~= s@);
    }
    v
}

pub fn string_of(v: &Vec<char>) -> (s: String)
    ensures
        s@ == v@,
{
    let mut s = String::new();
    let mut i: usize = 0;
    while i < v.len()
        invariant
            i <= v@.len(),
            s@ == v@.take(i as int),
        decreases v@.len() - i,
    {
        push_char(&mut s, v[i]);
        proof {
            assert(v@.take((i + 1) as int) =~= v@.take(i as int).push(v@[i as int]));
        }
        i = i + 1;
    }
    proof {
        assert(v@.take(v@.len() as int) =~= v@);
    }
    s
}

pub fn copy_chars(v: &Vec<char>) -> (r: Vec<char>)
    ensures
        r@ == v@,
{
    let mut r: Vec<char> = Vec::new();
    let mut i: usize = 0;
    while i < v.len()
        invariant
            i <= v@.len(),
            r@ == v@.take(i as int),
        decreases v@.len() - i,
    {
        r.push(v[i]);
        proof {
            assert(v@.take((i + 1) as int) =~= v@.take(i as int).push(v@[i as int]));
        }
        i = i + 1;
    }
    proof {
        assert(v@.take(v@.len() as int) =~= v@);
    }
    r
}

pub fn sub_chars(v: &Vec<char>, from: usize, to: usize) -> (r: Vec<char>)
    requires
        from <= to <= v@.len(),
    ensures
        r@ == v@.subrange(from as int, to as int),
{
    let mut r: Vec<char> = Vec::new();
    let mut i: usize = from;
    while i < to
        invariant
            from <= i <= to <= v@.len(),
            r@ == v@.subrange(from as int, i as int),
        decreases to - i,
    {
        r.push(v[i]);
        proof {
            assert(v@.subrange(from as int, (i + 1) as int) =~= v@.subrange(
                from as int,
                i as int,
            ).push(v@[i as int]));
        }
        i = i + 1;
    }
    r
}

pub fn push_all(out: &mut Vec<char>, t: &Vec<char>)
    ensures
        final(out)@ == old(out)@ + t@,
{
    let mut i: usize = 0;
    while i < t.len()
        invariant
            i <= t@.len(),
            out@ == old(out)@ + t@.take(i as int),
        decreases t@.len() - i,
    {
        out.push(t[i]);
        proof {
            assert(old(out)@ + t@.take((i + 1) as int) =~= (old(out)@ + t@.take(i as int)).push(
                t@[i as int],
            ));
        }
        i = i + 1;
    }
    proof {
        assert(old(out)@ + t@.take(t@.len() as int) =~= old(out)@ + t@);
    }
}

pub fn eq_chars(a: &Vec<char>, b: &Vec<char>) -> (r: bool)
    ensures
        r == (a@ == b@),
{
    if a.len() != b.len() {
        return false;
    }
    let mut i: usize = 0;
    while i < a.len()
        invariant
            a@.len() == b@.len(),
            i <= a@.len(),
            forall|j: int| 0 <= j < i ==> a@[j] == b@[j],
        decreases a@.len() - i,
    {
        if a[i] != b[i] {
            return false;
        }
        i = i + 1;
    }
    proof {
        assert(a@ =~= b@);
    }
    true
}

pub fn str_eq(a: &str, b: &str) -> (r: bool)
    ensures
        r == (a@ == b@),
{
    let va = chars_of(a);
    let vb = chars_of(b);
    eq_chars(&va, &vb)
}

pub fn str_concat(a: &str, b: &str) -> (r: String)
    ensures
        r@ == a@ + b@,
{
    let mut s = a.to_owned();
    s.append(b);
    s
}

/// The needle `n` occurs in `h` starting at position `i`.
pub open spec fn matches_at(h: Seq<char>, i: int, n: Seq<char>) -> bool {
    &&& 0 <= i
    &&& i + n.len() <= h.len()
    &&& forall|k: int| 0 <= k < n.len() ==> h[i + k] == n[k]
}

/// The needle `n` occurs somewhere in `h`.
pub open spec fn contains_seq(h: Seq<char>, n: Seq<char>) -> bool {
    exists|i: int| matches_at(h, i, n)
}

pub fn matches_at_exec(h: &Vec<char>, i: usize, n: &Vec<char>) -> (r: bool)
    requires
        i + n@.len() <= h@.len(),
    ensures
        r == matches_at(h@, i as int, n@),
{
    let hl: usize = h.len();
    let mut k: usize = 0;
    while k < n.len()
        invariant
            hl == h@.len(),
            i + n@.len() <= h@.len(),
            k <= n@.len(),
            forall|j: int| 0 <= j < k ==> h@[i + j] == n@[j],
        decreases n@.len() - k,
    {
        if h[i + k] != n[k] {
            return false;
        }
        k = k + 1;
    }
    true
}

pub fn contains_chars(h: &Vec<char>, n: &Vec<char>) -> (r: bool)
    ensures
        r == contains_seq(h@, n@),
{
    if n.len() > h.len() {
        proof {
            assert(forall|i: int| !matches_at(h@, i, n@));
        }
        return false;
    }
    if n.len() == 0 {
        proof {
            assert(matches_at(h@, 0, n@));
        }
        return true;
    }
    let hl: usize = h.len();
    let bound: usize = hl - n.len();
    let mut i: usize = 0;
    while i <= bound
        invariant
            hl == h@.len(),
            1 <= n@.len() <= h@.len(),
            bound == h@.len() - n@.len(),
            i <= bound + 1,
            forall|j: int| 0 <= j < i ==> !matches_at(h@, j, n@),
        decreases bound + 1 - i,
    {
        if matches_at_exec(h, i, n) {
            return true;
        }
        i = i + 1;
    }
    proof {
        assert(forall|j: int| matches_at(h@, j, n@) ==> 0 <= j <= h@.len() - n@.len());
    }
    false
}

/// `h` ends with the suffix `s`.
pub open spec fn ends_with_seq(h: Seq<char>, s: Seq<char>) -> bool {
    matches_at(h, h.len() - s.len(), s)
}

pub fn ends_with_chars(h: &Vec<char>, s: &Vec<char>) -> (r: bool)
    ensures
        r == ends_with_seq(h@, s@),
{
    if s.len() > h.len() {
        return false;
    }
    matches_at_exec(h, h.len() - s.len(), s)
}

/// Every occurrence of `f` in `h`, scanning left to right without
/// overlap, replaced by `t`.
pub open spec fn replace_seq(h: Seq<char>, f: Seq<char>, t: Seq<char>) -> Seq<char>
    decreases h.len(),
{
    if f.len() == 0 || h.len() < f.len() {
        h
    } else if matches_at(h, 0, f) {
        t + replace_seq(h.skip(f.len() as int), f, t)
    } else {
        seq![h[0]] + replace_seq(h.skip(1), f, t)
    }
}

pub fn replace_chars(h: &Vec<char>, f: &Vec<char>, t: &Vec<char>) -> (r: Vec<char>)
    requires
        f@.len() > 0,
    ensures
        r@ == replace_seq(h@, f@, t@),
{
    let mut out: Vec<char> = Vec::new();
    let mut i: usize = 0;
    proof {
        assert(h@.skip(0) =~= h@);
        assert(Seq::<char>::empty() + replace_seq(h@, f@, t@) =~= replace_seq(h@, f@, t@));
    }
    while i < h.len()
        invariant
            f@.len() > 0,
            i <= h@.len(),
            replace_seq(h@, f@, t@) == out@ + replace_seq(h@.skip(i as int), f@, t@),
        decreases h@.len() - i,
    {
        let ghost pre = out@;
        if f.len() <= h.len() - i && matches_at_exec(h, i, f) {
            push_all(&mut out, t);
            proof {
                let tail = h@.skip(i as int);
                assert(matches_at(tail, 0, f@)) by {
                    assert(forall|k: int|
                        0 <= k < f@.len() ==> tail[k] == h@[i + k] && h@[i + k] == f@[k]);
                }
                assert(tail.skip(f@.len() as int) =~= h@.skip(i + f@.len()));
                assert(replace_seq(tail, f@, t@) == t@ + replace_seq(
                    h@.skip(i + f@.len()),
                    f@,
                    t@,
                ));
                assert(pre + replace_seq(tail, f@, t@) =~= out@ + replace_seq(
                    h@.skip(i + f@.len()),
                    f@,
                    t@,
                ));
            }
            i = i + f.len();
        } else {
            out.push(h[i]);
            proof {
                let tail = h@.skip(i as int);
                assert(tail[0] == h@[i as int]);
                assert(tail.skip(1) =~= h@.skip(i + 1));
                if tail.len() < f@.len() {
                    assert(replace_seq(tail, f@, t@) == tail);
                    assert(replace_seq(h@.skip(i + 1), f@, t@) == h@.skip(i + 1));
                    assert(tail =~= seq![h@[i as int]] + h@.skip(i + 1));
                } else {
                    assert(!matches_at(tail, 0, f@)) by {
                        if matches_at(tail, 0, f@) {
                            assert(forall|k: int|
                                0 <= k < f@.len() ==> h@[i + k] == tail[k] && tail[k] == f@[k]);
                            assert(matches_at(h@, i as int, f@));
                        }
                    }
                    assert(replace_seq(tail, f@, t@) == seq![tail[0]] + replace_seq(
                        tail.skip(1),
                        f@,
                        t@,
                    ));
                }
                assert(pre + replace_seq(tail, f@, t@) =~= out@ + replace_seq(
                    h@.skip(i + 1),
                    f@,
                    t@,
                ));
            }
            i = i + 1;
        }
    }
    proof {
        assert(h@.skip(h@.len() as int) =~= Seq::<char>::empty());
        assert(replace_seq(Seq::<char>::empty(), f@, t@) == Seq::<char>::empty());
        assert(out@ + Seq::<char>::empty() =~= out@);
    }
    out
}

/// The suffix `p` removed from the end of `h` as often as it occurs
/// there.
pub open spec fn trim_end_seq(h: Seq<char>, p: Seq<char>) -> Seq<char>
    decreases h.len(),
{
    if p.len() > 0 && ends_with_seq(h, p) {
        trim_end_seq(h.take(h.len() - p.len()), p)
    } else {
        h
    }
}

pub fn trim_end_chars(h: &Vec<char>, p: &Vec<char>) -> (r: Vec<char>)
    ensures
        r@ == trim_end_seq(h@, p@),
{
    let mut cur = copy_chars(h);
    while p.len() > 0 && ends_with_chars(&cur, p)
        invariant
            trim_end_seq(h@, p@) == trim_end_seq(cur@, p@),
        decreases cur@.len(),
    {
        let ghost before = cur@;
        cur.truncate(cur.len() - p.len());
        proof {
            assert(cur@ =~= before.take(before.len() - p@.len()));
        }
    }
    cur
}

/// Index of the last occurrence of `c` in `s`, or -1 if there is none.
pub open spec fn last_index_of(s: Seq<char>, c: char) -> int
    decreases s.len(),
{
    if s.len() == 0 {
        -1
    } else if s[s.len() - 1] == c {
        s.len() - 1
    } else {
        last_index_of(s.drop_last(), c)
    }
}

pub proof fn lemma_last_index_of(s: Seq<char>, c: char)
    ensures
        -1 <= last_index_of(s, c) < s.len(),
        last_index_of(s, c) >= 0 ==> s[last_index_of(s, c)] == c,
        forall|j: int| last_index_of(s, c) < j < s.len() ==> s[j] != c,
    decreases s.len(),
{
    if s.len() == 0 {
    } else if s[s.len() - 1] == c {
    } else {
        lemma_last_index_of(s.drop_last(), c);
        assert(forall|j: int| 0 <= j < s.len() - 1 ==> s.drop_last()[j] == s[j]);
    }
}

pub fn find_last_char(v: &Vec<char>, c: char) -> (r: Option<usize>)
    ensures
        match r {
            Option::Some(i) => i < v@.len() && last_index_of(v@, c) == i as int,
            Option::None => last_index_of(v@, c) == -1,
        },
{
    let mut i: usize = v.len();
    proof {
        assert(v@.take(v@.len() as int) =~= v@);
    }
    while i > 0
        invariant
            i <= v@.len(),
            last_index_of(v@, c) == last_index_of(v@.take(i as int), c),
        decreases i,
    {
        i = i - 1;
        if v[i] == c {
            proof {
                let t = v@.take((i + 1) as int);
                assert(t[t.len() - 1] == c);
                assert(last_index_of(t, c) == i as int);
            }
            return Some(i);
        }
        proof {
            let t = v@.take((i + 1) as int);
            assert(t[t.len() - 1] != c);
            assert(t.drop_last() =~= v@.take(i as int));
        }
    }
    proof {
        assert(v@.take(0) =~= Seq::<char>::empty());
    }
    None
}

/// Index of the first newline in `s`, or `s.len()` if there is none.
pub open spec fn nl_index(s: Seq<char>) -> int
    decreases s.len(),
{
    if s.len() == 0 {
        0
    } else if s[0] == '\n' {
        0
    } else {
        1 + nl_index(s.skip(1))
    }
}

pub proof fn lemma_nl_index_bounds(s: Seq<char>)
    ensures
        0 <= nl_index(s) <= s.len(),
        nl_index(s) < s.len() ==> s[nl_index(s)] == '\n',
        forall|j: int| 0 <= j < nl_index(s) ==> s[j] != '\n',
    decreases s.len(),
{
    if s.len() == 0 {
    } else if s[0] == '\n' {
    } else {
        lemma_nl_index_bounds(s.skip(1));
        let k = nl_index(s);
        assert(forall|j: int| 1 <= j < s.len() ==> s.skip(1)[j - 1] == s[j]);
        if k < s.len() {
            assert(s.skip(1)[k - 1] == s[k]);
        }
        assert forall|j: int| 0 <= j < k implies s[j] != '\n' by {
            if j > 0 {
                assert(s.skip(1)[j - 1] == s[j]);
            }
        }
    }
}

pub proof fn lemma_nl_index_is(s: Seq<char>, k: int)
    requires
        0 <= k <= s.len(),
        forall|j: int| 0 <= j < k ==> s[j] != '\n',
        k < s.len() ==> s[k] == '\n',
    ensures
        nl_index(s) == k,
    decreases s.len(),
{
    if s.len() == 0 {
    } else if s[0] == '\n' {
        assert(k == 0);
    } else {
        assert(k >= 1);
        assert(forall|j: int| 1 <= j < s.len() ==> s.skip(1)[j - 1] == s[j]);
        lemma_nl_index_is(s.skip(1), k - 1);
    }
}

/// The lines of `s`, split at newline characters, with a final newline
/// producing no extra empty line (as an editor counts lines).
pub open spec fn lines_seq(s: Seq<char>) -> Seq<Seq<char>>
    decreases s.len(),
    via lines_seq_dec
{
    if s.len() == 0 {
        seq![]
    } else {
        let k = nl_index(s);
        if k >= s.len() {
            seq![s]
        } else {
            seq![s.take(k)] + lines_seq(s.skip(k + 1))
        }
    }
}

#[via_fn]
proof fn lines_seq_dec(s: Seq<char>) {
    lemma_nl_index_bounds(s);
}

/// Zero-based index of the first entry of `ls` that contains `tok`.
pub open spec fn first_line_with_from(ls: Seq<Seq<char>>, tok: Seq<char>) -> Option<int>
    decreases ls.len(),
{
    if ls.len() == 0 {
        Option::None
    } else if contains_seq(ls[0], tok) {
        Option::Some(0)
    } else {
        match first_line_with_from(ls.skip(1), tok) {
            Option::Some(i) => Option::Some(i + 1),
            Option::None => Option::None,
        }
    }
}

/// Zero-based index of the first line of `s` that contains `tok`.
pub open spec fn first_line_with(s: Seq<char>, tok: Seq<char>) -> Option<int> {
    first_line_with_from(lines_seq(s), tok)
}

proof fn lemma_first_line_some(ls: Seq<Seq<char>>, tok: Seq<char>, i: int)
    requires
        0 <= i < ls.len(),
        forall|j: int| 0 <= j < i ==> !contains_seq(#[trigger] ls[j], tok),
        contains_seq(ls[i], tok),
    ensures
        first_line_with_from(ls, tok) == Option::Some(i),
    decreases i,
{
    if i == 0 {
    } else {
        assert(forall|j: int| 0 <= j < ls.len() - 1 ==> ls.skip(1)[j] == ls[j + 1]);
        lemma_first_line_some(ls.skip(1), tok, i - 1);
    }
}

proof fn lemma_first_line_none(ls: Seq<Seq<char>>, tok: Seq<char>)
    requires
        forall|j: int| 0 <= j < ls.len() ==> !contains_seq(#[trigger] ls[j], tok),
    ensures
        first_line_with_from(ls, tok) == Option::<int>::None,
    decreases ls.len(),
{
    if ls.len() == 0 {
    } else {
        assert(forall|j: int| 0 <= j < ls.len() - 1 ==> ls.skip(1)[j] == ls[j + 1]);
        lemma_first_line_none(ls.skip(1), tok);
    }
}

/// The character-sequence views of a sequence of character vectors.
pub open spec fn views_of(r: Seq<Vec<char>>) -> Seq<Seq<char>> {
    Seq::new(r.len(), |i: int| r[i]@)
}

/// The character-sequence views of a sequence of string slices.
pub open spec fn strs_view(r: Seq<&str>) -> Seq<Seq<char>> {
    Seq::new(r.len(), |i: int| r[i]@)
}

pub fn split_lines(v: &Vec<char>) -> (r: Vec<Vec<char>>)
    ensures
        views_of(r@) == lines_seq(v@),
{
    let mut res: Vec<Vec<char>> = Vec::new();
    let mut pos: usize = 0;
    let n: usize = v.len();
    proof {
        assert(v@.skip(0) =~= v@);
        assert(views_of(res@) + lines_seq(v@) =~= lines_seq(v@));
    }
    while pos < n
        invariant
            n == v@.len(),
            pos <= n,
            lines_seq(v@) == views_of(res@) + lines_seq(v@.skip(pos as int)),
        decreases n - pos,
    {
        let ghost pre = views_of(res@);
        let ghost tail = v@.skip(pos as int);
        let mut j: usize = pos;
        while j < n && v[j] != '\n'
            invariant
                n == v@.len(),
                pos <= j <= n,
                forall|q: int| pos <= q < j ==> v@[q] != '\n',
            decreases n - j,
        {
            j = j + 1;
        }
        proof {
            assert(forall|q: int| 0 <= q < tail.len() ==> tail[q] == v@[pos + q]);
            lemma_nl_index_is(tail, j - pos);
        }
        let mut line: Vec<char> = Vec::new();
        let mut q: usize = pos;
        while q < j
            invariant
                pos <= q <= j <= n,
                n == v@.len(),
                line@ == v@.subrange(pos as int, q as int),
            decreases j - q,
        {
            line.push(v[q]);
            proof {
                assert(v@.subrange(pos as int, (q + 1) as int) =~= v@.subrange(
                    pos as int,
                    q as int,
                ).push(v@[q as int]));
            }
            q = q + 1;
        }
        proof {
            assert(line@ =~= tail.take(j - pos));
        }
        res.push(line);
        if j == n {
            proof {
                assert(nl_index(tail) == tail.len());
                assert(lines_seq(tail) == seq![tail]);
                assert(tail.take(j - pos) =~= tail);
                assert(views_of(res@) =~= pre.push(tail));
                assert(lines_seq(v@.skip(n as int)) =~= Seq::<Seq<char>>::empty());
                assert(v@.skip(n as int) =~= Seq::<char>::empty());
                assert(pre + lines_seq(tail) =~= views_of(res@) + lines_seq(v@.skip(n as int)));
            }
            pos = n;
        } else {
            proof {
                assert(nl_index(tail) == j - pos < tail.len());
                assert(lines_seq(tail) == seq![tail.take(j - pos)] + lines_seq(
                    tail.skip(j - pos + 1),
                ));
                assert(tail.skip(j - pos + 1) =~= v@.skip(j + 1));
                assert(views_of(res@) =~= pre.push(tail.take(j - pos)));
                assert(pre + lines_seq(tail) =~= views_of(res@) + lines_seq(v@.skip(j + 1)));
            }
            pos = j + 1;
        }
    }
    proof {
        assert(v@.skip(n as int) =~= Seq::<char>::empty());
        assert(views_of(res@) + lines_seq(Seq::<char>::empty()) =~= views_of(res@));
    }
    res
}

pub fn count_lines(v: &Vec<char>) -> (n: usize)
    ensures
        n == lines_seq(v@).len(),
{
    let lines = split_lines(v);
    proof {
        assert(views_of(lines@).len() == lines@.len());
    }
    lines.len()
}

/// Zero-based index of the first entry of `ls` that contains `a` or
/// `b`.
pub open spec fn first_line_with_either_from(
    ls: Seq<Seq<char>>,
    a: Seq<char>,
    b: Seq<char>,
) -> Option<int>
    decreases ls.len(),
{
    if ls.len() == 0 {
        Option::None
    } else if contains_seq(ls[0], a) || contains_seq(ls[0], b) {
        Option::Some(0)
    } else {
        match first_line_with_either_from(ls.skip(1), a, b) {
            Option::Some(i) => Option::Some(i + 1),
            Option::None => Option::None,
        }
    }
}

/// Zero-based index of the first line of `s` that contains `a` or
/// `b`.
pub open spec fn first_line_with_either(s: Seq<char>, a: Seq<char>, b: Seq<char>) -> Option<int> {
    first_line_with_either_from(lines_seq(s), a, b)
}

proof fn lemma_first_line_either_some(ls: Seq<Seq<char>>, a: Seq<char>, b: Seq<char>, i: int)
    requires
        0 <= i < ls.len(),
        forall|j: int|
            0 <= j < i ==> !contains_seq(#[trigger] ls[j], a) && !contains_seq(ls[j], b),
        contains_seq(ls[i], a) || contains_seq(ls[i], b),
    ensures
        first_line_with_either_from(ls, a, b) == Option::Some(i),
    decreases i,
{
    if i == 0 {
    } else {
        assert(forall|j: int| 0 <= j < ls.len() - 1 ==> ls.skip(1)[j] == ls[j + 1]);
        lemma_first_line_either_some(ls.skip(1), a, b, i - 1);
    }
}

proof fn lemma_first_line_either_none(ls: Seq<Seq<char>>, a: Seq<char>, b: Seq<char>)
    requires
        forall|j: int|
            0 <= j < ls.len() ==> !contains_seq(#[trigger] ls[j], a) && !contains_seq(ls[j], b),
    ensures
        first_line_with_either_from(ls, a, b) is None,
    decreases ls.len(),
{
    if ls.len() > 0 {
        assert(forall|j: int| 0 <= j < ls.len() - 1 ==> ls.skip(1)[j] == ls[j + 1]);
        lemma_first_line_either_none(ls.skip(1), a, b);
    }
}

pub fn find_line_with_either(v: &Vec<char>, a: &Vec<char>, b: &Vec<char>) -> (r: Option<usize>)
    ensures
        match r {
            Option::Some(i) => first_line_with_either(v@, a@, b@) == Option::Some(i as int),
            Option::None => first_line_with_either(v@, a@, b@) is None,
        },
{
    let lines = split_lines(v);
    let mut i: usize = 0;
    while i < lines.len()
        invariant
            views_of(lines@) == lines_seq(v@),
            i <= lines@.len(),
            forall|j: int|
                0 <= j < i ==> !contains_seq(#[trigger] views_of(lines@)[j], a@)
                    && !contains_seq(views_of(lines@)[j], b@),
        decreases lines@.len() - i,
    {
        proof {
            assert(views_of(lines@)[i as int] == lines@[i as int]@);
        }
        if contains_chars(&lines[i], a) || contains_chars(&lines[i], b) {
            proof {
                lemma_first_line_either_some(views_of(lines@), a@, b@, i as int);
            }
            return Some(i);
        }
        i = i + 1;
    }
    proof {
        lemma_first_line_either_none(views_of(lines@), a@, b@);
    }
    None
}

pub fn find_line_with(v: &Vec<char>, tok: &Vec<char>) -> (r: Option<usize>)
    ensures
        match r {
            Option::Some(i) => first_line_with(v@, tok@) == Option::Some(i as int),
            Option::None => first_line_with(v@, tok@) is None,
        },
{
    let lines = split_lines(v);
    let mut i: usize = 0;
    while i < lines.len()
        invariant
            views_of(lines@) == lines_seq(v@),
            i <= lines@.len(),
            forall|j: int| 0 <= j < i ==> !contains_seq(#[trigger] views_of(lines@)[j], tok@),
        decreases lines@.len() - i,
    {
        proof {
            assert(views_of(lines@)[i as int] == lines@[i as int]@);
        }
        if contains_chars(&lines[i], tok) {
            proof {
                lemma_first_line_some(views_of(lines@), tok@, i as int);
            }
            return Some(i);
        }
        i = i + 1;
    }
    proof {
        lemma_first_line_none(views_of(lines@), tok@);
    }
    None
}

} // verus!
