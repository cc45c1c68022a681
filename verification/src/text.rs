use vstd::prelude::*;

verus! {

/// Unicode `White_Space` code points, the set that `char::is_whitespace` uses.
pub open spec fn is_whitespace_spec(c: char) -> bool {
    let cp = c as u32;
    ||| 0x09 <= cp <= 0x0D
    ||| cp == 0x20
    ||| cp == 0x85
    ||| cp == 0xA0
    ||| cp == 0x1680
    ||| 0x2000 <= cp <= 0x200A
    ||| cp == 0x2028
    ||| cp == 0x2029
    ||| cp == 0x202F
    ||| cp == 0x205F
    ||| cp == 0x3000
}

/// Length of `s` once trailing whitespace is removed.
pub open spec fn trim_end_len(s: Seq<char>) -> nat
    decreases s.len(),
{
    if s.len() == 0 {
        0
    } else if is_whitespace_spec(s.last()) {
        trim_end_len(s.drop_last())
    } else {
        s.len()
    }
}

/// Number of leading whitespace characters of `s`.
pub open spec fn trim_start_len(s: Seq<char>) -> nat
    decreases s.len(),
{
    if s.len() == 0 {
        0
    } else if is_whitespace_spec(s[0]) {
        1 + trim_start_len(s.drop_first())
    } else {
        0
    }
}

/// `s` without trailing whitespace (`str::trim_end`).
pub open spec fn trim_end_spec(s: Seq<char>) -> Seq<char> {
    s.take(trim_end_len(s) as int)
}

/// `s` without leading whitespace (`str::trim_start`).
pub open spec fn trim_start_spec(s: Seq<char>) -> Seq<char> {
    s.skip(trim_start_len(s) as int)
}

/// `s` without leading and trailing whitespace (`str::trim`).
pub open spec fn trim_spec(s: Seq<char>) -> Seq<char> {
    trim_start_spec(trim_end_spec(s))
}

/// `w` occurs in `t` starting at position `i`.
pub open spec fn occurs_at(t: Seq<char>, w: Seq<char>, i: int) -> bool {
    &&& 0 <= i
    &&& i + w.len() <= t.len()
    &&& forall|k: int| 0 <= k < w.len() ==> t[i + k] == w[k]
}

/// `w` occurs somewhere in `t` (`str::contains` with a string pattern).
pub open spec fn contains_spec(t: Seq<char>, w: Seq<char>) -> bool {
    exists|i: int| #[trigger] occurs_at(t, w, i)
}

pub proof fn lemma_trim_end_len_bound(s: Seq<char>)
    ensures
        trim_end_len(s) <= s.len(),
        trim_end_len(s) > 0 ==> !is_whitespace_spec(s[trim_end_len(s) - 1]),
        forall|j: int| trim_end_len(s) <= j < s.len() ==> is_whitespace_spec(#[trigger] s[j]),
    decreases s.len(),
{
    if s.len() > 0 && is_whitespace_spec(s.last()) {
        lemma_trim_end_len_bound(s.drop_last());
        assert forall|j: int| trim_end_len(s) <= j < s.len() implies is_whitespace_spec(#[trigger] s[j]) by {
            if j < s.len() - 1 {
                assert(s.drop_last()[j] == s[j]);
            }
        }
    }
}

pub proof fn lemma_trim_start_len_bound(s: Seq<char>)
    ensures
        trim_start_len(s) <= s.len(),
        trim_start_len(s) < s.len() ==> !is_whitespace_spec(s[trim_start_len(s) as int]),
        forall|j: int| 0 <= j < trim_start_len(s) ==> is_whitespace_spec(#[trigger] s[j]),
    decreases s.len(),
{
    if s.len() > 0 && is_whitespace_spec(s[0]) {
        lemma_trim_start_len_bound(s.drop_first());
        assert forall|j: int| 0 <= j < trim_start_len(s) implies is_whitespace_spec(#[trigger] s[j]) by {
            if j > 0 {
                assert(s.drop_first()[j - 1] == s[j]);
            }
        }
    }
}

/// Trimming twice gives what trimming once gives.
pub proof fn lemma_trim_idempotent(s: Seq<char>)
    ensures
        trim_spec(trim_spec(s)) == trim_spec(s),
{
    let e = trim_end_spec(s);
    lemma_trim_end_len_bound(s);
    lemma_trim_start_len_bound(e);
    let t = trim_spec(s);
    // `t` has no trailing whitespace
    lemma_trim_has_no_trailing_whitespace(s);
    assert(trim_end_spec(t) =~= t);
    // nor leading whitespace
    lemma_trim_start_len_bound(t);
    if t.len() > 0 {
        assert(t[0] == e[trim_start_len(e) as int]);
        lemma_trim_start_len_zero(t);
    } else {
        assert(t =~= Seq::<char>::empty());
    }
    assert(trim_start_spec(t) =~= t);
}

/// A trimmed text ends with a non-whitespace character, if it has any.
pub proof fn lemma_trim_has_no_trailing_whitespace(s: Seq<char>)
    ensures
        trim_end_len(trim_spec(s)) == trim_spec(s).len(),
        trim_spec(s).len() > 0 ==> !is_whitespace_spec(trim_spec(s).last()),
{
    let e = trim_end_spec(s);
    lemma_trim_end_len_bound(s);
    lemma_trim_start_len_bound(e);
    let t = trim_spec(s);
    if t.len() > 0 {
        assert(t.last() == e.last());
        assert(e.last() == s[trim_end_len(s) - 1]);
    }
    lemma_trim_end_len_full(t);
}

proof fn lemma_trim_end_len_full(t: Seq<char>)
    requires
        t.len() > 0 ==> !is_whitespace_spec(t.last()),
    ensures
        trim_end_len(t) == t.len(),
{
}

proof fn lemma_trim_start_len_zero(t: Seq<char>)
    requires
        t.len() > 0,
        !is_whitespace_spec(t[0]),
    ensures
        trim_start_len(t) == 0,
{
}

/// Trimming cuts whitespace only, and all of it at both ends: the trimmed text is a
/// contiguous piece of the original, everything cut off is whitespace, and the piece
/// starts and ends with a non-whitespace character.
pub proof fn lemma_trim_shape(s: Seq<char>)
    ensures
        ({
            let t = trim_spec(s);
            let a = trim_start_len(trim_end_spec(s)) as int;
            &&& 0 <= a && a + t.len() <= s.len()
            &&& t == s.subrange(a, a + t.len())
            &&& forall|j: int| 0 <= j < a ==> is_whitespace_spec(#[trigger] s[j])
            &&& forall|j: int| a + t.len() <= j < s.len() ==> is_whitespace_spec(#[trigger] s[j])
            &&& t.len() > 0 ==> !is_whitespace_spec(t[0]) && !is_whitespace_spec(t.last())
            &&& t.len() == 0 ==> forall|j: int| 0 <= j < s.len() ==> is_whitespace_spec(
                #[trigger] s[j],
            )
        }),
{
    let e = trim_end_spec(s);
    lemma_trim_end_len_bound(s);
    lemma_trim_start_len_bound(e);
    lemma_trim_has_no_trailing_whitespace(s);
    let t = trim_spec(s);
    let a = trim_start_len(e) as int;
    assert(t =~= s.subrange(a, a + t.len()));
    assert forall|j: int| 0 <= j < a implies is_whitespace_spec(#[trigger] s[j]) by {
        assert(e[j] == s[j]);
    }
    if t.len() > 0 {
        assert(t[0] == e[a]);
    }
    assert forall|j: int| a + t.len() <= j < s.len() implies is_whitespace_spec(#[trigger] s[j]) by {
        if j < e.len() {
            assert(e[j] == s[j]);
        }
    }
}

/// Whether `c` is whitespace (`char::is_whitespace`).
pub fn is_whitespace(c: char) -> (r: bool)
    ensures
        r == is_whitespace_spec(c),
{
    let cp = c as u32;
    (0x09 <= cp && cp <= 0x0D) || cp == 0x20 || cp == 0x85 || cp == 0xA0 || cp == 0x1680 || (
    0x2000 <= cp && cp <= 0x200A) || cp == 0x2028 || cp == 0x2029 || cp == 0x202F || cp == 0x205F
        || cp == 0x3000
}

/// Collects the characters of `s`, in order.
pub fn chars_of(s: &str) -> (v: Vec<char>)
    ensures
        v@ == s@,
{
    let mut v: Vec<char> = Vec::new();
    for c in it: s.chars()
        invariant
            v@ == it.seq().take(it.index() as int),
            it.seq() == s@,
    {
        v.push(c);
    }
    v
}

/// `String::push`: appends `c` to `s`.
#[verifier::external_body]
fn push_char(s: &mut String, c: char)
    ensures
        final(s)@ == old(s)@.push(c),
{
    s.push(c);
}

/// Builds a `String` holding the characters of `v`, in order.
pub fn string_from_chars(v: &Vec<char>) -> (s: String)
    ensures
        s@ == v@,
{
    let mut s = String::new();
    for i in 0..v.len()
        invariant
            s@ == v@.take(i as int),
    {
        push_char(&mut s, v[i]);
        assert(v@.take(i + 1) =~= v@.take(i as int).push(v@[i as int]));
    }
    assert(v@.take(v@.len() as int) =~= v@);
    s
}

/// Copies `v[from..to]`.
pub fn slice_chars(v: &Vec<char>, from: usize, to: usize) -> (r: Vec<char>)
    requires
        from <= to <= v.len(),
    ensures
        r@ == v@.subrange(from as int, to as int),
{
    let mut r: Vec<char> = Vec::new();
    let mut i = from;
    while i < to
        invariant
            from <= i <= to <= v.len(),
            r@ == v@.subrange(from as int, i as int),
        decreases to - i,
    {
        r.push(v[i]);
        assert(v@.subrange(from as int, i + 1) =~= v@.subrange(from as int, i as int).push(
            v@[i as int],
        ));
        i += 1;
    }
    r
}

/// Number of characters left once trailing whitespace is removed.
pub fn trim_end_length(v: &Vec<char>) -> (k: usize)
    ensures
        k == trim_end_len(v@),
{
    let mut k = v.len();
    assert(v@.take(k as int) =~= v@);
    while k > 0 && is_whitespace(v[k - 1])
        invariant
            k <= v.len(),
            trim_end_len(v@) == trim_end_len(v@.take(k as int)),
        decreases k,
    {
        assert(v@.take(k as int).drop_last() =~= v@.take(k - 1));
        k -= 1;
    }
    k
}

/// Number of leading whitespace characters.
pub fn trim_start_length(v: &Vec<char>) -> (k: usize)
    ensures
        k == trim_start_len(v@),
{
    let mut k: usize = 0;
    assert(v@.skip(0) =~= v@);
    while k < v.len() && is_whitespace(v[k])
        invariant
            k <= v.len(),
            trim_start_len(v@) == k + trim_start_len(v@.skip(k as int)),
        decreases v.len() - k,
    {
        assert(v@.skip(k as int).drop_first() =~= v@.skip(k + 1));
        k += 1;
    }
    k
}

/// The characters of `v` without trailing whitespace (`str::trim_end`).
pub fn trim_end_chars(v: &Vec<char>) -> (r: Vec<char>)
    ensures
        r@ == trim_end_spec(v@),
        r@.len() <= v@.len(),
        r@ == v@.take(r@.len() as int),
        forall|j: int| r@.len() <= j < v@.len() ==> is_whitespace_spec(#[trigger] v@[j]),
        r@.len() > 0 ==> !is_whitespace_spec(r@.last()),
{
    proof {
        lemma_trim_end_len_bound(v@);
    }
    let k = trim_end_length(v);
    slice_chars(v, 0, k)
}

/// The characters of `v` without leading and trailing whitespace (`str::trim`).
pub fn trim_chars(v: &Vec<char>) -> (r: Vec<char>)
    ensures
        r@ == trim_spec(v@),
        exists|a: int|
            0 <= a && a + r@.len() <= v@.len() && r@ == #[trigger] v@.subrange(a, a + r@.len()) && (forall|
                j: int,
            |
                0 <= j < a ==> is_whitespace_spec(#[trigger] v@[j])) && (forall|j: int|
                a + r@.len() <= j < v@.len() ==> is_whitespace_spec(#[trigger] v@[j])),
        r@.len() > 0 ==> !is_whitespace_spec(r@[0]) && !is_whitespace_spec(r@.last()),
{
    proof {
        lemma_trim_shape(v@);
        let a = trim_start_len(trim_end_spec(v@)) as int;
        assert(trim_spec(v@) == v@.subrange(a, a + trim_spec(v@).len()));
    }
    let t = trim_end_chars(v);
    proof {
        lemma_trim_start_len_bound(t@);
    }
    let k = trim_start_length(&t);
    slice_chars(&t, k, t.len())
}

/// Whether `w` occurs in `t` at position `i`.
fn occurs_at_exec(t: &Vec<char>, w: &Vec<char>, i: usize) -> (r: bool)
    requires
        i + w.len() <= t.len(),
    ensures
        r == occurs_at(t@, w@, i as int),
{
    let mut k: usize = 0;
    while k < w.len()
        invariant
            i + w.len() <= t.len(),
            k <= w.len(),
            forall|m: int| 0 <= m < k ==> t@[i + m] == w@[m],
        decreases w.len() - k,
    {
        if t[i + k] != w[k] {
            return false;
        }
        k += 1;
    }
    true
}

/// Whether `t` starts with `w` (`str::starts_with`).
pub fn starts_with_chars(t: &Vec<char>, w: &Vec<char>) -> (r: bool)
    ensures
        r == occurs_at(t@, w@, 0),
{
    if w.len() > t.len() {
        return false;
    }
    occurs_at_exec(t, w, 0)
}

/// Whether `a` and `b` hold the same characters.
pub fn chars_equal(a: &Vec<char>, b: &Vec<char>) -> (r: bool)
    ensures
        r == (a@ == b@),
{
    if a.len() != b.len() {
        return false;
    }
    let r = occurs_at_exec(a, b, 0);
    if r {
        assert(a@ =~= b@);
    }
    r
}

/// Whether `w` occurs somewhere in `t` (`str::contains`).
pub fn contains_chars(t: &Vec<char>, w: &Vec<char>) -> (r: bool)
    ensures
        r == contains_spec(t@, w@),
{
    if w.len() > t.len() {
        assert forall|i: int| !#[trigger] occurs_at(t@, w@, i) by {}
        return false;
    }
    let last = t.len() - w.len();
    let mut i: usize = 0;
    while i <= last
        invariant
            last == t.len() - w.len(),
            w.len() <= t.len(),
            forall|j: int| j < i ==> !#[trigger] occurs_at(t@, w@, j),
        decreases last + 1 - i,
    {
        if occurs_at_exec(t, w, i) {
            return true;
        }
        i += 1;
    }
    assert forall|j: int| !#[trigger] occurs_at(t@, w@, j) by {}
    false
}

} // verus!
