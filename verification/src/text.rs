//! Character and string groundwork: whitespace, substring search,
//! whitespace-separated words, trimming, and decimal rendering.
//!
//! Everything in this module works over `Seq<char>` views so that the
//! components built on top (relevance scoring, prompt building, message
//! validation) can state their contracts exactly.

use vstd::prelude::*;
use vstd::string::StrSliceExecFns;

verus! {

/// The Unicode `White_Space` code points, as documented for
/// `char::is_whitespace`.
pub open spec fn is_space(c: char) -> bool {
    ||| c as u32 == 0x0009
    ||| c as u32 == 0x000A
    ||| c as u32 == 0x000B
    ||| c as u32 == 0x000C
    ||| c as u32 == 0x000D
    ||| c as u32 == 0x0020
    ||| c as u32 == 0x0085
    ||| c as u32 == 0x00A0
    ||| c as u32 == 0x1680
    ||| (0x2000 <= c as u32 && c as u32 <= 0x200A)
    ||| c as u32 == 0x2028
    ||| c as u32 == 0x2029
    ||| c as u32 == 0x202F
    ||| c as u32 == 0x205F
    ||| c as u32 == 0x3000
}

/// Decides the `White_Space` property of one character.
pub fn is_space_char(c: char) -> (r: bool)
    ensures
        r == is_space(c),
{
    let u = c as u32;
    u == 0x0009 || u == 0x000A || u == 0x000B || u == 0x000C || u == 0x000D || u == 0x0020
        || u == 0x0085 || u == 0x00A0 || u == 0x1680 || (0x2000 <= u && u <= 0x200A)
        || u == 0x2028 || u == 0x2029 || u == 0x202F || u == 0x205F || u == 0x3000
}

/// The characters of `s`, one element per `char`.
pub fn chars_of(s: &str) -> (r: Vec<char>)
    ensures
        r@ == s@,
{
    let n = s.unicode_len();
    let mut v: Vec<char> = Vec::new();
    let mut i: usize = 0;
    while i < n
        invariant
            n == s@.len(),
            i <= n,
            v@ == s@.take(i as int),
        decreases n - i,
    {
        let c = s.get_char(i);
        v.push(c);
        i = i + 1;
        proof {
            assert(v@ =~= s@.take(i as int));
        }
    }
    proof {
        assert(s@.take(n as int) =~= s@);
    }
    v
}

/// A copy of the characters of `v` between `a` (inclusive) and `b`
/// (exclusive).
pub fn subvec(v: &Vec<char>, a: usize, b: usize) -> (r: Vec<char>)
    requires
        a <= b <= v@.len(),
    ensures
        r@ == v@.subrange(a as int, b as int),
{
    let mut r: Vec<char> = Vec::new();
    let mut i: usize = a;
    while i < b
        invariant
            a <= i <= b <= v@.len(),
            r@ == v@.subrange(a as int, i as int),
        decreases b - i,
    {
        let c = v[i];
        r.push(c);
        i = i + 1;
        proof {
            assert(r@ =~= v@.subrange(a as int, i as int));
        }
    }
    r
}

/// The needle `n` occurs in `h` starting at position `i`.
pub open spec fn match_at(h: Seq<char>, n: Seq<char>, i: int) -> bool {
    &&& 0 <= i
    &&& i + n.len() <= h.len()
    &&& h.subrange(i, i + n.len() as int) == n
}

/// The needle `n` occurs somewhere in `h`. An empty needle occurs in
/// every haystack.
pub open spec fn contains_sub(h: Seq<char>, n: Seq<char>) -> bool {
    exists|i: int| match_at(h, n, i)
}

/// The first position at or after `from` where `n` occurs in `h`, absent
/// when there is none.
pub open spec fn first_match_at_or_after(h: Seq<char>, n: Seq<char>, from: int) -> Option<int>
    decreases h.len() - from + 1 when from >= 0
{
    if from + n.len() > h.len() {
        None
    } else if match_at(h, n, from) {
        Some(from)
    } else {
        first_match_at_or_after(h, n, from + 1)
    }
}

/// The last position at or before `i` where `n` occurs in `h`, absent
/// when there is none.
pub open spec fn last_match_at_or_before(h: Seq<char>, n: Seq<char>, i: int) -> Option<int>
    decreases i + 1 when i + n.len() <= h.len()
{
    if i < 0 {
        None
    } else if match_at(h, n, i) {
        Some(i)
    } else {
        last_match_at_or_before(h, n, i - 1)
    }
}

/// The position of the last occurrence of `n` in `h`, if any.
pub open spec fn last_match_of(h: Seq<char>, n: Seq<char>) -> Option<int> {
    if n.len() <= h.len() {
        last_match_at_or_before(h, n, h.len() - n.len())
    } else {
        None
    }
}

/// What `first_match_at_or_after` finds is the first match.
pub proof fn lemma_first_match_props(h: Seq<char>, n: Seq<char>, from: int)
    requires
        from >= 0,
    ensures
        match first_match_at_or_after(h, n, from) {
            Some(i) => from <= i && match_at(h, n, i) && forall|k: int|
                from <= k < i ==> !match_at(h, n, k),
            None => forall|k: int| from <= k ==> !match_at(h, n, k),
        },
    decreases h.len() - from + 1,
{
    if from + n.len() > h.len() {
    } else if match_at(h, n, from) {
    } else {
        lemma_first_match_props(h, n, from + 1);
    }
}

/// What `last_match_of` finds is the last match.
pub proof fn lemma_last_match_props(h: Seq<char>, n: Seq<char>, i: int)
    requires
        i <= h.len() - n.len(),
    ensures
        match last_match_at_or_before(h, n, i) {
            Some(m) => m <= i && match_at(h, n, m) && forall|k: int| m < k <= i ==> !match_at(
                h,
                n,
                k,
            ),
            None => forall|k: int| k <= i ==> !match_at(h, n, k),
        },
    decreases i + 1,
{
    if i >= 0 && !match_at(h, n, i) {
        lemma_last_match_props(h, n, i - 1);
    }
}

/// Where nothing matches at all, there is no last match.
pub proof fn lemma_no_match_no_last(h: Seq<char>, n: Seq<char>)
    requires
        !contains_sub(h, n),
    ensures
        last_match_of(h, n) is None,
{
    if n.len() <= h.len() {
        lemma_last_match_props(h, n, h.len() - n.len());
        match last_match_at_or_before(h, n, h.len() - n.len()) {
            Some(m) => {
                assert(match_at(h, n, m));
                assert(contains_sub(h, n));
            },
            None => {},
        }
    }
}

/// A position that matches with nothing matching later is the last match.
pub proof fn lemma_last_match_of_unique(h: Seq<char>, n: Seq<char>, i: int)
    requires
        match_at(h, n, i),
        forall|k: int| k > i ==> !match_at(h, n, k),
    ensures
        last_match_of(h, n) == Some(i),
{
    let top = h.len() - n.len();
    lemma_last_match_props(h, n, top);
    match last_match_at_or_before(h, n, top) {
        Some(m) => {
            if m > i {
                assert(!match_at(h, n, m));
            }
            if m < i {
                assert(!match_at(h, n, i));
            }
        },
        None => {
            assert(!match_at(h, n, i));
        },
    }
}

/// A position at or past `from` that matches with nothing matching
/// between is the first match from `from`.
pub proof fn lemma_first_match_from_unique(h: Seq<char>, n: Seq<char>, from: int, j: int)
    requires
        0 <= from <= j,
        match_at(h, n, j),
        forall|k: int| from <= k < j ==> !match_at(h, n, k),
    ensures
        first_match_at_or_after(h, n, from) == Some(j),
{
    lemma_first_match_props(h, n, from);
    match first_match_at_or_after(h, n, from) {
        Some(m) => {
            if m > j {
                assert(!match_at(h, n, j));
            }
            if m < j {
                assert(!match_at(h, n, m));
            }
        },
        None => {
            assert(!match_at(h, n, j));
        },
    }
}

/// Decides whether `n` occurs in `h` at position `i`.
fn match_at_exec(h: &Vec<char>, n: &Vec<char>, i: usize) -> (r: bool)
    requires
        i + n@.len() <= h@.len(),
    ensures
        r == match_at(h@, n@, i as int),
{
    let nl = n.len();
    let hl = h.len();
    let mut j: usize = 0;
    while j < nl
        invariant
            nl == n@.len(),
            hl == h@.len(),
            i + nl <= hl,
            j <= nl,
            forall|k: int| 0 <= k < j ==> h@[i + k] == n@[k],
        decreases nl - j,
    {
        if h[i + j] != n[j] {
            proof {
                assert(h@.subrange(i as int, i + n@.len() as int)[j as int] != n@[j as int]);
            }
            return false;
        }
        j = j + 1;
    }
    proof {
        assert(h@.subrange(i as int, i + n@.len() as int) =~= n@);
    }
    true
}

/// The first position at or after `from` where `n` occurs in `h`, if any.
pub fn find_from(h: &Vec<char>, n: &Vec<char>, from: usize) -> (r: Option<usize>)
    ensures
        match r {
            Some(i) => from <= i && match_at(h@, n@, i as int) && forall|k: int|
                from <= k < i ==> !match_at(h@, n@, k),
            None => forall|k: int| from <= k ==> !match_at(h@, n@, k),
        },
{
    if n.len() > h.len() {
        return None;
    }
    let last = h.len() - n.len();
    if from > last {
        return None;
    }
    let mut i: usize = from;
    loop
        invariant
            n@.len() <= h@.len(),
            last == h@.len() - n@.len(),
            from <= i <= last,
            forall|k: int| from <= k < i ==> !match_at(h@, n@, k),
        decreases last - i,
    {
        if match_at_exec(h, n, i) {
            return Some(i);
        }
        if i == last {
            return None;
        }
        i = i + 1;
    }
}

/// The last position where `n` occurs in `h`, if any.
pub fn rfind_last(h: &Vec<char>, n: &Vec<char>) -> (r: Option<usize>)
    ensures
        match r {
            Some(i) => match_at(h@, n@, i as int) && forall|k: int| k > i ==> !match_at(h@, n@, k),
            None => !contains_sub(h@, n@),
        },
{
    if n.len() > h.len() {
        return None;
    }
    let mut i: usize = h.len() - n.len();
    loop
        invariant
            n@.len() <= h@.len(),
            i <= h@.len() - n@.len(),
            forall|k: int| k > i ==> !match_at(h@, n@, k),
        decreases i,
    {
        if match_at_exec(h, n, i) {
            return Some(i);
        }
        if i == 0 {
            return None;
        }
        i = i - 1;
    }
}

/// Decides whether `n` occurs anywhere in `h`.
pub fn seq_contains(h: &Vec<char>, n: &Vec<char>) -> (r: bool)
    ensures
        r == contains_sub(h@, n@),
{
    match find_from(h, n, 0) {
        Some(_) => true,
        None => false,
    }
}

/// `s` with leading whitespace removed.
pub open spec fn ltrim(s: Seq<char>) -> Seq<char>
    decreases s.len(),
{
    if s.len() > 0 && is_space(s[0]) {
        ltrim(s.skip(1))
    } else {
        s
    }
}

/// `s` with trailing whitespace removed.
pub open spec fn rtrim(s: Seq<char>) -> Seq<char>
    decreases s.len(),
{
    if s.len() > 0 && is_space(s.last()) {
        rtrim(s.drop_last())
    } else {
        s
    }
}

/// `s` with whitespace removed from both ends, as `str::trim` leaves it.
pub open spec fn trim_of(s: Seq<char>) -> Seq<char> {
    rtrim(ltrim(s))
}

proof fn lemma_ltrim_at(s: Seq<char>, a: int)
    requires
        0 <= a <= s.len(),
        forall|k: int| 0 <= k < a ==> is_space(s[k]),
        a < s.len() ==> !is_space(s[a]),
    ensures
        ltrim(s) == s.skip(a),
    decreases a,
{
    if a == 0 {
        if s.len() > 0 && is_space(s[0]) {
            assert(false);
        }
        assert(s.skip(0) =~= s);
    } else {
        assert(is_space(s[0]));
        lemma_ltrim_at(s.skip(1), a - 1);
        assert(s.skip(1).skip(a - 1) =~= s.skip(a));
    }
}

proof fn lemma_rtrim_at(s: Seq<char>, b: int)
    requires
        0 <= b <= s.len(),
        forall|k: int| b <= k < s.len() ==> is_space(s[k]),
        b > 0 ==> !is_space(s[b - 1]),
    ensures
        rtrim(s) == s.take(b),
    decreases s.len(),
{
    if b == s.len() {
        if s.len() > 0 && is_space(s.last()) {
            assert(false);
        }
        assert(s.take(b) =~= s);
    } else {
        assert(is_space(s.last()));
        lemma_rtrim_at(s.drop_last(), b);
        assert(s.drop_last().take(b) =~= s.take(b));
    }
}

/// The bounds of the trimmed middle of `v`: the characters of
/// `trim_of(v@)` are exactly those between the two returned positions.
pub fn trim_bounds(v: &Vec<char>) -> (r: (usize, usize))
    ensures
        r.0 <= r.1 <= v@.len(),
        v@.subrange(r.0 as int, r.1 as int) == trim_of(v@),
{
    let len = v.len();
    let mut a: usize = 0;
    while a < len && is_space_char(v[a])
        invariant
            len == v@.len(),
            a <= len,
            forall|k: int| 0 <= k < a ==> is_space(v@[k]),
        decreases len - a,
    {
        a = a + 1;
    }
    proof {
        lemma_ltrim_at(v@, a as int);
    }
    if a == len {
        proof {
            assert(v@.skip(a as int) =~= Seq::<char>::empty());
            assert(v@.subrange(a as int, a as int) =~= Seq::<char>::empty());
        }
        return (a, a);
    }
    let mut b: usize = len;
    while b > a && is_space_char(v[b - 1])
        invariant
            len == v@.len(),
            a <= b <= len,
            a < len,
            !is_space(v@[a as int]),
            forall|k: int| b <= k < len ==> is_space(v@[k]),
        decreases b,
    {
        b = b - 1;
    }
    proof {
        let t = v@.skip(a as int);
        lemma_rtrim_at(t, b - a);
        assert(t.take(b - a) =~= v@.subrange(a as int, b as int));
    }
    (a, b)
}

/// The position of the first whitespace character at or after `i`, or the
/// end of `s`: the end of the word starting at `i`.
pub open spec fn word_end(s: Seq<char>, i: int) -> int
    decreases s.len() - i when 0 <= i <= s.len()
{
    if i >= s.len() {
        i
    } else if is_space(s[i]) {
        i
    } else {
        word_end(s, i + 1)
    }
}

pub proof fn lemma_word_end(s: Seq<char>, i: int)
    requires
        0 <= i <= s.len(),
    ensures
        i <= word_end(s, i) <= s.len(),
        forall|k: int| i <= k < word_end(s, i) ==> !is_space(s[k]),
        word_end(s, i) < s.len() ==> is_space(s[word_end(s, i)]),
    decreases s.len() - i,
{
    if i < s.len() && !is_space(s[i]) {
        lemma_word_end(s, i + 1);
    }
}

/// The whitespace-separated words of `s` from position `i` on, in order.
pub open spec fn words_from(s: Seq<char>, i: int) -> Seq<Seq<char>>
    decreases s.len() - i when 0 <= i <= s.len() via words_from_decreases
{
    if i >= s.len() {
        Seq::empty()
    } else if is_space(s[i]) {
        words_from(s, i + 1)
    } else {
        seq![s.subrange(i, word_end(s, i))] + words_from(s, word_end(s, i))
    }
}

#[via_fn]
proof fn words_from_decreases(s: Seq<char>, i: int) {
    if 0 <= i < s.len() && !is_space(s[i]) {
        lemma_word_end(s, i);
    }
}

/// The whitespace-separated words of `s`, as `str::split_whitespace`
/// yields them.
pub open spec fn words(s: Seq<char>) -> Seq<Seq<char>> {
    words_from(s, 0)
}

/// Splits `v` into its whitespace-separated words.
pub fn split_words(v: &Vec<char>) -> (r: Vec<Vec<char>>)
    ensures
        r.deep_view() == words(v@),
{
    let len = v.len();
    let mut r: Vec<Vec<char>> = Vec::new();
    let mut i: usize = 0;
    while i < len
        invariant
            len == v@.len(),
            i <= len,
            r.deep_view() + words_from(v@, i as int) == words(v@),
        decreases len - i,
    {
        if is_space_char(v[i]) {
            i = i + 1;
        } else {
            let mut j: usize = i + 1;
            while j < len && !is_space_char(v[j])
                invariant
                    len == v@.len(),
                    i < j <= len,
                    !is_space(v@[i as int]),
                    forall|k: int| i <= k < j ==> !is_space(v@[k]),
                decreases len - j,
            {
                j = j + 1;
            }
            proof {
                lemma_word_end_at(v@, i as int, j as int);
            }
            let w = subvec(v, i, j);
            let ghost old_dv = r.deep_view();
            let ghost wv = w@;
            r.push(w);
            proof {
                assert(r.deep_view() =~~= old_dv.push(wv));
                assert(old_dv.push(wv) + words_from(v@, j as int) =~~= old_dv + words_from(
                    v@,
                    i as int,
                ));
            }
            i = j;
        }
    }
    proof {
        assert(r.deep_view() + words_from(v@, len as int) =~= r.deep_view());
    }
    r
}

proof fn lemma_word_end_at(s: Seq<char>, i: int, j: int)
    requires
        0 <= i < j <= s.len(),
        forall|k: int| i <= k < j ==> !is_space(s[k]),
        j < s.len() ==> is_space(s[j]),
    ensures
        word_end(s, i) == j,
    decreases j - i,
{
    if i + 1 < j {
        lemma_word_end_at(s, i + 1, j);
    } else {
        lemma_word_end(s, i + 1);
    }
}

/// The decimal digits of `n`, most significant first.
pub open spec fn dec_str(n: int) -> Seq<char>
    decreases n,
{
    if n < 0 {
        Seq::empty()
    } else if n < 10 {
        seq![digit_char(n)]
    } else {
        dec_str(n / 10) + seq![digit_char(n % 10)]
    }
}

/// The character for one decimal digit.
pub open spec fn digit_char(d: int) -> char {
    if d == 0 {
        '0'
    } else if d == 1 {
        '1'
    } else if d == 2 {
        '2'
    } else if d == 3 {
        '3'
    } else if d == 4 {
        '4'
    } else if d == 5 {
        '5'
    } else if d == 6 {
        '6'
    } else if d == 7 {
        '7'
    } else if d == 8 {
        '8'
    } else {
        '9'
    }
}

pub fn digit_char_exec(d: u64) -> (r: char)
    requires
        d < 10,
    ensures
        r == digit_char(d as int),
{
    if d == 0 {
        '0'
    } else if d == 1 {
        '1'
    } else if d == 2 {
        '2'
    } else if d == 3 {
        '3'
    } else if d == 4 {
        '4'
    } else if d == 5 {
        '5'
    } else if d == 6 {
        '6'
    } else if d == 7 {
        '7'
    } else if d == 8 {
        '8'
    } else {
        '9'
    }
}

/// Appends the decimal rendering of `n` to `out`.
pub fn push_dec(n: u64, out: &mut String)
    ensures
        final(out)@ == old(out)@ + dec_str(n as int),
    decreases n,
{
    if n < 10 {
        push_char(out, digit_char_exec(n));
    } else {
        push_dec(n / 10, out);
        push_char(out, digit_char_exec(n % 10));
    }
}

/// Decides whether two strings hold the same characters.
pub fn str_eq(a: &str, b: &str) -> (r: bool)
    ensures
        r == (a@ == b@),
{
    let an = a.unicode_len();
    let bn = b.unicode_len();
    if an != bn {
        proof {
            assert(a@ != b@);
        }
        return false;
    }
    let mut i: usize = 0;
    while i < an
        invariant
            an == a@.len(),
            an == b@.len(),
            i <= an,
            forall|k: int| 0 <= k < i ==> a@[k] == b@[k],
        decreases an - i,
    {
        if a.get_char(i) != b.get_char(i) {
            return false;
        }
        i = i + 1;
    }
    proof {
        assert(a@ =~= b@);
    }
    true
}

/// Lowercasing as `str::to_lowercase` performs it: a function of the
/// characters alone.
pub uninterp spec fn lower_of(s: Seq<char>) -> Seq<char>;

/// Relies on `str::to_lowercase` for Unicode lowercasing.
#[verifier::external_body]
pub fn to_lower(s: &str) -> (r: String)
    ensures
        r@ == lower_of(s@),
{
    s.to_lowercase()
}

/// Relies on `String::push`, which appends one character.
#[verifier::external_body]
pub fn push_char(s: &mut String, c: char)
    ensures
        final(s)@ == old(s)@ + seq![c],
{
    s.push(c)
}

} // verus!
