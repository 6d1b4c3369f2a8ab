//! The relevance heuristic: how well a text blob matches a query.
//!
//! The score is computed over lowercased text in fixed-point form, in
//! thousandths, so that `1000` stands for a full score of `1.0`. Raw points
//! are counted in tenths: a full phrase match is worth ten tenths, each
//! content word containing a query word one tenth, and each defined
//! identifier contained in the query five tenths; the total is divided by
//! ten and clamped to one, which in thousandths is `min(raw * 10, 1000)`.

use vstd::prelude::*;
use crate::text::{
    chars_of, contains_sub, lower_of, seq_contains, split_words, to_lower, words,
};

verus! {

/// The identifiers introduced by definition keywords in `s`: for each
/// non-overlapping match of the pattern
/// `\b(fn|function|def|class|struct|interface)\s+(\w+)`, the second capture,
/// in match order — a function of the text alone.
pub uninterp spec fn identifiers_of(s: Seq<char>) -> Seq<Seq<char>>;

/// Relies on `regex::Regex::captures_iter` with the fixed pattern above:
/// yields the captured identifier of each non-overlapping match, in order.
#[verifier::external_body]
fn definition_identifiers(content: &str) -> (r: Vec<String>)
    ensures
        r.deep_view() == identifiers_of(content@),
{
    let pattern = regex::Regex::new("\\b(fn|function|def|class|struct|interface)\\s+(\\w+)")
        .unwrap();
    let mut out = Vec::new();
    for cap in pattern.captures_iter(content) {
        if let Some(m) = cap.get(2) {
            out.push(m.as_str().to_string());
        }
    }
    out
}

/// Each word of `ids`, lowercased.
pub open spec fn lower_all(ids: Seq<Seq<char>>) -> Seq<Seq<char>> {
    ids.map_values(|w: Seq<char>| lower_of(w))
}

/// How many words of `ws` contain `qw`.
pub open spec fn count_containing(ws: Seq<Seq<char>>, qw: Seq<char>) -> nat
    decreases ws.len(),
{
    if ws.len() == 0 {
        0
    } else {
        (if contains_sub(ws[0], qw) {
            1nat
        } else {
            0nat
        }) + count_containing(ws.skip(1), qw)
    }
}

/// One raw tenth for every content word containing a query word.
pub open spec fn word_points(cws: Seq<Seq<char>>, qws: Seq<Seq<char>>) -> nat
    decreases qws.len(),
{
    if qws.len() == 0 {
        0
    } else {
        count_containing(cws, qws[0]) + word_points(cws, qws.skip(1))
    }
}

/// Five raw tenths for every identifier that is a substring of the query.
pub open spec fn identifier_points(ids: Seq<Seq<char>>, ql: Seq<char>) -> nat
    decreases ids.len(),
{
    if ids.len() == 0 {
        0
    } else {
        (if contains_sub(ql, ids[0]) {
            5nat
        } else {
            0nat
        }) + identifier_points(ids.skip(1), ql)
    }
}

/// The raw score in tenths, over the lowercased content `cl`, the
/// lowercased query `ql`, and the lowercased identifiers `ids`.
pub open spec fn raw_tenths(cl: Seq<char>, ql: Seq<char>, ids: Seq<Seq<char>>) -> nat {
    (if contains_sub(cl, ql) {
        10nat
    } else {
        0nat
    }) + word_points(words(cl), words(ql)) + identifier_points(ids, ql)
}

/// The final relevance score in thousandths: the raw tenths divided by ten
/// and clamped to one.
pub open spec fn relevance_milli(cl: Seq<char>, ql: Seq<char>, ids: Seq<Seq<char>>) -> nat {
    if raw_tenths(cl, ql, ids) >= 100 {
        1000
    } else {
        raw_tenths(cl, ql, ids) * 10
    }
}

/// The raw tenths clamped to one hundred.
spec fn cap100(x: nat) -> nat {
    if x >= 100 {
        100
    } else {
        x
    }
}

/// Counts the words of `ws` that contain `qw`.
fn count_words_containing(ws: &Vec<Vec<char>>, qw: &Vec<char>) -> (r: usize)
    ensures
        r == count_containing(ws.deep_view(), qw@),
{
    let n = ws.len();
    let mut c: usize = 0;
    let mut i: usize = 0;
    proof {
        assert(ws.deep_view().skip(0) =~= ws.deep_view());
    }
    while i < n
        invariant
            n == ws@.len(),
            i <= n,
            c <= i,
            count_containing(ws.deep_view(), qw@) == c + count_containing(
                ws.deep_view().skip(i as int),
                qw@,
            ),
        decreases n - i,
    {
        let ghost dv = ws.deep_view();
        proof {
            assert(dv.skip(i as int)[0] =~= ws@[i as int]@);
            assert(dv.skip(i as int).skip(1) =~= dv.skip(i + 1));
        }
        if seq_contains(&ws[i], qw) {
            c = c + 1;
        }
        i = i + 1;
    }
    proof {
        assert(ws.deep_view().skip(n as int) =~= Seq::<Seq<char>>::empty());
    }
    c
}

/// Adds `b` raw tenths to the running capped total `t`.
fn add_capped(t: u32, b: usize) -> (r: u32)
    requires
        t <= 100,
    ensures
        r == cap100((t + b) as nat),
        r <= 100,
{
    let bc: u32 = if b >= 100 {
        100
    } else {
        b as u32
    };
    if t + bc >= 100 {
        100
    } else {
        t + bc
    }
}

/// The relevance score over already-lowercased content and query
/// characters and already-lowercased identifiers.
pub fn relevance_folded(cl: &Vec<char>, ql: &Vec<char>, ids: &Vec<Vec<char>>) -> (r: u32)
    ensures
        r == relevance_milli(cl@, ql@, ids.deep_view()),
        r <= 1000,
{
    let ghost total = raw_tenths(cl@, ql@, ids.deep_view());
    let ghost cws = words(cl@);
    let ghost qws = words(ql@);
    let mut t: u32 = if seq_contains(cl, ql) {
        10
    } else {
        0
    };
    let ghost mut done: nat = t as nat;

    let cw = split_words(cl);
    let qw = split_words(ql);
    let qn = qw.len();
    let mut qi: usize = 0;
    proof {
        assert(qws.skip(0) =~= qws);
    }
    while qi < qn
        invariant
            qn == qw@.len(),
            cw.deep_view() == cws,
            qw.deep_view() == qws,
            qi <= qn,
            t == cap100(done),
            t <= 100,
            total == done + word_points(cws, qws.skip(qi as int)) + identifier_points(
                ids.deep_view(),
                ql@,
            ),
        decreases qn - qi,
    {
        proof {
            assert(qws.skip(qi as int)[0] =~= qw@[qi as int]@);
            assert(qws.skip(qi as int).skip(1) =~= qws.skip(qi + 1));
        }
        let b = count_words_containing(&cw, &qw[qi]);
        t = add_capped(t, b);
        proof {
            done = done + b as nat;
        }
        qi = qi + 1;
    }
    proof {
        assert(qws.skip(qn as int) =~= Seq::<Seq<char>>::empty());
    }

    let kn = ids.len();
    let mut k: usize = 0;
    proof {
        assert(ids.deep_view().skip(0) =~= ids.deep_view());
    }
    while k < kn
        invariant
            kn == ids@.len(),
            k <= kn,
            t == cap100(done),
            t <= 100,
            total == done + identifier_points(ids.deep_view().skip(k as int), ql@),
        decreases kn - k,
    {
        let ghost idv = ids.deep_view();
        proof {
            assert(idv.skip(k as int)[0] =~= ids@[k as int]@);
            assert(idv.skip(k as int).skip(1) =~= idv.skip(k + 1));
        }
        if seq_contains(ql, &ids[k]) {
            t = add_capped(t, 5);
            proof {
                done = done + 5;
            }
        }
        k = k + 1;
    }
    proof {
        assert(ids.deep_view().skip(kn as int) =~= Seq::<Seq<char>>::empty());
        assert(done == total);
    }
    t * 10
}

/// The relevance of `content` against `query`, in thousandths of the unit
/// score. Always between zero and one thousand inclusive.
pub fn calculate_relevance(content: &str, query: &str) -> (r: u32)
    ensures
        r == relevance_milli(
            lower_of(content@),
            lower_of(query@),
            lower_all(identifiers_of(content@)),
        ),
        r <= 1000,
{
    let cl_s = to_lower(content);
    let ql_s = to_lower(query);
    let cl = chars_of(cl_s.as_str());
    let ql = chars_of(ql_s.as_str());
    let ids = definition_identifiers(content);
    let ghost ids0 = identifiers_of(content@);
    let mut ids_l: Vec<Vec<char>> = Vec::new();
    let n = ids.len();
    let mut i: usize = 0;
    while i < n
        invariant
            n == ids@.len(),
            ids.deep_view() == ids0,
            i <= n,
            ids_l.deep_view() =~~= lower_all(ids0).take(i as int),
        decreases n - i,
    {
        let ghost before = ids_l.deep_view();
        let low = to_lower(ids[i].as_str());
        let lowv = chars_of(low.as_str());
        ids_l.push(lowv);
        proof {
            assert(ids0[i as int] == ids@[i as int]@);
            assert(ids_l.deep_view() =~~= before.push(lower_of(ids0[i as int])));
            assert(ids_l.deep_view() =~~= lower_all(ids0).take(i + 1));
        }
        i = i + 1;
    }
    proof {
        assert(lower_all(ids0).take(n as int) =~= lower_all(ids0));
    }
    relevance_folded(&cl, &ql, &ids_l)
}

} // verus!
