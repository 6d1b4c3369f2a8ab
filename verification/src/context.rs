//! Context assembly: selecting, ranking and token-budgeting the fragments
//! that accompany a prompt, plus the keyed fragment cache.
//!
//! The surrounding application walks the filesystem (using the exclusion
//! rules exported here) and hands over plain values: the current file's
//! text and one `ProjectFile` per readable project file. Everything that
//! decides — relevance, thresholds, ranking, the token budget — happens
//! here. An assembled response never exceeds the requested token budget,
//! and a request naming an unknown strategy fails with `NotFound` and
//! changes nothing.

use vstd::prelude::*;
use vstd::string::StrSliceExecFns;
use vstd::utf8::encode_utf8;
use crate::errors::AiError;
use crate::registry::{file_extension, opt_view};
use crate::relevance::{calculate_relevance, identifiers_of, lower_all, relevance_milli};
use crate::text::lower_of;

verus! {

/// Where a context fragment came from.
#[derive(Debug, Clone, Copy, PartialEq, Eq, Structural)]
pub enum ContextSourceType {
    File,
    Directory,
    Project,
    Selection,
    Documentation,
    Error,
    Log,
}

/// Bookkeeping attached to a context fragment. The relevance score is
/// carried in thousandths: `1000` stands for 1.0.
#[derive(Debug, Clone)]
pub struct ContextMetadata {
    pub source_type: ContextSourceType,
    pub file_path: Option<String>,
    pub language: Option<String>,
    pub size: usize,
    pub relevance_milli: u32,
    pub tags: Vec<String>,
}

/// One context fragment: cached or assembled per request.
#[derive(Debug, Clone)]
pub struct ContextItem {
    pub id: String,
    pub content: String,
    pub metadata: ContextMetadata,
    pub last_accessed: i64,
    pub access_count: u32,
}

/// A named selection policy: how many files and what relevance threshold
/// (in thousandths) govern assembly.
#[derive(Debug, Clone)]
pub struct ContextStrategy {
    pub name: String,
    pub description: String,
    pub max_files: usize,
    pub include_dependencies: bool,
    pub include_tests: bool,
    pub include_documentation: bool,
    pub relevance_threshold_milli: u32,
}

/// One assembly request.
#[derive(Debug, Clone)]
pub struct ContextRequest {
    pub query: String,
    pub current_file: Option<String>,
    pub project_root: Option<String>,
    pub strategy: String,
    pub max_tokens: usize,
    pub include_selection: bool,
    pub selection_content: Option<String>,
}

/// The assembled context: the chosen fragments in rank order, the token
/// total they consume, the strategy used, and the relevance score of
/// every file inspected — included or not.
#[derive(Debug)]
pub struct ContextResponse {
    pub context_items: Vec<ContextItem>,
    pub total_tokens: usize,
    pub strategy_used: String,
    pub relevance_scores: Vec<(String, u32)>,
}

/// One readable project file the application's walk produced.
#[derive(Debug, Clone)]
pub struct ProjectFile {
    pub path: String,
    pub content: String,
}

/// The context manager: the fragment cache and the strategy table, keyed
/// by short strategy names.
#[derive(Debug)]
pub struct ContextManager {
    pub context_cache: Vec<ContextItem>,
    pub context_strategies: Vec<(String, ContextStrategy)>,
    pub max_context_length: usize,
}

/// The ghost image of a context fragment: every field the assembly
/// pipeline determines. Only the wall-clock `last_accessed` stays out.
#[verifier::ext_equal]
pub ghost struct ItemView {
    pub id: Seq<char>,
    pub content: Seq<char>,
    pub source_type: ContextSourceType,
    pub file_path: Option<Seq<char>>,
    pub language: Option<Seq<char>>,
    pub size: int,
    pub rel: int,
    pub tags: Seq<Seq<char>>,
    pub access_count: int,
}

/// The ghost image of one item.
pub open spec fn view_of(it: ContextItem) -> ItemView {
    ItemView {
        id: it.id@,
        content: it.content@,
        source_type: it.metadata.source_type,
        file_path: opt_view(it.metadata.file_path),
        language: opt_view(it.metadata.language),
        size: it.metadata.size as int,
        rel: it.metadata.relevance_milli as int,
        tags: it.metadata.tags.deep_view(),
        access_count: it.access_count as int,
    }
}

/// The ghost images of a fragment list, in order.
pub open spec fn views_of(s: Seq<ContextItem>) -> Seq<ItemView> {
    s.map_values(|it: ContextItem| view_of(it))
}

/// The relevance of `content` against `query`, at the specification
/// level: both lowercased, identifiers extracted and lowercased.
pub open spec fn relevance_of(content: Seq<char>, query: Seq<char>) -> int {
    relevance_milli(lower_of(content), lower_of(query), lower_all(identifiers_of(content))) as int
}

/// The token estimate of a text: one token per four UTF-8 bytes, rounded
/// up.
pub open spec fn tok_of(content: Seq<char>) -> int {
    (encode_utf8(content).len() as int + 3) / 4
}

/// The language tag the retriever attaches, decided by the file
/// extension as written (no case folding).
pub open spec fn lang_of_ext(e: Seq<char>) -> Seq<char> {
    if e == "rs"@ {
        "rust"@
    } else if e == "js"@ {
        "javascript"@
    } else if e == "ts"@ {
        "typescript"@
    } else if e == "tsx"@ {
        "typescript"@
    } else if e == "jsx"@ {
        "javascript"@
    } else if e == "py"@ {
        "python"@
    } else if e == "html"@ {
        "html"@
    } else if e == "css"@ {
        "css"@
    } else if e == "json"@ {
        "json"@
    } else if e == "toml"@ {
        "toml"@
    } else if e == "yaml"@ {
        "yaml"@
    } else if e == "yml"@ {
        "yaml"@
    } else if e == "md"@ {
        "markdown"@
    } else {
        "text"@
    }
}

/// The position of the last path separator in `s` at an index in
/// `[0, i]`, scanning down from `i`.
pub open spec fn last_sep(s: Seq<char>, i: int) -> Option<int>
    decreases i + 1 when i < s.len()
{
    if i < 0 {
        None
    } else if s[i] == '/' {
        Some(i)
    } else {
        last_sep(s, i - 1)
    }
}

/// The final component of a path: everything after the last separator,
/// or the whole path without one.
pub open spec fn base_name(p: Seq<char>) -> Seq<char> {
    match last_sep(p, p.len() - 1) {
        Some(j) => p.subrange(j + 1, p.len() as int),
        None => p,
    }
}

/// The language of an optional file path: decided by the extension of
/// its final component, absent without one — a dotted directory name
/// lends the file no extension.
pub open spec fn lang_of(path: Option<Seq<char>>) -> Option<Seq<char>> {
    match path {
        Some(p) => match file_extension(base_name(p)) {
            Some(e) => Some(lang_of_ext(e)),
            None => None,
        },
        None => None,
    }
}

/// The ghost image of the selection fragment of a request.
pub open spec fn selection_view(req: ContextRequest) -> ItemView {
    ItemView {
        id: "selection"@,
        content: req.selection_content->0@,
        source_type: ContextSourceType::Selection,
        file_path: opt_view(req.current_file),
        language: lang_of(opt_view(req.current_file)),
        size: encode_utf8(req.selection_content->0@).len() as int,
        rel: 1000,
        tags: seq!["selection"@],
        access_count: 1,
    }
}

/// The ghost image of a file fragment: the current file or one project
/// file, tagged accordingly.
pub open spec fn file_view(path: Seq<char>, content: Seq<char>, q: Seq<char>, tag: Seq<char>)
    -> ItemView {
    ItemView {
        id: path,
        content: content,
        source_type: ContextSourceType::File,
        file_path: Some(path),
        language: lang_of(Some(path)),
        size: 0,
        rel: relevance_of(content, q),
        tags: seq![tag],
        access_count: 1,
    }
}

/// The project fragments that pass the threshold, in walk order.
pub open spec fn proj_passing(files: Seq<ProjectFile>, q: Seq<char>, thr: int) -> Seq<ItemView>
    decreases files.len(),
{
    if files.len() == 0 {
        Seq::empty()
    } else {
        let head = if relevance_of(files[0].content@, q) >= thr {
            seq![file_view(files[0].path@, files[0].content@, q, "project_file"@)]
        } else {
            Seq::<ItemView>::empty()
        };
        head + proj_passing(files.skip(1), q, thr)
    }
}

/// Stable descending insertion by relevance: an item goes after every
/// item at least as relevant as itself.
pub open spec fn insert_desc(sorted: Seq<ItemView>, x: ItemView) -> Seq<ItemView>
    decreases sorted.len(),
{
    if sorted.len() == 0 {
        seq![x]
    } else if sorted[0].rel < x.rel {
        seq![x] + sorted
    } else {
        seq![sorted[0]] + insert_desc(sorted.skip(1), x)
    }
}

/// Stable sort by relevance, descending: ties keep encounter order.
pub open spec fn sort_desc(s: Seq<ItemView>) -> Seq<ItemView>
    decreases s.len(),
{
    if s.len() == 0 {
        Seq::empty()
    } else {
        insert_desc(sort_desc(s.drop_last()), s.last())
    }
}

/// Greedy prefix packing: items enter in order while the running token
/// total stays within the budget; the first overflow stops packing.
/// Returns the packed items and their token total.
pub open spec fn packed(s: Seq<ItemView>, budget: int, used: int) -> (Seq<ItemView>, int)
    decreases s.len(),
{
    if s.len() == 0 {
        (Seq::empty(), used)
    } else if used + tok_of(s[0].content) <= budget {
        let rest = packed(s.skip(1), budget, used + tok_of(s[0].content));
        (seq![s[0]] + rest.0, rest.1)
    } else {
        (Seq::empty(), used)
    }
}

/// The candidate fragments of a request, in encounter order: the
/// selection, the current file if it passes the threshold, then the
/// ranked, truncated and capped project fragments.
pub open spec fn candidates(
    req: ContextRequest,
    st: ContextStrategy,
    cur_content: Option<String>,
    project_files: Seq<ProjectFile>,
) -> Seq<ItemView> {
    let q = req.query@;
    let thr = st.relevance_threshold_milli as int;
    let sel: Seq<ItemView> = if req.include_selection && req.selection_content is Some {
        seq![selection_view(req)]
    } else {
        Seq::empty()
    };
    let cur: Seq<ItemView> = if req.current_file is Some && cur_content is Some && relevance_of(
        cur_content->0@,
        q,
    ) >= thr {
        seq![file_view(req.current_file->0@, cur_content->0@, q, "current_file"@)]
    } else {
        Seq::empty()
    };
    let base = sel + cur;
    let proj: Seq<ItemView> = if st.max_files > 1 && req.project_root is Some {
        let ranked = sort_desc(proj_passing(project_files, q, thr));
        let trunc = if ranked.len() > st.max_files {
            ranked.take(st.max_files as int)
        } else {
            ranked
        };
        if base.len() < st.max_files {
            if trunc.len() > st.max_files - base.len() {
                trunc.take(st.max_files - base.len())
            } else {
                trunc
            }
        } else {
            Seq::empty()
        }
    } else {
        Seq::empty()
    };
    base + proj
}

/// What a successful assembly returns: the candidates ranked, capped at
/// the strategy's file limit, and packed — so a response never holds more
/// than `max_files` fragments, whatever the candidates were.
pub open spec fn assembled(
    req: ContextRequest,
    st: ContextStrategy,
    cur_content: Option<String>,
    project_files: Seq<ProjectFile>,
) -> (Seq<ItemView>, int) {
    let ranked = sort_desc(candidates(req, st, cur_content, project_files));
    let capped = if ranked.len() > st.max_files {
        ranked.take(st.max_files as int)
    } else {
        ranked
    };
    packed(capped, req.max_tokens as int, 0)
}

/// The index of the first score entry for `path`, scanning from `i`.
pub open spec fn score_idx(ss: Seq<(Seq<char>, int)>, path: Seq<char>, i: int) -> Option<int>
    decreases ss.len() - i + 1 when i >= 0
{
    if i >= ss.len() {
        None
    } else if ss[i].0 == path {
        Some(i)
    } else {
        score_idx(ss, path, i + 1)
    }
}

/// A score map after recording one file's relevance: an existing entry
/// for the path is overwritten, otherwise the entry is appended.
pub open spec fn score_upsert(ss: Seq<(Seq<char>, int)>, path: Seq<char>, rel: int) -> Seq<
    (Seq<char>, int),
> {
    match score_idx(ss, path, 0) {
        Some(j) => ss.update(j, (path, rel)),
        None => ss.push((path, rel)),
    }
}

/// The relevance map of a request: the current file's score when its
/// text was readable, then one entry per walked project file — every
/// file inspected, included in the response or not.
pub open spec fn scores_after(
    ss: Seq<(Seq<char>, int)>,
    files: Seq<ProjectFile>,
    q: Seq<char>,
) -> Seq<(Seq<char>, int)>
    decreases files.len(),
{
    if files.len() == 0 {
        ss
    } else {
        scores_after(
            score_upsert(ss, files[0].path@, relevance_of(files[0].content@, q)),
            files.skip(1),
            q,
        )
    }
}

/// The full expected relevance map of a request.
pub open spec fn expected_scores(
    req: ContextRequest,
    st: ContextStrategy,
    cur_content: Option<String>,
    project_files: Seq<ProjectFile>,
) -> Seq<(Seq<char>, int)> {
    let base: Seq<(Seq<char>, int)> = if req.current_file is Some && cur_content is Some {
        seq![(req.current_file->0@, relevance_of(cur_content->0@, req.query@))]
    } else {
        Seq::empty()
    };
    if st.max_files > 1 && req.project_root is Some {
        scores_after(base, project_files, req.query@)
    } else {
        base
    }
}

/// The index of the first strategy entry with the given key, scanning
/// from `i`.
pub open spec fn strat_idx(
    ss: Seq<(String, ContextStrategy)>,
    name: Seq<char>,
    i: int,
) -> Option<int>
    decreases ss.len() - i + 1 when i >= 0
{
    if i >= ss.len() {
        None
    } else if ss[i].0@ == name {
        Some(i)
    } else {
        strat_idx(ss, name, i + 1)
    }
}

/// The index of the first cached fragment with the given id, scanning
/// from `i`.
pub open spec fn cache_idx(cc: Seq<ContextItem>, id: Seq<char>, i: int) -> Option<int>
    decreases cc.len() - i + 1 when i >= 0
{
    if i >= cc.len() {
        None
    } else if cc[i].id@ == id {
        Some(i)
    } else {
        cache_idx(cc, id, i + 1)
    }
}

/// Total content bytes held in the cache.
pub open spec fn cache_bytes(cc: Seq<ContextItem>) -> int
    decreases cc.len(),
{
    if cc.len() == 0 {
        0
    } else {
        cache_bytes(cc.drop_last()) + encode_utf8(cc.last().content@).len()
    }
}

/// Relies on chrono's `Utc::now`: the current wall-clock time in
/// milliseconds since the epoch. Nothing is promised of the value.
#[verifier::external_body]
fn now_millis() -> i64 {
    chrono::Utc::now().timestamp_millis()
}

/// The final component of a path.
fn base_name_exec<'a>(p: &'a str) -> (r: &'a str)
    ensures
        r@ == base_name(p@),
{
    let v = crate::text::chars_of(p);
    let len = v.len();
    if len == 0 {
        return p;
    }
    let mut i: usize = len - 1;
    loop
        invariant
            len == p@.len(),
            len >= 1,
            v@ == p@,
            i <= len - 1,
            last_sep(p@, (len - 1) as int) == last_sep(p@, i as int),
        decreases i,
    {
        if v[i] == '/' {
            return p.substring_char(i + 1, len);
        }
        if i == 0 {
            proof {
                assert(last_sep(p@, 0) == last_sep(p@, -1));
                assert(last_sep(p@, -1) is None);
            }
            return p;
        }
        i = i - 1;
    }
}

/// The language tag for an optional file path, decided by the extension
/// of its final component.
pub fn detect_language(file_path: &Option<String>) -> (r: Option<String>)
    ensures
        opt_view(r) == lang_of(opt_view(*file_path)),
{
    match file_path {
        Some(p) => match crate::registry::raw_extension(base_name_exec(p.as_str())) {
            Some(e) => {
                let tag: &str = if crate::text::str_eq(e.as_str(), "rs") {
                    "rust"
                } else if crate::text::str_eq(e.as_str(), "js") {
                    "javascript"
                } else if crate::text::str_eq(e.as_str(), "ts") {
                    "typescript"
                } else if crate::text::str_eq(e.as_str(), "tsx") {
                    "typescript"
                } else if crate::text::str_eq(e.as_str(), "jsx") {
                    "javascript"
                } else if crate::text::str_eq(e.as_str(), "py") {
                    "python"
                } else if crate::text::str_eq(e.as_str(), "html") {
                    "html"
                } else if crate::text::str_eq(e.as_str(), "css") {
                    "css"
                } else if crate::text::str_eq(e.as_str(), "json") {
                    "json"
                } else if crate::text::str_eq(e.as_str(), "toml") {
                    "toml"
                } else if crate::text::str_eq(e.as_str(), "yaml") {
                    "yaml"
                } else if crate::text::str_eq(e.as_str(), "yml") {
                    "yaml"
                } else if crate::text::str_eq(e.as_str(), "md") {
                    "markdown"
                } else {
                    "text"
                };
                Some(String::from_str(tag))
            },
            None => None,
        },
        None => None,
    }
}

/// The token estimate of a text: one token per four UTF-8 bytes, rounded
/// up.
pub fn estimate_tokens(text: &str) -> (r: usize)
    ensures
        r == tok_of(text@),
{
    let bytes = text.as_bytes();
    let len = bytes.len();
    let r = len / 4 + (if len % 4 != 0 {
        1
    } else {
        0
    });
    proof {
        let n = len as int;
        assert(n == 4 * (n / 4) + (n % 4)) by {
            vstd::arithmetic::div_mod::lemma_fundamental_div_mod(n, 4);
        }
        assert(r == (n + 3) / 4) by {
            vstd::arithmetic::div_mod::lemma_fundamental_div_mod(n + 3, 4);
        }
    }
    r
}

proof fn lemma_views_skip(s: Seq<ContextItem>, k: int)
    requires
        0 <= k <= s.len(),
    ensures
        views_of(s.skip(k)) == views_of(s).skip(k),
{
    assert forall|i: int| 0 <= i < views_of(s.skip(k)).len() implies views_of(s.skip(k))[i]
        == views_of(s).skip(k)[i] by {
        assert(s.skip(k)[i] == s[k + i]);
    }
    assert(views_of(s.skip(k)) =~= views_of(s).skip(k));
}

proof fn lemma_views_take(s: Seq<ContextItem>, k: int)
    requires
        0 <= k <= s.len(),
    ensures
        views_of(s.take(k)) == views_of(s).take(k),
{
    assert forall|i: int| 0 <= i < views_of(s.take(k)).len() implies views_of(s.take(k))[i]
        == views_of(s).take(k)[i] by {
        assert(s.take(k)[i] == s[i]);
    }
    assert(views_of(s.take(k)) =~= views_of(s).take(k));
}

proof fn lemma_views_concat(a: Seq<ContextItem>, b: Seq<ContextItem>)
    ensures
        views_of(a + b) == views_of(a) + views_of(b),
{
    assert forall|i: int| 0 <= i < views_of(a + b).len() implies views_of(a + b)[i] == (views_of(a)
        + views_of(b))[i] by {
        if i < a.len() {
            assert((a + b)[i] == a[i]);
        } else {
            assert((a + b)[i] == b[i - a.len()]);
        }
    }
    assert(views_of(a + b) =~= views_of(a) + views_of(b));
}

proof fn lemma_insert_desc_len(s: Seq<ItemView>, x: ItemView)
    ensures
        insert_desc(s, x).len() == s.len() + 1,
    decreases s.len(),
{
    if s.len() > 0 && !(s[0].rel < x.rel) {
        lemma_insert_desc_len(s.skip(1), x);
    }
}

proof fn lemma_sort_desc_len(s: Seq<ItemView>)
    ensures
        sort_desc(s).len() == s.len(),
    decreases s.len(),
{
    if s.len() > 0 {
        lemma_sort_desc_len(s.drop_last());
        lemma_insert_desc_len(sort_desc(s.drop_last()), s.last());
    }
}

proof fn lemma_packed_bounds(s: Seq<ItemView>, budget: int, used: int)
    requires
        used <= budget,
    ensures
        packed(s, budget, used).0.len() <= s.len(),
        packed(s, budget, used).1 <= budget,
        used <= packed(s, budget, used).1,
    decreases s.len(),
{
    if s.len() > 0 && used + tok_of(s[0].content) <= budget {
        lemma_packed_bounds(s.skip(1), budget, used + tok_of(s[0].content));
    }
}

/// Law of the zero budget: when every candidate has a nonempty text —
/// and so costs at least one token — a budget of zero packs nothing and
/// consumes nothing, whatever the candidates are.
pub proof fn lemma_zero_budget(s: Seq<ItemView>)
    requires
        forall|i: int| 0 <= i < s.len() ==> (#[trigger] s[i]).content.len() > 0,
    ensures
        packed(s, 0, 0).0 == Seq::<ItemView>::empty(),
        packed(s, 0, 0).1 == 0,
{
    if s.len() > 0 {
        lemma_encode_nonempty(s[0].content);
    }
}

proof fn lemma_encode_nonempty(s: Seq<char>)
    requires
        s.len() > 0,
    ensures
        encode_utf8(s).len() > 0,
        tok_of(s) >= 1,
{
    assert(vstd::utf8::encode_scalar(s[0] as u32).len() >= 1);
}

/// Inserts `it` into an already sorted prefix, keeping descending
/// relevance order and leaving equal scores in encounter order.
fn insert_item(out: &mut Vec<ContextItem>, it: ContextItem)
    ensures
        views_of(final(out)@) == insert_desc(views_of(old(out)@), view_of(it)),
{
    let n = out.len();
    let mut p: usize = 0;
    while p < n && out[p].metadata.relevance_milli >= it.metadata.relevance_milli
        invariant
            n == out@.len(),
            out@ == old(out)@,
            p <= n,
            forall|k: int| 0 <= k < p ==> !(views_of(out@)[k].rel < view_of(it).rel),
        decreases n - p,
    {
        proof {
            assert(views_of(out@)[p as int] == view_of(out@[p as int]));
        }
        p = p + 1;
    }
    let ghost pre = views_of(out@);
    let ghost x = view_of(it);
    proof {
        if p < n {
            assert(pre[p as int] == view_of(out@[p as int]));
        }
        lemma_insert_desc_at(pre, x, p as int);
    }
    out.insert(p, it);
    proof {
        assert(views_of(out@) =~~= pre.take(p as int) + seq![x] + pre.skip(p as int));
    }
}

proof fn lemma_insert_desc_at(s: Seq<ItemView>, x: ItemView, p: int)
    requires
        0 <= p <= s.len(),
        forall|k: int| 0 <= k < p ==> !(s[k].rel < x.rel),
        p < s.len() ==> s[p].rel < x.rel,
    ensures
        insert_desc(s, x) == s.take(p) + seq![x] + s.skip(p),
    decreases p,
{
    if p == 0 {
        assert(insert_desc(s, x) =~= s.take(0) + seq![x] + s.skip(0));
    } else {
        lemma_insert_desc_at(s.skip(1), x, p - 1);
        assert(s.skip(1).take(p - 1) =~= s.take(p).skip(1));
        assert(s.skip(1).skip(p - 1) =~= s.skip(p));
        assert(insert_desc(s, x) =~= s.take(p) + seq![x] + s.skip(p));
    }
}

/// Sorts fragments by relevance, descending and stable.
fn sort_items(items: Vec<ContextItem>) -> (r: Vec<ContextItem>)
    ensures
        views_of(r@) == sort_desc(views_of(items@)),
{
    let ghost orig = items@;
    let mut rest = items;
    let mut out: Vec<ContextItem> = Vec::new();
    let ghost mut done: int = 0;
    proof {
        assert(views_of(out@) =~= sort_desc(views_of(orig.take(0))));
        assert(rest@ =~= orig.skip(0));
    }
    while rest.len() > 0
        invariant
            0 <= done <= orig.len(),
            rest@ == orig.skip(done),
            views_of(out@) == sort_desc(views_of(orig.take(done))),
        decreases rest@.len(),
    {
        let ghost entry = rest@;
        let it = rest.remove(0);
        proof {
            assert(it == orig[done]);
            assert(rest@ =~= orig.skip(done + 1));
            let p1 = orig.take(done + 1);
            lemma_views_take(orig, done + 1);
            lemma_views_take(orig, done);
            assert(views_of(p1).drop_last() =~= views_of(orig.take(done)));
            assert(views_of(p1).last() == view_of(it));
        }
        insert_item(&mut out, it);
        proof {
            done = done + 1;
        }
    }
    proof {
        assert(orig.skip(done).len() == 0);
        assert(orig.take(done) =~= orig);
    }
    out
}

/// Packs sorted fragments greedily under the token budget.
fn pack_items(sorted: Vec<ContextItem>, budget: usize) -> (r: (Vec<ContextItem>, usize))
    ensures
        views_of(r.0@) == packed(views_of(sorted@), budget as int, 0).0,
        r.1 as int == packed(views_of(sorted@), budget as int, 0).1,
        r.1 <= budget,
{
    let ghost origi = sorted@;
    let ghost orig = views_of(sorted@);
    let mut rest = sorted;
    let mut out: Vec<ContextItem> = Vec::new();
    let mut total: usize = 0;
    let ghost mut done: int = 0;
    proof {
        assert(rest@ =~= origi.skip(0));
        lemma_views_skip(origi, 0);
        assert(packed(orig, budget as int, 0).0 =~= views_of(out@) + packed(
            orig.skip(0),
            budget as int,
            0,
        ).0);
    }
    while rest.len() > 0
        invariant
            0 <= done <= origi.len(),
            origi == sorted@,
            orig == views_of(origi),
            rest@ == origi.skip(done),
            total <= budget,
            packed(orig, budget as int, 0).0 == views_of(out@) + packed(
                orig.skip(done),
                budget as int,
                total as int,
            ).0,
            packed(orig, budget as int, 0).1 == packed(
                orig.skip(done),
                budget as int,
                total as int,
            ).1,
        decreases rest@.len(),
    {
        let ghost suffix = orig.skip(done);
        proof {
            lemma_views_skip(origi, done);
            assert(suffix.len() == rest@.len());
            assert(suffix[0] == view_of(rest@[0]));
        }
        let t = estimate_tokens(rest[0].content.as_str());
        if t > budget - total {
            proof {
                assert(packed(suffix, budget as int, total as int).0 =~= Seq::<ItemView>::empty());
                assert(packed(orig, budget as int, 0).0 =~= views_of(out@));
                assert(packed(suffix, budget as int, total as int).1 == total as int);
            }
            return (out, total);
        }
        let it = rest.remove(0);
        let ghost outpre = views_of(out@);
        out.push(it);
        total = total + t;
        proof {
            done = done + 1;
            assert(rest@ =~= origi.skip(done));
            assert(views_of(out@) =~~= outpre.push(view_of(it)));
            assert(suffix.skip(1) =~= orig.skip(done));
            assert(views_of(out@) + packed(orig.skip(done), budget as int, total as int).0
                =~= outpre + packed(suffix, budget as int, (total - t) as int).0);
        }
    }
    proof {
        assert(orig.skip(done).len() == 0);
        assert(orig.skip(done) =~= Seq::<ItemView>::empty());
        assert(packed(orig, budget as int, 0).0 =~= views_of(out@));
    }
    (out, total)
}

/// Records one inspected file's relevance, overwriting an earlier entry
/// for the same path.
fn record_score(scores: &mut Vec<(String, u32)>, path: &String, rel: u32)
    ensures
        scores_view(final(scores)@) == score_upsert(scores_view(old(scores)@), path@, rel as int),
{
    let n = scores.len();
    let mut i: usize = 0;
    while i < n
        invariant
            n == scores@.len(),
            scores@ == old(scores)@,
            i <= n,
            score_idx(scores_view(scores@), path@, 0) == score_idx(
                scores_view(scores@),
                path@,
                i as int,
            ),
        decreases n - i,
    {
        proof {
            assert(scores_view(scores@)[i as int] == (scores@[i as int].0@, scores@[
                i as int
            ].1 as int));
        }
        if crate::text::str_eq(scores[i].0.as_str(), path.as_str()) {
            let ghost pre = scores_view(scores@);
            scores[i] = (path.clone(), rel);
            proof {
                assert(scores_view(scores@) =~~= pre.update(i as int, (path@, rel as int)));
            }
            return ;
        }
        i = i + 1;
    }
    let ghost pre = scores_view(scores@);
    scores.push((path.clone(), rel));
    proof {
        assert(scores_view(scores@) =~~= pre.push((path@, rel as int)));
    }
}

/// The ghost image of the score table.
pub open spec fn scores_view(ss: Seq<(String, u32)>) -> Seq<(Seq<char>, int)> {
    ss.map_values(|p: (String, u32)| (p.0@, p.1 as int))
}

/// A copy of an optional string.
fn clone_opt_string(o: &Option<String>) -> (r: Option<String>)
    ensures
        r == *o,
{
    match o {
        Some(s) => Some(s.clone()),
        None => None,
    }
}

/// What a successful assembly promises: the packed fragments with their
/// token total, the strategy echoed back, the relevance map of every
/// inspected file, the budget respected, and — without a selection — at
/// most `max_files` fragments.
pub open spec fn context_ok(
    resp: ContextResponse,
    req: ContextRequest,
    st: ContextStrategy,
    cur_content: Option<String>,
    files: Seq<ProjectFile>,
) -> bool {
    &&& views_of(resp.context_items@) == assembled(req, st, cur_content, files).0
    &&& resp.total_tokens as int == assembled(req, st, cur_content, files).1
    &&& resp.total_tokens <= req.max_tokens
    &&& resp.strategy_used@ == req.strategy@
    &&& scores_view(resp.relevance_scores@) == expected_scores(req, st, cur_content, files)
    &&& resp.context_items@.len() <= st.max_files
}

impl ContextManager {
    /// Every registered strategy admits at least one file.
    pub open spec fn wf(self) -> bool {
        forall|i: int|
            0 <= i < self.context_strategies@.len() ==> (#[trigger] self.context_strategies@[
                i
            ]).1.max_files >= 1
    }

    /// A fresh manager with the four built-in strategies, an empty cache
    /// and a 4096-token default context length.
    pub fn new() -> (r: Self)
        ensures
            r.context_cache@ == Seq::<ContextItem>::empty(),
            r.max_context_length == 4096,
            r.context_strategies@.len() == 4,
            r.context_strategies@[0].0@ == "file"@,
            r.context_strategies@[0].1.max_files == 1,
            r.context_strategies@[0].1.relevance_threshold_milli == 0,
            r.context_strategies@[1].0@ == "project"@,
            r.context_strategies@[1].1.max_files == 20,
            r.context_strategies@[1].1.relevance_threshold_milli == 300,
            r.context_strategies@[2].0@ == "smart"@,
            r.context_strategies@[2].1.max_files == 10,
            r.context_strategies@[2].1.relevance_threshold_milli == 500,
            r.context_strategies@[3].0@ == "selection"@,
            r.context_strategies@[3].1.max_files == 3,
            r.context_strategies@[3].1.relevance_threshold_milli == 0,
            r.wf(),
    {
        let mut strategies: Vec<(String, ContextStrategy)> = Vec::new();
        strategies.push(
            (
                String::from_str("file"),
                ContextStrategy {
                    name: String::from_str("File Context"),
                    description: String::from_str("Include only the current file content"),
                    max_files: 1,
                    include_dependencies: false,
                    include_tests: false,
                    include_documentation: false,
                    relevance_threshold_milli: 0,
                },
            ),
        );
        strategies.push(
            (
                String::from_str("project"),
                ContextStrategy {
                    name: String::from_str("Project Context"),
                    description: String::from_str(
                        "Include relevant files from the entire project",
                    ),
                    max_files: 20,
                    include_dependencies: true,
                    include_tests: true,
                    include_documentation: true,
                    relevance_threshold_milli: 300,
                },
            ),
        );
        strategies.push(
            (
                String::from_str("smart"),
                ContextStrategy {
                    name: String::from_str("Smart Context"),
                    description: String::from_str(
                        "Intelligently select the most relevant context",
                    ),
                    max_files: 10,
                    include_dependencies: true,
                    include_tests: false,
                    include_documentation: true,
                    relevance_threshold_milli: 500,
                },
            ),
        );
        strategies.push(
            (
                String::from_str("selection"),
                ContextStrategy {
                    name: String::from_str("Selection Context"),
                    description: String::from_str(
                        "Include only the selected code and minimal surrounding context",
                    ),
                    max_files: 3,
                    include_dependencies: false,
                    include_tests: false,
                    include_documentation: false,
                    relevance_threshold_milli: 0,
                },
            ),
        );
        ContextManager {
            context_cache: Vec::new(),
            context_strategies: strategies,
            max_context_length: 4096,
        }
    }

    /// The index of the strategy registered under the given key, if any.
    fn find_strategy(&self, name: &str) -> (r: Option<usize>)
        ensures
            match r {
                Some(si) => strat_idx(self.context_strategies@, name@, 0) == Some(si as int) && si
                    < self.context_strategies@.len(),
                None => strat_idx(self.context_strategies@, name@, 0) is None,
            },
    {
        let ss = &self.context_strategies;
        let n = ss.len();
        let mut i: usize = 0;
        while i < n
            invariant
                n == ss@.len(),
                ss@ == self.context_strategies@,
                i <= n,
                strat_idx(ss@, name@, 0) == strat_idx(ss@, name@, i as int),
            decreases n - i,
        {
            if crate::text::str_eq(ss[i].0.as_str(), name) {
                return Some(i);
            }
            i = i + 1;
        }
        None
    }

    /// Assembles the context for one request.
    ///
    /// The application resolves `current_file_content` (the current
    /// file's text, when the file exists and is readable) and
    /// `project_files` (one entry per readable project file from the
    /// walk). An unknown strategy name fails with `NotFound` and changes
    /// nothing; the manager itself is never changed.
    #[verifier::rlimit(100)]
    #[verifier::spinoff_prover]
    pub fn get_context(
        &mut self,
        request: ContextRequest,
        current_file_content: Option<String>,
        project_files: Vec<ProjectFile>,
    ) -> (r: Result<ContextResponse, AiError>)
        requires
            old(self).wf(),
        ensures
            *final(self) == *old(self),
            strat_idx(old(self).context_strategies@, request.strategy@, 0) is None ==> (r matches
                Err(e) && e is NotFound),
            strat_idx(old(self).context_strategies@, request.strategy@, 0) matches Some(si) ==> (r
                matches Ok(resp) && context_ok(
                resp,
                request,
                old(self).context_strategies@[si].1,
                current_file_content,
                project_files@,
            )),
    {
        let si = match self.find_strategy(request.strategy.as_str()) {
            Some(si) => si,
            None => {
                let mut m = String::from_str("Unknown context strategy: ");
                m.append(request.strategy.as_str());
                return Err(AiError::NotFound(m));
            },
        };
        let ghost stg = self.context_strategies@[si as int].1;
        let max_files = self.context_strategies[si].1.max_files;
        let threshold = self.context_strategies[si].1.relevance_threshold_milli;
        let ghost q = request.query@;
        let ghost thr = threshold as int;

        let mut items: Vec<ContextItem> = Vec::new();
        let mut scores: Vec<(String, u32)> = Vec::new();

        if request.include_selection {
            match &request.selection_content {
                Some(sc) => {
                    let mut tags: Vec<String> = Vec::new();
                    tags.push(String::from_str("selection"));
                    let item = ContextItem {
                        id: String::from_str("selection"),
                        content: sc.clone(),
                        metadata: ContextMetadata {
                            source_type: ContextSourceType::Selection,
                            file_path: clone_opt_string(&request.current_file),
                            language: detect_language(&request.current_file),
                            size: sc.as_str().as_bytes().len(),
                            relevance_milli: 1000,
                            tags,
                        },
                        last_accessed: now_millis(),
                        access_count: 1,
                    };
                    proof {
                        assert(view_of(item) =~~= selection_view(request));
                    }
                    items.push(item);
                },
                None => {},
            }
        }
        let ghost sel_views = views_of(items@);
        proof {
            assert(sel_views =~~= if request.include_selection && request.selection_content
                is Some {
                seq![selection_view(request)]
            } else {
                Seq::<ItemView>::empty()
            });
        }

        match (&request.current_file, &current_file_content) {
            (Some(p), Some(c)) => {
                let rel = calculate_relevance(c.as_str(), request.query.as_str());
                record_score(&mut scores, p, rel);
                if rel >= threshold {
                    let mut tags: Vec<String> = Vec::new();
                    tags.push(String::from_str("current_file"));
                    let item = ContextItem {
                        id: p.clone(),
                        content: c.clone(),
                        metadata: ContextMetadata {
                            source_type: ContextSourceType::File,
                            file_path: clone_opt_string(&request.current_file),
                            language: detect_language(&request.current_file),
                            size: 0,
                            relevance_milli: rel,
                            tags,
                        },
                        last_accessed: now_millis(),
                        access_count: 1,
                    };
                    proof {
                        assert(view_of(item) =~~= file_view(
                            request.current_file->0@,
                            current_file_content->0@,
                            q,
                            "current_file"@,
                        ));
                    }
                    items.push(item);
                }
            },
            _ => {},
        }
        let ghost base_views = views_of(items@);
        let ghost cur_views: Seq<ItemView> = if request.current_file is Some
            && current_file_content is Some && relevance_of(current_file_content->0@, q) >= thr {
            seq![file_view(request.current_file->0@, current_file_content->0@, q, "current_file"@)]
        } else {
            Seq::<ItemView>::empty()
        };
        proof {
            assert(base_views =~~= sel_views + cur_views);
        }
        let ghost base_scores = scores_view(scores@);
        proof {
            assert(base_scores =~~= if request.current_file is Some && current_file_content
                is Some {
                seq![(request.current_file->0@, relevance_of(current_file_content->0@, q))]
            } else {
                Seq::<(Seq<char>, int)>::empty()
            });
        }

        let base_len = items.len();
        if max_files > 1 && request.project_root.is_some() {
            let fs = &project_files;
            let fn_ = fs.len();
            let mut passing: Vec<ContextItem> = Vec::new();
            let mut fi: usize = 0;
            proof {
                assert(fs@.skip(0) =~= fs@);
            }
            while fi < fn_
                invariant
                    fn_ == fs@.len(),
                    fs@ == project_files@,
                    fi <= fn_,
                    thr == threshold as int,
                    q == request.query@,
                    proj_passing(fs@, q, thr) == views_of(passing@) + proj_passing(
                        fs@.skip(fi as int),
                        q,
                        thr,
                    ),
                    scores_after(base_scores, fs@, q) == scores_after(
                        scores_view(scores@),
                        fs@.skip(fi as int),
                        q,
                    ),
                decreases fn_ - fi,
            {
                let ghost suffix = fs@.skip(fi as int);
                proof {
                    assert(suffix[0] == fs@[fi as int]);
                    assert(suffix.skip(1) =~= fs@.skip(fi + 1));
                }
                let pf = &fs[fi];
                let rel = calculate_relevance(pf.content.as_str(), request.query.as_str());
                record_score(&mut scores, &pf.path, rel);
                if rel >= threshold {
                    let mut tags: Vec<String> = Vec::new();
                    tags.push(String::from_str("project_file"));
                    let item = ContextItem {
                        id: pf.path.clone(),
                        content: pf.content.clone(),
                        metadata: ContextMetadata {
                            source_type: ContextSourceType::File,
                            file_path: Some(pf.path.clone()),
                            language: detect_language(&Some(pf.path.clone())),
                            size: 0,
                            relevance_milli: rel,
                            tags,
                        },
                        last_accessed: now_millis(),
                        access_count: 1,
                    };
                    let ghost ppre = views_of(passing@);
                    proof {
                        assert(view_of(item) =~~= file_view(
                            fs@[fi as int].path@,
                            fs@[fi as int].content@,
                            q,
                            "project_file"@,
                        ));
                    }
                    passing.push(item);
                    proof {
                        assert(views_of(passing@) =~~= ppre.push(view_of(item)));
                        assert(ppre.push(view_of(item)) + proj_passing(fs@.skip(fi + 1), q, thr)
                            =~= ppre + proj_passing(suffix, q, thr));
                    }
                }
                fi = fi + 1;
            }
            proof {
                assert(fs@.skip(fn_ as int) =~= Seq::<ProjectFile>::empty());
                assert(views_of(passing@) =~= proj_passing(fs@, q, thr));
            }
            let mut ranked = sort_items(passing);
            let ghost ranked0 = ranked@;
            let ghost full = sort_desc(proj_passing(fs@, q, thr));
            ranked.truncate(max_files);
            proof {
                lemma_sort_desc_len(proj_passing(fs@, q, thr));
                if max_files <= ranked0.len() {
                    lemma_views_take(ranked0, max_files as int);
                }
                assert(views_of(ranked@) =~~= if full.len() > stg.max_files {
                    full.take(stg.max_files as int)
                } else {
                    full
                });
            }
            let ghost trunc = if full.len() > stg.max_files {
                full.take(stg.max_files as int)
            } else {
                full
            };
            let allowed: usize = if base_len < max_files {
                max_files - base_len
            } else {
                0
            };
            let ghost ranked1 = ranked@;
            ranked.truncate(allowed);
            proof {
                assert(base_views.len() == base_len) by {
                    assert(base_views == views_of(items@));
                }
                if allowed <= ranked1.len() {
                    lemma_views_take(ranked1, allowed as int);
                }
                assert(views_of(ranked@) =~~= if base_views.len() < stg.max_files {
                    if trunc.len() > stg.max_files - base_views.len() {
                        trunc.take(stg.max_files - base_views.len())
                    } else {
                        trunc
                    }
                } else {
                    Seq::<ItemView>::empty()
                });
            }
            let ghost items0 = items@;
            items.append(&mut ranked);
            proof {
                lemma_views_concat(items0, ranked1.take(allowed as int));
                assert(views_of(items@) =~~= views_of(items0) + views_of(items@.skip(
                    items0.len() as int,
                ))) by {
                    lemma_views_concat(items0, items@.skip(items0.len() as int));
                    assert(items@ =~= items0 + items@.skip(items0.len() as int));
                }
            }
        }
        proof {
            assert(views_of(items@) =~~= candidates(
                request,
                stg,
                current_file_content,
                project_files@,
            ));
            assert(scores_view(scores@) =~~= expected_scores(
                request,
                stg,
                current_file_content,
                project_files@,
            ));
        }

        let mut sorted = sort_items(items);
        let ghost sorted0 = sorted@;
        sorted.truncate(max_files);
        proof {
            let cands = candidates(request, stg, current_file_content, project_files@);
            lemma_sort_desc_len(cands);
            if max_files <= sorted0.len() {
                lemma_views_take(sorted0, max_files as int);
            }
            assert(views_of(sorted@) =~~= if sort_desc(cands).len() > stg.max_files {
                sort_desc(cands).take(stg.max_files as int)
            } else {
                sort_desc(cands)
            });
        }
        let budget = request.max_tokens;
        let (packed_items, total) = pack_items(sorted, budget);
        proof {
            let cands = candidates(request, stg, current_file_content, project_files@);
            let capped = if sort_desc(cands).len() > stg.max_files {
                sort_desc(cands).take(stg.max_files as int)
            } else {
                sort_desc(cands)
            };
            lemma_packed_bounds(capped, budget as int, 0);
        }
        Ok(
            ContextResponse {
                context_items: packed_items,
                total_tokens: total,
                strategy_used: request.strategy,
                relevance_scores: scores,
            },
        )
    }

    /// The index of the cached fragment with the given id, if any.
    fn cache_find(&self, id: &str) -> (r: Option<usize>)
        ensures
            match r {
                Some(j) => cache_idx(self.context_cache@, id@, 0) == Some(j as int) && j
                    < self.context_cache@.len(),
                None => cache_idx(self.context_cache@, id@, 0) is None,
            },
    {
        let cc = &self.context_cache;
        let n = cc.len();
        let mut i: usize = 0;
        while i < n
            invariant
                n == cc@.len(),
                cc@ == self.context_cache@,
                i <= n,
                cache_idx(cc@, id@, 0) == cache_idx(cc@, id@, i as int),
            decreases n - i,
        {
            if crate::text::str_eq(cc[i].id.as_str(), id) {
                return Some(i);
            }
            i = i + 1;
        }
        None
    }

    /// Stores a fragment under `id`, overwriting any fragment already
    /// there; the stored copy starts with an access count of one.
    pub fn cache_context(&mut self, id: String, content: String, metadata: ContextMetadata)
        ensures
            final(self).context_strategies == old(self).context_strategies,
            final(self).max_context_length == old(self).max_context_length,
            ({
                let target = match cache_idx(old(self).context_cache@, id@, 0) {
                    Some(j) => j,
                    None => old(self).context_cache@.len() as int,
                };
                final(self).context_cache@ == cache_upsert(
                    old(self).context_cache@,
                    ContextItem {
                        id: id,
                        content: content,
                        metadata: metadata,
                        last_accessed: final(self).context_cache@[target].last_accessed,
                        access_count: 1,
                    },
                )
            }),
    {
        let slot = self.cache_find(id.as_str());
        let t = now_millis();
        let item = ContextItem { id, content, metadata, last_accessed: t, access_count: 1 };
        let ghost ig = item;
        match slot {
            Some(j) => {
                self.context_cache[j] = item;
            },
            None => {
                self.context_cache.push(item);
            },
        }
        proof {
            assert(self.context_cache@ == cache_upsert(old(self).context_cache@, ig));
        }
    }

    /// Reads the fragment stored under `id`. Reading refreshes the
    /// fragment's access time and increments its access count (which
    /// stays put at its maximum).
    pub fn get_cached_context(&mut self, id: &str) -> (r: Option<&ContextItem>)
        ensures
            final(self).context_strategies == old(self).context_strategies,
            final(self).max_context_length == old(self).max_context_length,
            match cache_idx(old(self).context_cache@, id@, 0) {
                Some(j) => r matches Some(it) && ({
                    let bumped = ContextItem {
                        last_accessed: final(self).context_cache@[j].last_accessed,
                        access_count: bumped_count(old(self).context_cache@[j].access_count),
                        ..old(self).context_cache@[j]
                    };
                    &&& final(self).context_cache@ == old(self).context_cache@.update(j, bumped)
                    &&& *it == bumped
                }),
                None => r is None && final(self).context_cache == old(self).context_cache,
            },
    {
        match self.cache_find(id) {
            Some(j) => {
                let t = now_millis();
                self.context_cache[j].last_accessed = t;
                let c = self.context_cache[j].access_count;
                if c < u32::MAX {
                    self.context_cache[j].access_count = c + 1;
                }
                Some(&self.context_cache[j])
            },
            None => None,
        }
    }

    /// Empties the fragment cache.
    pub fn clear_cache(&mut self)
        ensures
            final(self).context_cache@ == Seq::<ContextItem>::empty(),
            final(self).context_strategies == old(self).context_strategies,
            final(self).max_context_length == old(self).max_context_length,
    {
        self.context_cache.clear();
    }

    /// How many fragments the cache holds and how many content bytes they
    /// carry in total (saturating at the machine limit).
    pub fn get_cache_stats(&self) -> (r: (usize, usize))
        ensures
            r.0 == self.context_cache@.len(),
            r.1 as int == if cache_bytes(self.context_cache@) > usize::MAX as int {
                usize::MAX as int
            } else {
                cache_bytes(self.context_cache@)
            },
    {
        let cc = &self.context_cache;
        let n = cc.len();
        let mut total: usize = 0;
        let mut i: usize = 0;
        while i < n
            invariant
                n == cc@.len(),
                cc@ == self.context_cache@,
                i <= n,
                total as int == if cache_bytes(cc@.take(i as int)) > usize::MAX as int {
                    usize::MAX as int
                } else {
                    cache_bytes(cc@.take(i as int))
                },
            decreases n - i,
        {
            let ghost pre = cc@.take(i as int);
            let ghost cur = cc@.take(i + 1);
            proof {
                assert(cur.drop_last() =~= pre);
                assert(cur.last() == cc@[i as int]);
            }
            let b = cc[i].content.as_str().as_bytes().len();
            if b > usize::MAX - total {
                total = usize::MAX;
            } else {
                total = total + b;
            }
            i = i + 1;
        }
        proof {
            assert(cc@.take(n as int) =~= cc@);
        }
        (n, total)
    }
}

/// The count after one cache read: incremented, saturating at the
/// maximum.
pub open spec fn bumped_count(c: u32) -> u32 {
    if c == u32::MAX {
        c
    } else {
        (c + 1) as u32
    }
}

/// A cache after storing one fragment: an existing entry with the same
/// id is overwritten, otherwise the fragment is appended.
pub open spec fn cache_upsert(cc: Seq<ContextItem>, it: ContextItem) -> Seq<ContextItem> {
    match cache_idx(cc, it.id@, 0) {
        Some(j) => cc.update(j, it),
        None => cc.push(it),
    }
}

impl Default for ContextManager {
    /// Same as `new`: the four built-in strategies, an empty cache, and
    /// a 4096-token default context length.
    fn default() -> (r: Self)
        ensures
            r.context_cache@ == Seq::<ContextItem>::empty(),
            r.max_context_length == 4096,
            r.context_strategies@.len() == 4,
            r.context_strategies@[0].0@ == "file"@,
            r.context_strategies@[1].0@ == "project"@,
            r.context_strategies@[2].0@ == "smart"@,
            r.context_strategies@[3].0@ == "selection"@,
            r.wf(),
    {
        ContextManager::new()
    }
}

/// Whether the project walk skips a directory of this name.
pub fn is_excluded_dir(name: &str) -> (r: bool)
    ensures
        r == (name@ == "node_modules"@ || name@ == "target"@ || name@ == ".git"@ || name@
            == "dist"@ || name@ == "build"@),
{
    crate::text::str_eq(name, "node_modules") || crate::text::str_eq(name, "target")
        || crate::text::str_eq(name, ".git") || crate::text::str_eq(name, "dist")
        || crate::text::str_eq(name, "build")
}

/// Whether the project walk skips a file: scratch extensions, or more
/// than one mebibyte of content.
pub fn is_excluded_file(name: &str, size_bytes: u64) -> (r: bool)
    ensures
        r == (size_bytes > 0x100000 || match file_extension(name@) {
            Some(e) => e == "log"@ || e == "tmp"@ || e == "cache"@ || e == "lock"@,
            None => false,
        }),
{
    if size_bytes > 0x100000 {
        return true;
    }
    match crate::registry::raw_extension(name) {
        Some(e) => crate::text::str_eq(e.as_str(), "log") || crate::text::str_eq(e.as_str(), "tmp")
            || crate::text::str_eq(e.as_str(), "cache") || crate::text::str_eq(e.as_str(), "lock"),
        None => false,
    }
}

} // verus!
