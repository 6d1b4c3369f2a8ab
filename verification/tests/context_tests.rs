//! Context assembly and the fragment cache.

use assistant_core::context::{
    ContextManager, ContextMetadata, ContextRequest, ContextSourceType, ProjectFile,
    is_excluded_dir, is_excluded_file,
};
use assistant_core::errors::AiError;

fn request(strategy: &str, query: &str) -> ContextRequest {
    ContextRequest {
        query: query.to_string(),
        current_file: None,
        project_root: None,
        strategy: strategy.to_string(),
        max_tokens: 4096,
        include_selection: false,
        selection_content: None,
    }
}

fn pf(path: &str, content: &str) -> ProjectFile {
    ProjectFile { path: path.to_string(), content: content.to_string() }
}

#[test]
fn unknown_strategy_fails_not_found_and_changes_nothing() {
    let mut mgr = ContextManager::new();
    mgr.cache_context(
        "k".to_string(),
        "v".to_string(),
        ContextMetadata {
            source_type: ContextSourceType::File,
            file_path: None,
            language: None,
            size: 1,
            relevance_milli: 0,
            tags: vec![],
        },
    );
    let before = mgr.get_cache_stats();
    let err = mgr.get_context(request("bogus", "q"), None, vec![]).unwrap_err();
    assert!(matches!(err, AiError::NotFound(_)));
    assert_eq!(mgr.get_cache_stats(), before);
    assert_eq!(mgr.context_strategies.len(), 4);
}

#[test]
fn zero_budget_returns_no_items_and_no_tokens() {
    let mut mgr = ContextManager::new();
    let mut req = request("file", "main");
    req.current_file = Some("src/main.rs".to_string());
    req.max_tokens = 0;
    let resp = mgr
        .get_context(req, Some("fn main() { println() }".to_string()), vec![])
        .unwrap();
    assert_eq!(resp.context_items.len(), 0);
    assert_eq!(resp.total_tokens, 0);
}

#[test]
fn file_strategy_ignores_the_project_walk() {
    let mut mgr = ContextManager::new();
    let mut req = request("file", "main");
    req.current_file = Some("src/main.rs".to_string());
    req.project_root = Some("/proj".to_string());
    let resp = mgr
        .get_context(
            req,
            Some("the main function".to_string()),
            vec![pf("/proj/other.rs", "main main main")],
        )
        .unwrap();
    assert_eq!(resp.context_items.len(), 1);
    let item = &resp.context_items[0];
    assert_eq!(item.id, "src/main.rs");
    assert_eq!(item.metadata.source_type, ContextSourceType::File);
    assert_eq!(item.metadata.tags, vec!["current_file".to_string()]);
    assert_eq!(resp.strategy_used, "file");
    // The walk never ran: only the current file was scored.
    assert_eq!(resp.relevance_scores.len(), 1);
    assert_eq!(resp.relevance_scores[0].0, "src/main.rs");
}

#[test]
fn project_strategy_ranks_by_relevance_descending() {
    let mut mgr = ContextManager::new();
    let mut req = request("project", "main");
    req.project_root = Some("/p".to_string());
    let low = "main ".repeat(25);
    let high = format!("fn main {}", "main ".repeat(40));
    let resp = mgr
        .get_context(req, None, vec![pf("/p/low.rs", &low), pf("/p/high.rs", &high)])
        .unwrap();
    assert_eq!(resp.context_items.len(), 2);
    assert_eq!(resp.context_items[0].id, "/p/high.rs");
    assert_eq!(resp.context_items[1].id, "/p/low.rs");
    assert!(
        resp.context_items[0].metadata.relevance_milli
            >= resp.context_items[1].metadata.relevance_milli
    );
}

#[test]
fn threshold_excludes_items_but_scores_them() {
    let mut mgr = ContextManager::new();
    // The "smart" strategy demands relevance 0.5.
    let mut req = request("smart", "main");
    req.project_root = Some("/p".to_string());
    let resp = mgr
        .get_context(req, None, vec![pf("/p/weak.rs", "main once only")])
        .unwrap();
    assert_eq!(resp.context_items.len(), 0);
    assert_eq!(resp.relevance_scores.len(), 1);
    assert_eq!(resp.relevance_scores[0].0, "/p/weak.rs");
    assert!(resp.relevance_scores[0].1 < 500);
}

#[test]
fn selection_is_included_with_full_relevance() {
    let mut mgr = ContextManager::new();
    let mut req = request("selection", "whatever");
    req.include_selection = true;
    req.selection_content = Some("let x = 1;".to_string());
    req.current_file = Some("a.rs".to_string());
    let resp = mgr.get_context(req, None, vec![]).unwrap();
    assert_eq!(resp.context_items.len(), 1);
    let item = &resp.context_items[0];
    assert_eq!(item.id, "selection");
    assert_eq!(item.content, "let x = 1;");
    assert_eq!(item.metadata.relevance_milli, 1000);
    assert_eq!(item.metadata.source_type, ContextSourceType::Selection);
    assert_eq!(item.metadata.language.as_deref(), Some("rust"));
    assert_eq!(item.metadata.size, 10);
    assert_eq!(item.access_count, 1);
}

#[test]
fn budget_packs_greedily_and_stops_at_first_overflow() {
    let mut mgr = ContextManager::new();
    let mut req = request("project", "word");
    req.project_root = Some("/p".to_string());
    // Two files, the stronger one long: with a small budget only it fits.
    let strong = format!("fn word {}", "word ".repeat(30));
    let mut resp = mgr
        .get_context(
            {
                let mut r = req.clone();
                r.max_tokens = 45;
                r
            },
            None,
            vec![pf("/p/weak.rs", "word word word word"), pf("/p/strong.rs", &strong)],
        )
        .unwrap();
    assert!(resp.total_tokens <= 45);
    assert_eq!(resp.context_items.len(), 1);
    assert_eq!(resp.context_items[0].id, "/p/strong.rs");

    // A tighter budget that the first-ranked item overflows returns nothing:
    // packing stops at the first overflow.
    resp = mgr
        .get_context(
            {
                let mut r = req.clone();
                r.max_tokens = 10;
                r
            },
            None,
            vec![pf("/p/weak.rs", "word word word word"), pf("/p/strong.rs", &strong)],
        )
        .unwrap();
    assert_eq!(resp.context_items.len(), 0);
    assert_eq!(resp.total_tokens, 0);
}

#[test]
fn selection_and_current_file_respect_max_files() {
    let mut mgr = ContextManager::new();
    // Strategy "file" admits one fragment; with a selection and a passing
    // current file the higher-ranked selection survives.
    let mut req = request("file", "zzz");
    req.include_selection = true;
    req.selection_content = Some("picked text".to_string());
    req.current_file = Some("src/lib.rs".to_string());
    let resp = mgr.get_context(req, Some("hello".to_string()), vec![]).unwrap();
    assert_eq!(resp.context_items.len(), 1);
    assert_eq!(resp.context_items[0].id, "selection");
    // The current file was still inspected and scored.
    assert_eq!(resp.relevance_scores.len(), 1);
    assert_eq!(resp.relevance_scores[0].0, "src/lib.rs");
}

#[test]
fn max_files_caps_the_project_items() {
    let mut mgr = ContextManager::new();
    let mut req = request("selection", "word");
    // "selection" allows three files; hand over five qualifying files.
    req.project_root = Some("/p".to_string());
    let files: Vec<ProjectFile> = (0..5)
        .map(|i| pf(&format!("/p/f{}.rs", i), "word word word"))
        .collect();
    let resp = mgr.get_context(req, None, files).unwrap();
    assert!(resp.context_items.len() <= 3);
    assert_eq!(resp.relevance_scores.len(), 5);
}

#[test]
fn cache_roundtrip_counts_accesses() {
    let mut mgr = ContextManager::new();
    mgr.cache_context(
        "frag".to_string(),
        "content here".to_string(),
        ContextMetadata {
            source_type: ContextSourceType::Documentation,
            file_path: Some("doc.md".to_string()),
            language: Some("markdown".to_string()),
            size: 12,
            relevance_milli: 500,
            tags: vec!["doc".to_string()],
        },
    );
    {
        let item = mgr.get_cached_context("frag").expect("cached");
        assert_eq!(item.content, "content here");
        assert_eq!(item.access_count, 2);
    }
    {
        let item = mgr.get_cached_context("frag").expect("cached");
        assert_eq!(item.access_count, 3);
    }
    assert!(mgr.get_cached_context("other").is_none());
    assert_eq!(mgr.get_cache_stats(), (1, 12));
    mgr.clear_cache();
    assert_eq!(mgr.get_cache_stats(), (0, 0));
    assert!(mgr.get_cached_context("frag").is_none());
}

#[test]
fn caching_under_the_same_id_overwrites() {
    let mut mgr = ContextManager::new();
    let md = ContextMetadata {
        source_type: ContextSourceType::Log,
        file_path: None,
        language: None,
        size: 0,
        relevance_milli: 0,
        tags: vec![],
    };
    mgr.cache_context("k".to_string(), "one".to_string(), md.clone());
    mgr.cache_context("k".to_string(), "three".to_string(), md);
    assert_eq!(mgr.get_cache_stats(), (1, 5));
    assert_eq!(mgr.get_cached_context("k").unwrap().content, "three");
}

#[test]
fn default_strategies_match_the_built_in_table() {
    let mgr = ContextManager::new();
    let s = &mgr.context_strategies;
    assert_eq!(s[0].0, "file");
    assert_eq!(s[0].1.max_files, 1);
    assert_eq!(s[0].1.relevance_threshold_milli, 0);
    assert_eq!(s[0].1.name, "File Context");
    assert_eq!(s[1].0, "project");
    assert_eq!(s[1].1.max_files, 20);
    assert_eq!(s[1].1.relevance_threshold_milli, 300);
    assert_eq!(s[2].0, "smart");
    assert_eq!(s[2].1.max_files, 10);
    assert_eq!(s[2].1.relevance_threshold_milli, 500);
    assert_eq!(s[3].0, "selection");
    assert_eq!(s[3].1.max_files, 3);
    assert_eq!(s[3].1.relevance_threshold_milli, 0);
    assert_eq!(mgr.max_context_length, 4096);
}

#[test]
fn walk_exclusion_rules() {
    assert!(is_excluded_dir("node_modules"));
    assert!(is_excluded_dir(".git"));
    assert!(is_excluded_dir("target"));
    assert!(!is_excluded_dir("src"));
    assert!(is_excluded_file("x.log", 10));
    assert!(is_excluded_file("x.lock", 10));
    assert!(is_excluded_file("big.rs", 1024 * 1024 + 1));
    assert!(!is_excluded_file("ok.rs", 1024 * 1024));
    assert!(!is_excluded_file("noext", 10));
}
