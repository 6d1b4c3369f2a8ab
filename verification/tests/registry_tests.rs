//! Discovery and classification behaviour.

use assistant_core::lifecycle::ModelManager;
use assistant_core::registry::{
    classify_embedding_directory, classify_model_directory, DirectoryListing, ModelFormat,
    ScannedFile,
};

fn file(name: &str, size: u64) -> ScannedFile {
    ScannedFile { name: name.to_string(), size_bytes: size, content: None }
}

fn file_with(name: &str, size: u64, content: &str) -> ScannedFile {
    ScannedFile { name: name.to_string(), size_bytes: size, content: Some(content.to_string()) }
}

fn dir(name: &str, files: Vec<ScannedFile>) -> DirectoryListing {
    DirectoryListing { name: name.to_string(), path: format!("/models/{}", name), files }
}

#[test]
fn gguf_directory_classifies_as_gguf_with_mb_size() {
    let d = dir(
        "llama",
        vec![file("weights.gguf", 3 * 1024 * 1024 + 5), file("README", 100)],
    );
    let m = classify_model_directory(&d).expect("descriptor");
    assert_eq!(m.format, ModelFormat::Gguf);
    assert_eq!(m.size_mb, 3);
    assert_eq!(m.id, "llama");
    assert_eq!(m.name, "llama");
    assert_eq!(m.path, "/models/llama");
    assert!(!m.loaded);
    assert_eq!(m.capabilities, vec!["text_generation".to_string(), "chat".to_string()]);
    assert_eq!(m.files.len(), 2);
    assert_eq!(m.files[0].extension, ".gguf");
    assert_eq!(m.files[1].extension, ".");
}

#[test]
fn uppercase_extension_still_recognized() {
    let d = dir("big", vec![file("WEIGHTS.GGUF", 1)]);
    let m = classify_model_directory(&d).expect("descriptor");
    assert_eq!(m.format, ModelFormat::Gguf);
    assert_eq!(m.files[0].extension, ".gguf");
}

#[test]
fn gguf_takes_precedence_over_other_weights() {
    let d = dir("mixed", vec![file("a.onnx", 1), file("b.gguf", 1)]);
    let m = classify_model_directory(&d).expect("descriptor");
    assert_eq!(m.format, ModelFormat::Gguf);
    let d2 = dir("mixed2", vec![file("b.gguf", 1), file("a.onnx", 1)]);
    assert_eq!(classify_model_directory(&d2).unwrap().format, ModelFormat::Gguf);
}

#[test]
fn onnx_and_ggml_and_hf_classify() {
    assert_eq!(
        classify_model_directory(&dir("o", vec![file("m.onnx", 1)])).unwrap().format,
        ModelFormat::Onnx
    );
    assert_eq!(
        classify_model_directory(&dir("g", vec![file("m.ggml", 1)])).unwrap().format,
        ModelFormat::Ggml
    );
    assert_eq!(
        classify_model_directory(&dir("h", vec![file("m.safetensors", 1)])).unwrap().format,
        ModelFormat::HuggingFace
    );
    let hf = classify_model_directory(&dir("h2", vec![file("m.bin", 1)])).unwrap();
    assert_eq!(hf.format, ModelFormat::HuggingFace);
    assert_eq!(
        hf.capabilities,
        vec!["text_generation".to_string(), "chat".to_string(), "vision".to_string()]
    );
}

#[test]
fn unrecognized_directory_without_config_is_skipped() {
    let d = dir("junk", vec![file("notes.txt", 10), file("data.csv", 10)]);
    assert!(classify_model_directory(&d).is_none());
}

#[test]
fn config_only_directory_defaults_to_huggingface() {
    let d = dir("conf", vec![file_with("config.json", 20, "{\"architectures\": []}")]);
    let m = classify_model_directory(&d).expect("descriptor");
    assert_eq!(m.format, ModelFormat::HuggingFace);
    assert_eq!(m.config.as_deref(), Some("{\"architectures\": []}"));
}

#[test]
fn unparseable_config_yields_descriptor_without_config() {
    let d = dir("badconf", vec![file_with("config.json", 20, "not json at all {")]);
    let m = classify_model_directory(&d).expect("descriptor");
    assert!(m.config.is_none());
}

#[test]
fn config_priority_order_is_fixed() {
    let d = dir(
        "pri",
        vec![
            file("w.gguf", 1),
            file_with("tokenizer_config.json", 5, "{\"t\": 1}"),
            file_with("model_config.json", 5, "{\"m\": 2}"),
        ],
    );
    let m = classify_model_directory(&d).expect("descriptor");
    assert_eq!(m.config.as_deref(), Some("{\"m\": 2}"));
}

#[test]
fn embedding_directory_with_weights_gets_embedding_tags() {
    let d = dir("embedder", vec![file("model.safetensors", 2 * 1024 * 1024)]);
    let m = classify_embedding_directory(&d).expect("descriptor");
    assert_eq!(m.format, ModelFormat::HuggingFace);
    assert_eq!(m.size_mb, 2);
    assert_eq!(
        m.capabilities,
        vec![
            "text_embedding".to_string(),
            "semantic_search".to_string(),
            "text_embedding".to_string(),
            "semantic_search".to_string(),
            "similarity".to_string(),
            "classification".to_string(),
            "clustering".to_string(),
        ]
    );
    assert_eq!(m.description, "Embedding model for semantic search and similarity");
}

#[test]
fn embedding_directory_with_config_only_still_yields() {
    let d = dir(
        "st",
        vec![file_with(
            "config.json",
            30,
            "{\"architectures\": [\"SentenceTransformerModel\"]}",
        )],
    );
    let m = classify_embedding_directory(&d).expect("descriptor");
    assert!(m.config.is_some());
}

#[test]
fn embedding_directory_without_weights_or_config_is_skipped() {
    let d = dir("empty", vec![file("readme.md", 10)]);
    assert!(classify_embedding_directory(&d).is_none());
}

#[test]
fn discover_skips_the_embedding_directory() {
    let mut mgr = ModelManager::new();
    let listings = vec![
        dir("alpha", vec![file("a.gguf", 1)]),
        dir("embedding", vec![file("e.gguf", 1)]),
        dir("beta", vec![file("b.onnx", 1)]),
    ];
    mgr.discover_models(&listings);
    let models = mgr.get_available_models();
    assert_eq!(models.len(), 2);
    assert!(models.iter().all(|m| m.id != "embedding"));
    assert!(models.iter().any(|m| m.id == "alpha"));
    assert!(models.iter().any(|m| m.id == "beta"));
}

#[test]
fn rediscovery_replaces_by_id_without_duplicates() {
    let mut mgr = ModelManager::new();
    mgr.discover_models(&vec![dir("alpha", vec![file("a.gguf", 1)])]);
    mgr.discover_models(&vec![dir("alpha", vec![file("a.onnx", 1)])]);
    let models = mgr.get_available_models();
    assert_eq!(models.len(), 1);
    assert_eq!(models[0].format, ModelFormat::Onnx);
}

#[test]
fn a_scan_replaces_the_whole_registry() {
    let mut mgr = ModelManager::new();
    mgr.discover_models(&vec![dir("alpha", vec![file("a.gguf", 7 * 1024 * 1024)])]);
    assert_eq!(mgr.get_available_models().len(), 1);
    // A vanished directory does not survive the next scan.
    mgr.discover_models(&vec![dir("beta", vec![file("b.onnx", 1)])]);
    let models = mgr.get_available_models();
    assert_eq!(models.len(), 1);
    assert_eq!(models[0].id, "beta");
    // A scan of only unrecognizable and embedding-named directories
    // leaves nothing behind.
    mgr.discover_models(&vec![
        dir("junk", vec![file("notes.txt", 3)]),
        dir("embedding", vec![file("e.gguf", 3)]),
    ]);
    assert_eq!(mgr.get_available_models().len(), 0);
}

#[test]
fn discover_embedding_models_keeps_listing_order() {
    let mgr = ModelManager::new();
    let out = mgr.discover_embedding_models(&vec![
        dir("e2", vec![file("m.bin", 1)]),
        dir("skip", vec![file("notes.txt", 1)]),
        dir("e1", vec![file("m.safetensors", 1)]),
    ]);
    assert_eq!(out.len(), 2);
    assert_eq!(out[0].id, "e2");
    assert_eq!(out[1].id, "e1");
}

#[test]
fn discover_embedding_models_classifies_each_listing() {
    let mgr = ModelManager::new();
    let out = mgr.discover_embedding_models(&vec![
        dir("e1", vec![file("m.bin", 1)]),
        dir("skip", vec![file("notes.txt", 1)]),
    ]);
    assert_eq!(out.len(), 1);
    assert_eq!(out[0].id, "e1");
}
