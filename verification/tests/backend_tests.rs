//! The canned backends: prompt parsing, error cases, and exact replies.

use assistant_core::backend::{Backend, GenerationParams, GgufBackend, OnnxBackend};
use assistant_core::errors::AiError;
use assistant_core::registry::{ModelFormat, ModelInfo};

fn info(name: &str, size_mb: u64, format: ModelFormat) -> ModelInfo {
    ModelInfo {
        id: name.to_string(),
        name: name.to_string(),
        description: "Local AI model".to_string(),
        format,
        path: format!("/models/{}", name),
        size_mb,
        loaded: false,
        capabilities: vec![],
        config: None,
        files: vec![],
    }
}

fn prompt(msg: &str) -> String {
    format!("<|im_start|>user\n{}<|im_end|>\n<|im_start|>assistant\n", msg)
}

#[test]
fn default_generation_params() {
    let p = GenerationParams::default();
    assert_eq!(p.temperature_milli, 700);
    assert_eq!(p.top_p_milli, 900);
    assert_eq!(p.top_k, 40);
    assert_eq!(p.max_tokens, 1024);
    assert_eq!(p.stop_sequences, vec!["<|endoftext|>".to_string(), "<|im_end|>".to_string()]);
}

#[test]
fn greeting_reply_is_exact() {
    let b = GgufBackend { model_info: info("tiny", 10, ModelFormat::Gguf) };
    let r = b.generate_text(&prompt("hey"), &GenerationParams::default()).unwrap();
    assert_eq!(
        r,
        "Hello! I'm tiny running locally in RAIN.CHAT v2. I'm here to help with your \
         development work, coding questions, and technical challenges. What would you like \
         to work on today?"
    );
}

#[test]
fn model_question_renders_size_with_one_decimal() {
    // 2 * 1024 * 1024 stored megabytes divided down twice: exactly 2.0.
    let b = GgufBackend { model_info: info("big", 2 * 1024 * 1024, ModelFormat::Gguf) };
    let r = b.generate_text(&prompt("what model are you?"), &GenerationParams::default()).unwrap();
    assert_eq!(
        r,
        "I'm the big model (GGUF format, 2.0 MB). I'm running locally on your system as part \
         of RAIN.CHAT v2's AI integration. GGUF is an efficient format that allows me to run \
         quickly on your hardware."
    );
}

#[test]
fn model_question_rounds_the_decimal() {
    // 1572864 / 1048576 = 1.5 exactly.
    let b = OnnxBackend { model_info: info("mid", 1572864, ModelFormat::Onnx) };
    let r = b.generate_text(&prompt("which model is this"), &GenerationParams::default()).unwrap();
    assert!(r.contains("(ONNX format, 1.5 MB)"), "got: {}", r);
    assert!(r.contains("ONNX provides excellent cross-platform compatibility"));
}

#[test]
fn unknown_topic_echoes_the_trimmed_message() {
    let b = GgufBackend { model_info: info("tiny", 1, ModelFormat::Gguf) };
    let r = b.generate_text(&prompt("  zebras?  "), &GenerationParams::default()).unwrap();
    assert!(r.starts_with("I understand you're asking about: \"zebras?\""), "got: {}", r);
    assert!(r.contains("As the tiny model running locally in RAIN.CHAT v2"));
}

#[test]
fn last_user_turn_wins() {
    let b = GgufBackend { model_info: info("tiny", 1, ModelFormat::Gguf) };
    let p = format!(
        "<|im_start|>user\nwhat model<|im_end|>\n<|im_start|>assistant\nearlier\
         <|im_end|>\n{}",
        prompt("hey")
    );
    let r = b.generate_text(&p, &GenerationParams::default()).unwrap();
    assert!(r.starts_with("Hello! I'm tiny"));
}

#[test]
fn placeholder_models_refuse_to_generate() {
    let b = GgufBackend { model_info: info("placeholder-7b", 1, ModelFormat::Gguf) };
    let err = b.generate_text(&prompt("hey"), &GenerationParams::default()).unwrap_err();
    assert!(matches!(err, AiError::StateError(_)));
    assert_eq!(
        err.message(),
        "Model not properly loaded. Please check if the model files are valid and try reloading."
    );
}

#[test]
fn prompt_without_user_marker_is_rejected() {
    let b = GgufBackend { model_info: info("tiny", 1, ModelFormat::Gguf) };
    let err = b.generate_text("just text", &GenerationParams::default()).unwrap_err();
    assert!(matches!(err, AiError::InvalidInput(_)));
    assert_eq!(err.message(), "No user message found in conversation");
}

#[test]
fn prompt_without_end_marker_is_rejected() {
    let b = GgufBackend { model_info: info("tiny", 1, ModelFormat::Gguf) };
    let err = b
        .generate_text("<|im_start|>user\nhello with no end", &GenerationParams::default())
        .unwrap_err();
    assert!(matches!(err, AiError::InvalidInput(_)));
    assert_eq!(err.message(), "Invalid conversation format");
}

#[test]
fn backend_union_dispatches_by_variant() {
    let b = Backend::Gguf(GgufBackend { model_info: info("tiny", 1, ModelFormat::Gguf) });
    let r = b.generate_text(&prompt("thanks"), &GenerationParams::default()).unwrap();
    assert!(r.starts_with("You're welcome!"));
    assert_eq!(b.get_model_info().id, "tiny");
    let mut b2 = b;
    assert!(b2.unload().is_ok());
}

#[test]
fn topic_arms_fire_in_order() {
    let b = GgufBackend { model_info: info("tiny", 1, ModelFormat::Gguf) };
    let params = GenerationParams::default();
    let cases: Vec<(&str, &str)> = vec![
        ("who are you", "I'm the tiny model running locally in RAIN.CHAT v2. I'm a GGUF-based"),
        ("can you help", "I can help you with:"),
        ("some python question", "I can help with Python development!"),
        ("rust lifetimes", "I can help with Rust development!"),
        ("css grid", "I can help with CSS styling!"),
        ("what day is it", "I don't have access to real-time information"),
        // Note: a message containing "which" greets instead, since "which"
        // contains "hi" and the greeting arm comes first.
        ("company? made you?", "I'm the tiny model running locally in RAIN.CHAT v2. I'm not created"),
    ];
    for (msg, prefix) in cases {
        let r = b.generate_text(&prompt(msg), &params).unwrap();
        assert!(r.starts_with(prefix), "message {:?} gave {:?}", msg, r);
    }
}
