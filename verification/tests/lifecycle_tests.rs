//! Lifecycle behaviour: loading, unloading, the single-active invariant,
//! conversation bounds and generation.

use assistant_core::conversation::ConversationStore;
use assistant_core::chat::MessageRole;
use assistant_core::conversation::ConversationMessage;
use assistant_core::errors::AiError;
use assistant_core::lifecycle::ModelManager;
use assistant_core::registry::{DirectoryListing, ModelFormat, ScannedFile};

fn weight_dir(name: &str, file_name: &str) -> DirectoryListing {
    DirectoryListing {
        name: name.to_string(),
        path: format!("/models/{}", name),
        files: vec![ScannedFile {
            name: file_name.to_string(),
            size_bytes: 1024 * 1024,
            content: None,
        }],
    }
}

fn manager_with(dirs: Vec<DirectoryListing>) -> ModelManager {
    let mut mgr = ModelManager::new();
    mgr.discover_models(&dirs);
    mgr
}

fn loaded_count(mgr: &ModelManager) -> usize {
    mgr.get_available_models().iter().filter(|m| m.loaded).count()
}

#[test]
fn load_by_id_marks_exactly_one_loaded() {
    let mut mgr = manager_with(vec![weight_dir("a", "a.gguf"), weight_dir("b", "b.gguf")]);
    assert_eq!(mgr.load_model_by_id("a").unwrap(), true);
    assert_eq!(loaded_count(&mgr), 1);
    assert!(mgr.get_current_model().unwrap().id == "a");
}

#[test]
fn switching_models_unloads_the_previous_one() {
    let mut mgr = manager_with(vec![weight_dir("a", "a.gguf"), weight_dir("b", "b.gguf")]);
    assert!(mgr.load_model_by_id("a").unwrap());
    assert!(mgr.load_model_by_id("b").unwrap());
    let models = mgr.get_available_models();
    let a = models.iter().find(|m| m.id == "a").unwrap();
    let b = models.iter().find(|m| m.id == "b").unwrap();
    assert!(!a.loaded);
    assert!(b.loaded);
    assert_eq!(loaded_count(&mgr), 1);
    assert_eq!(mgr.get_current_model().unwrap().id, "b");
}

#[test]
fn repeated_loads_keep_at_most_one_loaded() {
    let mut mgr = manager_with(vec![
        weight_dir("a", "a.gguf"),
        weight_dir("b", "b.onnx"),
        weight_dir("c", "c.safetensors"),
    ]);
    for id in ["a", "b", "c", "a", "c", "b"] {
        assert!(mgr.load_model_by_id(id).unwrap());
        assert_eq!(loaded_count(&mgr), 1);
    }
}

#[test]
fn unknown_id_fails_not_found_without_changes() {
    let mut mgr = manager_with(vec![weight_dir("a", "a.gguf")]);
    let err = mgr.load_model_by_id("missing").unwrap_err();
    assert!(matches!(err, AiError::NotFound(_)));
    assert_eq!(loaded_count(&mgr), 0);
    assert!(mgr.get_current_model().is_none());
}

#[test]
fn ggml_without_gguf_file_fails_and_leaves_unloaded() {
    let mut mgr = manager_with(vec![weight_dir("a", "a.gguf"), weight_dir("g", "g.ggml")]);
    assert!(mgr.load_model_by_id("a").unwrap());
    let err = mgr.load_model_by_id("g").unwrap_err();
    assert!(matches!(err, AiError::NotFound(_)));
    assert_eq!(loaded_count(&mgr), 0);
    assert!(mgr.get_current_model().is_none());
    assert!(mgr.get_model_info().is_none());
}

#[test]
fn load_best_follows_format_priority() {
    let mut mgr = manager_with(vec![weight_dir("o", "m.onnx"), weight_dir("g", "m.gguf")]);
    assert!(mgr.load_best_model().unwrap());
    assert_eq!(mgr.get_current_model().unwrap().id, "g");

    let mut mgr2 = manager_with(vec![weight_dir("o", "m.onnx"), weight_dir("h", "m.bin")]);
    assert!(mgr2.load_best_model().unwrap());
    assert_eq!(mgr2.get_current_model().unwrap().id, "h");
}

#[test]
fn load_best_on_empty_registry_returns_false() {
    let mut mgr = ModelManager::new();
    assert_eq!(mgr.load_best_model().unwrap(), false);
}

#[test]
fn load_by_name_unknown_fails_not_found() {
    let mut mgr = manager_with(vec![weight_dir("a", "a.gguf")]);
    let err = mgr.load_model_by_name("nope").unwrap_err();
    assert!(matches!(err, AiError::NotFound(_)));
    assert_eq!(loaded_count(&mgr), 0);
    assert!(mgr.get_current_model().is_none());
    assert_eq!(mgr.load_model_by_name("a").unwrap(), true);
    assert_eq!(mgr.get_current_model().unwrap().id, "a");
}

#[test]
fn empty_message_fails_invalid_input_and_history_is_unchanged() {
    let mut mgr = manager_with(vec![weight_dir("a", "a.gguf")]);
    assert!(mgr.load_model_by_id("a").unwrap());
    let before = mgr.conversation.len();
    let err = mgr.generate_response("").unwrap_err();
    assert!(matches!(err, AiError::InvalidInput(_)));
    assert_eq!(mgr.conversation.len(), before);
    let err2 = mgr.generate_response("   \t  ").unwrap_err();
    assert!(matches!(err2, AiError::InvalidInput(_)));
    assert_eq!(mgr.conversation.len(), before);
}

#[test]
fn overlong_message_fails_invalid_input() {
    let mut mgr = manager_with(vec![weight_dir("a", "a.gguf")]);
    assert!(mgr.load_model_by_id("a").unwrap());
    let long = "x".repeat(10001);
    let err = mgr.generate_response(&long).unwrap_err();
    assert!(matches!(err, AiError::InvalidInput(_)));
    assert_eq!(mgr.conversation.len(), 0);
    let just_fits = "x".repeat(10000);
    assert!(mgr.generate_response(&just_fits).is_ok());
}

#[test]
fn generation_without_a_model_fails_state_error() {
    let mut mgr = ModelManager::new();
    let err = mgr.generate_response("hello").unwrap_err();
    assert!(matches!(err, AiError::StateError(_)));
}

#[test]
fn generation_appends_user_and_assistant_turns() {
    let mut mgr = manager_with(vec![weight_dir("lama", "w.gguf")]);
    assert!(mgr.load_model_by_id("lama").unwrap());
    let reply = mgr.generate_response("hello there").unwrap();
    assert_eq!(
        reply,
        "Hello! I'm lama running locally in RAIN.CHAT v2. I'm here to help with your \
         development work, coding questions, and technical challenges. What would you like \
         to work on today?"
    );
    assert_eq!(mgr.conversation.len(), 2);
    assert_eq!(mgr.conversation.messages[0].role, MessageRole::User);
    assert_eq!(mgr.conversation.messages[0].content, "hello there");
    assert_eq!(mgr.conversation.messages[1].role, MessageRole::Assistant);
    assert_eq!(mgr.conversation.messages[1].content, reply);
}

#[test]
fn clear_conversation_and_reset_context_empty_the_history() {
    let mut mgr = manager_with(vec![weight_dir("a", "a.gguf")]);
    assert!(mgr.load_model_by_id("a").unwrap());
    mgr.generate_response("hello").unwrap();
    assert!(mgr.conversation.len() > 0);
    mgr.clear_conversation();
    assert_eq!(mgr.conversation.len(), 0);
    mgr.generate_response("hello").unwrap();
    mgr.reset_context();
    assert_eq!(mgr.conversation.len(), 0);
}

#[test]
fn unload_clears_backend_pointer_and_flag() {
    let mut mgr = manager_with(vec![weight_dir("a", "a.gguf")]);
    assert!(mgr.load_model_by_id("a").unwrap());
    assert!(mgr.get_model_info().is_some());
    mgr.unload_current_model().unwrap();
    assert!(mgr.get_model_info().is_none());
    assert!(mgr.get_current_model().is_none());
    assert_eq!(loaded_count(&mgr), 0);
    // Unloading again is a no-op.
    mgr.unload_current_model().unwrap();
}

#[test]
fn backend_info_reflects_the_loaded_descriptor() {
    let mut mgr = manager_with(vec![weight_dir("a", "a.gguf")]);
    assert!(mgr.load_model_by_id("a").unwrap());
    let info = mgr.get_model_info().unwrap();
    assert_eq!(info.id, "a");
    assert_eq!(info.format, ModelFormat::Gguf);
}

#[test]
fn appending_past_the_cap_keeps_the_most_recent_in_order() {
    let mut store = ConversationStore::new(20);
    for i in 0..25u32 {
        store.append(ConversationMessage {
            role: MessageRole::User,
            content: format!("m{}", i),
        });
    }
    assert_eq!(store.len(), 20);
    for (k, msg) in store.messages.iter().enumerate() {
        assert_eq!(msg.content, format!("m{}", k + 5));
    }
}

#[test]
fn long_conversations_stay_bounded() {
    let mut mgr = manager_with(vec![weight_dir("a", "a.gguf")]);
    assert!(mgr.load_model_by_id("a").unwrap());
    for i in 0..15 {
        mgr.generate_response(&format!("question {}", i)).unwrap();
    }
    // Trimming happens when the user turn is appended; the assistant's
    // reply lands after it, so the log settles at twenty-one messages.
    assert_eq!(mgr.conversation.len(), 21);
}

#[test]
fn prompt_renders_chatml_turns_with_open_assistant_marker() {
    let mut store = ConversationStore::new(20);
    store.append(ConversationMessage { role: MessageRole::User, content: "hi".to_string() });
    store.append(ConversationMessage {
        role: MessageRole::Assistant,
        content: "hello".to_string(),
    });
    assert_eq!(
        store.build_prompt(),
        "<|im_start|>user\nhi<|im_end|>\n<|im_start|>assistant\nhello<|im_end|>\n<|im_start|>assistant\n"
    );
}
