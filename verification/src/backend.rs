//! Inference backends: one loaded model wrapped per format.
//!
//! The real model weights never run here; each backend answers from a
//! fixed repertoire keyed on the last user turn of the prompt, which is
//! exactly what the reference backends do before weight execution is
//! wired in. What *is* nailed down precisely: how the last user message
//! is recovered from the ChatML prompt, when generation fails, and the
//! exact response text produced for every input.

use vstd::prelude::*;
use vstd::string::StrSliceExecFns;
use crate::errors::AiError;
use crate::registry::ModelInfo;
use crate::text::{
    chars_of, contains_sub, dec_str, digit_char, digit_char_exec, find_from,
    first_match_at_or_after, last_match_of, lemma_first_match_from_unique,
    lemma_first_match_props, lemma_last_match_of_unique, lemma_no_match_no_last, lower_of,
    match_at, push_char, push_dec, rfind_last, seq_contains, to_lower, trim_bounds, trim_of,
};

verus! {

/// Sampling and stopping knobs of one generation call. Probabilities are
/// carried in thousandths: `temperature_milli == 700` stands for 0.7.
#[derive(Debug, Clone)]
pub struct GenerationParams {
    pub temperature_milli: u32,
    pub top_p_milli: u32,
    pub top_k: u32,
    pub max_tokens: u32,
    pub stop_sequences: Vec<String>,
}

impl Default for GenerationParams {
    /// The stock parameters: temperature 0.7, top-p 0.9, top-k 40, at
    /// most 1024 tokens, and the two ChatML stop markers.
    fn default() -> (r: Self)
        ensures
            r.temperature_milli == 700,
            r.top_p_milli == 900,
            r.top_k == 40,
            r.max_tokens == 1024,
            r.stop_sequences.deep_view() == seq!["<|endoftext|>"@, "<|im_end|>"@],
    {
        let mut stops: Vec<String> = Vec::new();
        stops.push(String::from_str("<|endoftext|>"));
        stops.push(String::from_str("<|im_end|>"));
        proof {
            assert(stops.deep_view() =~~= seq!["<|endoftext|>"@, "<|im_end|>"@]);
        }
        GenerationParams {
            temperature_milli: 700,
            top_p_milli: 900,
            top_k: 40,
            max_tokens: 1024,
            stop_sequences: stops,
        }
    }
}

/// Backend for GGUF-packaged models (GGML routes through it too).
#[derive(Debug)]
pub struct GgufBackend {
    pub model_info: ModelInfo,
}

/// Backend for HuggingFace Transformers models.
#[derive(Debug)]
pub struct TransformersBackend {
    pub model_info: ModelInfo,
}

/// Backend for ONNX models.
#[derive(Debug)]
pub struct OnnxBackend {
    pub model_info: ModelInfo,
}

/// The one loaded backend: a tagged union over the three shapes, all
/// exposing generate, describe and unload.
#[derive(Debug)]
pub enum Backend {
    Gguf(GgufBackend),
    Transformers(TransformersBackend),
    Onnx(OnnxBackend),
}

/// The position of the last user marker of `p`, if any.
pub open spec fn user_marker_pos(p: Seq<char>) -> Option<int> {
    last_match_of(p, "<|im_start|>user\n"@)
}

/// The position of the closing marker after the last user marker of `p`,
/// if any; meaningful only when a user marker exists.
pub open spec fn end_marker_pos(p: Seq<char>) -> Option<int> {
    first_match_at_or_after(p, "<|im_end|>"@, user_marker_pos(p)->0)
}

/// There is a user turn in `p`, and a closing marker at or after the end
/// of the last user marker.
pub open spec fn prompt_well_formed(p: Seq<char>) -> bool {
    &&& user_marker_pos(p) is Some
    &&& end_marker_pos(p) is Some
    &&& end_marker_pos(p)->0 >= user_marker_pos(p)->0 + 17
}

/// The last user message of a well-formed prompt: the text between the
/// last user marker and the next closing marker.
pub open spec fn user_msg_of(p: Seq<char>) -> Seq<char> {
    p.subrange(user_marker_pos(p)->0 + 17, end_marker_pos(p)->0)
}

/// The rendering the reference backends give a size: the stored
/// megabyte count divided down twice more, with one rounded decimal.
pub open spec fn mb_string(size_mb: int) -> Seq<char> {
    let t = (size_mb * 10 + 0x80000) / 0x100000;
    dec_str(t / 10) + seq!['.'] + seq![digit_char(t % 10)]
}

/// The canned response for the last user message `msg`, for a backend
/// described by `blurb` (what kind of assistant), `label` (the format's
/// display name) and `note` (the format's closing sentence), a model
/// named `name` of `size_mb` stored megabytes.
pub open spec fn canned_text(
    name: Seq<char>,
    blurb: Seq<char>,
    label: Seq<char>,
    note: Seq<char>,
    size_mb: int,
    msg: Seq<char>,
) -> Seq<char> {
    let ml = lower_of(trim_of(msg));
    if contains_sub(ml, "who are you"@) || contains_sub(ml, "what are you"@) {
        "I'm the "@ + name
            + " model running locally in RAIN.CHAT v2. I'm a "@ + blurb
            + " AI assistant that can help you with coding, answer questions, and provide development assistance. I'm running entirely on your system without any external dependencies, so all our conversations stay private."@
    } else if contains_sub(ml, "what model"@) || contains_sub(ml, "which model"@) {
        "I'm the "@ + name + " model ("@ + label + " format, "@ + mb_string(size_mb)
            + " MB). I'm running locally on your system as part of RAIN.CHAT v2's AI integration. "@
            + note
    } else if contains_sub(ml, "hello"@) || contains_sub(ml, "hi"@) || contains_sub(ml, "hey"@) {
        "Hello! I'm "@ + name
            + " running locally in RAIN.CHAT v2. I'm here to help with your development work, coding questions, and technical challenges. What would you like to work on today?"@
    } else if contains_sub(ml, "help"@) || contains_sub(ml, "what can you do"@) {
        "I can help you with:\n\u{2022} Coding questions and debugging\n\u{2022} Code explanations and best practices\n\u{2022} Technical problem solving\n\u{2022} Development guidance\n\u{2022} Code reviews and suggestions\n\nSince I'm running locally, all our conversations stay private on your system. What specific area would you like help with?"@
    } else if contains_sub(ml, "code"@) || contains_sub(ml, "programming"@) || contains_sub(
        ml,
        "coding"@,
    ) {
        "I'd be happy to help with your coding questions! I can assist with:\n\u{2022} Syntax and language-specific questions\n\u{2022} Debugging and error resolution\n\u{2022} Best practices and code optimization\n\u{2022} Code explanations and documentation\n\u{2022} Architecture and design patterns\n\nWhat programming language or specific problem are you working on?"@
    } else if contains_sub(ml, "html"@) || contains_sub(ml, "website"@) || contains_sub(
        ml,
        "web"@,
    ) {
        "I can help you with HTML and web development! I can assist with:\n\u{2022} HTML structure and semantic markup\n\u{2022} CSS styling and layout\n\u{2022} JavaScript functionality\n\u{2022} Responsive design\n\u{2022} Web standards and best practices\n\nWhat specific web development task are you working on?"@
    } else if contains_sub(ml, "css"@) {
        "I can help with CSS styling! I can assist with:\n\u{2022} Layout techniques (Flexbox, Grid)\n\u{2022} Responsive design\n\u{2022} CSS animations and transitions\n\u{2022} Browser compatibility\n\u{2022} Performance optimization\n\nWhat CSS challenge are you facing?"@
    } else if contains_sub(ml, "javascript"@) || contains_sub(ml, "js"@) {
        "I can help with JavaScript development! I can assist with:\n\u{2022} ES6+ features and modern syntax\n\u{2022} DOM manipulation\n\u{2022} Async programming (Promises, async/await)\n\u{2022} Frameworks and libraries\n\u{2022} Debugging and performance\n\nWhat JavaScript topic would you like help with?"@
    } else if contains_sub(ml, "python"@) {
        "I can help with Python development! I can assist with:\n\u{2022} Python syntax and best practices\n\u{2022} Data structures and algorithms\n\u{2022} Libraries and frameworks\n\u{2022} Debugging and testing\n\u{2022} Performance optimization\n\nWhat Python project are you working on?"@
    } else if contains_sub(ml, "rust"@) {
        "I can help with Rust development! I can assist with:\n\u{2022} Ownership and borrowing concepts\n\u{2022} Memory safety and performance\n\u{2022} Cargo and dependency management\n\u{2022} Error handling patterns\n\u{2022} Async programming with Tokio\n\nWhat Rust challenge are you facing?"@
    } else if contains_sub(ml, "thank"@) || contains_sub(ml, "thanks"@) {
        "You're welcome! I'm here to help with your development work. Feel free to ask me anything about coding, debugging, or technical challenges. What else can I assist you with?"@
    } else if contains_sub(ml, "what day"@) || contains_sub(ml, "date"@) || contains_sub(
        ml,
        "time"@,
    ) {
        "I don't have access to real-time information like the current date or time. I'm a local AI model running on your system, so I can't fetch external data. However, I can help you with coding questions, debugging, and development tasks! What would you like to work on?"@
    } else if contains_sub(ml, "company"@) || contains_sub(ml, "made you"@) || contains_sub(
        ml,
        "created"@,
    ) {
        "I'm the "@ + name
            + " model running locally in RAIN.CHAT v2. I'm not created by a specific company - I'm a local AI model that runs entirely on your system. RAIN.CHAT v2 is the desktop application that hosts me, and I'm here to help with your development work!"@
    } else {
        "I understand you're asking about: \""@ + trim_of(msg)
            + "\"\n\nAs the "@ + name
            + " model running locally in RAIN.CHAT v2, I can help with coding questions, explanations, and development tasks. Could you provide more specific details about what you'd like assistance with?"@
    }
}

/// What one backend's generation call promises: the placeholder guard,
/// the prompt-shape errors, and the exact canned response otherwise.
pub open spec fn generate_post(
    info: ModelInfo,
    blurb: Seq<char>,
    label: Seq<char>,
    note: Seq<char>,
    p: Seq<char>,
    r: Result<String, AiError>,
) -> bool {
    &&& contains_sub(info.name@, "placeholder"@) ==> (r matches Err(e) && e is StateError)
    &&& !contains_sub(info.name@, "placeholder"@) ==> {
        &&& user_marker_pos(p) is None ==> (r matches Err(e) && e is InvalidInput)
        &&& user_marker_pos(p) is Some && !prompt_well_formed(p) ==> (r matches Err(e)
            && e is InvalidInput)
        &&& prompt_well_formed(p) ==> (r matches Ok(t) && t@ == canned_text(
            info.name@,
            blurb,
            label,
            note,
            info.size_mb as int,
            user_msg_of(p),
        ))
    }
}

/// Renders a stored megabyte count the way the reference backends do.
fn format_mb(size_mb: u64) -> (r: String)
    requires
        size_mb <= u64::MAX as int / 0x100000,
    ensures
        r@ == mb_string(size_mb as int),
{
    let t = (size_mb * 10 + 0x80000) / 0x100000;
    let mut s = String::new();
    push_dec(t / 10, &mut s);
    push_char(&mut s, '.');
    push_char(&mut s, digit_char_exec(t % 10));
    s
}

/// Recovers the last user turn of `prompt` and answers it from the
/// canned repertoire; the three backends share this engine and differ
/// only in the format strings they pass.
fn generate_reply(info: &ModelInfo, blurb: &str, label: &str, note: &str, prompt: &str) -> (r:
    Result<String, AiError>)
    requires
        info.wf(),
    ensures
        generate_post(*info, blurb@, label@, note@, prompt@, r),
{
    let namev = chars_of(info.name.as_str());
    let ph = chars_of("placeholder");
    if seq_contains(&namev, &ph) {
        return Err(
            AiError::StateError(
                String::from_str(
                    "Model not properly loaded. Please check if the model files are valid and try reloading.",
                ),
            ),
        );
    }
    let pv = chars_of(prompt);
    let us = chars_of("<|im_start|>user\n");
    let ue = chars_of("<|im_end|>");
    proof {
        reveal_strlit("<|im_start|>user\n");
        assert(us@.len() == 17);
    }
    let i = match rfind_last(&pv, &us) {
        Some(i) => i,
        None => {
            proof {
                lemma_no_match_no_last(prompt@, "<|im_start|>user\n"@);
            }
            return Err(
                AiError::InvalidInput(String::from_str("No user message found in conversation")),
            );
        },
    };
    proof {
        lemma_last_match_of_unique(prompt@, "<|im_start|>user\n"@, i as int);
    }
    let j = match find_from(&pv, &ue, i) {
        Some(j) => j,
        None => {
            proof {
                lemma_first_match_props(prompt@, "<|im_end|>"@, i as int);
                if first_match_at_or_after(prompt@, "<|im_end|>"@, i as int) is Some {
                    let m = first_match_at_or_after(prompt@, "<|im_end|>"@, i as int)->0;
                    assert(!match_at(prompt@, "<|im_end|>"@, m));
                }
            }
            return Err(AiError::InvalidInput(String::from_str("Invalid conversation format")));
        },
    };
    proof {
        lemma_first_match_from_unique(prompt@, "<|im_end|>"@, i as int, j as int);
    }
    if j < i || j - i < 17 {
        return Err(AiError::InvalidInput(String::from_str("Invalid conversation format")));
    }
    let ghost msg = user_msg_of(prompt@);
    let msg_str = prompt.substring_char(i + 17, j);
    proof {
        assert(msg_str@ == msg);
    }
    let msgv = chars_of(msg_str);
    let (a, b) = trim_bounds(&msgv);
    let trimmed = msg_str.substring_char(a, b);
    let ml_s = to_lower(trimmed);
    let mlv = chars_of(ml_s.as_str());
    proof {
        assert(mlv@ == lower_of(trim_of(msg)));
    }

    let mut s = String::new();
    if seq_contains(&mlv, &chars_of("who are you")) || seq_contains(&mlv, &chars_of("what are you"))
    {
        s.append("I'm the ");
        s.append(info.name.as_str());
        s.append(" model running locally in RAIN.CHAT v2. I'm a ");
        s.append(blurb);
        s.append(
            " AI assistant that can help you with coding, answer questions, and provide development assistance. I'm running entirely on your system without any external dependencies, so all our conversations stay private.",
        );
    } else if seq_contains(&mlv, &chars_of("what model")) || seq_contains(
        &mlv,
        &chars_of("which model"),
    ) {
        s.append("I'm the ");
        s.append(info.name.as_str());
        s.append(" model (");
        s.append(label);
        s.append(" format, ");
        let mb = format_mb(info.size_mb);
        s.append(mb.as_str());
        s.append(
            " MB). I'm running locally on your system as part of RAIN.CHAT v2's AI integration. ",
        );
        s.append(note);
    } else if seq_contains(&mlv, &chars_of("hello")) || seq_contains(&mlv, &chars_of("hi"))
        || seq_contains(&mlv, &chars_of("hey")) {
        s.append("Hello! I'm ");
        s.append(info.name.as_str());
        s.append(
            " running locally in RAIN.CHAT v2. I'm here to help with your development work, coding questions, and technical challenges. What would you like to work on today?",
        );
    } else if seq_contains(&mlv, &chars_of("help")) || seq_contains(
        &mlv,
        &chars_of("what can you do"),
    ) {
        s.append(
            "I can help you with:\n\u{2022} Coding questions and debugging\n\u{2022} Code explanations and best practices\n\u{2022} Technical problem solving\n\u{2022} Development guidance\n\u{2022} Code reviews and suggestions\n\nSince I'm running locally, all our conversations stay private on your system. What specific area would you like help with?",
        );
    } else if seq_contains(&mlv, &chars_of("code")) || seq_contains(&mlv, &chars_of("programming"))
        || seq_contains(&mlv, &chars_of("coding")) {
        s.append(
            "I'd be happy to help with your coding questions! I can assist with:\n\u{2022} Syntax and language-specific questions\n\u{2022} Debugging and error resolution\n\u{2022} Best practices and code optimization\n\u{2022} Code explanations and documentation\n\u{2022} Architecture and design patterns\n\nWhat programming language or specific problem are you working on?",
        );
    } else if seq_contains(&mlv, &chars_of("html")) || seq_contains(&mlv, &chars_of("website"))
        || seq_contains(&mlv, &chars_of("web")) {
        s.append(
            "I can help you with HTML and web development! I can assist with:\n\u{2022} HTML structure and semantic markup\n\u{2022} CSS styling and layout\n\u{2022} JavaScript functionality\n\u{2022} Responsive design\n\u{2022} Web standards and best practices\n\nWhat specific web development task are you working on?",
        );
    } else if seq_contains(&mlv, &chars_of("css")) {
        s.append(
            "I can help with CSS styling! I can assist with:\n\u{2022} Layout techniques (Flexbox, Grid)\n\u{2022} Responsive design\n\u{2022} CSS animations and transitions\n\u{2022} Browser compatibility\n\u{2022} Performance optimization\n\nWhat CSS challenge are you facing?",
        );
    } else if seq_contains(&mlv, &chars_of("javascript")) || seq_contains(&mlv, &chars_of("js")) {
        s.append(
            "I can help with JavaScript development! I can assist with:\n\u{2022} ES6+ features and modern syntax\n\u{2022} DOM manipulation\n\u{2022} Async programming (Promises, async/await)\n\u{2022} Frameworks and libraries\n\u{2022} Debugging and performance\n\nWhat JavaScript topic would you like help with?",
        );
    } else if seq_contains(&mlv, &chars_of("python")) {
        s.append(
            "I can help with Python development! I can assist with:\n\u{2022} Python syntax and best practices\n\u{2022} Data structures and algorithms\n\u{2022} Libraries and frameworks\n\u{2022} Debugging and testing\n\u{2022} Performance optimization\n\nWhat Python project are you working on?",
        );
    } else if seq_contains(&mlv, &chars_of("rust")) {
        s.append(
            "I can help with Rust development! I can assist with:\n\u{2022} Ownership and borrowing concepts\n\u{2022} Memory safety and performance\n\u{2022} Cargo and dependency management\n\u{2022} Error handling patterns\n\u{2022} Async programming with Tokio\n\nWhat Rust challenge are you facing?",
        );
    } else if seq_contains(&mlv, &chars_of("thank")) || seq_contains(&mlv, &chars_of("thanks")) {
        s.append(
            "You're welcome! I'm here to help with your development work. Feel free to ask me anything about coding, debugging, or technical challenges. What else can I assist you with?",
        );
    } else if seq_contains(&mlv, &chars_of("what day")) || seq_contains(&mlv, &chars_of("date"))
        || seq_contains(&mlv, &chars_of("time")) {
        s.append(
            "I don't have access to real-time information like the current date or time. I'm a local AI model running on your system, so I can't fetch external data. However, I can help you with coding questions, debugging, and development tasks! What would you like to work on?",
        );
    } else if seq_contains(&mlv, &chars_of("company")) || seq_contains(&mlv, &chars_of("made you"))
        || seq_contains(&mlv, &chars_of("created")) {
        s.append("I'm the ");
        s.append(info.name.as_str());
        s.append(
            " model running locally in RAIN.CHAT v2. I'm not created by a specific company - I'm a local AI model that runs entirely on your system. RAIN.CHAT v2 is the desktop application that hosts me, and I'm here to help with your development work!",
        );
    } else {
        s.append("I understand you're asking about: \"");
        s.append(trimmed);
        s.append("\"\n\nAs the ");
        s.append(info.name.as_str());
        s.append(
            " model running locally in RAIN.CHAT v2, I can help with coding questions, explanations, and development tasks. Could you provide more specific details about what you'd like assistance with?",
        );
    }
    proof {
        assert(s@ =~= canned_text(info.name@, blurb@, label@, note@, info.size_mb as int, msg));
    }
    Ok(s)
}

impl GgufBackend {
    /// Answers the prompt's last user turn as the GGUF backend.
    pub fn generate_text(&self, prompt: &str, params: &GenerationParams) -> (r: Result<
        String,
        AiError,
    >)
        requires
            self.model_info.wf(),
        ensures
            generate_post(
                self.model_info,
                "GGUF-based"@,
                "GGUF"@,
                "GGUF is an efficient format that allows me to run quickly on your hardware."@,
                prompt@,
                r,
            ),
    {
        generate_reply(
            &self.model_info,
            "GGUF-based",
            "GGUF",
            "GGUF is an efficient format that allows me to run quickly on your hardware.",
            prompt,
        )
    }

    /// The descriptor of the loaded model.
    pub fn get_model_info(&self) -> (r: &ModelInfo)
        ensures
            *r == self.model_info,
    {
        &self.model_info
    }

    /// Releases the model's resources. Nothing is held here, so this
    /// always succeeds and changes nothing.
    pub fn unload(&mut self) -> (r: Result<(), AiError>)
        ensures
            r is Ok,
            *final(self) == *old(self),
    {
        Ok(())
    }
}

impl TransformersBackend {
    /// Answers the prompt's last user turn as the Transformers backend.
    pub fn generate_text(&self, prompt: &str, params: &GenerationParams) -> (r: Result<
        String,
        AiError,
    >)
        requires
            self.model_info.wf(),
        ensures
            generate_post(
                self.model_info,
                "HuggingFace Transformers-based"@,
                "HuggingFace Transformers"@,
                "Transformers models are powerful and versatile for various AI tasks."@,
                prompt@,
                r,
            ),
    {
        generate_reply(
            &self.model_info,
            "HuggingFace Transformers-based",
            "HuggingFace Transformers",
            "Transformers models are powerful and versatile for various AI tasks.",
            prompt,
        )
    }

    /// The descriptor of the loaded model.
    pub fn get_model_info(&self) -> (r: &ModelInfo)
        ensures
            *r == self.model_info,
    {
        &self.model_info
    }

    /// Releases the model's resources; always succeeds, changes nothing.
    pub fn unload(&mut self) -> (r: Result<(), AiError>)
        ensures
            r is Ok,
            *final(self) == *old(self),
    {
        Ok(())
    }
}

impl OnnxBackend {
    /// Answers the prompt's last user turn as the ONNX backend.
    pub fn generate_text(&self, prompt: &str, params: &GenerationParams) -> (r: Result<
        String,
        AiError,
    >)
        requires
            self.model_info.wf(),
        ensures
            generate_post(
                self.model_info,
                "ONNX-based"@,
                "ONNX"@,
                "ONNX provides excellent cross-platform compatibility and performance."@,
                prompt@,
                r,
            ),
    {
        generate_reply(
            &self.model_info,
            "ONNX-based",
            "ONNX",
            "ONNX provides excellent cross-platform compatibility and performance.",
            prompt,
        )
    }

    /// The descriptor of the loaded model.
    pub fn get_model_info(&self) -> (r: &ModelInfo)
        ensures
            *r == self.model_info,
    {
        &self.model_info
    }

    /// Releases the model's resources; always succeeds, changes nothing.
    pub fn unload(&mut self) -> (r: Result<(), AiError>)
        ensures
            r is Ok,
            *final(self) == *old(self),
    {
        Ok(())
    }
}

impl Backend {
    /// The descriptor of the model this backend wraps.
    pub open spec fn info_spec(self) -> ModelInfo {
        match self {
            Backend::Gguf(b) => b.model_info,
            Backend::Transformers(b) => b.model_info,
            Backend::Onnx(b) => b.model_info,
        }
    }

    /// The assistant-kind blurb of this backend's format.
    pub open spec fn blurb_spec(self) -> Seq<char> {
        match self {
            Backend::Gguf(_) => "GGUF-based"@,
            Backend::Transformers(_) => "HuggingFace Transformers-based"@,
            Backend::Onnx(_) => "ONNX-based"@,
        }
    }

    /// The display name of this backend's format.
    pub open spec fn label_spec(self) -> Seq<char> {
        match self {
            Backend::Gguf(_) => "GGUF"@,
            Backend::Transformers(_) => "HuggingFace Transformers"@,
            Backend::Onnx(_) => "ONNX"@,
        }
    }

    /// The closing sentence of this backend's format.
    pub open spec fn note_spec(self) -> Seq<char> {
        match self {
            Backend::Gguf(_) => "GGUF is an efficient format that allows me to run quickly on your hardware."@,
            Backend::Transformers(_) => "Transformers models are powerful and versatile for various AI tasks."@,
            Backend::Onnx(_) => "ONNX provides excellent cross-platform compatibility and performance."@,
        }
    }

    /// Answers the prompt's last user turn with this backend's voice.
    pub fn generate_text(&self, prompt: &str, params: &GenerationParams) -> (r: Result<
        String,
        AiError,
    >)
        requires
            self.info_spec().wf(),
        ensures
            generate_post(
                self.info_spec(),
                self.blurb_spec(),
                self.label_spec(),
                self.note_spec(),
                prompt@,
                r,
            ),
    {
        match self {
            Backend::Gguf(b) => b.generate_text(prompt, params),
            Backend::Transformers(b) => b.generate_text(prompt, params),
            Backend::Onnx(b) => b.generate_text(prompt, params),
        }
    }

    /// The descriptor of the loaded model.
    pub fn get_model_info(&self) -> (r: &ModelInfo)
        ensures
            *r == self.info_spec(),
    {
        match self {
            Backend::Gguf(b) => b.get_model_info(),
            Backend::Transformers(b) => b.get_model_info(),
            Backend::Onnx(b) => b.get_model_info(),
        }
    }

    /// Releases the model's resources; always succeeds, changes nothing.
    pub fn unload(&mut self) -> (r: Result<(), AiError>)
        ensures
            r is Ok,
            *final(self) == *old(self),
    {
        match self {
            Backend::Gguf(b) => b.unload(),
            Backend::Transformers(b) => b.unload(),
            Backend::Onnx(b) => b.unload(),
        }
    }
}

} // verus!
