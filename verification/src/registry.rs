//! Model discovery: classifying scanned directories into model
//! descriptors.
//!
//! The surrounding application lists a models directory and hands each
//! immediate subdirectory over as a `DirectoryListing`: the directory's
//! name, its path, and one `ScannedFile` per regular file in it. For the
//! small candidate configuration files it also supplies the file contents;
//! for everything else the contents stay out. Classification itself — the
//! extension precedence, capability tags, size accounting and
//! configuration lookup — happens here, on those plain values.

use vstd::prelude::*;
use vstd::string::StrSliceExecFns;
use crate::text::{chars_of, contains_sub, lower_of, seq_contains, str_eq, to_lower};

verus! {

/// On-disk packaging format of a model, decided by file extensions.
#[derive(Debug, Clone, Copy, PartialEq, Eq, Structural)]
pub enum ModelFormat {
    Gguf,
    Onnx,
    HuggingFace,
    Ggml,
}

/// One constituent file of a model directory.
#[derive(Debug, Clone)]
pub struct ModelFile {
    pub name: String,
    pub size_bytes: u64,
    /// The lowercased extension with a leading dot, `"."` when the file
    /// has none.
    pub extension: String,
}

/// A model descriptor: the unit the registry stores and the lifecycle
/// manager loads.
#[derive(Debug, Clone)]
pub struct ModelInfo {
    pub id: String,
    pub name: String,
    pub description: String,
    pub format: ModelFormat,
    pub path: String,
    pub size_mb: u64,
    pub loaded: bool,
    pub capabilities: Vec<String>,
    /// The text of the first configuration file that parsed as JSON.
    pub config: Option<String>,
    pub files: Vec<ModelFile>,
}

impl ModelInfo {
    /// Size stays within what a byte total divided down to megabytes can
    /// reach, so later arithmetic on it cannot overflow.
    pub open spec fn wf(self) -> bool {
        self.size_mb <= u64::MAX as int / 0x100000
    }
}

/// One regular file seen while scanning a directory. `content` carries
/// the file's text where the scanner chose to read it (the candidate
/// configuration files); `None` otherwise, or when reading failed.
#[derive(Debug, Clone)]
pub struct ScannedFile {
    pub name: String,
    pub size_bytes: u64,
    pub content: Option<String>,
}

/// One immediate subdirectory of the models directory, as scanned.
#[derive(Debug, Clone)]
pub struct DirectoryListing {
    pub name: String,
    pub path: String,
    pub files: Vec<ScannedFile>,
}

/// Whether `s` parses as JSON, per `serde_json`.
pub uninterp spec fn json_parses(s: Seq<char>) -> bool;

/// Relies on `serde_json::from_str::<Value>`: whether `s` is valid JSON.
#[verifier::external_body]
fn parses_as_json(s: &str) -> (r: bool)
    ensures
        r == json_parses(s@),
{
    serde_json::from_str::<serde_json::Value>(s).is_ok()
}

/// The first entry of the `architectures` array of `s` parsed as JSON,
/// when `s` parses, the array is present and its first entry is a string.
pub uninterp spec fn first_arch_of(s: Seq<char>) -> Option<Seq<char>>;

/// Relies on `serde_json` value accessors: parses `s` and walks to the
/// first string entry of its `architectures` array.
#[verifier::external_body]
fn first_architecture(s: &str) -> (r: Option<String>)
    ensures
        match r {
            Some(a) => first_arch_of(s@) == Some(a@),
            None => first_arch_of(s@) is None,
        },
{
    let v: serde_json::Value = match serde_json::from_str(s) {
        Ok(v) => v,
        Err(_) => return None,
    };
    v.get("architectures")
        .and_then(|a| a.as_array())
        .and_then(|a| a.first())
        .and_then(|x| x.as_str())
        .map(|x| x.to_string())
}

/// The position of the last `.` in `s` at an index in `[1, i]`, scanning
/// down from `i`. A dot in first position does not count: a name that
/// starts with its only dot has no extension.
pub open spec fn last_dot(s: Seq<char>, i: int) -> Option<int>
    decreases i + 1 when i < s.len()
{
    if i < 1 {
        None
    } else if s[i] == '.' {
        Some(i)
    } else {
        last_dot(s, i - 1)
    }
}

/// The extension of file name `s`: the part after the last dot, absent
/// when there is no dot past the first position.
pub open spec fn file_extension(s: Seq<char>) -> Option<Seq<char>> {
    match last_dot(s, s.len() - 1) {
        Some(p) => Some(s.subrange(p + 1, s.len() as int)),
        None => None,
    }
}

/// The format a single file argues for, by its lowercased extension.
pub open spec fn weight_class(el: Seq<char>) -> Option<ModelFormat> {
    if el == "gguf"@ {
        Some(ModelFormat::Gguf)
    } else if el == "safetensors"@ || el == "bin"@ || el == "pth"@ {
        Some(ModelFormat::HuggingFace)
    } else if el == "onnx"@ {
        Some(ModelFormat::Onnx)
    } else if el == "ggml"@ {
        Some(ModelFormat::Ggml)
    } else {
        None
    }
}

/// The format `f` argues for, if any.
pub open spec fn file_class(f: ScannedFile) -> Option<ModelFormat> {
    match file_extension(f.name@) {
        Some(e) => weight_class(lower_of(e)),
        None => None,
    }
}

/// Some file of the directory argues for `fmt`.
pub open spec fn has_class(files: Seq<ScannedFile>, fmt: ModelFormat) -> bool {
    exists|i: int| 0 <= i < files.len() && file_class(files[i]) == Some(fmt)
}

/// Some file of the directory is a recognized model file.
pub open spec fn has_recognized(files: Seq<ScannedFile>) -> bool {
    exists|i: int| 0 <= i < files.len() && file_class(files[i]) is Some
}

/// The directory's format: recognized classes in precedence order
/// GGUF, HuggingFace, ONNX, GGML; HuggingFace when nothing is recognized.
pub open spec fn dir_format(files: Seq<ScannedFile>) -> ModelFormat {
    if has_class(files, ModelFormat::Gguf) {
        ModelFormat::Gguf
    } else if has_class(files, ModelFormat::HuggingFace) {
        ModelFormat::HuggingFace
    } else if has_class(files, ModelFormat::Onnx) {
        ModelFormat::Onnx
    } else if has_class(files, ModelFormat::Ggml) {
        ModelFormat::Ggml
    } else {
        ModelFormat::HuggingFace
    }
}

/// Total byte size of the scanned files.
pub open spec fn sum_bytes(files: Seq<ScannedFile>) -> int
    decreases files.len(),
{
    if files.len() == 0 {
        0
    } else {
        sum_bytes(files.drop_last()) + files.last().size_bytes
    }
}

/// The directory's size in whole megabytes; a byte total beyond `u64`
/// range saturates first.
pub open spec fn size_mb_of(files: Seq<ScannedFile>) -> int {
    (if sum_bytes(files) > u64::MAX as int {
        u64::MAX as int
    } else {
        sum_bytes(files)
    }) / 0x100000
}

/// The capability tags one chat-model file contributes.
pub open spec fn chat_caps_of_file(f: ScannedFile) -> Seq<Seq<char>> {
    match file_class(f) {
        Some(ModelFormat::Gguf) => seq!["text_generation"@, "chat"@],
        Some(ModelFormat::HuggingFace) => seq!["text_generation"@, "chat"@, "vision"@],
        Some(ModelFormat::Onnx) => seq!["text_generation"@, "chat"@],
        Some(ModelFormat::Ggml) => seq!["text_generation"@, "chat"@],
        None => Seq::empty(),
    }
}

/// The capability tags of a chat-model directory, accumulated in file
/// order.
pub open spec fn chat_caps(files: Seq<ScannedFile>) -> Seq<Seq<char>>
    decreases files.len(),
{
    if files.len() == 0 {
        Seq::empty()
    } else {
        chat_caps(files.drop_last()) + chat_caps_of_file(files.last())
    }
}

/// The first file with the given name, if any.
pub open spec fn find_named(files: Seq<ScannedFile>, nm: Seq<char>) -> Option<ScannedFile>
    decreases files.len(),
{
    if files.len() == 0 {
        None
    } else if files[0].name@ == nm {
        Some(files[0])
    } else {
        find_named(files.skip(1), nm)
    }
}

/// Some file has the given name.
pub open spec fn has_named(files: Seq<ScannedFile>, nm: Seq<char>) -> bool {
    exists|i: int| 0 <= i < files.len() && files[i].name@ == nm
}

/// The content of the file named `nm`, when it was read and parses as
/// JSON.
pub open spec fn config_at(files: Seq<ScannedFile>, nm: Seq<char>) -> Option<Seq<char>> {
    match find_named(files, nm) {
        Some(f) => match f.content {
            Some(c) => if json_parses(c@) {
                Some(c@)
            } else {
                None
            },
            None => None,
        },
        None => None,
    }
}

/// The configuration attached to a chat-model directory: the first of
/// `config.json`, `model_config.json`, `tokenizer_config.json` that
/// parses.
pub open spec fn expected_config(files: Seq<ScannedFile>) -> Option<Seq<char>> {
    if config_at(files, "config.json"@) is Some {
        config_at(files, "config.json"@)
    } else if config_at(files, "model_config.json"@) is Some {
        config_at(files, "model_config.json"@)
    } else {
        config_at(files, "tokenizer_config.json"@)
    }
}

/// The view of an optional string.
pub open spec fn opt_view(o: Option<String>) -> Option<Seq<char>> {
    match o {
        Some(s) => Some(s@),
        None => None,
    }
}

/// The capability tags one embedding-model weight file contributes.
pub open spec fn emb_caps_of_file(f: ScannedFile) -> Seq<Seq<char>> {
    if file_class(f) == Some(ModelFormat::HuggingFace) {
        seq![
            "text_embedding"@,
            "semantic_search"@,
            "similarity"@,
            "classification"@,
            "clustering"@,
        ]
    } else {
        Seq::empty()
    }
}

/// The capability tags of an embedding-model directory: the base tags,
/// then what each weight file contributes, in file order.
pub open spec fn emb_caps_files(files: Seq<ScannedFile>) -> Seq<Seq<char>>
    decreases files.len(),
{
    if files.len() == 0 {
        Seq::empty()
    } else {
        emb_caps_files(files.drop_last()) + emb_caps_of_file(files.last())
    }
}

/// Whether the directory's `config.json` names an architecture that
/// marks an embedding model.
pub open spec fn emb_arch_flag(files: Seq<ScannedFile>) -> bool {
    match config_at(files, "config.json"@) {
        Some(c) => match first_arch_of(c) {
            Some(a) => contains_sub(a, "SentenceTransformer"@) || contains_sub(a, "Embedding"@),
            None => false,
        },
        None => false,
    }
}

/// The constituent-file records expected for `files`.
pub open spec fn files_match(mfs: Seq<ModelFile>, files: Seq<ScannedFile>) -> bool {
    &&& mfs.len() == files.len()
    &&& forall|i: int|
        0 <= i < files.len() ==> {
            &&& (#[trigger] mfs[i]).name@ == files[i].name@
            &&& mfs[i].size_bytes == files[i].size_bytes
            &&& mfs[i].extension@ == seq!['.'] + match file_extension(files[i].name@) {
                Some(e) => lower_of(e),
                None => Seq::<char>::empty(),
            }
        }
}

/// Two descriptors that agree on every field, comparing the collections
/// element by element.
pub open spec fn model_info_like(a: ModelInfo, b: ModelInfo) -> bool {
    &&& a.id == b.id
    &&& a.name == b.name
    &&& a.description == b.description
    &&& a.format == b.format
    &&& a.path == b.path
    &&& a.size_mb == b.size_mb
    &&& a.loaded == b.loaded
    &&& a.capabilities@ == b.capabilities@
    &&& a.config == b.config
    &&& a.files@ == b.files@
}

/// An equal copy of one constituent-file record.
fn clone_model_file(f: &ModelFile) -> (r: ModelFile)
    ensures
        r == *f,
{
    ModelFile { name: f.name.clone(), size_bytes: f.size_bytes, extension: f.extension.clone() }
}

/// A copy of a descriptor that agrees with it on every field.
pub fn clone_model_info(m: &ModelInfo) -> (r: ModelInfo)
    ensures
        model_info_like(r, *m),
{
    let mut caps: Vec<String> = Vec::new();
    let cn = m.capabilities.len();
    let mut i: usize = 0;
    while i < cn
        invariant
            cn == m.capabilities@.len(),
            i <= cn,
            caps@ == m.capabilities@.take(i as int),
        decreases cn - i,
    {
        caps.push(m.capabilities[i].clone());
        i = i + 1;
        proof {
            assert(caps@ =~= m.capabilities@.take(i as int));
        }
    }
    proof {
        assert(m.capabilities@.take(cn as int) =~= m.capabilities@);
    }
    let mut files: Vec<ModelFile> = Vec::new();
    let fnn = m.files.len();
    let mut j: usize = 0;
    while j < fnn
        invariant
            fnn == m.files@.len(),
            j <= fnn,
            files@ == m.files@.take(j as int),
        decreases fnn - j,
    {
        files.push(clone_model_file(&m.files[j]));
        j = j + 1;
        proof {
            assert(files@ =~= m.files@.take(j as int));
        }
    }
    proof {
        assert(m.files@.take(fnn as int) =~= m.files@);
    }
    let config = match &m.config {
        Some(c) => Some(c.clone()),
        None => None,
    };
    ModelInfo {
        id: m.id.clone(),
        name: m.name.clone(),
        description: m.description.clone(),
        format: m.format,
        path: m.path.clone(),
        size_mb: m.size_mb,
        loaded: m.loaded,
        capabilities: caps,
        config,
        files,
    }
}

/// The descriptor `m` is what classifying the chat-model directory `l`
/// yields.
pub open spec fn classified_from(m: ModelInfo, l: DirectoryListing) -> bool {
    &&& m.id@ == l.name@
    &&& m.name@ == l.name@
    &&& m.description@ == "Local AI model"@
    &&& m.format == dir_format(l.files@)
    &&& m.path@ == l.path@
    &&& m.size_mb == size_mb_of(l.files@)
    &&& !m.loaded
    &&& m.capabilities.deep_view() == chat_caps(l.files@)
    &&& opt_view(m.config) == expected_config(l.files@)
    &&& files_match(m.files@, l.files@)
    &&& chat_yields(l.files@)
}

/// The descriptor `m` is what classifying the embedding-model directory
/// `l` yields.
pub open spec fn emb_classified_from(m: ModelInfo, l: DirectoryListing) -> bool {
    &&& m.id@ == l.name@
    &&& m.name@ == l.name@
    &&& m.description@ == "Embedding model for semantic search and similarity"@
    &&& m.format == ModelFormat::HuggingFace
    &&& m.path@ == l.path@
    &&& m.size_mb == size_mb_of(l.files@)
    &&& !m.loaded
    &&& m.capabilities.deep_view() == seq!["text_embedding"@, "semantic_search"@] + emb_caps_files(
        l.files@,
    )
    &&& opt_view(m.config) == config_at(l.files@, "config.json"@)
    &&& files_match(m.files@, l.files@)
    &&& emb_yields(l.files@)
}

/// A chat-model directory yields a descriptor: a recognized model file,
/// or a `config.json` under the HuggingFace default.
pub open spec fn chat_yields(files: Seq<ScannedFile>) -> bool {
    has_recognized(files) || has_named(files, "config.json"@)
}

/// Law of the GGUF directory: any directory holding a `.gguf`-classed
/// file yields a descriptor and classifies as GGUF. Together with
/// `classify_model_directory`'s contract this fixes the whole result:
/// the descriptor exists, its format is GGUF, its `size_mb` is the
/// whole-megabyte byte total of every scanned file, and there is one
/// file record per scanned file.
pub proof fn lemma_gguf_directory(files: Seq<ScannedFile>)
    requires
        has_class(files, ModelFormat::Gguf),
    ensures
        dir_format(files) == ModelFormat::Gguf,
        has_recognized(files),
        chat_yields(files),
{
    let i = choose|i: int|
        0 <= i < files.len() && file_class(files[i]) == Some(ModelFormat::Gguf);
    assert(file_class(files[i]) is Some);
    assert(has_recognized(files));
}

/// An embedding directory yields a descriptor: a weight file, a marked
/// architecture, or a parsing `config.json`.
pub open spec fn emb_yields(files: Seq<ScannedFile>) -> bool {
    ||| has_class(files, ModelFormat::HuggingFace)
    ||| emb_arch_flag(files)
    ||| config_at(files, "config.json"@) is Some
}

/// The extension of a file name as written, if it has one.
pub fn raw_extension(name: &str) -> (r: Option<String>)
    ensures
        match r {
            Some(e) => file_extension(name@) == Some(e@),
            None => file_extension(name@) is None,
        },
{
    let v = chars_of(name);
    let len = v.len();
    if len == 0 {
        return None;
    }
    let mut i: usize = len - 1;
    loop
        invariant
            len == name@.len(),
            len >= 1,
            v@ == name@,
            i <= len - 1,
            last_dot(name@, (len - 1) as int) == last_dot(name@, i as int),
        decreases i,
    {
        if v[i] == '.' {
            if i >= 1 {
                let ext = name.substring_char(i + 1, len);
                let mut e = String::new();
                e.append(ext);
                return Some(e);
            }
            return None;
        }
        if i == 0 {
            return None;
        }
        i = i - 1;
    }
}

/// The lowercased extension of `name`, if it has one.
fn lower_extension(name: &String) -> (r: Option<String>)
    ensures
        match r {
            Some(e) => file_extension(name@) is Some && e@ == lower_of(file_extension(name@)->0),
            None => file_extension(name@) is None,
        },
{
    match raw_extension(name.as_str()) {
        Some(e) => Some(to_lower(e.as_str())),
        None => None,
    }
}

/// The format a scanned file argues for, if any.
fn file_class_exec(f: &ScannedFile) -> (r: (Option<ModelFormat>, String))
    ensures
        r.0 == file_class(*f),
        r.1@ == seq!['.'] + match file_extension(f.name@) {
            Some(e) => lower_of(e),
            None => Seq::<char>::empty(),
        },
{
    proof {
        reveal_strlit(".");
    }
    let mut es = String::from_str(".");
    match lower_extension(&f.name) {
        Some(le) => {
            es.append(le.as_str());
            let cls = if str_eq(le.as_str(), "gguf") {
                Some(ModelFormat::Gguf)
            } else if str_eq(le.as_str(), "safetensors") || str_eq(le.as_str(), "bin") || str_eq(
                le.as_str(),
                "pth",
            ) {
                Some(ModelFormat::HuggingFace)
            } else if str_eq(le.as_str(), "onnx") {
                Some(ModelFormat::Onnx)
            } else if str_eq(le.as_str(), "ggml") {
                Some(ModelFormat::Ggml)
            } else {
                None
            };
            (cls, es)
        },
        None => (None, es),
    }
}

/// The first file of `files` named `nm`, by position.
fn find_named_exec<'a>(files: &'a Vec<ScannedFile>, nm: &str) -> (r: Option<&'a ScannedFile>)
    ensures
        match r {
            Some(f) => find_named(files@, nm@) == Some(*f),
            None => find_named(files@, nm@) is None,
        },
{
    let n = files.len();
    let mut i: usize = 0;
    proof {
        assert(files@.skip(0) =~= files@);
    }
    while i < n
        invariant
            n == files@.len(),
            i <= n,
            find_named(files@, nm@) == find_named(files@.skip(i as int), nm@),
        decreases n - i,
    {
        proof {
            assert(files@.skip(i as int)[0] == files@[i as int]);
            assert(files@.skip(i as int).skip(1) =~= files@.skip(i + 1));
        }
        if str_eq(files[i].name.as_str(), nm) {
            return Some(&files[i]);
        }
        i = i + 1;
    }
    proof {
        assert(files@.skip(n as int) =~= Seq::<ScannedFile>::empty());
    }
    None
}

/// Whether some file of `files` is named `nm`.
fn has_named_exec(files: &Vec<ScannedFile>, nm: &str) -> (r: bool)
    ensures
        r == has_named(files@, nm@),
{
    let n = files.len();
    let mut i: usize = 0;
    while i < n
        invariant
            n == files@.len(),
            i <= n,
            forall|k: int| 0 <= k < i ==> files@[k].name@ != nm@,
        decreases n - i,
    {
        if str_eq(files[i].name.as_str(), nm) {
            return true;
        }
        i = i + 1;
    }
    false
}

/// The content of the file named `nm`, when it was read and parses as
/// JSON.
fn config_lookup(files: &Vec<ScannedFile>, nm: &str) -> (r: Option<String>)
    ensures
        opt_view(r) == config_at(files@, nm@),
{
    match find_named_exec(files, nm) {
        Some(f) => match &f.content {
            Some(c) => {
                if parses_as_json(c.as_str()) {
                    Some(c.clone())
                } else {
                    None
                }
            },
            None => None,
        },
        None => None,
    }
}

/// Classifies one scanned chat-model directory into a descriptor.
///
/// A directory yields a descriptor exactly when some file is a recognized
/// model file, or — since an unrecognized directory defaults to the
/// HuggingFace format — when it holds a `config.json`. The format follows
/// the extension precedence GGUF, HuggingFace, ONNX, GGML; capability tags
/// accumulate per recognized file; the size is the byte total in whole
/// megabytes; the attached configuration is the first of the three
/// candidate files whose text parses as JSON.
pub fn classify_model_directory(dir: &DirectoryListing) -> (r: Option<ModelInfo>)
    ensures
        r is Some <==> chat_yields(dir.files@),
        r matches Some(m) ==> {
            &&& m.id@ == dir.name@
            &&& m.name@ == dir.name@
            &&& m.description@ == "Local AI model"@
            &&& m.format == dir_format(dir.files@)
            &&& m.path@ == dir.path@
            &&& m.size_mb == size_mb_of(dir.files@)
            &&& !m.loaded
            &&& m.capabilities.deep_view() == chat_caps(dir.files@)
            &&& opt_view(m.config) == expected_config(dir.files@)
            &&& files_match(m.files@, dir.files@)
            &&& m.wf()
        },
        has_class(dir.files@, ModelFormat::Gguf) ==> (r matches Some(m) && m.format
            == ModelFormat::Gguf && m.size_mb == size_mb_of(dir.files@) && m.files@.len()
            == dir.files@.len()),
{
    let files = &dir.files;
    let n = files.len();
    let mut total: u64 = 0;
    let mut hg = false;
    let mut hh = false;
    let mut ho = false;
    let mut hm = false;
    let mut caps: Vec<String> = Vec::new();
    let mut mfiles: Vec<ModelFile> = Vec::new();
    let mut i: usize = 0;
    while i < n
        invariant
            n == dir.files@.len(),
            files@ == dir.files@,
            i <= n,
            total == if sum_bytes(dir.files@.take(i as int)) > u64::MAX as int {
                u64::MAX as int
            } else {
                sum_bytes(dir.files@.take(i as int))
            },
            hg <==> exists|k: int|
                0 <= k < i && file_class(dir.files@[k]) == Some(ModelFormat::Gguf),
            hh <==> exists|k: int|
                0 <= k < i && file_class(dir.files@[k]) == Some(ModelFormat::HuggingFace),
            ho <==> exists|k: int|
                0 <= k < i && file_class(dir.files@[k]) == Some(ModelFormat::Onnx),
            hm <==> exists|k: int|
                0 <= k < i && file_class(dir.files@[k]) == Some(ModelFormat::Ggml),
            caps.deep_view() == chat_caps(dir.files@.take(i as int)),
            files_match(mfiles@, dir.files@.take(i as int)),
        decreases n - i,
    {
        let ghost pre = dir.files@.take(i as int);
        let ghost cur = dir.files@.take(i + 1);
        proof {
            assert(cur.drop_last() =~= pre);
            assert(cur.last() == dir.files@[i as int]);
        }
        let f = &files[i];
        if f.size_bytes > u64::MAX - total {
            total = u64::MAX;
        } else {
            total = total + f.size_bytes;
        }
        let (cls, es) = file_class_exec(f);
        mfiles.push(ModelFile { name: f.name.clone(), size_bytes: f.size_bytes, extension: es });
        let ghost capspre = caps.deep_view();
        match cls {
            Some(ModelFormat::Gguf) => {
                hg = true;
                caps.push(String::from_str("text_generation"));
                caps.push(String::from_str("chat"));
                proof {
                    assert(caps.deep_view() =~~= capspre + chat_caps_of_file(dir.files@[i as int]));
                }
            },
            Some(ModelFormat::HuggingFace) => {
                hh = true;
                caps.push(String::from_str("text_generation"));
                caps.push(String::from_str("chat"));
                caps.push(String::from_str("vision"));
                proof {
                    assert(caps.deep_view() =~~= capspre + chat_caps_of_file(dir.files@[i as int]));
                }
            },
            Some(ModelFormat::Onnx) => {
                ho = true;
                caps.push(String::from_str("text_generation"));
                caps.push(String::from_str("chat"));
                proof {
                    assert(caps.deep_view() =~~= capspre + chat_caps_of_file(dir.files@[i as int]));
                }
            },
            Some(ModelFormat::Ggml) => {
                hm = true;
                caps.push(String::from_str("text_generation"));
                caps.push(String::from_str("chat"));
                proof {
                    assert(caps.deep_view() =~~= capspre + chat_caps_of_file(dir.files@[i as int]));
                }
            },
            None => {
                proof {
                    assert(caps.deep_view() =~~= capspre + chat_caps_of_file(dir.files@[i as int]));
                }
            },
        }
        i = i + 1;
    }
    proof {
        assert(dir.files@.take(n as int) =~= dir.files@);
    }
    let has_rec = hg || hh || ho || hm;
    let has_cj = has_named_exec(files, "config.json");
    if !has_rec && !has_cj {
        return None;
    }
    let format = if hg {
        ModelFormat::Gguf
    } else if hh {
        ModelFormat::HuggingFace
    } else if ho {
        ModelFormat::Onnx
    } else if hm {
        ModelFormat::Ggml
    } else {
        ModelFormat::HuggingFace
    };
    let config = match config_lookup(files, "config.json") {
        Some(c) => Some(c),
        None => match config_lookup(files, "model_config.json") {
            Some(c) => Some(c),
            None => config_lookup(files, "tokenizer_config.json"),
        },
    };
    Some(
        ModelInfo {
            id: dir.name.clone(),
            name: dir.name.clone(),
            description: String::from_str("Local AI model"),
            format,
            path: dir.path.clone(),
            size_mb: total / 0x100000,
            loaded: false,
            capabilities: caps,
            config,
            files: mfiles,
        },
    )
}

/// Classifies one scanned embedding-model directory into a descriptor.
///
/// A directory yields a descriptor exactly when it holds a weight file
/// (`.safetensors`, `.bin`, `.pth`), or its `config.json` parses and
/// names a SentenceTransformer or Embedding architecture, or its
/// `config.json` merely parses. The format is always HuggingFace; the
/// base embedding tags come first and each weight file adds its own.
pub fn classify_embedding_directory(dir: &DirectoryListing) -> (r: Option<ModelInfo>)
    ensures
        r is Some <==> (has_class(dir.files@, ModelFormat::HuggingFace) || emb_arch_flag(dir.files@)
            || config_at(dir.files@, "config.json"@) is Some),
        r matches Some(m) ==> {
            &&& m.id@ == dir.name@
            &&& m.name@ == dir.name@
            &&& m.description@ == "Embedding model for semantic search and similarity"@
            &&& m.format == ModelFormat::HuggingFace
            &&& m.path@ == dir.path@
            &&& m.size_mb == size_mb_of(dir.files@)
            &&& !m.loaded
            &&& m.capabilities.deep_view() == seq!["text_embedding"@, "semantic_search"@]
                + emb_caps_files(dir.files@)
            &&& opt_view(m.config) == config_at(dir.files@, "config.json"@)
            &&& files_match(m.files@, dir.files@)
            &&& m.wf()
        },
{
    let files = &dir.files;
    let n = files.len();
    let mut total: u64 = 0;
    let mut has_weight = false;
    let mut caps: Vec<String> = Vec::new();
    caps.push(String::from_str("text_embedding"));
    caps.push(String::from_str("semantic_search"));
    let ghost base_caps = seq!["text_embedding"@, "semantic_search"@];
    proof {
        assert(caps.deep_view() =~~= base_caps + emb_caps_files(dir.files@.take(0)));
    }
    let mut mfiles: Vec<ModelFile> = Vec::new();
    let mut i: usize = 0;
    while i < n
        invariant
            n == dir.files@.len(),
            files@ == dir.files@,
            i <= n,
            total == if sum_bytes(dir.files@.take(i as int)) > u64::MAX as int {
                u64::MAX as int
            } else {
                sum_bytes(dir.files@.take(i as int))
            },
            has_weight <==> exists|k: int|
                0 <= k < i && file_class(dir.files@[k]) == Some(ModelFormat::HuggingFace),
            caps.deep_view() == base_caps + emb_caps_files(dir.files@.take(i as int)),
            files_match(mfiles@, dir.files@.take(i as int)),
        decreases n - i,
    {
        let ghost pre = dir.files@.take(i as int);
        let ghost cur = dir.files@.take(i + 1);
        proof {
            assert(cur.drop_last() =~= pre);
            assert(cur.last() == dir.files@[i as int]);
        }
        let f = &files[i];
        if f.size_bytes > u64::MAX - total {
            total = u64::MAX;
        } else {
            total = total + f.size_bytes;
        }
        let (cls, es) = file_class_exec(f);
        mfiles.push(ModelFile { name: f.name.clone(), size_bytes: f.size_bytes, extension: es });
        let ghost capspre = caps.deep_view();
        match cls {
            Some(ModelFormat::HuggingFace) => {
                has_weight = true;
                caps.push(String::from_str("text_embedding"));
                caps.push(String::from_str("semantic_search"));
                caps.push(String::from_str("similarity"));
                caps.push(String::from_str("classification"));
                caps.push(String::from_str("clustering"));
                proof {
                    assert(caps.deep_view() =~~= capspre + emb_caps_of_file(dir.files@[i as int]));
                }
            },
            _ => {
                proof {
                    assert(caps.deep_view() =~~= capspre + emb_caps_of_file(dir.files@[i as int]));
                }
            },
        }
        i = i + 1;
    }
    proof {
        assert(dir.files@.take(n as int) =~= dir.files@);
    }
    let config = config_lookup(files, "config.json");
    let arch_ok = match &config {
        Some(c) => match first_architecture(c.as_str()) {
            Some(a) => {
                let av = chars_of(a.as_str());
                let st = chars_of("SentenceTransformer");
                let em = chars_of("Embedding");
                seq_contains(&av, &st) || seq_contains(&av, &em)
            },
            None => false,
        },
        None => false,
    };
    let has_model_files = has_weight || arch_ok;
    if !has_model_files && config.is_none() {
        return None;
    }
    Some(
        ModelInfo {
            id: dir.name.clone(),
            name: dir.name.clone(),
            description: String::from_str("Embedding model for semantic search and similarity"),
            format: ModelFormat::HuggingFace,
            path: dir.path.clone(),
            size_mb: total / 0x100000,
            loaded: false,
            capabilities: caps,
            config,
            files: mfiles,
        },
    )
}

} // verus!
