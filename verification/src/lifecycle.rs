//! The model lifecycle manager: the registry of discovered descriptors,
//! the single loaded backend, the bounded conversation, and generation.
//!
//! At most one backend is loaded at a time; loading another model first
//! unloads the current one, so at most one descriptor ever carries
//! `loaded == true`. A failure while loading leaves the manager unloaded,
//! never half-loaded.

use vstd::prelude::*;
use crate::backend::{
    Backend, GenerationParams, GgufBackend, OnnxBackend, TransformersBackend, generate_post,
};
use crate::chat::MessageRole;
use crate::conversation::{prompt_of, recent, ConversationMessage, ConversationStore};
use crate::errors::AiError;
use crate::registry::{
    chat_yields, classified_from, classify_embedding_directory, classify_model_directory,
    clone_model_info, emb_classified_from, emb_yields, model_info_like, DirectoryListing,
    ModelFormat, ModelInfo,
};
use crate::text::str_eq;

verus! {

/// The lifecycle manager.
pub struct ModelManager {
    pub available_models: Vec<ModelInfo>,
    pub loaded_backend: Option<Backend>,
    pub current_model: Option<String>,
    pub conversation: ConversationStore,
    pub generation_settings: GenerationParams,
}

impl Default for ModelManager {
    /// Same as `new`: nothing discovered and nothing loaded.
    fn default() -> (r: Self)
        ensures
            r.available_models@ == Seq::<ModelInfo>::empty(),
            r.loaded_backend is None,
            r.current_model is None,
            r.conversation.messages@ == Seq::<ConversationMessage>::empty(),
            r.conversation.max_len == 20,
            r.wf(),
    {
        ModelManager::new()
    }
}

/// No two descriptors share an id.
pub open spec fn ids_unique(ms: Seq<ModelInfo>) -> bool {
    forall|i: int, j: int| 0 <= i < j < ms.len() ==> ms[i].id@ != ms[j].id@
}

/// Only the current model may carry the loaded flag.
pub open spec fn flags_current(ms: Seq<ModelInfo>, cur: Option<String>) -> bool {
    forall|i: int|
        0 <= i < ms.len() && (#[trigger] ms[i]).loaded ==> cur is Some && ms[i].id@ == cur->0@
}

/// At most one descriptor is marked loaded.
pub open spec fn at_most_one_loaded(ms: Seq<ModelInfo>) -> bool {
    forall|i: int, j: int|
        0 <= i < ms.len() && 0 <= j < ms.len() && ms[i].loaded && ms[j].loaded ==> i == j
}

/// Every stored descriptor is well-formed.
pub open spec fn models_wf(ms: Seq<ModelInfo>) -> bool {
    forall|i: int| 0 <= i < ms.len() ==> (#[trigger] ms[i]).wf()
}

/// Law of the single active backend: a registry with unique ids whose
/// loaded flags all point at the current model has at most one loaded
/// descriptor — and every manager operation preserves its invariant, so
/// this holds after any sequence of loads and unloads.
pub proof fn lemma_at_most_one_loaded(ms: Seq<ModelInfo>, cur: Option<String>)
    requires
        ids_unique(ms),
        flags_current(ms, cur),
    ensures
        at_most_one_loaded(ms),
{
    assert forall|i: int, j: int|
        0 <= i < ms.len() && 0 <= j < ms.len() && ms[i].loaded && ms[j].loaded implies i == j by {
        if i != j {
            let a = if i < j {
                i
            } else {
                j
            };
            let b = if i < j {
                j
            } else {
                i
            };
            assert(ms[a].id@ != ms[b].id@);
            assert(ms[i].id@ == cur->0@ && ms[j].id@ == cur->0@);
        }
    }
}

/// The index of the first descriptor with the given id, scanning from
/// position `i`.
pub open spec fn idx_of(ms: Seq<ModelInfo>, id: Seq<char>, i: int) -> Option<int>
    decreases ms.len() - i + 1 when i >= 0
{
    if i >= ms.len() {
        None
    } else if ms[i].id@ == id {
        Some(i)
    } else {
        idx_of(ms, id, i + 1)
    }
}

/// The index of the first descriptor with the given id, if any.
pub open spec fn model_idx(ms: Seq<ModelInfo>, id: Seq<char>) -> Option<int> {
    idx_of(ms, id, 0)
}

/// What `model_idx` finds is the first descriptor with that id.
pub proof fn lemma_model_idx_props(ms: Seq<ModelInfo>, id: Seq<char>, i: int)
    requires
        i >= 0,
    ensures
        match idx_of(ms, id, i) {
            Some(j) => i <= j < ms.len() && ms[j].id@ == id && forall|k: int|
                i <= k < j ==> ms[k].id@ != id,
            None => forall|k: int| i <= k < ms.len() ==> ms[k].id@ != id,
        },
    decreases ms.len() - i + 1,
{
    if i < ms.len() && ms[i].id@ != id {
        lemma_model_idx_props(ms, id, i + 1);
    }
}

/// The first index whose descriptor has the given format, scanning from
/// position `i`.
pub open spec fn first_with_format(ms: Seq<ModelInfo>, fmt: ModelFormat, i: int) -> Option<int>
    decreases ms.len() - i + 1 when i >= 0
{
    if i >= ms.len() {
        None
    } else if ms[i].format == fmt {
        Some(i)
    } else {
        first_with_format(ms, fmt, i + 1)
    }
}

/// The descriptor `load_best_model` picks: the first in format priority
/// order GGUF, HuggingFace, ONNX, GGML.
pub open spec fn priority_pick(ms: Seq<ModelInfo>) -> Option<int> {
    if first_with_format(ms, ModelFormat::Gguf, 0) is Some {
        first_with_format(ms, ModelFormat::Gguf, 0)
    } else if first_with_format(ms, ModelFormat::HuggingFace, 0) is Some {
        first_with_format(ms, ModelFormat::HuggingFace, 0)
    } else if first_with_format(ms, ModelFormat::Onnx, 0) is Some {
        first_with_format(ms, ModelFormat::Onnx, 0)
    } else {
        first_with_format(ms, ModelFormat::Ggml, 0)
    }
}

/// There is some `.gguf` file among the descriptor's files.
pub open spec fn has_gguf_file(files: Seq<crate::registry::ModelFile>) -> bool {
    exists|i: int| 0 <= i < files.len() && files[i].extension@ == ".gguf"@
}

/// Whether a backend can be constructed for the descriptor: GGUF and
/// GGML need a `.gguf` file; the other formats always construct.
pub open spec fn can_construct(m: ModelInfo) -> bool {
    match m.format {
        ModelFormat::Gguf => has_gguf_file(m.files@),
        ModelFormat::Ggml => has_gguf_file(m.files@),
        ModelFormat::HuggingFace => true,
        ModelFormat::Onnx => true,
    }
}

/// The backend `b` wraps descriptor `m`, in the variant `m.format`
/// dispatches to (GGML rides on the GGUF backend).
pub open spec fn backend_matches(b: Backend, m: ModelInfo) -> bool {
    &&& model_info_like(b.info_spec(), m)
    &&& (b is Gguf <==> (m.format == ModelFormat::Gguf || m.format == ModelFormat::Ggml))
    &&& (b is Transformers <==> m.format == ModelFormat::HuggingFace)
    &&& (b is Onnx <==> m.format == ModelFormat::Onnx)
}

/// The descriptor with its loaded flag cleared.
pub open spec fn unloaded_model(m: ModelInfo) -> ModelInfo {
    ModelInfo { loaded: false, ..m }
}

/// The descriptor with its loaded flag set.
pub open spec fn loaded_model(m: ModelInfo) -> ModelInfo {
    ModelInfo { loaded: true, ..m }
}

/// A registry after storing one descriptor: the entry already carrying
/// its id is overwritten, otherwise the descriptor is appended.
pub open spec fn upsert_spec(ms: Seq<ModelInfo>, m: ModelInfo) -> Seq<ModelInfo> {
    match model_idx(ms, m.id@) {
        Some(j) => ms.update(j, m),
        None => ms.push(m),
    }
}

/// `post` is what processing the first `k` listings leaves of a registry
/// that started as `pre`: each non-embedding listing that yields a
/// descriptor upserts its classification, in listing order; every other
/// listing changes nothing. A discovery scan starts from the empty
/// registry, so nothing from before the scan survives it.
pub open spec fn scan_upserts(
    pre: Seq<ModelInfo>,
    post: Seq<ModelInfo>,
    listings: Seq<DirectoryListing>,
    k: int,
) -> bool
    decreases k,
{
    if k <= 0 {
        post == pre
    } else if listings[k - 1].name@ == "embedding"@ || !chat_yields(
        listings[k - 1].files@,
    ) {
        scan_upserts(pre, post, listings, k - 1)
    } else {
        exists|mid: Seq<ModelInfo>, m: ModelInfo|
            #![trigger upsert_spec(mid, m)]
            scan_upserts(pre, mid, listings, k - 1) && classified_from(m, listings[k - 1]) && post
                == upsert_spec(mid, m)
    }
}

/// How many of the first `k` listings yield an embedding descriptor.
pub open spec fn emb_count(listings: Seq<DirectoryListing>, k: int) -> int
    decreases k,
{
    if k <= 0 {
        0
    } else {
        emb_count(listings, k - 1) + if emb_yields(listings[k - 1].files@) {
            1int
        } else {
            0int
        }
    }
}

/// The yield count grows by at most one per listing and never shrinks.
pub proof fn lemma_emb_count_mono(listings: Seq<DirectoryListing>, a: int, b: int)
    requires
        a <= b,
    ensures
        emb_count(listings, a) <= emb_count(listings, b) <= emb_count(listings, a) + (b - a),
    decreases b - a,
{
    if a < b {
        lemma_emb_count_mono(listings, a, b - 1);
    }
}

/// The descriptor `m` is the classification of one of the first `upto`
/// listings, whose directory is not named `embedding`.
pub open spec fn from_listing(m: ModelInfo, listings: Seq<DirectoryListing>, upto: int) -> bool {
    exists|k: int|
        0 <= k < upto && listings[k].name@ != "embedding"@ && classified_from(m, listings[k])
}

/// Some descriptor carries the given id.
pub open spec fn id_present(ms: Seq<ModelInfo>, id: Seq<char>) -> bool {
    exists|i: int| 0 <= i < ms.len() && (#[trigger] ms[i]).id@ == id
}

/// A message the lifecycle manager rejects before touching any state:
/// all-whitespace, or longer than ten thousand characters.
pub open spec fn invalid_message(m: Seq<char>) -> bool {
    crate::text::trim_of(m).len() == 0 || m.len() > 10000
}

/// What a successful validation leaves behind: the user turn `um` was
/// appended with trimming, the backend `b` answered the resulting prompt
/// with `r`, and on success the reply was appended untrimmed.
pub open spec fn responded(
    pre: ModelManager,
    b: Backend,
    um: ConversationMessage,
    msgv: Seq<char>,
    post: ModelManager,
    r: Result<String, AiError>,
) -> bool {
    let hist1 = recent(pre.conversation.messages@.push(um), pre.conversation.max_len as int);
    &&& um.role == MessageRole::User
    &&& um.content@ == msgv
    &&& generate_post(
        b.info_spec(),
        b.blurb_spec(),
        b.label_spec(),
        b.note_spec(),
        prompt_of(hist1),
        r,
    )
    &&& (r is Err ==> post.conversation.messages@ == hist1)
    &&& (r matches Ok(t) ==> exists|am: ConversationMessage|
        (#[trigger] am.content)@ == t@ && am.role == MessageRole::Assistant
            && post.conversation.messages@ == hist1.push(am))
}

/// The registry after an unload: the current model's flag cleared,
/// everything else untouched.
pub open spec fn models_after_unload(ms: Seq<ModelInfo>, cur: Option<String>) -> Seq<ModelInfo> {
    Seq::new(
        ms.len(),
        |k: int|
            if cur is Some && ms[k].id@ == cur->0@ {
                unloaded_model(ms[k])
            } else {
                ms[k]
            },
    )
}

/// What loading the descriptor at `idx` leaves behind, relative to the
/// state `pre` before the call.
pub open spec fn load_post(
    pre: ModelManager,
    idx: int,
    post: ModelManager,
    r: Result<bool, AiError>,
) -> bool {
    let m0 = pre.available_models@[idx];
    &&& post.conversation == pre.conversation
    &&& post.generation_settings == pre.generation_settings
    &&& (can_construct(m0) ==> {
        &&& r == Ok::<bool, AiError>(true)
        &&& post.loaded_backend matches Some(b) && backend_matches(b, m0)
        &&& post.current_model matches Some(c) && c@ == m0.id@
        &&& post.available_models@ == models_after_unload(
            pre.available_models@,
            pre.current_model,
        ).update(idx, loaded_model(m0))
    })
    &&& (!can_construct(m0) ==> {
        &&& r matches Err(e) && e is NotFound
        &&& post.loaded_backend is None
        &&& post.current_model is None
        &&& post.available_models@ == models_after_unload(pre.available_models@, pre.current_model)
    })
}

impl ModelManager {
    /// The manager's invariant: unique ids, loaded flags only on the
    /// current model, well-formed descriptors, and a backend exactly when
    /// a current model is set.
    pub open spec fn wf(self) -> bool {
        &&& ids_unique(self.available_models@)
        &&& flags_current(self.available_models@, self.current_model)
        &&& models_wf(self.available_models@)
        &&& (self.loaded_backend matches Some(b) ==> b.info_spec().wf())
        &&& (self.loaded_backend is Some <==> self.current_model is Some)
    }

    /// A fresh manager: no models, nothing loaded, an empty conversation
    /// capped at twenty turns, and default generation settings.
    pub fn new() -> (r: Self)
        ensures
            r.available_models@ == Seq::<ModelInfo>::empty(),
            r.loaded_backend is None,
            r.current_model is None,
            r.conversation.messages@ == Seq::<ConversationMessage>::empty(),
            r.conversation.max_len == 20,
            r.wf(),
    {
        ModelManager {
            available_models: Vec::new(),
            loaded_backend: None,
            current_model: None,
            conversation: ConversationStore::new(20),
            generation_settings: GenerationParams::default(),
        }
    }

    /// The index of the descriptor with the given id, if any.
    fn find_index(&self, id: &str) -> (r: Option<usize>)
        ensures
            match r {
                Some(j) => model_idx(self.available_models@, id@) == Some(j as int),
                None => model_idx(self.available_models@, id@) is None,
            },
    {
        let ms = &self.available_models;
        let n = ms.len();
        let mut i: usize = 0;
        while i < n
            invariant
                n == ms@.len(),
                ms@ == self.available_models@,
                i <= n,
                model_idx(ms@, id@) == idx_of(ms@, id@, i as int),
            decreases n - i,
        {
            if str_eq(ms[i].id.as_str(), id) {
                return Some(i);
            }
            i = i + 1;
        }
        None
    }

    /// Unloads the current backend, clears the current model's loaded
    /// flag and the current-model pointer. A no-op when nothing is
    /// loaded.
    pub fn unload_current_model(&mut self) -> (r: Result<(), AiError>)
        requires
            old(self).wf(),
        ensures
            r is Ok,
            final(self).wf(),
            final(self).loaded_backend is None,
            final(self).current_model is None,
            final(self).available_models@ == models_after_unload(
                old(self).available_models@,
                old(self).current_model,
            ),
            final(self).conversation == old(self).conversation,
            final(self).generation_settings == old(self).generation_settings,
    {
        let mut taken: Option<Backend> = None;
        core::mem::swap(&mut taken, &mut self.loaded_backend);
        match taken {
            Some(mut backend) => {
                let _unloaded = backend.unload();
            },
            None => {},
        }
        match &self.current_model {
            Some(id) => {
                proof {
                    lemma_model_idx_props(self.available_models@, id@, 0);
                }
                match self.find_index(id.as_str()) {
                    Some(j) => {
                        self.available_models[j].loaded = false;
                    },
                    None => {},
                }
            },
            None => {},
        }
        self.current_model = None;
        proof {
            assert(self.available_models@ =~= models_after_unload(
                old(self).available_models@,
                old(self).current_model,
            ));
        }
        Ok(())
    }

    /// Loads the model with the given id. Fails with `NotFound` when the
    /// id is absent, leaving everything untouched. Otherwise the current
    /// backend (if any) is unloaded first; a GGUF or GGML descriptor
    /// without a `.gguf` file then fails with `NotFound` and leaves the
    /// manager unloaded; in every other case the new backend is
    /// installed, the descriptor is marked loaded and the call returns
    /// `true`.
    pub fn load_model_by_id(&mut self, model_id: &str) -> (r: Result<bool, AiError>)
        requires
            old(self).wf(),
        ensures
            final(self).wf(),
            at_most_one_loaded(final(self).available_models@),
            model_idx(old(self).available_models@, model_id@) is None ==> ((r matches Err(e)
                && e is NotFound) && *final(self) == *old(self)),
            model_idx(old(self).available_models@, model_id@) matches Some(idx) ==> load_post(
                *old(self),
                idx,
                *final(self),
                r,
            ),
    {
        let j = match self.find_index(model_id) {
            Some(j) => j,
            None => {
                let mut m = String::from_str("Model not found: ");
                m.append(model_id);
                return Err(AiError::NotFound(m));
            },
        };
        proof {
            lemma_model_idx_props(self.available_models@, model_id@, 0);
        }
        let info = clone_model_info(&self.available_models[j]);
        if self.loaded_backend.is_some() {
            let _unloaded = self.unload_current_model();
        } else {
            proof {
                assert(self.available_models@ =~= models_after_unload(
                    old(self).available_models@,
                    old(self).current_model,
                ));
            }
        }
        let backend = match info.format {
            ModelFormat::Gguf => match Self::make_gguf_backend(info) {
                Ok(b) => b,
                Err(e) => {
                    return Err(e);
                },
            },
            ModelFormat::Ggml => match Self::make_gguf_backend(info) {
                Ok(b) => b,
                Err(e) => {
                    return Err(e);
                },
            },
            ModelFormat::HuggingFace => Backend::Transformers(
                TransformersBackend { model_info: info },
            ),
            ModelFormat::Onnx => Backend::Onnx(OnnxBackend { model_info: info }),
        };
        self.loaded_backend = Some(backend);
        self.current_model = Some(String::from_str(model_id));
        self.available_models[j].loaded = true;
        proof {
            let pre = old(self).available_models@;
            let cleared = models_after_unload(pre, old(self).current_model);
            assert(self.available_models@ =~= cleared.update(j as int, loaded_model(pre[j as int])));
            lemma_at_most_one_loaded(self.available_models@, self.current_model);
        }
        Ok(true)
    }

    /// Constructs the GGUF backend for a descriptor, which needs some
    /// `.gguf` file among its constituents.
    fn make_gguf_backend(info: ModelInfo) -> (r: Result<Backend, AiError>)
        ensures
            has_gguf_file(info.files@) ==> (r matches Ok(b) && b == Backend::Gguf(
                GgufBackend { model_info: info },
            )),
            !has_gguf_file(info.files@) ==> (r matches Err(e) && e is NotFound),
    {
        let n = info.files.len();
        let mut i: usize = 0;
        while i < n
            invariant
                n == info.files@.len(),
                i <= n,
                forall|k: int| 0 <= k < i ==> info.files@[k].extension@ != ".gguf"@,
            decreases n - i,
        {
            if str_eq(info.files[i].extension.as_str(), ".gguf") {
                return Ok(Backend::Gguf(GgufBackend { model_info: info }));
            }
            i = i + 1;
        }
        Err(AiError::NotFound(String::from_str("No GGUF file found in model directory")))
    }

    /// Loads the first available model in format priority order GGUF,
    /// HuggingFace, ONNX, GGML; returns `false` without error when the
    /// registry is empty.
    pub fn load_best_model(&mut self) -> (r: Result<bool, AiError>)
        requires
            old(self).wf(),
        ensures
            final(self).wf(),
            old(self).available_models@.len() == 0 ==> r == Ok::<bool, AiError>(false)
                && *final(self) == *old(self),
            old(self).available_models@.len() > 0 ==> (priority_pick(old(self).available_models@)
                matches Some(idx) && load_post(*old(self), idx, *final(self), r)),
    {
        if self.available_models.len() == 0 {
            return Ok(false);
        }
        let pick = match self.find_best_index() {
            Some(p) => p,
            None => {
                return Ok(false);
            },
        };
        let ghost pre = self.available_models@;
        let id = self.available_models[pick].id.clone();
        proof {
            lemma_model_idx_props(pre, id@, 0);
            match model_idx(pre, id@) {
                Some(fi) => {
                    if fi < pick {
                        assert(pre[fi].id@ != pre[pick as int].id@);
                    }
                },
                None => {
                    assert(pre[pick as int].id@ == id@);
                },
            }
        }
        self.load_model_by_id(id.as_str())
    }

    /// The index `load_best_model` picks.
    fn find_best_index(&self) -> (r: Option<usize>)
        ensures
            match r {
                Some(p) => priority_pick(self.available_models@) == Some(p as int) && p
                    < self.available_models@.len(),
                None => priority_pick(self.available_models@) is None,
            },
    {
        match self.find_format_index(ModelFormat::Gguf) {
            Some(p) => Some(p),
            None => match self.find_format_index(ModelFormat::HuggingFace) {
                Some(p) => Some(p),
                None => match self.find_format_index(ModelFormat::Onnx) {
                    Some(p) => Some(p),
                    None => self.find_format_index(ModelFormat::Ggml),
                },
            },
        }
    }

    /// The index of the first descriptor with the given format.
    fn find_format_index(&self, fmt: ModelFormat) -> (r: Option<usize>)
        ensures
            match r {
                Some(p) => first_with_format(self.available_models@, fmt, 0) == Some(p as int) && p
                    < self.available_models@.len(),
                None => first_with_format(self.available_models@, fmt, 0) is None,
            },
    {
        let ms = &self.available_models;
        let n = ms.len();
        let mut i: usize = 0;
        while i < n
            invariant
                n == ms@.len(),
                ms@ == self.available_models@,
                i <= n,
                first_with_format(ms@, fmt, 0) == first_with_format(ms@, fmt, i as int),
            decreases n - i,
        {
            if ms[i].format == fmt {
                return Some(i);
            }
            i = i + 1;
        }
        None
    }

    /// Loads a model by its name, which doubles as its id: exactly
    /// `load_model_by_id`. An unknown name fails with `NotFound`,
    /// surfaced immediately with no state change.
    pub fn load_model_by_name(&mut self, model_name: &str) -> (r: Result<bool, AiError>)
        requires
            old(self).wf(),
        ensures
            final(self).wf(),
            model_idx(old(self).available_models@, model_name@) is None ==> ((r matches Err(e)
                && e is NotFound) && *final(self) == *old(self)),
            model_idx(old(self).available_models@, model_name@) matches Some(idx) ==> load_post(
                *old(self),
                idx,
                *final(self),
                r,
            ),
    {
        self.load_model_by_id(model_name)
    }

    /// Rebuilds the registry from freshly scanned chat-model directories:
    /// a scan replaces every prior descriptor, so a directory that has
    /// vanished does not survive the next scan. The subdirectory named
    /// `embedding` is never classified here — it belongs to the embedding
    /// pass — so no descriptor this registry holds ever stems from it.
    pub fn discover_models(&mut self, listings: &Vec<DirectoryListing>)
        requires
            old(self).wf(),
        ensures
            final(self).wf(),
            final(self).loaded_backend == old(self).loaded_backend,
            final(self).current_model == old(self).current_model,
            final(self).conversation == old(self).conversation,
            final(self).generation_settings == old(self).generation_settings,
            forall|i: int|
                0 <= i < final(self).available_models@.len() ==> from_listing(
                    #[trigger] final(self).available_models@[i],
                    listings@,
                    listings@.len() as int,
                ),
            forall|k: int|
                #![trigger listings@[k]]
                0 <= k < listings@.len() && listings@[k].name@ != "embedding"@
                    && chat_yields(listings@[k].files@) ==> id_present(
                    final(self).available_models@,
                    listings@[k].name@,
                ),
            scan_upserts(
                Seq::<ModelInfo>::empty(),
                final(self).available_models@,
                listings@,
                listings@.len() as int,
            ),
    {
        self.available_models.clear();
        let n = listings.len();
        let mut k: usize = 0;
        while k < n
            invariant
                n == listings@.len(),
                k <= n,
                ids_unique(self.available_models@),
                models_wf(self.available_models@),
                flags_current(self.available_models@, self.current_model),
                self.loaded_backend == old(self).loaded_backend,
                self.current_model == old(self).current_model,
                self.conversation == old(self).conversation,
                self.generation_settings == old(self).generation_settings,
                old(self).wf(),
                forall|i: int|
                    0 <= i < self.available_models@.len() ==> from_listing(
                        #[trigger] self.available_models@[i],
                        listings@,
                        k as int,
                    ),
                forall|kk: int|
                    #![trigger listings@[kk]]
                    0 <= kk < k && listings@[kk].name@ != "embedding"@
                        && chat_yields(listings@[kk].files@) ==> id_present(
                        self.available_models@,
                        listings@[kk].name@,
                    ),
                scan_upserts(
                    Seq::<ModelInfo>::empty(),
                    self.available_models@,
                    listings@,
                    k as int,
                ),
            decreases n - k,
        {
            let l = &listings[k];
            if !str_eq(l.name.as_str(), "embedding") {
                match classify_model_directory(l) {
                    Some(m) => {
                        let ghost pre = self.available_models@;
                        let ghost mg = m;
                        proof {
                            lemma_model_idx_props(pre, m.id@, 0);
                            assert(classified_from(mg, listings@[k as int]));
                        }
                        Self::upsert(&mut self.available_models, m);
                        proof {
                            let cur = self.available_models@;
                            assert forall|i: int|
                                0 <= i < cur.len() implies from_listing(
                                #[trigger] cur[i],
                                listings@,
                                k + 1,
                            ) by {
                                if i < pre.len() && cur[i] == pre[i] {
                                    assert(from_listing(pre[i], listings@, k as int));
                                    let w = choose|kk: int|
                                        0 <= kk < k && listings@[kk].name@ != "embedding"@
                                            && classified_from(pre[i], listings@[kk]);
                                    assert(0 <= w < k + 1 && listings@[w].name@ != "embedding"@
                                        && classified_from(cur[i], listings@[w]));
                                    assert(exists|kk: int|
                                        0 <= kk < k + 1 && listings@[kk].name@ != "embedding"@
                                            && classified_from(cur[i], listings@[kk]));
                                } else {
                                    assert(cur[i] == mg);
                                    let w: int = k as int;
                                    assert(0 <= w < k + 1 && listings@[w].name@ != "embedding"@
                                        && classified_from(cur[i], listings@[w]));
                                    assert(exists|kk: int|
                                        0 <= kk < k + 1 && listings@[kk].name@ != "embedding"@
                                            && classified_from(cur[i], listings@[kk]));
                                }
                            }
                            assert forall|kk: int|
                                0 <= kk < k + 1 && listings@[kk].name@ != "embedding"@
                                    && chat_yields(listings@[kk].files@) implies
                                id_present(cur, #[trigger] listings@[kk].name@) by {
                                if kk == k {
                                    match model_idx(pre, mg.id@) {
                                        Some(j) => {
                                            assert(0 <= j < cur.len() && cur[j].id@
                                                == listings@[kk].name@);
                                        },
                                        None => {
                                            assert(cur[pre.len() as int].id@
                                                == listings@[kk].name@);
                                        },
                                    }
                                } else {
                                    assert(id_present(pre, listings@[kk].name@));
                                    let w = choose|i: int|
                                        0 <= i < pre.len() && (#[trigger] pre[i]).id@
                                            == listings@[kk].name@;
                                    assert(0 <= w < cur.len() && cur[w].id@ == listings@[kk].name@);
                                }
                            }
                            assert(chat_yields(listings@[k as int].files@));
                            assert(scan_upserts(
                                Seq::<ModelInfo>::empty(),
                                pre,
                                listings@,
                                k as int,
                            ) && classified_from(mg, listings@[k as int]) && cur == upsert_spec(
                                pre,
                                mg,
                            ));
                            assert(scan_upserts(
                                Seq::<ModelInfo>::empty(),
                                cur,
                                listings@,
                                k + 1,
                            ));
                        }
                    },
                    None => {
                        proof {
                            assert(!chat_yields(listings@[k as int].files@));
                            assert(scan_upserts(
                                Seq::<ModelInfo>::empty(),
                                self.available_models@,
                                listings@,
                                k + 1,
                            ));
                        }
                    },
                }
            } else {
                proof {
                    assert(listings@[k as int].name@ == "embedding"@);
                    assert(scan_upserts(
                        Seq::<ModelInfo>::empty(),
                        self.available_models@,
                        listings@,
                        k + 1,
                    ));
                }
            }
            k = k + 1;
        }
    }

    /// Inserts a descriptor, replacing the one that already carries its
    /// id if there is one.
    fn upsert(models: &mut Vec<ModelInfo>, m: ModelInfo)
        ensures
            final(models)@ == upsert_spec(old(models)@, m),
    {
        proof {
            lemma_model_idx_props(models@, m.id@, 0);
        }
        let n = models.len();
        let mut i: usize = 0;
        while i < n
            invariant
                n == models@.len(),
                models@ == old(models)@,
                i <= n,
                model_idx(models@, m.id@) == idx_of(models@, m.id@, i as int),
            decreases n - i,
        {
            if str_eq(models[i].id.as_str(), m.id.as_str()) {
                models[i] = m;
                return ;
            }
            i = i + 1;
        }
        models.push(m);
    }

    /// Validates the user message, appends it to the bounded history,
    /// renders the prompt, asks the loaded backend, and appends the reply.
    ///
    /// An all-whitespace or over-long message is rejected with
    /// `InvalidInput` before any history mutation; with no backend loaded
    /// the call fails with `StateError`, again without mutation. A
    /// generation failure propagates unchanged, leaving the user turn in
    /// the history as the backend saw it.
    pub fn generate_response(&mut self, user_message: &str) -> (r: Result<String, AiError>)
        requires
            old(self).wf(),
        ensures
            final(self).wf(),
            final(self).available_models == old(self).available_models,
            final(self).loaded_backend == old(self).loaded_backend,
            final(self).current_model == old(self).current_model,
            final(self).generation_settings == old(self).generation_settings,
            final(self).conversation.max_len == old(self).conversation.max_len,
            invalid_message(user_message@) ==> ((r matches Err(e) && e is InvalidInput)
                && *final(self) == *old(self)),
            !invalid_message(user_message@) && old(self).loaded_backend is None ==> ((r matches Err(e)
                && e is StateError) && *final(self) == *old(self)),
            old(self).loaded_backend matches Some(b) ==> !invalid_message(user_message@)
                ==> exists|um: ConversationMessage|
                #![trigger um.content]
                responded(*old(self), b, um, user_message@, *final(self), r),
    {
        let v = crate::text::chars_of(user_message);
        let (a, b) = crate::text::trim_bounds(&v);
        if b == a {
            return Err(AiError::InvalidInput(String::from_str("Please provide a valid message.")));
        }
        if v.len() > 10000 {
            return Err(
                AiError::InvalidInput(
                    String::from_str(
                        "Message too long. Please keep messages under 10,000 characters.",
                    ),
                ),
            );
        }
        if self.loaded_backend.is_none() {
            return Err(
                AiError::StateError(String::from_str("No model loaded. Please load a model first.")),
            );
        }
        let um = ConversationMessage {
            role: MessageRole::User,
            content: String::from_str(user_message),
        };
        let ghost umg = um;
        self.conversation.append(um);
        let prompt = self.conversation.build_prompt();
        let result = match &self.loaded_backend {
            Some(bk) => bk.generate_text(prompt.as_str(), &self.generation_settings),
            None => {
                proof {
                    assert(false);
                }
                Err(AiError::StateError(String::new()))
            },
        };
        match result {
            Ok(t) => {
                let am = ConversationMessage { role: MessageRole::Assistant, content: t.clone() };
                let ghost amg = am;
                self.conversation.push_untrimmed(am);
                let r = Ok::<String, AiError>(t);
                proof {
                    let bk0 = old(self).loaded_backend->0;
                    assert(responded(*old(self), bk0, umg, user_message@, *self, r)) by {
                        assert(amg.content@ == r->Ok_0@ && amg.role == MessageRole::Assistant
                            && self.conversation.messages@ == recent(
                            old(self).conversation.messages@.push(umg),
                            old(self).conversation.max_len as int,
                        ).push(amg));
                    }
                    assert(exists|um: ConversationMessage|
                        #![trigger um.content]
                        responded(*old(self), bk0, um, user_message@, *self, r));
                }
                r
            },
            Err(e) => {
                let r = Err::<String, AiError>(e);
                proof {
                    let bk0 = old(self).loaded_backend->0;
                    assert(responded(*old(self), bk0, umg, user_message@, *self, r));
                    assert(exists|um: ConversationMessage|
                        #![trigger um.content]
                        responded(*old(self), bk0, um, user_message@, *self, r));
                }
                r
            },
        }
    }

    /// Replaces the generation parameters wholesale; the next generation
    /// call uses them.
    pub fn update_generation_settings(&mut self, settings: GenerationParams)
        requires
            old(self).wf(),
        ensures
            final(self).wf(),
            final(self).generation_settings == settings,
            final(self).available_models == old(self).available_models,
            final(self).loaded_backend == old(self).loaded_backend,
            final(self).current_model == old(self).current_model,
            final(self).conversation == old(self).conversation,
    {
        self.generation_settings = settings;
    }

    /// Empties the conversation history.
    pub fn clear_conversation(&mut self)
        requires
            old(self).wf(),
        ensures
            final(self).wf(),
            final(self).conversation.messages@ == Seq::<ConversationMessage>::empty(),
            final(self).conversation.max_len == old(self).conversation.max_len,
            final(self).available_models == old(self).available_models,
            final(self).loaded_backend == old(self).loaded_backend,
            final(self).current_model == old(self).current_model,
            final(self).generation_settings == old(self).generation_settings,
    {
        self.conversation.clear();
    }

    /// Resets the conversation context: a distinct entry point with the
    /// same effect as `clear_conversation`.
    pub fn reset_context(&mut self)
        requires
            old(self).wf(),
        ensures
            final(self).wf(),
            final(self).conversation.messages@ == Seq::<ConversationMessage>::empty(),
            final(self).conversation.max_len == old(self).conversation.max_len,
            final(self).available_models == old(self).available_models,
            final(self).loaded_backend == old(self).loaded_backend,
            final(self).current_model == old(self).current_model,
            final(self).generation_settings == old(self).generation_settings,
    {
        self.conversation.clear();
    }

    /// The discovered descriptors.
    pub fn get_available_models(&self) -> (r: &Vec<ModelInfo>)
        ensures
            r@ == self.available_models@,
    {
        &self.available_models
    }

    /// The registry entry of the current model, if one is loaded and
    /// still listed.
    pub fn get_current_model(&self) -> (r: Option<&ModelInfo>)
        ensures
            match self.current_model {
                Some(c) => match model_idx(self.available_models@, c@) {
                    Some(ix) => r matches Some(m) && *m == self.available_models@[ix],
                    None => r is None,
                },
                None => r is None,
            },
    {
        match &self.current_model {
            Some(id) => {
                proof {
                    lemma_model_idx_props(self.available_models@, id@, 0);
                }
                match self.find_index(id.as_str()) {
                    Some(j) => Some(&self.available_models[j]),
                    None => None,
                }
            },
            None => None,
        }
    }

    /// The descriptor held by the loaded backend, if any.
    pub fn get_model_info(&self) -> (r: Option<&ModelInfo>)
        ensures
            match self.loaded_backend {
                Some(b) => r matches Some(mi) && *mi == b.info_spec(),
                None => r is None,
            },
    {
        match &self.loaded_backend {
            Some(b) => Some(b.get_model_info()),
            None => None,
        }
    }

    /// Classifies scanned embedding-model directories; the registry
    /// itself is left alone, matching the separate embedding pass. The
    /// result is exactly the classification of each yielding listing, in
    /// listing order.
    pub fn discover_embedding_models(&self, listings: &Vec<DirectoryListing>) -> (r: Vec<
        ModelInfo,
    >)
        ensures
            r@.len() == emb_count(listings@, listings@.len() as int),
            forall|k: int|
                #![trigger listings@[k]]
                0 <= k < listings@.len() && emb_yields(listings@[k].files@)
                    ==> emb_classified_from(r@[emb_count(listings@, k)], listings@[k]),
    {
        let n = listings.len();
        let mut out: Vec<ModelInfo> = Vec::new();
        let mut k: usize = 0;
        while k < n
            invariant
                n == listings@.len(),
                k <= n,
                out@.len() == emb_count(listings@, k as int),
                forall|kk: int|
                    #![trigger listings@[kk]]
                    0 <= kk < k && emb_yields(listings@[kk].files@) ==> emb_classified_from(
                        out@[emb_count(listings@, kk)],
                        listings@[kk],
                    ),
            decreases n - k,
        {
            let ghost preo = out@;
            match classify_embedding_directory(&listings[k]) {
                Some(m) => {
                    let ghost mg = m;
                    proof {
                        assert(emb_classified_from(mg, listings@[k as int]));
                    }
                    out.push(m);
                    proof {
                        assert forall|kk: int|
                            0 <= kk < k + 1 && emb_yields(listings@[kk].files@) implies
                            emb_classified_from(
                            out@[emb_count(listings@, kk)],
                            #[trigger] listings@[kk],
                        ) by {
                            if kk == k {
                                assert(out@[preo.len() as int] == mg);
                            } else {
                                lemma_emb_count_mono(listings@, 0, kk);
                                lemma_emb_count_mono(listings@, kk + 1, k as int);
                                assert(emb_count(listings@, kk + 1) == emb_count(listings@, kk)
                                    + 1);
                                assert(0 <= emb_count(listings@, kk) < preo.len());
                                assert(out@[emb_count(listings@, kk)] == preo[emb_count(
                                    listings@,
                                    kk,
                                )]);
                            }
                        }
                    }
                },
                None => {
                    proof {
                        assert forall|kk: int|
                            0 <= kk < k + 1 && emb_yields(listings@[kk].files@) implies
                            emb_classified_from(
                            out@[emb_count(listings@, kk)],
                            #[trigger] listings@[kk],
                        ) by {
                            if kk == k {
                                assert(!emb_yields(listings@[kk].files@));
                            }
                        }
                    }
                },
            }
            k = k + 1;
        }
        out
    }
}

} // verus!
