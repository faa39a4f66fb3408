//! Model metadata, capability flags, and fixed-capacity registry.
//!
//! The registry keeps at most `N` models, each of which passed validation,
//! and no two of which share an identifier.

use vstd::prelude::*;

use crate::text::same_text;
use crate::{CognitionError, CognitionResult, DataClass};

verus! {

/// Maximum stable model identifier length.
pub const MAX_MODEL_ID_LEN: usize = 96;

/// Maximum display name length for a model.
pub const MAX_MODEL_NAME_LEN: usize = 128;

/// Maximum revision string length.
pub const MAX_MODEL_REVISION_LEN: usize = 64;

/// Permission to run inference.
pub const MODEL_CAP_INFER: u64 = 0x01;
/// Permission to produce embeddings.
pub const MODEL_CAP_EMBED: u64 = 0x02;
/// Permission to produce plans.
pub const MODEL_CAP_PLAN: u64 = 0x04;
/// Permission to query memory or retrieval context.
pub const MODEL_CAP_RETRIEVE: u64 = 0x08;
/// Permission to use accelerator-backed execution.
pub const MODEL_CAP_ACCELERATED: u64 = 0x10;
/// Permission to stream output in a future API.
pub const MODEL_CAP_STREAM: u64 = 0x20;

/// All model capability bits known by this crate version.
pub const KNOWN_MODEL_CAPABILITIES: u64 = MODEL_CAP_INFER
    | MODEL_CAP_EMBED
    | MODEL_CAP_PLAN
    | MODEL_CAP_RETRIEVE
    | MODEL_CAP_ACCELERATED
    | MODEL_CAP_STREAM;

/// Model class used by routing and policy hooks.
#[derive(Clone, Copy, Debug, PartialEq, Eq, Structural)]
pub enum ModelKind {
    /// Deterministic host-mode mock model.
    Mock,
    /// Language model.
    Language,
    /// Embedding model.
    Embedding,
    /// Planning model.
    Planner,
    /// Reranker or scorer model.
    Reranker,
    /// Memory retrieval model.
    Memory,
}

impl ModelKind {
    /// Stable numeric code of each variant.
    #[verifier::allow_in_spec]
    pub fn code(self) -> u8
        returns
            match self {
                ModelKind::Mock => 1u8,
                ModelKind::Language => 2u8,
                ModelKind::Embedding => 3u8,
                ModelKind::Planner => 4u8,
                ModelKind::Reranker => 5u8,
                ModelKind::Memory => 6u8,
            },
    {
        match self {
            ModelKind::Mock => 1,
            ModelKind::Language => 2,
            ModelKind::Embedding => 3,
            ModelKind::Planner => 4,
            ModelKind::Reranker => 5,
            ModelKind::Memory => 6,
        }
    }

    /// The stable label of each kind, as characters.
    pub open spec fn label_text(self) -> Seq<char> {
        match self {
            ModelKind::Mock => "mock"@,
            ModelKind::Language => "language"@,
            ModelKind::Embedding => "embedding"@,
            ModelKind::Planner => "planner"@,
            ModelKind::Reranker => "reranker"@,
            ModelKind::Memory => "memory"@,
        }
    }

    /// Stable model-kind label.
    pub fn label(self) -> (label: &'static str)
        ensures
            label@ == self.label_text(),
    {
        match self {
            ModelKind::Mock => "mock",
            ModelKind::Language => "language",
            ModelKind::Embedding => "embedding",
            ModelKind::Planner => "planner",
            ModelKind::Reranker => "reranker",
            ModelKind::Memory => "memory",
        }
    }
}

/// Model lifecycle state.
#[derive(Clone, Copy, Debug, PartialEq, Eq, Structural)]
pub enum ModelState {
    /// Model metadata is known but not loaded.
    Registered,
    /// Model is loaded and can be used.
    Loaded,
    /// Model was unloaded.
    Unloaded,
    /// Model is unavailable due to device or policy constraints.
    Unavailable,
}

impl ModelState {
    /// Stable numeric code of each variant.
    #[verifier::allow_in_spec]
    pub fn code(self) -> u8
        returns
            match self {
                ModelState::Registered => 1u8,
                ModelState::Loaded => 2u8,
                ModelState::Unloaded => 3u8,
                ModelState::Unavailable => 4u8,
            },
    {
        match self {
            ModelState::Registered => 1,
            ModelState::Loaded => 2,
            ModelState::Unloaded => 3,
            ModelState::Unavailable => 4,
        }
    }

    /// The stable label of each state, as characters.
    pub open spec fn label_text(self) -> Seq<char> {
        match self {
            ModelState::Registered => "registered"@,
            ModelState::Loaded => "loaded"@,
            ModelState::Unloaded => "unloaded"@,
            ModelState::Unavailable => "unavailable"@,
        }
    }

    /// Stable state label.
    pub fn label(self) -> (label: &'static str)
        ensures
            label@ == self.label_text(),
    {
        match self {
            ModelState::Registered => "registered",
            ModelState::Loaded => "loaded",
            ModelState::Unloaded => "unloaded",
            ModelState::Unavailable => "unavailable",
        }
    }
}

/// Model capability bitset.
#[derive(Clone, Copy, Debug, PartialEq, Eq, Structural)]
pub struct ModelCapabilities(pub u64);

impl ModelCapabilities {
    /// No model capabilities.
    pub fn empty() -> (caps: Self)
        ensures
            caps.0 == 0,
    {
        ModelCapabilities(0)
    }

    /// All known model capabilities.
    pub fn all() -> (caps: Self)
        ensures
            caps.0 == KNOWN_MODEL_CAPABILITIES,
    {
        ModelCapabilities(KNOWN_MODEL_CAPABILITIES)
    }

    /// Standard inference capability.
    pub fn infer() -> (caps: Self)
        ensures
            caps.0 == MODEL_CAP_INFER,
    {
        ModelCapabilities(MODEL_CAP_INFER)
    }

    /// Standard retrieval-augmented inference capability.
    pub fn rag() -> (caps: Self)
        ensures
            caps.0 == MODEL_CAP_INFER | MODEL_CAP_RETRIEVE,
    {
        ModelCapabilities(MODEL_CAP_INFER | MODEL_CAP_RETRIEVE)
    }

    /// Standard planning capability.
    pub fn planner() -> (caps: Self)
        ensures
            caps.0 == MODEL_CAP_INFER | MODEL_CAP_PLAN,
    {
        ModelCapabilities(MODEL_CAP_INFER | MODEL_CAP_PLAN)
    }

    /// Creates capabilities from raw bits; reserved bits are refused.
    #[verifier::allow_in_spec]
    pub fn from_bits(bits: u64) -> CognitionResult<Self>
        returns
            if bits & !KNOWN_MODEL_CAPABILITIES != 0 {
                Err(CognitionError::ReservedBits)
            } else {
                Ok(ModelCapabilities(bits))
            },
    {
        if bits & !KNOWN_MODEL_CAPABILITIES != 0 {
            Err(CognitionError::ReservedBits)
        } else {
            Ok(ModelCapabilities(bits))
        }
    }

    /// Returns raw capability bits.
    #[verifier::allow_in_spec]
    pub fn bits(self) -> u64
        returns
            self.0,
    {
        self.0
    }

    /// Returns `true` when all required capabilities are present.
    #[verifier::allow_in_spec]
    pub fn contains(self, required: Self) -> bool
        returns
            self.0 & required.0 == required.0,
    {
        self.0 & required.0 == required.0
    }

    /// Returns the union of two capability sets.
    #[verifier::allow_in_spec]
    pub fn union(self, other: Self) -> Self
        returns
            ModelCapabilities(self.0 | other.0),
    {
        ModelCapabilities(self.0 | other.0)
    }
}

/// Stable model reference and lifecycle metadata.
#[derive(Clone, Copy, Debug, PartialEq, Eq)]
pub struct ModelRef<'a> {
    /// Stable model identifier.
    pub id: &'a str,
    /// Display name.
    pub name: &'a str,
    /// Model revision or package version.
    pub revision: &'a str,
    /// Model class.
    pub kind: ModelKind,
    /// Capability bitset.
    pub capabilities: ModelCapabilities,
    /// Maximum context tokens accepted by the model.
    pub max_context_tokens: u32,
    /// Maximum output tokens produced by the model.
    pub max_output_tokens: u32,
    /// Sensitivity class of model metadata and outputs.
    pub data_class: DataClass,
    /// Current lifecycle state.
    pub state: ModelState,
}

impl<'a> ModelRef<'a> {
    /// Creates registered model metadata.
    pub fn new(
        id: &'a str,
        name: &'a str,
        revision: &'a str,
        kind: ModelKind,
        capabilities: ModelCapabilities,
    ) -> (model: Self)
        ensures
            model == (ModelRef {
                id,
                name,
                revision,
                kind,
                capabilities,
                max_context_tokens: 0,
                max_output_tokens: 0,
                data_class: DataClass::Operational,
                state: ModelState::Registered,
            }),
    {
        ModelRef {
            id,
            name,
            revision,
            kind,
            capabilities,
            max_context_tokens: 0,
            max_output_tokens: 0,
            data_class: DataClass::Operational,
            state: ModelState::Registered,
        }
    }

    /// Sets context and output token limits.
    pub fn with_limits(self, max_context_tokens: u32, max_output_tokens: u32) -> (model: Self)
        ensures
            model == (ModelRef { max_context_tokens, max_output_tokens, ..self }),
    {
        let mut model = self;
        model.max_context_tokens = max_context_tokens;
        model.max_output_tokens = max_output_tokens;
        model
    }

    /// Sets model data classification.
    pub fn with_data_class(self, data_class: DataClass) -> (model: Self)
        ensures
            model == (ModelRef { data_class, ..self }),
    {
        let mut model = self;
        model.data_class = data_class;
        model
    }

    /// Sets lifecycle state.
    pub fn with_state(self, state: ModelState) -> (model: Self)
        ensures
            model == (ModelRef { state, ..self }),
    {
        let mut model = self;
        model.state = state;
        model
    }

    /// Returns `true` when the model is loaded and has the inference capability.
    #[verifier::allow_in_spec]
    pub fn can_infer(self) -> bool
        returns
            self.state is Loaded && self.capabilities.contains(ModelCapabilities(MODEL_CAP_INFER)),
    {
        let loaded = match self.state {
            ModelState::Loaded => true,
            _ => false,
        };
        loaded && self.capabilities.contains(ModelCapabilities::infer())
    }

    /// Validates model metadata and limits.
    #[verifier::allow_in_spec]
    pub fn validate(self) -> CognitionResult<()>
        returns
            if self.id@.len() == 0 || self.name@.len() == 0 || self.revision@.len() == 0 {
                Err(CognitionError::MissingField)
            } else if self.id.len() > MAX_MODEL_ID_LEN || self.name.len() > MAX_MODEL_NAME_LEN
                || self.revision.len() > MAX_MODEL_REVISION_LEN {
                Err(CognitionError::FieldTooLong)
            } else if self.max_context_tokens == 0 || self.max_output_tokens == 0 {
                Err(CognitionError::InvalidModel)
            } else if self.capabilities.0 & !KNOWN_MODEL_CAPABILITIES != 0 {
                Err(CognitionError::ReservedBits)
            } else {
                Ok(())
            },
    {
        if self.id.is_empty() || self.name.is_empty() || self.revision.is_empty() {
            return Err(CognitionError::MissingField);
        }
        if self.id.len() > MAX_MODEL_ID_LEN || self.name.len() > MAX_MODEL_NAME_LEN
            || self.revision.len() > MAX_MODEL_REVISION_LEN {
            return Err(CognitionError::FieldTooLong);
        }
        if self.max_context_tokens == 0 || self.max_output_tokens == 0 {
            return Err(CognitionError::InvalidModel);
        }
        match ModelCapabilities::from_bits(self.capabilities.bits()) {
            Ok(_) => Ok(()),
            Err(error) => Err(error),
        }
    }
}

/// Model selection request used by planners and engines.
#[derive(Clone, Copy, Debug, PartialEq, Eq)]
pub struct ModelSelection {
    /// Required model kind.
    pub kind: Option<ModelKind>,
    /// Required model capabilities.
    pub required: ModelCapabilities,
    /// Minimum context tokens needed.
    pub min_context_tokens: u32,
    /// Minimum output tokens needed.
    pub min_output_tokens: u32,
}

impl ModelSelection {
    /// Creates an inference model selection.
    pub fn inference() -> (selection: Self)
        ensures
            selection == (ModelSelection {
                kind: None,
                required: ModelCapabilities(MODEL_CAP_INFER),
                min_context_tokens: 0,
                min_output_tokens: 1,
            }),
    {
        ModelSelection {
            kind: None,
            required: ModelCapabilities::infer(),
            min_context_tokens: 0,
            min_output_tokens: 1,
        }
    }

    /// Creates a planner model selection.
    pub fn planner() -> (selection: Self)
        ensures
            selection == (ModelSelection {
                kind: Some(ModelKind::Planner),
                required: ModelCapabilities(MODEL_CAP_INFER | MODEL_CAP_PLAN),
                min_context_tokens: 0,
                min_output_tokens: 1,
            }),
    {
        ModelSelection {
            kind: Some(ModelKind::Planner),
            required: ModelCapabilities::planner(),
            min_context_tokens: 0,
            min_output_tokens: 1,
        }
    }

    /// Sets minimum token limits.
    pub fn with_limits(self, min_context_tokens: u32, min_output_tokens: u32) -> (selection: Self)
        ensures
            selection == (ModelSelection { min_context_tokens, min_output_tokens, ..self }),
    {
        let mut selection = self;
        selection.min_context_tokens = min_context_tokens;
        selection.min_output_tokens = min_output_tokens;
        selection
    }

    /// Returns `true` when a model satisfies this selection: the kind matches
    /// when one is required, the model is loaded, has every required
    /// capability, and meets both token minimums.
    #[verifier::allow_in_spec]
    pub fn matches(self, model: ModelRef<'_>) -> bool
        returns
            (self.kind matches Some(kind) ==> kind == model.kind)
                && model.state is Loaded
                && model.capabilities.contains(self.required)
                && model.max_context_tokens >= self.min_context_tokens
                && model.max_output_tokens >= self.min_output_tokens,
    {
        if let Some(kind) = self.kind {
            if !same_kind(kind, model.kind) {
                return false;
            }
        }
        let loaded = match model.state {
            ModelState::Loaded => true,
            _ => false,
        };
        loaded && model.capabilities.contains(self.required)
            && model.max_context_tokens >= self.min_context_tokens
            && model.max_output_tokens >= self.min_output_tokens
    }
}

fn same_kind(left: ModelKind, right: ModelKind) -> (same: bool)
    ensures
        same == (left == right),
{
    match (left, right) {
        (ModelKind::Mock, ModelKind::Mock)
        | (ModelKind::Language, ModelKind::Language)
        | (ModelKind::Embedding, ModelKind::Embedding)
        | (ModelKind::Planner, ModelKind::Planner)
        | (ModelKind::Reranker, ModelKind::Reranker)
        | (ModelKind::Memory, ModelKind::Memory) => true,
        _ => false,
    }
}

/// `true` when some model in `models` has identifier `id`.
pub open spec fn has_model_id(models: Seq<ModelRef<'_>>, id: Seq<char>) -> bool {
    exists|i: int| 0 <= i < models.len() && (#[trigger] models[i]).id@ == id
}

/// `i` is the first position in `models` whose model has identifier `id`.
pub open spec fn first_with_id(models: Seq<ModelRef<'_>>, id: Seq<char>, i: int) -> bool {
    &&& 0 <= i < models.len()
    &&& models[i].id@ == id
    &&& forall|j: int| 0 <= j < i ==> (#[trigger] models[j]).id@ != id
}

/// `i` is the first position in `models` whose model satisfies `selection`.
pub open spec fn first_selected(models: Seq<ModelRef<'_>>, selection: ModelSelection, i: int) -> bool {
    &&& 0 <= i < models.len()
    &&& selection.matches(models[i])
    &&& forall|j: int| 0 <= j < i ==> !selection.matches(#[trigger] models[j])
}

/// No two models in `models` share an identifier.
pub open spec fn distinct_model_ids(models: Seq<ModelRef<'_>>) -> bool {
    forall|i: int, j: int|
        0 <= i < models.len() && 0 <= j < models.len() && i != j
            ==> (#[trigger] models[i]).id@ != (#[trigger] models[j]).id@
}

/// What registering `model` into a registry holding `models` with capacity
/// `capacity` answers.
pub open spec fn register_outcome(models: Seq<ModelRef<'_>>, capacity: nat, model: ModelRef<'_>) -> CognitionResult<()> {
    if model.validate() is Err {
        model.validate()
    } else if models.len() == capacity {
        Err(CognitionError::CapacityExceeded)
    } else if has_model_id(models, model.id@) {
        Err(CognitionError::DuplicateModel)
    } else {
        Ok(())
    }
}

/// A model that registration accepts is afterwards the one model found
/// under its identifier.
pub proof fn registered_model_is_found(models: Seq<ModelRef<'_>>, capacity: nat, model: ModelRef<'_>)
    requires
        register_outcome(models, capacity, model) is Ok,
    ensures
        has_model_id(models.push(model), model.id@),
        first_with_id(models.push(model), model.id@, models.len() as int),
{
    let after = models.push(model);
    assert(after[models.len() as int] == model);
    assert forall|j: int| 0 <= j < models.len() implies (#[trigger] after[j]).id@ != model.id@ by {
        assert(after[j] == models[j]);
    }
}

/// Registration accepts every valid model whose identifier is new while the
/// registry has room, whatever its lifecycle state, data class or kind, and
/// refuses a model only for being invalid, for a full registry, or for a
/// taken identifier.
pub proof fn registration_succeeds_exactly_when_room_and_fresh(
    models: Seq<ModelRef<'_>>,
    capacity: nat,
    model: ModelRef<'_>,
    state: ModelState,
)
    requires
        models.len() <= capacity,
    ensures
        register_outcome(models, capacity, model) is Ok
            <==> (model.validate() is Ok && models.len() < capacity && !has_model_id(models, model.id@)),
        register_outcome(models, capacity, model) is Err ==> (model.validate() is Err || models.len() == capacity
            || exists|i: int| 0 <= i < models.len() && (#[trigger] models[i]).id@ == model.id@),
        register_outcome(models, capacity, ModelRef { state, ..model }) == register_outcome(models, capacity, model),
{
}

/// Model validation looks only at the metadata, never at the lifecycle
/// state or data class: a freshly created model and the same model loaded
/// validate alike.
pub proof fn validation_ignores_lifecycle(model: ModelRef<'_>, state: ModelState, data_class: DataClass)
    ensures
        (ModelRef { state, data_class, ..model }).validate() == model.validate(),
        (model.id@.len() > 0 && model.name@.len() > 0 && model.revision@.len() > 0
            && model.id.len() <= MAX_MODEL_ID_LEN && model.name.len() <= MAX_MODEL_NAME_LEN
            && model.revision.len() <= MAX_MODEL_REVISION_LEN
            && model.max_context_tokens > 0 && model.max_output_tokens > 0
            && model.capabilities.0 & !KNOWN_MODEL_CAPABILITIES == 0) ==> model.validate() is Ok,
{
}

/// Registering the same model a second time is refused, whatever the
/// capacity.
pub proof fn second_registration_refused(models: Seq<ModelRef<'_>>, capacity: nat, model: ModelRef<'_>)
    requires
        register_outcome(models, capacity, model) is Ok,
    ensures
        register_outcome(models.push(model), capacity, model) is Err,
{
    registered_model_is_found(models, capacity, model);
}

/// Registration that succeeds keeps identifiers distinct and every stored
/// model valid.
pub proof fn registration_keeps_registry_sound(models: Seq<ModelRef<'_>>, capacity: nat, model: ModelRef<'_>)
    requires
        distinct_model_ids(models),
        forall|i: int| 0 <= i < models.len() ==> (#[trigger] models[i]).validate() is Ok,
        models.len() <= capacity,
        register_outcome(models, capacity, model) is Ok,
    ensures
        distinct_model_ids(models.push(model)),
        forall|i: int| 0 <= i < models.len() + 1 ==> (#[trigger] models.push(model)[i]).validate() is Ok,
        models.push(model).len() <= capacity,
{
    let after = models.push(model);
    assert forall|i: int, j: int|
        0 <= i < after.len() && 0 <= j < after.len() && i != j
        implies (#[trigger] after[i]).id@ != (#[trigger] after[j]).id@ by {
        if i < models.len() && j < models.len() {
            assert(after[i] == models[i] && after[j] == models[j]);
        } else if i < models.len() {
            assert(after[i] == models[i]);
        } else {
            assert(after[j] == models[j]);
        }
    }
    assert forall|i: int| 0 <= i < models.len() + 1 implies (#[trigger] after[i]).validate() is Ok by {
        if i < models.len() {
            assert(after[i] == models[i]);
        }
    }
}

/// Every union holds the capabilities of both operands.
pub proof fn union_contains_both(a: ModelCapabilities, b: ModelCapabilities)
    ensures
        a.union(b).contains(a),
        a.union(b).contains(b),
{
    let x = a.0;
    let y = b.0;
    assert((x | y) & x == x) by (bit_vector);
    assert((x | y) & y == y) by (bit_vector);
}

/// Capability containment is reflexive and transitive.
pub proof fn contains_is_preorder(a: ModelCapabilities, b: ModelCapabilities, c: ModelCapabilities)
    ensures
        a.contains(a),
        a.contains(b) && b.contains(c) ==> a.contains(c),
{
    let x = a.0;
    let y = b.0;
    let z = c.0;
    assert(x & x == x) by (bit_vector);
    assert((x & y == y && y & z == z) ==> x & z == z) by (bit_vector);
}

/// Raw bits read back from capabilities built from known bits give the same
/// capabilities again, and the full set holds every capability set that
/// `from_bits` accepts.
pub proof fn from_bits_round_trip(bits: u64)
    ensures
        ModelCapabilities::from_bits(bits) matches Ok(caps) ==> caps.bits() == bits
            && ModelCapabilities::from_bits(caps.bits()) == Ok::<ModelCapabilities, CognitionError>(caps)
            && ModelCapabilities(KNOWN_MODEL_CAPABILITIES).contains(caps),
{
    assert(KNOWN_MODEL_CAPABILITIES == 0x3f) by (bit_vector);
    assert(bits & !0x3fu64 == 0 ==> 0x3fu64 & bits == bits) by (bit_vector);
}

/// Fixed-capacity model registry.
#[derive(Debug, PartialEq, Eq)]
pub struct ModelRegistry<'a, const N: usize> {
    models: Vec<ModelRef<'a>>,
}

impl<'a, const N: usize> Clone for ModelRegistry<'a, N> {
    /// A copy holding the same models in the same order.
    fn clone(&self) -> (copy: Self)
        ensures
            copy@ == self@,
    {
        let models = self.models.clone();
        assert(models@ =~= self.models@);
        ModelRegistry { models }
    }
}

impl<'a, const N: usize> View for ModelRegistry<'a, N> {
    type V = Seq<ModelRef<'a>>;

    closed spec fn view(&self) -> Seq<ModelRef<'a>> {
        self.models@
    }
}

impl<'a, const N: usize> ModelRegistry<'a, N> {
    /// The registry holds at most `N` models, each valid, with distinct ids.
    pub open spec fn wf(&self) -> bool {
        &&& self@.len() <= N
        &&& forall|i: int| 0 <= i < self@.len() ==> (#[trigger] self@[i]).validate() is Ok
        &&& distinct_model_ids(self@)
    }

    /// Creates an empty model registry.
    pub fn new() -> (registry: Self)
        ensures
            registry.wf(),
            registry@ == Seq::<ModelRef<'a>>::empty(),
    {
        ModelRegistry { models: Vec::new() }
    }

    /// Returns the number of registered models.
    pub fn len(&self) -> (n: usize)
        ensures
            n == self@.len(),
    {
        self.models.len()
    }

    /// Returns `true` when no models are registered.
    pub fn is_empty(&self) -> (empty: bool)
        ensures
            empty == (self@.len() == 0),
    {
        self.models.len() == 0
    }

    /// Registers a model after validating metadata.
    pub fn register(&mut self, model: ModelRef<'a>) -> (r: CognitionResult<()>)
        requires
            old(self).wf(),
        ensures
            final(self).wf(),
            r == register_outcome(old(self)@, N as nat, model),
            r is Ok ==> final(self)@ == old(self)@.push(model),
            r is Err ==> final(self)@ == old(self)@,
    {
        model.validate()?;
        if self.models.len() == N {
            return Err(CognitionError::CapacityExceeded);
        }
        if self.find(model.id).is_some() {
            return Err(CognitionError::DuplicateModel);
        }
        self.models.push(model);
        proof {
            assert(self@ == old(self)@.push(model));
            assert(forall|i: int| 0 <= i < old(self)@.len() ==> (#[trigger] old(self)@[i]).id@ != model.id@);
        }
        Ok(())
    }

    /// Finds a model by identifier.
    pub fn find(&self, id: &str) -> (found: Option<&ModelRef<'a>>)
        ensures
            found is None <==> !has_model_id(self@, id@),
            found matches Some(m) ==> exists|i: int| first_with_id(self@, id@, i) && *m == self@[i],
    {
        match self.find_index(id) {
            Some(index) => Some(&self.models[index]),
            None => None,
        }
    }

    /// Selects the first loaded model matching the criteria.
    pub fn select(&self, selection: ModelSelection) -> (selected: Option<&ModelRef<'a>>)
        ensures
            selected is None <==> forall|i: int| 0 <= i < self@.len() ==> !selection.matches(#[trigger] self@[i]),
            selected matches Some(m) ==> exists|i: int| first_selected(self@, selection, i) && *m == self@[i],
    {
        let mut index: usize = 0;
        while index < self.models.len()
            invariant
                index <= self@.len(),
                forall|j: int| 0 <= j < index ==> !selection.matches(#[trigger] self@[j]),
            decreases self@.len() - index,
        {
            if selection.matches(self.models[index]) {
                return Some(&self.models[index]);
            }
            index += 1;
        }
        None
    }

    /// Updates the lifecycle state for a model.
    pub fn set_state(&mut self, id: &str, state: ModelState) -> (r: CognitionResult<()>)
        requires
            old(self).wf(),
        ensures
            final(self).wf(),
            r is Err <==> !has_model_id(old(self)@, id@),
            r is Err ==> r == Err::<(), CognitionError>(CognitionError::ModelNotFound) && final(self)@ == old(self)@,
            r is Ok ==> exists|i: int| first_with_id(old(self)@, id@, i)
                && final(self)@ == old(self)@.update(i, ModelRef { state, ..old(self)@[i] }),
    {
        match self.find_index(id) {
            Some(index) => {
                let model = self.models[index].with_state(state);
                self.models.set(index, model);
                proof {
                    assert(first_with_id(old(self)@, id@, index as int));
                    assert forall|i: int, j: int|
                        0 <= i < self@.len() && 0 <= j < self@.len() && i != j
                        implies (#[trigger] self@[i]).id@ != (#[trigger] self@[j]).id@ by {
                        assert(old(self)@[i].id@ == self@[i].id@);
                        assert(old(self)@[j].id@ == self@[j].id@);
                    }
                    assert forall|i: int| 0 <= i < self@.len() implies (#[trigger] self@[i]).validate() is Ok by {
                        assert(old(self)@[i].validate() is Ok);
                    }
                }
                Ok(())
            },
            None => Err(CognitionError::ModelNotFound),
        }
    }

    /// Returns a model by zero-based index.
    pub fn model(&self, index: usize) -> (m: Option<&ModelRef<'a>>)
        ensures
            index < self@.len() ==> m == Some(&self@[index as int]),
            index >= self@.len() ==> m is None,
    {
        if index < self.models.len() {
            Some(&self.models[index])
        } else {
            None
        }
    }

    /// The registered models, in registration order.
    pub fn iter(&self) -> (models: &[ModelRef<'a>])
        ensures
            models@ == self@,
    {
        self.models.as_slice()
    }

    fn find_index(&self, id: &str) -> (found: Option<usize>)
        ensures
            found is None <==> !has_model_id(self@, id@),
            found matches Some(i) ==> first_with_id(self@, id@, i as int),
    {
        let mut index: usize = 0;
        while index < self.models.len()
            invariant
                index <= self@.len(),
                forall|j: int| 0 <= j < index ==> (#[trigger] self@[j]).id@ != id@,
            decreases self@.len() - index,
        {
            if same_text(self.models[index].id, id) {
                return Some(index);
            }
            index += 1;
        }
        None
    }
}

impl<'a, const N: usize> Default for ModelRegistry<'a, N> {
    fn default() -> (registry: Self)
        ensures
            registry.wf(),
            registry@ == Seq::<ModelRef<'a>>::empty(),
    {
        Self::new()
    }
}

/// Model component descriptor.
#[derive(Clone, Debug, PartialEq, Eq)]
pub struct ModelDescriptor<'a> {
    /// Component name.
    pub name: &'a str,
    /// Component version marker.
    pub version: u32,
}

impl<'a> ModelDescriptor<'a> {
    /// Creates a model component descriptor.
    pub fn new(name: &'a str, version: u32) -> (descriptor: Self)
        ensures
            descriptor == (ModelDescriptor { name, version }),
    {
        ModelDescriptor { name, version }
    }
}

} // verus!
