//! Bounded cognition contracts: model registration, inference requests and
//! budgets, retrieval with provenance, deterministic planning, and evidence
//! metadata, each with its validation rules proved against a specification.

use vstd::prelude::*;

pub mod engine;
pub mod model;
pub mod planner;
pub mod retrieval;
pub mod text;

pub use engine::{
    BudgetUsage, CognitionEngine, CognitiveContext, EngineDescriptor, EvidenceBundle,
    InferenceBudget, InferenceRequest, InferenceResult, InferenceStatus, MockCognitionEngine,
    PolicyDecision, TraceContext, BUDGET_FLAG_AUDIT_REQUIRED, BUDGET_FLAG_DETERMINISTIC,
    BUDGET_KNOWN_FLAGS, MAX_CONTEXT_LABEL_LEN, MAX_OUTPUT_LEN, MAX_PROMPT_LEN,
    MAX_REQUEST_RETRIEVAL_LIMIT, REQUEST_FLAG_ALLOW_RETRIEVAL, REQUEST_FLAG_CANCELLED,
    REQUEST_KNOWN_FLAGS,
};
pub use model::{
    ModelCapabilities, ModelDescriptor, ModelKind, ModelRef, ModelRegistry, ModelSelection,
    ModelState, KNOWN_MODEL_CAPABILITIES, MAX_MODEL_ID_LEN, MAX_MODEL_NAME_LEN,
    MAX_MODEL_REVISION_LEN, MODEL_CAP_ACCELERATED, MODEL_CAP_EMBED, MODEL_CAP_INFER,
    MODEL_CAP_PLAN, MODEL_CAP_RETRIEVE, MODEL_CAP_STREAM,
};
pub use planner::{
    DeterministicPlanner, Plan, PlanGoal, PlanPriority, PlanStatus, PlanStep, PlanStepKind,
    PlannerConfig, PlannerDescriptor, DEFAULT_MAX_PLAN_STEPS, MAX_GOAL_DESCRIPTION_LEN,
    MAX_PLAN_RESOURCE_LEN, MAX_STEP_DESCRIPTION_LEN,
};
pub use retrieval::{
    KnowledgeRecord, KnowledgeRecordKind, KnowledgeStore, Provenance, RetrievalDescriptor,
    RetrievalHit, RetrievalQuery, RetrievalResult, MAX_NAMESPACE_LEN, MAX_PROVENANCE_SOURCE_LEN,
    MAX_RECORD_KEY_LEN, MAX_RECORD_TEXT_LEN, MAX_RETRIEVAL_HITS,
};

verus! {

/// Repository name.
pub const REPOSITORY: &'static str = "alani-cognition";

/// Crate version.
pub const VERSION: &'static str = "0.1.0";

/// Feature bit for model registry APIs.
pub const COGNITION_FEATURE_MODEL_REGISTRY: u64 = 0x01;
/// Feature bit for bounded inference APIs.
pub const COGNITION_FEATURE_INFERENCE: u64 = 0x02;
/// Feature bit for retrieval provenance APIs.
pub const COGNITION_FEATURE_RETRIEVAL: u64 = 0x04;
/// Feature bit for deterministic planner APIs.
pub const COGNITION_FEATURE_PLANNER: u64 = 0x08;
/// Feature bit for evidence metadata.
pub const COGNITION_FEATURE_EVIDENCE: u64 = 0x10;
/// Feature bit for host-mode mock execution.
pub const COGNITION_FEATURE_MOCK_ENGINE: u64 = 0x20;

/// All feature bits known by this crate version.
pub const COGNITION_KNOWN_FEATURES: u64 = COGNITION_FEATURE_MODEL_REGISTRY
    | COGNITION_FEATURE_INFERENCE
    | COGNITION_FEATURE_RETRIEVAL
    | COGNITION_FEATURE_PLANNER
    | COGNITION_FEATURE_EVIDENCE
    | COGNITION_FEATURE_MOCK_ENGINE;

/// Result alias used by cognition validation and host-mode APIs.
pub type CognitionResult<T> = Result<T, CognitionError>;

/// Error taxonomy for cognition validation, retrieval, planning, and inference.
#[derive(Clone, Copy, Debug, PartialEq, Eq, Structural)]
pub enum CognitionError {
    /// Required field is missing.
    MissingField,
    /// Bounded string or payload metadata exceeded its documented limit.
    FieldTooLong,
    /// Reserved flag or capability bits were present.
    ReservedBits,
    /// Model metadata failed validation.
    InvalidModel,
    /// Model is not registered.
    ModelNotFound,
    /// Model is unavailable or not loaded for inference.
    ModelUnavailable,
    /// Model identifier already exists.
    DuplicateModel,
    /// Fixed-capacity collection is full.
    CapacityExceeded,
    /// Retrieval query, record, score, or hit metadata is invalid.
    InvalidRetrieval,
    /// Knowledge record identifier already exists.
    DuplicateRecord,
    /// Budget metadata is invalid.
    InvalidBudget,
    /// Request metadata is invalid.
    InvalidRequest,
    /// Trace context is malformed.
    InvalidTrace,
    /// Request was cancelled.
    Cancelled,
    /// Deadline expired before or during execution.
    DeadlineExceeded,
    /// Budget ceiling was exceeded.
    BudgetExceeded,
    /// Evidence metadata is invalid or inconsistent.
    InvalidEvidence,
    /// Planning metadata is invalid.
    InvalidPlan,
    /// Plan step identifier already exists.
    DuplicatePlanStep,
    /// Policy denied execution.
    AccessDenied,
    /// Internal invariant failed.
    Internal,
}

impl CognitionError {
    /// The stable reason label of each error, as characters.
    pub open spec fn reason_text(self) -> Seq<char> {
        match self {
            CognitionError::MissingField => "missing_field"@,
            CognitionError::FieldTooLong => "field_too_long"@,
            CognitionError::ReservedBits => "reserved_bits"@,
            CognitionError::InvalidModel => "invalid_model"@,
            CognitionError::ModelNotFound => "model_not_found"@,
            CognitionError::ModelUnavailable => "model_unavailable"@,
            CognitionError::DuplicateModel => "duplicate_model"@,
            CognitionError::CapacityExceeded => "capacity_exceeded"@,
            CognitionError::InvalidRetrieval => "invalid_retrieval"@,
            CognitionError::DuplicateRecord => "duplicate_record"@,
            CognitionError::InvalidBudget => "invalid_budget"@,
            CognitionError::InvalidRequest => "invalid_request"@,
            CognitionError::InvalidTrace => "invalid_trace"@,
            CognitionError::Cancelled => "cancelled"@,
            CognitionError::DeadlineExceeded => "deadline_exceeded"@,
            CognitionError::BudgetExceeded => "budget_exceeded"@,
            CognitionError::InvalidEvidence => "invalid_evidence"@,
            CognitionError::InvalidPlan => "invalid_plan"@,
            CognitionError::DuplicatePlanStep => "duplicate_plan_step"@,
            CognitionError::AccessDenied => "access_denied"@,
            CognitionError::Internal => "internal"@,
        }
    }

    /// Stable reason label for tests and diagnostics.
    pub fn reason(self) -> (label: &'static str)
        ensures
            label@ == self.reason_text(),
    {
        match self {
            CognitionError::MissingField => "missing_field",
            CognitionError::FieldTooLong => "field_too_long",
            CognitionError::ReservedBits => "reserved_bits",
            CognitionError::InvalidModel => "invalid_model",
            CognitionError::ModelNotFound => "model_not_found",
            CognitionError::ModelUnavailable => "model_unavailable",
            CognitionError::DuplicateModel => "duplicate_model",
            CognitionError::CapacityExceeded => "capacity_exceeded",
            CognitionError::InvalidRetrieval => "invalid_retrieval",
            CognitionError::DuplicateRecord => "duplicate_record",
            CognitionError::InvalidBudget => "invalid_budget",
            CognitionError::InvalidRequest => "invalid_request",
            CognitionError::InvalidTrace => "invalid_trace",
            CognitionError::Cancelled => "cancelled",
            CognitionError::DeadlineExceeded => "deadline_exceeded",
            CognitionError::BudgetExceeded => "budget_exceeded",
            CognitionError::InvalidEvidence => "invalid_evidence",
            CognitionError::InvalidPlan => "invalid_plan",
            CognitionError::DuplicatePlanStep => "duplicate_plan_step",
            CognitionError::AccessDenied => "access_denied",
            CognitionError::Internal => "internal",
        }
    }

    /// Returns `true` when this error is security or audit relevant.
    #[verifier::allow_in_spec]
    pub fn is_security_relevant(self) -> bool
        returns
            self is ReservedBits || self is ModelUnavailable || self is Cancelled
                || self is DeadlineExceeded || self is BudgetExceeded || self is AccessDenied,
    {
        match self {
            CognitionError::ReservedBits
            | CognitionError::ModelUnavailable
            | CognitionError::Cancelled
            | CognitionError::DeadlineExceeded
            | CognitionError::BudgetExceeded
            | CognitionError::AccessDenied => true,
            _ => false,
        }
    }
}

/// Data sensitivity classification.
#[derive(Clone, Copy, Debug, PartialEq, Eq, Structural)]
pub enum DataClass {
    /// Public data.
    Public,
    /// Operational data.
    Operational,
    /// Sensitive data requiring redaction.
    Sensitive,
    /// Secret data that must not be exposed.
    Secret,
}

impl DataClass {
    /// Stable numeric code of each variant.
    #[verifier::allow_in_spec]
    pub fn code(self) -> u8
        returns
            match self {
                DataClass::Public => 0u8,
                DataClass::Operational => 1u8,
                DataClass::Sensitive => 2u8,
                DataClass::Secret => 3u8,
            },
    {
        match self {
            DataClass::Public => 0,
            DataClass::Operational => 1,
            DataClass::Sensitive => 2,
            DataClass::Secret => 3,
        }
    }

    /// The stable label of each class, as characters.
    pub open spec fn label_text(self) -> Seq<char> {
        match self {
            DataClass::Public => "public"@,
            DataClass::Operational => "operational"@,
            DataClass::Sensitive => "sensitive"@,
            DataClass::Secret => "secret"@,
        }
    }

    /// Sensitivity order: public < operational < sensitive < secret.
    pub open spec fn sensitivity(self) -> nat {
        match self {
            DataClass::Public => 0,
            DataClass::Operational => 1,
            DataClass::Sensitive => 2,
            DataClass::Secret => 3,
        }
    }

    /// Stable data class label.
    pub fn label(self) -> (label: &'static str)
        ensures
            label@ == self.label_text(),
    {
        match self {
            DataClass::Public => "public",
            DataClass::Operational => "operational",
            DataClass::Sensitive => "sensitive",
            DataClass::Secret => "secret",
        }
    }

    /// Returns `true` when redaction is required before broad export.
    #[verifier::allow_in_spec]
    pub fn requires_redaction(self) -> bool
        returns
            self is Sensitive || self is Secret,
    {
        match self {
            DataClass::Sensitive | DataClass::Secret => true,
            _ => false,
        }
    }
}

/// Exactly the classes more sensitive than operational data require
/// redaction.
pub proof fn redaction_follows_sensitivity(class: DataClass)
    ensures
        class.requires_redaction() <==> class.sensitivity() > DataClass::Operational.sensitivity(),
{
}

/// Redaction state for model inputs, outputs, and evidence.
#[derive(Clone, Copy, Debug, PartialEq, Eq, Structural)]
pub enum RedactionState {
    /// Public data only.
    Public,
    /// Operational metadata only.
    Operational,
    /// Sensitive fields were redacted.
    SensitiveRedacted,
    /// Secret fields were redacted.
    SecretRedacted,
    /// Sensitive fields remain present and must not be broadly exported.
    UnredactedSensitive,
}

impl RedactionState {
    /// Stable numeric code of each variant.
    #[verifier::allow_in_spec]
    pub fn code(self) -> u8
        returns
            match self {
                RedactionState::Public => 0u8,
                RedactionState::Operational => 1u8,
                RedactionState::SensitiveRedacted => 2u8,
                RedactionState::SecretRedacted => 3u8,
                RedactionState::UnredactedSensitive => 4u8,
            },
    {
        match self {
            RedactionState::Public => 0,
            RedactionState::Operational => 1,
            RedactionState::SensitiveRedacted => 2,
            RedactionState::SecretRedacted => 3,
            RedactionState::UnredactedSensitive => 4,
        }
    }

    /// The stable label of each state, as characters.
    pub open spec fn label_text(self) -> Seq<char> {
        match self {
            RedactionState::Public => "public"@,
            RedactionState::Operational => "operational"@,
            RedactionState::SensitiveRedacted => "sensitive_redacted"@,
            RedactionState::SecretRedacted => "secret_redacted"@,
            RedactionState::UnredactedSensitive => "unredacted_sensitive"@,
        }
    }

    /// Stable redaction label.
    pub fn label(self) -> (label: &'static str)
        ensures
            label@ == self.label_text(),
    {
        match self {
            RedactionState::Public => "public",
            RedactionState::Operational => "operational",
            RedactionState::SensitiveRedacted => "sensitive_redacted",
            RedactionState::SecretRedacted => "secret_redacted",
            RedactionState::UnredactedSensitive => "unredacted_sensitive",
        }
    }
}

/// Implementation maturity marker for repository metadata.
#[derive(Clone, Copy, Debug, PartialEq, Eq, Structural)]
pub enum ComponentStatus {
    /// API is present as a draft skeleton.
    Draft,
    /// API is implemented enough for host-mode experimentation.
    Experimental,
    /// API is compatible and stable.
    Stable,
}

/// Stable component identity record.
#[derive(Clone, Debug, PartialEq, Eq)]
pub struct ComponentInfo {
    /// Repository name.
    pub repository: &'static str,
    /// Crate version.
    pub version: &'static str,
    /// Current implementation status.
    pub status: ComponentStatus,
}

/// Returns stable component identity metadata.
pub fn component_info() -> (info: ComponentInfo)
    ensures
        info.repository@ == REPOSITORY@,
        info.version@ == VERSION@,
        info.status == ComponentStatus::Experimental,
{
    ComponentInfo { repository: REPOSITORY, version: VERSION, status: ComponentStatus::Experimental }
}

/// Returns the repository name.
pub fn repository_name() -> (name: &'static str)
    ensures
        name@ == REPOSITORY@,
{
    REPOSITORY
}

/// The public module names, in order.
pub open spec fn module_name_texts() -> Seq<Seq<char>> {
    seq!["engine"@, "model"@, "planner"@, "retrieval"@]
}

/// Returns public module names.
pub fn module_names() -> (names: Vec<&'static str>)
    ensures
        names@.len() == module_name_texts().len(),
        forall|i: int| 0 <= i < names@.len() ==> #[trigger] names@[i]@ == module_name_texts()[i],
{
    let mut names: Vec<&'static str> = Vec::new();
    names.push("engine");
    names.push("model");
    names.push("planner");
    names.push("retrieval");
    names
}

/// Compact root view of the cognition crate contract.
#[derive(Clone, Copy, Debug, PartialEq, Eq)]
pub struct CognitionCatalog {
    /// Repository name.
    pub repository: &'static str,
    /// Crate version.
    pub version: &'static str,
    /// Feature bitmap.
    pub features: u64,
    /// Maximum prompt length.
    pub max_prompt_len: usize,
    /// Maximum retrieval hits.
    pub max_retrieval_hits: usize,
    /// Maximum model id length.
    pub max_model_id_len: usize,
}

impl CognitionCatalog {
    /// Returns the current catalog.
    pub fn current() -> (catalog: Self)
        ensures
            catalog.repository@ == REPOSITORY@,
            catalog.version@ == VERSION@,
            catalog.features == COGNITION_KNOWN_FEATURES,
            catalog.max_prompt_len == MAX_PROMPT_LEN,
            catalog.max_retrieval_hits == MAX_RETRIEVAL_HITS,
            catalog.max_model_id_len == MAX_MODEL_ID_LEN,
            catalog.validate() is Ok,
    {
        proof {
            reveal_strlit("alani-cognition");
            reveal_strlit("0.1.0");
            assert(COGNITION_KNOWN_FEATURES & !COGNITION_KNOWN_FEATURES == 0) by (bit_vector);
        }
        CognitionCatalog {
            repository: REPOSITORY,
            version: VERSION,
            features: COGNITION_KNOWN_FEATURES,
            max_prompt_len: MAX_PROMPT_LEN,
            max_retrieval_hits: MAX_RETRIEVAL_HITS,
            max_model_id_len: MAX_MODEL_ID_LEN,
        }
    }

    /// Validates catalog metadata.
    #[verifier::allow_in_spec]
    pub fn validate(self) -> CognitionResult<()>
        returns
            if self.repository@.len() == 0 || self.version@.len() == 0 {
                Err(CognitionError::MissingField)
            } else if self.features & !COGNITION_KNOWN_FEATURES != 0 {
                Err(CognitionError::ReservedBits)
            } else if self.max_prompt_len == 0 || self.max_retrieval_hits == 0
                || self.max_model_id_len == 0 {
                Err(CognitionError::InvalidRequest)
            } else {
                Ok(())
            },
    {
        if self.repository.is_empty() || self.version.is_empty() {
            return Err(CognitionError::MissingField);
        }
        if self.features & !COGNITION_KNOWN_FEATURES != 0 {
            return Err(CognitionError::ReservedBits);
        }
        if self.max_prompt_len == 0 || self.max_retrieval_hits == 0 || self.max_model_id_len == 0 {
            return Err(CognitionError::InvalidRequest);
        }
        Ok(())
    }
}

/// Returns the current cognition catalog.
pub fn cognition_catalog() -> (catalog: CognitionCatalog)
    ensures
        catalog.repository@ == REPOSITORY@,
        catalog.version@ == VERSION@,
        catalog.features == COGNITION_KNOWN_FEATURES,
        catalog.max_prompt_len == MAX_PROMPT_LEN,
        catalog.max_retrieval_hits == MAX_RETRIEVAL_HITS,
        catalog.max_model_id_len == MAX_MODEL_ID_LEN,
        catalog.validate() is Ok,
{
    CognitionCatalog::current()
}

} // verus!
