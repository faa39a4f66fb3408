//! Inference requests, budgets, evidence, and host-mode cognition engine.
//!
//! A request passes validation before any execution; the deterministic mock
//! engine then checks cancellation, the deadline and the budget, in that
//! order, and answers with a result whose evidence names the request.

use vstd::prelude::*;

use crate::model::{ModelCapabilities, ModelRef, MODEL_CAP_INFER};
use crate::{CognitionError, CognitionResult, DataClass, RedactionState};

verus! {

/// Maximum prompt length accepted by the host-mode skeleton.
pub const MAX_PROMPT_LEN: usize = 4096;

/// Maximum output length produced by the host-mode skeleton.
pub const MAX_OUTPUT_LEN: usize = 4096;

/// Maximum principal, session, policy, and memory-scope label length.
pub const MAX_CONTEXT_LABEL_LEN: usize = 128;

/// Maximum retrieval hits attached to one request.
pub const MAX_REQUEST_RETRIEVAL_LIMIT: usize = 16;

/// Budget flag requesting deterministic execution when possible.
pub const BUDGET_FLAG_DETERMINISTIC: u32 = 0x1;
/// Budget flag requiring audit/evidence output.
pub const BUDGET_FLAG_AUDIT_REQUIRED: u32 = 0x2;
/// Known budget flags.
pub const BUDGET_KNOWN_FLAGS: u32 = BUDGET_FLAG_DETERMINISTIC | BUDGET_FLAG_AUDIT_REQUIRED;

/// Request flag indicating that the request has been cancelled.
pub const REQUEST_FLAG_CANCELLED: u32 = 0x1;
/// Request flag allowing retrieval context.
pub const REQUEST_FLAG_ALLOW_RETRIEVAL: u32 = 0x2;
/// Known request flags.
pub const REQUEST_KNOWN_FLAGS: u32 = REQUEST_FLAG_CANCELLED | REQUEST_FLAG_ALLOW_RETRIEVAL;

/// Trace context propagated from runtime and syscalls.
#[derive(Clone, Copy, Debug, Default, PartialEq, Eq, Structural)]
pub struct TraceContext {
    /// Stable trace identifier.
    pub trace_id: u64,
    /// Current span identifier.
    pub span_id: u64,
}

impl TraceContext {
    /// Empty trace context.
    pub fn empty() -> (trace: Self)
        ensures
            trace == (TraceContext { trace_id: 0, span_id: 0 }),
    {
        TraceContext { trace_id: 0, span_id: 0 }
    }

    /// Creates a trace context.
    pub fn new(trace_id: u64, span_id: u64) -> (trace: Self)
        ensures
            trace == (TraceContext { trace_id, span_id }),
    {
        TraceContext { trace_id, span_id }
    }

    /// Returns `true` when trace identifiers are present.
    #[verifier::allow_in_spec]
    pub fn is_present(self) -> bool
        returns
            self.trace_id != 0 && self.span_id != 0,
    {
        self.trace_id != 0 && self.span_id != 0
    }

    /// Validates that trace identifiers are either both present or both absent.
    #[verifier::allow_in_spec]
    pub fn validate(self) -> CognitionResult<()>
        returns
            if (self.trace_id == 0) != (self.span_id == 0) {
                Err(CognitionError::InvalidTrace)
            } else {
                Ok(())
            },
    {
        if (self.trace_id == 0) != (self.span_id == 0) {
            Err(CognitionError::InvalidTrace)
        } else {
            Ok(())
        }
    }
}

/// Explicit model execution budget.
#[derive(Clone, Copy, Debug, PartialEq, Eq, Structural)]
pub struct InferenceBudget {
    /// Maximum output tokens. Zero means unspecified.
    pub max_tokens: u32,
    /// Maximum compute units. Zero means unspecified.
    pub max_compute_units: u32,
    /// Maximum memory bytes. Zero means unspecified.
    pub max_memory_bytes: u64,
    /// Absolute deadline in monotonic nanoseconds. Zero means unset.
    pub deadline_ns: u64,
    /// Budget flags.
    pub flags: u32,
}

impl InferenceBudget {
    /// Creates a bounded budget that requests deterministic execution.
    pub fn bounded(
        max_tokens: u32,
        max_compute_units: u32,
        max_memory_bytes: u64,
        deadline_ns: u64,
    ) -> (budget: Self)
        ensures
            budget == (InferenceBudget {
                max_tokens,
                max_compute_units,
                max_memory_bytes,
                deadline_ns,
                flags: BUDGET_FLAG_DETERMINISTIC,
            }),
    {
        InferenceBudget {
            max_tokens,
            max_compute_units,
            max_memory_bytes,
            deadline_ns,
            flags: BUDGET_FLAG_DETERMINISTIC,
        }
    }

    /// Creates an unbounded placeholder. Policy may reject it.
    pub fn unbounded() -> (budget: Self)
        ensures
            budget == (InferenceBudget {
                max_tokens: 0,
                max_compute_units: 0,
                max_memory_bytes: 0,
                deadline_ns: 0,
                flags: 0,
            }),
    {
        InferenceBudget {
            max_tokens: 0,
            max_compute_units: 0,
            max_memory_bytes: 0,
            deadline_ns: 0,
            flags: 0,
        }
    }

    /// Sets budget flags.
    pub fn with_flags(self, flags: u32) -> (budget: Self)
        ensures
            budget == (InferenceBudget { flags, ..self }),
    {
        let mut budget = self;
        budget.flags = flags;
        budget
    }

    /// Returns `true` when at least one ceiling is set.
    #[verifier::allow_in_spec]
    pub fn is_bounded(self) -> bool
        returns
            self.max_tokens != 0 || self.max_compute_units != 0 || self.max_memory_bytes != 0
                || self.deadline_ns != 0,
    {
        self.max_tokens != 0 || self.max_compute_units != 0 || self.max_memory_bytes != 0
            || self.deadline_ns != 0
    }

    /// Validates budget flags and ceilings.
    #[verifier::allow_in_spec]
    pub fn validate(self) -> CognitionResult<()>
        returns
            if self.flags & !BUDGET_KNOWN_FLAGS != 0 {
                Err(CognitionError::ReservedBits)
            } else if !self.is_bounded() {
                Err(CognitionError::InvalidBudget)
            } else {
                Ok(())
            },
    {
        if self.flags & !BUDGET_KNOWN_FLAGS != 0 {
            return Err(CognitionError::ReservedBits);
        }
        if !self.is_bounded() {
            return Err(CognitionError::InvalidBudget);
        }
        Ok(())
    }

    /// Returns `true` when deterministic execution is requested.
    #[verifier::allow_in_spec]
    pub fn deterministic(self) -> bool
        returns
            self.flags & BUDGET_FLAG_DETERMINISTIC != 0,
    {
        self.flags & BUDGET_FLAG_DETERMINISTIC != 0
    }
}

/// Resource usage reported by an inference result.
#[derive(Clone, Copy, Debug, Default, PartialEq, Eq, Structural)]
pub struct BudgetUsage {
    /// Output tokens produced.
    pub output_tokens: u32,
    /// Compute units consumed.
    pub compute_units: u32,
    /// Memory bytes used.
    pub memory_bytes: u64,
    /// Elapsed time in nanoseconds.
    pub elapsed_ns: u64,
}

impl BudgetUsage {
    /// Creates usage metadata.
    pub fn new(output_tokens: u32, compute_units: u32, memory_bytes: u64, elapsed_ns: u64) -> (usage: Self)
        ensures
            usage == (BudgetUsage { output_tokens, compute_units, memory_bytes, elapsed_ns }),
    {
        BudgetUsage { output_tokens, compute_units, memory_bytes, elapsed_ns }
    }

    /// Returns `true` when usage stays within every ceiling the budget sets;
    /// a zero ceiling sets none.
    #[verifier::allow_in_spec]
    pub fn fits(self, budget: InferenceBudget) -> bool
        returns
            (budget.max_tokens == 0 || self.output_tokens <= budget.max_tokens)
                && (budget.max_compute_units == 0 || self.compute_units <= budget.max_compute_units)
                && (budget.max_memory_bytes == 0 || self.memory_bytes <= budget.max_memory_bytes),
    {
        (budget.max_tokens == 0 || self.output_tokens <= budget.max_tokens)
            && (budget.max_compute_units == 0 || self.compute_units <= budget.max_compute_units)
            && (budget.max_memory_bytes == 0 || self.memory_bytes <= budget.max_memory_bytes)
    }
}

/// Request execution context.
#[derive(Clone, Copy, Debug, PartialEq, Eq)]
pub struct CognitiveContext<'a> {
    /// Principal or service identity.
    pub principal: &'a str,
    /// Session or request group identifier.
    pub session_id: &'a str,
    /// Policy label used by authorization hooks.
    pub policy_label: &'a str,
    /// Memory scope for retrieval.
    pub memory_scope: &'a str,
    /// Current trace context.
    pub trace: TraceContext,
    /// Current monotonic timestamp.
    pub monotonic_ns: u64,
    /// Data class for prompt/output handling.
    pub data_class: DataClass,
    /// Whether policy authorization is required before execution.
    pub requires_authorization: bool,
}

impl<'a> CognitiveContext<'a> {
    /// Creates an execution context with the `default` memory scope, no
    /// trace, time zero, operational data, and authorization required.
    pub fn new(principal: &'a str, session_id: &'a str, policy_label: &'a str) -> (context: Self)
        ensures
            context.principal == principal,
            context.session_id == session_id,
            context.policy_label == policy_label,
            context.memory_scope@ == "default"@,
            context.trace == (TraceContext { trace_id: 0, span_id: 0 }),
            context.monotonic_ns == 0,
            context.data_class == DataClass::Operational,
            context.requires_authorization,
    {
        CognitiveContext {
            principal,
            session_id,
            policy_label,
            memory_scope: "default",
            trace: TraceContext::empty(),
            monotonic_ns: 0,
            data_class: DataClass::Operational,
            requires_authorization: true,
        }
    }

    /// Sets memory scope.
    pub fn with_memory_scope(self, memory_scope: &'a str) -> (context: Self)
        ensures
            context == (CognitiveContext { memory_scope, ..self }),
    {
        let mut context = self;
        context.memory_scope = memory_scope;
        context
    }

    /// Sets trace context.
    pub fn with_trace(self, trace: TraceContext) -> (context: Self)
        ensures
            context == (CognitiveContext { trace, ..self }),
    {
        let mut context = self;
        context.trace = trace;
        context
    }

    /// Sets monotonic timestamp.
    pub fn with_time(self, monotonic_ns: u64) -> (context: Self)
        ensures
            context == (CognitiveContext { monotonic_ns, ..self }),
    {
        let mut context = self;
        context.monotonic_ns = monotonic_ns;
        context
    }

    /// Sets data classification.
    pub fn with_data_class(self, data_class: DataClass) -> (context: Self)
        ensures
            context == (CognitiveContext { data_class, ..self }),
    {
        let mut context = self;
        context.data_class = data_class;
        context
    }

    /// Validates context labels and trace context.
    #[verifier::allow_in_spec]
    pub fn validate(self) -> CognitionResult<()>
        returns
            if self.principal@.len() == 0 || self.session_id@.len() == 0
                || self.policy_label@.len() == 0 || self.memory_scope@.len() == 0 {
                Err(CognitionError::MissingField)
            } else if self.principal.len() > MAX_CONTEXT_LABEL_LEN
                || self.session_id.len() > MAX_CONTEXT_LABEL_LEN
                || self.policy_label.len() > MAX_CONTEXT_LABEL_LEN
                || self.memory_scope.len() > MAX_CONTEXT_LABEL_LEN {
                Err(CognitionError::FieldTooLong)
            } else {
                self.trace.validate()
            },
    {
        if self.principal.is_empty() || self.session_id.is_empty() || self.policy_label.is_empty()
            || self.memory_scope.is_empty() {
            return Err(CognitionError::MissingField);
        }
        if self.principal.len() > MAX_CONTEXT_LABEL_LEN
            || self.session_id.len() > MAX_CONTEXT_LABEL_LEN
            || self.policy_label.len() > MAX_CONTEXT_LABEL_LEN
            || self.memory_scope.len() > MAX_CONTEXT_LABEL_LEN {
            return Err(CognitionError::FieldTooLong);
        }
        self.trace.validate()
    }
}

/// Policy decision recorded in evidence.
#[derive(Clone, Copy, Debug, PartialEq, Eq, Structural)]
pub enum PolicyDecision {
    /// Request may execute.
    Allow,
    /// Request is denied.
    Deny,
    /// Request requires an authorization step first.
    NeedsAuthorization,
}

impl PolicyDecision {
    /// Stable numeric code of each variant.
    #[verifier::allow_in_spec]
    pub fn code(self) -> u8
        returns
            match self {
                PolicyDecision::Allow => 1u8,
                PolicyDecision::Deny => 2u8,
                PolicyDecision::NeedsAuthorization => 3u8,
            },
    {
        match self {
            PolicyDecision::Allow => 1,
            PolicyDecision::Deny => 2,
            PolicyDecision::NeedsAuthorization => 3,
        }
    }

    /// The stable label of each decision, as characters.
    pub open spec fn label_text(self) -> Seq<char> {
        match self {
            PolicyDecision::Allow => "allow"@,
            PolicyDecision::Deny => "deny"@,
            PolicyDecision::NeedsAuthorization => "needs_authorization"@,
        }
    }

    /// Stable decision label.
    pub fn label(self) -> (label: &'static str)
        ensures
            label@ == self.label_text(),
    {
        match self {
            PolicyDecision::Allow => "allow",
            PolicyDecision::Deny => "deny",
            PolicyDecision::NeedsAuthorization => "needs_authorization",
        }
    }
}

/// Inference request status.
#[derive(Clone, Copy, Debug, PartialEq, Eq, Structural)]
pub enum InferenceStatus {
    /// Request completed.
    Completed,
    /// Request was denied by policy.
    Denied,
    /// Request was cancelled.
    Cancelled,
    /// Request exceeded budget.
    BudgetExceeded,
    /// Request deadline expired.
    DeadlineExceeded,
}

impl InferenceStatus {
    /// Stable numeric code of each variant.
    #[verifier::allow_in_spec]
    pub fn code(self) -> u8
        returns
            match self {
                InferenceStatus::Completed => 1u8,
                InferenceStatus::Denied => 2u8,
                InferenceStatus::Cancelled => 3u8,
                InferenceStatus::BudgetExceeded => 4u8,
                InferenceStatus::DeadlineExceeded => 5u8,
            },
    {
        match self {
            InferenceStatus::Completed => 1,
            InferenceStatus::Denied => 2,
            InferenceStatus::Cancelled => 3,
            InferenceStatus::BudgetExceeded => 4,
            InferenceStatus::DeadlineExceeded => 5,
        }
    }

    /// The stable label of each status, as characters.
    pub open spec fn label_text(self) -> Seq<char> {
        match self {
            InferenceStatus::Completed => "completed"@,
            InferenceStatus::Denied => "denied"@,
            InferenceStatus::Cancelled => "cancelled"@,
            InferenceStatus::BudgetExceeded => "budget_exceeded"@,
            InferenceStatus::DeadlineExceeded => "deadline_exceeded"@,
        }
    }

    /// Stable status label.
    pub fn label(self) -> (label: &'static str)
        ensures
            label@ == self.label_text(),
    {
        match self {
            InferenceStatus::Completed => "completed",
            InferenceStatus::Denied => "denied",
            InferenceStatus::Cancelled => "cancelled",
            InferenceStatus::BudgetExceeded => "budget_exceeded",
            InferenceStatus::DeadlineExceeded => "deadline_exceeded",
        }
    }
}

/// Evidence bundle for model-influenced decisions.
#[derive(Clone, Copy, Debug, PartialEq, Eq)]
pub struct EvidenceBundle<'a> {
    /// Request identifier.
    pub request_id: u64,
    /// Model identifier.
    pub model_id: &'a str,
    /// Trace context linked to audit records.
    pub trace: TraceContext,
    /// Retrieval hits used by the request.
    pub retrieval_hits: u16,
    /// Plan steps used by the request.
    pub plan_steps: u16,
    /// Audit event identifier, if emitted.
    pub audit_event_id: u128,
    /// Policy decision.
    pub policy_decision: PolicyDecision,
    /// Output redaction state.
    pub redaction: RedactionState,
}

impl<'a> EvidenceBundle<'a> {
    /// Creates evidence metadata with no hits, steps or audit event, an
    /// `Allow` decision and operational redaction.
    pub fn new(request_id: u64, model_id: &'a str, trace: TraceContext) -> (evidence: Self)
        ensures
            evidence == (EvidenceBundle {
                request_id,
                model_id,
                trace,
                retrieval_hits: 0,
                plan_steps: 0,
                audit_event_id: 0,
                policy_decision: PolicyDecision::Allow,
                redaction: RedactionState::Operational,
            }),
    {
        EvidenceBundle {
            request_id,
            model_id,
            trace,
            retrieval_hits: 0,
            plan_steps: 0,
            audit_event_id: 0,
            policy_decision: PolicyDecision::Allow,
            redaction: RedactionState::Operational,
        }
    }

    /// Sets retrieval hit count.
    pub fn with_retrieval_hits(self, retrieval_hits: u16) -> (evidence: Self)
        ensures
            evidence == (EvidenceBundle { retrieval_hits, ..self }),
    {
        let mut evidence = self;
        evidence.retrieval_hits = retrieval_hits;
        evidence
    }

    /// Sets plan step count.
    pub fn with_plan_steps(self, plan_steps: u16) -> (evidence: Self)
        ensures
            evidence == (EvidenceBundle { plan_steps, ..self }),
    {
        let mut evidence = self;
        evidence.plan_steps = plan_steps;
        evidence
    }

    /// Sets audit event id.
    pub fn with_audit_event(self, audit_event_id: u128) -> (evidence: Self)
        ensures
            evidence == (EvidenceBundle { audit_event_id, ..self }),
    {
        let mut evidence = self;
        evidence.audit_event_id = audit_event_id;
        evidence
    }

    /// Sets policy decision.
    pub fn with_policy_decision(self, decision: PolicyDecision) -> (evidence: Self)
        ensures
            evidence == (EvidenceBundle { policy_decision: decision, ..self }),
    {
        let mut evidence = self;
        evidence.policy_decision = decision;
        evidence
    }

    /// Sets redaction state.
    pub fn with_redaction(self, redaction: RedactionState) -> (evidence: Self)
        ensures
            evidence == (EvidenceBundle { redaction, ..self }),
    {
        let mut evidence = self;
        evidence.redaction = redaction;
        evidence
    }

    /// Validates evidence metadata.
    #[verifier::allow_in_spec]
    pub fn validate(self) -> CognitionResult<()>
        returns
            if self.request_id == 0 || self.model_id@.len() == 0 {
                Err(CognitionError::MissingField)
            } else {
                self.trace.validate()
            },
    {
        if self.request_id == 0 || self.model_id.is_empty() {
            return Err(CognitionError::MissingField);
        }
        self.trace.validate()
    }
}

/// Inference request.
#[derive(Clone, Copy, Debug, PartialEq, Eq)]
pub struct InferenceRequest<'a> {
    /// Stable request identifier.
    pub request_id: u64,
    /// Target model.
    pub model: ModelRef<'a>,
    /// Prompt or redacted prompt summary.
    pub prompt: &'a str,
    /// Execution budget.
    pub budget: InferenceBudget,
    /// Request context.
    pub context: CognitiveContext<'a>,
    /// Maximum retrieval hits allowed for this request.
    pub retrieval_limit: usize,
    /// Request flags.
    pub flags: u32,
}

impl<'a> InferenceRequest<'a> {
    /// Creates an inference request with no retrieval and no flags.
    pub fn new(
        request_id: u64,
        model: ModelRef<'a>,
        prompt: &'a str,
        budget: InferenceBudget,
        context: CognitiveContext<'a>,
    ) -> (request: Self)
        ensures
            request == (InferenceRequest {
                request_id,
                model,
                prompt,
                budget,
                context,
                retrieval_limit: 0,
                flags: 0,
            }),
    {
        InferenceRequest { request_id, model, prompt, budget, context, retrieval_limit: 0, flags: 0 }
    }

    /// Enables retrieval context with a hit limit.
    pub fn with_retrieval_limit(self, retrieval_limit: usize) -> (request: Self)
        ensures
            request == (InferenceRequest {
                retrieval_limit,
                flags: self.flags | REQUEST_FLAG_ALLOW_RETRIEVAL,
                ..self
            }),
    {
        let mut request = self;
        request.retrieval_limit = retrieval_limit;
        request.flags = request.flags | REQUEST_FLAG_ALLOW_RETRIEVAL;
        request
    }

    /// Sets request flags.
    pub fn with_flags(self, flags: u32) -> (request: Self)
        ensures
            request == (InferenceRequest { flags, ..self }),
    {
        let mut request = self;
        request.flags = flags;
        request
    }

    /// Returns `true` when the request was cancelled.
    #[verifier::allow_in_spec]
    pub fn is_cancelled(self) -> bool
        returns
            self.flags & REQUEST_FLAG_CANCELLED != 0,
    {
        self.flags & REQUEST_FLAG_CANCELLED != 0
    }

    /// Validates request fields, model readiness, model metadata, budget and
    /// context, answering with the first failure in that order.
    #[verifier::allow_in_spec]
    pub fn validate(self) -> CognitionResult<()>
        returns
            if self.request_id == 0 || self.prompt@.len() == 0 {
                Err(CognitionError::MissingField)
            } else if self.prompt.len() > MAX_PROMPT_LEN {
                Err(CognitionError::FieldTooLong)
            } else if self.flags & !REQUEST_KNOWN_FLAGS != 0 {
                Err(CognitionError::ReservedBits)
            } else if self.retrieval_limit > MAX_REQUEST_RETRIEVAL_LIMIT {
                Err(CognitionError::InvalidRequest)
            } else if !self.model.can_infer() {
                Err(CognitionError::ModelUnavailable)
            } else if self.model.validate() is Err {
                self.model.validate()
            } else if self.budget.validate() is Err {
                self.budget.validate()
            } else {
                self.context.validate()
            },
    {
        if self.request_id == 0 || self.prompt.is_empty() {
            return Err(CognitionError::MissingField);
        }
        if self.prompt.len() > MAX_PROMPT_LEN {
            return Err(CognitionError::FieldTooLong);
        }
        if self.flags & !REQUEST_KNOWN_FLAGS != 0 {
            return Err(CognitionError::ReservedBits);
        }
        if self.retrieval_limit > MAX_REQUEST_RETRIEVAL_LIMIT {
            return Err(CognitionError::InvalidRequest);
        }
        if !self.model.can_infer() {
            return Err(CognitionError::ModelUnavailable);
        }
        match self.model.validate() {
            Ok(()) => match self.budget.validate() {
                Ok(()) => self.context.validate(),
                Err(error) => Err(error),
            },
            Err(error) => Err(error),
        }
    }
}

/// Inference result.
#[derive(Clone, Copy, Debug, PartialEq, Eq)]
pub struct InferenceResult<'a> {
    /// Request identifier.
    pub request_id: u64,
    /// Model identifier.
    pub model_id: &'a str,
    /// Completion status.
    pub status: InferenceStatus,
    /// Output text or redacted output summary.
    pub output: &'a str,
    /// Resource usage.
    pub usage: BudgetUsage,
    /// Evidence bundle.
    pub evidence: EvidenceBundle<'a>,
}

impl<'a> InferenceResult<'a> {
    /// Creates an inference result.
    pub fn new(
        request_id: u64,
        model_id: &'a str,
        status: InferenceStatus,
        output: &'a str,
        usage: BudgetUsage,
        evidence: EvidenceBundle<'a>,
    ) -> (result: Self)
        ensures
            result == (InferenceResult { request_id, model_id, status, output, usage, evidence }),
    {
        InferenceResult { request_id, model_id, status, output, usage, evidence }
    }

    /// Validates result fields and evidence consistency.
    #[verifier::allow_in_spec]
    pub fn validate(self) -> CognitionResult<()>
        returns
            if self.request_id == 0 || self.model_id@.len() == 0 {
                Err(CognitionError::MissingField)
            } else if self.status is Completed && self.output@.len() == 0 {
                Err(CognitionError::MissingField)
            } else if self.output.len() > MAX_OUTPUT_LEN {
                Err(CognitionError::FieldTooLong)
            } else if self.evidence.request_id != self.request_id {
                Err(CognitionError::InvalidEvidence)
            } else {
                self.evidence.validate()
            },
    {
        if self.request_id == 0 || self.model_id.is_empty() {
            return Err(CognitionError::MissingField);
        }
        let completed = match self.status {
            InferenceStatus::Completed => true,
            _ => false,
        };
        if completed && self.output.is_empty() {
            return Err(CognitionError::MissingField);
        }
        if self.output.len() > MAX_OUTPUT_LEN {
            return Err(CognitionError::FieldTooLong);
        }
        if self.evidence.request_id != self.request_id {
            return Err(CognitionError::InvalidEvidence);
        }
        self.evidence.validate()
    }
}

/// Cognition engine contract, for model runtimes to implement.
pub trait CognitionEngine {
    /// Executes an inference request.
    fn infer<'a>(&self, request: InferenceRequest<'a>) -> CognitionResult<InferenceResult<'a>>;
}

/// Deterministic host-mode cognition engine.
#[derive(Clone, Copy, Debug, PartialEq, Eq)]
pub struct MockCognitionEngine {
    /// Redacted deterministic output.
    pub output: &'static str,
    /// Output token estimate.
    pub output_tokens: u32,
    /// Compute-unit estimate.
    pub compute_units: u32,
}

/// The usage the mock engine reports for every completed request.
pub open spec fn mock_usage(engine: MockCognitionEngine) -> BudgetUsage {
    BudgetUsage {
        output_tokens: engine.output_tokens,
        compute_units: engine.compute_units,
        memory_bytes: 1024,
        elapsed_ns: 1_000,
    }
}

/// What the mock engine answers to `request`: the first validation error;
/// else `Cancelled` for a cancelled request; else `DeadlineExceeded` when a
/// deadline is set and the context's time is past it; else `BudgetExceeded`
/// when the engine's usage does not fit the budget; else a completed result
/// whose evidence names the request, model and trace, counts the retrieval
/// limit as hits, and records an `Allow` decision with sensitive redaction.
pub open spec fn mock_inference<'a>(
    engine: MockCognitionEngine,
    request: InferenceRequest<'a>,
) -> CognitionResult<InferenceResult<'a>> {
    if request.validate() is Err {
        Err(request.validate()->Err_0)
    } else if request.is_cancelled() {
        Err(CognitionError::Cancelled)
    } else if request.budget.deadline_ns != 0 && request.context.monotonic_ns > request.budget.deadline_ns {
        Err(CognitionError::DeadlineExceeded)
    } else if !mock_usage(engine).fits(request.budget) {
        Err(CognitionError::BudgetExceeded)
    } else {
        Ok(InferenceResult {
            request_id: request.request_id,
            model_id: request.model.id,
            status: InferenceStatus::Completed,
            output: engine.output,
            usage: mock_usage(engine),
            evidence: EvidenceBundle {
                request_id: request.request_id,
                model_id: request.model.id,
                trace: request.context.trace,
                retrieval_hits: request.retrieval_limit as u16,
                plan_steps: 0,
                audit_event_id: 0,
                policy_decision: PolicyDecision::Allow,
                redaction: RedactionState::SensitiveRedacted,
            },
        })
    }
}

impl MockCognitionEngine {
    /// Creates a mock engine.
    pub fn new(output: &'static str, output_tokens: u32, compute_units: u32) -> (engine: Self)
        ensures
            engine == (MockCognitionEngine { output, output_tokens, compute_units }),
    {
        MockCognitionEngine { output, output_tokens, compute_units }
    }
}

impl Default for MockCognitionEngine {
    /// The default engine answers `mock inference accepted` with an estimate
    /// of three output tokens and ten compute units.
    fn default() -> (engine: Self)
        ensures
            engine.output@ == "mock inference accepted"@,
            engine.output_tokens == 3,
            engine.compute_units == 10,
    {
        MockCognitionEngine { output: "mock inference accepted", output_tokens: 3, compute_units: 10 }
    }
}

impl CognitionEngine for MockCognitionEngine {
    fn infer<'a>(&self, request: InferenceRequest<'a>) -> (r: CognitionResult<InferenceResult<'a>>)
        ensures
            r == mock_inference(*self, request),
    {
        request.validate()?;
        if request.is_cancelled() {
            return Err(CognitionError::Cancelled);
        }
        if request.budget.deadline_ns != 0 && request.context.monotonic_ns > request.budget.deadline_ns {
            return Err(CognitionError::DeadlineExceeded);
        }
        let usage = BudgetUsage::new(self.output_tokens, self.compute_units, 1024, 1_000);
        if !usage.fits(request.budget) {
            return Err(CognitionError::BudgetExceeded);
        }
        if !request.model.capabilities.contains(ModelCapabilities::infer()) {
            return Err(CognitionError::ModelUnavailable);
        }
        let evidence = EvidenceBundle::new(request.request_id, request.model.id, request.context.trace)
            .with_retrieval_hits(request.retrieval_limit as u16)
            .with_policy_decision(PolicyDecision::Allow)
            .with_redaction(RedactionState::SensitiveRedacted);
        Ok(InferenceResult::new(
            request.request_id,
            request.model.id,
            InferenceStatus::Completed,
            self.output,
            usage,
            evidence,
        ))
    }
}

/// A trace with both identifiers present, or with neither, is valid.
pub proof fn present_or_empty_trace_is_valid(trace: TraceContext)
    ensures
        trace.is_present() ==> trace.validate() is Ok,
        (trace.trace_id == 0 && trace.span_id == 0) ==> trace.validate() is Ok,
{
}

/// A budget made by `bounded` with at least one nonzero ceiling validates,
/// and it requests deterministic execution.
pub proof fn bounded_budget_is_valid(max_tokens: u32, max_compute_units: u32, max_memory_bytes: u64, deadline_ns: u64)
    requires
        max_tokens != 0 || max_compute_units != 0 || max_memory_bytes != 0 || deadline_ns != 0,
    ensures
        (InferenceBudget {
            max_tokens,
            max_compute_units,
            max_memory_bytes,
            deadline_ns,
            flags: BUDGET_FLAG_DETERMINISTIC,
        }).validate() is Ok,
        (InferenceBudget {
            max_tokens,
            max_compute_units,
            max_memory_bytes,
            deadline_ns,
            flags: BUDGET_FLAG_DETERMINISTIC,
        }).deterministic(),
{
    assert(0x1u32 & !(0x1u32 | 0x2u32) == 0) by (bit_vector);
    assert(0x1u32 & 0x1u32 != 0) by (bit_vector);
}

/// Usage that fits a budget stays within each ceiling the budget sets.
pub proof fn fitting_usage_respects_ceilings(usage: BudgetUsage, budget: InferenceBudget)
    requires
        usage.fits(budget),
    ensures
        budget.max_tokens != 0 ==> usage.output_tokens <= budget.max_tokens,
        budget.max_compute_units != 0 ==> usage.compute_units <= budget.max_compute_units,
        budget.max_memory_bytes != 0 ==> usage.memory_bytes <= budget.max_memory_bytes,
{
}

/// Enabling retrieval neither cancels nor un-cancels a request, and adds no
/// reserved flag.
pub proof fn retrieval_limit_keeps_flags(request: InferenceRequest<'_>, retrieval_limit: usize)
    ensures
        (InferenceRequest {
            retrieval_limit,
            flags: request.flags | REQUEST_FLAG_ALLOW_RETRIEVAL,
            ..request
        }).is_cancelled() == request.is_cancelled(),
        ((request.flags | REQUEST_FLAG_ALLOW_RETRIEVAL) & !REQUEST_KNOWN_FLAGS != 0)
            == (request.flags & !REQUEST_KNOWN_FLAGS != 0),
{
    let f = request.flags;
    assert(((f | 0x2u32) & 0x1u32 != 0) == (f & 0x1u32 != 0)) by (bit_vector);
    assert((((f | 0x2u32) & !(0x1u32 | 0x2u32)) != 0) == ((f & !(0x1u32 | 0x2u32)) != 0)) by (bit_vector);
}

/// A request that validates targets a loaded, valid, inference-capable
/// model, carries a bounded budget and a valid context, and asks for no more
/// retrieval hits than the request limit.
pub proof fn valid_request_is_executable(request: InferenceRequest<'_>)
    requires
        request.validate() is Ok,
    ensures
        request.model.can_infer(),
        request.model.validate() is Ok,
        request.budget.is_bounded(),
        request.context.validate() is Ok,
        request.context.trace.validate() is Ok,
        request.retrieval_limit <= MAX_REQUEST_RETRIEVAL_LIMIT,
        request.prompt@.len() > 0,
        request.prompt.len() <= MAX_PROMPT_LEN,
{
}

/// A completed mock inference answers the request it was given: the result
/// and its evidence name the request and its model, the evidence carries the
/// request's trace and retrieval limit with an `Allow` decision and
/// sensitive redaction, the output and usage are the engine's, the model can infer,
/// the request was not cancelled, its deadline had not passed, and the
/// reported usage fits its budget.
pub proof fn mock_success_respects_request<'a>(engine: MockCognitionEngine, request: InferenceRequest<'a>)
    requires
        mock_inference(engine, request) is Ok,
    ensures
        ({
            let result = mock_inference(engine, request)->Ok_0;
            &&& result.request_id == request.request_id
            &&& result.evidence.request_id == request.request_id
            &&& result.model_id == request.model.id
            &&& result.evidence.model_id == request.model.id
            &&& result.evidence.model_id@ == result.model_id@
            &&& result.evidence.trace == request.context.trace
            &&& result.evidence.retrieval_hits as int == request.retrieval_limit as int
            &&& result.evidence.plan_steps == 0
            &&& result.evidence.audit_event_id == 0
            &&& result.evidence.policy_decision is Allow
            &&& result.evidence.redaction is SensitiveRedacted
            &&& result.output == engine.output
            &&& result.usage.output_tokens == engine.output_tokens
            &&& result.usage.compute_units == engine.compute_units
            &&& result.usage.memory_bytes == 1024
            &&& result.usage.elapsed_ns == 1_000
            &&& result.status is Completed
            &&& result.usage.fits(request.budget)
            &&& request.model.can_infer()
            &&& !request.is_cancelled()
            &&& (request.budget.deadline_ns == 0 || request.context.monotonic_ns <= request.budget.deadline_ns)
        }),
{
}

/// The mock engine completes every request that validates, is not
/// cancelled, whose deadline (when set) has not passed, and whose budget the
/// engine's usage fits; it refuses every other request.
pub proof fn mock_succeeds_exactly_when_allowed<'a>(engine: MockCognitionEngine, request: InferenceRequest<'a>)
    ensures
        mock_inference(engine, request) is Ok <==> {
            &&& request.validate() is Ok
            &&& request.flags & REQUEST_FLAG_CANCELLED == 0
            &&& (request.budget.deadline_ns == 0 || request.context.monotonic_ns <= request.budget.deadline_ns)
            &&& (request.budget.max_tokens == 0 || engine.output_tokens <= request.budget.max_tokens)
            &&& (request.budget.max_compute_units == 0 || engine.compute_units <= request.budget.max_compute_units)
            &&& (request.budget.max_memory_bytes == 0 || 1024 <= request.budget.max_memory_bytes)
        },
        request.validate() is Err ==> mock_inference(engine, request) == Err::<InferenceResult<'a>, CognitionError>(
            request.validate()->Err_0,
        ),
{
}

/// A completed mock inference passes result validation whenever the
/// engine's output is non-empty and within the output limit.
pub proof fn mock_result_validates<'a>(engine: MockCognitionEngine, request: InferenceRequest<'a>)
    requires
        mock_inference(engine, request) is Ok,
        engine.output@.len() > 0,
        engine.output.len() <= MAX_OUTPUT_LEN,
    ensures
        (mock_inference(engine, request)->Ok_0).validate() is Ok,
{
}

/// Engine component descriptor.
#[derive(Clone, Debug, PartialEq, Eq)]
pub struct EngineDescriptor<'a> {
    /// Component name.
    pub name: &'a str,
    /// Component version marker.
    pub version: u32,
}

impl<'a> EngineDescriptor<'a> {
    /// Creates an engine component descriptor.
    pub fn new(name: &'a str, version: u32) -> (descriptor: Self)
        ensures
            descriptor == (EngineDescriptor { name, version }),
    {
        EngineDescriptor { name, version }
    }
}

} // verus!
