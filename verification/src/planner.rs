//! Deterministic planning contracts for model-assisted workflows.
//!
//! The planner emits bounded, inspectable plans that can be audited before
//! any privileged tool, device, or memory operation is attempted. A plan
//! holds at most `N` valid steps with distinct identifiers, and after each
//! step is added its status says whether any step needs authorization.

use vstd::prelude::*;

use crate::engine::{InferenceBudget, TraceContext};
use crate::{CognitionError, CognitionResult, DataClass};
use vstd::string::is_ascii;

verus! {

/// Maximum goal description length.
pub const MAX_GOAL_DESCRIPTION_LEN: usize = 512;

/// Maximum plan-step description length.
pub const MAX_STEP_DESCRIPTION_LEN: usize = 256;

/// Maximum plan resource label length.
pub const MAX_PLAN_RESOURCE_LEN: usize = 128;

/// Default maximum plan steps for host-mode planning.
pub const DEFAULT_MAX_PLAN_STEPS: usize = 8;

/// Planning priority.
#[derive(Clone, Copy, Debug, PartialEq, Eq, Structural)]
pub enum PlanPriority {
    /// Low-priority background planning.
    Low,
    /// Normal planning priority.
    Normal,
    /// Urgent planning priority within explicit budget.
    Urgent,
}

impl PlanPriority {
    /// Stable numeric code of each variant.
    #[verifier::allow_in_spec]
    pub fn code(self) -> u8
        returns
            match self {
                PlanPriority::Low => 1u8,
                PlanPriority::Normal => 2u8,
                PlanPriority::Urgent => 3u8,
            },
    {
        match self {
            PlanPriority::Low => 1,
            PlanPriority::Normal => 2,
            PlanPriority::Urgent => 3,
        }
    }

    /// The stable label of each priority, as characters.
    pub open spec fn label_text(self) -> Seq<char> {
        match self {
            PlanPriority::Low => "low"@,
            PlanPriority::Normal => "normal"@,
            PlanPriority::Urgent => "urgent"@,
        }
    }

    /// Stable priority label.
    pub fn label(self) -> (label: &'static str)
        ensures
            label@ == self.label_text(),
    {
        match self {
            PlanPriority::Low => "low",
            PlanPriority::Normal => "normal",
            PlanPriority::Urgent => "urgent",
        }
    }
}

/// Plan step kind.
#[derive(Clone, Copy, Debug, PartialEq, Eq, Structural)]
pub enum PlanStepKind {
    /// Normalize or validate input.
    NormalizeInput,
    /// Retrieve memory context.
    RetrieveContext,
    /// Invoke model inference.
    RunInference,
    /// Call a policy-authorized tool or device.
    ToolCall,
    /// Emit audit/evidence record.
    EmitEvidence,
    /// Finish and return result.
    Complete,
}

impl PlanStepKind {
    /// Stable numeric code of each variant.
    #[verifier::allow_in_spec]
    pub fn code(self) -> u8
        returns
            match self {
                PlanStepKind::NormalizeInput => 1u8,
                PlanStepKind::RetrieveContext => 2u8,
                PlanStepKind::RunInference => 3u8,
                PlanStepKind::ToolCall => 4u8,
                PlanStepKind::EmitEvidence => 5u8,
                PlanStepKind::Complete => 6u8,
            },
    {
        match self {
            PlanStepKind::NormalizeInput => 1,
            PlanStepKind::RetrieveContext => 2,
            PlanStepKind::RunInference => 3,
            PlanStepKind::ToolCall => 4,
            PlanStepKind::EmitEvidence => 5,
            PlanStepKind::Complete => 6,
        }
    }

    /// The stable label of each step kind, as characters.
    pub open spec fn label_text(self) -> Seq<char> {
        match self {
            PlanStepKind::NormalizeInput => "normalize_input"@,
            PlanStepKind::RetrieveContext => "retrieve_context"@,
            PlanStepKind::RunInference => "run_inference"@,
            PlanStepKind::ToolCall => "tool_call"@,
            PlanStepKind::EmitEvidence => "emit_evidence"@,
            PlanStepKind::Complete => "complete"@,
        }
    }

    /// Stable step-kind label.
    pub fn label(self) -> (label: &'static str)
        ensures
            label@ == self.label_text(),
    {
        match self {
            PlanStepKind::NormalizeInput => "normalize_input",
            PlanStepKind::RetrieveContext => "retrieve_context",
            PlanStepKind::RunInference => "run_inference",
            PlanStepKind::ToolCall => "tool_call",
            PlanStepKind::EmitEvidence => "emit_evidence",
            PlanStepKind::Complete => "complete",
        }
    }
}

/// Plan status.
#[derive(Clone, Copy, Debug, PartialEq, Eq, Structural)]
pub enum PlanStatus {
    /// Plan is being built.
    Draft,
    /// Plan is ready for execution.
    Ready,
    /// Plan requires authorization before execution.
    NeedsAuthorization,
    /// Plan was denied by policy.
    Denied,
}

impl PlanStatus {
    /// Stable numeric code of each variant.
    #[verifier::allow_in_spec]
    pub fn code(self) -> u8
        returns
            match self {
                PlanStatus::Draft => 1u8,
                PlanStatus::Ready => 2u8,
                PlanStatus::NeedsAuthorization => 3u8,
                PlanStatus::Denied => 4u8,
            },
    {
        match self {
            PlanStatus::Draft => 1,
            PlanStatus::Ready => 2,
            PlanStatus::NeedsAuthorization => 3,
            PlanStatus::Denied => 4,
        }
    }

    /// The stable label of each status, as characters.
    pub open spec fn label_text(self) -> Seq<char> {
        match self {
            PlanStatus::Draft => "draft"@,
            PlanStatus::Ready => "ready"@,
            PlanStatus::NeedsAuthorization => "needs_authorization"@,
            PlanStatus::Denied => "denied"@,
        }
    }

    /// Stable status label.
    pub fn label(self) -> (label: &'static str)
        ensures
            label@ == self.label_text(),
    {
        match self {
            PlanStatus::Draft => "draft",
            PlanStatus::Ready => "ready",
            PlanStatus::NeedsAuthorization => "needs_authorization",
            PlanStatus::Denied => "denied",
        }
    }
}

/// Planner goal.
#[derive(Clone, Copy, Debug, PartialEq, Eq)]
pub struct PlanGoal<'a> {
    /// Stable goal identifier.
    pub goal_id: u64,
    /// Principal requesting the plan.
    pub principal: &'a str,
    /// Goal description.
    pub description: &'a str,
    /// Policy label.
    pub policy_label: &'a str,
    /// Memory scope.
    pub memory_scope: &'a str,
    /// Budget for the plan.
    pub budget: InferenceBudget,
    /// Trace context.
    pub trace: TraceContext,
    /// Priority.
    pub priority: PlanPriority,
    /// Data sensitivity.
    pub data_class: DataClass,
}

impl<'a> PlanGoal<'a> {
    /// Creates a plan goal with the `default` memory scope, no trace, normal
    /// priority and operational data.
    pub fn new(
        goal_id: u64,
        principal: &'a str,
        description: &'a str,
        policy_label: &'a str,
        budget: InferenceBudget,
    ) -> (goal: Self)
        ensures
            goal.goal_id == goal_id,
            goal.principal == principal,
            goal.description == description,
            goal.policy_label == policy_label,
            goal.memory_scope@ == "default"@,
            goal.budget == budget,
            goal.trace == (TraceContext { trace_id: 0, span_id: 0 }),
            goal.priority == PlanPriority::Normal,
            goal.data_class == DataClass::Operational,
    {
        PlanGoal {
            goal_id,
            principal,
            description,
            policy_label,
            memory_scope: "default",
            budget,
            trace: TraceContext::empty(),
            priority: PlanPriority::Normal,
            data_class: DataClass::Operational,
        }
    }

    /// Sets memory scope.
    pub fn with_memory_scope(self, memory_scope: &'a str) -> (goal: Self)
        ensures
            goal == (PlanGoal { memory_scope, ..self }),
    {
        let mut goal = self;
        goal.memory_scope = memory_scope;
        goal
    }

    /// Sets trace context.
    pub fn with_trace(self, trace: TraceContext) -> (goal: Self)
        ensures
            goal == (PlanGoal { trace, ..self }),
    {
        let mut goal = self;
        goal.trace = trace;
        goal
    }

    /// Sets priority.
    pub fn with_priority(self, priority: PlanPriority) -> (goal: Self)
        ensures
            goal == (PlanGoal { priority, ..self }),
    {
        let mut goal = self;
        goal.priority = priority;
        goal
    }

    /// Sets data class.
    pub fn with_data_class(self, data_class: DataClass) -> (goal: Self)
        ensures
            goal == (PlanGoal { data_class, ..self }),
    {
        let mut goal = self;
        goal.data_class = data_class;
        goal
    }

    /// Validates goal metadata, budget and trace, answering with the first
    /// failure in that order.
    #[verifier::allow_in_spec]
    pub fn validate(self) -> CognitionResult<()>
        returns
            if self.goal_id == 0 || self.principal@.len() == 0 || self.description@.len() == 0
                || self.policy_label@.len() == 0 || self.memory_scope@.len() == 0 {
                Err(CognitionError::MissingField)
            } else if self.description.len() > MAX_GOAL_DESCRIPTION_LEN
                || self.principal.len() > MAX_PLAN_RESOURCE_LEN
                || self.policy_label.len() > MAX_PLAN_RESOURCE_LEN
                || self.memory_scope.len() > MAX_PLAN_RESOURCE_LEN {
                Err(CognitionError::FieldTooLong)
            } else if self.budget.validate() is Err {
                self.budget.validate()
            } else {
                self.trace.validate()
            },
    {
        if self.goal_id == 0 || self.principal.is_empty() || self.description.is_empty()
            || self.policy_label.is_empty() || self.memory_scope.is_empty() {
            return Err(CognitionError::MissingField);
        }
        if self.description.len() > MAX_GOAL_DESCRIPTION_LEN
            || self.principal.len() > MAX_PLAN_RESOURCE_LEN
            || self.policy_label.len() > MAX_PLAN_RESOURCE_LEN
            || self.memory_scope.len() > MAX_PLAN_RESOURCE_LEN {
            return Err(CognitionError::FieldTooLong);
        }
        match self.budget.validate() {
            Ok(()) => self.trace.validate(),
            Err(error) => Err(error),
        }
    }
}

/// One bounded plan step.
#[derive(Clone, Copy, Debug, PartialEq, Eq)]
pub struct PlanStep<'a> {
    /// Step identifier unique within a plan.
    pub step_id: u16,
    /// Step kind.
    pub kind: PlanStepKind,
    /// Step description.
    pub description: &'a str,
    /// Resource or subsystem label.
    pub resource: &'a str,
    /// Whether this step requires authorization before execution.
    pub requires_authorization: bool,
    /// Estimated compute units.
    pub estimated_compute_units: u32,
}

impl<'a> PlanStep<'a> {
    /// Creates a plan step without authorization and with no compute estimate.
    pub fn new(step_id: u16, kind: PlanStepKind, description: &'a str, resource: &'a str) -> (step: Self)
        ensures
            step == (PlanStep {
                step_id,
                kind,
                description,
                resource,
                requires_authorization: false,
                estimated_compute_units: 0,
            }),
    {
        PlanStep {
            step_id,
            kind,
            description,
            resource,
            requires_authorization: false,
            estimated_compute_units: 0,
        }
    }

    /// Marks whether authorization is required.
    pub fn with_authorization(self, requires_authorization: bool) -> (step: Self)
        ensures
            step == (PlanStep { requires_authorization, ..self }),
    {
        let mut step = self;
        step.requires_authorization = requires_authorization;
        step
    }

    /// Sets estimated compute units.
    pub fn with_compute_units(self, estimated_compute_units: u32) -> (step: Self)
        ensures
            step == (PlanStep { estimated_compute_units, ..self }),
    {
        let mut step = self;
        step.estimated_compute_units = estimated_compute_units;
        step
    }

    /// Validates step metadata.
    #[verifier::allow_in_spec]
    pub fn validate(self) -> CognitionResult<()>
        returns
            if self.step_id == 0 || self.description@.len() == 0 || self.resource@.len() == 0 {
                Err(CognitionError::MissingField)
            } else if self.description.len() > MAX_STEP_DESCRIPTION_LEN
                || self.resource.len() > MAX_PLAN_RESOURCE_LEN {
                Err(CognitionError::FieldTooLong)
            } else {
                Ok(())
            },
    {
        if self.step_id == 0 || self.description.is_empty() || self.resource.is_empty() {
            return Err(CognitionError::MissingField);
        }
        if self.description.len() > MAX_STEP_DESCRIPTION_LEN || self.resource.len() > MAX_PLAN_RESOURCE_LEN {
            return Err(CognitionError::FieldTooLong);
        }
        Ok(())
    }
}

/// Planner configuration.
#[derive(Clone, Copy, Debug, PartialEq, Eq, Structural)]
pub struct PlannerConfig {
    /// Maximum number of steps.
    pub max_steps: usize,
    /// Require authorization for tool/device steps.
    pub require_authorization_for_tools: bool,
    /// Emit audit/evidence step.
    pub emit_evidence: bool,
}

impl PlannerConfig {
    /// Validates planner config.
    #[verifier::allow_in_spec]
    pub fn validate(self) -> CognitionResult<()>
        returns
            if self.max_steps == 0 { Err(CognitionError::InvalidPlan) } else { Ok(()) },
    {
        if self.max_steps == 0 {
            Err(CognitionError::InvalidPlan)
        } else {
            Ok(())
        }
    }
}

impl Default for PlannerConfig {
    /// The host-mode planner config: eight steps, authorization required for
    /// tools, evidence emitted.
    fn default() -> (config: Self)
        ensures
            config == (PlannerConfig {
                max_steps: DEFAULT_MAX_PLAN_STEPS,
                require_authorization_for_tools: true,
                emit_evidence: true,
            }),
    {
        PlannerConfig {
            max_steps: DEFAULT_MAX_PLAN_STEPS,
            require_authorization_for_tools: true,
            emit_evidence: true,
        }
    }
}

/// `true` when some step in `steps` requires authorization.
pub open spec fn any_requires_authorization(steps: Seq<PlanStep<'_>>) -> bool {
    exists|i: int| 0 <= i < steps.len() && (#[trigger] steps[i]).requires_authorization
}

/// The status a plan with steps `steps` carries once a step has been added.
pub open spec fn status_for(steps: Seq<PlanStep<'_>>) -> PlanStatus {
    if any_requires_authorization(steps) {
        PlanStatus::NeedsAuthorization
    } else {
        PlanStatus::Ready
    }
}

/// `true` when some step in `steps` has identifier `step_id`.
pub open spec fn has_step_id(steps: Seq<PlanStep<'_>>, step_id: u16) -> bool {
    exists|i: int| 0 <= i < steps.len() && (#[trigger] steps[i]).step_id == step_id
}

/// No two steps in `steps` share an identifier.
pub open spec fn distinct_step_ids(steps: Seq<PlanStep<'_>>) -> bool {
    forall|i: int, j: int|
        0 <= i < steps.len() && 0 <= j < steps.len() && i != j
            ==> (#[trigger] steps[i]).step_id != (#[trigger] steps[j]).step_id
}

/// What adding `step` to a plan holding `steps` with capacity `capacity`
/// answers.
pub open spec fn push_outcome(steps: Seq<PlanStep<'_>>, capacity: nat, step: PlanStep<'_>) -> CognitionResult<()> {
    if step.validate() is Err {
        step.validate()
    } else if steps.len() == capacity {
        Err(CognitionError::CapacityExceeded)
    } else if has_step_id(steps, step.step_id) {
        Err(CognitionError::DuplicatePlanStep)
    } else {
        Ok(())
    }
}

/// Fixed-capacity plan.
#[derive(Debug, PartialEq, Eq)]
pub struct Plan<'a, const N: usize> {
    /// Goal metadata.
    pub goal: PlanGoal<'a>,
    /// Plan status.
    pub status: PlanStatus,
    steps: Vec<PlanStep<'a>>,
}

impl<'a, const N: usize> Clone for Plan<'a, N> {
    /// A copy with the same goal, status and steps.
    fn clone(&self) -> (copy: Self)
        ensures
            copy@ == self@,
            copy.goal_view() == self.goal_view(),
            copy.status_view() == self.status_view(),
    {
        let steps = self.steps.clone();
        assert(steps@ =~= self.steps@);
        Plan { goal: self.goal, status: self.status, steps }
    }
}

impl<'a, const N: usize> View for Plan<'a, N> {
    type V = Seq<PlanStep<'a>>;

    closed spec fn view(&self) -> Seq<PlanStep<'a>> {
        self.steps@
    }
}

impl<'a, const N: usize> Plan<'a, N> {
    /// The plan's goal.
    pub closed spec fn goal_view(&self) -> PlanGoal<'a> {
        self.goal
    }

    /// The plan's status.
    pub closed spec fn status_view(&self) -> PlanStatus {
        self.status
    }

    /// Returns the plan's goal.
    pub fn goal(&self) -> (goal: PlanGoal<'a>)
        ensures
            goal == self.goal_view(),
    {
        self.goal
    }

    /// Returns the plan's status.
    pub fn status(&self) -> (status: PlanStatus)
        ensures
            status == self.status_view(),
    {
        self.status
    }

    /// The plan holds at most `N` steps, each valid, with distinct ids.
    pub open spec fn wf(&self) -> bool {
        &&& self@.len() <= N
        &&& forall|i: int| 0 <= i < self@.len() ==> (#[trigger] self@[i]).validate() is Ok
        &&& distinct_step_ids(self@)
    }

    /// Creates an empty draft plan.
    pub fn new(goal: PlanGoal<'a>) -> (plan: Self)
        ensures
            plan.wf(),
            plan@ == Seq::<PlanStep<'a>>::empty(),
            plan.goal_view() == goal,
            plan.status_view() == PlanStatus::Draft,
    {
        Plan { goal, status: PlanStatus::Draft, steps: Vec::new() }
    }

    /// Returns number of steps.
    pub fn len(&self) -> (n: usize)
        ensures
            n == self@.len(),
    {
        self.steps.len()
    }

    /// Returns `true` when the plan has no steps.
    pub fn is_empty(&self) -> (empty: bool)
        ensures
            empty == (self@.len() == 0),
    {
        self.steps.len() == 0
    }

    /// Adds a validated step, then recomputes the status.
    pub fn push(&mut self, step: PlanStep<'a>) -> (r: CognitionResult<()>)
        requires
            old(self).wf(),
        ensures
            final(self).wf(),
            final(self).goal_view() == old(self).goal_view(),
            r == push_outcome(old(self)@, N as nat, step),
            r is Ok ==> final(self)@ == old(self)@.push(step)
                && final(self).status_view() == status_for(final(self)@),
            r is Err ==> final(self)@ == old(self)@ && final(self).status_view() == old(self).status_view(),
    {
        step.validate()?;
        if self.steps.len() == N {
            return Err(CognitionError::CapacityExceeded);
        }
        if self.find_step(step.step_id).is_some() {
            return Err(CognitionError::DuplicatePlanStep);
        }
        self.steps.push(step);
        proof {
            assert(self@ == old(self)@.push(step));
            assert(forall|i: int| 0 <= i < old(self)@.len() ==> (#[trigger] old(self)@[i]).step_id != step.step_id);
        }
        self.refresh_status();
        Ok(())
    }

    /// Returns `true` when any step requires authorization.
    pub fn requires_authorization(&self) -> (r: bool)
        ensures
            r == any_requires_authorization(self@),
    {
        let mut index: usize = 0;
        while index < self.steps.len()
            invariant
                index <= self@.len(),
                forall|j: int| 0 <= j < index ==> !(#[trigger] self@[j]).requires_authorization,
            decreases self@.len() - index,
        {
            if self.steps[index].requires_authorization {
                return true;
            }
            index += 1;
        }
        false
    }

    /// Finds a step by id.
    pub fn find_step(&self, step_id: u16) -> (found: Option<&PlanStep<'a>>)
        ensures
            found is None <==> !has_step_id(self@, step_id),
            found matches Some(s) ==> exists|i: int|
                0 <= i < self@.len() && *s == self@[i] && s.step_id == step_id
                    && forall|j: int| 0 <= j < i ==> (#[trigger] self@[j]).step_id != step_id,
    {
        let mut index: usize = 0;
        while index < self.steps.len()
            invariant
                index <= self@.len(),
                forall|j: int| 0 <= j < index ==> (#[trigger] self@[j]).step_id != step_id,
            decreases self@.len() - index,
        {
            if self.steps[index].step_id == step_id {
                return Some(&self.steps[index]);
            }
            index += 1;
        }
        None
    }

    /// Returns a step by zero-based index.
    pub fn step(&self, index: usize) -> (s: Option<&PlanStep<'a>>)
        ensures
            index < self@.len() ==> s == Some(&self@[index as int]),
            index >= self@.len() ==> s is None,
    {
        if index < self.steps.len() {
            Some(&self.steps[index])
        } else {
            None
        }
    }

    /// The plan steps, in the order they were added.
    pub fn iter(&self) -> (steps: &[PlanStep<'a>])
        ensures
            steps@ == self@,
    {
        self.steps.as_slice()
    }

    /// Validates the goal and all steps; a plan without steps is invalid.
    pub fn validate(&self) -> (r: CognitionResult<()>)
        requires
            self.wf(),
        ensures
            r == (if self.goal_view().validate() is Err {
                self.goal_view().validate()
            } else if self@.len() == 0 {
                Err(CognitionError::InvalidPlan)
            } else {
                Ok(())
            }),
    {
        self.goal.validate()?;
        if self.steps.len() == 0 {
            return Err(CognitionError::InvalidPlan);
        }
        let mut index: usize = 0;
        while index < self.steps.len()
            invariant
                self.wf(),
                index <= self@.len(),
            decreases self@.len() - index,
        {
            self.steps[index].validate()?;
            index += 1;
        }
        Ok(())
    }

    fn refresh_status(&mut self)
        ensures
            final(self).status_view() == status_for(old(self)@),
            final(self)@ == old(self)@,
            final(self).goal_view() == old(self).goal_view(),
    {
        self.status = if self.requires_authorization() {
            PlanStatus::NeedsAuthorization
        } else {
            PlanStatus::Ready
        };
    }
}

/// Deterministic host-mode planner.
#[derive(Clone, Copy, Debug, PartialEq, Eq, Structural)]
pub struct DeterministicPlanner {
    /// Planner configuration.
    pub config: PlannerConfig,
}

/// The first planned step: normalize the goal input.
pub open spec fn normalize_step() -> PlanStep<'static> {
    PlanStep {
        step_id: 1,
        kind: PlanStepKind::NormalizeInput,
        description: "normalize goal input",
        resource: "cognition:input",
        requires_authorization: false,
        estimated_compute_units: 0,
    }
}

/// The second planned step: retrieve context from the goal's memory scope.
pub open spec fn retrieve_step<'a>(goal: PlanGoal<'a>) -> PlanStep<'a> {
    PlanStep {
        step_id: 2,
        kind: PlanStepKind::RetrieveContext,
        description: "retrieve scoped memory context",
        resource: goal.memory_scope,
        requires_authorization: false,
        estimated_compute_units: 1,
    }
}

/// The third planned step: run bounded model inference.
pub open spec fn inference_step() -> PlanStep<'static> {
    PlanStep {
        step_id: 3,
        kind: PlanStepKind::RunInference,
        description: "run bounded model inference",
        resource: "model:selected",
        requires_authorization: false,
        estimated_compute_units: 10,
    }
}

/// The optional fourth planned step: emit audit evidence.
pub open spec fn evidence_step() -> PlanStep<'static> {
    PlanStep {
        step_id: 4,
        kind: PlanStepKind::EmitEvidence,
        description: "emit traceable audit evidence",
        resource: "audit:cognition",
        requires_authorization: false,
        estimated_compute_units: 0,
    }
}

/// The steps the deterministic planner emits for `goal`: normalize input,
/// retrieve context from the goal's memory scope, run inference, and, when
/// the config asks for it, emit evidence.
pub open spec fn planned_steps<'a>(config: PlannerConfig, goal: PlanGoal<'a>) -> Seq<PlanStep<'a>> {
    let base = seq![normalize_step(), retrieve_step(goal), inference_step()];
    if config.emit_evidence {
        base.push(evidence_step())
    } else {
        base
    }
}

/// What planning `goal` with `config` into a plan of capacity `capacity`
/// answers: a config error, then a goal error, then `CapacityExceeded` when
/// the capacity is zero or below the configured maximum, or when the
/// configured maximum is below the number of steps the planner emits.
pub open spec fn plan_outcome(config: PlannerConfig, goal: PlanGoal<'_>, capacity: nat) -> CognitionResult<()> {
    if config.validate() is Err {
        config.validate()
    } else if goal.validate() is Err {
        goal.validate()
    } else if capacity == 0 || config.max_steps > capacity || config.max_steps < planned_steps(config, goal).len() {
        Err(CognitionError::CapacityExceeded)
    } else {
        Ok(())
    }
}

/// For a valid goal, every planned step is valid and needs no authorization.
proof fn lemma_planned_steps_valid(goal: PlanGoal<'_>)
    requires
        goal.validate() is Ok,
    ensures
        normalize_step().validate() is Ok,
        retrieve_step(goal).validate() is Ok,
        inference_step().validate() is Ok,
        evidence_step().validate() is Ok,
{
    reveal_strlit("normalize goal input");
    assert(is_ascii("normalize goal input"));
    reveal_strlit("cognition:input");
    assert(is_ascii("cognition:input"));
    reveal_strlit("retrieve scoped memory context");
    assert(is_ascii("retrieve scoped memory context"));
    reveal_strlit("run bounded model inference");
    assert(is_ascii("run bounded model inference"));
    reveal_strlit("model:selected");
    assert(is_ascii("model:selected"));
    reveal_strlit("emit traceable audit evidence");
    assert(is_ascii("emit traceable audit evidence"));
    reveal_strlit("audit:cognition");
    assert(is_ascii("audit:cognition"));
}

impl DeterministicPlanner {
    /// Creates a deterministic planner.
    pub fn new(config: PlannerConfig) -> (planner: Self)
        ensures
            planner.config == config,
    {
        DeterministicPlanner { config }
    }

    /// Creates a bounded plan for a goal, with no more steps than the
    /// configured maximum.
    pub fn plan<'a, const N: usize>(&self, goal: PlanGoal<'a>) -> (r: CognitionResult<Plan<'a, N>>)
        ensures
            r is Ok <==> plan_outcome(self.config, goal, N as nat) is Ok,
            r matches Err(e) ==> plan_outcome(self.config, goal, N as nat) == Err::<(), CognitionError>(e),
            r matches Ok(plan) ==> plan.wf() && plan.goal_view() == goal
                && plan@ == planned_steps(self.config, goal)
                && plan@.len() <= self.config.max_steps
                && plan.status_view() == PlanStatus::Ready,
    {
        self.config.validate()?;
        goal.validate()?;
        let step_count: usize = if self.config.emit_evidence { 4 } else { 3 };
        if N == 0 || self.config.max_steps > N || self.config.max_steps < step_count {
            return Err(CognitionError::CapacityExceeded);
        }
        proof {
            lemma_planned_steps_valid(goal);
        }
        let ghost steps = planned_steps(self.config, goal);
        let mut plan: Plan<'a, N> = Plan::new(goal);
        plan.push(PlanStep::new(1, PlanStepKind::NormalizeInput, "normalize goal input", "cognition:input"))?;
        assert(plan@ =~= steps.take(1));
        plan.push(
            PlanStep::new(2, PlanStepKind::RetrieveContext, "retrieve scoped memory context", goal.memory_scope)
                .with_compute_units(1),
        )?;
        assert(plan@ =~= steps.take(2));
        plan.push(
            PlanStep::new(3, PlanStepKind::RunInference, "run bounded model inference", "model:selected")
                .with_compute_units(10),
        )?;
        assert(plan@ =~= steps.take(3));
        if self.config.emit_evidence {
            plan.push(PlanStep::new(4, PlanStepKind::EmitEvidence, "emit traceable audit evidence", "audit:cognition"))?;
        }
        assert(plan@ =~= steps);
        Ok(plan)
    }
}

impl Default for DeterministicPlanner {
    /// A planner with the default host-mode config.
    fn default() -> (planner: Self)
        ensures
            planner.config == (PlannerConfig {
                max_steps: DEFAULT_MAX_PLAN_STEPS,
                require_authorization_for_tools: true,
                emit_evidence: true,
            }),
    {
        DeterministicPlanner::new(PlannerConfig::default())
    }
}

/// A plan's status after a step is added needs authorization exactly when
/// some step does; once it does, adding further steps keeps it so.
pub proof fn status_tracks_authorization(steps: Seq<PlanStep<'_>>, step: PlanStep<'_>)
    ensures
        step.requires_authorization ==> status_for(steps.push(step)) == PlanStatus::NeedsAuthorization,
        status_for(steps) == PlanStatus::NeedsAuthorization
            ==> status_for(steps.push(step)) == PlanStatus::NeedsAuthorization,
        !step.requires_authorization ==> status_for(steps.push(step)) == status_for(steps),
{
    let after = steps.push(step);
    if step.requires_authorization {
        assert(after[steps.len() as int] == step);
    }
    if any_requires_authorization(steps) {
        let i = choose|i: int| 0 <= i < steps.len() && (#[trigger] steps[i]).requires_authorization;
        assert(after[i] == steps[i]);
    }
    if !step.requires_authorization && any_requires_authorization(after) {
        let i = choose|i: int| 0 <= i < after.len() && (#[trigger] after[i]).requires_authorization;
        assert(i < steps.len());
        assert(after[i] == steps[i]);
    }
}

/// Adding a step whose identifier is already taken is refused, and a step
/// that was accepted cannot be accepted again.
pub proof fn duplicate_step_refused(steps: Seq<PlanStep<'_>>, capacity: nat, step: PlanStep<'_>)
    requires
        push_outcome(steps, capacity, step) is Ok,
    ensures
        push_outcome(steps.push(step), capacity, step) is Err,
{
    assert(steps.push(step)[steps.len() as int] == step);
}

/// Whenever the planner can plan a goal, the steps it emits are valid, have
/// distinct identifiers, need no authorization, number four with evidence
/// or three without, and are no more than the configured maximum; they are
/// numbered from one and run normalize, retrieve from the goal's memory
/// scope, inference, then evidence; so the plan it returns validates and is
/// ready.
pub proof fn planned_steps_are_sound(config: PlannerConfig, goal: PlanGoal<'_>, capacity: nat)
    requires
        plan_outcome(config, goal, capacity) is Ok,
    ensures
        goal.validate() is Ok,
        planned_steps(config, goal).len() == (if config.emit_evidence { 4nat } else { 3nat }),
        planned_steps(config, goal).len() <= config.max_steps,
        planned_steps(config, goal).len() <= capacity,
        forall|i: int| 0 <= i < planned_steps(config, goal).len()
            ==> (#[trigger] planned_steps(config, goal)[i]).validate() is Ok,
        distinct_step_ids(planned_steps(config, goal)),
        !any_requires_authorization(planned_steps(config, goal)),
        status_for(planned_steps(config, goal)) == PlanStatus::Ready,
        planned_steps(config, goal)[0].kind == PlanStepKind::NormalizeInput,
        planned_steps(config, goal)[1].kind == PlanStepKind::RetrieveContext,
        planned_steps(config, goal)[1].resource@ == goal.memory_scope@,
        planned_steps(config, goal)[2].kind == PlanStepKind::RunInference,
        config.emit_evidence ==> planned_steps(config, goal)[3].kind == PlanStepKind::EmitEvidence,
        forall|i: int| 0 <= i < planned_steps(config, goal).len()
            ==> (#[trigger] planned_steps(config, goal)[i]).step_id as int == i + 1,
{
    lemma_planned_steps_valid(goal);
    let steps = planned_steps(config, goal);
    assert(steps[0] == normalize_step());
    assert(steps[1] == retrieve_step(goal));
    assert(steps[2] == inference_step());
    if config.emit_evidence {
        assert(steps[3] == evidence_step());
    }
}

/// Planner component descriptor.
#[derive(Clone, Debug, PartialEq, Eq)]
pub struct PlannerDescriptor<'a> {
    /// Component name.
    pub name: &'a str,
    /// Component version marker.
    pub version: u32,
}

impl<'a> PlannerDescriptor<'a> {
    /// Creates a planner component descriptor.
    pub fn new(name: &'a str, version: u32) -> (descriptor: Self)
        ensures
            descriptor == (PlannerDescriptor { name, version }),
    {
        PlannerDescriptor { name, version }
    }
}

} // verus!
