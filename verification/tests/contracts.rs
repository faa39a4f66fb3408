use alani_cognition::text::same_text;
use alani_cognition::{
    BudgetUsage, CognitionEngine, CognitionError, CognitiveContext, DataClass,
    DeterministicPlanner, EngineDescriptor, EvidenceBundle, InferenceBudget, InferenceRequest,
    InferenceResult, InferenceStatus, KnowledgeRecord, KnowledgeRecordKind, KnowledgeStore,
    MockCognitionEngine, ModelCapabilities, ModelDescriptor, ModelKind, ModelRef, ModelRegistry,
    ModelSelection, ModelState, Plan, PlanGoal, PlanPriority, PlanStatus, PlanStep, PlanStepKind,
    PlannerConfig, PlannerDescriptor, PolicyDecision, Provenance, RedactionState,
    RetrievalDescriptor, RetrievalHit, RetrievalQuery, RetrievalResult, TraceContext,
    KNOWN_MODEL_CAPABILITIES, MODEL_CAP_EMBED, MODEL_CAP_INFER, MODEL_CAP_PLAN,
    REQUEST_FLAG_ALLOW_RETRIEVAL, REQUEST_FLAG_CANCELLED,
};

fn loaded_model(id: &str) -> ModelRef<'_> {
    ModelRef::new(id, "Model", "1", ModelKind::Language, ModelCapabilities::rag())
        .with_limits(1024, 128)
        .with_state(ModelState::Loaded)
}

fn context() -> CognitiveContext<'static> {
    CognitiveContext::new("agent", "session", "policy").with_time(100)
}

fn budget() -> InferenceBudget {
    InferenceBudget::bounded(64, 100, 1_000_000, 10_000)
}

fn provenance() -> Provenance<'static> {
    Provenance::new("source", "license", [0; 32])
}

fn record(id: u64, namespace: &'static str, kind: KnowledgeRecordKind) -> KnowledgeRecord<'static> {
    KnowledgeRecord::new(id, namespace, "key", "text", kind, provenance())
}

#[test]
fn labels_are_stable() {
    assert_eq!(CognitionError::MissingField.reason(), "missing_field");
    assert_eq!(CognitionError::DuplicatePlanStep.reason(), "duplicate_plan_step");
    assert_eq!(CognitionError::Internal.reason(), "internal");
    assert_eq!(DataClass::Operational.label(), "operational");
    assert_eq!(RedactionState::UnredactedSensitive.label(), "unredacted_sensitive");
    assert_eq!(ModelKind::Reranker.label(), "reranker");
    assert_eq!(ModelState::Unavailable.label(), "unavailable");
    assert_eq!(PolicyDecision::NeedsAuthorization.label(), "needs_authorization");
    assert_eq!(InferenceStatus::DeadlineExceeded.label(), "deadline_exceeded");
    assert_eq!(PlanPriority::Urgent.label(), "urgent");
    assert_eq!(PlanStepKind::EmitEvidence.label(), "emit_evidence");
    assert_eq!(PlanStatus::Draft.label(), "draft");
    assert_eq!(KnowledgeRecordKind::CorpusExample.label(), "corpus_example");
}

#[test]
fn numeric_codes_are_stable() {
    assert_eq!(DataClass::Public.code(), 0);
    assert_eq!(DataClass::Secret.code(), 3);
    assert_eq!(RedactionState::UnredactedSensitive.code(), 4);
    assert_eq!(PolicyDecision::Allow.code(), 1);
    assert_eq!(PolicyDecision::NeedsAuthorization.code(), 3);
    assert_eq!(InferenceStatus::Completed.code(), 1);
    assert_eq!(InferenceStatus::DeadlineExceeded.code(), 5);
    assert_eq!(ModelKind::Mock.code(), 1);
    assert_eq!(ModelKind::Memory.code(), 6);
    assert_eq!(ModelState::Registered.code(), 1);
    assert_eq!(ModelState::Unavailable.code(), 4);
    assert_eq!(PlanPriority::Low.code(), 1);
    assert_eq!(PlanPriority::Urgent.code(), 3);
    assert_eq!(PlanStepKind::NormalizeInput.code(), 1);
    assert_eq!(PlanStepKind::Complete.code(), 6);
    assert_eq!(PlanStatus::Draft.code(), 1);
    assert_eq!(PlanStatus::Denied.code(), 4);
    assert_eq!(KnowledgeRecordKind::Fact.code(), 1);
    assert_eq!(KnowledgeRecordKind::CorpusExample.code(), 4);
}

#[test]
fn security_relevance_and_redaction() {
    assert!(CognitionError::ReservedBits.is_security_relevant());
    assert!(CognitionError::AccessDenied.is_security_relevant());
    assert!(!CognitionError::MissingField.is_security_relevant());
    assert!(!CognitionError::DuplicateModel.is_security_relevant());
    assert!(DataClass::Secret.requires_redaction());
    assert!(!DataClass::Operational.requires_redaction());
    assert!(!DataClass::Public.requires_redaction());
}

#[test]
fn trace_validation() {
    assert_eq!(TraceContext::new(1, 0).validate(), Err(CognitionError::InvalidTrace));
    assert_eq!(TraceContext::new(0, 5).validate(), Err(CognitionError::InvalidTrace));
    assert_eq!(TraceContext::empty().validate(), Ok(()));
    assert!(!TraceContext::empty().is_present());
    assert!(TraceContext::new(3, 4).is_present());
    assert_eq!(TraceContext::new(3, 4).validate(), Ok(()));
}

#[test]
fn budget_validation_and_fit() {
    assert_eq!(budget().validate(), Ok(()));
    assert!(budget().deterministic());
    assert_eq!(budget().with_flags(4).validate(), Err(CognitionError::ReservedBits));
    assert_eq!(InferenceBudget::unbounded().validate(), Err(CognitionError::InvalidBudget));
    assert!(!InferenceBudget::unbounded().deterministic());
    assert!(InferenceBudget::bounded(0, 0, 0, 1).is_bounded());
    let usage = BudgetUsage::new(10, 10, 10, 0);
    assert!(usage.fits(InferenceBudget::bounded(0, 0, 0, 1)));
    assert!(usage.fits(InferenceBudget::bounded(10, 10, 10, 0)));
    assert!(!usage.fits(InferenceBudget::bounded(9, 0, 0, 0)));
    assert!(!usage.fits(InferenceBudget::bounded(0, 0, 9, 0)));
}

#[test]
fn context_validation() {
    assert_eq!(context().validate(), Ok(()));
    assert_eq!(context().memory_scope, "default");
    assert!(context().requires_authorization);
    assert_eq!(context().with_memory_scope("").validate(), Err(CognitionError::MissingField));
    let long = "x".repeat(129);
    assert_eq!(
        CognitiveContext::new(&long, "s", "p").validate(),
        Err(CognitionError::FieldTooLong)
    );
    assert_eq!(
        context().with_trace(TraceContext::new(0, 1)).validate(),
        Err(CognitionError::InvalidTrace)
    );
    assert_eq!(context().with_data_class(DataClass::Secret).data_class, DataClass::Secret);
}

#[test]
fn byte_length_limits_count_utf8_bytes() {
    // 50 characters, 100 bytes: over the 96-byte identifier limit.
    let id = "é".repeat(50);
    let model = loaded_model(&id);
    assert_eq!(model.validate(), Err(CognitionError::FieldTooLong));
    let short = "é".repeat(48);
    assert_eq!(loaded_model(&short).validate(), Ok(()));
}

#[test]
fn text_comparison_is_exact() {
    assert!(same_text("demo", "demo"));
    assert!(!same_text("demo", "demos"));
    assert!(!same_text("é", "e"));
    assert!(same_text("", ""));
}

#[test]
fn evidence_validation() {
    let evidence = EvidenceBundle::new(7, "m", TraceContext::empty())
        .with_retrieval_hits(3)
        .with_plan_steps(2)
        .with_audit_event(99)
        .with_policy_decision(PolicyDecision::Deny)
        .with_redaction(RedactionState::SecretRedacted);
    assert_eq!(evidence.validate(), Ok(()));
    assert_eq!(evidence.retrieval_hits, 3);
    assert_eq!(evidence.plan_steps, 2);
    assert_eq!(evidence.audit_event_id, 99);
    assert_eq!(evidence.policy_decision, PolicyDecision::Deny);
    assert_eq!(EvidenceBundle::new(0, "m", TraceContext::empty()).validate(), Err(CognitionError::MissingField));
    assert_eq!(EvidenceBundle::new(1, "", TraceContext::empty()).validate(), Err(CognitionError::MissingField));
    assert_eq!(EvidenceBundle::new(1, "m", TraceContext::new(1, 0)).validate(), Err(CognitionError::InvalidTrace));
}

#[test]
fn request_validation_reports_each_error_in_order() {
    let model = loaded_model("m");
    let ok = InferenceRequest::new(1, model, "prompt", budget(), context());
    assert_eq!(ok.validate(), Ok(()));
    assert_eq!(InferenceRequest::new(0, model, "p", budget(), context()).validate(), Err(CognitionError::MissingField));
    assert_eq!(InferenceRequest::new(1, model, "", budget(), context()).validate(), Err(CognitionError::MissingField));
    let long = "p".repeat(4097);
    assert_eq!(InferenceRequest::new(1, model, &long, budget(), context()).validate(), Err(CognitionError::FieldTooLong));
    assert_eq!(ok.with_flags(4).validate(), Err(CognitionError::ReservedBits));
    assert_eq!(ok.with_retrieval_limit(17).validate(), Err(CognitionError::InvalidRequest));
    assert_eq!(ok.with_retrieval_limit(16).validate(), Ok(()));
    let unloaded = model.with_state(ModelState::Registered);
    assert_eq!(InferenceRequest::new(1, unloaded, "p", budget(), context()).validate(), Err(CognitionError::ModelUnavailable));
    let unlimited = model.with_limits(0, 0);
    assert_eq!(InferenceRequest::new(1, unlimited, "p", budget(), context()).validate(), Err(CognitionError::InvalidModel));
    assert_eq!(
        InferenceRequest::new(1, model, "p", InferenceBudget::unbounded(), context()).validate(),
        Err(CognitionError::InvalidBudget)
    );
    assert_eq!(
        InferenceRequest::new(1, model, "p", budget(), context().with_memory_scope("")).validate(),
        Err(CognitionError::MissingField)
    );
}

#[test]
fn retrieval_limit_sets_flag_and_keeps_cancellation() {
    let model = loaded_model("m");
    let request = InferenceRequest::new(1, model, "p", budget(), context());
    let with_retrieval = request.with_retrieval_limit(3);
    assert_eq!(with_retrieval.flags, REQUEST_FLAG_ALLOW_RETRIEVAL);
    assert_eq!(with_retrieval.retrieval_limit, 3);
    assert!(!with_retrieval.is_cancelled());
    let cancelled = request.with_flags(REQUEST_FLAG_CANCELLED).with_retrieval_limit(3);
    assert!(cancelled.is_cancelled());
    assert_eq!(cancelled.flags, REQUEST_FLAG_CANCELLED | REQUEST_FLAG_ALLOW_RETRIEVAL);
}

#[test]
fn result_validation() {
    let evidence = EvidenceBundle::new(5, "m", TraceContext::empty());
    let usage = BudgetUsage::default();
    let ok = InferenceResult::new(5, "m", InferenceStatus::Completed, "out", usage, evidence);
    assert_eq!(ok.validate(), Ok(()));
    assert_eq!(
        InferenceResult::new(5, "m", InferenceStatus::Completed, "", usage, evidence).validate(),
        Err(CognitionError::MissingField)
    );
    assert_eq!(
        InferenceResult::new(5, "m", InferenceStatus::Denied, "", usage, evidence).validate(),
        Ok(())
    );
    let long = "o".repeat(4097);
    assert_eq!(
        InferenceResult::new(5, "m", InferenceStatus::Denied, &long, usage, evidence).validate(),
        Err(CognitionError::FieldTooLong)
    );
    assert_eq!(
        InferenceResult::new(6, "m", InferenceStatus::Completed, "out", usage, evidence).validate(),
        Err(CognitionError::InvalidEvidence)
    );
}

#[test]
fn mock_engine_results_validate_and_fit_budget() {
    let model = loaded_model("m");
    let request = InferenceRequest::new(9, model, "p", budget(), context().with_trace(TraceContext::new(1, 2)));
    let engine = MockCognitionEngine::new("answer", 5, 20);
    let result = engine.infer(request).unwrap();
    assert_eq!(result.validate(), Ok(()));
    assert!(result.usage.fits(request.budget));
    assert_eq!(result.usage, BudgetUsage::new(5, 20, 1024, 1_000));
    assert_eq!(result.evidence.request_id, 9);
    assert_eq!(result.evidence.trace, TraceContext::new(1, 2));
    assert_eq!(result.evidence.retrieval_hits, 0);
    assert_eq!(result.status, InferenceStatus::Completed);

    // The deadline equal to the context time has not passed yet.
    let at_deadline = InferenceRequest::new(9, model, "p", InferenceBudget::bounded(64, 100, 0, 100), context());
    assert!(engine.infer(at_deadline).is_ok());
    // Validation errors come before cancellation.
    let invalid = request.with_flags(REQUEST_FLAG_CANCELLED | 8);
    assert_eq!(engine.infer(invalid), Err(CognitionError::ReservedBits));
    // An engine with an empty output completes, but its result fails validation.
    let silent = MockCognitionEngine::new("", 1, 1);
    let silent_result = silent.infer(request).unwrap();
    assert_eq!(silent_result.validate(), Err(CognitionError::MissingField));
    assert_eq!(EngineDescriptor::new("engine", 2).version, 2);
}

#[test]
fn capabilities_laws_on_values() {
    let a = ModelCapabilities::from_bits(MODEL_CAP_INFER | MODEL_CAP_EMBED).unwrap();
    let b = ModelCapabilities(MODEL_CAP_PLAN);
    assert!(a.union(b).contains(a));
    assert!(a.union(b).contains(b));
    assert!(!a.contains(b));
    assert!(a.contains(a));
    assert_eq!(ModelCapabilities::from_bits(a.bits()), Ok(a));
    assert!(ModelCapabilities::all().contains(a));
    assert_eq!(ModelCapabilities::all().bits(), KNOWN_MODEL_CAPABILITIES);
    assert_eq!(ModelCapabilities::empty().bits(), 0);
    assert!(ModelCapabilities::planner().contains(ModelCapabilities::infer()));
    assert_eq!(ModelCapabilities::from_bits(1 << 6), Err(CognitionError::ReservedBits));
}

#[test]
fn model_validation_errors() {
    assert_eq!(loaded_model("m").validate(), Ok(()));
    assert_eq!(loaded_model("m").with_limits(1, 0).validate(), Err(CognitionError::InvalidModel));
    let reserved = ModelRef::new("m", "n", "r", ModelKind::Mock, ModelCapabilities(1 << 40)).with_limits(1, 1);
    assert_eq!(reserved.validate(), Err(CognitionError::ReservedBits));
    let long_revision = "r".repeat(65);
    let model = ModelRef::new("m", "n", &long_revision, ModelKind::Mock, ModelCapabilities::infer()).with_limits(1, 1);
    assert_eq!(model.validate(), Err(CognitionError::FieldTooLong));
    assert!(!loaded_model("m").with_state(ModelState::Unloaded).can_infer());
    assert_eq!(loaded_model("m").with_data_class(DataClass::Public).data_class, DataClass::Public);
    assert_eq!(ModelDescriptor::new("model", 1).name, "model");
}

#[test]
fn selection_matching() {
    let model = loaded_model("m");
    assert!(ModelSelection::inference().matches(model));
    assert!(!ModelSelection::planner().matches(model));
    let planner_model = ModelRef::new("p", "P", "1", ModelKind::Planner, ModelCapabilities::planner())
        .with_limits(10, 10)
        .with_state(ModelState::Loaded);
    assert!(ModelSelection::planner().matches(planner_model));
    assert!(!ModelSelection::inference().with_limits(11, 1).matches(planner_model));
    assert!(!ModelSelection::inference().matches(planner_model.with_state(ModelState::Registered)));
}

#[test]
fn registry_finds_what_it_registered_and_respects_capacity() {
    let mut registry = ModelRegistry::<2>::default();
    assert!(registry.is_empty());
    assert_eq!(registry.register(loaded_model("a")), Ok(()));
    assert_eq!(registry.find("a").unwrap().id, "a");
    assert!(registry.find("b").is_none());
    assert_eq!(registry.register(loaded_model("b")), Ok(()));
    assert_eq!(registry.register(loaded_model("c")), Err(CognitionError::CapacityExceeded));
    assert_eq!(registry.len(), 2);
    assert_eq!(registry.model(1).unwrap().id, "b");
    assert!(registry.model(2).is_none());
    assert_eq!(registry.iter().len(), 2);
    let invalid = loaded_model("");
    assert_eq!(registry.register(invalid), Err(CognitionError::MissingField));
    assert_eq!(registry.set_state("b", ModelState::Unavailable), Ok(()));
    assert_eq!(registry.find("b").unwrap().state, ModelState::Unavailable);
    assert_eq!(registry.find("a").unwrap().state, ModelState::Loaded);
    assert_eq!(registry.select(ModelSelection::inference()).unwrap().id, "a");
    let copy = registry.clone();
    assert_eq!(copy, registry);
    assert_eq!(copy.find("b").unwrap().state, ModelState::Unavailable);
}

#[test]
fn plan_push_tracks_status_and_capacity() {
    let goal = PlanGoal::new(1, "agent", "goal", "policy", budget());
    let mut plan = Plan::<2>::new(goal);
    assert_eq!(plan.status, PlanStatus::Draft);
    assert!(plan.is_empty());
    assert_eq!(plan.validate(), Err(CognitionError::InvalidPlan));
    assert_eq!(plan.push(PlanStep::new(0, PlanStepKind::Complete, "d", "r")), Err(CognitionError::MissingField));
    let long = "d".repeat(257);
    assert_eq!(plan.push(PlanStep::new(1, PlanStepKind::Complete, &long, "r")), Err(CognitionError::FieldTooLong));
    assert_eq!(plan.push(PlanStep::new(1, PlanStepKind::ToolCall, "d", "r").with_authorization(true)), Ok(()));
    assert_eq!(plan.status, PlanStatus::NeedsAuthorization);
    assert_eq!(plan.push(PlanStep::new(2, PlanStepKind::Complete, "d", "r").with_compute_units(3)), Ok(()));
    assert_eq!(plan.status, PlanStatus::NeedsAuthorization);
    assert_eq!(plan.push(PlanStep::new(3, PlanStepKind::Complete, "d", "r")), Err(CognitionError::CapacityExceeded));
    assert_eq!(plan.find_step(2).unwrap().estimated_compute_units, 3);
    assert!(plan.find_step(3).is_none());
    assert!(plan.step(2).is_none());
    assert_eq!(plan.iter().len(), 2);
    assert_eq!(plan.validate(), Ok(()));

    let mut ready = Plan::<2>::new(goal);
    assert_eq!(ready.push(PlanStep::new(1, PlanStepKind::Complete, "d", "r")), Ok(()));
    assert_eq!(ready.status, PlanStatus::Ready);
    assert!(!ready.requires_authorization());
}

#[test]
fn planner_outcomes() {
    let goal = PlanGoal::new(1, "agent", "goal", "policy", budget())
        .with_priority(PlanPriority::Urgent)
        .with_data_class(DataClass::Public);
    assert_eq!(goal.validate(), Ok(()));
    let no_evidence = DeterministicPlanner::new(PlannerConfig {
        max_steps: 3,
        require_authorization_for_tools: false,
        emit_evidence: false,
    });
    let plan = no_evidence.plan::<3>(goal).unwrap();
    assert_eq!(plan.len(), 3);
    assert_eq!(plan.step(1).unwrap().resource, "default");
    assert_eq!(plan.step(2).unwrap().estimated_compute_units, 10);
    assert_eq!(plan.status, PlanStatus::Ready);
    assert_eq!(plan.validate(), Ok(()));
    // Capacity below the steps the planner emits.
    let small = DeterministicPlanner::new(PlannerConfig {
        max_steps: 1,
        require_authorization_for_tools: false,
        emit_evidence: false,
    });
    assert_eq!(small.plan::<2>(goal), Err(CognitionError::CapacityExceeded));
    assert_eq!(small.plan::<0>(goal), Err(CognitionError::CapacityExceeded));
    let zero = DeterministicPlanner::new(PlannerConfig {
        max_steps: 0,
        require_authorization_for_tools: false,
        emit_evidence: false,
    });
    assert_eq!(zero.plan::<8>(goal), Err(CognitionError::InvalidPlan));
    let bad_goal = goal.with_trace(TraceContext::new(0, 3));
    assert_eq!(DeterministicPlanner::default().plan::<8>(bad_goal), Err(CognitionError::InvalidTrace));
    let long_scope = "s".repeat(129);
    assert_eq!(goal.with_memory_scope(&long_scope).validate(), Err(CognitionError::FieldTooLong));
    // The configured maximum bounds the steps emitted.
    let too_few = DeterministicPlanner::new(PlannerConfig {
        max_steps: 2,
        require_authorization_for_tools: true,
        emit_evidence: true,
    });
    assert_eq!(too_few.plan::<8>(goal), Err(CognitionError::CapacityExceeded));
    let exact = DeterministicPlanner::new(PlannerConfig {
        max_steps: 4,
        require_authorization_for_tools: true,
        emit_evidence: true,
    });
    let four = exact.plan::<8>(goal).unwrap();
    assert_eq!(four.len(), 4);
    assert_eq!(four.goal(), goal);
    assert_eq!(four.status(), PlanStatus::Ready);
    let copy = four.clone();
    assert_eq!(copy, four);
    assert_eq!(PlannerConfig::default().max_steps, 8);
    assert_eq!(PlannerDescriptor::new("planner", 3).version, 3);
}

#[test]
fn store_finds_what_it_stored_and_refuses_duplicates() {
    let mut store = KnowledgeStore::<2>::default();
    assert!(store.is_empty());
    assert_eq!(store.put(record(1, "a", KnowledgeRecordKind::Fact)), Ok(()));
    assert_eq!(store.get(1).unwrap().namespace, "a");
    assert!(store.get(2).is_none());
    assert_eq!(store.put(record(1, "b", KnowledgeRecordKind::Fact)), Err(CognitionError::DuplicateRecord));
    assert_eq!(store.put(record(0, "b", KnowledgeRecordKind::Fact)), Err(CognitionError::MissingField));
    assert_eq!(
        store.put(record(2, "b", KnowledgeRecordKind::Fact).with_confidence(10_001)),
        Err(CognitionError::InvalidRetrieval)
    );
    assert_eq!(store.put(record(2, "b", KnowledgeRecordKind::Fact)), Ok(()));
    assert_eq!(store.put(record(3, "b", KnowledgeRecordKind::Fact)), Err(CognitionError::CapacityExceeded));
    assert_eq!(store.len(), 2);
    assert_eq!(store.iter().len(), 2);
    let copy = store.clone();
    assert_eq!(copy, store);
}

#[test]
fn query_filters_ranks_and_truncates() {
    let mut store = KnowledgeStore::<6>::new();
    assert_eq!(store.put(record(1, "ns", KnowledgeRecordKind::Fact)), Ok(()));
    assert_eq!(store.put(record(2, "other", KnowledgeRecordKind::Fact)), Ok(()));
    assert_eq!(store.put(record(3, "ns", KnowledgeRecordKind::Instruction)), Ok(()));
    assert_eq!(store.put(record(4, "ns", KnowledgeRecordKind::Fact).with_data_class(DataClass::Secret)), Ok(()));
    assert_eq!(store.put(record(5, "ns", KnowledgeRecordKind::CorpusExample).with_confidence(100)), Ok(()));

    let all = store.query::<8>(RetrievalQuery::new("ns", "q").with_top_k(8)).unwrap();
    assert_eq!(all.len(), 3);
    assert_eq!(all.hit(0).unwrap().record.id, 1);
    assert_eq!(all.hit(1).unwrap().record.id, 3);
    assert_eq!(all.hit(2).unwrap().record.id, 5);
    assert_eq!(all.hit(2).unwrap().rank, 3);
    assert_eq!(all.hit(2).unwrap().score_bps, 100);
    assert!(!all.is_truncated());

    let top_one = store.query::<8>(RetrievalQuery::new("ns", "q").with_top_k(1)).unwrap();
    assert_eq!(top_one.len(), 1);
    assert!(top_one.is_truncated());

    let confident = store.query::<8>(RetrievalQuery::new("ns", "q").with_min_confidence(5_000)).unwrap();
    assert_eq!(confident.len(), 2);

    let mut facts_only = RetrievalQuery::new("ns", "q");
    facts_only.include_semantic = false;
    let facts = store.query::<8>(facts_only).unwrap();
    assert_eq!(facts.len(), 1);
    assert_eq!(facts.iter()[0].record.id, 1);

    let secret = store.query::<8>(RetrievalQuery::new("ns", "q").with_top_k(8).with_max_data_class(DataClass::Secret)).unwrap();
    assert_eq!(secret.len(), 4);

    let none = store.query::<0>(RetrievalQuery::new("ns", "q")).unwrap();
    assert!(none.is_empty());
    assert!(none.is_truncated());

    assert_eq!(
        store.query::<8>(RetrievalQuery::new("ns", "q").with_top_k(0)).unwrap_err(),
        CognitionError::InvalidRetrieval
    );
    assert_eq!(
        store.query::<8>(RetrievalQuery::new("ns", "q").with_top_k(17)).unwrap_err(),
        CognitionError::InvalidRetrieval
    );
    let long = "n".repeat(97);
    assert_eq!(
        store.query::<8>(RetrievalQuery::new(&long, "q")).unwrap_err(),
        CognitionError::FieldTooLong
    );
}

#[test]
fn result_push_and_truncation() {
    let mut result = RetrievalResult::<1>::default();
    let rec = record(1, "ns", KnowledgeRecordKind::Fact);
    assert_eq!(result.push(RetrievalHit::new(rec, 100, 0)), Err(CognitionError::InvalidRetrieval));
    assert!(!result.is_truncated());
    assert_eq!(result.push(RetrievalHit::new(rec, 10_001, 1)), Err(CognitionError::InvalidRetrieval));
    assert_eq!(result.push(RetrievalHit::new(rec, 100, 1)), Ok(()));
    assert!(!result.is_truncated());
    assert_eq!(result.push(RetrievalHit::new(rec, 100, 2)), Err(CognitionError::CapacityExceeded));
    assert!(result.is_truncated());
    assert_eq!(result.len(), 1);
    assert!(result.hit(1).is_none());
    let copy = result.clone();
    assert!(copy.is_truncated());
    assert_eq!(copy, result);
    let mut marked = RetrievalResult::<1>::new();
    marked.mark_truncated();
    assert!(marked.is_truncated());
    assert!(marked.is_empty());
}

#[test]
fn provenance_and_record_validation() {
    assert_eq!(provenance().validate(), Ok(()));
    assert_eq!(provenance().with_generation(4).generation, 4);
    assert_eq!(Provenance::new("", "l", [0; 32]).validate(), Err(CognitionError::MissingField));
    let long = "s".repeat(161);
    assert_eq!(Provenance::new(&long, "l", [0; 32]).validate(), Err(CognitionError::FieldTooLong));
    let bad_provenance = KnowledgeRecord::new(1, "ns", "k", "t", KnowledgeRecordKind::Fact, Provenance::new("s", "", [0; 32]));
    assert_eq!(bad_provenance.validate(), Err(CognitionError::MissingField));
    let text = "t".repeat(2049);
    assert_eq!(
        KnowledgeRecord::new(1, "ns", "k", &text, KnowledgeRecordKind::Fact, provenance()).validate(),
        Err(CognitionError::FieldTooLong)
    );
    assert_eq!(record(1, "ns", KnowledgeRecordKind::Fact).with_vector_dimensions(8).vector_dimensions, 8);
    assert_eq!(RetrievalDescriptor::new("retrieval", 4).version, 4);
}

#[test]
fn catalog_validation_errors() {
    let current = alani_cognition::CognitionCatalog::current();
    assert_eq!(current.validate(), Ok(()));
    let mut reserved = current;
    reserved.features |= 1 << 10;
    assert_eq!(reserved.validate(), Err(CognitionError::ReservedBits));
    let mut empty = current;
    empty.version = "";
    assert_eq!(empty.validate(), Err(CognitionError::MissingField));
    let mut zero = current;
    zero.max_prompt_len = 0;
    assert_eq!(zero.validate(), Err(CognitionError::InvalidRequest));
}
