use chalk_solve::clauses::{
    match_ty, match_type_kind, program_clauses_for_goal, program_clauses_that_could_match,
    push_auto_trait_impls,
};
use chalk_solve::could_match::could_match;
use chalk_solve::env::{close_environment, contains_clause, program_clauses_for_env};
use chalk_solve::eq::{domain_goal_eq, program_clause_eq, ty_eq};
use chalk_solve::ir::{
    ApplicationTy, DomainGoal, Environment, ProgramClause, StructId, TraitId, TraitRef, Ty,
    TypeId, TypeKindId, TypeName, WhereClause,
};
use chalk_solve::store::{
    AssocTyEntry, AssociatedTyDatum, DeclarationStore, ImplEntry, StructDatum, StructEntry,
    TraitDatum, TraitEntry,
};

fn struct_name(id: u64) -> TypeName {
    TypeName::TypeKindId(TypeKindId::StructId(StructId(id)))
}

fn app(name: TypeName, parameters: Vec<Ty>) -> Ty {
    Ty::Apply(ApplicationTy { name, parameters })
}

fn implemented(trait_id: u64, ty: Ty) -> DomainGoal {
    DomainGoal::Holds(WhereClause::Implemented(TraitRef {
        trait_id: TraitId(trait_id),
        parameters: vec![ty],
    }))
}

fn empty_store() -> DeclarationStore {
    DeclarationStore { traits: Vec::new(), structs: Vec::new(), assoc_tys: Vec::new(), impls: Vec::new() }
}

/// The auto trait `Send` and the struct `MyList<T>` with fields
/// `data: T` and `next: Box<Option<MyList<T>>>`.
fn send_and_my_list() -> (TraitDatum, StructDatum) {
    let send = TraitDatum {
        binders_count: 1,
        trait_id: TraitId(1),
        auto: true,
        clauses: Vec::new(),
    };
    let t_var = Ty::BoundVar(0);
    let my_list_of_t = app(struct_name(10), vec![Ty::BoundVar(0)]);
    let option_of = app(struct_name(12), vec![my_list_of_t]);
    let box_of = app(struct_name(11), vec![option_of]);
    let my_list = StructDatum {
        binders_count: 1,
        self_ty: ApplicationTy { name: struct_name(10), parameters: vec![Ty::BoundVar(0)] },
        fields: vec![t_var, box_of],
        clauses: Vec::new(),
    };
    (send, my_list)
}

#[test]
fn auto_impl_for_my_list_has_one_condition_per_field() {
    let (send, my_list) = send_and_my_list();
    let store = empty_store();
    let mut out: Vec<ProgramClause> = Vec::new();
    push_auto_trait_impls(TraitId(1), &send, StructId(10), &my_list, &store, &mut out);
    assert_eq!(out.len(), 1);
    let clause = &out[0];
    assert_eq!(clause.binders, 1);
    assert_eq!(clause.conditions.len(), 2);
    // consequence: MyList<T>: Send
    let expected_consequence =
        implemented(1, app(struct_name(10), vec![Ty::BoundVar(0)]));
    assert!(domain_goal_eq(&clause.consequence, &expected_consequence));
    // conditions, in declared field order: T: Send, Box<Option<MyList<T>>>: Send
    let expected_first = implemented(1, Ty::BoundVar(0));
    let my_list_of_t = app(struct_name(10), vec![Ty::BoundVar(0)]);
    let box_of = app(struct_name(11), vec![app(struct_name(12), vec![my_list_of_t])]);
    let expected_second = implemented(1, box_of);
    assert!(domain_goal_eq(&clause.conditions[0], &expected_first));
    assert!(domain_goal_eq(&clause.conditions[1], &expected_second));
}

#[test]
fn explicit_impl_suppresses_auto_impl() {
    let (send, my_list) = send_and_my_list();
    let mut store = empty_store();
    store.impls.push(ImplEntry { trait_id: TraitId(1), struct_id: StructId(10) });
    let mut out: Vec<ProgramClause> = Vec::new();
    push_auto_trait_impls(TraitId(1), &send, StructId(10), &my_list, &store, &mut out);
    assert_eq!(out.len(), 0);
}

#[test]
fn explicit_impl_for_other_struct_does_not_suppress() {
    let (send, my_list) = send_and_my_list();
    let mut store = empty_store();
    store.impls.push(ImplEntry { trait_id: TraitId(1), struct_id: StructId(99) });
    let mut out: Vec<ProgramClause> = Vec::new();
    push_auto_trait_impls(TraitId(1), &send, StructId(10), &my_list, &store, &mut out);
    assert_eq!(out.len(), 1);
}

#[test]
fn zero_field_struct_yields_unconditional_clause() {
    let (send, _) = send_and_my_list();
    let unit_struct = StructDatum {
        binders_count: 0,
        self_ty: ApplicationTy { name: struct_name(20), parameters: Vec::new() },
        fields: Vec::new(),
        clauses: Vec::new(),
    };
    let store = empty_store();
    let mut out: Vec<ProgramClause> = Vec::new();
    push_auto_trait_impls(TraitId(1), &send, StructId(20), &unit_struct, &store, &mut out);
    assert_eq!(out.len(), 1);
    assert_eq!(out[0].conditions.len(), 0);
    assert_eq!(out[0].binders, 0);
}

/// A blanket clause for trait `id`: forall T, `T: id`.
fn blanket_clause(id: u64) -> ProgramClause {
    ProgramClause {
        binders: 1,
        consequence: implemented(id, Ty::BoundVar(0)),
        conditions: Vec::new(),
    }
}

#[test]
fn goal_with_empty_environment_returns_blanket_clause() {
    // Trait `Clone` with one blanket-style clause; goal `u32: Clone`.
    let mut store = empty_store();
    store.traits.push(TraitEntry {
        id: TraitId(2),
        datum: TraitDatum {
            binders_count: 1,
            trait_id: TraitId(2),
            auto: false,
            clauses: vec![blanket_clause(2)],
        },
    });
    let goal = implemented(2, app(struct_name(21), Vec::new()));
    let environment = Environment { clauses: Vec::new() };
    let result = program_clauses_for_goal(&store, &environment, &goal);
    assert_eq!(result.len(), 1);
    assert!(program_clause_eq(&result[0], &blanket_clause(2)));
}

#[test]
fn could_match_discards_clause_with_other_trait_head() {
    // The declaration of trait 5 carries a stray clause whose head names
    // trait 6; the collector must drop it.
    let mut store = empty_store();
    store.traits.push(TraitEntry {
        id: TraitId(5),
        datum: TraitDatum {
            binders_count: 1,
            trait_id: TraitId(5),
            auto: false,
            clauses: vec![blanket_clause(5), blanket_clause(6)],
        },
    });
    let goal = implemented(5, app(struct_name(21), Vec::new()));
    let mut out: Vec<ProgramClause> = Vec::new();
    program_clauses_that_could_match(&store, &goal, &mut out);
    assert_eq!(out.len(), 1);
    assert!(program_clause_eq(&out[0], &blanket_clause(5)));
    assert!(!contains_clause(&out, &blanket_clause(6)));
}

#[test]
fn could_match_checks_arity() {
    let one_param = implemented(7, Ty::BoundVar(0));
    let goal = DomainGoal::Holds(WhereClause::Implemented(TraitRef {
        trait_id: TraitId(7),
        parameters: vec![Ty::BoundVar(0), Ty::BoundVar(1)],
    }));
    assert!(!could_match(&one_param, &goal));
    assert!(could_match(&one_param, &implemented(7, app(struct_name(1), Vec::new()))));
    assert!(!could_match(&one_param, &implemented(8, Ty::BoundVar(0))));
}

#[test]
fn placeholder_type_yields_trivially_true_clause() {
    let store = empty_store();
    let placeholder = app(TypeName::Placeholder(0), Vec::new());
    let goal = DomainGoal::IsLocal(app(TypeName::Placeholder(0), Vec::new()));
    let mut out: Vec<ProgramClause> = Vec::new();
    match_ty(&store, &goal, &placeholder, &mut out);
    assert_eq!(out.len(), 1);
    assert_eq!(out[0].binders, 0);
    assert_eq!(out[0].conditions.len(), 0);
    assert!(domain_goal_eq(&out[0].consequence, &goal));
}

#[test]
fn variables_and_unselected_projections_yield_nothing() {
    let store = empty_store();
    let goal = DomainGoal::IsUpstream(Ty::BoundVar(0));
    let mut out: Vec<ProgramClause> = Vec::new();
    match_ty(&store, &goal, &Ty::BoundVar(0), &mut out);
    match_ty(&store, &goal, &Ty::InferenceVar(3), &mut out);
    assert_eq!(out.len(), 0);
}

#[test]
fn match_type_kind_pulls_each_table() {
    let mut store = empty_store();
    store.traits.push(TraitEntry {
        id: TraitId(2),
        datum: TraitDatum {
            binders_count: 1,
            trait_id: TraitId(2),
            auto: false,
            clauses: vec![blanket_clause(2)],
        },
    });
    store.assoc_tys.push(AssocTyEntry {
        id: TypeId(4),
        datum: AssociatedTyDatum { clauses: vec![blanket_clause(40)] },
    });
    let mut out: Vec<ProgramClause> = Vec::new();
    match_type_kind(&store, TypeKindId::TraitId(TraitId(2)), &mut out);
    assert_eq!(out.len(), 1);
    match_type_kind(&store, TypeKindId::TypeId(TypeId(4)), &mut out);
    assert_eq!(out.len(), 2);
    assert!(program_clause_eq(&out[0], &blanket_clause(2)));
    assert!(program_clause_eq(&out[1], &blanket_clause(40)));
    // An identifier nothing is declared under contributes nothing.
    match_type_kind(&store, TypeKindId::StructId(StructId(77)), &mut out);
    assert_eq!(out.len(), 2);
}

#[test]
fn closing_the_empty_environment_yields_nothing() {
    let mut store = empty_store();
    store.traits.push(TraitEntry {
        id: TraitId(2),
        datum: TraitDatum {
            binders_count: 1,
            trait_id: TraitId(2),
            auto: false,
            clauses: vec![blanket_clause(2)],
        },
    });
    let environment = Environment { clauses: Vec::new() };
    let closure = close_environment(&store, &environment);
    assert_eq!(closure.len(), 0);
}

/// A store where trait 3's declaration carries one clause and struct
/// 30's declaration carries another; the struct clause mentions the
/// struct itself, as a self-referential struct definition would.
fn recursive_store() -> DeclarationStore {
    let trait_clause = ProgramClause {
        binders: 0,
        consequence: DomainGoal::Compatible,
        conditions: Vec::new(),
    };
    let struct_clause = ProgramClause {
        binders: 0,
        consequence: DomainGoal::IsLocal(app(struct_name(30), Vec::new())),
        conditions: Vec::new(),
    };
    let mut store = empty_store();
    store.traits.push(TraitEntry {
        id: TraitId(3),
        datum: TraitDatum {
            binders_count: 1,
            trait_id: TraitId(3),
            auto: false,
            clauses: vec![trait_clause],
        },
    });
    store.structs.push(StructEntry {
        id: StructId(30),
        datum: StructDatum {
            binders_count: 0,
            self_ty: ApplicationTy { name: struct_name(30), parameters: Vec::new() },
            fields: Vec::new(),
            clauses: vec![struct_clause],
        },
    });
    store
}

fn recursive_env() -> Environment {
    // One hypothesis: `Struct30: Trait3`.
    Environment { clauses: vec![ProgramClause {
        binders: 0,
        consequence: implemented(3, app(struct_name(30), Vec::new())),
        conditions: Vec::new(),
    }] }
}

#[test]
fn closure_discovers_trait_and_struct_clauses_and_terminates() {
    let store = recursive_store();
    let closure = close_environment(&store, &recursive_env());
    // The hypothesis mentions trait 3 and struct 30; their clauses are
    // discovered. The struct clause mentions struct 30 again, which is
    // already known, so the fixed point stops there.
    assert_eq!(closure.len(), 2);
    let trait_clause = &store.traits[0].datum.clauses[0];
    let struct_clause = &store.structs[0].datum.clauses[0];
    assert!(contains_clause(&closure, trait_clause));
    assert!(contains_clause(&closure, struct_clause));
}

#[test]
fn closure_is_deterministic() {
    let store = recursive_store();
    let first = close_environment(&store, &recursive_env());
    let second = close_environment(&store, &recursive_env());
    assert_eq!(first.len(), second.len());
    for clause in &first {
        assert!(contains_clause(&second, clause));
    }
}

#[test]
fn reclosing_a_closure_adds_nothing() {
    let store = recursive_store();
    let closure = close_environment(&store, &recursive_env());
    let reclosed = close_environment(&store, &Environment { clauses: closure });
    let closure_again = close_environment(&store, &recursive_env());
    for clause in &reclosed {
        assert!(contains_clause(&closure_again, clause));
    }
}

#[test]
fn program_clauses_for_env_appends_after_existing() {
    let store = recursive_store();
    let sentinel = blanket_clause(9);
    let mut out = vec![sentinel];
    program_clauses_for_env(&store, &recursive_env(), &mut out);
    assert_eq!(out.len(), 3);
    assert!(program_clause_eq(&out[0], &blanket_clause(9)));
}

#[test]
fn goal_merges_candidates_with_environment_closure() {
    // The goal pulls trait 3's clause; the environment's closure also
    // discovers struct 30's clause, whose head shape (IsLocal) cannot
    // match the Implemented goal and is filtered out.
    let store = recursive_store();
    let goal = implemented(3, app(struct_name(30), Vec::new()));
    let result = program_clauses_for_goal(&store, &recursive_env(), &goal);
    // Trait 3's clause has consequence `Compatible`, which cannot match
    // an Implemented goal either: nothing survives.
    assert_eq!(result.len(), 0);
}

#[test]
fn goal_keeps_environment_clauses_that_could_match() {
    // Trait 8's declaration clause is a blanket impl; the environment
    // mentions trait 8, so the closure discovers the blanket clause, and
    // it survives the filter for an `Implemented` goal about trait 8.
    let mut store = empty_store();
    store.traits.push(TraitEntry {
        id: TraitId(8),
        datum: TraitDatum {
            binders_count: 1,
            trait_id: TraitId(8),
            auto: false,
            clauses: vec![blanket_clause(8)],
        },
    });
    let environment = Environment { clauses: vec![ProgramClause {
        binders: 0,
        consequence: implemented(8, app(struct_name(31), Vec::new())),
        conditions: Vec::new(),
    }] };
    let goal = implemented(8, app(struct_name(31), Vec::new()));
    let result = program_clauses_for_goal(&store, &environment, &goal);
    // The blanket clause comes once, both as candidate and from the
    // closure; the result holds it exactly once.
    assert_eq!(result.len(), 1);
    assert!(program_clause_eq(&result[0], &blanket_clause(8)));
}

#[test]
fn from_env_and_compatible_goals_pull_no_candidates() {
    let store = recursive_store();
    let mut out: Vec<ProgramClause> = Vec::new();
    program_clauses_that_could_match(&store, &DomainGoal::Compatible, &mut out);
    assert_eq!(out.len(), 0);
}

#[test]
fn structural_equality_is_deep() {
    let a = app(struct_name(10), vec![Ty::BoundVar(0)]);
    let b = app(struct_name(10), vec![Ty::BoundVar(0)]);
    let c = app(struct_name(10), vec![Ty::BoundVar(1)]);
    assert!(ty_eq(&a, &b));
    assert!(!ty_eq(&a, &c));
    assert!(program_clause_eq(&blanket_clause(2), &blanket_clause(2)));
    assert!(!program_clause_eq(&blanket_clause(2), &blanket_clause(3)));
}

#[test]
fn impl_provided_for_looks_up_the_pair() {
    let mut store = empty_store();
    store.impls.push(ImplEntry { trait_id: TraitId(1), struct_id: StructId(10) });
    assert!(store.impl_provided_for(TraitId(1), StructId(10)));
    assert!(!store.impl_provided_for(TraitId(1), StructId(11)));
    assert!(!store.impl_provided_for(TraitId(2), StructId(10)));
}

#[test]
fn projection_type_pulls_associated_type_clauses() {
    let mut store = empty_store();
    store.assoc_tys.push(AssocTyEntry {
        id: TypeId(4),
        datum: AssociatedTyDatum { clauses: vec![blanket_clause(40)] },
    });
    let projection = Ty::Projection(chalk_solve::ir::ProjectionTy {
        associated_ty_id: TypeId(4),
        parameters: vec![Ty::BoundVar(0)],
    });
    let goal = DomainGoal::WellFormed(chalk_solve::ir::WellFormed::Ty(Ty::BoundVar(0)));
    let mut out: Vec<ProgramClause> = Vec::new();
    match_ty(&store, &goal, &projection, &mut out);
    assert_eq!(out.len(), 1);
    assert!(program_clause_eq(&out[0], &blanket_clause(40)));
}

#[test]
fn for_all_type_strips_the_quantifier() {
    let mut store = empty_store();
    store.structs.push(StructEntry {
        id: StructId(30),
        datum: StructDatum {
            binders_count: 0,
            self_ty: ApplicationTy { name: struct_name(30), parameters: Vec::new() },
            fields: Vec::new(),
            clauses: vec![blanket_clause(33)],
        },
    });
    let inner = app(struct_name(30), Vec::new());
    let quantified = Ty::ForAll(Box::new(chalk_solve::ir::QuantifiedTy {
        num_binders: 1,
        ty: inner,
    }));
    let goal = DomainGoal::DownstreamType(Ty::BoundVar(0));
    let mut out: Vec<ProgramClause> = Vec::new();
    match_ty(&store, &goal, &quantified, &mut out);
    assert_eq!(out.len(), 1);
    assert!(program_clause_eq(&out[0], &blanket_clause(33)));
}

#[test]
fn closure_walks_nested_parameter_types() {
    // The environment hypothesis mentions struct 30 only deep inside a
    // nested applied type; the closure still finds its clauses.
    let store = recursive_store();
    let nested = app(struct_name(40), vec![app(struct_name(41), vec![app(
        struct_name(30),
        Vec::new(),
    )])]);
    let environment = Environment { clauses: vec![ProgramClause {
        binders: 0,
        consequence: DomainGoal::IsFullyVisible(nested),
        conditions: Vec::new(),
    }] };
    let closure = close_environment(&store, &environment);
    let struct_clause = &store.structs[0].datum.clauses[0];
    assert!(contains_clause(&closure, struct_clause));
}
