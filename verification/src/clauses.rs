//! Clause generation: the auto-trait impl synthesizer, the type-shape
//! dispatcher and the goal-driven clause collector.

use vstd::prelude::*;
use crate::ir::{
    ApplicationTy, DomainGoal, DomainGoalV, ProgramClause, ProgramClauseV, StructId, TraitId,
    TraitRef, TraitRefV, Ty, TyV, TypeKindId, TypeName, WhereClause, WhereClauseV, clause_views,
    goal_views, ty_views,
};
use crate::store::{DeclarationStore, StructDatum, TraitDatum};
use crate::could_match::{could_match, goal_could_match, same_head_shape};
use crate::env::{close_environment, contains_clause, env_closure_set};
use crate::ir::{Environment, lemma_push_contains};

verus! {

/// The one condition the synthesizer derives from a struct field: the
/// field's type must implement the auto trait.
pub open spec fn auto_condition(auto_trait_id: TraitId, field: TyV) -> DomainGoalV {
    DomainGoalV::Holds(
        WhereClauseV::Implemented(
            TraitRefV { trait_id: auto_trait_id, parameters: Seq::empty().push(field) },
        ),
    )
}

/// One condition per field, in declared field order.
pub open spec fn auto_conditions(auto_trait_id: TraitId, fields: Seq<TyV>) -> Seq<DomainGoalV>
    decreases fields.len(),
{
    if fields.len() == 0 {
        Seq::empty()
    } else {
        auto_conditions(auto_trait_id, fields.drop_last()).push(
            auto_condition(auto_trait_id, fields.last()),
        )
    }
}

/// `auto_conditions` yields one condition per field.
pub broadcast proof fn lemma_auto_conditions_len(auto_trait_id: TraitId, fields: Seq<TyV>)
    ensures
        #[trigger] auto_conditions(auto_trait_id, fields).len() == fields.len(),
    decreases fields.len(),
{
    if fields.len() != 0 {
        lemma_auto_conditions_len(auto_trait_id, fields.drop_last());
    }
}

/// The condition at position `i` speaks of the field at position `i`.
pub broadcast proof fn lemma_auto_conditions_index(auto_trait_id: TraitId, fields: Seq<TyV>, i: int)
    requires
        0 <= i < fields.len(),
    ensures
        #[trigger] auto_conditions(auto_trait_id, fields)[i] == auto_condition(
            auto_trait_id,
            fields[i],
        ),
    decreases fields.len(),
{
    lemma_auto_conditions_len(auto_trait_id, fields.drop_last());
    if i < fields.len() - 1 {
        lemma_auto_conditions_index(auto_trait_id, fields.drop_last(), i);
    }
}

/// The clause the synthesizer builds for a struct with no explicit impl:
/// quantified over the struct's own generic parameters, its consequence
/// says the struct implements the trait, and its conditions say each
/// field's type does.
pub open spec fn auto_impl_clause(
    auto_trait_id: TraitId,
    consequence_trait_id: TraitId,
    struct_datum: StructDatum,
) -> ProgramClauseV {
    ProgramClauseV {
        binders: struct_datum.binders_count,
        consequence: DomainGoalV::Holds(
            WhereClauseV::Implemented(
                TraitRefV {
                    trait_id: consequence_trait_id,
                    parameters: Seq::empty().push(TyV::Apply(struct_datum.self_ty@)),
                },
            ),
        ),
        conditions: auto_conditions(auto_trait_id, ty_views(struct_datum.fields@)),
    }
}

/// For auto traits, generate a default rule for a struct, unless an
/// explicit (or explicit negative) impl for that struct exists, in which
/// case the explicit impl takes precedence and nothing is generated.
/// With no explicit impl, the rule implements the trait for the struct
/// whenever all its field types do.
pub fn push_auto_trait_impls(
    auto_trait_id: TraitId,
    auto_trait: &TraitDatum,
    struct_id: StructId,
    struct_datum: &StructDatum,
    program: &DeclarationStore,
    vec: &mut Vec<ProgramClause>,
)
    requires
        auto_trait.auto,
        auto_trait.binders_count == 1,
    ensures
        program.spec_impl_provided(auto_trait_id, struct_id) ==> final(vec)@ == old(vec)@,
        !program.spec_impl_provided(auto_trait_id, struct_id) ==> clause_views(final(vec)@)
            == clause_views(old(vec)@).push(
            auto_impl_clause(auto_trait_id, auto_trait.trait_id, *struct_datum),
        ),
{
    // An explicit impl for this (trait, struct) pair suppresses the
    // default rule entirely.
    if program.impl_provided_for(auto_trait_id, struct_id) {
        return ;
    }
    let mut self_parameters: Vec<Ty> = Vec::new();
    self_parameters.push(Ty::Apply(struct_datum.self_ty.clone()));
    let auto_trait_ref = TraitRef { trait_id: auto_trait.trait_id, parameters: self_parameters };
    let mut conditions: Vec<DomainGoal> = Vec::new();
    let mut i: usize = 0;
    while i < struct_datum.fields.len()
        invariant
            i <= struct_datum.fields@.len(),
            goal_views(conditions@) == auto_conditions(
                auto_trait_id,
                ty_views(struct_datum.fields@.take(i as int)),
            ),
        decreases struct_datum.fields@.len() - i,
    {
        let mut field_parameters: Vec<Ty> = Vec::new();
        field_parameters.push(struct_datum.fields[i].clone());
        conditions.push(
            DomainGoal::Holds(
                WhereClause::Implemented(
                    TraitRef { trait_id: auto_trait_id, parameters: field_parameters },
                ),
            ),
        );
        proof {
            broadcast use crate::ir::group_ir_views;

            let fields = struct_datum.fields@;
            assert(fields.take(i + 1).drop_last() =~= fields.take(i as int));
            let prefix = ty_views(fields.take(i as int));
            let next = ty_views(fields.take(i + 1));
            assert(next == prefix.push(fields[i as int]@));
            assert(next.drop_last() == prefix && next.last() == fields[i as int]@);
            assert(auto_conditions(auto_trait_id, next) == auto_conditions(
                auto_trait_id,
                prefix,
            ).push(auto_condition(auto_trait_id, fields[i as int]@)));
            assert(conditions@.last()@ == auto_condition(auto_trait_id, fields[i as int]@)) by {
                assert(ty_views(Seq::<Ty>::empty().push(fields[i as int]))
                    =~= Seq::empty().push(fields[i as int]@));
            }
        }
        i += 1;
    }
    proof {
        broadcast use crate::ir::group_ir_views;

        assert(struct_datum.fields@.take(struct_datum.fields@.len() as int)
            =~= struct_datum.fields@);
    }
    vec.push(
        ProgramClause {
            binders: struct_datum.binders_count,
            consequence: DomainGoal::Holds(WhereClause::Implemented(auto_trait_ref)),
            conditions,
        },
    );
    proof {
        broadcast use crate::ir::group_ir_views;

        assert(Seq::empty().push(TyV::Apply(struct_datum.self_ty@)) =~= ty_views(
            Seq::<Ty>::empty().push(Ty::Apply(struct_datum.self_ty)),
        ));
    }
}

/// A clause with exactly `N` conditions is synthesized for a struct with
/// `N` declared fields: one condition per field, in declared field
/// order, and the consequence names exactly the struct applied to its
/// own declared generic parameters.
pub proof fn lemma_auto_impl_field_count(
    auto_trait_id: TraitId,
    consequence_trait_id: TraitId,
    struct_datum: StructDatum,
)
    ensures
        auto_impl_clause(auto_trait_id, consequence_trait_id, struct_datum).conditions.len()
            == struct_datum.fields@.len(),
        forall|i: int|
            0 <= i < struct_datum.fields@.len() ==> auto_impl_clause(
                auto_trait_id,
                consequence_trait_id,
                struct_datum,
            ).conditions[i] == auto_condition(auto_trait_id, ty_views(struct_datum.fields@)[i]),
        auto_impl_clause(auto_trait_id, consequence_trait_id, struct_datum).consequence
            == DomainGoalV::Holds(
            WhereClauseV::Implemented(
                TraitRefV {
                    trait_id: consequence_trait_id,
                    parameters: Seq::empty().push(TyV::Apply(struct_datum.self_ty@)),
                },
            ),
        ),
        auto_impl_clause(auto_trait_id, consequence_trait_id, struct_datum).binders
            == struct_datum.binders_count,
{
    broadcast use crate::ir::group_ir_views;

    let fields = ty_views(struct_datum.fields@);
    lemma_auto_conditions_len(auto_trait_id, fields);
    assert forall|i: int| 0 <= i < fields.len() implies auto_conditions(
        auto_trait_id,
        fields,
    )[i] == auto_condition(auto_trait_id, fields[i]) by {
        lemma_auto_conditions_index(auto_trait_id, fields, i);
    }
}

/// The clauses of the declared entity a type-kind identifier names.
pub open spec fn match_type_kind_clauses(store: DeclarationStore, kind: TypeKindId) -> Seq<
    ProgramClauseV,
> {
    match kind {
        TypeKindId::TypeId(id) => store.spec_assoc_ty_clauses(id),
        TypeKindId::TraitId(id) => store.spec_trait_clauses(id),
        TypeKindId::StructId(id) => store.spec_struct_clauses(id),
    }
}

/// The unconditional clause emitted for a placeholder type: the goal
/// itself, assumed satisfied by fiat at its binding site.
pub open spec fn placeholder_clause(goal: DomainGoalV) -> ProgramClauseV {
    ProgramClauseV { binders: 0, consequence: goal, conditions: Seq::empty() }
}

/// The clauses the type-shape dispatcher produces for a type under a
/// goal: the clauses of the declared entity the type is shaped like, one
/// trivially-true clause for a placeholder, and nothing for a shape with
/// no declaration to consult.
pub open spec fn match_ty_clauses(store: DeclarationStore, goal: DomainGoalV, ty: TyV) -> Seq<
    ProgramClauseV,
>
    decreases ty,
{
    match ty {
        TyV::Apply(a) => match a.name {
            TypeName::TypeKindId(kind) => match_type_kind_clauses(store, kind),
            TypeName::Placeholder(_) => Seq::empty().push(placeholder_clause(goal)),
            TypeName::AssociatedType(id) => store.spec_assoc_ty_clauses(id),
        },
        TyV::Projection(p) => store.spec_assoc_ty_clauses(p.associated_ty_id),
        TyV::UnselectedProjection(_) => Seq::empty(),
        TyV::ForAll { num_binders: _, ty: inner } => match_ty_clauses(store, goal, *inner),
        TyV::BoundVar { .. } => Seq::empty(),
        TyV::InferenceVar { .. } => Seq::empty(),
    }
}

/// Fetch the clauses of the declared entity a type-kind identifier
/// names, appending them to `clauses`.
pub fn match_type_kind(
    db: &DeclarationStore,
    type_kind_id: TypeKindId,
    clauses: &mut Vec<ProgramClause>,
)
    ensures
        clause_views(final(clauses)@) == clause_views(old(clauses)@) + match_type_kind_clauses(
            *db,
            type_kind_id,
        ),
{
    match type_kind_id {
        TypeKindId::TypeId(type_id) => match db.associated_ty_data(type_id) {
            Option::Some(d) => d.to_program_clauses(clauses),
            Option::None => (),
        },
        TypeKindId::TraitId(trait_id) => match db.trait_datum(trait_id) {
            Option::Some(d) => d.to_program_clauses(clauses),
            Option::None => (),
        },
        TypeKindId::StructId(struct_id) => match db.struct_datum(struct_id) {
            Option::Some(d) => d.to_program_clauses(clauses),
            Option::None => (),
        },
    }
}

/// Dispatch on a type's shape: delegate to the declaration it names,
/// emit the trivially-true clause for a placeholder, strip a quantifier,
/// and emit nothing for unresolved shapes.
pub fn match_ty(
    db: &DeclarationStore,
    goal: &DomainGoal,
    ty: &Ty,
    clauses: &mut Vec<ProgramClause>,
)
    ensures
        clause_views(final(clauses)@) == clause_views(old(clauses)@) + match_ty_clauses(
            *db,
            goal@,
            ty@,
        ),
    decreases ty,
{
    match ty {
        Ty::Apply(application_ty) => match application_ty.name {
            TypeName::TypeKindId(type_kind_id) => match_type_kind(db, type_kind_id, clauses),
            TypeName::Placeholder(_) => {
                let implication = ProgramClause {
                    binders: 0,
                    consequence: goal.clone(),
                    conditions: Vec::new(),
                };
                clauses.push(implication);
                proof {
                    broadcast use crate::ir::group_ir_views;

                    assert(clause_views(old(clauses)@).push(placeholder_clause(goal@))
                        =~= clause_views(old(clauses)@) + Seq::empty().push(
                        placeholder_clause(goal@),
                    ));
                }
            },
            TypeName::AssociatedType(type_id) => match db.associated_ty_data(type_id) {
                Option::Some(d) => d.to_program_clauses(clauses),
                Option::None => (),
            },
        },
        Ty::Projection(projection_ty) => match db.associated_ty_data(
            projection_ty.associated_ty_id,
        ) {
            Option::Some(d) => d.to_program_clauses(clauses),
            Option::None => (),
        },
        Ty::UnselectedProjection(_) => (),
        Ty::ForAll(quantified_ty) => match_ty(db, goal, &quantified_ty.ty, clauses),
        Ty::BoundVar(_) => (),
        Ty::InferenceVar(_) => (),
    }
}

/// The candidate clauses the collector pulls for a goal, before the
/// could-match filter: the named trait's or associated type's own
/// clauses, the type-shape dispatcher's output for type-directed goals,
/// and nothing for the goal shapes whose clauses come only from the
/// environment.
pub open spec fn candidate_clauses(store: DeclarationStore, goal: DomainGoalV) -> Seq<
    ProgramClauseV,
> {
    match goal {
        DomainGoalV::Holds(WhereClauseV::Implemented(trait_ref)) => store.spec_trait_clauses(
            trait_ref.trait_id,
        ),
        DomainGoalV::Holds(WhereClauseV::ProjectionEq(projection_predicate)) => store
            .spec_assoc_ty_clauses(projection_predicate.projection.associated_ty_id),
        DomainGoalV::WellFormed(crate::ir::WellFormedV::Trait(trait_predicate)) => store
            .spec_trait_clauses(trait_predicate.trait_id),
        DomainGoalV::WellFormed(crate::ir::WellFormedV::Ty(ty)) => match_ty_clauses(
            store,
            goal,
            ty,
        ),
        DomainGoalV::IsLocal(ty) => match_ty_clauses(store, goal, ty),
        DomainGoalV::IsUpstream(ty) => match_ty_clauses(store, goal, ty),
        DomainGoalV::IsFullyVisible(ty) => match_ty_clauses(store, goal, ty),
        DomainGoalV::DownstreamType(ty) => match_ty_clauses(store, goal, ty),
        DomainGoalV::FromEnv(_) => Seq::empty(),
        DomainGoalV::Normalize(projection_predicate) => store.spec_assoc_ty_clauses(
            projection_predicate.projection.associated_ty_id,
        ),
        DomainGoalV::UnselectedNormalize(normalize) => match_ty_clauses(store, goal, normalize.ty),
        DomainGoalV::InScope(type_kind_id) => match_type_kind_clauses(store, type_kind_id),
        DomainGoalV::LocalImplAllowed(trait_ref) => store.spec_trait_clauses(trait_ref.trait_id),
        DomainGoalV::Compatible => Seq::empty(),
    }
}

/// The clauses of `s` whose consequence could match the goal `g`.
pub open spec fn could_match_filter(s: Seq<ProgramClauseV>, g: DomainGoalV) -> Seq<
    ProgramClauseV,
> {
    s.filter(|c: ProgramClauseV| goal_could_match(c.consequence, g))
}

/// How the could-match filter treats one more clause at the end.
pub broadcast proof fn lemma_could_match_filter_push(
    s: Seq<ProgramClauseV>,
    c: ProgramClauseV,
    g: DomainGoalV,
)
    ensures
        #[trigger] could_match_filter(s.push(c), g) == (if goal_could_match(c.consequence, g) {
            could_match_filter(s, g).push(c)
        } else {
            could_match_filter(s, g)
        }),
{
    broadcast use Seq::lemma_filter_push;

}

/// Append a copy of every clause of `src` whose consequence could match
/// `goal` to `out`, in order.
pub fn retain_could_match(
    out: &mut Vec<ProgramClause>,
    src: &Vec<ProgramClause>,
    goal: &DomainGoal,
)
    ensures
        clause_views(final(out)@) == clause_views(old(out)@) + could_match_filter(
            clause_views(src@),
            goal@,
        ),
{
    let mut i: usize = 0;
    while i < src.len()
        invariant
            i <= src@.len(),
            clause_views(out@) == clause_views(old(out)@) + could_match_filter(
                clause_views(src@.take(i as int)),
                goal@,
            ),
        decreases src@.len() - i,
    {
        let keep = could_match(&src[i].consequence, goal);
        if keep {
            out.push(src[i].clone());
        }
        proof {
            broadcast use crate::ir::group_ir_views;

            let prefix = clause_views(src@.take(i as int));
            let next = clause_views(src@.take(i + 1));
            assert(src@.take(i + 1).drop_last() =~= src@.take(i as int));
            assert(next == prefix.push(src@[i as int]@));
            lemma_could_match_filter_push(prefix, src@[i as int]@, goal@);
        }
        i += 1;
    }
    proof {
        assert(src@.take(src@.len() as int) =~= src@);
    }
}

/// Collect a superset of the program clauses that could possibly match
/// `goal` — dispatching on the goal's shape to the relevant declared
/// entities — filter out every clause that could not structurally match
/// it, and append the survivors to `vec`.
pub fn program_clauses_that_could_match(
    db: &DeclarationStore,
    goal: &DomainGoal,
    vec: &mut Vec<ProgramClause>,
)
    ensures
        clause_views(final(vec)@) == clause_views(old(vec)@) + could_match_filter(
            candidate_clauses(*db, goal@),
            goal@,
        ),
{
    let mut clauses: Vec<ProgramClause> = Vec::new();
    match goal {
        DomainGoal::Holds(WhereClause::Implemented(trait_ref)) => {
            match db.trait_datum(trait_ref.trait_id) {
                Option::Some(d) => d.to_program_clauses(&mut clauses),
                Option::None => (),
            }
        },
        DomainGoal::Holds(WhereClause::ProjectionEq(projection_predicate)) => {
            match db.associated_ty_data(projection_predicate.projection.associated_ty_id) {
                Option::Some(d) => d.to_program_clauses(&mut clauses),
                Option::None => (),
            }
        },
        DomainGoal::WellFormed(crate::ir::WellFormed::Trait(trait_predicate)) => {
            match db.trait_datum(trait_predicate.trait_id) {
                Option::Some(d) => d.to_program_clauses(&mut clauses),
                Option::None => (),
            }
        },
        DomainGoal::WellFormed(crate::ir::WellFormed::Ty(ty)) => {
            match_ty(db, goal, ty, &mut clauses)
        },
        DomainGoal::IsLocal(ty) => match_ty(db, goal, ty, &mut clauses),
        DomainGoal::IsUpstream(ty) => match_ty(db, goal, ty, &mut clauses),
        DomainGoal::IsFullyVisible(ty) => match_ty(db, goal, ty, &mut clauses),
        DomainGoal::DownstreamType(ty) => match_ty(db, goal, ty, &mut clauses),
        DomainGoal::FromEnv(_) => (),  // computed in the environment
        DomainGoal::Normalize(projection_predicate) => {
            match db.associated_ty_data(projection_predicate.projection.associated_ty_id) {
                Option::Some(d) => d.to_program_clauses(&mut clauses),
                Option::None => (),
            }
        },
        DomainGoal::UnselectedNormalize(normalize) => {
            match_ty(db, goal, &normalize.ty, &mut clauses)
        },
        DomainGoal::InScope(type_kind_id) => match_type_kind(db, *type_kind_id, &mut clauses),
        DomainGoal::LocalImplAllowed(trait_ref) => {
            match db.trait_datum(trait_ref.trait_id) {
                Option::Some(d) => d.to_program_clauses(&mut clauses),
                Option::None => (),
            }
        },
        DomainGoal::Compatible => (),
    }
    retain_could_match(vec, &clauses, goal);
}

/// Membership in the could-match filter: a clause survives exactly when
/// it was among the candidates and its consequence could match the goal.
pub proof fn lemma_could_match_filter_membership(
    s: Seq<ProgramClauseV>,
    g: DomainGoalV,
    c: ProgramClauseV,
)
    ensures
        could_match_filter(s, g).contains(c) <==> (s.contains(c) && goal_could_match(
            c.consequence,
            g,
        )),
    decreases s.len(),
{
    broadcast use Seq::lemma_filter_len;

    if s.len() == 0 {
        assert(could_match_filter(s, g).len() == 0);
    } else {
        lemma_could_match_filter_membership(s.drop_last(), g, c);
        assert(s =~= s.drop_last().push(s.last()));
        lemma_could_match_filter_push(s.drop_last(), s.last(), g);
        lemma_push_contains(s.drop_last(), s.last(), c);
        if goal_could_match(s.last().consequence, g) {
            lemma_push_contains(could_match_filter(s.drop_last(), g), s.last(), c);
        }
    }
}

/// Could-match soundness: every clause that survives the filter has the
/// goal's head identity and arity, and every clause whose head identity
/// or arity differs from the goal's is absent from the filtered output.
pub proof fn lemma_could_match_filter_sound(
    s: Seq<ProgramClauseV>,
    g: DomainGoalV,
    c: ProgramClauseV,
)
    ensures
        could_match_filter(s, g).contains(c) ==> same_head_shape(c.consequence, g),
        !same_head_shape(c.consequence, g) ==> !could_match_filter(s, g).contains(c),
{
    lemma_could_match_filter_membership(s, g, c);
    if could_match_filter(s, g).contains(c) {
        crate::could_match::lemma_could_match_same_head(c.consequence, g);
    }
}

/// Figure out the program clauses that apply to `goal` in
/// `environment`: collect the candidates the goal's shape calls for,
/// saturate the environment's hypotheses to their closure, keep what
/// could match the goal, and hand back each surviving clause exactly
/// once. The order of the result carries no meaning.
pub fn program_clauses_for_goal(
    db: &DeclarationStore,
    environment: &Environment,
    goal: &DomainGoal,
) -> (vec: Vec<ProgramClause>)
    ensures
        clause_views(vec@).no_duplicates(),
        forall|c: ProgramClauseV| #[trigger]
            clause_views(vec@).contains(c) <==> ((candidate_clauses(*db, goal@).contains(c)
                || env_closure_set(*db, environment@).contains(c)) && goal_could_match(
                c.consequence,
                goal@,
            )),
{
    let mut raw: Vec<ProgramClause> = Vec::new();
    program_clauses_that_could_match(db, goal, &mut raw);
    let closure = close_environment(db, environment);
    let mut vec: Vec<ProgramClause> = Vec::new();
    let mut i: usize = 0;
    while i < raw.len()
        invariant
            i <= raw@.len(),
            clause_views(raw@) == could_match_filter(candidate_clauses(*db, goal@), goal@),
            clause_views(vec@).no_duplicates(),
            forall|c: ProgramClauseV| #[trigger]
                clause_views(vec@).contains(c) <==> clause_views(raw@.take(i as int)).contains(c),
        decreases raw@.len() - i,
    {
        let ghost vec_before = clause_views(vec@);
        let present = contains_clause(&vec, &raw[i]);
        if !present {
            vec.push(raw[i].clone());
        }
        proof {
            broadcast use crate::ir::group_ir_views;

            let x = raw@[i as int]@;
            assert(raw@.take(i + 1).drop_last() =~= raw@.take(i as int));
            assert(clause_views(raw@.take(i + 1)) == clause_views(raw@.take(i as int)).push(x));
            if !present {
                crate::env::lemma_push_no_duplicates(vec_before, x);
            }
            assert forall|c: ProgramClauseV| #[trigger]
                clause_views(vec@).contains(c) == clause_views(raw@.take(i + 1)).contains(c) by {
                lemma_push_contains(clause_views(raw@.take(i as int)), x, c);
                if !present {
                    lemma_push_contains(vec_before, x, c);
                } else {
                    assert(clause_views(vec@).contains(x));
                }
            }
        }
        i += 1;
    }
    proof {
        assert(raw@.take(raw@.len() as int) =~= raw@);
    }
    let mut j: usize = 0;
    while j < closure.len()
        invariant
            j <= closure@.len(),
            clause_views(raw@) == could_match_filter(candidate_clauses(*db, goal@), goal@),
            clause_views(closure@).to_set() == env_closure_set(*db, environment@),
            clause_views(vec@).no_duplicates(),
            forall|c: ProgramClauseV| #[trigger]
                clause_views(vec@).contains(c) <==> (clause_views(raw@).contains(c)
                    || (clause_views(closure@.take(j as int)).contains(c) && goal_could_match(
                    c.consequence,
                    goal@,
                ))),
        decreases closure@.len() - j,
    {
        let ghost vec_before = clause_views(vec@);
        let keep = could_match(&closure[j].consequence, goal);
        let mut pushed: bool = false;
        if keep {
            if !contains_clause(&vec, &closure[j]) {
                vec.push(closure[j].clone());
                pushed = true;
            }
        }
        proof {
            broadcast use crate::ir::group_ir_views;

            let x = closure@[j as int]@;
            assert(closure@.take(j + 1).drop_last() =~= closure@.take(j as int));
            assert(clause_views(closure@.take(j + 1)) == clause_views(closure@.take(j as int)).push(
                x,
            ));
            if pushed {
                crate::env::lemma_push_no_duplicates(vec_before, x);
            }
            assert forall|c: ProgramClauseV| #[trigger]
                clause_views(vec@).contains(c) == (clause_views(raw@).contains(c) || (clause_views(
                    closure@.take(j + 1),
                ).contains(c) && goal_could_match(c.consequence, goal@))) by {
                lemma_push_contains(clause_views(closure@.take(j as int)), x, c);
                if pushed {
                    lemma_push_contains(vec_before, x, c);
                } else if keep {
                    assert(clause_views(vec@).contains(x));
                }
            }
        }
        j += 1;
    }
    proof {
        broadcast use crate::ir::group_ir_views;

        assert(closure@.take(closure@.len() as int) =~= closure@);
        assert forall|c: ProgramClauseV| #[trigger]
            clause_views(vec@).contains(c) == ((candidate_clauses(*db, goal@).contains(c)
                || env_closure_set(*db, environment@).contains(c)) && goal_could_match(
                c.consequence,
                goal@,
            )) by {
            lemma_could_match_filter_membership(candidate_clauses(*db, goal@), goal@, c);
            assert(clause_views(closure@).to_set().contains(c) == clause_views(
                closure@,
            ).contains(c));
        }
    }
    vec
}

} // verus!
