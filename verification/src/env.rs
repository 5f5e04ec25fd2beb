//! The environment closure engine: hypotheses in the environment mention
//! types whose governing clauses are not themselves hypotheses. This
//! module walks every clause structurally — into its consequence, its
//! conditions, and every type appearing there — pulling the clauses of
//! each declared entity encountered, and saturates the result to a fixed
//! point, deduplicating by structural equality.

use vstd::prelude::*;
use crate::ir::{
    DomainGoal, DomainGoalV, Environment, FromEnv, FromEnvV, ProgramClause, ProgramClauseV,
    lemma_push_contains, ProjectionTy,
    ProjectionTyV, TraitRef, TraitRefV, Ty, TyV, TypeKindId, TypeName, UnselectedProjectionTyV,
    WellFormed, WellFormedV, WhereClause, WhereClauseV, clause_views, goal_views, ty_views,
};
use crate::store::{DeclarationStore, TraitEntry, StructEntry, AssocTyEntry};
use crate::clauses::{match_type_kind, match_type_kind_clauses};

verus! {

/// The clauses discovered while walking one type term: the clauses of
/// every declared entity the term mentions, however deeply nested.
pub open spec fn discover_ty(store: DeclarationStore, ty: TyV) -> Seq<ProgramClauseV>
    decreases ty,
{
    match ty {
        TyV::Apply(a) => (match a.name {
            TypeName::TypeKindId(kind) => match_type_kind_clauses(store, kind),
            TypeName::Placeholder(_) => Seq::empty(),
            TypeName::AssociatedType(id) => store.spec_assoc_ty_clauses(id),
        }) + discover_tys(store, a.parameters),
        TyV::Projection(p) => store.spec_assoc_ty_clauses(p.associated_ty_id) + discover_tys(
            store,
            p.parameters,
        ),
        TyV::UnselectedProjection(u) => discover_tys(store, u.parameters),
        TyV::ForAll { num_binders: _, ty: inner } => discover_ty(store, *inner),
        TyV::BoundVar { .. } => Seq::empty(),
        TyV::InferenceVar { .. } => Seq::empty(),
    }
}

/// The clauses discovered while walking each type of a list, in order.
pub open spec fn discover_tys(store: DeclarationStore, tys: Seq<TyV>) -> Seq<ProgramClauseV>
    decreases tys,
{
    if tys.len() == 0 {
        Seq::empty()
    } else {
        discover_tys(store, tys.drop_last()) + discover_ty(store, tys.last())
    }
}

/// The clauses discovered while walking a trait reference: the trait's
/// own clauses, then its parameter types.
pub open spec fn discover_trait_ref(store: DeclarationStore, tr: TraitRefV) -> Seq<
    ProgramClauseV,
> {
    store.spec_trait_clauses(tr.trait_id) + discover_tys(store, tr.parameters)
}

/// The clauses discovered while walking a projection: the associated
/// type's own clauses, then its parameter types.
pub open spec fn discover_projection(store: DeclarationStore, p: ProjectionTyV) -> Seq<
    ProgramClauseV,
> {
    store.spec_assoc_ty_clauses(p.associated_ty_id) + discover_tys(store, p.parameters)
}

/// The clauses discovered while walking an unselected projection: only
/// its parameter types, since no trait has been selected.
pub open spec fn discover_unselected_projection(
    store: DeclarationStore,
    u: UnselectedProjectionTyV,
) -> Seq<ProgramClauseV> {
    discover_tys(store, u.parameters)
}

/// The clauses discovered while walking one proposition.
pub open spec fn discover_goal(store: DeclarationStore, g: DomainGoalV) -> Seq<ProgramClauseV> {
    match g {
        DomainGoalV::Holds(WhereClauseV::Implemented(tr)) => discover_trait_ref(store, tr),
        DomainGoalV::Holds(WhereClauseV::ProjectionEq(pe)) => discover_projection(
            store,
            pe.projection,
        ) + discover_ty(store, pe.ty),
        DomainGoalV::WellFormed(WellFormedV::Trait(tr)) => discover_trait_ref(store, tr),
        DomainGoalV::WellFormed(WellFormedV::Ty(ty)) => discover_ty(store, ty),
        DomainGoalV::FromEnv(FromEnvV::Trait(tr)) => discover_trait_ref(store, tr),
        DomainGoalV::FromEnv(FromEnvV::Ty(ty)) => discover_ty(store, ty),
        DomainGoalV::Normalize(n) => discover_projection(store, n.projection) + discover_ty(
            store,
            n.ty,
        ),
        DomainGoalV::UnselectedNormalize(n) => discover_unselected_projection(store, n.projection)
            + discover_ty(store, n.ty),
        DomainGoalV::IsLocal(ty) => discover_ty(store, ty),
        DomainGoalV::IsUpstream(ty) => discover_ty(store, ty),
        DomainGoalV::IsFullyVisible(ty) => discover_ty(store, ty),
        DomainGoalV::DownstreamType(ty) => discover_ty(store, ty),
        DomainGoalV::InScope(kind) => match_type_kind_clauses(store, kind),
        DomainGoalV::LocalImplAllowed(tr) => discover_trait_ref(store, tr),
        DomainGoalV::Compatible => Seq::empty(),
    }
}

/// The clauses discovered while walking each proposition of a list.
pub open spec fn discover_goals(store: DeclarationStore, gs: Seq<DomainGoalV>) -> Seq<
    ProgramClauseV,
>
    decreases gs,
{
    if gs.len() == 0 {
        Seq::empty()
    } else {
        discover_goals(store, gs.drop_last()) + discover_goal(store, gs.last())
    }
}

/// The clauses discovered while walking one program clause: its
/// consequence, then its conditions.
pub open spec fn discover_clause(store: DeclarationStore, c: ProgramClauseV) -> Seq<
    ProgramClauseV,
> {
    discover_goal(store, c.consequence) + discover_goals(store, c.conditions)
}

/// Walking one more type at the end of a list discovers the clauses of
/// the list, then those of the type.
pub broadcast proof fn lemma_discover_tys_push(store: DeclarationStore, s: Seq<TyV>, t: TyV)
    ensures
        #[trigger] discover_tys(store, s.push(t)) == discover_tys(store, s) + discover_ty(
            store,
            t,
        ),
{
    assert(s.push(t).drop_last() =~= s);
}

/// Walking one more proposition at the end of a list discovers the
/// clauses of the list, then those of the proposition.
pub broadcast proof fn lemma_discover_goals_push(
    store: DeclarationStore,
    s: Seq<DomainGoalV>,
    g: DomainGoalV,
)
    ensures
        #[trigger] discover_goals(store, s.push(g)) == discover_goals(store, s) + discover_goal(
            store,
            g,
        ),
{
    assert(s.push(g).drop_last() =~= s);
}

/// Walk a type term, appending every discovered clause to `out`.
pub fn visit_ty(db: &DeclarationStore, ty: &Ty, out: &mut Vec<ProgramClause>)
    ensures
        clause_views(final(out)@) == clause_views(old(out)@) + discover_ty(*db, ty@),
    decreases ty,
{
    match ty {
        Ty::Apply(a) => {
            match a.name {
                TypeName::TypeKindId(kind) => match_type_kind(db, kind, out),
                TypeName::Placeholder(_) => (),
                TypeName::AssociatedType(id) => match db.associated_ty_data(id) {
                    Option::Some(d) => d.to_program_clauses(out),
                    Option::None => (),
                },
            }
            visit_tys(db, &a.parameters, out);
            proof {
                assert(clause_views(out@) =~= clause_views(old(out)@) + discover_ty(*db, ty@));
            }
        },
        Ty::Projection(p) => {
            match db.associated_ty_data(p.associated_ty_id) {
                Option::Some(d) => d.to_program_clauses(out),
                Option::None => (),
            }
            visit_tys(db, &p.parameters, out);
            proof {
                assert(clause_views(out@) =~= clause_views(old(out)@) + discover_ty(*db, ty@));
            }
        },
        Ty::UnselectedProjection(u) => {
            visit_tys(db, &u.parameters, out);
        },
        Ty::ForAll(q) => {
            visit_ty(db, &q.ty, out);
        },
        Ty::BoundVar(_) => (),
        Ty::InferenceVar(_) => (),
    }
}

/// Walk each type of a list, appending every discovered clause to `out`.
pub fn visit_tys(db: &DeclarationStore, tys: &Vec<Ty>, out: &mut Vec<ProgramClause>)
    ensures
        clause_views(final(out)@) == clause_views(old(out)@) + discover_tys(*db, ty_views(tys@)),
    decreases tys,
{
    let mut i: usize = 0;
    while i < tys.len()
        invariant
            i <= tys@.len(),
            clause_views(out@) == clause_views(old(out)@) + discover_tys(
                *db,
                ty_views(tys@.take(i as int)),
            ),
        decreases tys@.len() - i,
    {
        visit_ty(db, &tys[i], out);
        proof {
            broadcast use {crate::ir::group_ir_views, lemma_discover_tys_push};

            assert(tys@.take(i + 1).drop_last() =~= tys@.take(i as int));
            assert(ty_views(tys@.take(i + 1)) == ty_views(tys@.take(i as int)).push(
                tys@[i as int]@,
            ));
        }
        i += 1;
    }
    proof {
        assert(tys@.take(tys@.len() as int) =~= tys@);
    }
}

/// Walk a trait reference, appending every discovered clause to `out`.
pub fn visit_trait_ref(db: &DeclarationStore, tr: &TraitRef, out: &mut Vec<ProgramClause>)
    ensures
        clause_views(final(out)@) == clause_views(old(out)@) + discover_trait_ref(*db, tr@),
{
    match db.trait_datum(tr.trait_id) {
        Option::Some(d) => d.to_program_clauses(out),
        Option::None => (),
    }
    visit_tys(db, &tr.parameters, out);
    proof {
        assert(clause_views(out@) =~= clause_views(old(out)@) + discover_trait_ref(*db, tr@));
    }
}

/// Walk a projection, appending every discovered clause to `out`.
pub fn visit_projection(db: &DeclarationStore, p: &ProjectionTy, out: &mut Vec<ProgramClause>)
    ensures
        clause_views(final(out)@) == clause_views(old(out)@) + discover_projection(*db, p@),
{
    match db.associated_ty_data(p.associated_ty_id) {
        Option::Some(d) => d.to_program_clauses(out),
        Option::None => (),
    }
    visit_tys(db, &p.parameters, out);
    proof {
        assert(clause_views(out@) =~= clause_views(old(out)@) + discover_projection(*db, p@));
    }
}

/// Walk one proposition, appending every discovered clause to `out`.
pub fn visit_goal(db: &DeclarationStore, g: &DomainGoal, out: &mut Vec<ProgramClause>)
    ensures
        clause_views(final(out)@) == clause_views(old(out)@) + discover_goal(*db, g@),
{
    match g {
        DomainGoal::Holds(WhereClause::Implemented(tr)) => visit_trait_ref(db, tr, out),
        DomainGoal::Holds(WhereClause::ProjectionEq(pe)) => {
            visit_projection(db, &pe.projection, out);
            visit_ty(db, &pe.ty, out);
            proof {
                assert(clause_views(out@) =~= clause_views(old(out)@) + discover_goal(*db, g@));
            }
        },
        DomainGoal::WellFormed(WellFormed::Trait(tr)) => visit_trait_ref(db, tr, out),
        DomainGoal::WellFormed(WellFormed::Ty(ty)) => visit_ty(db, ty, out),
        DomainGoal::FromEnv(FromEnv::Trait(tr)) => visit_trait_ref(db, tr, out),
        DomainGoal::FromEnv(FromEnv::Ty(ty)) => visit_ty(db, ty, out),
        DomainGoal::Normalize(n) => {
            visit_projection(db, &n.projection, out);
            visit_ty(db, &n.ty, out);
            proof {
                assert(clause_views(out@) =~= clause_views(old(out)@) + discover_goal(*db, g@));
            }
        },
        DomainGoal::UnselectedNormalize(n) => {
            visit_tys(db, &n.projection.parameters, out);
            visit_ty(db, &n.ty, out);
            proof {
                assert(clause_views(out@) =~= clause_views(old(out)@) + discover_goal(*db, g@));
            }
        },
        DomainGoal::IsLocal(ty) => visit_ty(db, ty, out),
        DomainGoal::IsUpstream(ty) => visit_ty(db, ty, out),
        DomainGoal::IsFullyVisible(ty) => visit_ty(db, ty, out),
        DomainGoal::DownstreamType(ty) => visit_ty(db, ty, out),
        DomainGoal::InScope(kind) => match_type_kind(db, *kind, out),
        DomainGoal::LocalImplAllowed(tr) => visit_trait_ref(db, tr, out),
        DomainGoal::Compatible => (),
    }
}

/// Walk each proposition of a list, appending every discovered clause to
/// `out`.
pub fn visit_goals(db: &DeclarationStore, gs: &Vec<DomainGoal>, out: &mut Vec<ProgramClause>)
    ensures
        clause_views(final(out)@) == clause_views(old(out)@) + discover_goals(
            *db,
            goal_views(gs@),
        ),
{
    let mut i: usize = 0;
    while i < gs.len()
        invariant
            i <= gs@.len(),
            clause_views(out@) == clause_views(old(out)@) + discover_goals(
                *db,
                goal_views(gs@.take(i as int)),
            ),
        decreases gs@.len() - i,
    {
        visit_goal(db, &gs[i], out);
        proof {
            broadcast use {crate::ir::group_ir_views, lemma_discover_goals_push};

            assert(gs@.take(i + 1).drop_last() =~= gs@.take(i as int));
            assert(goal_views(gs@.take(i + 1)) == goal_views(gs@.take(i as int)).push(
                gs@[i as int]@,
            ));
        }
        i += 1;
    }
    proof {
        assert(gs@.take(gs@.len() as int) =~= gs@);
    }
}

/// Walk one program clause — its consequence, then its conditions —
/// appending every discovered clause to `out`.
pub fn visit_program_clause(db: &DeclarationStore, c: &ProgramClause, out: &mut Vec<ProgramClause>)
    ensures
        clause_views(final(out)@) == clause_views(old(out)@) + discover_clause(*db, c@),
{
    visit_goal(db, &c.consequence, out);
    visit_goals(db, &c.conditions, out);
    proof {
        assert(clause_views(out@) =~= clause_views(old(out)@) + discover_clause(*db, c@));
    }
}

/// A clause of `a` is a clause of `a + b`.
pub proof fn lemma_contains_left(a: Seq<ProgramClauseV>, b: Seq<ProgramClauseV>, c: ProgramClauseV)
    requires
        a.contains(c),
    ensures
        (a + b).contains(c),
{
    let i = choose|i: int| 0 <= i < a.len() && a[i] == c;
    assert((a + b)[i] == c);
}

/// A clause of `b` is a clause of `a + b`.
pub proof fn lemma_contains_right(
    a: Seq<ProgramClauseV>,
    b: Seq<ProgramClauseV>,
    c: ProgramClauseV,
)
    requires
        b.contains(c),
    ensures
        (a + b).contains(c),
{
    let i = choose|i: int| 0 <= i < b.len() && b[i] == c;
    assert((a + b)[a.len() + i] == c);
}

/// A clause of `a + b` is a clause of `a` or of `b`.
pub proof fn lemma_contains_split(
    a: Seq<ProgramClauseV>,
    b: Seq<ProgramClauseV>,
    c: ProgramClauseV,
)
    requires
        (a + b).contains(c),
    ensures
        a.contains(c) || b.contains(c),
{
    let i = choose|i: int| 0 <= i < (a + b).len() && (a + b)[i] == c;
    if i < a.len() {
        assert(a[i] == c);
    } else {
        assert(b[i - a.len()] == c);
    }
}

/// Every clause stored in a trait table, in table order.
pub open spec fn trait_table_clauses(entries: Seq<TraitEntry>) -> Seq<ProgramClauseV>
    decreases entries.len(),
{
    if entries.len() == 0 {
        Seq::empty()
    } else {
        clause_views(entries[0].datum.clauses@) + trait_table_clauses(entries.drop_first())
    }
}

/// Every clause stored in a struct table, in table order.
pub open spec fn struct_table_clauses(entries: Seq<StructEntry>) -> Seq<ProgramClauseV>
    decreases entries.len(),
{
    if entries.len() == 0 {
        Seq::empty()
    } else {
        clause_views(entries[0].datum.clauses@) + struct_table_clauses(entries.drop_first())
    }
}

/// Every clause stored in an associated-type table, in table order.
pub open spec fn assoc_table_clauses(entries: Seq<AssocTyEntry>) -> Seq<ProgramClauseV>
    decreases entries.len(),
{
    if entries.len() == 0 {
        Seq::empty()
    } else {
        clause_views(entries[0].datum.clauses@) + assoc_table_clauses(entries.drop_first())
    }
}

/// Every clause stored anywhere in the declaration store. The closure
/// engine can only ever discover clauses from this finite collection,
/// which is what makes its fixed point reachable.
pub open spec fn store_clauses(store: DeclarationStore) -> Seq<ProgramClauseV> {
    trait_table_clauses(store.traits@) + struct_table_clauses(store.structs@)
        + assoc_table_clauses(store.assoc_tys@)
}

/// A clause of a looked-up trait declaration is stored in the table.
pub proof fn lemma_trait_clauses_in_table(store: DeclarationStore, id: crate::ir::TraitId, c: ProgramClauseV)
    requires
        store.spec_trait_clauses(id).contains(c),
    ensures
        trait_table_clauses(store.traits@).contains(c),
{
    lemma_trait_lookup_in_table(store.traits@, id, c);
}

proof fn lemma_trait_lookup_in_table(entries: Seq<TraitEntry>, id: crate::ir::TraitId, c: ProgramClauseV)
    requires
        crate::store::trait_lookup(entries, id) matches Option::Some(d) && clause_views(
            d.clauses@,
        ).contains(c),
    ensures
        trait_table_clauses(entries).contains(c),
    decreases entries.len(),
{
    if entries[0].id == id {
        lemma_contains_left(
            clause_views(entries[0].datum.clauses@),
            trait_table_clauses(entries.drop_first()),
            c,
        );
    } else {
        lemma_trait_lookup_in_table(entries.drop_first(), id, c);
        lemma_contains_right(
            clause_views(entries[0].datum.clauses@),
            trait_table_clauses(entries.drop_first()),
            c,
        );
    }
}

/// A clause of a looked-up struct declaration is stored in the table.
pub proof fn lemma_struct_clauses_in_table(store: DeclarationStore, id: crate::ir::StructId, c: ProgramClauseV)
    requires
        store.spec_struct_clauses(id).contains(c),
    ensures
        struct_table_clauses(store.structs@).contains(c),
{
    lemma_struct_lookup_in_table(store.structs@, id, c);
}

proof fn lemma_struct_lookup_in_table(entries: Seq<StructEntry>, id: crate::ir::StructId, c: ProgramClauseV)
    requires
        crate::store::struct_lookup(entries, id) matches Option::Some(d) && clause_views(
            d.clauses@,
        ).contains(c),
    ensures
        struct_table_clauses(entries).contains(c),
    decreases entries.len(),
{
    if entries[0].id == id {
        lemma_contains_left(
            clause_views(entries[0].datum.clauses@),
            struct_table_clauses(entries.drop_first()),
            c,
        );
    } else {
        lemma_struct_lookup_in_table(entries.drop_first(), id, c);
        lemma_contains_right(
            clause_views(entries[0].datum.clauses@),
            struct_table_clauses(entries.drop_first()),
            c,
        );
    }
}

/// A clause of a looked-up associated-type declaration is stored in the
/// table.
pub proof fn lemma_assoc_clauses_in_table(store: DeclarationStore, id: crate::ir::TypeId, c: ProgramClauseV)
    requires
        store.spec_assoc_ty_clauses(id).contains(c),
    ensures
        assoc_table_clauses(store.assoc_tys@).contains(c),
{
    lemma_assoc_lookup_in_table(store.assoc_tys@, id, c);
}

proof fn lemma_assoc_lookup_in_table(entries: Seq<AssocTyEntry>, id: crate::ir::TypeId, c: ProgramClauseV)
    requires
        crate::store::assoc_ty_lookup(entries, id) matches Option::Some(d) && clause_views(
            d.clauses@,
        ).contains(c),
    ensures
        assoc_table_clauses(entries).contains(c),
    decreases entries.len(),
{
    if entries[0].id == id {
        lemma_contains_left(
            clause_views(entries[0].datum.clauses@),
            assoc_table_clauses(entries.drop_first()),
            c,
        );
    } else {
        lemma_assoc_lookup_in_table(entries.drop_first(), id, c);
        lemma_contains_right(
            clause_views(entries[0].datum.clauses@),
            assoc_table_clauses(entries.drop_first()),
            c,
        );
    }
}

/// A clause of any declared entity is a stored clause.
pub proof fn lemma_match_type_kind_in_store(
    store: DeclarationStore,
    kind: TypeKindId,
    c: ProgramClauseV,
)
    requires
        match_type_kind_clauses(store, kind).contains(c),
    ensures
        store_clauses(store).contains(c),
{
    let t = trait_table_clauses(store.traits@);
    let s = struct_table_clauses(store.structs@);
    let a = assoc_table_clauses(store.assoc_tys@);
    match kind {
        TypeKindId::TypeId(id) => {
            lemma_assoc_clauses_in_table(store, id, c);
            lemma_contains_right(t + s, a, c);
        },
        TypeKindId::TraitId(id) => {
            lemma_trait_clauses_in_table(store, id, c);
            lemma_contains_left(t, s, c);
            lemma_contains_left(t + s, a, c);
        },
        TypeKindId::StructId(id) => {
            lemma_struct_clauses_in_table(store, id, c);
            lemma_contains_right(t, s, c);
            lemma_contains_left(t + s, a, c);
        },
    }
}

/// A clause of a declared associated type is a stored clause.
pub proof fn lemma_assoc_in_store(store: DeclarationStore, id: crate::ir::TypeId, c: ProgramClauseV)
    requires
        store.spec_assoc_ty_clauses(id).contains(c),
    ensures
        store_clauses(store).contains(c),
{
    let t = trait_table_clauses(store.traits@);
    let s = struct_table_clauses(store.structs@);
    let a = assoc_table_clauses(store.assoc_tys@);
    lemma_assoc_clauses_in_table(store, id, c);
    lemma_contains_right(t + s, a, c);
}

/// Whatever the walk of a type discovers is a stored clause.
pub proof fn lemma_discover_ty_in_store(store: DeclarationStore, ty: TyV, c: ProgramClauseV)
    requires
        discover_ty(store, ty).contains(c),
    ensures
        store_clauses(store).contains(c),
    decreases ty,
{
    match ty {
        TyV::Apply(a) => {
            let base = match a.name {
                TypeName::TypeKindId(kind) => match_type_kind_clauses(store, kind),
                TypeName::Placeholder(_) => Seq::empty(),
                TypeName::AssociatedType(id) => store.spec_assoc_ty_clauses(id),
            };
            lemma_contains_split(base, discover_tys(store, a.parameters), c);
            if base.contains(c) {
                match a.name {
                    TypeName::TypeKindId(kind) => lemma_match_type_kind_in_store(store, kind, c),
                    TypeName::Placeholder(_) => assert(false),
                    TypeName::AssociatedType(id) => lemma_assoc_in_store(store, id, c),
                }
            } else {
                lemma_discover_tys_in_store(store, a.parameters, c);
            }
        },
        TyV::Projection(p) => {
            lemma_contains_split(
                store.spec_assoc_ty_clauses(p.associated_ty_id),
                discover_tys(store, p.parameters),
                c,
            );
            if store.spec_assoc_ty_clauses(p.associated_ty_id).contains(c) {
                lemma_assoc_in_store(store, p.associated_ty_id, c);
            } else {
                lemma_discover_tys_in_store(store, p.parameters, c);
            }
        },
        TyV::UnselectedProjection(u) => {
            lemma_discover_tys_in_store(store, u.parameters, c);
        },
        TyV::ForAll { num_binders: _, ty: inner } => {
            lemma_discover_ty_in_store(store, *inner, c);
        },
        TyV::BoundVar { .. } => assert(false),
        TyV::InferenceVar { .. } => assert(false),
    }
}

/// Whatever the walk of a type list discovers is a stored clause.
pub proof fn lemma_discover_tys_in_store(store: DeclarationStore, tys: Seq<TyV>, c: ProgramClauseV)
    requires
        discover_tys(store, tys).contains(c),
    ensures
        store_clauses(store).contains(c),
    decreases tys,
{
    lemma_contains_split(discover_tys(store, tys.drop_last()), discover_ty(store, tys.last()), c);
    if discover_tys(store, tys.drop_last()).contains(c) {
        lemma_discover_tys_in_store(store, tys.drop_last(), c);
    } else {
        lemma_discover_ty_in_store(store, tys.last(), c);
    }
}

/// Whatever the walk of a trait reference discovers is a stored clause.
pub proof fn lemma_discover_trait_ref_in_store(
    store: DeclarationStore,
    tr: TraitRefV,
    c: ProgramClauseV,
)
    requires
        discover_trait_ref(store, tr).contains(c),
    ensures
        store_clauses(store).contains(c),
{
    lemma_contains_split(
        store.spec_trait_clauses(tr.trait_id),
        discover_tys(store, tr.parameters),
        c,
    );
    if store.spec_trait_clauses(tr.trait_id).contains(c) {
        let t = trait_table_clauses(store.traits@);
        let s = struct_table_clauses(store.structs@);
        let a = assoc_table_clauses(store.assoc_tys@);
        lemma_trait_clauses_in_table(store, tr.trait_id, c);
        lemma_contains_left(t, s, c);
        lemma_contains_left(t + s, a, c);
    } else {
        lemma_discover_tys_in_store(store, tr.parameters, c);
    }
}

/// Whatever the walk of a projection discovers is a stored clause.
pub proof fn lemma_discover_projection_in_store(
    store: DeclarationStore,
    p: ProjectionTyV,
    c: ProgramClauseV,
)
    requires
        discover_projection(store, p).contains(c),
    ensures
        store_clauses(store).contains(c),
{
    lemma_contains_split(
        store.spec_assoc_ty_clauses(p.associated_ty_id),
        discover_tys(store, p.parameters),
        c,
    );
    if store.spec_assoc_ty_clauses(p.associated_ty_id).contains(c) {
        lemma_assoc_in_store(store, p.associated_ty_id, c);
    } else {
        lemma_discover_tys_in_store(store, p.parameters, c);
    }
}

/// Whatever the walk of a proposition discovers is a stored clause.
pub proof fn lemma_discover_goal_in_store(store: DeclarationStore, g: DomainGoalV, c: ProgramClauseV)
    requires
        discover_goal(store, g).contains(c),
    ensures
        store_clauses(store).contains(c),
{
    match g {
        DomainGoalV::Holds(WhereClauseV::Implemented(tr)) => lemma_discover_trait_ref_in_store(
            store,
            tr,
            c,
        ),
        DomainGoalV::Holds(WhereClauseV::ProjectionEq(pe)) => {
            lemma_contains_split(
                discover_projection(store, pe.projection),
                discover_ty(store, pe.ty),
                c,
            );
            if discover_projection(store, pe.projection).contains(c) {
                lemma_discover_projection_in_store(store, pe.projection, c);
            } else {
                lemma_discover_ty_in_store(store, pe.ty, c);
            }
        },
        DomainGoalV::WellFormed(WellFormedV::Trait(tr)) => lemma_discover_trait_ref_in_store(
            store,
            tr,
            c,
        ),
        DomainGoalV::WellFormed(WellFormedV::Ty(ty)) => lemma_discover_ty_in_store(store, ty, c),
        DomainGoalV::FromEnv(FromEnvV::Trait(tr)) => lemma_discover_trait_ref_in_store(
            store,
            tr,
            c,
        ),
        DomainGoalV::FromEnv(FromEnvV::Ty(ty)) => lemma_discover_ty_in_store(store, ty, c),
        DomainGoalV::Normalize(n) => {
            lemma_contains_split(
                discover_projection(store, n.projection),
                discover_ty(store, n.ty),
                c,
            );
            if discover_projection(store, n.projection).contains(c) {
                lemma_discover_projection_in_store(store, n.projection, c);
            } else {
                lemma_discover_ty_in_store(store, n.ty, c);
            }
        },
        DomainGoalV::UnselectedNormalize(n) => {
            lemma_contains_split(
                discover_unselected_projection(store, n.projection),
                discover_ty(store, n.ty),
                c,
            );
            if discover_unselected_projection(store, n.projection).contains(c) {
                lemma_discover_tys_in_store(store, n.projection.parameters, c);
            } else {
                lemma_discover_ty_in_store(store, n.ty, c);
            }
        },
        DomainGoalV::IsLocal(ty) => lemma_discover_ty_in_store(store, ty, c),
        DomainGoalV::IsUpstream(ty) => lemma_discover_ty_in_store(store, ty, c),
        DomainGoalV::IsFullyVisible(ty) => lemma_discover_ty_in_store(store, ty, c),
        DomainGoalV::DownstreamType(ty) => lemma_discover_ty_in_store(store, ty, c),
        DomainGoalV::InScope(kind) => lemma_match_type_kind_in_store(store, kind, c),
        DomainGoalV::LocalImplAllowed(tr) => lemma_discover_trait_ref_in_store(store, tr, c),
        DomainGoalV::Compatible => assert(false),
    }
}

/// Whatever the walk of a condition list discovers is a stored clause.
pub proof fn lemma_discover_goals_in_store(
    store: DeclarationStore,
    gs: Seq<DomainGoalV>,
    c: ProgramClauseV,
)
    requires
        discover_goals(store, gs).contains(c),
    ensures
        store_clauses(store).contains(c),
    decreases gs,
{
    lemma_contains_split(
        discover_goals(store, gs.drop_last()),
        discover_goal(store, gs.last()),
        c,
    );
    if discover_goals(store, gs.drop_last()).contains(c) {
        lemma_discover_goals_in_store(store, gs.drop_last(), c);
    } else {
        lemma_discover_goal_in_store(store, gs.last(), c);
    }
}

/// Whatever the walk of a program clause discovers is a stored clause.
pub proof fn lemma_discover_clause_in_store(
    store: DeclarationStore,
    d: ProgramClauseV,
    c: ProgramClauseV,
)
    requires
        discover_clause(store, d).contains(c),
    ensures
        store_clauses(store).contains(c),
{
    lemma_contains_split(
        discover_goal(store, d.consequence),
        discover_goals(store, d.conditions),
        c,
    );
    if discover_goal(store, d.consequence).contains(c) {
        lemma_discover_goal_in_store(store, d.consequence, c);
    } else {
        lemma_discover_goals_in_store(store, d.conditions, c);
    }
}

/// Everything discovered in one round: the walk of each clause of a
/// list, in order.
pub open spec fn discover_all(store: DeclarationStore, cs: Seq<ProgramClauseV>) -> Seq<
    ProgramClauseV,
>
    decreases cs.len(),
{
    if cs.len() == 0 {
        Seq::empty()
    } else {
        discover_all(store, cs.drop_last()) + discover_clause(store, cs.last())
    }
}

/// Walking one more clause at the end of a round discovers the round's
/// clauses, then that clause's.
pub broadcast proof fn lemma_discover_all_push(
    store: DeclarationStore,
    s: Seq<ProgramClauseV>,
    c: ProgramClauseV,
)
    ensures
        #[trigger] discover_all(store, s.push(c)) == discover_all(store, s) + discover_clause(
            store,
            c,
        ),
{
    assert(s.push(c).drop_last() =~= s);
}

/// What the walk of any listed clause finds, the round finds.
pub proof fn lemma_discover_all_contains(
    store: DeclarationStore,
    cs: Seq<ProgramClauseV>,
    i: int,
    c: ProgramClauseV,
)
    requires
        0 <= i < cs.len(),
        discover_clause(store, cs[i]).contains(c),
    ensures
        discover_all(store, cs).contains(c),
    decreases cs.len(),
{
    if i == cs.len() - 1 {
        lemma_contains_right(
            discover_all(store, cs.drop_last()),
            discover_clause(store, cs.last()),
            c,
        );
    } else {
        assert(cs.drop_last()[i] == cs[i]);
        lemma_discover_all_contains(store, cs.drop_last(), i, c);
        lemma_contains_left(
            discover_all(store, cs.drop_last()),
            discover_clause(store, cs.last()),
            c,
        );
    }
}

/// What a round finds, the walk of some listed clause found.
pub proof fn lemma_discover_all_from(
    store: DeclarationStore,
    cs: Seq<ProgramClauseV>,
    c: ProgramClauseV,
)
    requires
        discover_all(store, cs).contains(c),
    ensures
        exists|i: int|
            0 <= i < cs.len() && #[trigger] discover_clause(store, cs[i]).contains(c),
    decreases cs.len(),
{
    lemma_contains_split(
        discover_all(store, cs.drop_last()),
        discover_clause(store, cs.last()),
        c,
    );
    if discover_all(store, cs.drop_last()).contains(c) {
        lemma_discover_all_from(store, cs.drop_last(), c);
        let i = choose|i: int|
            0 <= i < cs.drop_last().len() && #[trigger] discover_clause(
                store,
                cs.drop_last()[i],
            ).contains(c);
        assert(cs.drop_last()[i] == cs[i]);
        assert(discover_clause(store, cs[i]).contains(c));
    } else {
        assert(discover_clause(store, cs[cs.len() - 1]).contains(c));
    }
}

/// One discovery step applied to every member of a set of clauses.
pub open spec fn discover_from(store: DeclarationStore, s: Set<ProgramClauseV>) -> Set<
    ProgramClauseV,
> {
    Set::new(
        |c: ProgramClauseV|
            exists|d: ProgramClauseV|
                s.contains(d) && #[trigger] discover_clause(store, d).contains(c),
    )
}

/// The clauses reachable from the environment in at most `n + 1`
/// discovery rounds.
pub open spec fn reach(store: DeclarationStore, env: Seq<ProgramClauseV>, n: nat) -> Set<
    ProgramClauseV,
>
    decreases n,
{
    if n == 0 {
        discover_all(store, env).to_set()
    } else {
        reach(store, env, (n - 1) as nat).union(
            discover_from(store, reach(store, env, (n - 1) as nat)),
        )
    }
}

/// The closure of the environment: every clause reachable from it in
/// any finite number of discovery rounds. This is what
/// `close_environment` computes.
pub open spec fn env_closure_set(store: DeclarationStore, env: Seq<ProgramClauseV>) -> Set<
    ProgramClauseV,
> {
    Set::new(|c: ProgramClauseV| exists|n: nat| #[trigger] reach(store, env, n).contains(c))
}

/// Round-zero discoveries are in the closure.
pub proof fn lemma_closure_contains_round0(
    store: DeclarationStore,
    env: Seq<ProgramClauseV>,
    c: ProgramClauseV,
)
    requires
        discover_all(store, env).contains(c),
    ensures
        env_closure_set(store, env).contains(c),
{
    assert(reach(store, env, 0).contains(c));
}

/// The closure is closed under one more discovery step.
pub proof fn lemma_closure_step(
    store: DeclarationStore,
    env: Seq<ProgramClauseV>,
    d: ProgramClauseV,
    c: ProgramClauseV,
)
    requires
        env_closure_set(store, env).contains(d),
        discover_clause(store, d).contains(c),
    ensures
        env_closure_set(store, env).contains(c),
{
    let n = choose|n: nat| #[trigger] reach(store, env, n).contains(d);
    assert(discover_from(store, reach(store, env, n)).contains(c));
    assert(reach(store, env, (n + 1) as nat).contains(c));
}

proof fn lemma_reach_in(
    store: DeclarationStore,
    env: Seq<ProgramClauseV>,
    s: Set<ProgramClauseV>,
    n: nat,
)
    requires
        forall|c: ProgramClauseV| discover_all(store, env).contains(c) ==> s.contains(c),
        forall|d: ProgramClauseV, c: ProgramClauseV|
            s.contains(d) && #[trigger] discover_clause(store, d).contains(c) ==> s.contains(c),
    ensures
        forall|c: ProgramClauseV| #[trigger] reach(store, env, n).contains(c) ==> s.contains(c),
    decreases n,
{
    if n != 0 {
        lemma_reach_in(store, env, s, (n - 1) as nat);
        assert forall|c: ProgramClauseV| #[trigger]
            reach(store, env, n).contains(c) implies s.contains(c) by {
            if !reach(store, env, (n - 1) as nat).contains(c) {
                assert(discover_from(store, reach(store, env, (n - 1) as nat)).contains(c));
                let d = choose|d: ProgramClauseV|
                    reach(store, env, (n - 1) as nat).contains(d)
                        && #[trigger] discover_clause(store, d).contains(c);
                assert(s.contains(d));
            }
        }
    }
}

/// The closure is the least set that contains the round-zero
/// discoveries and is closed under discovery.
pub proof fn lemma_closure_least(
    store: DeclarationStore,
    env: Seq<ProgramClauseV>,
    s: Set<ProgramClauseV>,
)
    requires
        forall|c: ProgramClauseV| discover_all(store, env).contains(c) ==> s.contains(c),
        forall|d: ProgramClauseV, c: ProgramClauseV|
            s.contains(d) && #[trigger] discover_clause(store, d).contains(c) ==> s.contains(c),
    ensures
        forall|c: ProgramClauseV| #[trigger] env_closure_set(store, env).contains(c) ==> s.contains(
            c,
        ),
{
    assert forall|c: ProgramClauseV| #[trigger]
        env_closure_set(store, env).contains(c) implies s.contains(c) by {
        let n = choose|n: nat| #[trigger] reach(store, env, n).contains(c);
        lemma_reach_in(store, env, s, n);
    }
}

/// Everything in the closure is a stored clause.
pub proof fn lemma_closure_in_store(
    store: DeclarationStore,
    env: Seq<ProgramClauseV>,
    c: ProgramClauseV,
)
    requires
        env_closure_set(store, env).contains(c),
    ensures
        store_clauses(store).contains(c),
{
    let s = store_clauses(store).to_set();
    assert forall|x: ProgramClauseV| discover_all(store, env).contains(x) implies s.contains(
        x,
    ) by {
        lemma_discover_all_from(store, env, x);
        let i = choose|i: int|
            0 <= i < env.len() && #[trigger] discover_clause(store, env[i]).contains(x);
        lemma_discover_clause_in_store(store, env[i], x);
    }
    assert forall|d: ProgramClauseV, x: ProgramClauseV|
        s.contains(d) && #[trigger] discover_clause(store, d).contains(x) implies s.contains(
        x,
    ) by {
        lemma_discover_clause_in_store(store, d, x);
    }
    lemma_closure_least(store, env, s);
}

/// Closing the empty environment yields the empty set.
pub proof fn lemma_close_empty_environment(store: DeclarationStore)
    ensures
        env_closure_set(store, Seq::<ProgramClauseV>::empty()) == Set::<ProgramClauseV>::empty(),
{
    let s = Set::<ProgramClauseV>::empty();
    lemma_closure_least(store, Seq::<ProgramClauseV>::empty(), s);
    assert(env_closure_set(store, Seq::<ProgramClauseV>::empty()) =~= s);
}

/// Re-closing a closed set is a no-op: whatever the closure of a set of
/// already-closed clauses contains was already in the original closure.
pub proof fn lemma_close_environment_idempotent(
    store: DeclarationStore,
    env1: Seq<ProgramClauseV>,
    env2: Seq<ProgramClauseV>,
)
    requires
        forall|i: int|
            0 <= i < env2.len() ==> env_closure_set(store, env1).contains(#[trigger] env2[i]),
    ensures
        forall|c: ProgramClauseV| #[trigger]
            env_closure_set(store, env2).contains(c) ==> env_closure_set(store, env1).contains(c),
{
    let s = env_closure_set(store, env1);
    assert forall|c: ProgramClauseV| discover_all(store, env2).contains(c) implies s.contains(
        c,
    ) by {
        lemma_discover_all_from(store, env2, c);
        let i = choose|i: int|
            0 <= i < env2.len() && #[trigger] discover_clause(store, env2[i]).contains(c);
        lemma_closure_step(store, env1, env2[i], c);
    }
    assert forall|d: ProgramClauseV, c: ProgramClauseV|
        s.contains(d) && #[trigger] discover_clause(store, d).contains(c) implies s.contains(
        c,
    ) by {
        lemma_closure_step(store, env1, d, c);
    }
    lemma_closure_least(store, env2, s);
}

/// Two closures of the same environment against the same store hold
/// exactly the same clauses, however their elements are ordered.
pub proof fn lemma_close_environment_deterministic(
    store: DeclarationStore,
    env: Seq<ProgramClauseV>,
    r1: Seq<ProgramClauseV>,
    r2: Seq<ProgramClauseV>,
)
    requires
        r1.to_set() == env_closure_set(store, env),
        r2.to_set() == env_closure_set(store, env),
    ensures
        forall|c: ProgramClauseV| r1.contains(c) <==> r2.contains(c),
{
    assert forall|c: ProgramClauseV| r1.contains(c) <==> r2.contains(c) by {
        assert(r1.to_set().contains(c) == r1.contains(c));
        assert(r2.to_set().contains(c) == r2.contains(c));
    }
}

/// Whether some clause of `v` is structurally equal to `c`.
pub fn contains_clause(v: &Vec<ProgramClause>, c: &ProgramClause) -> (r: bool)
    ensures
        r == clause_views(v@).contains(c@),
{
    let mut i: usize = 0;
    while i < v.len()
        invariant
            i <= v@.len(),
            forall|j: int| 0 <= j < i ==> clause_views(v@)[j] != c@,
        decreases v@.len() - i,
    {
        if crate::eq::program_clause_eq(&v[i], c) {
            proof {
                broadcast use crate::ir::group_ir_views;

                assert(clause_views(v@)[i as int] == c@);
            }
            return true;
        }
        proof {
            broadcast use crate::ir::group_ir_views;

        }
        i += 1;
    }
    proof {
        broadcast use crate::ir::group_ir_views;

        if clause_views(v@).contains(c@) {
            let j = choose|j: int|
                0 <= j < clause_views(v@).len() && clause_views(v@)[j] == c@;
            assert(false);
        }
    }
    false
}

/// Appending a fresh element keeps a sequence duplicate-free.
pub proof fn lemma_push_no_duplicates(s: Seq<ProgramClauseV>, x: ProgramClauseV)
    requires
        s.no_duplicates(),
        !s.contains(x),
    ensures
        s.push(x).no_duplicates(),
{
    assert forall|i: int, j: int|
        0 <= i < s.push(x).len() && 0 <= j < s.push(x).len() && i != j implies s.push(x)[i]
        != s.push(x)[j] by {
        if i < s.len() && j < s.len() {
        } else if i < s.len() {
            assert(s.push(x)[i] == s[i] && s.push(x)[j] == x);
        } else if j < s.len() {
            assert(s.push(x)[j] == s[j] && s.push(x)[i] == x);
        }
    }
}

/// Insert a copy of each clause of `src` whose model is not yet in
/// `closure`, in order; the inserted clauses are returned, so a round of
/// the closure engine can treat exactly the newly inserted clauses as
/// its next frontier.
fn insert_new_clauses(closure: &mut Vec<ProgramClause>, src: &Vec<ProgramClause>) -> (added: Vec<
    ProgramClause,
>)
    requires
        clause_views(old(closure)@).no_duplicates(),
    ensures
        clause_views(final(closure)@) == clause_views(old(closure)@) + clause_views(added@),
        clause_views(final(closure)@).no_duplicates(),
        forall|c: ProgramClauseV| #[trigger]
            clause_views(final(closure)@).contains(c) <==> (clause_views(old(closure)@).contains(c)
                || clause_views(src@).contains(c)),
        forall|c: ProgramClauseV| #[trigger]
            clause_views(added@).contains(c) ==> clause_views(src@).contains(c),
{
    let mut added: Vec<ProgramClause> = Vec::new();
    let mut i: usize = 0;
    proof {
        broadcast use crate::ir::group_ir_views;

        assert(clause_views(closure@) =~= clause_views(old(closure)@) + clause_views(added@));
    }
    while i < src.len()
        invariant
            i <= src@.len(),
            clause_views(closure@) == clause_views(old(closure)@) + clause_views(added@),
            clause_views(closure@).no_duplicates(),
            forall|c: ProgramClauseV| #[trigger]
                clause_views(closure@).contains(c) <==> (clause_views(old(closure)@).contains(c)
                    || clause_views(src@.take(i as int)).contains(c)),
            forall|c: ProgramClauseV| #[trigger]
                clause_views(added@).contains(c) ==> clause_views(src@.take(i as int)).contains(c),
        decreases src@.len() - i,
    {
        let ghost closure_before = clause_views(closure@);
        let ghost added_before = clause_views(added@);
        let present = contains_clause(closure, &src[i]);
        if !present {
            closure.push(src[i].clone());
            added.push(src[i].clone());
        }
        proof {
            broadcast use crate::ir::group_ir_views;

            let x = src@[i as int]@;
            assert(src@.take(i + 1).drop_last() =~= src@.take(i as int));
            assert(clause_views(src@.take(i + 1)) == clause_views(src@.take(i as int)).push(x));
            lemma_push_contains(clause_views(src@.take(i as int)), x, x);
            if !present {
                lemma_push_no_duplicates(closure_before, x);
                assert(clause_views(closure@) =~= clause_views(old(closure)@) + clause_views(
                    added@,
                ));
            }
            assert forall|c: ProgramClauseV| #[trigger]
                clause_views(closure@).contains(c) == (clause_views(old(closure)@).contains(c)
                    || clause_views(src@.take(i + 1)).contains(c)) by {
                lemma_push_contains(clause_views(src@.take(i as int)), x, c);
                if !present {
                    lemma_push_contains(closure_before, x, c);
                } else {
                    assert(clause_views(closure@).contains(x));
                }
            }
            assert forall|c: ProgramClauseV| #[trigger]
                clause_views(added@).contains(c) implies clause_views(
                src@.take(i + 1),
            ).contains(c) by {
                lemma_push_contains(clause_views(src@.take(i as int)), x, c);
                if !present {
                    lemma_push_contains(added_before, x, c);
                }
            }
        }
        i += 1;
    }
    proof {
        assert(src@.take(src@.len() as int) =~= src@);
    }
    added
}

/// Compute the closure of the environment: walk every hypothesis, then
/// keep walking every newly discovered clause, breadth first,
/// deduplicating by structural equality, until a round discovers
/// nothing new. The result holds each clause of the closure exactly
/// once; its order carries no meaning.
pub fn close_environment(db: &DeclarationStore, environment: &Environment) -> (r: Vec<
    ProgramClause,
>)
    ensures
        clause_views(r@).no_duplicates(),
        clause_views(r@).to_set() == env_closure_set(*db, environment@),
{
    let ghost env = environment@;
    // Round zero: walk every hypothesis in the environment.
    let mut buf: Vec<ProgramClause> = Vec::new();
    let mut i: usize = 0;
    while i < environment.clauses.len()
        invariant
            i <= environment.clauses@.len(),
            clause_views(buf@) == discover_all(
                *db,
                clause_views(environment.clauses@.take(i as int)),
            ),
        decreases environment.clauses@.len() - i,
    {
        visit_program_clause(db, &environment.clauses[i], &mut buf);
        proof {
            broadcast use {crate::ir::group_ir_views, lemma_discover_all_push};

            assert(environment.clauses@.take(i + 1).drop_last() =~= environment.clauses@.take(
                i as int,
            ));
            assert(clause_views(environment.clauses@.take(i + 1)) == clause_views(
                environment.clauses@.take(i as int),
            ).push(environment.clauses@[i as int]@));
        }
        i += 1;
    }
    proof {
        assert(environment.clauses@.take(environment.clauses@.len() as int)
            =~= environment.clauses@);
        assert(clause_views(buf@) == discover_all(*db, env));
    }
    // Seed the closure with the round-zero discoveries.
    let mut closure: Vec<ProgramClause> = Vec::new();
    let mut frontier: Vec<ProgramClause> = insert_new_clauses(&mut closure, &buf);
    proof {
        broadcast use {vstd::seq_lib::seq_to_set_is_finite, vstd::set_lib::group_set_lib_default};

        assert forall|c: ProgramClauseV| #[trigger]
            clause_views(closure@).contains(c) implies env_closure_set(*db, env).contains(c) by {
            lemma_closure_contains_round0(*db, env, c);
        }
        assert forall|c: ProgramClauseV| #[trigger]
            clause_views(closure@).contains(c) implies store_clauses(*db).contains(c) by {
            lemma_closure_contains_round0(*db, env, c);
            lemma_closure_in_store(*db, env, c);
        }
        assert forall|c: ProgramClauseV| #[trigger]
            clause_views(frontier@).contains(c) implies clause_views(closure@).contains(c) by {}
        clause_views(closure@).unique_seq_to_set();
        assert(clause_views(closure@).to_set().subset_of(store_clauses(*db).to_set()));
        vstd::set_lib::lemma_len_subset(
            clause_views(closure@).to_set(),
            store_clauses(*db).to_set(),
        );
    }
    while frontier.len() > 0
        invariant
            clause_views(closure@).no_duplicates(),
            forall|c: ProgramClauseV| #[trigger]
                clause_views(frontier@).contains(c) ==> clause_views(closure@).contains(c),
            forall|c: ProgramClauseV| #[trigger]
                clause_views(closure@).contains(c) ==> env_closure_set(*db, env).contains(c),
            forall|c: ProgramClauseV|
                discover_all(*db, env).contains(c) ==> #[trigger] clause_views(
                    closure@,
                ).contains(c),
            forall|d: ProgramClauseV, c: ProgramClauseV|
                clause_views(closure@).contains(d) && !clause_views(frontier@).contains(d)
                    && #[trigger] discover_clause(*db, d).contains(c) ==> clause_views(
                    closure@,
                ).contains(c),
            forall|c: ProgramClauseV| #[trigger]
                clause_views(closure@).contains(c) ==> store_clauses(*db).contains(c),
            clause_views(closure@).len() <= store_clauses(*db).to_set().len(),
        decreases 2 * (store_clauses(*db).to_set().len() - clause_views(closure@).len())
            + frontier@.len(),
    {
        // Walk every clause of the frontier.
        let mut next_buf: Vec<ProgramClause> = Vec::new();
        let mut k: usize = 0;
        while k < frontier.len()
            invariant
                k <= frontier@.len(),
                clause_views(next_buf@) == discover_all(
                    *db,
                    clause_views(frontier@.take(k as int)),
                ),
            decreases frontier@.len() - k,
        {
            visit_program_clause(db, &frontier[k], &mut next_buf);
            proof {
                broadcast use {crate::ir::group_ir_views, lemma_discover_all_push};

                assert(frontier@.take(k + 1).drop_last() =~= frontier@.take(k as int));
                assert(clause_views(frontier@.take(k + 1)) == clause_views(
                    frontier@.take(k as int),
                ).push(frontier@[k as int]@));
            }
            k += 1;
        }
        proof {
            assert(frontier@.take(frontier@.len() as int) =~= frontier@);
        }
        let ghost closure_old = clause_views(closure@);
        let ghost frontier_old = clause_views(frontier@);
        // Insert what is new; it becomes the next frontier.
        let new_frontier = insert_new_clauses(&mut closure, &next_buf);
        frontier = new_frontier;
        proof {
            broadcast use {
                vstd::seq_lib::seq_to_set_is_finite,
                vstd::set_lib::group_set_lib_default,
            };

            broadcast use crate::ir::group_ir_views;

            // Every clause the round discovered is reachable and stored.
            assert forall|c: ProgramClauseV| #[trigger]
                clause_views(next_buf@).contains(c) implies env_closure_set(*db, env).contains(c)
                && store_clauses(*db).contains(c) by {
                lemma_discover_all_from(*db, frontier_old, c);
                let j = choose|j: int|
                    0 <= j < frontier_old.len() && #[trigger] discover_clause(
                        *db,
                        frontier_old[j],
                    ).contains(c);
                assert(frontier_old.contains(frontier_old[j]));
                assert(clause_views(closure@).contains(frontier_old[j]));
                lemma_closure_step(*db, env, frontier_old[j], c);
                lemma_discover_clause_in_store(*db, frontier_old[j], c);
            }
            // Every settled clause is fully expanded into the closure.
            assert forall|d: ProgramClauseV, c: ProgramClauseV|
                clause_views(closure@).contains(d) && !clause_views(frontier@).contains(d)
                    && #[trigger] discover_clause(*db, d).contains(c) implies clause_views(
                closure@,
            ).contains(c) by {
                if frontier_old.contains(d) {
                    let j = choose|j: int|
                        0 <= j < frontier_old.len() && frontier_old[j] == d;
                    lemma_discover_all_contains(*db, frontier_old, j, c);
                    assert(clause_views(next_buf@).contains(c));
                } else {
                    assert(closure_old.contains(d));
                    assert(closure_old.contains(c));
                }
            }
            assert forall|c: ProgramClauseV| #[trigger]
                clause_views(closure@).contains(c) implies env_closure_set(*db, env).contains(
                c,
            ) by {
                if !closure_old.contains(c) {
                    assert(clause_views(next_buf@).contains(c));
                }
            }
            assert forall|c: ProgramClauseV| #[trigger]
                clause_views(closure@).contains(c) implies store_clauses(*db).contains(c) by {
                if !closure_old.contains(c) {
                    assert(clause_views(next_buf@).contains(c));
                }
            }
            clause_views(closure@).unique_seq_to_set();
            assert(clause_views(closure@).to_set().subset_of(store_clauses(*db).to_set()));
            vstd::set_lib::lemma_len_subset(
                clause_views(closure@).to_set(),
                store_clauses(*db).to_set(),
            );
        }
    }
    proof {
        let s = clause_views(closure@).to_set();
        assert forall|c: ProgramClauseV| discover_all(*db, env).contains(c) implies s.contains(
            c,
        ) by {}
        assert forall|d: ProgramClauseV, c: ProgramClauseV|
            s.contains(d) && #[trigger] discover_clause(*db, d).contains(c) implies s.contains(
            c,
        ) by {
            assert(clause_views(frontier@).len() == 0);
            assert(!clause_views(frontier@).contains(d));
        }
        lemma_closure_least(*db, env, s);
        assert(s =~= env_closure_set(*db, env));
    }
    closure
}

/// Append the closure of the environment to `clauses`: the appended
/// segment holds each clause of the closure exactly once, and what was
/// already in `clauses` stays untouched in place.
pub fn program_clauses_for_env(
    db: &DeclarationStore,
    environment: &Environment,
    clauses: &mut Vec<ProgramClause>,
)
    ensures
        clause_views(final(clauses)@).take(old(clauses)@.len() as int) == clause_views(
            old(clauses)@,
        ),
        clause_views(final(clauses)@).skip(old(clauses)@.len() as int).to_set()
            == env_closure_set(*db, environment@),
        clause_views(final(clauses)@).skip(old(clauses)@.len() as int).no_duplicates(),
{
    let closure = close_environment(db, environment);
    crate::store::append_clauses(clauses, &closure);
    proof {
        broadcast use crate::ir::group_ir_views;

        let a = clause_views(old(clauses)@);
        let b = clause_views(closure@);
        assert((a + b).take(a.len() as int) =~= a);
        assert((a + b).skip(a.len() as int) =~= b);
    }
}

} // verus!
