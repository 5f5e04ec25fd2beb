//! Structural equality of types, goals and program clauses.
//!
//! Two syntactically identical clauses must be recognised as equal — the
//! environment closure engine deduplicates by this relation, and its
//! termination depends on it. Each function here decides spec-level
//! equality of the mathematical models.

use vstd::prelude::*;
use crate::ir::{
    DomainGoal, FromEnv, ProgramClause, ProjectionTy, TraitRef, Ty, UnselectedProjectionTy,
    WellFormed, WhereClause, goal_views, ty_views,
};

verus! {

broadcast use crate::ir::group_ir_views;

/// Decides equality of the models of two type terms.
pub fn ty_eq(a: &Ty, b: &Ty) -> (r: bool)
    ensures
        r == (a@ == b@),
    decreases a,
{
    match (a, b) {
        (Ty::Apply(x), Ty::Apply(y)) => x.name == y.name && tys_eq(&x.parameters, &y.parameters),
        (Ty::Projection(x), Ty::Projection(y)) => x.associated_ty_id == y.associated_ty_id
            && tys_eq(&x.parameters, &y.parameters),
        (Ty::UnselectedProjection(x), Ty::UnselectedProjection(y)) => x.ident == y.ident
            && tys_eq(&x.parameters, &y.parameters),
        (Ty::ForAll(x), Ty::ForAll(y)) => x.num_binders == y.num_binders && ty_eq(&x.ty, &y.ty),
        (Ty::BoundVar(x), Ty::BoundVar(y)) => x == y,
        (Ty::InferenceVar(x), Ty::InferenceVar(y)) => x == y,
        _ => false,
    }
}

/// Decides element-wise equality of the models of two parameter lists.
fn tys_eq(a: &Vec<Ty>, b: &Vec<Ty>) -> (r: bool)
    ensures
        r == (ty_views(a@) == ty_views(b@)),
    decreases a,
{
    if a.len() != b.len() {
        proof {
            assert(ty_views(a@).len() != ty_views(b@).len());
        }
        return false;
    }
    let mut i: usize = 0;
    while i < a.len()
        invariant
            i <= a@.len(),
            a@.len() == b@.len(),
            forall|j: int| 0 <= j < i ==> a@[j]@ == b@[j]@,
        decreases a@.len() - i,
    {
        if !ty_eq(&a[i], &b[i]) {
            proof {
                assert(ty_views(a@)[i as int] != ty_views(b@)[i as int]);
            }
            return false;
        }
        i += 1;
    }
    proof {
        assert(ty_views(a@) =~= ty_views(b@));
    }
    true
}

/// Decides equality of the models of two trait references.
pub fn trait_ref_eq(a: &TraitRef, b: &TraitRef) -> (r: bool)
    ensures
        r == (a@ == b@),
{
    a.trait_id == b.trait_id && tys_eq(&a.parameters, &b.parameters)
}

/// Decides equality of the models of two projection types.
pub fn projection_ty_eq(a: &ProjectionTy, b: &ProjectionTy) -> (r: bool)
    ensures
        r == (a@ == b@),
{
    a.associated_ty_id == b.associated_ty_id && tys_eq(&a.parameters, &b.parameters)
}

/// Decides equality of the models of two unselected projection types.
pub fn unselected_projection_ty_eq(a: &UnselectedProjectionTy, b: &UnselectedProjectionTy) -> (r:
    bool)
    ensures
        r == (a@ == b@),
{
    a.ident == b.ident && tys_eq(&a.parameters, &b.parameters)
}

/// Decides equality of the models of two propositions.
pub fn domain_goal_eq(a: &DomainGoal, b: &DomainGoal) -> (r: bool)
    ensures
        r == (a@ == b@),
{
    match (a, b) {
        (DomainGoal::Holds(WhereClause::Implemented(x)), DomainGoal::Holds(
            WhereClause::Implemented(y),
        )) => trait_ref_eq(x, y),
        (DomainGoal::Holds(WhereClause::ProjectionEq(x)), DomainGoal::Holds(
            WhereClause::ProjectionEq(y),
        )) => projection_ty_eq(&x.projection, &y.projection) && ty_eq(&x.ty, &y.ty),
        (DomainGoal::WellFormed(WellFormed::Trait(x)), DomainGoal::WellFormed(
            WellFormed::Trait(y),
        )) => trait_ref_eq(x, y),
        (DomainGoal::WellFormed(WellFormed::Ty(x)), DomainGoal::WellFormed(
            WellFormed::Ty(y),
        )) => ty_eq(x, y),
        (DomainGoal::FromEnv(FromEnv::Trait(x)), DomainGoal::FromEnv(FromEnv::Trait(y))) =>
            trait_ref_eq(x, y),
        (DomainGoal::FromEnv(FromEnv::Ty(x)), DomainGoal::FromEnv(FromEnv::Ty(y))) => ty_eq(x, y),
        (DomainGoal::Normalize(x), DomainGoal::Normalize(y)) => projection_ty_eq(
            &x.projection,
            &y.projection,
        ) && ty_eq(&x.ty, &y.ty),
        (DomainGoal::UnselectedNormalize(x), DomainGoal::UnselectedNormalize(y)) =>
            unselected_projection_ty_eq(&x.projection, &y.projection) && ty_eq(&x.ty, &y.ty),
        (DomainGoal::IsLocal(x), DomainGoal::IsLocal(y)) => ty_eq(x, y),
        (DomainGoal::IsUpstream(x), DomainGoal::IsUpstream(y)) => ty_eq(x, y),
        (DomainGoal::IsFullyVisible(x), DomainGoal::IsFullyVisible(y)) => ty_eq(x, y),
        (DomainGoal::DownstreamType(x), DomainGoal::DownstreamType(y)) => ty_eq(x, y),
        (DomainGoal::InScope(x), DomainGoal::InScope(y)) => x == y,
        (DomainGoal::LocalImplAllowed(x), DomainGoal::LocalImplAllowed(y)) => trait_ref_eq(x, y),
        (DomainGoal::Compatible, DomainGoal::Compatible) => true,
        _ => false,
    }
}

/// Decides element-wise equality of the models of two condition lists.
fn goals_eq(a: &Vec<DomainGoal>, b: &Vec<DomainGoal>) -> (r: bool)
    ensures
        r == (goal_views(a@) == goal_views(b@)),
{
    if a.len() != b.len() {
        return false;
    }
    let mut i: usize = 0;
    while i < a.len()
        invariant
            i <= a@.len(),
            a@.len() == b@.len(),
            forall|j: int| 0 <= j < i ==> a@[j]@ == b@[j]@,
        decreases a@.len() - i,
    {
        if !domain_goal_eq(&a[i], &b[i]) {
            proof {
                assert(goal_views(a@)[i as int] != goal_views(b@)[i as int]);
            }
            return false;
        }
        i += 1;
    }
    proof {
        assert(goal_views(a@) =~= goal_views(b@));
    }
    true
}

/// Decides equality of the models of two program clauses. This is the
/// relation the closure engine deduplicates by.
pub fn program_clause_eq(a: &ProgramClause, b: &ProgramClause) -> (r: bool)
    ensures
        r == (a@ == b@),
{
    a.binders == b.binders && domain_goal_eq(&a.consequence, &b.consequence) && goals_eq(
        &a.conditions,
        &b.conditions,
    )
}

} // verus!
