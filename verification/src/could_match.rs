//! The could-match predicate: a cheap structural compatibility check
//! between a clause's consequence and a goal. Two propositions could
//! match when they have the same head shape — same variant, same entity
//! identity, same arity — and their argument types are shape-compatible;
//! argument values are not unified here.

use vstd::prelude::*;
use crate::ir::{
    DomainGoal, DomainGoalV, FromEnv, FromEnvV, ProjectionTy, ProjectionTyV, TraitRef, TraitRefV,
    Ty, TyV, UnselectedProjectionTy, UnselectedProjectionTyV, WellFormed, WellFormedV,
    WhereClause, WhereClauseV, ty_views,
};

verus! {

/// Shape compatibility of two type terms: applied types must agree on
/// their head constructor and arity and recursively on their arguments;
/// every other pair is compatible, since at least one side can still
/// take any shape (a variable, a projection awaiting normalization).
pub open spec fn ty_could_match(a: TyV, b: TyV) -> bool
    decreases a,
{
    match (a, b) {
        (TyV::Apply(x), TyV::Apply(y)) => x.name == y.name && x.parameters.len()
            == y.parameters.len() && tys_could_match(x.parameters, y.parameters),
        _ => true,
    }
}

/// Pairwise shape compatibility of two argument lists of equal length.
pub open spec fn tys_could_match(a: Seq<TyV>, b: Seq<TyV>) -> bool
    decreases a,
{
    if a.len() == 0 || b.len() == 0 {
        true
    } else {
        tys_could_match(a.drop_last(), b.drop_last()) && ty_could_match(a.last(), b.last())
    }
}

/// For equal-length lists, pairwise compatibility is compatibility at
/// every index.
pub proof fn lemma_tys_could_match_index(a: Seq<TyV>, b: Seq<TyV>)
    requires
        a.len() == b.len(),
    ensures
        tys_could_match(a, b) <==> (forall|i: int|
            0 <= i < a.len() ==> ty_could_match(#[trigger] a[i], b[i])),
    decreases a.len(),
{
    if a.len() != 0 {
        lemma_tys_could_match_index(a.drop_last(), b.drop_last());
        if tys_could_match(a, b) {
            assert forall|i: int| 0 <= i < a.len() implies ty_could_match(
                #[trigger] a[i],
                b[i],
            ) by {
                if i < a.len() - 1 {
                    assert(a.drop_last()[i] == a[i] && b.drop_last()[i] == b[i]);
                }
            }
        }
        if forall|i: int| 0 <= i < a.len() ==> ty_could_match(#[trigger] a[i], b[i]) {
            assert forall|i: int| 0 <= i < a.drop_last().len() implies ty_could_match(
                #[trigger] a.drop_last()[i],
                b.drop_last()[i],
            ) by {
                assert(a.drop_last()[i] == a[i] && b.drop_last()[i] == b[i]);
            }
        }
    }
}

/// Head compatibility of two trait references: same trait, same arity,
/// shape-compatible arguments.
pub open spec fn trait_ref_could_match(a: TraitRefV, b: TraitRefV) -> bool {
    a.trait_id == b.trait_id && a.parameters.len() == b.parameters.len() && tys_could_match(
        a.parameters,
        b.parameters,
    )
}

/// Head compatibility of two projections: same associated type, same
/// arity, shape-compatible arguments.
pub open spec fn projection_could_match(a: ProjectionTyV, b: ProjectionTyV) -> bool {
    a.associated_ty_id == b.associated_ty_id && a.parameters.len() == b.parameters.len()
        && tys_could_match(a.parameters, b.parameters)
}

/// Head compatibility of two unselected projections: same interned name,
/// same arity, shape-compatible arguments.
pub open spec fn unselected_projection_could_match(
    a: UnselectedProjectionTyV,
    b: UnselectedProjectionTyV,
) -> bool {
    a.ident == b.ident && a.parameters.len() == b.parameters.len() && tys_could_match(
        a.parameters,
        b.parameters,
    )
}

/// Whether a clause whose consequence is `c` could possibly prove the
/// goal `g`: the two heads have the same variant, entity identity and
/// arity, and their arguments are shape-compatible.
pub open spec fn goal_could_match(c: DomainGoalV, g: DomainGoalV) -> bool {
    match (c, g) {
        (
            DomainGoalV::Holds(WhereClauseV::Implemented(a)),
            DomainGoalV::Holds(WhereClauseV::Implemented(b)),
        ) => trait_ref_could_match(a, b),
        (
            DomainGoalV::Holds(WhereClauseV::ProjectionEq(a)),
            DomainGoalV::Holds(WhereClauseV::ProjectionEq(b)),
        ) => projection_could_match(a.projection, b.projection) && ty_could_match(a.ty, b.ty),
        (
            DomainGoalV::WellFormed(WellFormedV::Trait(a)),
            DomainGoalV::WellFormed(WellFormedV::Trait(b)),
        ) => trait_ref_could_match(a, b),
        (
            DomainGoalV::WellFormed(WellFormedV::Ty(a)),
            DomainGoalV::WellFormed(WellFormedV::Ty(b)),
        ) => ty_could_match(a, b),
        (DomainGoalV::FromEnv(FromEnvV::Trait(a)), DomainGoalV::FromEnv(FromEnvV::Trait(b))) =>
            trait_ref_could_match(a, b),
        (DomainGoalV::FromEnv(FromEnvV::Ty(a)), DomainGoalV::FromEnv(FromEnvV::Ty(b))) =>
            ty_could_match(a, b),
        (DomainGoalV::Normalize(a), DomainGoalV::Normalize(b)) => projection_could_match(
            a.projection,
            b.projection,
        ) && ty_could_match(a.ty, b.ty),
        (DomainGoalV::UnselectedNormalize(a), DomainGoalV::UnselectedNormalize(b)) =>
            unselected_projection_could_match(a.projection, b.projection) && ty_could_match(
            a.ty,
            b.ty,
        ),
        (DomainGoalV::IsLocal(a), DomainGoalV::IsLocal(b)) => ty_could_match(a, b),
        (DomainGoalV::IsUpstream(a), DomainGoalV::IsUpstream(b)) => ty_could_match(a, b),
        (DomainGoalV::IsFullyVisible(a), DomainGoalV::IsFullyVisible(b)) => ty_could_match(a, b),
        (DomainGoalV::DownstreamType(a), DomainGoalV::DownstreamType(b)) => ty_could_match(a, b),
        (DomainGoalV::InScope(a), DomainGoalV::InScope(b)) => a == b,
        (DomainGoalV::LocalImplAllowed(a), DomainGoalV::LocalImplAllowed(b)) =>
            trait_ref_could_match(a, b),
        (DomainGoalV::Compatible, DomainGoalV::Compatible) => true,
        _ => false,
    }
}

/// Decides shape compatibility of two type terms.
pub fn ty_could_match_exec(a: &Ty, b: &Ty) -> (r: bool)
    ensures
        r == ty_could_match(a@, b@),
    decreases a,
{
    match (a, b) {
        (Ty::Apply(x), Ty::Apply(y)) => x.name == y.name && tys_could_match_exec(
            &x.parameters,
            &y.parameters,
        ),
        _ => {
            proof {
                assert(!(a@ is Apply && b@ is Apply) ==> ty_could_match(a@, b@));
            }
            true
        },
    }
}

/// Decides pairwise shape compatibility of two argument lists, requiring
/// equal length.
fn tys_could_match_exec(a: &Vec<Ty>, b: &Vec<Ty>) -> (r: bool)
    ensures
        r == (ty_views(a@).len() == ty_views(b@).len() && tys_could_match(
            ty_views(a@),
            ty_views(b@),
        )),
    decreases a,
{
    proof {
        broadcast use crate::ir::group_ir_views;

    }
    if a.len() != b.len() {
        return false;
    }
    let mut i: usize = 0;
    while i < a.len()
        invariant
            i <= a@.len(),
            a@.len() == b@.len(),
            forall|j: int| 0 <= j < i ==> ty_could_match(#[trigger] a@[j]@, b@[j]@),
        decreases a@.len() - i,
    {
        if !ty_could_match_exec(&a[i], &b[i]) {
            proof {
                broadcast use crate::ir::group_ir_views;

                lemma_tys_could_match_index(ty_views(a@), ty_views(b@));
                assert(!ty_could_match(ty_views(a@)[i as int], ty_views(b@)[i as int]));
            }
            return false;
        }
        i += 1;
    }
    proof {
        broadcast use crate::ir::group_ir_views;

        lemma_tys_could_match_index(ty_views(a@), ty_views(b@));
    }
    true
}

/// Decides head compatibility of two trait references.
fn trait_ref_could_match_exec(a: &TraitRef, b: &TraitRef) -> (r: bool)
    ensures
        r == trait_ref_could_match(a@, b@),
{
    a.trait_id == b.trait_id && tys_could_match_exec(&a.parameters, &b.parameters)
}

/// Decides head compatibility of two projections.
fn projection_could_match_exec(a: &ProjectionTy, b: &ProjectionTy) -> (r: bool)
    ensures
        r == projection_could_match(a@, b@),
{
    a.associated_ty_id == b.associated_ty_id && tys_could_match_exec(&a.parameters, &b.parameters)
}

/// Decides head compatibility of two unselected projections.
fn unselected_projection_could_match_exec(
    a: &UnselectedProjectionTy,
    b: &UnselectedProjectionTy,
) -> (r: bool)
    ensures
        r == unselected_projection_could_match(a@, b@),
{
    a.ident == b.ident && tys_could_match_exec(&a.parameters, &b.parameters)
}

/// Decides whether a clause consequence `c` could match the goal `g`.
pub fn could_match(c: &DomainGoal, g: &DomainGoal) -> (r: bool)
    ensures
        r == goal_could_match(c@, g@),
{
    match (c, g) {
        (DomainGoal::Holds(WhereClause::Implemented(a)), DomainGoal::Holds(
            WhereClause::Implemented(b),
        )) => trait_ref_could_match_exec(a, b),
        (DomainGoal::Holds(WhereClause::ProjectionEq(a)), DomainGoal::Holds(
            WhereClause::ProjectionEq(b),
        )) => projection_could_match_exec(&a.projection, &b.projection) && ty_could_match_exec(
            &a.ty,
            &b.ty,
        ),
        (DomainGoal::WellFormed(WellFormed::Trait(a)), DomainGoal::WellFormed(
            WellFormed::Trait(b),
        )) => trait_ref_could_match_exec(a, b),
        (DomainGoal::WellFormed(WellFormed::Ty(a)), DomainGoal::WellFormed(
            WellFormed::Ty(b),
        )) => ty_could_match_exec(a, b),
        (DomainGoal::FromEnv(FromEnv::Trait(a)), DomainGoal::FromEnv(FromEnv::Trait(b))) =>
            trait_ref_could_match_exec(a, b),
        (DomainGoal::FromEnv(FromEnv::Ty(a)), DomainGoal::FromEnv(FromEnv::Ty(b))) =>
            ty_could_match_exec(a, b),
        (DomainGoal::Normalize(a), DomainGoal::Normalize(b)) => projection_could_match_exec(
            &a.projection,
            &b.projection,
        ) && ty_could_match_exec(&a.ty, &b.ty),
        (DomainGoal::UnselectedNormalize(a), DomainGoal::UnselectedNormalize(b)) =>
            unselected_projection_could_match_exec(&a.projection, &b.projection)
                && ty_could_match_exec(&a.ty, &b.ty),
        (DomainGoal::IsLocal(a), DomainGoal::IsLocal(b)) => ty_could_match_exec(a, b),
        (DomainGoal::IsUpstream(a), DomainGoal::IsUpstream(b)) => ty_could_match_exec(a, b),
        (DomainGoal::IsFullyVisible(a), DomainGoal::IsFullyVisible(b)) => ty_could_match_exec(
            a,
            b,
        ),
        (DomainGoal::DownstreamType(a), DomainGoal::DownstreamType(b)) => ty_could_match_exec(
            a,
            b,
        ),
        (DomainGoal::InScope(a), DomainGoal::InScope(b)) => a == b,
        (DomainGoal::LocalImplAllowed(a), DomainGoal::LocalImplAllowed(b)) =>
            trait_ref_could_match_exec(a, b),
        (DomainGoal::Compatible, DomainGoal::Compatible) => true,
        _ => {
            proof {
                assert(!goal_could_match(c@, g@));
            }
            false
        },
    }
}

/// Head-shape agreement of two type terms: if both are applied types,
/// they name the same constructor with the same arity; any other pair
/// puts no constraint on the heads.
pub open spec fn same_ty_head(a: TyV, b: TyV) -> bool {
    match (a, b) {
        (TyV::Apply(x), TyV::Apply(y)) => x.name == y.name && x.parameters.len()
            == y.parameters.len(),
        _ => true,
    }
}

/// Head identity and arity agreement of a clause consequence and a
/// goal: same variant, same entity identifier, same argument count.
pub open spec fn same_head_shape(c: DomainGoalV, g: DomainGoalV) -> bool {
    match (c, g) {
        (
            DomainGoalV::Holds(WhereClauseV::Implemented(a)),
            DomainGoalV::Holds(WhereClauseV::Implemented(b)),
        ) => a.trait_id == b.trait_id && a.parameters.len() == b.parameters.len(),
        (
            DomainGoalV::Holds(WhereClauseV::ProjectionEq(a)),
            DomainGoalV::Holds(WhereClauseV::ProjectionEq(b)),
        ) => a.projection.associated_ty_id == b.projection.associated_ty_id
            && a.projection.parameters.len() == b.projection.parameters.len(),
        (
            DomainGoalV::WellFormed(WellFormedV::Trait(a)),
            DomainGoalV::WellFormed(WellFormedV::Trait(b)),
        ) => a.trait_id == b.trait_id && a.parameters.len() == b.parameters.len(),
        (
            DomainGoalV::WellFormed(WellFormedV::Ty(a)),
            DomainGoalV::WellFormed(WellFormedV::Ty(b)),
        ) => same_ty_head(a, b),
        (DomainGoalV::FromEnv(FromEnvV::Trait(a)), DomainGoalV::FromEnv(FromEnvV::Trait(b))) =>
            a.trait_id == b.trait_id && a.parameters.len() == b.parameters.len(),
        (DomainGoalV::FromEnv(FromEnvV::Ty(a)), DomainGoalV::FromEnv(FromEnvV::Ty(b))) =>
            same_ty_head(a, b),
        (DomainGoalV::Normalize(a), DomainGoalV::Normalize(b)) => a.projection.associated_ty_id
            == b.projection.associated_ty_id && a.projection.parameters.len()
            == b.projection.parameters.len(),
        (DomainGoalV::UnselectedNormalize(a), DomainGoalV::UnselectedNormalize(b)) =>
            a.projection.ident == b.projection.ident && a.projection.parameters.len()
            == b.projection.parameters.len(),
        (DomainGoalV::IsLocal(a), DomainGoalV::IsLocal(b)) => same_ty_head(a, b),
        (DomainGoalV::IsUpstream(a), DomainGoalV::IsUpstream(b)) => same_ty_head(a, b),
        (DomainGoalV::IsFullyVisible(a), DomainGoalV::IsFullyVisible(b)) => same_ty_head(a, b),
        (DomainGoalV::DownstreamType(a), DomainGoalV::DownstreamType(b)) => same_ty_head(a, b),
        (DomainGoalV::InScope(a), DomainGoalV::InScope(b)) => a == b,
        (DomainGoalV::LocalImplAllowed(a), DomainGoalV::LocalImplAllowed(b)) => a.trait_id
            == b.trait_id && a.parameters.len() == b.parameters.len(),
        (DomainGoalV::Compatible, DomainGoalV::Compatible) => true,
        _ => false,
    }
}

/// A clause consequence that could match a goal has the goal's head
/// identity and arity: the could-match check only ever keeps a clause
/// whose head shape agrees with the goal's.
pub proof fn lemma_could_match_same_head(c: DomainGoalV, g: DomainGoalV)
    requires
        goal_could_match(c, g),
    ensures
        same_head_shape(c, g),
{
}

} // verus!
