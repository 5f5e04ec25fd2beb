//! The quantified clause model: identifiers, types, goals and program
//! clauses, together with their mathematical models (`TyV`, `DomainGoalV`,
//! `ProgramClauseV`) used by every contract in this crate.

use vstd::prelude::*;

verus! {

/// Identifier of a declared trait.
#[derive(Clone, Copy, PartialEq, Eq, Structural)]
pub struct TraitId(pub u64);

/// Identifier of a declared struct.
#[derive(Clone, Copy, PartialEq, Eq, Structural)]
pub struct StructId(pub u64);

/// Identifier of a declared associated type.
#[derive(Clone, Copy, PartialEq, Eq, Structural)]
pub struct TypeId(pub u64);

/// Identifier of any declared entity that a type can be shaped like.
#[derive(Clone, Copy, PartialEq, Eq, Structural)]
pub enum TypeKindId {
    TypeId(TypeId),
    TraitId(TraitId),
    StructId(StructId),
}

/// The head constructor of an applied type.
#[derive(Clone, Copy, PartialEq, Eq, Structural)]
pub enum TypeName {
    /// A declared entity: struct, trait-as-object or associated type.
    TypeKindId(TypeKindId),
    /// A rigid, opaquely-fixed type variable from an enclosing binder,
    /// tagged with its universe index.
    Placeholder(u64),
    /// A declared associated type used as a type constructor.
    AssociatedType(TypeId),
}

/// A type term. Recursion is structural and finite per term.
pub enum Ty {
    Apply(ApplicationTy),
    Projection(ProjectionTy),
    UnselectedProjection(UnselectedProjectionTy),
    ForAll(Box<QuantifiedTy>),
    BoundVar(u64),
    InferenceVar(u64),
}

/// A named type constructor applied to argument types.
pub struct ApplicationTy {
    pub name: TypeName,
    pub parameters: Vec<Ty>,
}

/// An associated-type access on a known trait reference.
pub struct ProjectionTy {
    pub associated_ty_id: TypeId,
    pub parameters: Vec<Ty>,
}

/// An associated-type access whose trait has not been selected yet;
/// the associated type is known only by its interned name.
pub struct UnselectedProjectionTy {
    pub ident: u64,
    pub parameters: Vec<Ty>,
}

/// A universally quantified type, e.g. a higher-ranked function type.
pub struct QuantifiedTy {
    pub num_binders: u64,
    pub ty: Ty,
}

/// Mathematical model of a type term.
pub enum TyV {
    Apply(ApplicationTyV),
    Projection(ProjectionTyV),
    UnselectedProjection(UnselectedProjectionTyV),
    ForAll { num_binders: u64, ty: Box<TyV> },
    BoundVar { index: u64 },
    InferenceVar { index: u64 },
}

/// Mathematical model of an applied type.
pub struct ApplicationTyV {
    pub name: TypeName,
    pub parameters: Seq<TyV>,
}

/// Mathematical model of a projection type.
pub struct ProjectionTyV {
    pub associated_ty_id: TypeId,
    pub parameters: Seq<TyV>,
}

/// Mathematical model of an unselected projection type.
pub struct UnselectedProjectionTyV {
    pub ident: u64,
    pub parameters: Seq<TyV>,
}

/// Mathematical model of a type term: `ty_view` maps the executable
/// representation to it, recursing through parameter lists via `ty_views`.
pub open spec fn ty_view(t: Ty) -> TyV
    decreases t,
{
    match t {
        Ty::Apply(a) => TyV::Apply(
            ApplicationTyV { name: a.name, parameters: ty_views(a.parameters@) },
        ),
        Ty::Projection(p) => TyV::Projection(
            ProjectionTyV {
                associated_ty_id: p.associated_ty_id,
                parameters: ty_views(p.parameters@),
            },
        ),
        Ty::UnselectedProjection(u) => TyV::UnselectedProjection(
            UnselectedProjectionTyV { ident: u.ident, parameters: ty_views(u.parameters@) },
        ),
        Ty::ForAll(q) => TyV::ForAll { num_binders: q.num_binders, ty: Box::new(ty_view(q.ty)) },
        Ty::BoundVar(d) => TyV::BoundVar { index: d },
        Ty::InferenceVar(d) => TyV::InferenceVar { index: d },
    }
}

/// The models of a sequence of type terms, element by element.
pub open spec fn ty_views(s: Seq<Ty>) -> Seq<TyV>
    decreases s,
{
    if s.len() == 0 {
        Seq::empty()
    } else {
        ty_views(s.drop_last()).push(ty_view(s.last()))
    }
}

/// `ty_views` preserves the length of the sequence.
pub broadcast proof fn lemma_ty_views_len(s: Seq<Ty>)
    ensures
        #[trigger] ty_views(s).len() == s.len(),
    decreases s.len(),
{
    if s.len() != 0 {
        lemma_ty_views_len(s.drop_last());
    }
}

/// Each element of `ty_views(s)` is the model of the matching element of `s`.
pub broadcast proof fn lemma_ty_views_index(s: Seq<Ty>, i: int)
    requires
        0 <= i < s.len(),
    ensures
        #[trigger] ty_views(s)[i] == s[i]@,
    decreases s.len(),
{
    lemma_ty_views_len(s.drop_last());
    if i < s.len() - 1 {
        lemma_ty_views_index(s.drop_last(), i);
    }
}

impl View for Ty {
    type V = TyV;

    open spec fn view(&self) -> TyV {
        ty_view(*self)
    }
}

impl View for ApplicationTy {
    type V = ApplicationTyV;

    open spec fn view(&self) -> ApplicationTyV {
        ApplicationTyV { name: self.name, parameters: ty_views(self.parameters@) }
    }
}

impl View for ProjectionTy {
    type V = ProjectionTyV;

    open spec fn view(&self) -> ProjectionTyV {
        ProjectionTyV {
            associated_ty_id: self.associated_ty_id,
            parameters: ty_views(self.parameters@),
        }
    }
}

impl View for UnselectedProjectionTy {
    type V = UnselectedProjectionTyV;

    open spec fn view(&self) -> UnselectedProjectionTyV {
        UnselectedProjectionTyV { ident: self.ident, parameters: ty_views(self.parameters@) }
    }
}

impl Clone for Ty {
    fn clone(&self) -> (r: Ty)
        ensures
            r@ == self@,
        decreases self,
    {
        match self {
            Ty::Apply(a) => Ty::Apply(a.clone()),
            Ty::Projection(p) => Ty::Projection(p.clone()),
            Ty::UnselectedProjection(u) => Ty::UnselectedProjection(u.clone()),
            Ty::ForAll(q) => Ty::ForAll(
                Box::new(QuantifiedTy { num_binders: q.num_binders, ty: q.ty.clone() }),
            ),
            Ty::BoundVar(d) => Ty::BoundVar(*d),
            Ty::InferenceVar(d) => Ty::InferenceVar(*d),
        }
    }
}

/// Deep copy of a sequence of type terms.
fn clone_tys(v: &Vec<Ty>) -> (r: Vec<Ty>)
    ensures
        ty_views(r@) == ty_views(v@),
    decreases v,
{
    let mut r: Vec<Ty> = Vec::new();
    let mut i: usize = 0;
    while i < v.len()
        invariant
            i <= v@.len(),
            r@.len() == i,
            forall|j: int| 0 <= j < i ==> r@[j]@ == v@[j]@,
        decreases v@.len() - i,
    {
        r.push(v[i].clone());
        i += 1;
    }
    proof {
        broadcast use {lemma_ty_views_len, lemma_ty_views_index};

        assert(ty_views(r@) =~= ty_views(v@));
    }
    r
}

impl Clone for ApplicationTy {
    fn clone(&self) -> (r: ApplicationTy)
        ensures
            r@ == self@,
        decreases self,
    {
        ApplicationTy { name: self.name, parameters: clone_tys(&self.parameters) }
    }
}

impl Clone for ProjectionTy {
    fn clone(&self) -> (r: ProjectionTy)
        ensures
            r@ == self@,
        decreases self,
    {
        ProjectionTy {
            associated_ty_id: self.associated_ty_id,
            parameters: clone_tys(&self.parameters),
        }
    }
}

impl Clone for UnselectedProjectionTy {
    fn clone(&self) -> (r: UnselectedProjectionTy)
        ensures
            r@ == self@,
        decreases self,
    {
        UnselectedProjectionTy { ident: self.ident, parameters: clone_tys(&self.parameters) }
    }
}

/// A reference to a trait applied to type parameters; `Self` is the first
/// parameter, as in "`MyList<T>`: `Send`".
pub struct TraitRef {
    pub trait_id: TraitId,
    pub parameters: Vec<Ty>,
}

/// Mathematical model of a trait reference.
pub struct TraitRefV {
    pub trait_id: TraitId,
    pub parameters: Seq<TyV>,
}

impl View for TraitRef {
    type V = TraitRefV;

    open spec fn view(&self) -> TraitRefV {
        TraitRefV { trait_id: self.trait_id, parameters: ty_views(self.parameters@) }
    }
}

/// An equality between an associated-type projection and a type.
pub struct ProjectionEq {
    pub projection: ProjectionTy,
    pub ty: Ty,
}

/// Mathematical model of a projection equality.
pub struct ProjectionEqV {
    pub projection: ProjectionTyV,
    pub ty: TyV,
}

impl View for ProjectionEq {
    type V = ProjectionEqV;

    open spec fn view(&self) -> ProjectionEqV {
        ProjectionEqV { projection: self.projection@, ty: self.ty@ }
    }
}

/// A request to normalize a projection to a type.
pub struct Normalize {
    pub projection: ProjectionTy,
    pub ty: Ty,
}

/// Mathematical model of a normalization.
pub struct NormalizeV {
    pub projection: ProjectionTyV,
    pub ty: TyV,
}

impl View for Normalize {
    type V = NormalizeV;

    open spec fn view(&self) -> NormalizeV {
        NormalizeV { projection: self.projection@, ty: self.ty@ }
    }
}

/// A normalization whose trait has not been selected yet.
pub struct UnselectedNormalize {
    pub projection: UnselectedProjectionTy,
    pub ty: Ty,
}

/// Mathematical model of an unselected normalization.
pub struct UnselectedNormalizeV {
    pub projection: UnselectedProjectionTyV,
    pub ty: TyV,
}

impl View for UnselectedNormalize {
    type V = UnselectedNormalizeV;

    open spec fn view(&self) -> UnselectedNormalizeV {
        UnselectedNormalizeV { projection: self.projection@, ty: self.ty@ }
    }
}

/// A hypothesis that can appear in a `where` clause.
pub enum WhereClause {
    Implemented(TraitRef),
    ProjectionEq(ProjectionEq),
}

/// Mathematical model of a `where` clause.
pub enum WhereClauseV {
    Implemented(TraitRefV),
    ProjectionEq(ProjectionEqV),
}

impl View for WhereClause {
    type V = WhereClauseV;

    open spec fn view(&self) -> WhereClauseV {
        match self {
            WhereClause::Implemented(tr) => WhereClauseV::Implemented(tr@),
            WhereClause::ProjectionEq(pe) => WhereClauseV::ProjectionEq(pe@),
        }
    }
}

/// A well-formedness obligation.
pub enum WellFormed {
    Trait(TraitRef),
    Ty(Ty),
}

/// Mathematical model of a well-formedness obligation.
pub enum WellFormedV {
    Trait(TraitRefV),
    Ty(TyV),
}

impl View for WellFormed {
    type V = WellFormedV;

    open spec fn view(&self) -> WellFormedV {
        match self {
            WellFormed::Trait(tr) => WellFormedV::Trait(tr@),
            WellFormed::Ty(ty) => WellFormedV::Ty(ty@),
        }
    }
}

/// A fact drawn from the environment.
pub enum FromEnv {
    Trait(TraitRef),
    Ty(Ty),
}

/// Mathematical model of an environment fact.
pub enum FromEnvV {
    Trait(TraitRefV),
    Ty(TyV),
}

impl View for FromEnv {
    type V = FromEnvV;

    open spec fn view(&self) -> FromEnvV {
        match self {
            FromEnv::Trait(tr) => FromEnvV::Trait(tr@),
            FromEnv::Ty(ty) => FromEnvV::Ty(ty@),
        }
    }
}

/// A proposition about types: the head of a clause or a sub-goal.
pub enum DomainGoal {
    Holds(WhereClause),
    WellFormed(WellFormed),
    FromEnv(FromEnv),
    Normalize(Normalize),
    UnselectedNormalize(UnselectedNormalize),
    IsLocal(Ty),
    IsUpstream(Ty),
    IsFullyVisible(Ty),
    DownstreamType(Ty),
    InScope(TypeKindId),
    LocalImplAllowed(TraitRef),
    Compatible,
}

/// Mathematical model of a proposition.
pub enum DomainGoalV {
    Holds(WhereClauseV),
    WellFormed(WellFormedV),
    FromEnv(FromEnvV),
    Normalize(NormalizeV),
    UnselectedNormalize(UnselectedNormalizeV),
    IsLocal(TyV),
    IsUpstream(TyV),
    IsFullyVisible(TyV),
    DownstreamType(TyV),
    InScope(TypeKindId),
    LocalImplAllowed(TraitRefV),
    Compatible,
}

impl View for DomainGoal {
    type V = DomainGoalV;

    open spec fn view(&self) -> DomainGoalV {
        match self {
            DomainGoal::Holds(wc) => DomainGoalV::Holds(wc@),
            DomainGoal::WellFormed(wf) => DomainGoalV::WellFormed(wf@),
            DomainGoal::FromEnv(fe) => DomainGoalV::FromEnv(fe@),
            DomainGoal::Normalize(n) => DomainGoalV::Normalize(n@),
            DomainGoal::UnselectedNormalize(n) => DomainGoalV::UnselectedNormalize(n@),
            DomainGoal::IsLocal(ty) => DomainGoalV::IsLocal(ty@),
            DomainGoal::IsUpstream(ty) => DomainGoalV::IsUpstream(ty@),
            DomainGoal::IsFullyVisible(ty) => DomainGoalV::IsFullyVisible(ty@),
            DomainGoal::DownstreamType(ty) => DomainGoalV::DownstreamType(ty@),
            DomainGoal::InScope(k) => DomainGoalV::InScope(*k),
            DomainGoal::LocalImplAllowed(tr) => DomainGoalV::LocalImplAllowed(tr@),
            DomainGoal::Compatible => DomainGoalV::Compatible,
        }
    }
}

/// The models of a sequence of propositions, element by element.
pub open spec fn goal_views(s: Seq<DomainGoal>) -> Seq<DomainGoalV>
    decreases s.len(),
{
    if s.len() == 0 {
        Seq::empty()
    } else {
        goal_views(s.drop_last()).push(s.last()@)
    }
}

/// `goal_views` preserves the length of the sequence.
pub broadcast proof fn lemma_goal_views_len(s: Seq<DomainGoal>)
    ensures
        #[trigger] goal_views(s).len() == s.len(),
    decreases s.len(),
{
    if s.len() != 0 {
        lemma_goal_views_len(s.drop_last());
    }
}

/// Each element of `goal_views(s)` is the model of the matching element of `s`.
pub broadcast proof fn lemma_goal_views_index(s: Seq<DomainGoal>, i: int)
    requires
        0 <= i < s.len(),
    ensures
        #[trigger] goal_views(s)[i] == s[i]@,
    decreases s.len(),
{
    lemma_goal_views_len(s.drop_last());
    if i < s.len() - 1 {
        lemma_goal_views_index(s.drop_last(), i);
    }
}

impl Clone for TraitRef {
    fn clone(&self) -> (r: TraitRef)
        ensures
            r@ == self@,
    {
        TraitRef { trait_id: self.trait_id, parameters: clone_tys(&self.parameters) }
    }
}

impl Clone for ProjectionEq {
    fn clone(&self) -> (r: ProjectionEq)
        ensures
            r@ == self@,
    {
        ProjectionEq { projection: self.projection.clone(), ty: self.ty.clone() }
    }
}

impl Clone for Normalize {
    fn clone(&self) -> (r: Normalize)
        ensures
            r@ == self@,
    {
        Normalize { projection: self.projection.clone(), ty: self.ty.clone() }
    }
}

impl Clone for UnselectedNormalize {
    fn clone(&self) -> (r: UnselectedNormalize)
        ensures
            r@ == self@,
    {
        UnselectedNormalize { projection: self.projection.clone(), ty: self.ty.clone() }
    }
}

impl Clone for WhereClause {
    fn clone(&self) -> (r: WhereClause)
        ensures
            r@ == self@,
    {
        match self {
            WhereClause::Implemented(tr) => WhereClause::Implemented(tr.clone()),
            WhereClause::ProjectionEq(pe) => WhereClause::ProjectionEq(pe.clone()),
        }
    }
}

impl Clone for WellFormed {
    fn clone(&self) -> (r: WellFormed)
        ensures
            r@ == self@,
    {
        match self {
            WellFormed::Trait(tr) => WellFormed::Trait(tr.clone()),
            WellFormed::Ty(ty) => WellFormed::Ty(ty.clone()),
        }
    }
}

impl Clone for FromEnv {
    fn clone(&self) -> (r: FromEnv)
        ensures
            r@ == self@,
    {
        match self {
            FromEnv::Trait(tr) => FromEnv::Trait(tr.clone()),
            FromEnv::Ty(ty) => FromEnv::Ty(ty.clone()),
        }
    }
}

impl Clone for DomainGoal {
    fn clone(&self) -> (r: DomainGoal)
        ensures
            r@ == self@,
    {
        match self {
            DomainGoal::Holds(wc) => DomainGoal::Holds(wc.clone()),
            DomainGoal::WellFormed(wf) => DomainGoal::WellFormed(wf.clone()),
            DomainGoal::FromEnv(fe) => DomainGoal::FromEnv(fe.clone()),
            DomainGoal::Normalize(n) => DomainGoal::Normalize(n.clone()),
            DomainGoal::UnselectedNormalize(n) => DomainGoal::UnselectedNormalize(n.clone()),
            DomainGoal::IsLocal(ty) => DomainGoal::IsLocal(ty.clone()),
            DomainGoal::IsUpstream(ty) => DomainGoal::IsUpstream(ty.clone()),
            DomainGoal::IsFullyVisible(ty) => DomainGoal::IsFullyVisible(ty.clone()),
            DomainGoal::DownstreamType(ty) => DomainGoal::DownstreamType(ty.clone()),
            DomainGoal::InScope(k) => DomainGoal::InScope(*k),
            DomainGoal::LocalImplAllowed(tr) => DomainGoal::LocalImplAllowed(tr.clone()),
            DomainGoal::Compatible => DomainGoal::Compatible,
        }
    }
}

/// Deep copy of a sequence of propositions.
fn clone_goals(v: &Vec<DomainGoal>) -> (r: Vec<DomainGoal>)
    ensures
        goal_views(r@) == goal_views(v@),
{
    let mut r: Vec<DomainGoal> = Vec::new();
    let mut i: usize = 0;
    while i < v.len()
        invariant
            i <= v@.len(),
            r@.len() == i,
            forall|j: int| 0 <= j < i ==> r@[j]@ == v@[j]@,
        decreases v@.len() - i,
    {
        r.push(v[i].clone());
        i += 1;
    }
    proof {
        broadcast use {lemma_goal_views_len, lemma_goal_views_index};

        assert(goal_views(r@) =~= goal_views(v@));
    }
    r
}

/// A universally quantified Horn implication: if all `conditions` hold,
/// the `consequence` holds. `binders` counts the quantified parameters;
/// bound variables refer to them by index, so structural equality of two
/// clauses already identifies them modulo bound-variable naming.
pub struct ProgramClause {
    pub binders: u64,
    pub consequence: DomainGoal,
    pub conditions: Vec<DomainGoal>,
}

/// Mathematical model of a program clause.
pub struct ProgramClauseV {
    pub binders: u64,
    pub consequence: DomainGoalV,
    pub conditions: Seq<DomainGoalV>,
}

impl View for ProgramClause {
    type V = ProgramClauseV;

    open spec fn view(&self) -> ProgramClauseV {
        ProgramClauseV {
            binders: self.binders,
            consequence: self.consequence@,
            conditions: goal_views(self.conditions@),
        }
    }
}

impl Clone for ProgramClause {
    fn clone(&self) -> (r: ProgramClause)
        ensures
            r@ == self@,
    {
        ProgramClause {
            binders: self.binders,
            consequence: self.consequence.clone(),
            conditions: clone_goals(&self.conditions),
        }
    }
}

/// The models of a sequence of program clauses, element by element.
pub open spec fn clause_views(s: Seq<ProgramClause>) -> Seq<ProgramClauseV>
    decreases s.len(),
{
    if s.len() == 0 {
        Seq::empty()
    } else {
        clause_views(s.drop_last()).push(s.last()@)
    }
}

/// `clause_views` preserves the length of the sequence.
pub broadcast proof fn lemma_clause_views_len(s: Seq<ProgramClause>)
    ensures
        #[trigger] clause_views(s).len() == s.len(),
    decreases s.len(),
{
    if s.len() != 0 {
        lemma_clause_views_len(s.drop_last());
    }
}

/// Each element of `clause_views(s)` is the model of the matching element
/// of `s`.
pub broadcast proof fn lemma_clause_views_index(s: Seq<ProgramClause>, i: int)
    requires
        0 <= i < s.len(),
    ensures
        #[trigger] clause_views(s)[i] == s[i]@,
    decreases s.len(),
{
    lemma_clause_views_len(s.drop_last());
    if i < s.len() - 1 {
        lemma_clause_views_index(s.drop_last(), i);
    }
}

/// `ty_views` commutes with `push`.
pub broadcast proof fn lemma_ty_views_push(s: Seq<Ty>, t: Ty)
    ensures
        #[trigger] ty_views(s.push(t)) == ty_views(s).push(t@),
{
    assert(s.push(t).drop_last() =~= s);
    assert(ty_views(s.push(t)) == ty_views(s).push(t@));
}

/// `goal_views` commutes with `push`.
pub broadcast proof fn lemma_goal_views_push(s: Seq<DomainGoal>, g: DomainGoal)
    ensures
        #[trigger] goal_views(s.push(g)) == goal_views(s).push(g@),
{
    assert(s.push(g).drop_last() =~= s);
    assert(goal_views(s.push(g)) == goal_views(s).push(g@));
}

/// `clause_views` commutes with `push`.
pub broadcast proof fn lemma_clause_views_push(s: Seq<ProgramClause>, c: ProgramClause)
    ensures
        #[trigger] clause_views(s.push(c)) == clause_views(s).push(c@),
{
    assert(s.push(c).drop_last() =~= s);
    assert(clause_views(s.push(c)) == clause_views(s).push(c@));
}

/// The element-wise view lemmas, used throughout the crate.
pub broadcast group group_ir_views {
    lemma_ty_views_len,
    lemma_ty_views_index,
    lemma_goal_views_len,
    lemma_goal_views_index,
    lemma_clause_views_len,
    lemma_clause_views_index,
    lemma_ty_views_push,
    lemma_goal_views_push,
    lemma_clause_views_push,
}

/// A sequence extended by one element contains that element and all it
/// contained.
pub proof fn lemma_push_contains(s: Seq<ProgramClauseV>, x: ProgramClauseV, a: ProgramClauseV)
    ensures
        s.push(x).contains(a) <==> (s.contains(a) || a == x),
{
    if s.push(x).contains(a) {
        let i = choose|i: int| 0 <= i < s.push(x).len() && s.push(x)[i] == a;
        if i < s.len() {
            assert(s[i] == a);
        }
    }
    if s.contains(a) {
        let i = choose|i: int| 0 <= i < s.len() && s[i] == a;
        assert(s.push(x)[i] == a);
    }
    assert(s.push(x)[s.len() as int] == x);
}

/// The hypotheses in scope at the goal site, in the order the caller
/// assumed them.
pub struct Environment {
    pub clauses: Vec<ProgramClause>,
}

impl View for Environment {
    type V = Seq<ProgramClauseV>;

    open spec fn view(&self) -> Seq<ProgramClauseV> {
        clause_views(self.clauses@)
    }
}

} // verus!
