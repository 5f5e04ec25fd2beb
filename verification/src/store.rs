//! The declaration store: trait, struct and associated-type declarations,
//! keyed by their identifiers, each carrying the program clauses its own
//! declaration-to-clause translation produced.
//!
//! The store is read-only to the algorithms in this crate; the caller
//! builds it from the validated program. A lookup of an identifier that
//! was never declared yields no clauses.

use vstd::prelude::*;
use crate::ir::{
    ApplicationTy, ProgramClause, ProgramClauseV, StructId, TraitId, Ty, TypeId, clause_views,
};

verus! {

/// A trait declaration: its generic parameter count (including `Self`),
/// whether it is an auto trait, the trait identifier its own declaration
/// names, and the clauses its declaration translates to.
pub struct TraitDatum {
    pub binders_count: u64,
    pub trait_id: TraitId,
    pub auto: bool,
    pub clauses: Vec<ProgramClause>,
}

/// A struct declaration: its generic parameter count, itself applied to
/// its own generic parameters, its field types in declared order, and the
/// clauses its declaration translates to.
pub struct StructDatum {
    pub binders_count: u64,
    pub self_ty: ApplicationTy,
    pub fields: Vec<Ty>,
    pub clauses: Vec<ProgramClause>,
}

/// An associated-type declaration: the clauses its declaration
/// translates to.
pub struct AssociatedTyDatum {
    pub clauses: Vec<ProgramClause>,
}

/// A trait declaration under its identifier.
pub struct TraitEntry {
    pub id: TraitId,
    pub datum: TraitDatum,
}

/// A struct declaration under its identifier.
pub struct StructEntry {
    pub id: StructId,
    pub datum: StructDatum,
}

/// An associated-type declaration under its identifier.
pub struct AssocTyEntry {
    pub id: TypeId,
    pub datum: AssociatedTyDatum,
}

/// A record that an explicit (positive or negative) impl of a trait for a
/// struct exists.
pub struct ImplEntry {
    pub trait_id: TraitId,
    pub struct_id: StructId,
}

/// The first declaration stored under `id`, if any.
pub open spec fn trait_lookup(entries: Seq<TraitEntry>, id: TraitId) -> Option<TraitDatum>
    decreases entries.len(),
{
    if entries.len() == 0 {
        Option::None
    } else if entries[0].id == id {
        Option::Some(entries[0].datum)
    } else {
        trait_lookup(entries.drop_first(), id)
    }
}

/// The first declaration stored under `id`, if any.
pub open spec fn struct_lookup(entries: Seq<StructEntry>, id: StructId) -> Option<StructDatum>
    decreases entries.len(),
{
    if entries.len() == 0 {
        Option::None
    } else if entries[0].id == id {
        Option::Some(entries[0].datum)
    } else {
        struct_lookup(entries.drop_first(), id)
    }
}

/// The first declaration stored under `id`, if any.
pub open spec fn assoc_ty_lookup(entries: Seq<AssocTyEntry>, id: TypeId) -> Option<
    AssociatedTyDatum,
>
    decreases entries.len(),
{
    if entries.len() == 0 {
        Option::None
    } else if entries[0].id == id {
        Option::Some(entries[0].datum)
    } else {
        assoc_ty_lookup(entries.drop_first(), id)
    }
}

/// The external repository of declarations that this crate queries but
/// does not own.
pub struct DeclarationStore {
    pub traits: Vec<TraitEntry>,
    pub structs: Vec<StructEntry>,
    pub assoc_tys: Vec<AssocTyEntry>,
    pub impls: Vec<ImplEntry>,
}

impl DeclarationStore {
    /// Whether an explicit impl of the trait for the struct is recorded.
    pub open spec fn spec_impl_provided(self, trait_id: TraitId, struct_id: StructId) -> bool {
        exists|i: int|
            0 <= i < self.impls@.len() && self.impls@[i].trait_id == trait_id
                && self.impls@[i].struct_id == struct_id
    }

    /// The models of the clauses of the trait declared under `trait_id`;
    /// empty if no such trait is declared.
    pub open spec fn spec_trait_clauses(self, trait_id: TraitId) -> Seq<ProgramClauseV> {
        match trait_lookup(self.traits@, trait_id) {
            Option::Some(d) => clause_views(d.clauses@),
            Option::None => Seq::empty(),
        }
    }

    /// The models of the clauses of the struct declared under `struct_id`;
    /// empty if no such struct is declared.
    pub open spec fn spec_struct_clauses(self, struct_id: StructId) -> Seq<ProgramClauseV> {
        match struct_lookup(self.structs@, struct_id) {
            Option::Some(d) => clause_views(d.clauses@),
            Option::None => Seq::empty(),
        }
    }

    /// The models of the clauses of the associated type declared under
    /// `assoc_ty_id`; empty if no such associated type is declared.
    pub open spec fn spec_assoc_ty_clauses(self, assoc_ty_id: TypeId) -> Seq<ProgramClauseV> {
        match assoc_ty_lookup(self.assoc_tys@, assoc_ty_id) {
            Option::Some(d) => clause_views(d.clauses@),
            Option::None => Seq::empty(),
        }
    }

    /// Whether an explicit (positive or negative) implementation of the
    /// trait for the struct exists.
    pub fn impl_provided_for(&self, trait_id: TraitId, struct_id: StructId) -> (r: bool)
        ensures
            r == self.spec_impl_provided(trait_id, struct_id),
    {
        let mut i: usize = 0;
        while i < self.impls.len()
            invariant
                i <= self.impls@.len(),
                forall|j: int|
                    0 <= j < i ==> !(self.impls@[j].trait_id == trait_id && self.impls@[j].struct_id
                        == struct_id),
            decreases self.impls@.len() - i,
        {
            if self.impls[i].trait_id == trait_id && self.impls[i].struct_id == struct_id {
                return true;
            }
            i += 1;
        }
        false
    }

    /// Fetch the trait declaration stored under `trait_id`.
    pub fn trait_datum(&self, trait_id: TraitId) -> (r: Option<&TraitDatum>)
        ensures
            match r {
                Option::Some(d) => trait_lookup(self.traits@, trait_id) == Option::Some(*d),
                Option::None => trait_lookup(self.traits@, trait_id) is None,
            },
    {
        let mut i: usize = 0;
        proof {
            assert(self.traits@.skip(0) =~= self.traits@);
        }
        while i < self.traits.len()
            invariant
                i <= self.traits@.len(),
                trait_lookup(self.traits@, trait_id) == trait_lookup(
                    self.traits@.skip(i as int),
                    trait_id,
                ),
            decreases self.traits@.len() - i,
        {
            if self.traits[i].id == trait_id {
                proof {
                    broadcast use vstd::seq_lib::lemma_seq_skip_index;

                    assert(self.traits@.skip(i as int)[0] == self.traits@[i as int]);
                }
                return Option::Some(&self.traits[i].datum);
            }
            proof {
                broadcast use vstd::seq_lib::lemma_seq_skip_index;

                assert(self.traits@.skip(i as int).drop_first() =~= self.traits@.skip(i + 1));
                assert(self.traits@.skip(i as int)[0] == self.traits@[i as int]);
            }
            i += 1;
        }
        Option::None
    }

    /// Fetch the struct declaration stored under `struct_id`.
    pub fn struct_datum(&self, struct_id: StructId) -> (r: Option<&StructDatum>)
        ensures
            match r {
                Option::Some(d) => struct_lookup(self.structs@, struct_id) == Option::Some(*d),
                Option::None => struct_lookup(self.structs@, struct_id) is None,
            },
    {
        let mut i: usize = 0;
        proof {
            assert(self.structs@.skip(0) =~= self.structs@);
        }
        while i < self.structs.len()
            invariant
                i <= self.structs@.len(),
                struct_lookup(self.structs@, struct_id) == struct_lookup(
                    self.structs@.skip(i as int),
                    struct_id,
                ),
            decreases self.structs@.len() - i,
        {
            if self.structs[i].id == struct_id {
                proof {
                    broadcast use vstd::seq_lib::lemma_seq_skip_index;

                    assert(self.structs@.skip(i as int)[0] == self.structs@[i as int]);
                }
                return Option::Some(&self.structs[i].datum);
            }
            proof {
                broadcast use vstd::seq_lib::lemma_seq_skip_index;

                assert(self.structs@.skip(i as int).drop_first() =~= self.structs@.skip(i + 1));
                assert(self.structs@.skip(i as int)[0] == self.structs@[i as int]);
            }
            i += 1;
        }
        Option::None
    }

    /// Fetch the associated-type declaration stored under `assoc_ty_id`.
    pub fn associated_ty_data(&self, assoc_ty_id: TypeId) -> (r: Option<&AssociatedTyDatum>)
        ensures
            match r {
                Option::Some(d) => assoc_ty_lookup(self.assoc_tys@, assoc_ty_id) == Option::Some(
                    *d,
                ),
                Option::None => assoc_ty_lookup(self.assoc_tys@, assoc_ty_id) is None,
            },
    {
        let mut i: usize = 0;
        proof {
            assert(self.assoc_tys@.skip(0) =~= self.assoc_tys@);
        }
        while i < self.assoc_tys.len()
            invariant
                i <= self.assoc_tys@.len(),
                assoc_ty_lookup(self.assoc_tys@, assoc_ty_id) == assoc_ty_lookup(
                    self.assoc_tys@.skip(i as int),
                    assoc_ty_id,
                ),
            decreases self.assoc_tys@.len() - i,
        {
            if self.assoc_tys[i].id == assoc_ty_id {
                proof {
                    broadcast use vstd::seq_lib::lemma_seq_skip_index;

                    assert(self.assoc_tys@.skip(i as int)[0] == self.assoc_tys@[i as int]);
                }
                return Option::Some(&self.assoc_tys[i].datum);
            }
            proof {
                broadcast use vstd::seq_lib::lemma_seq_skip_index;

                assert(self.assoc_tys@.skip(i as int).drop_first() =~= self.assoc_tys@.skip(i + 1));
                assert(self.assoc_tys@.skip(i as int)[0] == self.assoc_tys@[i as int]);
            }
            i += 1;
        }
        Option::None
    }
}

/// Append a copy of every clause in `src` to `out`, in order.
pub fn append_clauses(out: &mut Vec<ProgramClause>, src: &Vec<ProgramClause>)
    ensures
        clause_views(final(out)@) == clause_views(old(out)@) + clause_views(src@),
{
    let mut i: usize = 0;
    while i < src.len()
        invariant
            i <= src@.len(),
            clause_views(out@) == clause_views(old(out)@) + clause_views(src@.take(i as int)),
        decreases src@.len() - i,
    {
        out.push(src[i].clone());
        proof {
            broadcast use crate::ir::group_ir_views;

            assert(src@.take(i + 1).drop_last() =~= src@.take(i as int));
            assert(clause_views(src@.take(i + 1)) == clause_views(src@.take(i as int)).push(
                src@[i as int]@,
            ));
        }
        i += 1;
    }
    proof {
        broadcast use crate::ir::group_ir_views;

        assert(src@.take(src@.len() as int) =~= src@);
    }
}

impl TraitDatum {
    /// Emit this declaration's own program clauses.
    pub fn to_program_clauses(&self, out: &mut Vec<ProgramClause>)
        ensures
            clause_views(final(out)@) == clause_views(old(out)@) + clause_views(self.clauses@),
    {
        append_clauses(out, &self.clauses);
    }
}

impl StructDatum {
    /// Emit this declaration's own program clauses.
    pub fn to_program_clauses(&self, out: &mut Vec<ProgramClause>)
        ensures
            clause_views(final(out)@) == clause_views(old(out)@) + clause_views(self.clauses@),
    {
        append_clauses(out, &self.clauses);
    }
}

impl AssociatedTyDatum {
    /// Emit this declaration's own program clauses.
    pub fn to_program_clauses(&self, out: &mut Vec<ProgramClause>)
        ensures
            clause_views(final(out)@) == clause_views(old(out)@) + clause_views(self.clauses@),
    {
        append_clauses(out, &self.clauses);
    }
}

} // verus!
