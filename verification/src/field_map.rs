//! The map from the fields of a struct, union or variant to their types. The
//! map is an arena map: its keys are the positions of the fields.
use vstd::prelude::*;
use crate::binders::Binders;
use crate::db::{Database, FieldData};
use crate::generics::generics;
use crate::ids::{AdtId, GenericDefId, VariantId};
use crate::lower::TyLoweringContext;
use crate::semantics::{
    binders_of, field_type_refs, field_types_spec, fresh_state, lower_ty_spec, lower_tys_spec,
    variant_generic_def, TypeParamLoweringMode,
};
use crate::ty::{Ty, TyV};

verus! {

/// Declares `la_arena::Idx`, the position of a value in an arena. Nothing is
/// said of what is inside one.
#[verifier::external_type_specification]
#[verifier::external_body]
#[verifier::reject_recursive_types(T)]
pub struct ExIdx<T>(la_arena::Idx<T>);

/// Declares `la_arena::ArenaMap`, a map from positions in an arena to
/// values. What a map holds is known through [`field_types_contents`] alone.
#[verifier::external_type_specification]
#[verifier::external_body]
#[verifier::reject_recursive_types(IDX)]
#[verifier::reject_recursive_types(V)]
pub struct ExArenaMap<IDX, V>(la_arena::ArenaMap<IDX, V>);

/// The types of the fields of a struct, union or variant, by the position of
/// the field.
pub type FieldTypes = la_arena::ArenaMap<la_arena::Idx<FieldData>, Binders<Ty>>;

/// What the map holds: for each position that has an entry, the entry.
pub uninterp spec fn field_types_contents(m: FieldTypes) -> Map<u32, Binders<Ty>>;

/// Calls `la_arena::ArenaMap::default`, which makes a map without entries.
#[verifier::external_body]
fn arena_map_new() -> (m: FieldTypes)
    ensures
        field_types_contents(m).dom() == Set::<u32>::empty(),
{
    la_arena::ArenaMap::default()
}

/// Calls `la_arena::ArenaMap::insert`, which puts `value` at `idx` and
/// leaves the other entries as they are. The position below the largest one
/// is asked for because the outside function adds one to it.
#[verifier::external_body]
fn arena_map_insert(m: &mut FieldTypes, idx: u32, value: Binders<Ty>)
    requires
        idx < u32::MAX,
    ensures
        field_types_contents(*final(m)) == field_types_contents(*old(m)).insert(idx, value),
{
    m.insert(la_arena::Idx::from_raw(la_arena::RawIdx::from(idx)), value);
}

/// Calls `la_arena::ArenaMap::get`, which returns the entry at `idx` if
/// there is one.
#[verifier::external_body]
fn arena_map_get(m: &FieldTypes, idx: u32) -> (r: Option<&Binders<Ty>>)
    ensures
        r == if field_types_contents(*m).dom().contains(idx) {
            Some(&field_types_contents(*m)[idx])
        } else {
            None::<&Binders<Ty>>
        },
{
    m.get(la_arena::Idx::from_raw(la_arena::RawIdx::from(idx)))
}

/// The type of the field at position `idx`, if the map has one.
pub fn field_type(m: &FieldTypes, idx: u32) -> (r: Option<&Binders<Ty>>)
    ensures
        r == if field_types_contents(*m).dom().contains(idx) {
            Some(&field_types_contents(*m)[idx])
        } else {
            None::<&Binders<Ty>>
        },
{
    arena_map_get(m, idx)
}

/// Builds the types of the fields of a struct, union or variant: for the
/// field at each position, its type lowered in the scope of the data type,
/// under the data type's generic parameters. Fields beyond the positions
/// that an arena can address get no entry.
pub fn field_types_query(db: &Database, variant_id: VariantId) -> (res: FieldTypes)
    requires
        db.spec_variant_data(variant_id) is Some,
    ensures
        forall|i: u32|
            field_types_contents(res).dom().contains(i) <==> i < db.spec_variant_data(
                variant_id,
            ).unwrap().fields@.len() && i < u32::MAX,
        forall|i: u32|
            field_types_contents(res).dom().contains(i) ==> (#[trigger] field_types_contents(res)[i])@
                == (Binders {
                num_binders: binders_of(*db, variant_generic_def(variant_id)),
                value: field_types_spec(*db, variant_id)[i as int],
            }),
        crate::consistency::database_consistent(*db) ==> forall|i: u32|
            field_types_contents(res).dom().contains(i) ==> crate::binders::binder_consistent_ty(
                (#[trigger] field_types_contents(res)[i])@,
            ),
{
    reveal(lower_tys_spec);
    reveal(lower_ty_spec);
    let def = match variant_id {
        VariantId::StructId(it) => GenericDefId::AdtId(AdtId::StructId(it)),
        VariantId::UnionId(it) => GenericDefId::AdtId(AdtId::UnionId(it)),
        VariantId::EnumVariantId(it) => GenericDefId::AdtId(AdtId::EnumId(it.parent)),
    };
    let fields = &db.variant(variant_id).fields;
    let generics = generics(db, def);
    let num_binders = generics.len();
    let mut res = arena_map_new();
    let mut ctx = TyLoweringContext::new(db, &db.item_of(def).resolver).with_type_param_mode(
        TypeParamLoweringMode::Variable,
    );
    let ghost env = ctx.env();
    let ghost refs = field_type_refs(fields@);
    let ghost mut lowered: Seq<TyV> = Seq::empty();
    let mut i: usize = 0;
    assert(refs.take(0) =~= Seq::empty());
    while i < fields.len() && i < u32::MAX as usize
        invariant
            i <= fields.len(),
            i <= u32::MAX,
            refs == field_type_refs(fields@),
            ctx.env() == env,
            num_binders == binders_of(*db, def),
            (lowered, ctx.state()) == lower_tys_spec(env, fresh_state(), refs.take(i as int)),
            lowered.len() == i,
            forall|k: u32| field_types_contents(res).dom().contains(k) <==> k < i,
            forall|k: u32|
                field_types_contents(res).dom().contains(k) ==> (#[trigger] field_types_contents(res)[k])@
                    == (Binders { num_binders, value: lowered[k as int] }),
        decreases fields.len() - i,
    {
        reveal(lower_tys_spec);
        reveal(lower_ty_spec);
        proof {
            assert(refs.take(i + 1).drop_last() == refs.take(i as int));
            assert(refs.take(i + 1).last() == fields@[i as int].type_ref);
        }
        let ty = ctx.lower_ty(&fields[i].type_ref);
        proof {
            lowered = lowered.push(ty@);
        }
        arena_map_insert(&mut res, i as u32, Binders::new(num_binders, ty));
        i += 1;
    }
    proof {
        lemma_lower_tys_prefix(env, fresh_state(), refs, i as int);
        if crate::consistency::database_consistent(*db) {
            crate::query_laws::lemma_field_types_consistent(*db, variant_id);
            let all = field_types_spec(*db, variant_id);
            assert forall|k: u32| field_types_contents(res).dom().contains(k) implies crate::binders::binder_consistent_ty(
                (#[trigger] field_types_contents(res)[k])@,
            ) by {
                assert(field_types_contents(res)[k]@.value == all[k as int]);
            }
        }
    }
    res
}

/// Lowering a list of type references lowers each of its prefixes first:
/// the types of a prefix are the first of the types of the list.
pub proof fn lemma_lower_tys_prefix(
    env: crate::semantics::LowerEnv,
    st: crate::semantics::LowerState,
    refs: Seq<crate::type_ref::TypeRef>,
    i: int,
)
    requires
        0 <= i <= refs.len(),
    ensures
        lower_tys_spec(env, st, refs.take(i)).0 == lower_tys_spec(env, st, refs).0.take(i),
        lower_tys_spec(env, st, refs).0.len() == refs.len(),
    decreases refs.len(),
{
    reveal(lower_tys_spec);
    reveal(lower_ty_spec);
    if refs.len() == 0 {
        assert(refs.take(i) =~= refs);
        assert(lower_tys_spec(env, st, refs).0.take(i) =~= lower_tys_spec(env, st, refs).0);
    } else if i == refs.len() {
        lemma_lower_tys_prefix(env, st, refs.drop_last(), i - 1);
        assert(refs.take(i) =~= refs);
        assert(lower_tys_spec(env, st, refs).0.take(i) =~= lower_tys_spec(env, st, refs).0);
    } else {
        lemma_lower_tys_prefix(env, st, refs.drop_last(), i);
        assert(refs.drop_last().take(i) =~= refs.take(i));
        assert(lower_tys_spec(env, st, refs).0.take(i) =~= lower_tys_spec(env, st, refs.drop_last()).0.take(i));
    }
}

} // verus!
