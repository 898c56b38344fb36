use vstd::prelude::*;
use bevy::ecs::entity::Entity;

verus! {

/// An entity id of bevy's ECS. The library never looks inside one: it
/// stores ids, hands them back and asks whether two of them are the same.
#[verifier::external_type_specification]
#[verifier::external_body]
pub struct ExEntity(bevy::ecs::entity::Entity);

/// Compares two entity ids with `Entity`'s own `==`, which compares index
/// and generation through their packed bits. Taken on trust: the result is
/// true exactly when the two ids are the same value.
#[verifier::external_body]
pub(crate) fn same_entity(a: Entity, b: Entity) -> (same: bool)
    ensures
        same == (a == b),
{
    a == b
}

} // verus!
