//! The kernel-wide slot that holds the page-table mapper once it is set up.

use vstd::prelude::*;

verus! {

/// Holds the mapper, once one has been installed.
pub struct MapperSlot<M> {
    pub mapper: Option<M>,
}

impl<M> MapperSlot<M> {
    /// An empty slot.
    pub fn new() -> (r: MapperSlot<M>)
        ensures
            r.mapper is None,
    {
        MapperSlot { mapper: None }
    }
}

/// The slot after installing `mapper`.
pub open spec fn spec_init_mapper<M>(slot: MapperSlot<M>, mapper: M) -> MapperSlot<M> {
    MapperSlot { mapper: Some(mapper) }
}

/// What a look-up of the slot finds.
pub open spec fn spec_get_mapper<M>(slot: MapperSlot<M>) -> Option<M> {
    slot.mapper
}

/// Installs `mapper`, replacing whatever the slot held.
pub fn init_mapper<M>(slot: &mut MapperSlot<M>, mapper: M)
    ensures
        *final(slot) == spec_init_mapper(*old(slot), mapper),
{
    slot.mapper = Some(mapper);
}

/// The installed mapper, if there is one.
pub fn get_mapper<M>(slot: &MapperSlot<M>) -> (r: Option<&M>)
    ensures
        r is None <==> spec_get_mapper(*slot) is None,
        r matches Some(m) ==> spec_get_mapper(*slot) == Some(*m),
{
    match &slot.mapper {
        Some(m) => Some(m),
        None => None,
    }
}

/// A look-up finds the mapper that was installed last: after installing a
/// mapper the slot gives it back, and a second installation replaces the
/// first.
pub proof fn lemma_get_returns_installed<M>(slot: MapperSlot<M>, first: M, second: M)
    ensures
        spec_get_mapper(spec_init_mapper(slot, first)) == Some(first),
        spec_get_mapper(spec_init_mapper(spec_init_mapper(slot, first), second)) == Some(second),
{
}

} // verus!
