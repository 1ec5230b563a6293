use vstd::prelude::*;

verus! {

/// An opaque handle of a body (or of a joint) in the physics world.
#[derive(Clone, Copy, Debug, PartialEq, Eq, Structural)]
pub struct BodyId {
    pub bits: u64,
}

impl BodyId {
    pub fn new(bits: u64) -> (r: BodyId)
        ensures
            r.bits == bits,
    {
        BodyId { bits }
    }
}

/// The entry stored last for `id` in a list of per-body values.
pub open spec fn body_lookup<V>(entries: Seq<(BodyId, V)>, id: BodyId) -> Option<V>
    decreases entries.len(),
{
    if entries.len() == 0 {
        None
    } else if entries.last().0 == id {
        Some(entries.last().1)
    } else {
        body_lookup(entries.drop_last(), id)
    }
}

/// Finds the value recorded for `id`; with several entries for one body the
/// last one wins.
pub fn lookup_body<V: Copy>(entries: &Vec<(BodyId, V)>, id: BodyId) -> (r: Option<V>)
    ensures
        r == body_lookup(entries@, id),
{
    let mut found: Option<V> = None;
    let mut i: usize = 0;
    while i < entries.len()
        invariant
            i <= entries@.len(),
            found == body_lookup(entries@.take(i as int), id),
        decreases entries@.len() - i,
    {
        assert(entries@.take(i as int + 1).drop_last() =~= entries@.take(i as int));
        if entries[i].0 == id {
            found = Some(entries[i].1);
        }
        i = i + 1;
    }
    assert(entries@.take(i as int) =~= entries@);
    found
}

} // verus!
