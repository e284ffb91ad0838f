use vstd::prelude::*;

verus! {

/// Holds at most one backend process id.
///
/// Absence is a valid and expected state: either no backend has been
/// started yet, or it has already been cleaned up. The registry is
/// overwritten, never appended to.
pub struct PidRegistry {
    pid: Option<u32>,
}

/// The registry contents after recording `pid`: the previous contents
/// are replaced, whatever they were.
pub open spec fn registry_after_set(r: Option<u32>, pid: u32) -> Option<u32> {
    Some(pid)
}

/// The registry contents after a series of recordings, applied in order.
pub open spec fn registry_after_sets(r: Option<u32>, writes: Seq<u32>) -> Option<u32>
    decreases writes.len(),
{
    if writes.len() == 0 {
        r
    } else {
        registry_after_sets(
            registry_after_set(r, writes[0]),
            writes.subrange(1, writes.len() as int),
        )
    }
}

impl View for PidRegistry {
    type V = Option<u32>;

    closed spec fn view(&self) -> Option<u32> {
        self.pid
    }
}

impl PidRegistry {
    /// Creates an empty registry: no backend recorded.
    pub fn new() -> (r: Self)
        ensures
            r@ == Option::<u32>::None,
    {
        PidRegistry { pid: None }
    }

    /// Records `pid`, replacing any previously recorded value.
    pub fn set(&mut self, pid: u32)
        ensures
            final(self)@ == registry_after_set(old(self)@, pid),
    {
        self.pid = Some(pid);
    }

    /// Returns the currently recorded pid, or `None` if none was
    /// recorded or it was cleared.
    pub fn get(&self) -> (r: Option<u32>)
        ensures
            r == self@,
    {
        self.pid
    }

    /// Empties the registry.
    pub fn clear(&mut self)
        ensures
            final(self)@ == Option::<u32>::None,
    {
        self.pid = None;
    }
}

/// Reading the registry twice without an intervening write observes the
/// same value both times: a read has no side effect on the contents.
pub proof fn lemma_get_idempotent(r: PidRegistry, first: Option<u32>, second: Option<u32>)
    requires
        first == r@,
        second == r@,
    ensures
        first == second,
{
}

/// Recording `a` and then `b` leaves exactly `b` in the registry; the
/// earlier value `a` is observed afterwards only if the two are equal.
pub proof fn lemma_set_overwrites(r: Option<u32>, a: u32, b: u32)
    ensures
        registry_after_set(registry_after_set(r, a), b) == Some(b),
        a != b ==> registry_after_set(registry_after_set(r, a), b) != Some(a),
{
}

/// Any serialization of a non-empty series of writes leaves the last
/// written value in the registry; in particular the observed value is
/// one of the written values, never a torn or invented one.
pub proof fn lemma_no_torn_value(r: Option<u32>, writes: Seq<u32>)
    requires
        writes.len() > 0,
    ensures
        registry_after_sets(r, writes) == Some(writes.last()),
        exists|i: int| 0 <= i < writes.len() && registry_after_sets(r, writes) == Some(writes[i]),
    decreases writes.len(),
{
    let rest = writes.subrange(1, writes.len() as int);
    if writes.len() == 1 {
        assert(rest.len() == 0);
        assert(registry_after_sets(r, writes) == registry_after_sets(Some(writes[0]), rest));
        assert(registry_after_sets(Some(writes[0]), rest) == Some(writes[0]));
    } else {
        lemma_no_torn_value(registry_after_set(r, writes[0]), rest);
        assert(rest.last() == writes.last());
    }
    assert(registry_after_sets(r, writes) == Some(writes[writes.len() - 1]));
}

} // verus!
