use vstd::prelude::*;

use crate::args::{ArgKind, OwnedWire, WireArg, WireValue};
use crate::error::TracerError;

verus! {

/// What a backend turns down: the provider names it will not create, the
/// probe names it will not register, and whether it refuses to load.
pub struct Refusals {
    pub providers: Set<Seq<char>>,
    pub probes: Set<Seq<char>>,
    pub load: bool,
}

/// One firing as the backend received it: the probe's handle and the wire
/// values of its arguments.
pub type Firing = (usize, Seq<WireValue>);

/// The wire values of a list of wire arguments.
pub open spec fn wire_values(args: Seq<WireArg>) -> Seq<WireValue> {
    args.map_values(|w: WireArg| w.value())
}

/// The set of names held by a list of strings.
pub open spec fn names_of(v: Seq<String>) -> Set<Seq<char>> {
    Set::new(|n: Seq<char>| exists|i: int| 0 <= i < v.len() && (#[trigger] v[i])@ == n)
}

/// Adding a string to a list adds its characters to the list's names.
pub(crate) proof fn lemma_names_push(v: Seq<String>, s: String)
    ensures
        names_of(v.push(s)) == names_of(v).insert(s@),
{
    let l = names_of(v.push(s));
    let r = names_of(v).insert(s@);
    assert forall|n: Seq<char>| l.contains(n) <==> r.contains(n) by {
        if l.contains(n) {
            let i = choose|i: int| 0 <= i < v.push(s).len() && (#[trigger] v.push(s)[i])@ == n;
            if i < v.len() {
                assert(v[i]@ == n);
            }
        }
        if r.contains(n) && n != s@ {
            let i = choose|i: int| 0 <= i < v.len() && (#[trigger] v[i])@ == n;
            assert(v.push(s)[i]@ == n);
        }
        if n == s@ {
            assert(v.push(s)[v.len() as int]@ == n);
        }
    }
    assert(l =~= r);
}

/// The primitives of a tracing backend. Provider handles stay live from
/// creation to release; probe handles name registered probes.
pub trait Backend: Sized {
    /// Provider handles created and not released.
    spec fn live(&self) -> Set<usize>;

    /// The requests this backend turns down.
    spec fn refusals(&self) -> Refusals;

    /// Probe handles that an observer is attached to right now.
    spec fn active(&self) -> Set<usize>;

    /// Every firing the backend has received, oldest first.
    spec fn fired(&self) -> Seq<Firing>;

    /// Creates a native provider handle for `name`. A backend that holds
    /// nothing for its providers may leave the new handle out of `live`.
    fn create_provider(&mut self, name: &String) -> (r: Result<usize, TracerError>)
        ensures
            final(self).refusals() == old(self).refusals(),
            final(self).fired() == old(self).fired(),
            r is Ok <==> !old(self).refusals().providers.contains(name@),
            match r {
                Ok(h) => !old(self).live().contains(h) && final(self).live().remove(h) == old(self).live(),
                Err(_) => final(self).live() == old(self).live(),
            },
    ;

    /// Registers a probe with the given argument kinds under a provider.
    fn register_probe(&mut self, provider: usize, name: &String, kinds: &Vec<ArgKind>) -> (r: Result<
        usize,
        TracerError,
    >)
        ensures
            final(self).refusals() == old(self).refusals(),
            final(self).fired() == old(self).fired(),
            final(self).live() == old(self).live(),
            r is Ok <==> !old(self).refusals().probes.contains(name@),
    ;

    /// Makes a provider and its probes visible to observers.
    fn load_provider(&mut self, provider: usize) -> (r: Result<(), TracerError>)
        ensures
            final(self).refusals() == old(self).refusals(),
            final(self).fired() == old(self).fired(),
            final(self).live() == old(self).live(),
            r is Ok <==> !old(self).refusals().load,
    ;

    /// Releases a provider handle.
    fn release_provider(&mut self, provider: usize)
        ensures
            final(self).refusals() == old(self).refusals(),
            final(self).fired() == old(self).fired(),
            final(self).live() == old(self).live().remove(provider),
    ;

    /// Whether an observer is attached to the probe.
    fn is_active(&self, probe: usize) -> (r: bool)
        ensures
            r == self.active().contains(probe),
    ;

    /// Hands a firing of an active probe to the backend.
    fn fire(&mut self, probe: usize, args: &Vec<WireArg>)
        requires
            old(self).active().contains(probe),
        ensures
            final(self).refusals() == old(self).refusals(),
            final(self).live() == old(self).live(),
            final(self).active() == old(self).active(),
            final(self).fired() == old(self).fired().push((probe, wire_values(args@))),
    ;
}

/// The backend used where tracing is unavailable or switched off: every
/// request succeeds, no probe is ever active, and nothing is observable.
#[derive(Clone, Copy, Debug)]
pub struct NoOpBackend {}

impl NoOpBackend {
    pub fn new() -> (r: NoOpBackend)
        ensures
            r.live() == Set::<usize>::empty(),
    {
        NoOpBackend {  }
    }
}

impl Backend for NoOpBackend {
    open spec fn live(&self) -> Set<usize> {
        Set::empty()
    }

    open spec fn refusals(&self) -> Refusals {
        Refusals { providers: Set::empty(), probes: Set::empty(), load: false }
    }

    open spec fn active(&self) -> Set<usize> {
        Set::empty()
    }

    open spec fn fired(&self) -> Seq<Firing> {
        Seq::empty()
    }

    fn create_provider(&mut self, name: &String) -> (r: Result<usize, TracerError>) {
        proof {
            assert(Set::<usize>::empty().remove(0) =~= Set::<usize>::empty());
        }
        Ok(0)
    }

    fn register_probe(&mut self, provider: usize, name: &String, kinds: &Vec<ArgKind>) -> (r: Result<
        usize,
        TracerError,
    >) {
        Ok(0)
    }

    fn load_provider(&mut self, provider: usize) -> (r: Result<(), TracerError>) {
        Ok(())
    }

    fn release_provider(&mut self, provider: usize) {
        proof {
            assert(Set::<usize>::empty().remove(provider) =~= Set::<usize>::empty());
        }
    }

    fn is_active(&self, probe: usize) -> (r: bool) {
        false
    }

    fn fire(&mut self, probe: usize, args: &Vec<WireArg>) {
    }
}

} // verus!
