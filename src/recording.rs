use vstd::prelude::*;

use crate::args::{ArgKind, OwnedWire, WireArg, WireValue};
use crate::backend::{lemma_names_push, names_of, wire_values, Backend, Firing, Refusals};
use crate::error::{RegistrationFault, TracerError};

verus! {

/// One firing kept by a [`RecordingBackend`].
#[derive(Clone, Debug)]
pub struct FireRecord {
    pub probe: usize,
    pub args: Vec<OwnedWire>,
}

impl FireRecord {
    pub open spec fn view(&self) -> Firing {
        (self.probe, self.args@.map_values(|w: OwnedWire| w.value()))
    }
}

/// The number of `true` entries.
pub open spec fn count_true(v: Seq<bool>) -> nat
    decreases v.len(),
{
    if v.len() == 0 {
        0
    } else {
        count_true(v.drop_last()) + if v.last() {
            1nat
        } else {
            0nat
        }
    }
}

/// A backend that lives in memory: it hands out handles, lets observers be
/// attached to probes by name, refuses what it was told to refuse, and keeps
/// every firing it receives.
pub struct RecordingBackend {
    providers: Vec<bool>,
    probe_names: Vec<String>,
    attached: Vec<String>,
    refused_providers: Vec<String>,
    refused_probes: Vec<String>,
    refuse_load: bool,
    unavailable: bool,
    records: Vec<FireRecord>,
}

/// Whether some entry of `v` equals `n`.
fn holds_name(v: &Vec<String>, n: &String) -> (r: bool)
    ensures
        r == names_of(v@).contains(n@),
{
    let mut i: usize = 0;
    while i < v.len()
        invariant
            i <= v@.len(),
            forall|j: int| 0 <= j < i ==> (#[trigger] v@[j])@ != n@,
        decreases v@.len() - i,
    {
        if v[i] == *n {
            assert(names_of(v@).contains(n@)) by {
                assert(v@[i as int]@ == n@);
            }
            return true;
        }
        i = i + 1;
    }
    false
}

impl RecordingBackend {
    /// Names that observers are attached to.
    pub closed spec fn attached_names(&self) -> Set<Seq<char>> {
        names_of(self.attached@)
    }

    /// The name each probe handle was registered under.
    pub closed spec fn registered(&self) -> Seq<Seq<char>> {
        self.probe_names@.map_values(|s: String| s@)
    }

    /// Handles created so far.
    pub closed spec fn created(&self) -> nat {
        self.providers@.len()
    }

    /// Handles created and not released, counted.
    pub closed spec fn live_total(&self) -> nat {
        count_true(self.providers@)
    }

    /// A backend that refuses nothing, with no observer attached.
    pub fn new() -> (r: RecordingBackend)
        ensures
            r.live() == Set::<usize>::empty(),
            r.refusals() == (Refusals {
                providers: Set::empty(),
                probes: Set::empty(),
                load: false,
            }),
            r.attached_names() == Set::<Seq<char>>::empty(),
            r.registered() == Seq::<Seq<char>>::empty(),
            r.fired() == Seq::<Firing>::empty(),
            r.created() == 0,
    {
        let r = RecordingBackend {
            providers: Vec::new(),
            probe_names: Vec::new(),
            attached: Vec::new(),
            refused_providers: Vec::new(),
            refused_probes: Vec::new(),
            refuse_load: false,
            unavailable: false,
            records: Vec::new(),
        };
        assert(r.live() =~= Set::<usize>::empty());
        assert(names_of(r.attached@) =~= Set::<Seq<char>>::empty());
        assert(names_of(r.refused_providers@) =~= Set::<Seq<char>>::empty());
        assert(names_of(r.refused_probes@) =~= Set::<Seq<char>>::empty());
        assert(r.registered() =~= Seq::<Seq<char>>::empty());
        assert(r.fired() =~= Seq::<Firing>::empty());
        r
    }

    /// An observer attaches to every probe registered under `name`.
    pub fn attach(&mut self, name: &str)
        ensures
            final(self).attached_names() == old(self).attached_names().insert(name@),
            final(self).registered() == old(self).registered(),
            final(self).live() == old(self).live(),
            final(self).refusals() == old(self).refusals(),
            final(self).fired() == old(self).fired(),
            final(self).created() == old(self).created(),
    {
        let s = name.to_string();
        proof {
            lemma_names_push(self.attached@, s);
        }
        self.attached.push(s);
    }

    /// From now on, creating a provider of this name fails.
    pub fn refuse_provider(&mut self, name: &str)
        ensures
            final(self).refusals().providers == old(self).refusals().providers.insert(name@),
            final(self).refusals().probes == old(self).refusals().probes,
            final(self).refusals().load == old(self).refusals().load,
            final(self).attached_names() == old(self).attached_names(),
            final(self).registered() == old(self).registered(),
            final(self).live() == old(self).live(),
            final(self).fired() == old(self).fired(),
            final(self).created() == old(self).created(),
    {
        let s = name.to_string();
        proof {
            lemma_names_push(self.refused_providers@, s);
        }
        self.refused_providers.push(s);
    }

    /// From now on, registering a probe of this name fails.
    pub fn refuse_probe(&mut self, name: &str)
        ensures
            final(self).refusals().probes == old(self).refusals().probes.insert(name@),
            final(self).refusals().providers == old(self).refusals().providers,
            final(self).refusals().load == old(self).refusals().load,
            final(self).attached_names() == old(self).attached_names(),
            final(self).registered() == old(self).registered(),
            final(self).live() == old(self).live(),
            final(self).fired() == old(self).fired(),
            final(self).created() == old(self).created(),
    {
        let s = name.to_string();
        proof {
            lemma_names_push(self.refused_probes@, s);
        }
        self.refused_probes.push(s);
    }

    /// From now on, loading a provider fails.
    pub fn refuse_loading(&mut self)
        ensures
            final(self).refusals().load,
            final(self).refusals().providers == old(self).refusals().providers,
            final(self).refusals().probes == old(self).refusals().probes,
            final(self).attached_names() == old(self).attached_names(),
            final(self).registered() == old(self).registered(),
            final(self).live() == old(self).live(),
            final(self).fired() == old(self).fired(),
            final(self).created() == old(self).created(),
    {
        self.refuse_load = true;
    }

    /// From now on, the backend behaves as if its native library were
    /// missing: creating any provider fails with `BackendUnavailable`.
    pub fn make_unavailable(&mut self)
        ensures
            final(self).refusals().providers == Set::<Seq<char>>::full(),
            final(self).refusals().probes == old(self).refusals().probes,
            final(self).refusals().load == old(self).refusals().load,
            final(self).attached_names() == old(self).attached_names(),
            final(self).registered() == old(self).registered(),
            final(self).live() == old(self).live(),
            final(self).fired() == old(self).fired(),
            final(self).created() == old(self).created(),
    {
        self.unavailable = true;
    }

    /// How many provider handles were created.
    pub fn created_count(&self) -> (r: usize)
        ensures
            r == self.created(),
    {
        self.providers.len()
    }

    /// How many provider handles are created and not released.
    pub fn live_count(&self) -> (r: usize)
        ensures
            r == self.live_total(),
    {
        let mut n: usize = 0;
        let mut i: usize = 0;
        while i < self.providers.len()
            invariant
                i <= self.providers@.len(),
                n == count_true(self.providers@.subrange(0, i as int)),
                n <= i,
            decreases self.providers@.len() - i,
        {
            proof {
                let s = self.providers@.subrange(0, i as int + 1);
                assert(s.drop_last() =~= self.providers@.subrange(0, i as int));
            }
            if self.providers[i] {
                n = n + 1;
            }
            i = i + 1;
        }
        assert(self.providers@.subrange(0, i as int) =~= self.providers@);
        n
    }

    /// The firings received so far, oldest first.
    pub fn records(&self) -> (r: &Vec<FireRecord>)
        ensures
            r@.map_values(|f: FireRecord| f.view()) == self.fired(),
    {
        &self.records
    }
}

impl Backend for RecordingBackend {
    closed spec fn live(&self) -> Set<usize> {
        Set::new(|h: usize| h < self.providers@.len() && self.providers@[h as int])
    }

    closed spec fn refusals(&self) -> Refusals {
        Refusals {
            providers: if self.unavailable {
                Set::full()
            } else {
                names_of(self.refused_providers@)
            },
            probes: names_of(self.refused_probes@),
            load: self.refuse_load,
        }
    }

    closed spec fn active(&self) -> Set<usize> {
        Set::new(
            |p: usize|
                p < self.probe_names@.len() && names_of(self.attached@).contains(
                    self.probe_names@[p as int]@,
                ),
        )
    }

    closed spec fn fired(&self) -> Seq<Firing> {
        self.records@.map_values(|f: FireRecord| f.view())
    }

    fn create_provider(&mut self, name: &String) -> (r: Result<usize, TracerError>) {
        if self.unavailable {
            return Err(TracerError::BackendUnavailable);
        }
        if holds_name(&self.refused_providers, name) {
            return Err(TracerError::RegistrationError(RegistrationFault::Rejected));
        }
        let h = self.providers.len();
        let ghost before = self.live();
        self.providers.push(true);
        assert(self.live().remove(h) =~= before);
        Ok(h)
    }

    fn register_probe(&mut self, provider: usize, name: &String, kinds: &Vec<ArgKind>) -> (r: Result<
        usize,
        TracerError,
    >) {
        if holds_name(&self.refused_probes, name) {
            return Err(TracerError::RegistrationError(RegistrationFault::Rejected));
        }
        let p = self.probe_names.len();
        self.probe_names.push(name.clone());
        Ok(p)
    }

    fn load_provider(&mut self, provider: usize) -> (r: Result<(), TracerError>) {
        if self.refuse_load {
            Err(TracerError::RegistrationError(RegistrationFault::Rejected))
        } else {
            Ok(())
        }
    }

    fn release_provider(&mut self, provider: usize) {
        let ghost before = self.live();
        if provider < self.providers.len() {
            self.providers.set(provider, false);
        }
        assert(self.live() =~= before.remove(provider));
    }

    fn is_active(&self, probe: usize) -> (r: bool) {
        if probe < self.probe_names.len() {
            holds_name(&self.attached, &self.probe_names[probe])
        } else {
            false
        }
    }

    fn fire(&mut self, probe: usize, args: &Vec<WireArg>) {
        let mut copied: Vec<OwnedWire> = Vec::new();
        let mut i: usize = 0;
        while i < args.len()
            invariant
                i <= args@.len(),
                copied@.len() == i,
                forall|j: int| 0 <= j < i ==> (#[trigger] copied@[j]).value() == args@[j].value(),
            decreases args@.len() - i,
        {
            copied.push(OwnedWire::from_wire(&args[i]));
            i = i + 1;
        }
        let rec = FireRecord { probe, args: copied };
        assert(rec.view().1 =~= wire_values(args@));
        let ghost before = self.fired();
        self.records.push(rec);
        assert(self.fired() =~= before.push((probe, wire_values(args@))));
    }
}

} // verus!
