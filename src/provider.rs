use vstd::prelude::*;

use crate::args::{kind_spec, kinds_match, wire_of, wrap_all, ArgKind, ArgValue, MAX_ARGS};
use crate::backend::{lemma_names_push, names_of, wire_values, Backend, NoOpBackend, Refusals};
use crate::error::{RegistrationFault, TracerError};

verus! {

/// A probe's name and its argument kinds, in order.
pub type Signature = (Seq<char>, Seq<ArgKind>);

/// What a builder holds: the probes declared so far, and the first fault met.
pub struct BuilderModel {
    pub probes: Seq<Signature>,
    pub fault: Option<TracerError>,
}

/// The builder with no probe declared.
pub open spec fn empty_builder() -> BuilderModel {
    BuilderModel { probes: Seq::empty(), fault: None }
}

/// Whether a probe of this name is among the signatures.
pub open spec fn declares(probes: Seq<Signature>, name: Seq<char>) -> bool {
    exists|i: int| 0 <= i < probes.len() && (#[trigger] probes[i]).0 == name
}

/// Declaring one more probe. The first fault sticks: a builder that failed
/// stays failed and ignores later probes.
pub open spec fn add_probe_spec(b: BuilderModel, name: Seq<char>, kinds: Seq<ArgKind>) -> BuilderModel {
    if b.fault is Some {
        b
    } else if kinds.len() > MAX_ARGS {
        BuilderModel {
            probes: b.probes,
            fault: Some(TracerError::RegistrationError(RegistrationFault::TooManyArguments)),
        }
    } else if declares(b.probes, name) {
        BuilderModel { probes: b.probes, fault: Some(TracerError::ConfigurationError) }
    } else {
        BuilderModel { probes: b.probes.push((name, kinds)), fault: None }
    }
}

/// A provider name that tracing tools accept: not empty, and free of the
/// separators `.` and `:`.
pub open spec fn valid_provider_name(n: Seq<char>) -> bool {
    &&& n.len() > 0
    &&& forall|i: int| 0 <= i < n.len() ==> #[trigger] n[i] != '.' && n[i] != ':'
}

/// The error that defining a provider meets before the backend is asked,
/// if any.
pub open spec fn define_error(defined: Set<Seq<char>>, name: Seq<char>, b: BuilderModel) -> Option<
    TracerError,
> {
    if b.fault is Some {
        b.fault
    } else if !valid_provider_name(name) {
        Some(TracerError::RegistrationError(RegistrationFault::InvalidName))
    } else if defined.contains(name) {
        Some(TracerError::RegistrationError(RegistrationFault::DuplicateName))
    } else {
        None
    }
}

/// Whether the backend accepts every request of defining this provider.
pub open spec fn backend_accepts(refusals: Refusals, name: Seq<char>, b: BuilderModel) -> bool {
    &&& !refusals.providers.contains(name)
    &&& forall|i: int| 0 <= i < b.probes.len() ==> !refusals.probes.contains(#[trigger] b.probes[i].0)
    &&& !refusals.load
}

/// Whether defining this provider succeeds.
pub open spec fn define_succeeds(
    refusals: Refusals,
    defined: Set<Seq<char>>,
    name: Seq<char>,
    b: BuilderModel,
) -> bool {
    define_error(defined, name, b) is None && backend_accepts(refusals, name, b)
}

/// Accumulates probe declarations before a provider is defined.
pub struct ProviderBuilder {
    probes: Vec<ProbeSpec>,
    fault: Option<TracerError>,
}

/// A declared probe: its name and its argument kinds, in order.
#[derive(Debug)]
pub struct ProbeSpec {
    pub name: String,
    pub kinds: Vec<ArgKind>,
}

impl ProbeSpec {
    pub open spec fn signature(&self) -> Signature {
        (self.name@, self.kinds@)
    }
}

/// A copy of a list of argument kinds.
pub fn copy_kinds(v: &Vec<ArgKind>) -> (r: Vec<ArgKind>)
    ensures
        r@ == v@,
{
    let mut r: Vec<ArgKind> = Vec::new();
    let mut i: usize = 0;
    while i < v.len()
        invariant
            i <= v@.len(),
            r@ == v@.subrange(0, i as int),
        decreases v@.len() - i,
    {
        r.push(v[i]);
        i = i + 1;
    }
    assert(r@ =~= v@);
    r
}

impl ProviderBuilder {
    pub closed spec fn model(&self) -> BuilderModel {
        BuilderModel { probes: self.probes@.map_values(|p: ProbeSpec| p.signature()), fault: self.fault }
    }

    /// A builder with no probe declared.
    pub fn new() -> (r: ProviderBuilder)
        ensures
            r.model() == empty_builder(),
    {
        let r = ProviderBuilder { probes: Vec::new(), fault: None };
        assert(r.model().probes =~= Seq::<Signature>::empty());
        r
    }

    /// Declares one more probe. A probe with more arguments than the backend
    /// carries, or a name declared before, fails the whole builder.
    pub fn add_probe(&mut self, name: &str, kinds: &Vec<ArgKind>)
        ensures
            final(self).model() == add_probe_spec(old(self).model(), name@, kinds@),
    {
        if self.fault.is_some() {
            return ;
        }
        if kinds.len() > MAX_ARGS {
            self.fault = Some(TracerError::RegistrationError(RegistrationFault::TooManyArguments));
            return ;
        }
        let n = name.to_string();
        let ghost sigs = self.model().probes;
        let mut i: usize = 0;
        while i < self.probes.len()
            invariant
                i <= self.probes@.len(),
                sigs == self.probes@.map_values(|p: ProbeSpec| p.signature()),
                sigs == old(self).model().probes,
                self.fault is None,
                old(self).model().fault is None,
                kinds@.len() <= MAX_ARGS,
                n@ == name@,
                forall|j: int| 0 <= j < i ==> (#[trigger] sigs[j]).0 != name@,
            decreases self.probes@.len() - i,
        {
            assert(sigs[i as int] == self.probes@[i as int].signature());
            if self.probes[i].name == n {
                assert(sigs[i as int].0 == name@);
                assert(declares(sigs, name@));
                self.fault = Some(TracerError::ConfigurationError);
                return ;
            }
            i = i + 1;
        }
        assert(!declares(sigs, name@));
        let spec = ProbeSpec { name: n, kinds: copy_kinds(kinds) };
        self.probes.push(spec);
        assert(self.model().probes =~= sigs.push((name@, kinds@)));
    }

    /// The first fault met, if any.
    pub fn fault(&self) -> (r: Option<TracerError>)
        ensures
            r == self.model().fault,
    {
        self.fault
    }
}

/// One registered trace point.
#[derive(Debug)]
pub struct Probe {
    name: String,
    kinds: Vec<ArgKind>,
    handle: usize,
}

impl Probe {
    pub closed spec fn signature(&self) -> Signature {
        (self.name@, self.kinds@)
    }

    pub closed spec fn handle_spec(&self) -> usize {
        self.handle
    }

    pub fn name(&self) -> (r: &String)
        ensures
            r@ == self.signature().0,
    {
        &self.name
    }

    pub fn kinds(&self) -> (r: &Vec<ArgKind>)
        ensures
            r@ == self.signature().1,
    {
        &self.kinds
    }

    /// The backend's handle for this probe.
    pub fn handle(&self) -> (r: usize)
        ensures
            r == self.handle_spec(),
    {
        self.handle
    }
}

/// A named set of probes registered with a backend for the rest of the
/// process's life. It never changes once made.
#[derive(Debug)]
pub struct Provider {
    name: String,
    handle: usize,
    probes: Vec<Probe>,
}

impl Provider {
    pub closed spec fn name_spec(&self) -> Seq<char> {
        self.name@
    }

    pub closed spec fn handle_spec(&self) -> usize {
        self.handle
    }

    pub closed spec fn probes_spec(&self) -> Seq<Probe> {
        self.probes@
    }

    /// The signatures of the probes, in declaration order.
    pub open spec fn signatures(&self) -> Seq<Signature> {
        self.probes_spec().map_values(|p: Probe| p.signature())
    }

    pub fn name(&self) -> (r: &String)
        ensures
            r@ == self.name_spec(),
    {
        &self.name
    }

    /// The backend's handle for this provider.
    pub fn handle(&self) -> (r: usize)
        ensures
            r == self.handle_spec(),
    {
        self.handle
    }

    /// The probes, in declaration order.
    pub fn probes(&self) -> (r: &Vec<Probe>)
        ensures
            r@ == self.probes_spec(),
    {
        &self.probes
    }

    /// The probe declared under `name`, if any.
    pub fn probe(&self, name: &str) -> (r: Option<&Probe>)
        ensures
            match r {
                Some(p) => self.probes_spec().contains(*p) && p.signature().0 == name@,
                None => forall|i: int|
                    0 <= i < self.probes_spec().len() ==> (#[trigger] self.probes_spec()[i]).signature().0
                        != name@,
            },
    {
        let n = name.to_string();
        let mut i: usize = 0;
        while i < self.probes.len()
            invariant
                i <= self.probes@.len(),
                n@ == name@,
                forall|j: int| 0 <= j < i ==> (#[trigger] self.probes@[j]).name@ != name@,
            decreases self.probes@.len() - i,
        {
            if self.probes[i].name == n {
                return Some(&self.probes[i]);
            }
            i = i + 1;
        }
        None
    }
}

/// A backend together with the names of the providers defined through it:
/// the one place of a process where providers are defined and probes fire.
pub struct Tracer<B: Backend> {
    backend: B,
    names: Vec<String>,
}

impl<B: Backend> Tracer<B> {
    /// The backend.
    pub closed spec fn backend_spec(&self) -> B {
        self.backend
    }

    pub fn backend(&self) -> (r: &B)
        ensures
            *r == self.backend_spec(),
    {
        &self.backend
    }

    /// The backend, to change; the defined names stay as they are.
    pub fn backend_mut(&mut self) -> (r: &mut B)
        ensures
            *r == old(self).backend_spec(),
            final(self).backend_spec() == *final(r),
            final(self).defined() == old(self).defined(),
    {
        &mut self.backend
    }

    /// Names of the providers defined so far.
    pub closed spec fn defined(&self) -> Set<Seq<char>> {
        names_of(self.names@)
    }

    /// A tracer over `backend`, with no provider defined.
    pub fn new(backend: B) -> (r: Tracer<B>)
        ensures
            r.backend_spec() == backend,
            r.defined() == Set::<Seq<char>>::empty(),
    {
        let r = Tracer { backend, names: Vec::new() };
        assert(r.defined() =~= Set::<Seq<char>>::empty());
        r
    }

    /// Whether `name` is a provider name that tracing tools accept.
    pub fn is_valid_provider_name(name: &str) -> (r: bool)
        ensures
            r == valid_provider_name(name@),
    {
        let len = name.unicode_len();
        if len == 0 {
            return false;
        }
        let mut i: usize = 0;
        while i < len
            invariant
                len == name@.len(),
                i <= len,
                forall|j: int| 0 <= j < i ==> #[trigger] name@[j] != '.' && name@[j] != ':',
            decreases len - i,
        {
            let c = name.get_char(i);
            if c == '.' || c == ':' {
                return false;
            }
            i = i + 1;
        }
        true
    }
}


/// What defining provider `name` from builder `b` does to a tracer, and
/// what it returns: it succeeds exactly when nothing is wrong before the
/// backend is asked and the backend accepts every request; an error found
/// before the backend leaves the backend untouched; a success adds the name
/// and one provider handle, a failure neither.
pub open spec fn define_outcome<B: Backend>(
    before: Tracer<B>,
    after: Tracer<B>,
    name: Seq<char>,
    b: BuilderModel,
    r: Result<Provider, TracerError>,
) -> bool {
    &&& r is Ok <==> define_succeeds(before.backend_spec().refusals(), before.defined(), name, b)
    &&& match define_error(before.defined(), name, b) {
        Some(e) => r == Err::<Provider, TracerError>(e) && after.backend_spec() == before.backend_spec(),
        None => true,
    }
    &&& after.backend_spec().refusals() == before.backend_spec().refusals()
    &&& after.backend_spec().fired() == before.backend_spec().fired()
    &&& match r {
        Ok(p) => {
            &&& p.name_spec() == name
            &&& p.signatures() == b.probes
            &&& after.defined() == before.defined().insert(name)
            &&& !before.backend_spec().live().contains(p.handle_spec())
            &&& after.backend_spec().live().remove(p.handle_spec()) == before.backend_spec().live()
        },
        Err(_) => {
            &&& after.defined() == before.defined()
            &&& after.backend_spec().live() == before.backend_spec().live()
        },
    }
}

impl<B: Backend> Tracer<B> {
    /// Defines a provider named `name` with the probes of `builder`, all or
    /// nothing: create the provider, register each probe in declaration
    /// order, load it. A failed step releases the provider handle, so no
    /// partial registration stays behind.
    pub fn define_provider(&mut self, name: &str, builder: ProviderBuilder) -> (r: Result<
        Provider,
        TracerError,
    >)
        ensures
            define_outcome(*old(self), *final(self), name@, builder.model(), r),
    {
        let ghost b = builder.model();
        if let Some(e) = builder.fault {
            return Err(e);
        }
        if !Self::is_valid_provider_name(name) {
            return Err(TracerError::RegistrationError(RegistrationFault::InvalidName));
        }
        let n = name.to_string();
        let mut i: usize = 0;
        while i < self.names.len()
            invariant
                i <= self.names@.len(),
                n@ == name@,
                self.names == old(self).names,
                self.backend == old(self).backend,
                b == builder.model(),
                b.fault is None,
                valid_provider_name(name@),
                forall|j: int| 0 <= j < i ==> (#[trigger] self.names@[j])@ != name@,
            decreases self.names@.len() - i,
        {
            if self.names[i] == n {
                assert(self.defined().contains(name@)) by {
                    assert(self.names@[i as int]@ == name@);
                }
                return Err(TracerError::RegistrationError(RegistrationFault::DuplicateName));
            }
            i = i + 1;
        }
        assert(!self.defined().contains(name@));
        let ghost before = self.backend;
        let h = match self.backend.create_provider(&n) {
            Ok(h) => h,
            Err(e) => {
                return Err(e);
            },
        };
        let mut probes: Vec<Probe> = Vec::new();
        let mut k: usize = 0;
        while k < builder.probes.len()
            invariant
                k <= builder.probes@.len(),
                b == builder.model(),
                define_error(old(self).defined(), name@, b) is None,
                !before.live().contains(h),
                self.backend.live().remove(h) == before.live(),
                self.backend.refusals() == before.refusals(),
                self.backend.fired() == before.fired(),
                self.names == old(self).names,
                before.refusals() == old(self).backend.refusals(),
                before.fired() == old(self).backend.fired(),
                before.live() == old(self).backend.live(),
                !before.refusals().providers.contains(name@),
                probes@.len() == k,
                forall|j: int| 0 <= j < k ==> (#[trigger] probes@[j]).signature() == b.probes[j],
                forall|j: int| 0 <= j < k ==> !before.refusals().probes.contains(#[trigger] b.probes[j].0),
            decreases builder.probes@.len() - k,
        {
            let spec = &builder.probes[k];
            assert(b.probes[k as int] == spec.signature());
            match self.backend.register_probe(h, &spec.name, &spec.kinds) {
                Ok(p) => {
                    probes.push(Probe { name: spec.name.clone(), kinds: copy_kinds(&spec.kinds), handle: p });
                },
                Err(e) => {
                    assert(before.refusals().probes.contains(b.probes[k as int].0));
                    assert(!backend_accepts(before.refusals(), name@, b));
                    self.backend.release_provider(h);
                    assert(self.backend.live() =~= before.live());
                    return Err(e);
                },
            }
            k = k + 1;
        }
        match self.backend.load_provider(h) {
            Ok(()) => {},
            Err(e) => {
                self.backend.release_provider(h);
                assert(self.backend.live() =~= before.live());
                return Err(e);
            },
        }
        proof {
            lemma_names_push(self.names@, n);
        }
        self.names.push(n);
        let p = Provider { name: name.to_string(), handle: h, probes };
        assert(p.signatures() =~= b.probes);
        Ok(p)
    }

    /// Whether an observer is attached to the probe; asked of the backend
    /// on every call, never remembered.
    pub fn is_active(&self, probe: &Probe) -> (r: bool)
        ensures
            r == self.backend_spec().active().contains(probe.handle_spec()),
    {
        self.backend.is_active(probe.handle)
    }

    /// Fires a probe with the given values. Only where an observer is
    /// attached and the values fit the probe's kinds are they marshaled and
    /// handed to the backend; otherwise nothing happens, and nothing fails.
    pub fn fire(&mut self, probe: &Probe, values: &Vec<ArgValue>) -> (fired: bool)
        ensures
            fired == (old(self).backend_spec().active().contains(probe.handle_spec()) && kinds_match(
                values@,
                probe.signature().1,
            )),
            fired ==> final(self).backend_spec().fired() == old(self).backend_spec().fired().push(
                (probe.handle_spec(), values@.map_values(|v: ArgValue| wire_of(v))),
            ),
            fired ==> final(self).backend_spec().live() == old(self).backend_spec().live(),
            fired ==> final(self).backend_spec().refusals() == old(self).backend_spec().refusals(),
            fired ==> final(self).backend_spec().active() == old(self).backend_spec().active(),
            !fired ==> final(self).backend_spec() == old(self).backend_spec(),
            final(self).defined() == old(self).defined(),
    {
        if !self.backend.is_active(probe.handle) {
            return false;
        }
        if values.len() != probe.kinds.len() {
            return false;
        }
        let mut i: usize = 0;
        while i < values.len()
            invariant
                i <= values@.len(),
                values@.len() == probe.kinds@.len(),
                forall|j: int| 0 <= j < i ==> kind_spec(#[trigger] values@[j]) == probe.kinds@[j],
            decreases values@.len() - i,
        {
            if values[i].kind() != probe.kinds[i] {
                return false;
            }
            i = i + 1;
        }
        let wire = wrap_all(values);
        assert(wire_values(wire@) =~= values@.map_values(|v: ArgValue| wire_of(v)));
        self.backend.fire(probe.handle, &wire);
        true
    }

    /// Fires a probe whose arguments `make_args` computes. `make_args` runs
    /// only where an observer is attached, so costly arguments cost nothing
    /// while nobody watches.
    pub fn fire_with<'a, F: FnOnce() -> Vec<ArgValue<'a>>>(&mut self, probe: &Probe, make_args: F) -> (fired: bool)
        requires
            call_requires(make_args, ()),
        ensures
            !old(self).backend_spec().active().contains(probe.handle_spec()) ==> !fired
                && final(self).backend_spec() == old(self).backend_spec(),
            old(self).backend_spec().active().contains(probe.handle_spec()) ==> exists|
                values: Vec<ArgValue<'a>>,
            |
                {
                    &&& call_ensures(make_args, (), values)
                    &&& fired == kinds_match(values@, probe.signature().1)
                    &&& fired ==> final(self).backend_spec().fired()
                        == old(self).backend_spec().fired().push(
                        (probe.handle_spec(), values@.map_values(|v: ArgValue| wire_of(v))),
                    )
                    &&& !fired ==> final(self).backend_spec() == old(self).backend_spec()
                },
            final(self).defined() == old(self).defined(),
    {
        if !self.backend.is_active(probe.handle) {
            return false;
        }
        let values = make_args();
        self.fire(probe, &values)
    }
}


/// Once a provider is defined under a name, a second definition under the
/// same name, from a builder without fault, is rejected as a duplicate and
/// leaves the backend untouched.
pub proof fn lemma_duplicate_name_rejected<B: Backend>(
    t0: Tracer<B>,
    t1: Tracer<B>,
    t2: Tracer<B>,
    name: Seq<char>,
    first: BuilderModel,
    second: BuilderModel,
    p: Provider,
    r: Result<Provider, TracerError>,
)
    requires
        define_outcome(t0, t1, name, first, Ok(p)),
        define_outcome(t1, t2, name, second, r),
        second.fault is None,
    ensures
        r == Err::<Provider, TracerError>(TracerError::RegistrationError(RegistrationFault::DuplicateName)),
        t2.backend_spec() == t1.backend_spec(),
{
}

/// On the no-op backend no probe is ever active, and every definition that
/// nothing rejects before the backend is asked succeeds.
pub proof fn lemma_noop_backend(t: Tracer<NoOpBackend>, probe: usize, name: Seq<char>, b: BuilderModel)
    requires
        define_error(t.defined(), name, b) is None,
    ensures
        !t.backend_spec().active().contains(probe),
        define_succeeds(t.backend_spec().refusals(), t.defined(), name, b),
{
}

} // verus!
