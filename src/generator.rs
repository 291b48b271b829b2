use vstd::prelude::*;

use crate::backend::Backend;
use crate::provider::{
    add_probe_spec, copy_kinds, define_outcome, empty_builder, BuilderModel, ProbeSpec, Provider,
    ProviderBuilder, Signature, Tracer,
};
use crate::args::MAX_ARGS;
use crate::error::{RegistrationFault, TracerError};

verus! {

/// The snake_case form of a name, as heck writes it.
pub uninterp spec fn snake_case_of(s: Seq<char>) -> Seq<char>;

/// Relies on heck's `SnakeCase::to_snake_case` for `str`: the result
/// depends on the characters alone.
#[verifier::external_body]
fn snake_case(s: &str) -> (r: String)
    ensures
        r@ == snake_case_of(s@),
{
    heck::SnakeCase::to_snake_case(s)
}

/// The builder after declaring each probe of `probes`, in order.
pub open spec fn declare_all(probes: Seq<Signature>) -> BuilderModel
    decreases probes.len(),
{
    if probes.len() == 0 {
        empty_builder()
    } else {
        let last = probes.last();
        add_probe_spec(declare_all(probes.drop_last()), last.0, last.1)
    }
}

/// A declared probe interface: the interface's name and its probes, in
/// declaration order.
pub struct ProviderSpecification {
    trait_name: String,
    probes: Vec<ProbeSpec>,
}

/// A copy of a list of probe declarations.
fn copy_probes(v: &Vec<ProbeSpec>) -> (r: Vec<ProbeSpec>)
    ensures
        r@.map_values(|p: ProbeSpec| p.signature()) == v@.map_values(|p: ProbeSpec| p.signature()),
{
    let mut r: Vec<ProbeSpec> = Vec::new();
    let mut i: usize = 0;
    while i < v.len()
        invariant
            i <= v@.len(),
            r@.len() == i,
            forall|j: int| 0 <= j < i ==> (#[trigger] r@[j]).signature() == v@[j].signature(),
        decreases v@.len() - i,
    {
        let p = ProbeSpec { name: v[i].name.clone(), kinds: copy_kinds(&v[i].kinds) };
        r.push(p);
        i = i + 1;
    }
    assert(r@.map_values(|p: ProbeSpec| p.signature()) =~= v@.map_values(
        |p: ProbeSpec| p.signature(),
    ));
    r
}

impl ProviderSpecification {
    pub closed spec fn trait_name_spec(&self) -> Seq<char> {
        self.trait_name@
    }

    pub closed spec fn signatures(&self) -> Seq<Signature> {
        self.probes@.map_values(|p: ProbeSpec| p.signature())
    }

    /// The interface `trait_name` with the given probes.
    pub fn new(trait_name: &str, probes: Vec<ProbeSpec>) -> (r: ProviderSpecification)
        ensures
            r.trait_name_spec() == trait_name@,
            r.signatures() == probes@.map_values(|p: ProbeSpec| p.signature()),
    {
        ProviderSpecification { trait_name: trait_name.to_string(), probes }
    }

    /// The provider name: the interface's name in snake_case.
    pub fn name(&self) -> (r: String)
        ensures
            r@ == snake_case_of(self.trait_name_spec()),
    {
        snake_case(self.trait_name.as_str())
    }

    pub fn probes(&self) -> (r: &Vec<ProbeSpec>)
        ensures
            r@.map_values(|p: ProbeSpec| p.signature()) == self.signatures(),
    {
        &self.probes
    }
}

/// Turns a declared probe interface into the calls that set its provider
/// up: one `add_probe` per probe, in declaration order, then the
/// definition under the derived provider name.
pub struct ProviderGenerator {
    name: String,
    probes: Vec<ProbeSpec>,
}

impl ProviderGenerator {
    /// The name the provider is defined under.
    pub closed spec fn name_spec(&self) -> Seq<char> {
        self.name@
    }

    pub closed spec fn signatures(&self) -> Seq<Signature> {
        self.probes@.map_values(|p: ProbeSpec| p.signature())
    }

    pub fn new(spec: &ProviderSpecification) -> (r: ProviderGenerator)
        ensures
            r.name_spec() == snake_case_of(spec.trait_name_spec()),
            r.signatures() == spec.signatures(),
    {
        ProviderGenerator { name: spec.name(), probes: copy_probes(spec.probes()) }
    }

    pub fn provider_name(&self) -> (r: &String)
        ensures
            r@ == self.name_spec(),
    {
        &self.name
    }

    /// A builder with every probe declared, in order.
    pub fn declare(&self) -> (r: ProviderBuilder)
        ensures
            r.model() == declare_all(self.signatures()),
    {
        let mut b = ProviderBuilder::new();
        let mut i: usize = 0;
        while i < self.probes.len()
            invariant
                i <= self.probes@.len(),
                b.model() == declare_all(self.signatures().subrange(0, i as int)),
            decreases self.probes@.len() - i,
        {
            proof {
                let s = self.signatures().subrange(0, i as int + 1);
                assert(s.drop_last() =~= self.signatures().subrange(0, i as int));
                assert(s.last() == self.probes@[i as int].signature());
            }
            b.add_probe(self.probes[i].name.as_str(), &self.probes[i].kinds);
            i = i + 1;
        }
        assert(self.signatures().subrange(0, i as int) =~= self.signatures());
        b
    }

    /// Sets the provider up on `tracer`: declares every probe, in order,
    /// then defines the provider under the derived name.
    pub fn generate<B: Backend>(&self, tracer: &mut Tracer<B>) -> (r: Result<Provider, TracerError>)
        ensures
            define_outcome(*old(tracer), *final(tracer), self.name_spec(), declare_all(self.signatures()), r),
    {
        let b = self.declare();
        tracer.define_provider(self.name.as_str(), b)
    }
}

/// A builder that met a fault keeps it, whatever is declared after.
proof fn lemma_fault_sticks(probes: Seq<Signature>, i: int)
    requires
        0 <= i <= probes.len(),
        declare_all(probes.subrange(0, i)).fault is Some,
    ensures
        declare_all(probes) == declare_all(probes.subrange(0, i)),
    decreases probes.len() - i,
{
    if i < probes.len() {
        let next = probes.subrange(0, i + 1);
        assert(next.drop_last() =~= probes.subrange(0, i));
        lemma_fault_sticks(probes, i + 1);
    } else {
        assert(probes.subrange(0, i) =~= probes);
    }
}

/// A probe that declares more arguments than the backend carries fails the
/// definition of its provider with a registration error, and the backend is
/// not asked for anything, so no native resource is left behind.
pub proof fn lemma_over_limit_rejected<B: Backend>(
    before: Tracer<B>,
    after: Tracer<B>,
    name: Seq<char>,
    probes: Seq<Signature>,
    i: int,
    r: Result<Provider, TracerError>,
)
    requires
        0 <= i < probes.len(),
        probes[i].1.len() > MAX_ARGS,
        declare_all(probes.subrange(0, i)).fault is None,
        define_outcome(before, after, name, declare_all(probes), r),
    ensures
        r == Err::<Provider, TracerError>(TracerError::RegistrationError(RegistrationFault::TooManyArguments)),
        after.backend_spec() == before.backend_spec(),
        after.defined() == before.defined(),
{
    let upto = probes.subrange(0, i + 1);
    assert(upto.drop_last() =~= probes.subrange(0, i));
    lemma_fault_sticks(probes, i + 1);
}

} // verus!
