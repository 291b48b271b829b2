use std::cell::Cell;

use tracers::args::{wrap, wrap_all, ArgKind, ArgValue, OwnedWire, WireArg};
use tracers::backend::NoOpBackend;
use tracers::error::{RegistrationFault, TracerError};
use tracers::generator::{ProviderGenerator, ProviderSpecification};
use tracers::provider::{ProbeSpec, ProviderBuilder, Tracer};
use tracers::recording::RecordingBackend;
use tracers::registry::ProviderSlot;

fn probe_spec(name: &str, kinds: &[ArgKind]) -> ProbeSpec {
    ProbeSpec { name: name.to_string(), kinds: kinds.to_vec() }
}

fn simple_probes() -> ProviderSpecification {
    ProviderSpecification::new(
        "SimpleProbes",
        vec![
            probe_spec("hello", &[ArgKind::Text]),
            probe_spec("greeting", &[ArgKind::Text, ArgKind::Text]),
            probe_spec("optional_greeting", &[ArgKind::Text, ArgKind::OptionalText]),
        ],
    )
}

#[test]
fn text_travels_as_bytes_and_length() {
    match wrap(&ArgValue::Text("world")) {
        WireArg::Bytes { bytes, len } => {
            assert_eq!(bytes, b"world");
            assert_eq!(len, 5);
        }
        other => panic!("unexpected wire form {:?}", other),
    }
}

#[test]
fn absent_text_is_not_empty_text() {
    assert!(matches!(wrap(&ArgValue::OptionalText(None)), WireArg::Absent));
    match wrap(&ArgValue::Text("")) {
        WireArg::Bytes { bytes, len } => {
            assert_eq!(bytes.len(), 0);
            assert_eq!(len, 0);
        }
        other => panic!("unexpected wire form {:?}", other),
    }
}

#[test]
fn present_optional_text_travels_as_text() {
    match wrap(&ArgValue::OptionalText(Some("hé"))) {
        WireArg::Bytes { bytes, len } => {
            assert_eq!(bytes, "hé".as_bytes());
            assert_eq!(len, 3);
        }
        other => panic!("unexpected wire form {:?}", other),
    }
}

#[test]
fn integers_travel_as_they_are() {
    let w = wrap_all(&vec![ArgValue::Integer64(-7), ArgValue::UnsignedInteger64(u64::MAX)]);
    assert_eq!(w.len(), 2);
    assert!(matches!(w[0], WireArg::Int(-7)));
    assert!(matches!(w[1], WireArg::UInt(u64::MAX)));
    assert_eq!(ArgValue::Integer64(1).kind(), ArgKind::Integer64);
    assert_eq!(ArgValue::OptionalText(None).kind(), ArgKind::OptionalText);
}

#[test]
fn provider_name_is_snake_case_of_interface() {
    let spec = simple_probes();
    assert_eq!(spec.name(), "simple_probes");
    let gen = ProviderGenerator::new(&spec);
    assert_eq!(gen.provider_name(), "simple_probes");
}

#[test]
fn seven_arguments_fail_without_native_resources() {
    let mut tracer = Tracer::new(RecordingBackend::new());
    let mut b = ProviderBuilder::new();
    b.add_probe("wide", &vec![ArgKind::Integer64; 7]);
    b.add_probe("fine", &vec![ArgKind::Integer64]);
    assert_eq!(
        b.fault(),
        Some(TracerError::RegistrationError(RegistrationFault::TooManyArguments))
    );
    let r = tracer.define_provider("wide_probes", b);
    assert_eq!(
        r.unwrap_err(),
        TracerError::RegistrationError(RegistrationFault::TooManyArguments)
    );
    assert_eq!(tracer.backend().created_count(), 0);
    assert_eq!(tracer.backend().live_count(), 0);
}

#[test]
fn six_arguments_are_accepted() {
    let mut tracer = Tracer::new(RecordingBackend::new());
    let mut b = ProviderBuilder::new();
    b.add_probe("wide", &vec![ArgKind::UnsignedInteger64; 6]);
    let p = tracer.define_provider("wide_probes", b).unwrap();
    assert_eq!(p.probes().len(), 1);
    assert_eq!(p.probes()[0].kinds().len(), 6);
}

#[test]
fn refused_probe_releases_the_provider() {
    let mut tracer = Tracer::new(RecordingBackend::new());
    tracer.backend_mut().refuse_probe("second");
    let mut b = ProviderBuilder::new();
    b.add_probe("first", &vec![]);
    b.add_probe("second", &vec![ArgKind::Text]);
    let r = tracer.define_provider("partial", b);
    assert_eq!(r.unwrap_err(), TracerError::RegistrationError(RegistrationFault::Rejected));
    assert_eq!(tracer.backend().created_count(), 1);
    assert_eq!(tracer.backend().live_count(), 0);
}

#[test]
fn refused_load_releases_the_provider() {
    let mut tracer = Tracer::new(RecordingBackend::new());
    tracer.backend_mut().refuse_loading();
    let mut b = ProviderBuilder::new();
    b.add_probe("first", &vec![]);
    assert!(tracer.define_provider("unloadable", b).is_err());
    assert_eq!(tracer.backend().created_count(), 1);
    assert_eq!(tracer.backend().live_count(), 0);
}

#[test]
fn refused_provider_is_reported() {
    let mut tracer = Tracer::new(RecordingBackend::new());
    tracer.backend_mut().refuse_provider("blocked");
    let r = tracer.define_provider("blocked", ProviderBuilder::new());
    assert_eq!(r.unwrap_err(), TracerError::RegistrationError(RegistrationFault::Rejected));
    assert_eq!(tracer.backend().created_count(), 0);
}

#[test]
fn noop_backend_is_silent() {
    let mut tracer = Tracer::new(NoOpBackend::new());
    let gen = ProviderGenerator::new(&simple_probes());
    let p = gen.generate(&mut tracer).unwrap();
    assert_eq!(p.probes().len(), 3);
    for probe in p.probes() {
        assert!(!tracer.is_active(probe));
    }
    let hello = p.probe("hello").unwrap();
    assert!(!tracer.fire(hello, &vec![ArgValue::Text("world")]));
}

#[test]
fn simple_probes_scenario() {
    let gen = ProviderGenerator::new(&simple_probes());
    let mut tracer = Tracer::new(RecordingBackend::new());
    let mut slot = ProviderSlot::new();
    assert!(!slot.is_resolved());
    assert!(slot.get(&mut tracer, &gen).is_some());
    assert!(slot.get(&mut tracer, &gen).is_some());
    assert_eq!(tracer.backend().created_count(), 1);
    let p = slot.get(&mut tracer, &gen).unwrap();
    let names: Vec<&str> = p.probes().iter().map(|q| q.name().as_str()).collect();
    assert_eq!(names, vec!["hello", "greeting", "optional_greeting"]);

    let hello = p.probe("hello").unwrap();
    let greeting = p.probe("greeting").unwrap();
    let optional = p.probe("optional_greeting").unwrap();
    assert!(!tracer.fire(hello, &vec![ArgValue::Text("world")]));
    assert!(!tracer.fire(greeting, &vec![ArgValue::Text("hello"), ArgValue::Text("world")]));
    assert!(!tracer.fire(
        optional,
        &vec![ArgValue::Text("hello"), ArgValue::OptionalText(Some("world"))]
    ));
    assert!(tracer.backend().records().is_empty());

    tracer.backend_mut().attach("greeting");
    assert!(tracer.is_active(greeting));
    assert!(!tracer.is_active(hello));
    assert!(tracer.fire(greeting, &vec![ArgValue::Text("hi"), ArgValue::Text("world")]));
    let records = tracer.backend().records();
    assert_eq!(records.len(), 1);
    assert_eq!(records[0].probe, greeting.handle());
    assert_eq!(
        records[0].args,
        vec![OwnedWire::Bytes(b"hi".to_vec(), 2), OwnedWire::Bytes(b"world".to_vec(), 5)]
    );
}

#[test]
fn mismatched_values_do_not_fire() {
    let gen = ProviderGenerator::new(&simple_probes());
    let mut tracer = Tracer::new(RecordingBackend::new());
    let p = gen.generate(&mut tracer).unwrap();
    tracer.backend_mut().attach("greeting");
    let greeting = p.probe("greeting").unwrap();
    assert!(!tracer.fire(greeting, &vec![ArgValue::Text("hi")]));
    assert!(!tracer.fire(greeting, &vec![ArgValue::Text("hi"), ArgValue::Integer64(1)]));
    assert!(tracer.backend().records().is_empty());
}

#[test]
fn inactive_probe_never_builds_arguments() {
    let gen = ProviderGenerator::new(&simple_probes());
    let mut tracer = Tracer::new(RecordingBackend::new());
    let p = gen.generate(&mut tracer).unwrap();
    let hello = p.probe("hello").unwrap();
    let built = Cell::new(0u32);
    let fired = tracer.fire_with(hello, || {
        built.set(built.get() + 1);
        vec![ArgValue::Text("world")]
    });
    assert!(!fired);
    assert_eq!(built.get(), 0);

    tracer.backend_mut().attach("hello");
    let fired = tracer.fire_with(hello, || {
        built.set(built.get() + 1);
        vec![ArgValue::Text("world")]
    });
    assert!(fired);
    assert_eq!(built.get(), 1);
    assert_eq!(tracer.backend().records()[0].args, vec![OwnedWire::Bytes(b"world".to_vec(), 5)]);
}

#[test]
fn failed_setup_is_cached() {
    let gen = ProviderGenerator::new(&simple_probes());
    let mut tracer = Tracer::new(RecordingBackend::new());
    tracer.backend_mut().refuse_loading();
    let mut slot = ProviderSlot::new();
    assert_eq!(slot.get_init_error(), None);
    let err = slot.try_init(&mut tracer, &gen);
    assert_eq!(err, Some(TracerError::RegistrationError(RegistrationFault::Rejected)));
    assert!(slot.get(&mut tracer, &gen).is_none());
    assert!(slot.get(&mut tracer, &gen).is_none());
    assert_eq!(slot.get_init_error(), err);
    assert_eq!(tracer.backend().created_count(), 1);
    assert_eq!(tracer.backend().live_count(), 0);
}

#[test]
fn colliding_provider_names_are_rejected() {
    let mut tracer = Tracer::new(NoOpBackend::new());
    let mut first = ProviderBuilder::new();
    first.add_probe("a", &vec![]);
    assert!(tracer.define_provider("shared", first).is_ok());
    let mut second = ProviderBuilder::new();
    second.add_probe("b", &vec![]);
    assert_eq!(
        tracer.define_provider("shared", second).unwrap_err(),
        TracerError::RegistrationError(RegistrationFault::DuplicateName)
    );
}

#[test]
fn invalid_provider_names_are_rejected() {
    let mut tracer = Tracer::new(RecordingBackend::new());
    for name in ["", "my.probes", "my::probes"] {
        assert_eq!(
            tracer.define_provider(name, ProviderBuilder::new()).unwrap_err(),
            TracerError::RegistrationError(RegistrationFault::InvalidName)
        );
    }
    assert_eq!(tracer.backend().created_count(), 0);
    assert!(Tracer::<NoOpBackend>::is_valid_provider_name("my_probes"));
}

#[test]
fn probe_declared_twice_is_a_configuration_error() {
    let mut b = ProviderBuilder::new();
    b.add_probe("same", &vec![]);
    b.add_probe("same", &vec![ArgKind::Text]);
    assert_eq!(b.fault(), Some(TracerError::ConfigurationError));
}

#[test]
fn probe_firing() {
    let spec = ProviderSpecification::new(
        "TestProbes",
        vec![probe_spec("probe0", &[]), probe_spec("probe1", &[ArgKind::Text])],
    );
    let gen = ProviderGenerator::new(&spec);
    let mut tracer = Tracer::new(NoOpBackend::new());
    let mut slot = ProviderSlot::new();
    let p = slot.get(&mut tracer, &gen).unwrap();
    tracer.fire(p.probe("probe0").unwrap(), &vec![]);
    tracer.fire(p.probe("probe1").unwrap(), &vec![ArgValue::Text("foo bar baz")]);
    assert_eq!(p.name(), "test_probes");
}

#[test]
fn missing_native_library_degrades_silently() {
    let gen = ProviderGenerator::new(&simple_probes());
    let mut tracer = Tracer::new(RecordingBackend::new());
    tracer.backend_mut().make_unavailable();
    let mut slot = ProviderSlot::new();
    assert!(slot.get(&mut tracer, &gen).is_none());
    assert_eq!(slot.get_init_error(), Some(TracerError::BackendUnavailable));
    assert_eq!(slot.try_init(&mut tracer, &gen), Some(TracerError::BackendUnavailable));
    assert_eq!(tracer.backend().created_count(), 0);
    assert!(tracer.backend().records().is_empty());
}
