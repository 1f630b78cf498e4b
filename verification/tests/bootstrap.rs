use std::cell::RefCell;
use waxosuit_host::bootstrap::{
    launch, note_instant, publish_and_load, reject, start, Action, Bootstrap, Diagnostic, Event,
    Stage, StartOutcome,
};
use waxosuit_host::claims::{TokenDefect, TokenValidity, ValidationError, VerificationOutcome};
use waxosuit_host::loader::{ConfigError, DirEntry, DirListing, EntryOutcome};
use waxosuit_host::manifest::Manifest;
use waxosuit_host::policy::PolicyViolation;
use waxosuit_host::registry::{CapabilityRegistry, LoadError};
use waxosuit_host::text::decimal;

fn entry(name: &str) -> DirEntry {
    DirEntry { path: format!("/caps/{}", name), file_name: name.to_string(), is_dir: false }
}

fn manifest() -> Manifest {
    Manifest::new(
        "ACCOUNT".to_string(),
        "MODULE".to_string(),
        Some(1_600_000_000),
        Some(1_700_000_000),
        Some(vec!["messaging".to_string(), "kv".to_string()]),
        None,
    )
}

fn usable() -> TokenValidity {
    TokenValidity {
        expired: false,
        cannot_use_yet: false,
        expires_human: "never".to_string(),
        not_before_human: "immediately".to_string(),
        signature_valid: true,
    }
}

fn extracted() -> Bootstrap {
    let (state, _) = Bootstrap::new()
        .step(Event::Inspected(VerificationOutcome::ValidManifest(manifest(), "a.b.c".to_string())));
    state
}

fn validated() -> Bootstrap {
    let (state, _) = extracted().step(Event::Validated(Ok(usable())));
    state
}

fn approved() -> Bootstrap {
    let (state, _) = validated().step(Event::PolicyChecked(Ok(())));
    state
}

fn published() -> Bootstrap {
    let (state, _) = approved().step(Event::ManifestPublished);
    state
}

fn loaded() -> Bootstrap {
    let (state, _) = published().step(Event::ProvidersScanned(Ok(())));
    state
}

fn aborted_with(action: Action) -> Diagnostic {
    match action {
        Action::Abort(diagnostic) => diagnostic,
        _ => panic!("the bootstrap aborts"),
    }
}

#[test]
fn numbers_are_written_in_decimal() {
    assert_eq!(decimal(0), "0");
    assert_eq!(decimal(7), "7");
    assert_eq!(decimal(10), "10");
    assert_eq!(decimal(1_700_000_000), "1700000000");
    assert_eq!(decimal(9_876_543_210), "9876543210");
    assert_eq!(decimal(u64::MAX), "18446744073709551615");
}

#[test]
fn instant_of_a_manifest_is_noted_in_seconds() {
    assert_eq!(note_instant(None), "");
    assert_eq!(note_instant(Some(0)), " (at 0 seconds since the epoch)");
    assert_eq!(note_instant(Some(1_700_000_000)), " (at 1700000000 seconds since the epoch)");
}

#[test]
fn bootstrap_begins_with_the_artifact_loaded() {
    assert_eq!(Bootstrap::new().stage(), Stage::ArtifactLoaded);
}

#[test]
fn full_run_passes_every_stage_in_order() {
    let state = Bootstrap::new();
    let (state, action) = state
        .step(Event::Inspected(VerificationOutcome::ValidManifest(manifest(), "a.b.c".to_string())));
    assert_eq!(state.stage(), Stage::ManifestExtracted);
    assert!(matches!(action, Action::ValidateToken(token) if token == "a.b.c"));
    let (state, action) = state.step(Event::Validated(Ok(usable())));
    assert_eq!(state.stage(), Stage::TemporallyValid);
    assert!(matches!(action, Action::CheckPolicy(token) if token == "a.b.c"));
    let (state, action) = state.step(Event::PolicyChecked(Ok(())));
    assert_eq!(state.stage(), Stage::PolicyApproved);
    assert!(matches!(action, Action::PublishManifest));
    match &state {
        Bootstrap::PolicyApproved(m) => {
            assert_eq!(m.issuer(), "ACCOUNT");
            assert_eq!(m.capabilities(), &Some(vec!["messaging".to_string(), "kv".to_string()]));
        },
        _ => panic!("the state holds the manifest until it is published"),
    }
    let (state, action) = state.step(Event::ManifestPublished);
    assert_eq!(state.stage(), Stage::CapabilitiesPublished);
    assert!(matches!(action, Action::LoadProviders));
    let (state, action) = state.step(Event::ProvidersScanned(Ok(())));
    assert_eq!(state.stage(), Stage::ProvidersLoaded);
    assert!(matches!(action, Action::StartHost));
    let (state, action) = state.step(Event::HostLaunched(Ok(())));
    assert_eq!(state.stage(), Stage::HostStarted);
    assert!(matches!(action, Action::Park));
}

#[test]
fn artifact_without_manifest_aborts() {
    let (state, action) =
        Bootstrap::new().step(Event::Inspected(VerificationOutcome::NoManifestPresent));
    assert_eq!(state.stage(), Stage::Aborted);
    assert_eq!(aborted_with(action).message(), "No capability signature found");
}

#[test]
fn failed_extraction_aborts_with_its_reason() {
    let (state, action) = Bootstrap::new()
        .step(Event::Inspected(VerificationOutcome::ExtractionFailed("Invalid module hash".to_string())));
    assert_eq!(state.stage(), Stage::Aborted);
    let d = aborted_with(action);
    assert!(matches!(&d, Diagnostic::ExtractionFailed(r) if r == "Invalid module hash"));
    assert_eq!(d.message(), "Error reading capabilities from file: Invalid module hash");
}

#[test]
fn expired_token_aborts_with_the_expiry_of_the_manifest() {
    let validity = TokenValidity {
        expired: true,
        expires_human: "a second ago".to_string(),
        ..usable()
    };
    let (state, action) = extracted().step(Event::Validated(Ok(validity)));
    assert_eq!(state.stage(), Stage::Aborted);
    let d = aborted_with(action);
    assert!(matches!(
        &d,
        Diagnostic::Expired(words, Some(1_700_000_000)) if words == "a second ago"
    ));
    assert_eq!(
        d.message(),
        "Will not load WebAssembly module. Token expired a second ago (at 1700000000 seconds since the epoch)"
    );
}

#[test]
fn token_not_yet_usable_aborts_with_the_first_instant_of_the_manifest() {
    let validity = TokenValidity {
        cannot_use_yet: true,
        expired: true,
        not_before_human: "in 2 weeks".to_string(),
        ..usable()
    };
    let (state, action) = extracted().step(Event::Validated(Ok(validity)));
    assert_eq!(state.stage(), Stage::Aborted);
    let d = aborted_with(action);
    assert!(matches!(
        &d,
        Diagnostic::NotYetUsable(words, Some(1_600_000_000)) if words == "in 2 weeks"
    ));
    assert_eq!(
        d.message(),
        "Will not load WebAssembly module. Token is currently unusable. It will be usable in 2 weeks (at 1600000000 seconds since the epoch)"
    );
}

#[test]
fn diagnostic_without_an_instant_shows_the_words_alone() {
    assert_eq!(
        Diagnostic::Expired("long ago".to_string(), None).message(),
        "Will not load WebAssembly module. Token expired long ago"
    );
    assert_eq!(
        Diagnostic::NotYetUsable("soon".to_string(), None).message(),
        "Will not load WebAssembly module. Token is currently unusable. It will be usable soon"
    );
}

#[test]
fn invalid_signature_aborts_before_the_instants_are_looked_at() {
    let validity = TokenValidity { signature_valid: false, expired: true, ..usable() };
    assert!(matches!(reject(validity, &manifest()), Some(Diagnostic::InvalidSignature)));
    let validity = TokenValidity { signature_valid: false, ..usable() };
    let (state, action) = extracted().step(Event::Validated(Ok(validity)));
    assert_eq!(state.stage(), Stage::Aborted);
    assert_eq!(
        aborted_with(action).message(),
        "Will not load WebAssembly module. Token signature is invalid"
    );
}

#[test]
fn usable_token_is_not_rejected() {
    assert!(reject(usable(), &manifest()).is_none());
}

#[test]
fn refused_validation_aborts() {
    let error = ValidationError::Defective(TokenDefect::MalformedSignature);
    let (state, action) = extracted().step(Event::Validated(Err(error)));
    assert_eq!(state.stage(), Stage::Aborted);
    assert_eq!(
        aborted_with(action).message(),
        "Will not load WebAssembly module. token carries no well-formed signature"
    );
    let error = ValidationError::Rejected("Invalid header".to_string());
    let (state, action) = extracted().step(Event::Validated(Err(error)));
    assert_eq!(state.stage(), Stage::Aborted);
    assert_eq!(aborted_with(action).message(), "Will not load WebAssembly module. Invalid header");
}

#[test]
fn policy_violation_aborts() {
    for (violation, text) in [
        (PolicyViolation::Denied, "Policy check failed: denied"),
        (PolicyViolation::TransportFailure, "Policy check failed: transport failure"),
        (
            PolicyViolation::NonSuccessStatus,
            "Policy check failed: policy service returned non-success status",
        ),
        (
            PolicyViolation::UndecodableReply,
            "Policy check failed: policy service reply holds no verdict",
        ),
    ] {
        let (state, action) = validated().step(Event::PolicyChecked(Err(violation)));
        assert_eq!(state.stage(), Stage::Aborted);
        assert_eq!(aborted_with(action).message(), text);
    }
}

#[test]
fn missing_provider_directory_aborts() {
    let (state, action) =
        published().step(Event::ProvidersScanned(Err(ConfigError::NotADirectory)));
    assert_eq!(state.stage(), Stage::Aborted);
    assert_eq!(aborted_with(action).message(), "Capability plugin location is not a directory.");
}

#[test]
fn host_that_fails_to_start_aborts_with_its_cause() {
    let (state, action) = loaded().step(Event::HostLaunched(Err("no such port".to_string())));
    assert_eq!(state.stage(), Stage::Aborted);
    let d = aborted_with(action);
    assert!(matches!(&d, Diagnostic::HostStartFailed(cause) if cause == "no such port"));
    assert_eq!(d.message(), "Execution host did not start: no such port");
}

#[test]
fn start_publishes_then_loads_then_starts() {
    let log: RefCell<Vec<String>> = RefCell::new(Vec::new());
    let loader = |path: &String| -> Result<(String, u32), String> {
        log.borrow_mut().push(format!("load {}", path));
        if path.contains("broken") {
            Err("bad library".to_string())
        } else {
            Ok((format!("cap:{}", path), 1))
        }
    };
    let factory = || -> Result<u8, String> {
        log.borrow_mut().push("start".to_string());
        Ok(42u8)
    };
    let mut registry: CapabilityRegistry<u32> = CapabilityRegistry::new();
    let listing = DirListing::Entries(vec![
        entry("a.so"),
        entry("broken.so"),
        entry("notes.txt"),
        entry("b.dylib"),
        entry("c.so"),
    ]);
    let (state, outcome) = start(approved(), &mut registry, &listing, "so", &loader, factory);
    assert_eq!(state.stage(), Stage::HostStarted);
    match outcome {
        StartOutcome::Started(outcomes, host) => {
            assert_eq!(host, 42);
            assert_eq!(outcomes.len(), 5);
            assert!(matches!(&outcomes[0], EntryOutcome::Loaded(id) if id == "cap:/caps/a.so"));
            assert!(matches!(
                &outcomes[1],
                EntryOutcome::Failed(LoadError::Failed(cause)) if cause == "bad library"
            ));
            assert!(matches!(&outcomes[2], EntryOutcome::Skipped));
            assert!(matches!(&outcomes[3], EntryOutcome::Skipped));
            assert!(matches!(&outcomes[4], EntryOutcome::Loaded(id) if id == "cap:/caps/c.so"));
        },
        _ => panic!("the host starts"),
    }
    assert_eq!(
        *log.borrow(),
        vec![
            "load /caps/a.so".to_string(),
            "load /caps/broken.so".to_string(),
            "load /caps/c.so".to_string(),
            "start".to_string(),
        ]
    );
    let held = registry.manifest().unwrap();
    assert_eq!(held.issuer(), "ACCOUNT");
    assert_eq!(held.expires(), Some(1_700_000_000));
    assert_eq!(registry.provider_count(), 2);
}

#[test]
fn start_with_a_host_that_fails_aborts_and_keeps_the_registry() {
    let loader = |path: &String| -> Result<(String, u32), String> { Ok((path.clone(), 1)) };
    let mut registry: CapabilityRegistry<u32> = CapabilityRegistry::new();
    let listing = DirListing::Entries(vec![entry("a.so")]);
    let (state, outcome) = start(approved(), &mut registry, &listing, "so", &loader, || {
        Err::<u8, String>("address in use".to_string())
    });
    assert_eq!(state.stage(), Stage::Aborted);
    match outcome {
        StartOutcome::NotStarted(outcomes, d) => {
            assert_eq!(outcomes.len(), 1);
            assert!(matches!(&outcomes[0], EntryOutcome::Loaded(id) if id == "/caps/a.so"));
            assert!(matches!(&d, Diagnostic::HostStartFailed(cause) if cause == "address in use"));
            assert_eq!(d.message(), "Execution host did not start: address in use");
        },
        _ => panic!("the host does not start"),
    }
    assert!(registry.is_published());
    assert_eq!(registry.provider_count(), 1);
}

#[test]
fn start_without_provider_directory_publishes_and_stops() {
    let loader =
        |_: &String| -> Result<(String, u32), String> { panic!("nothing is loaded") };
    let mut registry: CapabilityRegistry<u32> = CapabilityRegistry::new();
    let (state, outcome) = start(
        approved(),
        &mut registry,
        &DirListing::NotADirectory,
        "so",
        &loader,
        || -> Result<u8, String> { panic!("nothing is started") },
    );
    assert_eq!(state.stage(), Stage::Aborted);
    match outcome {
        StartOutcome::Refused(d) => {
            assert!(matches!(d, Diagnostic::Configuration(ConfigError::NotADirectory)));
            assert_eq!(d.message(), "Capability plugin location is not a directory.");
        },
        _ => panic!("nothing is started"),
    }
    assert!(registry.is_published());
    assert_eq!(registry.provider_count(), 0);
}

#[test]
fn start_in_any_other_stage_does_nothing() {
    let loader =
        |_: &String| -> Result<(String, u32), String> { panic!("nothing is loaded") };
    let states: [fn() -> Bootstrap; 6] =
        [Bootstrap::new, extracted, validated, published, loaded, || Bootstrap::Aborted];
    for state in states {
        let mut registry: CapabilityRegistry<u32> = CapabilityRegistry::new();
        let listing = DirListing::Entries(vec![entry("a.so")]);
        let (after, outcome) = start(
            state(),
            &mut registry,
            &listing,
            "so",
            &loader,
            || -> Result<u8, String> { panic!("nothing is started") },
        );
        assert_eq!(after.stage(), Stage::Aborted);
        assert!(matches!(outcome, StartOutcome::Refused(Diagnostic::OutOfOrder)));
        assert!(!registry.is_published());
        assert_eq!(registry.provider_count(), 0);
    }
}

#[test]
fn start_on_a_registry_that_holds_a_manifest_does_nothing() {
    let loader =
        |_: &String| -> Result<(String, u32), String> { panic!("nothing is loaded") };
    let mut registry: CapabilityRegistry<u32> = CapabilityRegistry::new();
    registry.set_manifest(Manifest::new(
        "FIRST".to_string(),
        "MODULE".to_string(),
        None,
        None,
        None,
        None,
    ));
    let listing = DirListing::Entries(vec![entry("a.so")]);
    let (after, outcome) = start(
        approved(),
        &mut registry,
        &listing,
        "so",
        &loader,
        || -> Result<u8, String> { panic!("nothing is started") },
    );
    assert_eq!(after.stage(), Stage::Aborted);
    assert!(matches!(outcome, StartOutcome::Refused(Diagnostic::OutOfOrder)));
    assert_eq!(registry.manifest().unwrap().issuer(), "FIRST");
    assert_eq!(registry.provider_count(), 0);
}

#[test]
fn publication_and_launch_can_be_taken_apart() {
    let loader = |path: &String| -> Result<(String, u32), String> { Ok((path.clone(), 1)) };
    let mut registry: CapabilityRegistry<u32> = CapabilityRegistry::new();
    let listing = DirListing::Entries(vec![entry("a.so"), entry("b.dll")]);
    let (state, scan) = publish_and_load(approved(), &mut registry, &listing, "dll", &loader);
    assert_eq!(state.stage(), Stage::ProvidersLoaded);
    let outcomes = scan.ok().unwrap();
    assert!(matches!(outcomes[0], EntryOutcome::Skipped));
    assert!(matches!(&outcomes[1], EntryOutcome::Loaded(id) if id == "/caps/b.dll"));
    assert_eq!(registry.manifest().unwrap().subject(), "MODULE");
    let (state, host) = launch(state, &registry, || Ok::<u8, String>(9));
    assert_eq!(state.stage(), Stage::HostStarted);
    assert_eq!(host.ok(), Some(9));
}

#[test]
fn launch_before_the_providers_are_loaded_does_nothing() {
    let mut registry: CapabilityRegistry<u32> = CapabilityRegistry::new();
    let (state, host) =
        launch(approved(), &registry, || -> Result<u8, String> { panic!("nothing is started") });
    assert_eq!(state.stage(), Stage::Aborted);
    assert!(matches!(host, Err(Diagnostic::OutOfOrder)));
    let (state, host) =
        launch(loaded(), &registry, || -> Result<u8, String> { panic!("nothing is started") });
    assert_eq!(state.stage(), Stage::Aborted);
    assert!(matches!(host, Err(Diagnostic::OutOfOrder)));
    registry.set_manifest(manifest());
    let (state, host) =
        launch(published(), &registry, || -> Result<u8, String> { panic!("nothing is started") });
    assert_eq!(state.stage(), Stage::Aborted);
    assert!(matches!(host, Err(Diagnostic::OutOfOrder)));
}

#[test]
fn event_out_of_order_aborts_at_every_stage() {
    let wrong: [(fn() -> Bootstrap, fn() -> Event); 6] = [
        (Bootstrap::new, || Event::HostLaunched(Ok(()))),
        (extracted, || Event::PolicyChecked(Ok(()))),
        (validated, || Event::ManifestPublished),
        (approved, || Event::ProvidersScanned(Ok(()))),
        (published, || Event::HostLaunched(Ok(()))),
        (loaded, || Event::ManifestPublished),
    ];
    for (state, event) in wrong {
        let (after, action) = state().step(event());
        assert_eq!(after.stage(), Stage::Aborted);
        let d = aborted_with(action);
        assert!(matches!(d, Diagnostic::OutOfOrder));
        assert_eq!(d.message(), "Bootstrap received an event out of order");
    }
}

#[test]
fn host_cannot_be_launched_before_providers_are_loaded() {
    for state in [Bootstrap::new(), extracted(), validated(), approved(), published()] {
        let (after, action) = state.step(Event::HostLaunched(Ok(())));
        assert_eq!(after.stage(), Stage::Aborted);
        assert!(matches!(action, Action::Abort(_)));
    }
}

#[test]
fn final_stages_stay() {
    let (state, _) = loaded().step(Event::HostLaunched(Ok(())));
    assert_eq!(state.stage(), Stage::HostStarted);
    let (state, action) = state.step(Event::Inspected(VerificationOutcome::NoManifestPresent));
    assert_eq!(state.stage(), Stage::HostStarted);
    assert!(matches!(action, Action::Park));
    let (state, _) = Bootstrap::new().step(Event::HostLaunched(Ok(())));
    assert_eq!(state.stage(), Stage::Aborted);
    let (state, action) = state
        .step(Event::Inspected(VerificationOutcome::ValidManifest(manifest(), "a.b.c".to_string())));
    assert_eq!(state.stage(), Stage::Aborted);
    assert!(matches!(action, Action::Halt));
    let (state, action) = state.step(Event::HostLaunched(Ok(())));
    assert_eq!(state.stage(), Stage::Aborted);
    assert!(matches!(action, Action::Halt));
}
