//! The bootstrap sequence: a machine that moves forward through its stages
//! or aborts, and says after each event what is to be done next.

use vstd::prelude::*;
use vstd::string::StringExecFns;
use crate::claims::TemporalStatus;
use crate::claims::TokenValidity;
use crate::claims::ValidationError;
use crate::claims::VerificationOutcome;
use crate::loader::add_capabilities;
use crate::loader::scanned;
use crate::loader::ConfigError;
use crate::loader::DirListing;
use crate::loader::EntryOutcome;
use crate::manifest::Manifest;
use crate::policy::PolicyViolation;
use crate::registry::CapabilityRegistry;
use crate::text::decimal;
use crate::text::spec_decimal;

verus! {

/// The stages of the bootstrap, in their order, and the stage of refusal.
#[derive(Clone, Copy, Debug, PartialEq, Eq, Structural)]
pub enum Stage {
    ArtifactLoaded,
    ManifestExtracted,
    TemporallyValid,
    PolicyApproved,
    CapabilitiesPublished,
    ProvidersLoaded,
    HostStarted,
    Aborted,
}

impl Stage {
    /// The place of a stage in the sequence; `Aborted` stands behind all.
    pub open spec fn rank(self) -> nat {
        match self {
            Stage::ArtifactLoaded => 0,
            Stage::ManifestExtracted => 1,
            Stage::TemporallyValid => 2,
            Stage::PolicyApproved => 3,
            Stage::CapabilitiesPublished => 4,
            Stage::ProvidersLoaded => 5,
            Stage::HostStarted => 6,
            Stage::Aborted => 7,
        }
    }

    /// Whether the bootstrap ends in this stage.
    pub open spec fn is_final(self) -> bool {
        self == Stage::HostStarted || self == Stage::Aborted
    }
}

/// The state of a bootstrap: its stage, with the manifest and its token as
/// long as they are held back. The manifest stays in the state until it is
/// published.
pub enum Bootstrap {
    ArtifactLoaded,
    ManifestExtracted(Manifest, String),
    TemporallyValid(Manifest, String),
    PolicyApproved(Manifest),
    CapabilitiesPublished,
    ProvidersLoaded,
    HostStarted,
    Aborted,
}

/// What happened outside, as the bootstrap is told.
pub enum Event {
    /// The artifact was inspected for a manifest.
    Inspected(VerificationOutcome),
    /// The verifier was asked about the token.
    Validated(Result<TokenValidity, ValidationError>),
    /// The policy was checked.
    PolicyChecked(Result<(), PolicyViolation>),
    /// The manifest was recorded in the registry.
    ManifestPublished,
    /// The provider directory was scanned, or could not be.
    ProvidersScanned(Result<(), ConfigError>),
    /// The start of the execution host was tried: it runs, or it failed for
    /// the cause given.
    HostLaunched(Result<(), String>),
}

/// Why a bootstrap was aborted.
pub enum Diagnostic {
    /// The artifact carries no manifest.
    NoManifest,
    /// The embedded manifest could not be read.
    ExtractionFailed(String),
    /// The token was not validated.
    ValidationFailed(ValidationError),
    /// The signature of the token is not that of its issuer.
    InvalidSignature,
    /// The manifest is not usable yet: when it will be, in the verifier's
    /// words, and the instant that the manifest names, in seconds since the
    /// epoch.
    NotYetUsable(String, Option<u64>),
    /// The manifest is expired: since when, in the verifier's words, and the
    /// instant that the manifest names, in seconds since the epoch.
    Expired(String, Option<u64>),
    /// The policy service does not authorize the module.
    PolicyViolation(PolicyViolation),
    /// The provider directory cannot be scanned.
    Configuration(ConfigError),
    /// The execution host could not be started, for the cause given.
    HostStartFailed(String),
    /// An event came that the stage does not expect.
    OutOfOrder,
}

/// How an instant of a manifest is shown behind the verifier's words.
pub open spec fn instant_note(instant: Option<u64>) -> Seq<char> {
    match instant {
        Some(t) => " (at "@ + spec_decimal(t as nat) + " seconds since the epoch)"@,
        None => Seq::empty(),
    }
}

/// Writes an instant of a manifest as it is shown behind the verifier's
/// words.
pub fn note_instant(instant: Option<u64>) -> (text: String)
    ensures
        text@ == instant_note(instant),
{
    match instant {
        Some(t) => {
            let mut text = " (at ".to_owned();
            let numeral = decimal(t);
            text.append(numeral.as_str());
            text.append(" seconds since the epoch)");
            text
        },
        None => String::new(),
    }
}

impl Diagnostic {
    /// The text that the operator is shown.
    pub open spec fn spec_message(self) -> Seq<char> {
        match self {
            Diagnostic::NoManifest => "No capability signature found"@,
            Diagnostic::ExtractionFailed(reason) => "Error reading capabilities from file: "@
                + reason@,
            Diagnostic::ValidationFailed(error) => "Will not load WebAssembly module. "@
                + error.spec_message(),
            Diagnostic::InvalidSignature => {
                "Will not load WebAssembly module. Token signature is invalid"@
            },
            Diagnostic::NotYetUsable(words, instant) => {
                "Will not load WebAssembly module. Token is currently unusable. It will be usable "@
                    + words@ + instant_note(instant)
            },
            Diagnostic::Expired(words, instant) => {
                "Will not load WebAssembly module. Token expired "@ + words@ + instant_note(
                    instant,
                )
            },
            Diagnostic::PolicyViolation(violation) => "Policy check failed: "@
                + violation.spec_message(),
            Diagnostic::Configuration(_) => "Capability plugin location is not a directory."@,
            Diagnostic::HostStartFailed(cause) => "Execution host did not start: "@ + cause@,
            Diagnostic::OutOfOrder => "Bootstrap received an event out of order"@,
        }
    }

    /// The text that the operator is shown. The verifier's words stand in it
    /// unchanged, and behind them the instant that the manifest names.
    pub fn message(&self) -> (text: String)
        ensures
            text@ == self.spec_message(),
    {
        match self {
            Diagnostic::NoManifest => "No capability signature found".to_owned(),
            Diagnostic::ExtractionFailed(reason) => {
                let mut text = "Error reading capabilities from file: ".to_owned();
                text.append(reason.as_str());
                text
            },
            Diagnostic::ValidationFailed(error) => {
                let mut text = "Will not load WebAssembly module. ".to_owned();
                let detail = error.message();
                text.append(detail.as_str());
                text
            },
            Diagnostic::InvalidSignature => {
                "Will not load WebAssembly module. Token signature is invalid".to_owned()
            },
            Diagnostic::NotYetUsable(words, instant) => {
                let mut text =
                    "Will not load WebAssembly module. Token is currently unusable. It will be usable ".to_owned();
                text.append(words.as_str());
                let note = note_instant(*instant);
                text.append(note.as_str());
                text
            },
            Diagnostic::Expired(words, instant) => {
                let mut text = "Will not load WebAssembly module. Token expired ".to_owned();
                text.append(words.as_str());
                let note = note_instant(*instant);
                text.append(note.as_str());
                text
            },
            Diagnostic::PolicyViolation(violation) => {
                let mut text = "Policy check failed: ".to_owned();
                let detail = violation.message();
                text.append(detail.as_str());
                text
            },
            Diagnostic::Configuration(error) => error.message(),
            Diagnostic::HostStartFailed(cause) => {
                let mut text = "Execution host did not start: ".to_owned();
                text.append(cause.as_str());
                text
            },
            Diagnostic::OutOfOrder => "Bootstrap received an event out of order".to_owned(),
        }
    }
}

/// What is to be done next.
pub enum Action {
    /// Ask the verifier about this token.
    ValidateToken(String),
    /// Check the policy for this token.
    CheckPolicy(String),
    /// Record the manifest that the state holds in the registry.
    PublishManifest,
    /// Scan the provider directory and load what it holds.
    LoadProviders,
    /// Start the execution host.
    StartHost,
    /// Nothing is left to do but to wait: the host runs.
    Park,
    /// Report this to the operator and end without starting the host.
    Abort(Diagnostic),
    /// The bootstrap was aborted before: nothing is done.
    Halt,
}

/// What the verifier's answer means for the bootstrap of a manifest that
/// names the instants `not_before` and `expires`: the reason to abort, or
/// none. An invalid signature counts before the instants; a token that is
/// not usable yet counts before one that is expired. The reason carries the
/// verifier's words and the instant of the manifest.
pub open spec fn rejection(
    validity: TokenValidity,
    not_before: Option<u64>,
    expires: Option<u64>,
) -> Option<Diagnostic> {
    if !validity.signature_valid {
        Some(Diagnostic::InvalidSignature)
    } else {
        match validity.spec_temporal_status() {
            TemporalStatus::NotYetUsable(words) => Some(Diagnostic::NotYetUsable(words, not_before)),
            TemporalStatus::Expired(words) => Some(Diagnostic::Expired(words, expires)),
            TemporalStatus::Usable => None,
        }
    }
}

/// The state that follows `state` on `event`, and what is to be done then.
/// Every stage expects one kind of event. It moves to the next stage where
/// the event reports success, and aborts otherwise; the two final stages
/// stay as they are.
pub open spec fn next(state: Bootstrap, event: Event) -> (Bootstrap, Action) {
    match state {
        Bootstrap::HostStarted => (Bootstrap::HostStarted, Action::Park),
        Bootstrap::Aborted => (Bootstrap::Aborted, Action::Halt),
        Bootstrap::ArtifactLoaded => match event {
            Event::Inspected(VerificationOutcome::ValidManifest(manifest, token)) => (
                Bootstrap::ManifestExtracted(manifest, token),
                Action::ValidateToken(token),
            ),
            Event::Inspected(VerificationOutcome::NoManifestPresent) => (
                Bootstrap::Aborted,
                Action::Abort(Diagnostic::NoManifest),
            ),
            Event::Inspected(VerificationOutcome::ExtractionFailed(reason)) => (
                Bootstrap::Aborted,
                Action::Abort(Diagnostic::ExtractionFailed(reason)),
            ),
            _ => (Bootstrap::Aborted, Action::Abort(Diagnostic::OutOfOrder)),
        },
        Bootstrap::ManifestExtracted(manifest, token) => match event {
            Event::Validated(Ok(validity)) => match rejection(
                validity,
                manifest@.not_before,
                manifest@.expires,
            ) {
                Some(diagnostic) => (Bootstrap::Aborted, Action::Abort(diagnostic)),
                None => (Bootstrap::TemporallyValid(manifest, token), Action::CheckPolicy(token)),
            },
            Event::Validated(Err(error)) => (
                Bootstrap::Aborted,
                Action::Abort(Diagnostic::ValidationFailed(error)),
            ),
            _ => (Bootstrap::Aborted, Action::Abort(Diagnostic::OutOfOrder)),
        },
        Bootstrap::TemporallyValid(manifest, token) => match event {
            Event::PolicyChecked(Ok(_)) => (
                Bootstrap::PolicyApproved(manifest),
                Action::PublishManifest,
            ),
            Event::PolicyChecked(Err(violation)) => (
                Bootstrap::Aborted,
                Action::Abort(Diagnostic::PolicyViolation(violation)),
            ),
            _ => (Bootstrap::Aborted, Action::Abort(Diagnostic::OutOfOrder)),
        },
        Bootstrap::PolicyApproved(_) => match event {
            Event::ManifestPublished => (Bootstrap::CapabilitiesPublished, Action::LoadProviders),
            _ => (Bootstrap::Aborted, Action::Abort(Diagnostic::OutOfOrder)),
        },
        Bootstrap::CapabilitiesPublished => match event {
            Event::ProvidersScanned(Ok(_)) => (Bootstrap::ProvidersLoaded, Action::StartHost),
            Event::ProvidersScanned(Err(error)) => (
                Bootstrap::Aborted,
                Action::Abort(Diagnostic::Configuration(error)),
            ),
            _ => (Bootstrap::Aborted, Action::Abort(Diagnostic::OutOfOrder)),
        },
        Bootstrap::ProvidersLoaded => match event {
            Event::HostLaunched(Ok(_)) => (Bootstrap::HostStarted, Action::Park),
            Event::HostLaunched(Err(cause)) => (
                Bootstrap::Aborted,
                Action::Abort(Diagnostic::HostStartFailed(cause)),
            ),
            _ => (Bootstrap::Aborted, Action::Abort(Diagnostic::OutOfOrder)),
        },
    }
}

impl Bootstrap {
    /// The stage of the state.
    pub open spec fn spec_stage(self) -> Stage {
        match self {
            Bootstrap::ArtifactLoaded => Stage::ArtifactLoaded,
            Bootstrap::ManifestExtracted(_, _) => Stage::ManifestExtracted,
            Bootstrap::TemporallyValid(_, _) => Stage::TemporallyValid,
            Bootstrap::PolicyApproved(_) => Stage::PolicyApproved,
            Bootstrap::CapabilitiesPublished => Stage::CapabilitiesPublished,
            Bootstrap::ProvidersLoaded => Stage::ProvidersLoaded,
            Bootstrap::HostStarted => Stage::HostStarted,
            Bootstrap::Aborted => Stage::Aborted,
        }
    }

    /// The state in which every bootstrap begins: the artifact is loaded and
    /// nothing is known of it.
    pub fn new() -> (state: Bootstrap)
        ensures
            state == Bootstrap::ArtifactLoaded,
    {
        Bootstrap::ArtifactLoaded
    }

    /// The stage of the state.
    pub fn stage(&self) -> (stage: Stage)
        ensures
            stage == self.spec_stage(),
    {
        match self {
            Bootstrap::ArtifactLoaded => Stage::ArtifactLoaded,
            Bootstrap::ManifestExtracted(_, _) => Stage::ManifestExtracted,
            Bootstrap::TemporallyValid(_, _) => Stage::TemporallyValid,
            Bootstrap::PolicyApproved(_) => Stage::PolicyApproved,
            Bootstrap::CapabilitiesPublished => Stage::CapabilitiesPublished,
            Bootstrap::ProvidersLoaded => Stage::ProvidersLoaded,
            Bootstrap::HostStarted => Stage::HostStarted,
            Bootstrap::Aborted => Stage::Aborted,
        }
    }

    /// Takes one event: gives the state that follows and what is to be done
    /// next.
    pub fn step(self, event: Event) -> (res: (Bootstrap, Action))
        ensures
            res == next(self, event),
    {
        match self {
            Bootstrap::HostStarted => (Bootstrap::HostStarted, Action::Park),
            Bootstrap::Aborted => (Bootstrap::Aborted, Action::Halt),
            Bootstrap::ArtifactLoaded => match event {
                Event::Inspected(VerificationOutcome::ValidManifest(manifest, token)) => {
                    let asked = token.clone();
                    (Bootstrap::ManifestExtracted(manifest, token), Action::ValidateToken(asked))
                },
                Event::Inspected(VerificationOutcome::NoManifestPresent) => (
                    Bootstrap::Aborted,
                    Action::Abort(Diagnostic::NoManifest),
                ),
                Event::Inspected(VerificationOutcome::ExtractionFailed(reason)) => (
                    Bootstrap::Aborted,
                    Action::Abort(Diagnostic::ExtractionFailed(reason)),
                ),
                _ => (Bootstrap::Aborted, Action::Abort(Diagnostic::OutOfOrder)),
            },
            Bootstrap::ManifestExtracted(manifest, token) => match event {
                Event::Validated(Ok(validity)) => match reject(validity, &manifest) {
                    Some(diagnostic) => (Bootstrap::Aborted, Action::Abort(diagnostic)),
                    None => {
                        let asked = token.clone();
                        (Bootstrap::TemporallyValid(manifest, token), Action::CheckPolicy(asked))
                    },
                },
                Event::Validated(Err(error)) => (
                    Bootstrap::Aborted,
                    Action::Abort(Diagnostic::ValidationFailed(error)),
                ),
                _ => (Bootstrap::Aborted, Action::Abort(Diagnostic::OutOfOrder)),
            },
            Bootstrap::TemporallyValid(manifest, _) => match event {
                Event::PolicyChecked(Ok(_)) => (
                    Bootstrap::PolicyApproved(manifest),
                    Action::PublishManifest,
                ),
                Event::PolicyChecked(Err(violation)) => (
                    Bootstrap::Aborted,
                    Action::Abort(Diagnostic::PolicyViolation(violation)),
                ),
                _ => (Bootstrap::Aborted, Action::Abort(Diagnostic::OutOfOrder)),
            },
            Bootstrap::PolicyApproved(_) => match event {
                Event::ManifestPublished => (
                    Bootstrap::CapabilitiesPublished,
                    Action::LoadProviders,
                ),
                _ => (Bootstrap::Aborted, Action::Abort(Diagnostic::OutOfOrder)),
            },
            Bootstrap::CapabilitiesPublished => match event {
                Event::ProvidersScanned(Ok(_)) => (Bootstrap::ProvidersLoaded, Action::StartHost),
                Event::ProvidersScanned(Err(error)) => (
                    Bootstrap::Aborted,
                    Action::Abort(Diagnostic::Configuration(error)),
                ),
                _ => (Bootstrap::Aborted, Action::Abort(Diagnostic::OutOfOrder)),
            },
            Bootstrap::ProvidersLoaded => match event {
                Event::HostLaunched(Ok(_)) => (Bootstrap::HostStarted, Action::Park),
                Event::HostLaunched(Err(cause)) => (
                    Bootstrap::Aborted,
                    Action::Abort(Diagnostic::HostStartFailed(cause)),
                ),
                _ => (Bootstrap::Aborted, Action::Abort(Diagnostic::OutOfOrder)),
            },
        }
    }
}

/// Says whether the verifier's answer ends the bootstrap of this manifest,
/// and why.
pub fn reject(validity: TokenValidity, manifest: &Manifest) -> (res: Option<Diagnostic>)
    ensures
        res == rejection(validity, manifest@.not_before, manifest@.expires),
{
    if !validity.signature_valid {
        Some(Diagnostic::InvalidSignature)
    } else {
        match validity.temporal_status() {
            TemporalStatus::NotYetUsable(words) => Some(
                Diagnostic::NotYetUsable(words, manifest.not_before()),
            ),
            TemporalStatus::Expired(words) => Some(Diagnostic::Expired(words, manifest.expires())),
            TemporalStatus::Usable => None,
        }
    }
}

/// What came of the start of a module.
pub enum StartOutcome<R> {
    /// The host runs: what the scan reported of each entry of the provider
    /// directory, and what the factory made.
    Started(Vec<EntryOutcome>, R),
    /// The providers were loaded, as the scan reports, but the host did not
    /// start, for the reason given.
    NotStarted(Vec<EntryOutcome>, Diagnostic),
    /// Nothing was loaded or started, for the reason given.
    Refused(Diagnostic),
}

/// Whether the manifest of a module may be published: its policy check was
/// passed, and the registry holds no manifest yet.
pub open spec fn may_start<H>(state: Bootstrap, registry: CapabilityRegistry<H>) -> bool {
    state is PolicyApproved && registry.manifest_view() is None
}

/// Whether the host of a module may be started: its providers were loaded
/// for the manifest that the registry holds.
pub open spec fn may_launch<H>(state: Bootstrap, registry: CapabilityRegistry<H>) -> bool {
    state == Bootstrap::ProvidersLoaded && registry.manifest_view() is Some
}

/// Publishes the manifest of an approved module, the one that the state
/// holds, then scans the provider directory and loads what it holds.
/// Providers that fail to load do not end the bootstrap. A provider
/// directory that cannot be scanned does: the manifest stays published and
/// nothing is loaded. In any other state than that of a passed policy check,
/// and with a registry that holds a manifest already, nothing is done.
pub fn publish_and_load<H, L: Fn(&String) -> Result<(String, H), String>>(
    state: Bootstrap,
    registry: &mut CapabilityRegistry<H>,
    listing: &DirListing,
    native_extension: &str,
    loader: &L,
) -> (res: (Bootstrap, Result<Vec<EntryOutcome>, Diagnostic>))
    requires
        may_start(state, *old(registry)) ==> match listing {
            DirListing::Entries(entries) => forall|i: int|
                0 <= i < entries@.len() && (#[trigger] entries@[i]).selected(native_extension@)
                    ==> loader.requires((&entries@[i].path,)),
            DirListing::NotADirectory => true,
        },
    ensures
        !may_start(state, *old(registry)) ==> {
            &&& res.0 == Bootstrap::Aborted
            &&& res.1 == Err::<Vec<EntryOutcome>, Diagnostic>(Diagnostic::OutOfOrder)
            &&& final(registry).manifest_view() == old(registry).manifest_view()
            &&& final(registry).providers() == old(registry).providers()
        },
        may_start(state, *old(registry)) ==> {
            &&& state matches Bootstrap::PolicyApproved(manifest)
            &&& final(registry).manifest_view() == Some(manifest@)
            &&& match listing {
                DirListing::NotADirectory => {
                    &&& res.0 == Bootstrap::Aborted
                    &&& res.1 == Err::<Vec<EntryOutcome>, Diagnostic>(
                        Diagnostic::Configuration(ConfigError::NotADirectory),
                    )
                    &&& final(registry).providers() == old(registry).providers()
                },
                DirListing::Entries(entries) => {
                    &&& res.0 == Bootstrap::ProvidersLoaded
                    &&& res.1 matches Ok(outcomes)
                    &&& scanned(
                        entries@,
                        native_extension@,
                        loader,
                        true,
                        old(registry).providers(),
                        final(registry).providers(),
                        outcomes@,
                    )
                },
            }
        },
{
    let manifest = match state {
        Bootstrap::PolicyApproved(manifest) => manifest,
        _ => {
            return (Bootstrap::Aborted, Err(Diagnostic::OutOfOrder));
        },
    };
    if registry.is_published() {
        return (Bootstrap::Aborted, Err(Diagnostic::OutOfOrder));
    }
    registry.set_manifest(manifest);
    match add_capabilities(registry, listing, native_extension, loader) {
        Err(error) => (Bootstrap::Aborted, Err(Diagnostic::Configuration(error))),
        Ok(outcomes) => (Bootstrap::ProvidersLoaded, Ok(outcomes)),
    }
}

/// Starts the execution host of a module whose providers are loaded, by one
/// call of `factory`, under shared access to the registry. Where the factory
/// fails, the bootstrap is aborted with its cause. In any other state, and
/// with a registry that holds no manifest, the factory is not called.
pub fn launch<H, R, F: FnOnce() -> Result<R, String>>(
    state: Bootstrap,
    registry: &CapabilityRegistry<H>,
    factory: F,
) -> (res: (Bootstrap, Result<R, Diagnostic>))
    requires
        may_launch(state, *registry) ==> factory.requires(()),
    ensures
        !may_launch(state, *registry) ==> {
            &&& res.0 == Bootstrap::Aborted
            &&& res.1 matches Err(Diagnostic::OutOfOrder)
        },
        may_launch(state, *registry) ==> match res.1 {
            Ok(host) => {
                &&& res.0 == Bootstrap::HostStarted
                &&& factory.ensures((), Ok::<R, String>(host))
            },
            Err(diagnostic) => {
                &&& res.0 == Bootstrap::Aborted
                &&& diagnostic matches Diagnostic::HostStartFailed(cause)
                &&& factory.ensures((), Err::<R, String>(cause))
            },
        },
{
    if state.stage() != Stage::ProvidersLoaded {
        return (Bootstrap::Aborted, Err(Diagnostic::OutOfOrder));
    }
    match registry.start_host(factory) {
        None => (Bootstrap::Aborted, Err(Diagnostic::OutOfOrder)),
        Some(Ok(host)) => (Bootstrap::HostStarted, Ok(host)),
        Some(Err(cause)) => (Bootstrap::Aborted, Err(Diagnostic::HostStartFailed(cause))),
    }
}

/// Starts an approved module, for a caller that holds the registry alone:
/// publishes the manifest that the state holds, then scans the provider
/// directory and loads what it holds, then starts the host, in this order.
/// Providers that fail to load do not keep the host from starting. A host
/// that fails to start aborts the bootstrap with its cause; the manifest and
/// the providers stay in the registry.
pub fn start<H, L: Fn(&String) -> Result<(String, H), String>, R, F: FnOnce() -> Result<R, String>>(
    state: Bootstrap,
    registry: &mut CapabilityRegistry<H>,
    listing: &DirListing,
    native_extension: &str,
    loader: &L,
    factory: F,
) -> (res: (Bootstrap, StartOutcome<R>))
    requires
        may_start(state, *old(registry)) ==> match listing {
            DirListing::Entries(entries) => {
                &&& factory.requires(())
                &&& forall|i: int|
                    0 <= i < entries@.len() && (#[trigger] entries@[i]).selected(native_extension@)
                        ==> loader.requires((&entries@[i].path,))
            },
            DirListing::NotADirectory => true,
        },
    ensures
        !may_start(state, *old(registry)) ==> {
            &&& res.0 == Bootstrap::Aborted
            &&& res.1 matches StartOutcome::Refused(Diagnostic::OutOfOrder)
            &&& final(registry).manifest_view() == old(registry).manifest_view()
            &&& final(registry).providers() == old(registry).providers()
        },
        may_start(state, *old(registry)) ==> {
            &&& state matches Bootstrap::PolicyApproved(manifest)
            &&& final(registry).manifest_view() == Some(manifest@)
            &&& match listing {
                DirListing::NotADirectory => {
                    &&& res.0 == Bootstrap::Aborted
                    &&& res.1 matches StartOutcome::Refused(
                        Diagnostic::Configuration(ConfigError::NotADirectory),
                    )
                    &&& final(registry).providers() == old(registry).providers()
                },
                DirListing::Entries(entries) => match res.1 {
                    StartOutcome::Started(outcomes, host) => {
                        &&& res.0 == Bootstrap::HostStarted
                        &&& factory.ensures((), Ok::<R, String>(host))
                        &&& scanned(
                            entries@,
                            native_extension@,
                            loader,
                            true,
                            old(registry).providers(),
                            final(registry).providers(),
                            outcomes@,
                        )
                    },
                    StartOutcome::NotStarted(outcomes, diagnostic) => {
                        &&& res.0 == Bootstrap::Aborted
                        &&& diagnostic matches Diagnostic::HostStartFailed(cause)
                        &&& factory.ensures((), Err::<R, String>(cause))
                        &&& scanned(
                            entries@,
                            native_extension@,
                            loader,
                            true,
                            old(registry).providers(),
                            final(registry).providers(),
                            outcomes@,
                        )
                    },
                    StartOutcome::Refused(_) => false,
                },
            }
        },
{
    let (state, scan) = publish_and_load(state, registry, listing, native_extension, loader);
    match scan {
        Err(diagnostic) => (state, StartOutcome::Refused(diagnostic)),
        Ok(outcomes) => {
            let (state, launched) = launch(state, &*registry, factory);
            match launched {
                Ok(host) => (state, StartOutcome::Started(outcomes, host)),
                Err(diagnostic) => (state, StartOutcome::NotStarted(outcomes, diagnostic)),
            }
        },
    }
}

} // verus!
