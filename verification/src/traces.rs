//! What holds of every run of the bootstrap machine, whatever events it is
//! given.

use vstd::prelude::*;
use crate::bootstrap::next;
use crate::bootstrap::Action;
use crate::bootstrap::Bootstrap;
use crate::bootstrap::Diagnostic;
use crate::bootstrap::Event;
use crate::bootstrap::Stage;
use crate::claims::TokenValidity;
use crate::claims::VerificationOutcome;
use crate::loader::ConfigError;
use crate::manifest::Manifest;
use crate::policy::PolicyViolation;

verus! {

/// The state that a bootstrap is in after it took `events` in their order,
/// starting from `state`.
pub open spec fn run(state: Bootstrap, events: Seq<Event>) -> Bootstrap
    decreases events.len(),
{
    if events.len() == 0 {
        state
    } else {
        next(run(state, events.drop_last()), events.last()).0
    }
}

/// What the bootstrap asks for in answer to the `i`-th of `events`.
pub open spec fn action_at(state: Bootstrap, events: Seq<Event>, i: int) -> Action {
    next(run(state, events.take(i)), events[i]).1
}

/// Whether an event is the one that moves a bootstrap from the stage of the
/// given rank to the next.
pub open spec fn advances_from(rank: int, event: Event) -> bool {
    if rank == 0 {
        event matches Event::Inspected(VerificationOutcome::ValidManifest(_, _))
    } else if rank == 1 {
        event matches Event::Validated(Ok(validity)) && validity.signature_valid
            && !validity.cannot_use_yet && !validity.expired
    } else if rank == 2 {
        event matches Event::PolicyChecked(Ok(_))
    } else if rank == 3 {
        event is ManifestPublished
    } else if rank == 4 {
        event matches Event::ProvidersScanned(Ok(_))
    } else if rank == 5 {
        event matches Event::HostLaunched(Ok(_))
    } else {
        false
    }
}

/// A step from a final stage stays there. A step from any other stage leads
/// to the next stage, and only on the event that it advances on, or aborts.
pub proof fn lemma_step_moves_forward(state: Bootstrap, event: Event)
    ensures
        state.spec_stage().is_final() ==> next(state, event).0.spec_stage() == state.spec_stage(),
        !state.spec_stage().is_final() ==> {
            let after = next(state, event).0.spec_stage();
            if advances_from(state.spec_stage().rank() as int, event) {
                after.rank() == state.spec_stage().rank() + 1
            } else {
                after == Stage::Aborted
            }
        },
{
}

/// A bootstrap that reached a final stage stays in it, whatever follows.
pub proof fn lemma_final_stays(state: Bootstrap, events: Seq<Event>)
    requires
        state.spec_stage().is_final(),
    ensures
        run(state, events).spec_stage() == state.spec_stage(),
    decreases events.len(),
{
    if events.len() > 0 {
        lemma_final_stays(state, events.drop_last());
        lemma_step_moves_forward(run(state, events.drop_last()), events.last());
    }
}

/// A bootstrap that was not aborted has passed one stage for each event, up
/// to the start of the host.
pub proof fn lemma_stage_counts_events(events: Seq<Event>)
    ensures
        ({
            let stage = run(Bootstrap::ArtifactLoaded, events).spec_stage();
            if stage == Stage::Aborted {
                true
            } else if stage == Stage::HostStarted {
                events.len() >= 6
            } else {
                events.len() == stage.rank()
            }
        }),
    decreases events.len(),
{
    if events.len() > 0 {
        lemma_stage_counts_events(events.drop_last());
        lemma_step_moves_forward(
            run(Bootstrap::ArtifactLoaded, events.drop_last()),
            events.last(),
        );
    }
}

/// A bootstrap that was not aborted was not aborted at any earlier point.
pub proof fn lemma_prefix_not_aborted(events: Seq<Event>, k: int)
    requires
        0 <= k <= events.len(),
        run(Bootstrap::ArtifactLoaded, events).spec_stage() != Stage::Aborted,
    ensures
        run(Bootstrap::ArtifactLoaded, events.take(k)).spec_stage() != Stage::Aborted,
    decreases events.len() - k,
{
    if k == events.len() {
        assert(events.take(k) == events);
    } else {
        lemma_prefix_not_aborted(events, k + 1);
        let longer = events.take(k + 1);
        assert(longer.drop_last() == events.take(k));
        lemma_step_moves_forward(run(Bootstrap::ArtifactLoaded, events.take(k)), longer.last());
    }
}

/// After `k` events, a bootstrap that is not aborted in the end stands in
/// the stage of rank `k`, as long as `k` is at most 6.
pub proof fn lemma_prefix_stage(events: Seq<Event>, k: int)
    requires
        0 <= k <= events.len(),
        k <= 6,
        run(Bootstrap::ArtifactLoaded, events).spec_stage() != Stage::Aborted,
    ensures
        run(Bootstrap::ArtifactLoaded, events.take(k)).spec_stage().rank() == k,
{
    lemma_prefix_not_aborted(events, k);
    lemma_stage_counts_events(events.take(k));
}

/// The event that a bootstrap took at a stage it left without aborting is
/// the one that the stage advances on.
pub proof fn lemma_passed_stage(events: Seq<Event>, k: int)
    requires
        0 <= k < events.len(),
        k < 6,
        run(Bootstrap::ArtifactLoaded, events).spec_stage() != Stage::Aborted,
    ensures
        advances_from(k, events[k]),
{
    lemma_prefix_stage(events, k);
    lemma_prefix_stage(events, k + 1);
    let longer = events.take(k + 1);
    assert(longer.drop_last() == events.take(k));
    assert(longer.last() == events[k]);
    lemma_step_moves_forward(run(Bootstrap::ArtifactLoaded, events.take(k)), events[k]);
}

/// The host is started only behind every stage: a run that ends with the
/// host started took, in this order, the inspection that found a valid
/// manifest, a validation that found the token signed and usable now, an
/// approving policy check, the publication of the manifest, a scan of the
/// provider directory, and a launch that succeeded. So no artifact without a valid
/// manifest, no token that is not yet usable or expired, and no module that
/// the policy refuses ever has its host started.
pub proof fn lemma_host_starts_behind_every_stage(events: Seq<Event>)
    requires
        run(Bootstrap::ArtifactLoaded, events).spec_stage() == Stage::HostStarted,
    ensures
        events.len() >= 6,
        events[0] matches Event::Inspected(VerificationOutcome::ValidManifest(_, _)),
        events[1] matches Event::Validated(Ok(validity)) && validity.signature_valid
            && !validity.cannot_use_yet && !validity.expired,
        events[2] matches Event::PolicyChecked(Ok(_)),
        events[3] is ManifestPublished,
        events[4] matches Event::ProvidersScanned(Ok(_)),
        events[5] matches Event::HostLaunched(Ok(_)),
{
    lemma_stage_counts_events(events);
    lemma_passed_stage(events, 0);
    lemma_passed_stage(events, 1);
    lemma_passed_stage(events, 2);
    lemma_passed_stage(events, 3);
    lemma_passed_stage(events, 4);
    lemma_passed_stage(events, 5);
}

/// An aborted bootstrap asks for nothing any more: no manifest is published,
/// no provider loaded and no host started after it.
pub proof fn lemma_nothing_after_abort(state: Bootstrap, events: Seq<Event>, i: int)
    requires
        state.spec_stage() == Stage::Aborted,
        0 <= i < events.len(),
    ensures
        action_at(state, events, i) is Halt,
{
    lemma_final_stays(state, events.take(i));
}

/// The stage in which a bootstrap stands when it asks for a privileged
/// action: it publishes the manifest as the answer to the third event and to
/// no other, loads providers as the answer to the fourth, and starts the
/// host as the answer to the fifth.
pub proof fn lemma_action_tells_stage(events: Seq<Event>, i: int)
    requires
        0 <= i < events.len(),
    ensures
        ({
            let before = run(Bootstrap::ArtifactLoaded, events.take(i)).spec_stage();
            let action = action_at(Bootstrap::ArtifactLoaded, events, i);
            &&& action is PublishManifest ==> before == Stage::TemporallyValid && i == 2
            &&& action is LoadProviders ==> before == Stage::PolicyApproved && i == 3
            &&& action is StartHost ==> before == Stage::CapabilitiesPublished && i == 4
        }),
{
    lemma_stage_counts_events(events.take(i));
}

/// The manifest is published before any provider is loaded, and providers
/// are loaded before the host is started, in every run: where the machine
/// asks to load providers, its answer to the event before was to publish
/// the manifest, and that event was followed by the report that it had been
/// published; where it asks to start the host, its answer to the event
/// before was to load providers.
pub proof fn lemma_publish_before_load_before_start(events: Seq<Event>, i: int)
    requires
        0 <= i < events.len(),
    ensures
        action_at(Bootstrap::ArtifactLoaded, events, i) is LoadProviders ==> {
            &&& i == 3
            &&& action_at(Bootstrap::ArtifactLoaded, events, 2) is PublishManifest
            &&& events[3] is ManifestPublished
        },
        action_at(Bootstrap::ArtifactLoaded, events, i) is StartHost ==> {
            &&& i == 4
            &&& action_at(Bootstrap::ArtifactLoaded, events, 3) is LoadProviders
            &&& action_at(Bootstrap::ArtifactLoaded, events, 2) is PublishManifest
        },
{
    lemma_action_tells_stage(events, i);
    let action = action_at(Bootstrap::ArtifactLoaded, events, i);
    if action is LoadProviders || action is StartHost {
        let done = events.take(i);
        assert(run(Bootstrap::ArtifactLoaded, done).spec_stage() != Stage::Aborted);
        assert forall|k: int| 0 <= k <= i implies #[trigger] done.take(k) == events.take(k) by {}
        lemma_prefix_stage(done, 2);
        lemma_prefix_stage(done, 3);
        lemma_passed_stage(done, 2);
        assert(done[2] == events[2]);
        let third = done.take(3);
        assert(third.drop_last() == done.take(2));
        assert(third.last() == events[2]);
        if action is StartHost {
            lemma_prefix_stage(done, 4);
            lemma_passed_stage(done, 3);
            assert(done[3] == events[3]);
            let fourth = done.take(4);
            assert(fourth.drop_last() == done.take(3));
            assert(fourth.last() == events[3]);
            assert(done.take(4) == done);
        } else {
            assert(done.take(3) == done);
        }
    }
}

/// A token that is signed but not usable now ends the bootstrap, and the
/// diagnostic carries the instant of the manifest itself beside the
/// verifier's words, both unchanged: the manifest's instant from which it is
/// usable where it is not usable yet, else the manifest's instant of expiry.
pub proof fn lemma_unusable_token_aborts(manifest: Manifest, token: String, validity: TokenValidity)
    requires
        validity.signature_valid,
        validity.cannot_use_yet || validity.expired,
    ensures
        next(Bootstrap::ManifestExtracted(manifest, token), Event::Validated(Ok(validity))) == (
            Bootstrap::Aborted,
            Action::Abort(
                if validity.cannot_use_yet {
                    Diagnostic::NotYetUsable(validity.not_before_human, manifest@.not_before)
                } else {
                    Diagnostic::Expired(validity.expires_human, manifest@.expires)
                },
            ),
        ),
{
}

/// Whatever the verifier says of a token that is not usable now, signed or
/// not, the bootstrap is aborted.
pub proof fn lemma_unusable_token_never_passes(
    manifest: Manifest,
    token: String,
    validity: TokenValidity,
)
    requires
        validity.cannot_use_yet || validity.expired || !validity.signature_valid,
    ensures
        next(
            Bootstrap::ManifestExtracted(manifest, token),
            Event::Validated(Ok(validity)),
        ).0 == Bootstrap::Aborted,
{
}

/// A module that the policy check refuses is never started: the bootstrap
/// is aborted on the refusal, stays aborted whatever follows, and asks for
/// nothing any more.
pub proof fn lemma_refused_module_never_starts(
    manifest: Manifest,
    token: String,
    violation: PolicyViolation,
    events: Seq<Event>,
    i: int,
)
    requires
        0 <= i < events.len(),
    ensures
        ({
            let refused = next(
                Bootstrap::TemporallyValid(manifest, token),
                Event::PolicyChecked(Err(violation)),
            );
            &&& refused.0 == Bootstrap::Aborted
            &&& refused.1 == Action::Abort(Diagnostic::PolicyViolation(violation))
            &&& run(refused.0, events) == Bootstrap::Aborted
            &&& action_at(refused.0, events, i) is Halt
        }),
{
    lemma_final_stays(Bootstrap::Aborted, events);
    lemma_nothing_after_abort(Bootstrap::Aborted, events, i);
}

/// A module that the policy check passes goes on to the publication of its
/// manifest, and the state holds that manifest until then.
pub proof fn lemma_approved_module_proceeds(manifest: Manifest, token: String)
    ensures
        next(Bootstrap::TemporallyValid(manifest, token), Event::PolicyChecked(Ok(()))) == (
            Bootstrap::PolicyApproved(manifest),
            Action::PublishManifest,
        ),
{
}

/// The steps that `start` takes are steps of the machine: they lead a
/// bootstrap from the passed policy check to the started host; a provider
/// directory that cannot be scanned, and a host that fails to start, lead it
/// to the abort.
pub proof fn lemma_start_runs_the_machine(manifest: Manifest, error: ConfigError, cause: String)
    ensures
        run(
            Bootstrap::PolicyApproved(manifest),
            seq![
                Event::ManifestPublished,
                Event::ProvidersScanned(Ok(())),
                Event::HostLaunched(Ok(())),
            ],
        ) == Bootstrap::HostStarted,
        run(
            Bootstrap::PolicyApproved(manifest),
            seq![Event::ManifestPublished, Event::ProvidersScanned(Ok(()))],
        ) == Bootstrap::ProvidersLoaded,
        run(
            Bootstrap::PolicyApproved(manifest),
            seq![Event::ManifestPublished, Event::ProvidersScanned(Err(error))],
        ) == Bootstrap::Aborted,
        run(
            Bootstrap::PolicyApproved(manifest),
            seq![
                Event::ManifestPublished,
                Event::ProvidersScanned(Ok(())),
                Event::HostLaunched(Err(cause)),
            ],
        ) == Bootstrap::Aborted,
{
    reveal_with_fuel(run, 4);
    let origin = Bootstrap::PolicyApproved(manifest);
    let one = seq![Event::ManifestPublished];
    let two = seq![Event::ManifestPublished, Event::ProvidersScanned(Ok(()))];
    let bad = seq![Event::ManifestPublished, Event::ProvidersScanned(Err(error))];
    let full = seq![
        Event::ManifestPublished,
        Event::ProvidersScanned(Ok(())),
        Event::HostLaunched(Ok(())),
    ];
    let failed = seq![
        Event::ManifestPublished,
        Event::ProvidersScanned(Ok(())),
        Event::HostLaunched(Err(cause)),
    ];
    assert(one.drop_last() == Seq::<Event>::empty());
    assert(two.drop_last() == one);
    assert(bad.drop_last() == one);
    assert(full.drop_last() == two);
    assert(failed.drop_last() == two);
    assert(run(origin, one) == Bootstrap::CapabilitiesPublished);
    assert(run(origin, two) == Bootstrap::ProvidersLoaded);
}

} // verus!
