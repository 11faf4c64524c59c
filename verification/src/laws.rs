use vstd::prelude::*;

use crate::errors::ErrorModel;
use crate::errors::PipelineError;
use crate::pipeline::step_post;
use crate::pipeline::Action;
use crate::pipeline::Event;
use crate::pipeline::Phase;
use crate::pipeline::Pipeline;
use crate::verify::digest_matches;
use crate::verify::verify_post;

verus! {

/// A packaging action is handed out only in answer to a build script that
/// exited zero: a build that fails, in any way, never leads to an
/// artifact.
pub proof fn lemma_package_only_after_build_success(
    pre: Pipeline,
    event: Event,
    post: Pipeline,
    action: Action,
)
    requires
        step_post(pre, event, post, action),
    ensures
        action matches Action::PackageOut { .. } ==> {
            &&& pre.phase is AwaitBuild
            &&& event matches Event::BuildExited { code } && code == Some(0i32)
        },
{
}

/// The terminal phases take no transition at all: once a run has failed or
/// finished, the machine hands out nothing further.
pub proof fn lemma_terminal_phases_halt(pre: Pipeline, event: Event, post: Pipeline, action: Action)
    requires
        step_post(pre, event, post, action),
    ensures
        !(pre.phase is Failed),
        !(pre.phase is Done),
{
}

/// A cached copy that is present is never silently re-fetched: when its
/// bytes are there, the machine either advances past a verified distfile or
/// fails the run; when the expected digest is well-formed hex and the bytes
/// do not match it, the run fails with the checksum mismatch.
pub proof fn lemma_no_silent_refetch(pre: Pipeline, event: Event, post: Pipeline, action: Action)
    requires
        step_post(pre, event, post, action),
        pre.phase matches Phase::AwaitCacheRead { .. },
        event matches Event::CacheRead { data } && data is Some,
    ensures
        !(action matches Action::Fetch { .. }),
        !(post.phase is AwaitFetch),
        (pre.phase matches Phase::AwaitCacheRead { idx } && event matches Event::CacheRead {
            data: Some(buf),
        } && crate::hexstr::valid_hex(pre.distfiles@[idx as int]@.blake2b) && !digest_matches(
            pre.distfiles@[idx as int]@.blake2b,
            buf@,
        )) ==> {
            &&& post.phase is Failed
            &&& action matches Action::Fail { error } && error@ matches
                ErrorModel::ChecksumMismatch { .. }
        },
{
}

/// What a fetch writes to the cache is exactly the response body that was
/// just verified: the written bytes match the expected digest, so reading
/// them back and re-verifying them must succeed.
pub proof fn lemma_cache_write_reverifies(
    pre: Pipeline,
    event: Event,
    post: Pipeline,
    action: Action,
)
    requires
        step_post(pre, event, post, action),
        pre.phase matches Phase::AwaitFetch { .. },
    ensures
        action matches Action::WriteCache { data, .. } ==> {
            &&& event matches Event::Fetched { body: Some(buf) } && buf@ == data@
            &&& pre.phase matches Phase::AwaitFetch { idx } && digest_matches(
                pre.distfiles@[idx as int]@.blake2b,
                data@,
            )
            &&& pre.phase matches Phase::AwaitFetch { idx } ==> forall|r: Result<(), PipelineError>|
                verify_post(pre.distfiles@[idx as int]@.blake2b, data@, r) ==> r is Ok
        },
{
}

/// The phases that presuppose a prepared staging root.
pub open spec fn staged_phase(p: Phase) -> bool {
    ||| p is AwaitStaging
    ||| p is AwaitCopy
    ||| p is AwaitScriptWrite
    ||| p is AwaitBuild
    ||| p is AwaitPackage
    ||| p is Done
}

/// One transition's view of the staging order: the staging phase is entered
/// only by requesting the staging root's recreation, and copies, the script
/// write and the build run only out of phases that lie behind it.
pub proof fn lemma_staging_entered_by_prepare(
    pre: Pipeline,
    event: Event,
    post: Pipeline,
    action: Action,
)
    requires
        step_post(pre, event, post, action),
    ensures
        post.phase is AwaitStaging ==> action matches Action::PrepareStaging { .. },
        staged_phase(post.phase) && !staged_phase(pre.phase) ==> post.phase is AwaitStaging,
        action matches Action::RunBuild { .. } ==> pre.phase is AwaitScriptWrite,
        action matches Action::CopyDistfile { .. } ==> staged_phase(pre.phase),
        action matches Action::WriteScript { .. } ==> staged_phase(pre.phase),
{
}

/// A run: a sequence of transitions of one machine, each answering the
/// previous action.
pub open spec fn is_run(states: Seq<Pipeline>, events: Seq<Event>, actions: Seq<Action>) -> bool {
    &&& states.len() == events.len() + 1
    &&& actions.len() == events.len()
    &&& forall|i: int|
        0 <= i < events.len() ==> step_post(
            #[trigger] states[i],
            events[i],
            states[i + 1],
            actions[i],
        )
}

/// In any run that starts fresh, a phase that presupposes staging is
/// reached only after an action asked for the staging root to be removed
/// and recreated: leftover state from an earlier build cannot leak into a
/// new one without that step.
pub proof fn lemma_staged_phase_needs_prepare(
    states: Seq<Pipeline>,
    events: Seq<Event>,
    actions: Seq<Action>,
    j: int,
)
    requires
        is_run(states, events, actions),
        states[0].phase is Ready,
        0 <= j < states.len(),
        staged_phase(states[j].phase),
    ensures
        exists|i: int| 0 <= i < j && (#[trigger] actions[i]) matches Action::PrepareStaging { .. },
    decreases j,
{
    assert(j > 0);
    assert(step_post(states[j - 1], events[j - 1], states[j], actions[j - 1]));
    if staged_phase(states[j - 1].phase) {
        lemma_staged_phase_needs_prepare(states, events, actions, j - 1);
        let i = choose|i: int|
            0 <= i < j - 1 && (#[trigger] actions[i]) matches Action::PrepareStaging { .. };
        assert(0 <= i < j && actions[i] matches Action::PrepareStaging { .. });
    } else {
        lemma_staging_entered_by_prepare(
            states[j - 1],
            events[j - 1],
            states[j],
            actions[j - 1],
        );
        assert(actions[j - 1] matches Action::PrepareStaging { .. });
    }
}

/// In any run that starts fresh, every build request is preceded by the
/// staging request: the build script never runs against a staging root
/// that the same run did not first recreate.
pub proof fn lemma_staging_precedes_build(
    states: Seq<Pipeline>,
    events: Seq<Event>,
    actions: Seq<Action>,
    j: int,
)
    requires
        is_run(states, events, actions),
        states[0].phase is Ready,
        0 <= j < actions.len(),
        actions[j] matches Action::RunBuild { .. },
    ensures
        exists|i: int| 0 <= i < j && (#[trigger] actions[i]) matches Action::PrepareStaging { .. },
{
    assert(step_post(states[j], events[j], states[j + 1], actions[j]));
    lemma_staging_entered_by_prepare(states[j], events[j], states[j + 1], actions[j]);
    lemma_staged_phase_needs_prepare(states, events, actions, j);
}

/// In any run, packaging is requested at most once: after the one
/// packaging action the machine awaits its outcome and then halts, so no
/// later transition can hand packaging out again.
pub proof fn lemma_artifact_at_most_once(
    states: Seq<Pipeline>,
    events: Seq<Event>,
    actions: Seq<Action>,
    i: int,
    j: int,
)
    requires
        is_run(states, events, actions),
        0 <= i < j < actions.len(),
        actions[i] matches Action::PackageOut { .. },
    ensures
        !(actions[j] matches Action::PackageOut { .. }),
{
    assert(step_post(states[i], events[i], states[i + 1], actions[i]));
    assert(states[i + 1].phase is AwaitPackage);
    assert(step_post(states[i + 1], events[i + 1], states[i + 2], actions[i + 1]));
    if j > i + 1 {
        assert(states[i + 2].phase is Done || states[i + 2].phase is Failed);
        assert(step_post(states[i + 2], events[i + 2], states[i + 3], actions[i + 2]));
        assert(false);
    }
}

/// In any run, a build script that exits non-zero ends the run then and
/// there: the action at that point reports the failure, and no later
/// transition — in particular no packaging — exists at all.
pub proof fn lemma_failed_build_ends_run(
    states: Seq<Pipeline>,
    events: Seq<Event>,
    actions: Seq<Action>,
    i: int,
)
    requires
        is_run(states, events, actions),
        0 <= i < events.len(),
        states[i].phase is AwaitBuild,
        events[i] matches Event::BuildExited { code } && code != Some(0i32),
    ensures
        actions[i] matches Action::Fail { error } && error@ matches ErrorModel::BuildFailed { .. },
        i == events.len() - 1,
{
    assert(step_post(states[i], events[i], states[i + 1], actions[i]));
    if i < events.len() - 1 {
        assert(step_post(states[i + 1], events[i + 1], states[i + 2], actions[i + 1]));
        lemma_terminal_phases_halt(states[i + 1], events[i + 1], states[i + 2], actions[i + 1]);
    }
}

} // verus!
