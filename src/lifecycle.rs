use vstd::prelude::*;
use crate::context::{Context, ContextError, ContextView, Release};
use crate::descriptor::{
    app_info, debug_create_info, full_subscription, instance_create_info, InstanceDescriptor,
};
use crate::version::ApiVersion;

verus! {

/// Where the construction of a context stands.
#[derive(Clone, Copy, Debug, PartialEq, Eq, Structural)]
pub enum Stage {
    /// The API entry point is to be loaded.
    Loading,
    /// The instance is to be created.
    CreatingInstance,
    /// The instance is alive; the debug messenger is to be attached to it.
    AttachingMessenger { instance: u64 },
    /// Attaching the messenger failed with `code`; the instance is to be
    /// destroyed before the failure is reported.
    RollingBack { instance: u64, code: i32 },
    /// Construction failed; nothing is left alive.
    Failed(ContextError),
    /// Construction succeeded; the context owns both handles.
    Ready { instance: u64, messenger: u64 },
}

/// What the driver reports after carrying out an action.
#[derive(Clone, Copy, Debug, PartialEq, Eq, Structural)]
pub enum Event {
    EntryLoaded,
    EntryMissing,
    InstanceCreated(u64),
    InstanceRejected(i32),
    MessengerCreated(u64),
    MessengerRejected(i32),
    InstanceDestroyed,
}

/// What the driver is asked to do next.
#[derive(Clone, Copy, Debug, PartialEq, Eq, Structural)]
pub enum Action {
    LoadEntry,
    CreateInstance,
    CreateMessenger(u64),
    DestroyInstance(u64),
    /// Construction is over: take the outcome with `finish`.
    Done,
}

/// The action that a stage asks for.
pub open spec fn action_of(s: Stage) -> Action {
    match s {
        Stage::Loading => Action::LoadEntry,
        Stage::CreatingInstance => Action::CreateInstance,
        Stage::AttachingMessenger { instance } => Action::CreateMessenger(instance),
        Stage::RollingBack { instance, .. } => Action::DestroyInstance(instance),
        Stage::Failed(_) => Action::Done,
        Stage::Ready { .. } => Action::Done,
    }
}

/// The events that can answer the action of a stage.
pub open spec fn accepts(s: Stage, e: Event) -> bool {
    match s {
        Stage::Loading => e is EntryLoaded || e is EntryMissing,
        Stage::CreatingInstance => e is InstanceCreated || e is InstanceRejected,
        Stage::AttachingMessenger { .. } => e is MessengerCreated || e is MessengerRejected,
        Stage::RollingBack { .. } => e is InstanceDestroyed,
        Stage::Failed(_) => false,
        Stage::Ready { .. } => false,
    }
}

/// The stage after an accepted event.
pub open spec fn next(s: Stage, e: Event) -> Stage {
    match (s, e) {
        (Stage::Loading, Event::EntryLoaded) => Stage::CreatingInstance,
        (Stage::Loading, Event::EntryMissing) => Stage::Failed(ContextError::LoaderError),
        (Stage::CreatingInstance, Event::InstanceCreated(h)) => Stage::AttachingMessenger {
            instance: h,
        },
        (Stage::CreatingInstance, Event::InstanceRejected(c)) => Stage::Failed(
            ContextError::InstanceCreationError(c),
        ),
        (Stage::AttachingMessenger { instance }, Event::MessengerCreated(h)) => Stage::Ready {
            instance,
            messenger: h,
        },
        (Stage::AttachingMessenger { instance }, Event::MessengerRejected(c)) => Stage::RollingBack {
            instance,
            code: c,
        },
        (Stage::RollingBack { code, .. }, Event::InstanceDestroyed) => Stage::Failed(
            ContextError::DebugSetupError(code),
        ),
        _ => s,
    }
}

/// Each event in turn is accepted by the stage it reaches.
pub open spec fn accepted(s: Stage, es: Seq<Event>) -> bool
    decreases es.len(),
{
    es.len() == 0 || (accepts(s, es[0]) && accepted(next(s, es[0]), es.drop_first()))
}

/// The stage reached after the events.
pub open spec fn run(s: Stage, es: Seq<Event>) -> Stage
    decreases es.len(),
{
    if es.len() == 0 {
        s
    } else {
        run(next(s, es[0]), es.drop_first())
    }
}

/// The actions asked for along the way, the last one included.
pub open spec fn trace(s: Stage, es: Seq<Event>) -> Seq<Action>
    decreases es.len(),
{
    if es.len() == 0 {
        seq![action_of(s)]
    } else {
        seq![action_of(s)] + trace(next(s, es[0]), es.drop_first())
    }
}

/// The result of a finished construction.
pub open spec fn outcome(s: Stage) -> Option<Result<ContextView, ContextError>> {
    match s {
        Stage::Failed(e) => Some(Err(e)),
        Stage::Ready { instance, messenger } => Some(
            Ok(ContextView { instance: Some(instance), messenger: Some(messenger), device: None }),
        ),
        _ => None,
    }
}


/// How many more events a stage can accept before construction is over.
pub open spec fn remaining(s: Stage) -> nat {
    match s {
        Stage::Loading => 4,
        Stage::CreatingInstance => 3,
        Stage::AttachingMessenger { .. } => 2,
        Stage::RollingBack { .. } => 1,
        Stage::Failed(_) => 0,
        Stage::Ready { .. } => 0,
    }
}

/// Construction always ends: no run accepts more events than `remaining`.
pub proof fn lemma_run_bounded(s: Stage, es: Seq<Event>)
    requires
        accepted(s, es),
    ensures
        es.len() <= remaining(s),
    decreases es.len(),
{
    if es.len() > 0 {
        lemma_run_bounded(next(s, es[0]), es.drop_first());
    }
}

/// A construction that succeeds hands over a context holding the instance and
/// the messenger created, in that order, with no device chosen; tearing it
/// down destroys the messenger first and the instance second, each once.
pub proof fn lemma_success_teardown_order(es: Seq<Event>, v: ContextView)
    requires
        accepted(Stage::Loading, es),
        outcome(run(Stage::Loading, es)) == Some(Ok::<ContextView, ContextError>(v)),
    ensures
        es.len() == 3,
        es[0] == Event::EntryLoaded,
        es[1] == Event::InstanceCreated(v.instance->Some_0),
        es[2] == Event::MessengerCreated(v.messenger->Some_0),
        v.wf(),
        v.device is None,
        v.releases() == seq![
            Release::Messenger(v.messenger->Some_0),
            Release::Instance(v.instance->Some_0),
        ],
{
    reveal_with_fuel(run, 5);
    reveal_with_fuel(accepted, 5);
    lemma_run_bounded(Stage::Loading, es);
    assert(v.releases() =~= seq![
        Release::Messenger(v.messenger->Some_0),
        Release::Instance(v.instance->Some_0),
    ]);
}

/// When attaching the messenger fails, the instance already created is
/// destroyed, exactly once, before the failure is reported.
pub proof fn lemma_messenger_failure_rolls_back(es: Seq<Event>, code: i32)
    requires
        accepted(Stage::Loading, es),
        outcome(run(Stage::Loading, es)) == Some(
            Err::<ContextView, ContextError>(ContextError::DebugSetupError(code)),
        ),
    ensures
        es.len() == 4,
        es[0] == Event::EntryLoaded,
        es[1] is InstanceCreated,
        es[2] == Event::MessengerRejected(code),
        es[3] == Event::InstanceDestroyed,
        trace(Stage::Loading, es) == seq![
            Action::LoadEntry,
            Action::CreateInstance,
            Action::CreateMessenger(es[1]->InstanceCreated_0),
            Action::DestroyInstance(es[1]->InstanceCreated_0),
            Action::Done,
        ],
{
    reveal_with_fuel(run, 5);
    reveal_with_fuel(accepted, 5);
    reveal_with_fuel(trace, 5);
    lemma_run_bounded(Stage::Loading, es);
    assert(trace(Stage::Loading, es) =~= seq![
        Action::LoadEntry,
        Action::CreateInstance,
        Action::CreateMessenger(es[1]->InstanceCreated_0),
        Action::DestroyInstance(es[1]->InstanceCreated_0),
        Action::Done,
    ]);
}

/// Construction never destroys an instance it did not create, nor one twice:
/// the only destruction it asks for is of the instance created by the second
/// event, right after the messenger failed. A construction that stopped before
/// an instance existed destroys nothing.
pub proof fn lemma_destroys_only_created(es: Seq<Event>)
    requires
        accepted(Stage::Loading, es),
    ensures
        forall|k: int|
            0 <= k < trace(Stage::Loading, es).len() && (#[trigger] trace(Stage::Loading, es)[k]) is DestroyInstance
                ==> k == 3 && es[1] == Event::InstanceCreated(
                trace(Stage::Loading, es)[k]->DestroyInstance_0,
            ) && es[2] is MessengerRejected,
        forall|k: int|
            0 <= k < trace(Stage::Loading, es).len() && (es.len() < 3 || !(es[2] is MessengerRejected))
                ==> !((#[trigger] trace(Stage::Loading, es)[k]) is DestroyInstance),
{
    reveal_with_fuel(accepted, 5);
    reveal_with_fuel(trace, 5);
    lemma_run_bounded(Stage::Loading, es);
    let t = trace(Stage::Loading, es);
    if es.len() == 0 {
        assert(t =~= seq![Action::LoadEntry]);
    } else if es.len() == 1 {
        assert(t =~= seq![Action::LoadEntry, action_of(next(Stage::Loading, es[0]))]);
    } else if es.len() == 2 {
        let s1 = next(Stage::Loading, es[0]);
        let s2 = next(s1, es[1]);
        assert(t =~= seq![Action::LoadEntry, action_of(s1), action_of(s2)]);
    } else if es.len() == 3 {
        let s1 = next(Stage::Loading, es[0]);
        let s2 = next(s1, es[1]);
        let s3 = next(s2, es[2]);
        assert(t =~= seq![Action::LoadEntry, action_of(s1), action_of(s2), action_of(s3)]);
    } else {
        let s1 = next(Stage::Loading, es[0]);
        let s2 = next(s1, es[1]);
        let s3 = next(s2, es[2]);
        let s4 = next(s3, es[3]);
        assert(t =~= seq![Action::LoadEntry, action_of(s1), action_of(s2), action_of(s3), action_of(s4)]);
    }
}

/// A context under construction: the descriptor its instance is created from,
/// and the stage reached.
pub struct Construction {
    pub descriptor: InstanceDescriptor,
    pub stage: Stage,
}

/// Starts building a context for the given application, engine and target
/// version. The driver then carries out `action` and reports with `step`
/// until the action is `Done`.
pub fn new(app_name: &str, engine_name: &str, api: ApiVersion) -> (r: Construction)
    requires
        api.wf(),
    ensures
        r.stage == Stage::Loading,
        r.descriptor.app.application_name@ == app_name@,
        r.descriptor.app.engine_name@ == engine_name@,
        r.descriptor.app.application_version == 0,
        r.descriptor.app.engine_version == 0,
        r.descriptor.app.api_version as int == api.packed(),
        r.descriptor.messenger == full_subscription(),
        r.descriptor.layers@.len() == 1,
        r.descriptor.layers@[0]@ == crate::descriptor::validation_layer(),
        r.descriptor.extensions@.len() == 1,
        r.descriptor.extensions@[0]@ == "VK_EXT_debug_utils"@,
{
    let app = app_info(app_name, engine_name, api);
    let messenger = debug_create_info();
    let descriptor = instance_create_info(messenger, app);
    Construction { descriptor, stage: Stage::Loading }
}

impl Construction {
    /// What the driver is to do next.
    pub fn action(&self) -> (r: Action)
        ensures
            r == action_of(self.stage),
    {
        match self.stage {
            Stage::Loading => Action::LoadEntry,
            Stage::CreatingInstance => Action::CreateInstance,
            Stage::AttachingMessenger { instance } => Action::CreateMessenger(instance),
            Stage::RollingBack { instance, .. } => Action::DestroyInstance(instance),
            Stage::Failed(_) => Action::Done,
            Stage::Ready { .. } => Action::Done,
        }
    }

    /// Whether `e` answers the current action.
    pub fn accepts(&self, e: Event) -> (r: bool)
        ensures
            r == accepts(self.stage, e),
    {
        match self.stage {
            Stage::Loading => matches!(e, Event::EntryLoaded | Event::EntryMissing),
            Stage::CreatingInstance => matches!(e, Event::InstanceCreated(_) | Event::InstanceRejected(_)),
            Stage::AttachingMessenger { .. } => matches!(e, Event::MessengerCreated(_) | Event::MessengerRejected(_)),
            Stage::RollingBack { .. } => matches!(e, Event::InstanceDestroyed),
            Stage::Failed(_) => false,
            Stage::Ready { .. } => false,
        }
    }

    /// Moves on after the driver reports `e`.
    pub fn step(&mut self, e: Event)
        requires
            accepts(old(self).stage, e),
        ensures
            final(self).stage == next(old(self).stage, e),
            final(self).descriptor == old(self).descriptor,
    {
        self.stage = match (self.stage, e) {
            (Stage::Loading, Event::EntryLoaded) => Stage::CreatingInstance,
            (Stage::Loading, _) => Stage::Failed(ContextError::LoaderError),
            (Stage::CreatingInstance, Event::InstanceCreated(h)) => Stage::AttachingMessenger {
                instance: h,
            },
            (Stage::CreatingInstance, Event::InstanceRejected(c)) => Stage::Failed(
                ContextError::InstanceCreationError(c),
            ),
            (Stage::AttachingMessenger { instance }, Event::MessengerCreated(h)) => Stage::Ready {
                instance,
                messenger: h,
            },
            (Stage::AttachingMessenger { instance }, Event::MessengerRejected(c)) => Stage::RollingBack {
                instance,
                code: c,
            },
            (Stage::RollingBack { code, .. }, _) => Stage::Failed(ContextError::DebugSetupError(code)),
            (s, _) => s,
        };
    }

    /// The context built, or the error that stopped construction.
    pub fn finish(self) -> (r: Result<Context, ContextError>)
        requires
            action_of(self.stage) == Action::Done,
        ensures
            outcome(self.stage) == Some(
                match r {
                    Ok(c) => Ok::<ContextView, ContextError>(c@),
                    Err(e) => Err::<ContextView, ContextError>(e),
                },
            ),
    {
        match self.stage {
            Stage::Ready { instance, messenger } => Ok(Context::assemble(instance, messenger)),
            Stage::Failed(e) => Err(e),
            _ => unreached(),
        }
    }
}

} // verus!
