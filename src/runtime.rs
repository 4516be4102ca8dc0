//! The runtime state that the host shares between the supervisor and its
//! status queries, and the host commands that change it.

use vstd::prelude::*;
use crate::config::LauncherConfig;
use crate::supervisor::{Action, ActionView, Event, Supervisor, next, output};

verus! {

/// What the host knows of the worker: the port it announced, the settings
/// last loaded or saved, and its process id.
pub struct RuntimeState {
    pub api_port: Option<u16>,
    pub launcher_config: Option<LauncherConfig>,
    pub child_pid: Option<u32>,
}

/// The runtime state after the host performed `a`: a published process id
/// or port is recorded, every other action leaves the state as it was.
pub open spec fn applied(s: RuntimeState, a: ActionView) -> RuntimeState {
    match a {
        ActionView::PublishPid(pid) => RuntimeState { child_pid: Some(pid), ..s },
        ActionView::Ready(port) => RuntimeState { api_port: Some(port), ..s },
        _ => s,
    }
}

/// The runtime state after the host performed the actions in order.
pub open spec fn applied_all(s: RuntimeState, acts: Seq<ActionView>) -> RuntimeState
    decreases acts.len(),
{
    if acts.len() == 0 {
        s
    } else {
        applied_all(applied(s, acts[0]), acts.drop_first())
    }
}

/// Performing two runs of actions in turn is performing them joined.
pub(crate) proof fn lemma_applied_all_append(s: RuntimeState, a: Seq<ActionView>, b: Seq<ActionView>)
    ensures
        applied_all(s, a + b) == applied_all(applied_all(s, a), b),
    decreases a.len(),
{
    if a.len() == 0 {
        assert(a + b =~= b);
    } else {
        assert((a + b).drop_first() =~= a.drop_first() + b);
        lemma_applied_all_append(applied(s, a[0]), a.drop_first(), b);
    }
}

impl RuntimeState {
    /// The state at host start: no port and no process yet, and the settings
    /// that the store yielded.
    pub fn new(loaded: Option<LauncherConfig>) -> (r: Self)
        ensures
            r.api_port is None,
            r.launcher_config == loaded,
            r.child_pid is None,
    {
        RuntimeState { api_port: None, launcher_config: loaded, child_pid: None }
    }

    /// The port the worker announced, if it is ready.
    pub fn get_api_port(&self) -> (r: Option<u16>)
        ensures
            r == self.api_port,
    {
        self.api_port
    }

    /// The worker's process id, once it was spawned.
    pub fn get_child_pid(&self) -> (r: Option<u32>)
        ensures
            r == self.child_pid,
    {
        self.child_pid
    }

    /// A copy of the settings last loaded or saved.
    pub fn get_launcher_config(&self) -> (r: Option<LauncherConfig>)
        ensures
            r is Some <==> self.launcher_config is Some,
            r is Some ==> r->0@ == self.launcher_config->0@,
    {
        match &self.launcher_config {
            Some(c) => Some(c.clone()),
            None => None,
        }
    }

    /// Records what an action of the supervisor publishes.
    pub fn apply(&mut self, a: &Action)
        ensures
            *final(self) == applied(*old(self), a@),
    {
        match a {
            Action::PublishPid(pid) => {
                self.child_pid = Some(*pid);
            },
            Action::Ready(port) => {
                self.api_port = Some(*port);
            },
            _ => {},
        }
    }
}

/// Keeps settings that the host has just tried to store: when the write
/// succeeded they become the loaded settings; when it failed the state is
/// unchanged and the write error is returned.
pub fn update_config(state: &mut RuntimeState, config: LauncherConfig, written: Result<(), String>) -> (r: Result<(), String>)
    ensures
        r == written,
        written is Ok ==> *final(state) == (RuntimeState { launcher_config: Some(config), ..*old(state) }),
        written is Err ==> *final(state) == *old(state),
{
    if written.is_ok() {
        state.launcher_config = Some(config);
    }
    written
}

/// Keeps settings that the host has just tried to store and, when the
/// write succeeded, starts a worker run with them: the supervisor takes the
/// start event and the action it calls for is returned. When the write
/// failed, nothing changes and the write error is returned.
pub fn save_config_and_start(
    state: &mut RuntimeState,
    supervisor: &mut Supervisor,
    config: LauncherConfig,
    written: Result<(), String>,
) -> (r: Result<Action, String>)
    ensures
        written is Err ==> r == Err::<Action, String>(written->Err_0) && *final(state) == *old(state)
            && *final(supervisor) == *old(supervisor),
        written is Ok ==> {
            &&& r is Ok
            &&& final(state).api_port == old(state).api_port
            &&& final(state).child_pid == old(state).child_pid
            &&& final(state).launcher_config is Some
            &&& final(state).launcher_config->0@ == config@
            &&& exists|c: LauncherConfig|
                c@ == config@ && *final(supervisor) == next(*old(supervisor), Event::Start(c)) && r->Ok_0@
                    == output(*old(supervisor), Event::Start(c))
        },
{
    match written {
        Ok(()) => {
            let started = config.clone();
            state.launcher_config = Some(config);
            let a = supervisor.step(Event::Start(started));
            Ok(a)
        },
        Err(m) => Err(m),
    }
}

} // verus!
