//! The guarded enable/load/disable lifecycle.
//!
//! A [`BatchSession`] decides, step by step, which engine call comes next:
//! enable the extension-loading flag, load each request in batch order
//! stopping at the first failure, and disable the flag again before the run
//! finishes — on every exit path. The process owning the database connection
//! performs each instructed call and feeds its outcome back with
//! [`BatchSession::apply`]; the session alone decides what follows, so the
//! ordering and cleanup guarantees are proved here, independent of the
//! engine.

use crate::errors::LoadExtensionError;
use crate::requests::{all_valid, validation_verdict, ExtensionRequest};
use vstd::prelude::*;

verus! {

/// One call into the native engine, as instructed by a session.
#[derive(Debug, Clone, Copy, PartialEq, Eq, Structural)]
pub enum EngineStep {
    /// Set the engine's extension-loading flag to this state.
    Toggle(bool),
    /// Load the extension request at this index of the batch.
    Load(usize),
}

/// What the engine replied to one call.
#[derive(Debug, Clone)]
pub enum StepOutcome {
    /// The engine returned its success status.
    Succeeded,
    /// The engine returned a non-success status; carries the diagnostic
    /// text extracted from the engine.
    Failed(String),
}

/// Where a session stands in the enable/load/disable lifecycle.
#[derive(Debug)]
pub enum Phase {
    /// The enable call is about to be issued.
    Enabling,
    /// Loads so far succeeded; the next load is about to be issued.
    Loading,
    /// Loading is over; the disable call is about to be issued. Carries the
    /// first load failure when there was one.
    Disabling(Option<LoadExtensionError>),
    /// The run is over with this result.
    Finished(Result<(), LoadExtensionError>),
}

/// A guarded batch load in progress: a validated, non-empty batch together
/// with the position reached in the lifecycle and, as ghost history, every
/// engine call issued so far with its outcome.
pub struct BatchSession {
    /// The validated batch, in order.
    pub requests: Vec<ExtensionRequest>,
    /// How many load calls have been issued so far.
    pub loaded: usize,
    /// Where the session stands in the lifecycle.
    pub phase: Phase,
    /// Every engine call issued so far, oldest first, with its outcome.
    pub events: Ghost<Seq<(EngineStep, StepOutcome)>>,
}

/// The history of a clean run prefix: the accepted enable call followed by
/// `m` successful loads of requests `0 .. m`, in batch order.
pub open spec fn clean_events(m: int) -> Seq<(EngineStep, StepOutcome)> {
    seq![(EngineStep::Toggle(true), StepOutcome::Succeeded)] + Seq::new(
        m as nat,
        |i: int| (EngineStep::Load(i as usize), StepOutcome::Succeeded),
    )
}

impl BatchSession {
    /// The number of requests in the batch.
    pub open spec fn n(self) -> int {
        self.requests@.len() as int
    }

    /// The history shape while the disable call is pending. With no load
    /// failure every request was loaded; after a failure the history ends
    /// with the failed load and holds no later one.
    pub open spec fn disabling_wf(self, pending: Option<LoadExtensionError>) -> bool {
        match pending {
            None => self.loaded == self.n() && self.events@ == clean_events(self.n()),
            Some(e) => {
                &&& 1 <= self.loaded <= self.n()
                &&& e matches LoadExtensionError::LoadFailed(m) && self.events@ == clean_events(
                    self.loaded - 1,
                ).push((EngineStep::Load((self.loaded - 1) as usize), StepOutcome::Failed(m)))
            },
        }
    }

    /// A finished run in which the engine refused the enable call: no load
    /// and no disable call was ever issued, and the enable failure is the
    /// result.
    pub open spec fn enable_refused_wf(self, res: Result<(), LoadExtensionError>) -> bool {
        &&& self.loaded == 0
        &&& self.events@.len() == 1
        &&& self.events@[0].0 == EngineStep::Toggle(true)
        &&& self.events@[0].1 matches StepOutcome::Failed(m) && res == Err::<
            (),
            LoadExtensionError,
        >(LoadExtensionError::EnableFailed(m))
    }

    /// A finished run in which the enable call was accepted: the history
    /// ends with the disable call, and the result follows the precedence
    /// rule — the first load failure wins over a disable failure, which
    /// wins over success.
    pub open spec fn disable_issued_wf(self, res: Result<(), LoadExtensionError>) -> bool {
        &&& 1 <= self.loaded <= self.n()
        &&& self.events@.len() >= 2
        &&& self.events@.last().0 == EngineStep::Toggle(false)
        &&& match res {
            Ok(()) => self.loaded == self.n() && self.events@ == clean_events(self.n()).push(
                (EngineStep::Toggle(false), StepOutcome::Succeeded),
            ),
            Err(e) => {
                ||| (e matches LoadExtensionError::EnableFailed(m) && self.loaded == self.n()
                    && self.events@ == clean_events(self.n()).push(
                    (EngineStep::Toggle(false), StepOutcome::Failed(m)),
                ))
                ||| (e matches LoadExtensionError::LoadFailed(m) && self.events@.len()
                    == self.loaded + 2 && self.events@.drop_last() == clean_events(
                    self.loaded - 1,
                ).push((EngineStep::Load((self.loaded - 1) as usize), StepOutcome::Failed(m))))
            },
        }
    }

    /// The session invariant: the batch is non-empty and fully valid, and
    /// the issued history matches the phase.
    pub open spec fn wf(self) -> bool {
        &&& self.n() > 0
        &&& all_valid(self.requests@)
        &&& self.loaded <= self.n()
        &&& match self.phase {
            Phase::Enabling => self.loaded == 0 && self.events@ == Seq::<
                (EngineStep, StepOutcome),
            >::empty(),
            Phase::Loading => self.loaded < self.n() && self.events@ == clean_events(
                self.loaded as int,
            ),
            Phase::Disabling(pending) => self.disabling_wf(pending),
            Phase::Finished(res) => self.enable_refused_wf(res) || self.disable_issued_wf(res),
        }
    }

    /// The engine call this session instructs next.
    pub open spec fn spec_next_step(self) -> EngineStep {
        match self.phase {
            Phase::Enabling => EngineStep::Toggle(true),
            Phase::Loading => EngineStep::Load(self.loaded),
            Phase::Disabling(_) => EngineStep::Toggle(false),
            Phase::Finished(_) => EngineStep::Toggle(false),
        }
    }

    /// The phase that follows when the instructed call comes back with this
    /// outcome. A refused enable finishes the run at once (the disable is
    /// skipped: the toggle was never engaged); a failed load moves straight
    /// to the disable call, remembering the failure; and a pending load
    /// failure takes precedence over whatever the disable call returns.
    pub open spec fn spec_phase_after(self, outcome: StepOutcome) -> Phase {
        match self.phase {
            Phase::Enabling => match outcome {
                StepOutcome::Succeeded => Phase::Loading,
                StepOutcome::Failed(m) => Phase::Finished(
                    Err(LoadExtensionError::EnableFailed(m)),
                ),
            },
            Phase::Loading => match outcome {
                StepOutcome::Succeeded => if self.loaded + 1 < self.n() {
                    Phase::Loading
                } else {
                    Phase::Disabling(None)
                },
                StepOutcome::Failed(m) => Phase::Disabling(
                    Some(LoadExtensionError::LoadFailed(m)),
                ),
            },
            Phase::Disabling(pending) => match pending {
                Some(e) => Phase::Finished(Err(e)),
                None => match outcome {
                    StepOutcome::Succeeded => Phase::Finished(Ok(())),
                    StepOutcome::Failed(m) => Phase::Finished(
                        Err(LoadExtensionError::EnableFailed(m)),
                    ),
                },
            },
            Phase::Finished(res) => Phase::Finished(res),
        }
    }

    /// The load count after applying an outcome: a load call was issued
    /// exactly when the session was in its loading phase.
    pub open spec fn spec_loaded_after(self) -> usize {
        match self.phase {
            Phase::Loading => (self.loaded + 1) as usize,
            _ => self.loaded,
        }
    }

    /// The engine call to perform next.
    pub fn next_step(&self) -> (st: EngineStep)
        requires
            self.wf(),
            !(self.phase is Finished),
        ensures
            st == self.spec_next_step(),
    {
        match &self.phase {
            Phase::Enabling => EngineStep::Toggle(true),
            Phase::Loading => EngineStep::Load(self.loaded),
            Phase::Disabling(_) => EngineStep::Toggle(false),
            Phase::Finished(_) => vstd::pervasive::unreached(),
        }
    }

    /// Feeds back the outcome of the call instructed by `next_step`,
    /// advancing the lifecycle.
    pub fn apply(self, outcome: StepOutcome) -> (s: BatchSession)
        requires
            self.wf(),
            !(self.phase is Finished),
        ensures
            s.wf(),
            s.requests == self.requests,
            s.loaded == self.spec_loaded_after(),
            s.phase == self.spec_phase_after(outcome),
            s.events@ == self.events@.push((self.spec_next_step(), outcome)),
    {
        let BatchSession { requests, loaded, phase, events } = self;
        let ghost new_events = events@.push((self.spec_next_step(), outcome));
        match phase {
            Phase::Enabling => match outcome {
                StepOutcome::Succeeded => {
                    proof {
                        assert(new_events =~= clean_events(0));
                    }
                    BatchSession { requests, loaded, phase: Phase::Loading, events: Ghost(new_events) }
                },
                StepOutcome::Failed(m) => BatchSession {
                    requests,
                    loaded,
                    phase: Phase::Finished(Err(LoadExtensionError::EnableFailed(m))),
                    events: Ghost(new_events),
                },
            },
            Phase::Loading => {
                let len = requests.len();
                match outcome {
                    StepOutcome::Succeeded => {
                        proof {
                            lemma_clean_events_grow(loaded as int);
                            assert(new_events == clean_events(loaded + 1));
                        }
                        if loaded + 1 < len {
                            BatchSession {
                                requests,
                                loaded: loaded + 1,
                                phase: Phase::Loading,
                                events: Ghost(new_events),
                            }
                        } else {
                            BatchSession {
                                requests,
                                loaded: loaded + 1,
                                phase: Phase::Disabling(None),
                                events: Ghost(new_events),
                            }
                        }
                    },
                    StepOutcome::Failed(m) => BatchSession {
                        requests,
                        loaded: loaded + 1,
                        phase: Phase::Disabling(Some(LoadExtensionError::LoadFailed(m))),
                        events: Ghost(new_events),
                    },
                }
            },
            Phase::Disabling(pending) => match pending {
                Some(e) => {
                    proof {
                        assert(new_events.drop_last() =~= events@);
                    }
                    BatchSession {
                        requests,
                        loaded,
                        phase: Phase::Finished(Err(e)),
                        events: Ghost(new_events),
                    }
                },
                None => match outcome {
                    StepOutcome::Succeeded => BatchSession {
                        requests,
                        loaded,
                        phase: Phase::Finished(Ok(())),
                        events: Ghost(new_events),
                    },
                    StepOutcome::Failed(m) => BatchSession {
                        requests,
                        loaded,
                        phase: Phase::Finished(Err(LoadExtensionError::EnableFailed(m))),
                        events: Ghost(new_events),
                    },
                },
            },
            Phase::Finished(_) => vstd::pervasive::unreached(),
        }
    }

    /// Whether the run is over.
    pub fn is_finished(&self) -> (b: bool)
        ensures
            b == (self.phase is Finished),
    {
        match &self.phase {
            Phase::Finished(_) => true,
            _ => false,
        }
    }

    /// Hands out the result of a finished run.
    pub fn finish(self) -> (r: Result<(), LoadExtensionError>)
        requires
            self.phase is Finished,
        ensures
            self.phase matches Phase::Finished(res) && r == res,
    {
        let BatchSession { requests: _requests, loaded: _loaded, phase, events: _events } = self;
        match phase {
            Phase::Finished(res) => res,
            _ => vstd::pervasive::unreached(),
        }
    }

    /// The request at a batch position, for performing its load call.
    pub fn request(&self, i: usize) -> (r: &ExtensionRequest)
        requires
            i < self.requests@.len(),
        ensures
            r == self.requests@[i as int],
    {
        &self.requests[i]
    }

    /// The number of requests in the batch.
    pub fn request_count(&self) -> (c: usize)
        ensures
            c == self.requests@.len(),
    {
        self.requests.len()
    }
}

/// Appending the successful load of request `m` to a clean prefix of `m`
/// loads gives the clean prefix of `m + 1` loads.
proof fn lemma_clean_events_grow(m: int)
    requires
        0 <= m < usize::MAX,
    ensures
        clean_events(m).push((EngineStep::Load(m as usize), StepOutcome::Succeeded))
            =~= clean_events(m + 1),
{
}

/// Starts a guarded batch load. Every request is validated up front: on a
/// malformed batch the first offending request decides the error and no
/// engine call is ever made. An empty batch is trivially successful, with
/// no engine call either — the toggle is never touched. Only a non-empty,
/// fully valid batch yields a session, and a fresh session has issued no
/// engine call yet.
pub fn begin_load_extensions(requests: Vec<ExtensionRequest>) -> (r: Result<
    Option<BatchSession>,
    LoadExtensionError,
>)
    ensures
        requests@.len() == 0 ==> r == Ok::<Option<BatchSession>, LoadExtensionError>(None),
        requests@.len() > 0 ==> match validation_verdict(requests@) {
            Err(e) => r == Err::<Option<BatchSession>, LoadExtensionError>(e),
            Ok(()) => r matches Ok(Some(s)) && s.wf() && s.requests == requests && s.phase
                is Enabling && s.loaded == 0 && s.events@ == Seq::<
                (EngineStep, StepOutcome),
            >::empty(),
        },
{
    if requests.len() == 0 {
        return Ok(None);
    }
    if let Err(e) = crate::requests::validate_requests(&requests) {
        return Err(e);
    }
    Ok(
        Some(
            BatchSession {
                requests,
                loaded: 0,
                phase: Phase::Enabling,
                events: Ghost(Seq::empty()),
            },
        ),
    )
}

/// Starts a guarded load of a single extension: a one-request batch with
/// the same enable/load/disable lifecycle. The path is validated before the
/// entry point, and on a malformed input no engine call is ever made.
pub fn begin_load_extension(path: String, entry_point: Option<String>) -> (r: Result<
    BatchSession,
    LoadExtensionError,
>)
    ensures
        ({
            let req = ExtensionRequest { path, entry_point };
            match req.spec_validate() {
                Err(e) => r == Err::<BatchSession, LoadExtensionError>(e),
                Ok(()) => r matches Ok(s) && s.wf() && s.requests@ == seq![req] && s.phase
                    is Enabling && s.loaded == 0 && s.events@ == Seq::<
                    (EngineStep, StepOutcome),
                >::empty(),
            }
        }),
{
    let req = ExtensionRequest { path, entry_point };
    if let Err(e) = req.validate() {
        return Err(e);
    }
    let mut requests: Vec<ExtensionRequest> = Vec::new();
    requests.push(req);
    proof {
        assert(requests@ =~= seq![req]);
        assert(requests@[0] == req);
    }
    Ok(BatchSession { requests, loaded: 0, phase: Phase::Enabling, events: Ghost(Seq::empty()) })
}

/// Turns the engine's reply to a "set extension-loading flag" call into the
/// operation's outcome: a non-success status becomes `EnableFailed`
/// carrying the engine's diagnostic text. The mapping depends on nothing
/// but the reply, so repeated identical toggles are judged independently.
pub fn toggle_result(outcome: StepOutcome) -> (r: Result<(), LoadExtensionError>)
    ensures
        r == match outcome {
            StepOutcome::Succeeded => Ok::<(), LoadExtensionError>(()),
            StepOutcome::Failed(m) => Err(LoadExtensionError::EnableFailed(m)),
        },
{
    match outcome {
        StepOutcome::Succeeded => Ok(()),
        StepOutcome::Failed(m) => Err(LoadExtensionError::EnableFailed(m)),
    }
}

/// Turns the engine's reply to a raw load call into the call's outcome: a
/// non-success status becomes `LoadFailed` carrying the engine's diagnostic
/// text.
pub fn load_result(outcome: StepOutcome) -> (r: Result<(), LoadExtensionError>)
    ensures
        r == match outcome {
            StepOutcome::Succeeded => Ok::<(), LoadExtensionError>(()),
            StepOutcome::Failed(m) => Err(LoadExtensionError::LoadFailed(m)),
        },
{
    match outcome {
        StepOutcome::Succeeded => Ok(()),
        StepOutcome::Failed(m) => Err(LoadExtensionError::LoadFailed(m)),
    }
}

/// Chooses the diagnostic text for a failed load call: the message the
/// engine wrote into its out-parameter when it wrote one, else the
/// connection's last-error text.
pub fn load_failure_message(engine_message: Option<String>, last_error: String) -> (m: String)
    ensures
        m == match engine_message {
            Some(t) => t,
            None => last_error,
        },
{
    match engine_message {
        Some(t) => t,
        None => last_error,
    }
}

/// The state of the engine's extension-loading flag after a run of engine
/// calls, the flag starting disabled: the last toggle call the engine
/// accepted decides it, a refused toggle leaves it alone, and load calls
/// never change it.
pub open spec fn toggle_after(events: Seq<(EngineStep, StepOutcome)>) -> bool
    decreases events.len(),
{
    if events.len() == 0 {
        false
    } else {
        match events.last() {
            (EngineStep::Toggle(b), StepOutcome::Succeeded) => b,
            _ => toggle_after(events.drop_last()),
        }
    }
}

/// A finished session leaves extension loading disabled, on every exit
/// path: either the engine refused the enable call, so the flag was never
/// engaged, or the history ends with a disable call — so whenever the
/// engine accepted each disable call the session issued, the flag ends
/// disabled.
pub proof fn lemma_finished_toggle_disabled(s: BatchSession)
    requires
        s.wf(),
        s.phase is Finished,
        forall|i: int|
            0 <= i < s.events@.len() && (#[trigger] s.events@[i]).0 == EngineStep::Toggle(false)
                ==> s.events@[i].1 is Succeeded,
    ensures
        !toggle_after(s.events@),
{
    let ev = s.events@;
    match s.phase {
        Phase::Finished(res) => {
            if s.enable_refused_wf(res) {
                assert(ev.last() == ev[0]);
                assert(toggle_after(ev) == toggle_after(ev.drop_last()));
                assert(ev.drop_last().len() == 0);
            } else {
                assert(s.disable_issued_wf(res));
                assert(ev[ev.len() - 1].0 == EngineStep::Toggle(false));
                assert(ev[ev.len() - 1].1 is Succeeded);
            }
        },
        _ => {
            assert(false);
        },
    }
}

/// Stopping at the first failure: when a finished session reports a load
/// failure, the failing load was the last load issued — the engine calls
/// after the accepted enable were the loads of requests `0, 1, ...` in
/// batch order, every load before the failing one succeeded, and no
/// request past the failing one was ever attempted.
pub proof fn lemma_failure_stops_batch(s: BatchSession)
    requires
        s.wf(),
        s.phase matches Phase::Finished(Err(e)) && e is LoadFailed,
    ensures
        1 <= s.loaded <= s.requests@.len(),
        s.events@.len() == s.loaded + 2,
        forall|i: int|
            1 <= i <= s.loaded ==> (#[trigger] s.events@[i]).0 == EngineStep::Load(
                (i - 1) as usize,
            ),
        forall|i: int| 1 <= i < s.loaded ==> (#[trigger] s.events@[i]).1 is Succeeded,
        s.events@[s.loaded as int].1 is Failed,
        forall|i: int|
            0 <= i < s.events@.len() ==> ((#[trigger] s.events@[i]).0 matches EngineStep::Load(j)
                ==> j < s.loaded),
{
    let ev = s.events@;
    let k = s.loaded as int;
    match s.phase {
        Phase::Finished(res) => {
            assert(s.disable_issued_wf(res));
            let prefix = clean_events(k - 1).push(
                (EngineStep::Load((k - 1) as usize), StepOutcome::Failed(res->Err_0->LoadFailed_0)),
            );
            assert(ev.drop_last() == prefix);
            assert forall|i: int| 0 <= i < ev.len() - 1 implies ev[i] == prefix[i] by {
                assert(ev.drop_last()[i] == ev[i]);
            }
            assert forall|i: int| 1 <= i <= k implies (#[trigger] ev[i]).0 == EngineStep::Load(
                (i - 1) as usize,
            ) by {
                if i < k {
                    assert(prefix[i] == clean_events(k - 1)[i]);
                }
            }
            assert forall|i: int| 1 <= i < k implies (#[trigger] ev[i]).1 is Succeeded by {
                assert(prefix[i] == clean_events(k - 1)[i]);
            }
            assert forall|i: int|
                0 <= i < ev.len() implies ((#[trigger] ev[i]).0 matches EngineStep::Load(j) ==> j
                < s.loaded) by {
                if i == 0 || i >= k + 1 {
                    assert(ev[i].0 is Toggle);
                }
            }
        },
        _ => {
            assert(false);
        },
    }
}

/// A successful finished run loaded the whole batch: the engine calls were
/// the accepted enable, the accepted loads of every request in batch
/// order, and the accepted disable — nothing else.
pub proof fn lemma_success_loads_whole_batch(s: BatchSession)
    requires
        s.wf(),
        s.phase matches Phase::Finished(res) && res is Ok,
    ensures
        s.loaded == s.requests@.len(),
        s.events@.len() == s.loaded + 2,
        s.events@[0] == (EngineStep::Toggle(true), StepOutcome::Succeeded),
        s.events@.last() == (EngineStep::Toggle(false), StepOutcome::Succeeded),
        forall|i: int|
            1 <= i <= s.loaded ==> (#[trigger] s.events@[i]) == (
                EngineStep::Load((i - 1) as usize),
                StepOutcome::Succeeded,
            ),
{
    let ev = s.events@;
    let n = s.n();
    match s.phase {
        Phase::Finished(res) => {
            assert(s.disable_issued_wf(res));
            assert(ev == clean_events(n).push((EngineStep::Toggle(false), StepOutcome::Succeeded)));
            assert forall|i: int|
                1 <= i <= s.loaded implies (#[trigger] ev[i]) == (
                EngineStep::Load((i - 1) as usize),
                StepOutcome::Succeeded,
            ) by {
                assert(ev[i] == clean_events(n)[i]);
            }
        },
        _ => {
            assert(false);
        },
    }
}

/// Idempotence of repeated identical toggles: however the run went before,
/// after one accepted toggle call the flag equals the requested state, and
/// a second identical accepted call leaves it there.
pub proof fn lemma_toggle_idempotent(history: Seq<(EngineStep, StepOutcome)>, enabled: bool)
    ensures
        toggle_after(history.push((EngineStep::Toggle(enabled), StepOutcome::Succeeded)))
            == enabled,
        toggle_after(
            history.push((EngineStep::Toggle(enabled), StepOutcome::Succeeded)).push(
                (EngineStep::Toggle(enabled), StepOutcome::Succeeded),
            ),
        ) == enabled,
{
}

} // verus!
