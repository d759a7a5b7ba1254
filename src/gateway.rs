use vstd::prelude::*;

use crate::envelope::Envelope;
use crate::error::ClientError;

verus! {

/// Where one fetch stands.
#[derive(Clone, Copy, Debug, PartialEq, Eq, Structural)]
pub enum FetchPhase {
    /// Not started.
    Ready,
    /// The first GET is out.
    AwaitingFirst,
    /// The first answer reported an expired session; a login is running.
    AwaitingLogin,
    /// The single retry GET is out.
    AwaitingRetry,
    /// The fetch has delivered or failed; it asks for nothing more.
    Finished,
}

/// What happened, as the fetch sees it.
pub ghost enum FetchEvent {
    Begin,
    /// A response was read; `expired` tells whether it bears the expiry marker.
    Responded { expired: bool },
    /// The GET failed with this error.
    Failed(ClientError),
    /// The login asked for has ended with this outcome.
    LoginDone(Result<(), ClientError>),
}

/// What the fetch asks for next, as the laws count it.
pub ghost enum FetchAction {
    Get,
    Login,
    Deliver,
    Fail(ClientError),
    Idle,
}

/// What the fetch asks its driver to do next.
pub enum FetchStep {
    /// Send the GET.
    Get,
    /// Run the login flow, then report its outcome.
    Login,
    /// Hand this payload to the caller.
    Deliver(Envelope),
    /// Fail the fetch with this error.
    Fail(ClientError),
    /// Nothing to do: the event did not fit the phase.
    Idle,
}

impl FetchStep {
    pub open spec fn action(&self) -> FetchAction {
        match self {
            FetchStep::Get => FetchAction::Get,
            FetchStep::Login => FetchAction::Login,
            FetchStep::Deliver(_) => FetchAction::Deliver,
            FetchStep::Fail(e) => FetchAction::Fail(*e),
            FetchStep::Idle => FetchAction::Idle,
        }
    }
}

/// One transition: the next phase and the action asked for.
pub open spec fn next(phase: FetchPhase, event: FetchEvent) -> (FetchPhase, FetchAction) {
    match (phase, event) {
        (FetchPhase::Ready, FetchEvent::Begin) => (FetchPhase::AwaitingFirst, FetchAction::Get),
        (FetchPhase::AwaitingFirst, FetchEvent::Responded { expired }) => if expired {
            (FetchPhase::AwaitingLogin, FetchAction::Login)
        } else {
            (FetchPhase::Finished, FetchAction::Deliver)
        },
        (FetchPhase::AwaitingLogin, FetchEvent::LoginDone(outcome)) => match outcome {
            Ok(_) => (FetchPhase::AwaitingRetry, FetchAction::Get),
            Err(e) => (FetchPhase::Finished, FetchAction::Fail(e)),
        },
        (FetchPhase::AwaitingRetry, FetchEvent::Responded { expired }) => if expired {
            (FetchPhase::Finished, FetchAction::Fail(ClientError::AuthenticationFailed))
        } else {
            (FetchPhase::Finished, FetchAction::Deliver)
        },
        (FetchPhase::AwaitingFirst, FetchEvent::Failed(e)) => (FetchPhase::Finished, FetchAction::Fail(e)),
        (FetchPhase::AwaitingRetry, FetchEvent::Failed(e)) => (FetchPhase::Finished, FetchAction::Fail(e)),
        _ => (phase, FetchAction::Idle),
    }
}

/// The actions asked for when the events arrive one after another from `phase`.
pub open spec fn trace(phase: FetchPhase, events: Seq<FetchEvent>) -> Seq<FetchAction>
    decreases events.len(),
{
    if events.len() == 0 {
        Seq::empty()
    } else {
        let (p, a) = next(phase, events[0]);
        seq![a] + trace(p, events.drop_first())
    }
}

/// The number of GETs among `actions`.
pub open spec fn gets(actions: Seq<FetchAction>) -> nat
    decreases actions.len(),
{
    if actions.len() == 0 {
        0
    } else {
        (if actions[0] is Get { 1nat } else { 0nat }) + gets(actions.drop_first())
    }
}

/// The number of logins among `actions`.
pub open spec fn logins(actions: Seq<FetchAction>) -> nat
    decreases actions.len(),
{
    if actions.len() == 0 {
        0
    } else {
        (if actions[0] is Login { 1nat } else { 0nat }) + logins(actions.drop_first())
    }
}

/// `n` idle actions.
pub open spec fn idles(n: nat) -> Seq<FetchAction> {
    Seq::new(n, |i: int| FetchAction::Idle)
}

/// The event a GET outcome stands for.
pub open spec fn response_event(response: Result<Envelope, ClientError>) -> FetchEvent {
    match response {
        Ok(e) => FetchEvent::Responded { expired: e.is_expired() },
        Err(err) => FetchEvent::Failed(err),
    }
}

/// The decisions of one fetch: issue the GET, and when the answer reports an
/// expired session, have the driver log in once and retry once.
pub struct FetchCall {
    phase: FetchPhase,
}

impl FetchCall {
    pub closed spec fn spec_phase(&self) -> FetchPhase {
        self.phase
    }

    pub fn new() -> (r: FetchCall)
        ensures
            r.spec_phase() == FetchPhase::Ready,
    {
        FetchCall { phase: FetchPhase::Ready }
    }

    pub fn phase(&self) -> (r: FetchPhase)
        ensures
            r == self.spec_phase(),
    {
        self.phase
    }

    /// Starts the fetch.
    pub fn start(&mut self) -> (r: FetchStep)
        ensures
            (final(self).spec_phase(), r.action()) == next(old(self).spec_phase(), FetchEvent::Begin),
    {
        if self.phase == FetchPhase::Ready {
            self.phase = FetchPhase::AwaitingFirst;
            FetchStep::Get
        } else {
            FetchStep::Idle
        }
    }

    /// Takes the outcome of the GET that was asked for. A payload that is
    /// delivered is the one given here.
    pub fn on_response(&mut self, response: Result<Envelope, ClientError>) -> (r: FetchStep)
        ensures
            (final(self).spec_phase(), r.action()) == next(old(self).spec_phase(), response_event(response)),
            r is Deliver ==> response is Ok && r->Deliver_0 == response->Ok_0,
    {
        match self.phase {
            FetchPhase::AwaitingFirst => match response {
                Ok(envelope) => {
                    if envelope.expired() {
                        self.phase = FetchPhase::AwaitingLogin;
                        FetchStep::Login
                    } else {
                        self.phase = FetchPhase::Finished;
                        FetchStep::Deliver(envelope)
                    }
                },
                Err(e) => {
                    self.phase = FetchPhase::Finished;
                    FetchStep::Fail(e)
                },
            },
            FetchPhase::AwaitingRetry => {
                self.phase = FetchPhase::Finished;
                match response {
                    Ok(envelope) => {
                        if envelope.expired() {
                            FetchStep::Fail(ClientError::AuthenticationFailed)
                        } else {
                            FetchStep::Deliver(envelope)
                        }
                    },
                    Err(e) => FetchStep::Fail(e),
                }
            },
            _ => FetchStep::Idle,
        }
    }

    /// Reports how the login asked for has ended. After a login that went
    /// through the retry GET is asked for; its answer alone shows whether the
    /// server took the credentials. A failed login ends the fetch with its error.
    pub fn on_login_finished(&mut self, outcome: Result<(), ClientError>) -> (r: FetchStep)
        ensures
            (final(self).spec_phase(), r.action()) == next(old(self).spec_phase(), FetchEvent::LoginDone(outcome)),
    {
        if self.phase != FetchPhase::AwaitingLogin {
            return FetchStep::Idle;
        }
        match outcome {
            Ok(()) => {
                self.phase = FetchPhase::AwaitingRetry;
                FetchStep::Get
            },
            Err(e) => {
                self.phase = FetchPhase::Finished;
                FetchStep::Fail(e)
            },
        }
    }
}

proof fn lemma_counts_prepend(a: FetchAction, s: Seq<FetchAction>)
    ensures
        gets(seq![a] + s) == (if a is Get { 1nat } else { 0nat }) + gets(s),
        logins(seq![a] + s) == (if a is Login { 1nat } else { 0nat }) + logins(s),
{
    assert((seq![a] + s).drop_first() =~= s);
}

proof fn lemma_counts_idles(n: nat)
    ensures
        gets(idles(n)) == 0,
        logins(idles(n)) == 0,
    decreases n,
{
    if n > 0 {
        assert(idles(n).drop_first() =~= idles((n - 1) as nat));
        lemma_counts_idles((n - 1) as nat);
    }
}

/// Once finished, a fetch asks for nothing, whatever arrives.
pub proof fn lemma_finished_stays_idle(events: Seq<FetchEvent>)
    ensures
        trace(FetchPhase::Finished, events) == idles(events.len()),
    decreases events.len(),
{
    if events.len() > 0 {
        lemma_finished_stays_idle(events.drop_first());
        assert(trace(FetchPhase::Finished, events) =~= idles(events.len()));
    }
}

/// The GETs a fetch may still send from `phase`.
pub open spec fn get_budget(phase: FetchPhase) -> nat {
    match phase {
        FetchPhase::Ready => 2,
        FetchPhase::AwaitingFirst => 1,
        FetchPhase::AwaitingLogin => 1,
        _ => 0,
    }
}

/// The logins a fetch may still ask for from `phase`.
pub open spec fn login_budget(phase: FetchPhase) -> nat {
    match phase {
        FetchPhase::Ready | FetchPhase::AwaitingFirst => 1,
        _ => 0,
    }
}

/// Whatever the events, a fetch sends at most two GETs and asks for at most
/// one login: it retries once and never loops.
pub proof fn lemma_retry_at_most_once(phase: FetchPhase, events: Seq<FetchEvent>)
    ensures
        gets(trace(phase, events)) <= get_budget(phase),
        logins(trace(phase, events)) <= login_budget(phase),
    decreases events.len(),
{
    if events.len() > 0 {
        let (p, a) = next(phase, events[0]);
        lemma_retry_at_most_once(p, events.drop_first());
        lemma_counts_prepend(a, trace(p, events.drop_first()));
    }
}

/// Whether every response among `events` bears the expiry marker, and no GET
/// and no login failed.
pub open spec fn all_expired(events: Seq<FetchEvent>) -> bool {
    forall|i: int|
        0 <= i < events.len() ==> match #[trigger] events[i] {
            FetchEvent::Responded { expired } => expired,
            FetchEvent::Failed(_) => false,
            FetchEvent::LoginDone(outcome) => outcome is Ok,
            _ => true,
        }
}

/// When every answer reports an expired session, whatever order the events
/// come in, nothing is ever delivered and the only failure is
/// `AuthenticationFailed`.
pub proof fn lemma_expired_never_delivers(phase: FetchPhase, events: Seq<FetchEvent>)
    requires
        all_expired(events),
    ensures
        forall|j: int|
            0 <= j < trace(phase, events).len() ==> !(#[trigger] trace(phase, events)[j] is Deliver)
                && (trace(phase, events)[j] is Fail ==> trace(phase, events)[j]
                == FetchAction::Fail(ClientError::AuthenticationFailed)),
    decreases events.len(),
{
    if events.len() > 0 {
        let (p, a) = next(phase, events[0]);
        let tail = events.drop_first();
        assert(all_expired(tail)) by {
            assert forall|i: int| 0 <= i < tail.len() implies match #[trigger] tail[i] {
                FetchEvent::Responded { expired } => expired,
                FetchEvent::Failed(_) => false,
                FetchEvent::LoginDone(outcome) => outcome is Ok,
                _ => true,
            } by {
                assert(tail[i] == events[i + 1]);
            }
        }
        assert(match events[0] {
            FetchEvent::Responded { expired } => expired,
            FetchEvent::Failed(_) => false,
            FetchEvent::LoginDone(outcome) => outcome is Ok,
            _ => true,
        });
        lemma_expired_never_delivers(p, tail);
        let t = trace(phase, events);
        assert(t == seq![a] + trace(p, tail));
        assert forall|j: int| 0 <= j < t.len() implies !(#[trigger] t[j] is Deliver) && (t[j] is Fail ==> t[j]
            == FetchAction::Fail(ClientError::AuthenticationFailed)) by {
            if j > 0 {
                assert(t[j] == trace(p, tail)[j - 1]);
            }
        }
    }
}

/// The four events of a fetch whose first answer reports an expired session
/// and whose login goes through, the retry's answer reporting an expired
/// session or not, followed by anything.
pub open spec fn expired_then(second_expired: bool, rest: Seq<FetchEvent>) -> Seq<FetchEvent> {
    seq![
        FetchEvent::Begin,
        FetchEvent::Responded { expired: true },
        FetchEvent::LoginDone(Ok(())),
        FetchEvent::Responded { expired: second_expired },
    ] + rest
}

proof fn lemma_expired_run(second_expired: bool, rest: Seq<FetchEvent>)
    ensures
        trace(FetchPhase::Ready, expired_then(second_expired, rest)) == seq![
            FetchAction::Get,
            FetchAction::Login,
            FetchAction::Get,
            if second_expired {
                FetchAction::Fail(ClientError::AuthenticationFailed)
            } else {
                FetchAction::Deliver
            },
        ] + idles(rest.len()),
{
    let e0 = expired_then(second_expired, rest);
    let e1 = e0.drop_first();
    let e2 = e1.drop_first();
    let e3 = e2.drop_first();
    let e4 = e3.drop_first();
    assert(e4 =~= rest);
    lemma_finished_stays_idle(rest);
    let last = if second_expired {
        FetchAction::Fail(ClientError::AuthenticationFailed)
    } else {
        FetchAction::Deliver
    };
    assert(trace(FetchPhase::AwaitingRetry, e3) =~= seq![last] + idles(rest.len()));
    assert(trace(FetchPhase::AwaitingLogin, e2) =~= seq![FetchAction::Get, last] + idles(rest.len()));
    assert(trace(FetchPhase::AwaitingFirst, e1) =~= seq![FetchAction::Login, FetchAction::Get, last]
        + idles(rest.len()));
    assert(trace(FetchPhase::Ready, e0) =~= seq![FetchAction::Get, FetchAction::Login, FetchAction::Get, last]
        + idles(rest.len()));
}

proof fn lemma_counts_of_run(s: Seq<FetchAction>, n: nat)
    ensures
        gets(s + idles(n)) == gets(s),
        logins(s + idles(n)) == logins(s),
    decreases s.len(),
{
    if s.len() == 0 {
        assert(s + idles(n) =~= idles(n));
        lemma_counts_idles(n);
    } else {
        lemma_counts_of_run(s.drop_first(), n);
        assert((s + idles(n)).drop_first() =~= s.drop_first() + idles(n));
    }
}

/// When every answer reports an expired session, the fetch logs in exactly
/// once, sends exactly two GETs and fails with `AuthenticationFailed`;
/// whatever arrives afterwards asks for nothing more.
pub proof fn lemma_expired_every_time(rest: Seq<FetchEvent>)
    ensures
        trace(FetchPhase::Ready, expired_then(true, rest)) == seq![
            FetchAction::Get,
            FetchAction::Login,
            FetchAction::Get,
            FetchAction::Fail(ClientError::AuthenticationFailed),
        ] + idles(rest.len()),
        gets(trace(FetchPhase::Ready, expired_then(true, rest))) == 2,
        logins(trace(FetchPhase::Ready, expired_then(true, rest))) == 1,
{
    lemma_expired_run(true, rest);
    let s = seq![
        FetchAction::Get,
        FetchAction::Login,
        FetchAction::Get,
        FetchAction::Fail(ClientError::AuthenticationFailed),
    ];
    lemma_counts_of_run(s, rest.len());
    assert(gets(s) == 2 && logins(s) == 1) by {
        reveal_with_fuel(gets, 5);
        reveal_with_fuel(logins, 5);
    }
}

/// When the first answer reports an expired session and the retry does not,
/// the fetch logs in exactly once and delivers the retry's payload.
pub proof fn lemma_recovers_after_login(rest: Seq<FetchEvent>)
    ensures
        trace(FetchPhase::Ready, expired_then(false, rest)) == seq![
            FetchAction::Get,
            FetchAction::Login,
            FetchAction::Get,
            FetchAction::Deliver,
        ] + idles(rest.len()),
        gets(trace(FetchPhase::Ready, expired_then(false, rest))) == 2,
        logins(trace(FetchPhase::Ready, expired_then(false, rest))) == 1,
{
    lemma_expired_run(false, rest);
    let s = seq![FetchAction::Get, FetchAction::Login, FetchAction::Get, FetchAction::Deliver];
    lemma_counts_of_run(s, rest.len());
    assert(gets(s) == 2 && logins(s) == 1) by {
        reveal_with_fuel(gets, 5);
        reveal_with_fuel(logins, 5);
    }
}

/// When the first answer does not report an expired session, the fetch sends
/// one GET, asks for no login and delivers that answer.
pub proof fn lemma_fast_path(rest: Seq<FetchEvent>)
    ensures
        trace(FetchPhase::Ready, seq![FetchEvent::Begin, FetchEvent::Responded { expired: false }] + rest)
            == seq![FetchAction::Get, FetchAction::Deliver] + idles(rest.len()),
        gets(trace(FetchPhase::Ready, seq![FetchEvent::Begin, FetchEvent::Responded { expired: false }] + rest)) == 1,
        logins(trace(FetchPhase::Ready, seq![FetchEvent::Begin, FetchEvent::Responded { expired: false }] + rest)) == 0,
{
    let e0 = seq![FetchEvent::Begin, FetchEvent::Responded { expired: false }] + rest;
    let e1 = e0.drop_first();
    assert(e1.drop_first() =~= rest);
    lemma_finished_stays_idle(rest);
    assert(trace(FetchPhase::AwaitingFirst, e1) =~= seq![FetchAction::Deliver] + idles(rest.len()));
    assert(trace(FetchPhase::Ready, e0) =~= seq![FetchAction::Get, FetchAction::Deliver] + idles(rest.len()));
    let s = seq![FetchAction::Get, FetchAction::Deliver];
    lemma_counts_of_run(s, rest.len());
    assert(gets(s) == 1 && logins(s) == 0) by {
        reveal_with_fuel(gets, 3);
        reveal_with_fuel(logins, 3);
    }
}

/// When the login fails, the fetch surfaces that error at once: one GET, one
/// login, no retry.
pub proof fn lemma_failed_login_surfaces(e: ClientError, rest: Seq<FetchEvent>)
    ensures
        trace(FetchPhase::Ready, seq![
            FetchEvent::Begin,
            FetchEvent::Responded { expired: true },
            FetchEvent::LoginDone(Err(e)),
        ] + rest) == seq![FetchAction::Get, FetchAction::Login, FetchAction::Fail(e)] + idles(rest.len()),
{
    let e0 = seq![
        FetchEvent::Begin,
        FetchEvent::Responded { expired: true },
        FetchEvent::LoginDone(Err(e)),
    ] + rest;
    let e1 = e0.drop_first();
    let e2 = e1.drop_first();
    assert(e2.drop_first() =~= rest);
    lemma_finished_stays_idle(rest);
    assert(trace(FetchPhase::AwaitingLogin, e2) =~= seq![FetchAction::Fail(e)] + idles(rest.len()));
    assert(trace(FetchPhase::AwaitingFirst, e1) =~= seq![FetchAction::Login, FetchAction::Fail(e)]
        + idles(rest.len()));
    assert(trace(FetchPhase::Ready, e0) =~= seq![FetchAction::Get, FetchAction::Login, FetchAction::Fail(e)]
        + idles(rest.len()));
}

} // verus!
