use vstd::prelude::*;
use crate::error::ClientError;

verus! {

/// The credential a request is signed with.
#[derive(Debug, Clone)]
pub struct AccessToken {
    pub access: String,
}

/// What a response carried as its `WWW-Authenticate` header.
#[derive(Debug, Clone)]
pub enum AuthHeader {
    Absent,
    Text(String),
    /// Present, but not valid header text.
    Undecodable,
}

/// The `Authorization` header value for an access value.
pub open spec fn bearer_text(access: Seq<char>) -> Seq<char> {
    "Bearer "@ + access
}

/// What a rejected credential's challenge starts with.
pub open spec fn invalid_token_marker() -> Seq<char> {
    "Bearer error=\"invalid_token\""@
}

/// How a response is classified: a non-200 status whose challenge header
/// starts with the invalid-token marker is a rejected credential; a non-200
/// status with an unreadable challenge header is a decode failure; anything
/// else is a normal response.
pub open spec fn response_outcome(status: u16, header: AuthHeader) -> Result<(), ClientError> {
    if status == 200 {
        Ok(())
    } else {
        match header {
            AuthHeader::Absent => Ok(()),
            AuthHeader::Undecodable => Err(ClientError::HeaderDecode),
            AuthHeader::Text(t) => if invalid_token_marker().is_prefix_of(t@) {
                Err(ClientError::InvalidToken)
            } else {
                Ok(())
            },
        }
    }
}

/// The `Authorization` header value that carries the token.
pub fn authorization_value(token: &AccessToken) -> (r: String)
    ensures
        r@ == bearer_text(token.access@),
{
    proof {
        reveal_strlit("Bearer ");
    }
    let mut r = String::from_str("Bearer ");
    r.append(token.access.as_str());
    r
}

/// The diagnostic line for a request: method, URL and body text.
pub open spec fn debug_text(method: Seq<char>, url: Seq<char>, body: Seq<char>) -> Seq<char> {
    "["@ + method + "] "@ + url + " | "@ + body
}

/// Writes the diagnostic line for a request.
pub fn debug_line(method: &str, url: &str, body: &str) -> (r: String)
    ensures
        r@ == debug_text(method@, url@, body@),
{
    proof {
        reveal_strlit("[");
        reveal_strlit("] ");
        reveal_strlit(" | ");
    }
    let mut r = String::from_str("[");
    r.append(method);
    r.append("] ");
    r.append(url);
    r.append(" | ");
    r.append(body);
    r
}

fn has_prefix(s: &str, prefix: &str) -> (r: bool)
    ensures
        r == prefix@.is_prefix_of(s@),
{
    let n = prefix.unicode_len();
    let m = s.unicode_len();
    if n > m {
        return false;
    }
    let mut i: usize = 0;
    while i < n
        invariant
            n == prefix@.len(),
            m == s@.len(),
            n <= m,
            i <= n,
            forall|j: int| 0 <= j < i ==> prefix@[j] == s@[j],
        decreases n - i,
    {
        if prefix.get_char(i) != s.get_char(i) {
            return false;
        }
        i = i + 1;
    }
    assert(s@.subrange(0, n as int) =~= prefix@);
    true
}

/// Classifies a response by its status and its `WWW-Authenticate` header.
pub fn check_response(status: u16, header: &AuthHeader) -> (r: Result<(), ClientError>)
    ensures
        r == response_outcome(status, *header),
{
    if status == 200 {
        return Ok(());
    }
    match header {
        AuthHeader::Absent => Ok(()),
        AuthHeader::Undecodable => Err(ClientError::HeaderDecode),
        AuthHeader::Text(t) => {
            proof {
                reveal_strlit("Bearer error=\"invalid_token\"");
            }
            if has_prefix(t.as_str(), "Bearer error=\"invalid_token\"") {
                Err(ClientError::InvalidToken)
            } else {
                Ok(())
            }
        },
    }
}

/// A non-200 response whose challenge starts with the invalid-token marker,
/// whatever follows it, is a rejected credential; the same status without
/// that header, or status 200 whatever the header, is a normal response.
pub proof fn lemma_invalid_token_detection(status: u16, challenge: String)
    ensures
        status != 200 && invalid_token_marker().is_prefix_of(challenge@) ==> response_outcome(
            status,
            AuthHeader::Text(challenge),
        ) == Err::<(), ClientError>(ClientError::InvalidToken),
        response_outcome(status, AuthHeader::Absent) == Ok::<(), ClientError>(()),
        response_outcome(200, AuthHeader::Text(challenge)) == Ok::<(), ClientError>(()),
        response_outcome(200, AuthHeader::Undecodable) == Ok::<(), ClientError>(()),
{
}

/// Where one dispatch stands.
#[derive(Debug, Clone, Copy, PartialEq, Eq, Structural)]
pub enum DispatchPhase {
    /// Nothing done yet.
    Idle,
    /// Waiting for the refresher to finish with the token store.
    Refreshing,
    /// Waiting for the current access value to be read from the token store.
    ReadingToken,
    /// Waiting for the transport's answer.
    Sending,
    /// Finished.
    Done,
}

/// What the surroundings report to a dispatch.
#[derive(Debug, Clone)]
pub enum DispatchEvent {
    /// The caller starts the dispatch.
    Begin,
    /// The refresher returned successfully.
    Refreshed,
    /// The refresher failed.
    RefreshFailed,
    /// The token store was read.
    TokenRead(AccessToken),
    /// The transport answered with a status and a challenge header.
    Responded(u16, AuthHeader),
    /// The transport failed.
    TransportFailed,
}

/// What a dispatch asks its surroundings to do next.
#[derive(Debug)]
pub enum DispatchAction {
    /// Take exclusive access to the token store and run the refresher.
    Refresh,
    /// Take shared access to the token store and read the access value.
    ReadToken,
    /// Send the request with this `Authorization` header value.
    Send(String),
    /// Hand the outcome to the caller.
    Finish(Result<(), ClientError>),
    /// The event does not apply here: nothing to do.
    Wait,
}

/// One step of a dispatch: from `phase`, on `event`, the next phase is
/// `next` and the action is `action`. A configured refresher runs first; the
/// token store is read only after it returned; the read value signs the
/// request; the answer is classified by `response_outcome`.
pub open spec fn step_holds(
    has_refresher: bool,
    phase: DispatchPhase,
    event: DispatchEvent,
    next: DispatchPhase,
    action: DispatchAction,
) -> bool {
    match event {
        DispatchEvent::Begin => if phase == DispatchPhase::Idle {
            if has_refresher {
                next == DispatchPhase::Refreshing && action is Refresh
            } else {
                next == DispatchPhase::ReadingToken && action is ReadToken
            }
        } else {
            next == phase && action is Wait
        },
        DispatchEvent::Refreshed => if phase == DispatchPhase::Refreshing {
            next == DispatchPhase::ReadingToken && action is ReadToken
        } else {
            next == phase && action is Wait
        },
        DispatchEvent::RefreshFailed => if phase == DispatchPhase::Refreshing {
            next == DispatchPhase::Done && action == DispatchAction::Finish(
                Err(ClientError::Auth),
            )
        } else {
            next == phase && action is Wait
        },
        DispatchEvent::TokenRead(t) => if phase == DispatchPhase::ReadingToken {
            next == DispatchPhase::Sending && match action {
                DispatchAction::Send(h) => h@ == bearer_text(t.access@),
                _ => false,
            }
        } else {
            next == phase && action is Wait
        },
        DispatchEvent::Responded(status, header) => if phase == DispatchPhase::Sending {
            next == DispatchPhase::Done && action == DispatchAction::Finish(
                response_outcome(status, header),
            )
        } else {
            next == phase && action is Wait
        },
        DispatchEvent::TransportFailed => if phase == DispatchPhase::Sending {
            next == DispatchPhase::Done && action == DispatchAction::Finish(
                Err(ClientError::Transport),
            )
        } else {
            next == phase && action is Wait
        },
    }
}

/// Decides the next phase and action of a dispatch.
pub fn dispatch_step(has_refresher: bool, phase: DispatchPhase, event: DispatchEvent) -> (r: (
    DispatchPhase,
    DispatchAction,
))
    ensures
        step_holds(has_refresher, phase, event, r.0, r.1),
{
    match event {
        DispatchEvent::Begin => {
            if phase == DispatchPhase::Idle {
                if has_refresher {
                    (DispatchPhase::Refreshing, DispatchAction::Refresh)
                } else {
                    (DispatchPhase::ReadingToken, DispatchAction::ReadToken)
                }
            } else {
                (phase, DispatchAction::Wait)
            }
        },
        DispatchEvent::Refreshed => {
            if phase == DispatchPhase::Refreshing {
                (DispatchPhase::ReadingToken, DispatchAction::ReadToken)
            } else {
                (phase, DispatchAction::Wait)
            }
        },
        DispatchEvent::RefreshFailed => {
            if phase == DispatchPhase::Refreshing {
                (DispatchPhase::Done, DispatchAction::Finish(Err(ClientError::Auth)))
            } else {
                (phase, DispatchAction::Wait)
            }
        },
        DispatchEvent::TokenRead(t) => {
            if phase == DispatchPhase::ReadingToken {
                (DispatchPhase::Sending, DispatchAction::Send(authorization_value(&t)))
            } else {
                (phase, DispatchAction::Wait)
            }
        },
        DispatchEvent::Responded(status, header) => {
            if phase == DispatchPhase::Sending {
                (DispatchPhase::Done, DispatchAction::Finish(check_response(status, &header)))
            } else {
                (phase, DispatchAction::Wait)
            }
        },
        DispatchEvent::TransportFailed => {
            if phase == DispatchPhase::Sending {
                (DispatchPhase::Done, DispatchAction::Finish(Err(ClientError::Transport)))
            } else {
                (phase, DispatchAction::Wait)
            }
        },
    }
}

/// A run of a dispatch from `Idle`: `phases[i]` is where it stood before
/// `events[i]`, and `actions[i]` what that event led to.
pub open spec fn is_run(
    has_refresher: bool,
    events: Seq<DispatchEvent>,
    phases: Seq<DispatchPhase>,
    actions: Seq<DispatchAction>,
) -> bool {
    &&& phases.len() == events.len() + 1
    &&& actions.len() == events.len()
    &&& phases[0] == DispatchPhase::Idle
    &&& forall|i: int|
        0 <= i < events.len() ==> #[trigger] step_holds(
            has_refresher,
            phases[i],
            events[i],
            phases[i + 1],
            actions[i],
        )
}

proof fn lemma_left_idle_after_refresh(
    events: Seq<DispatchEvent>,
    phases: Seq<DispatchPhase>,
    actions: Seq<DispatchAction>,
    k: int,
)
    requires
        is_run(true, events, phases, actions),
        0 <= k <= events.len(),
    ensures
        phases[k] != DispatchPhase::Idle ==> exists|j: int| 0 <= j < k && #[trigger] actions[j] is Refresh,
    decreases k,
{
    if k > 0 {
        lemma_left_idle_after_refresh(events, phases, actions, k - 1);
        let p = k - 1;
        assert(step_holds(true, phases[p], events[p], phases[p + 1], actions[p]));
        if phases[k - 1] == DispatchPhase::Idle && phases[k] != DispatchPhase::Idle {
            assert(actions[k - 1] is Refresh);
        }
    }
}

/// With a refresher configured, every read of the token store in a run of a
/// dispatch comes after the refresher was asked to run, and only once it has
/// returned; and every request is sent only after such a read.
pub proof fn lemma_refresh_before_token_read(
    events: Seq<DispatchEvent>,
    phases: Seq<DispatchPhase>,
    actions: Seq<DispatchAction>,
    i: int,
)
    requires
        is_run(true, events, phases, actions),
        0 <= i < events.len(),
    ensures
        actions[i] is ReadToken ==> events[i] is Refreshed && phases[i]
            == DispatchPhase::Refreshing && exists|j: int| 0 <= j < i && #[trigger] actions[j] is Refresh,
        actions[i] is Send ==> events[i] is TokenRead && phases[i] == DispatchPhase::ReadingToken,
{
    assert(step_holds(true, phases[i], events[i], phases[i + 1], actions[i]));
    lemma_left_idle_after_refresh(events, phases, actions, i);
}

} // verus!
