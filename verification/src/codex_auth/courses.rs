//! Whole refreshes and logouts, over what the credential store holds.

use vstd::prelude::*;

use crate::codex_auth::oauth::FlowError;
use crate::codex_auth::storage::{AuthStatus, RefreshUpdate, StorageError};
use crate::codex_auth::{
    logout_step, refresh_step, told, Logout, LogoutEvent, Refresh, RefreshEvent,
};

verus! {

/// What the credential store holds: what it says of itself, and the token for a refresh.
pub ghost struct Held {
    pub status: AuthStatus,
    pub refresh_token: Seq<char>,
}

/// How the store takes the tokens of a refresh.
pub type Renewal = spec_fn(Held, RefreshUpdate) -> Held;

/// The store counts on, and stays signed in or not as it was.
pub open spec fn counts_on(renew: Renewal, held: Held) -> bool {
    forall|update: RefreshUpdate|
        {
            let after = #[trigger] renew(held, update);
            &&& after.status.auth_generation == held.status.auth_generation + 1
            &&& after.status.authenticated == held.status.authenticated
        }
}

/// `event` answers `task`: a store that works does what it is asked, and holds `after`
/// then. What is sent to the account's server changes nothing in the store, and may come
/// back as anything.
pub open spec fn answers_refresh(
    renew: Renewal,
    held: Held,
    task: Refresh,
    event: RefreshEvent,
    after: Held,
) -> bool {
    match task {
        Refresh::Lock => (event matches RefreshEvent::Locked(Ok(_))) && after == held,
        Refresh::TakeSnapshot => {
            &&& event matches RefreshEvent::Snapshot(Ok(snapshot))
            &&& snapshot.auth_generation == held.status.auth_generation
            &&& snapshot.refresh_token@ == held.refresh_token
            &&& after == held
        },
        Refresh::ReadStatus => event == RefreshEvent::Status(Ok(held.status)) && after == held,
        Refresh::Refresh(_) => event is Refreshed && after == held,
        Refresh::Commit(update) => {
            &&& after == renew(held, update)
            &&& event == RefreshEvent::Committed(Ok(after.status))
        },
        Refresh::Finish(_) => false,
    }
}

/// `events[i]` answers what was asked after the event before it.
pub open spec fn is_refresh_step(
    renew: Renewal,
    expected_generation: u64,
    events: Seq<RefreshEvent>,
    held: Seq<Held>,
    i: int,
) -> bool {
    answers_refresh(
        renew,
        held[i - 1],
        refresh_step(expected_generation, events[i - 1]),
        events[i],
        held[i],
    )
}

/// A refresh from its start to its end. `held[i]` is what the store holds after
/// `events[i]`. The lock keeps every other refresh out until the end.
pub open spec fn is_refresh(
    renew: Renewal,
    expected_generation: u64,
    events: Seq<RefreshEvent>,
    held: Seq<Held>,
) -> bool {
    &&& events.len() > 0
    &&& held.len() == events.len()
    &&& (events[0] matches RefreshEvent::Transport(Ok(_)))
    &&& forall|i: int|
        0 < i < events.len() ==> #[trigger] is_refresh_step(
            renew,
            expected_generation,
            events,
            held,
            i,
        )
    &&& refresh_step(expected_generation, events.last()) is Finish
}

/// What was sent to the account's server, in order.
pub open spec fn sent(expected_generation: u64, events: Seq<RefreshEvent>) -> Seq<Seq<char>>
    decreases events.len(),
{
    if events.len() == 0 {
        Seq::empty()
    } else {
        let before = sent(expected_generation, events.drop_last());
        match refresh_step(expected_generation, events.last()) {
            Refresh::Refresh(token) => before.push(token),
            _ => before,
        }
    }
}

/// What a refresh reports.
pub open spec fn refresh_result(expected_generation: u64, events: Seq<RefreshEvent>) -> Result<
    AuthStatus,
    FlowError,
> {
    refresh_step(expected_generation, events.last())->Finish_0
}

/// How a refresh of the generation that the store holds goes.
proof fn lemma_current_generation(
    renew: Renewal,
    expected_generation: u64,
    events: Seq<RefreshEvent>,
    held: Seq<Held>,
)
    requires
        is_refresh(renew, expected_generation, events, held),
        held[0].status.auth_generation == expected_generation,
    ensures
        events.len() >= 4,
        events[0] is Transport && events[1] is Locked && events[2] is Snapshot,
        events[3] is Refreshed,
        sent(expected_generation, events) == seq![held[0].refresh_token],
        events[3] matches RefreshEvent::Refreshed(Err(error)) ==> events.len() == 4 && held[3]
            == held[0],
        events[3] matches RefreshEvent::Refreshed(Ok(update)) ==> events.len() == 5 && held[4]
            == renew(held[0], update) && events[4] == RefreshEvent::Committed(Ok(held[4].status)),
{
    assert(events.len() > 1);
    assert(is_refresh_step(renew, expected_generation, events, held, 1));
    assert(events[1] matches RefreshEvent::Locked(Ok(_)));
    assert(events.len() > 2);
    assert(is_refresh_step(renew, expected_generation, events, held, 2));
    assert(events[2] matches RefreshEvent::Snapshot(Ok(snapshot))
        && snapshot.refresh_token@ == held[0].refresh_token);
    assert(events.len() > 3);
    assert(is_refresh_step(renew, expected_generation, events, held, 3));
    assert(events[3] is Refreshed);
    if events.len() > 4 {
        assert(is_refresh_step(renew, expected_generation, events, held, 4));
        assert(events[4] is Committed);
        if events.len() > 5 {
            assert(!is_refresh_step(renew, expected_generation, events, held, 5));
        }
    }
    reveal_with_fuel(sent, 6);
    assert(sent(expected_generation, events) =~= seq![held[0].refresh_token]);
}

/// How a refresh of a generation that the store has left goes.
proof fn lemma_past_generation(
    renew: Renewal,
    expected_generation: u64,
    events: Seq<RefreshEvent>,
    held: Seq<Held>,
)
    requires
        is_refresh(renew, expected_generation, events, held),
        held[0].status.auth_generation != expected_generation,
    ensures
        events.len() == 4,
        events[0] is Transport && events[1] is Locked && events[2] is Snapshot,
        held[3] == held[0],
        events[3] == RefreshEvent::Status(Ok(held[0].status)),
        sent(expected_generation, events) == Seq::<Seq<char>>::empty(),
{
    assert(events.len() > 1);
    assert(is_refresh_step(renew, expected_generation, events, held, 1));
    assert(events[1] matches RefreshEvent::Locked(Ok(_)));
    assert(events.len() > 2);
    assert(is_refresh_step(renew, expected_generation, events, held, 2));
    assert(events[2] is Snapshot);
    assert(events.len() > 3);
    assert(is_refresh_step(renew, expected_generation, events, held, 3));
    assert(events[3] == RefreshEvent::Status(Ok(held[0].status)));
    if events.len() > 4 {
        assert(!is_refresh_step(renew, expected_generation, events, held, 4));
    }
    reveal_with_fuel(sent, 5);
    assert(sent(expected_generation, events) =~= Seq::<Seq<char>>::empty());
}

/// Two callers that saw the same generation refresh it once. The one that gets the lock
/// first sends the stored token, and stores what comes back; the other one then sends
/// nothing. Both report the next generation.
pub proof fn law_two_callers_refresh_once(
    renew: Renewal,
    expected_generation: u64,
    first: Seq<RefreshEvent>,
    first_held: Seq<Held>,
    second: Seq<RefreshEvent>,
    second_held: Seq<Held>,
)
    requires
        is_refresh(renew, expected_generation, first, first_held),
        is_refresh(renew, expected_generation, second, second_held),
        first_held[0].status.auth_generation == expected_generation,
        second_held[0] == first_held.last(),
        counts_on(renew, first_held[0]),
        forall|i: int|
            0 <= i < first.len() ==> !(#[trigger] first[i] matches RefreshEvent::Refreshed(Err(_))),
    ensures
        sent(expected_generation, first) == seq![first_held[0].refresh_token],
        sent(expected_generation, second) == Seq::<Seq<char>>::empty(),
        refresh_result(expected_generation, first) matches Ok(status)
            && status.auth_generation == expected_generation + 1,
        refresh_result(expected_generation, second) == refresh_result(expected_generation, first),
        second_held.last() == first_held.last(),
{
    lemma_current_generation(renew, expected_generation, first, first_held);
    assert(!(first[3] matches RefreshEvent::Refreshed(Err(_))));
    lemma_past_generation(renew, expected_generation, second, second_held);
}

/// A refresh that the account's server refuses reports that error, and leaves the store as
/// it was: the generation, and whether somebody is signed in.
pub proof fn law_failed_refresh_keeps_the_store(
    renew: Renewal,
    expected_generation: u64,
    events: Seq<RefreshEvent>,
    held: Seq<Held>,
    i: int,
)
    requires
        is_refresh(renew, expected_generation, events, held),
        0 <= i < events.len(),
        events[i] matches RefreshEvent::Refreshed(Err(_)),
    ensures
        sent(expected_generation, events) == seq![held[0].refresh_token],
        events[i] matches RefreshEvent::Refreshed(Err(error)) && refresh_result(
            expected_generation,
            events,
        ) == Err::<AuthStatus, FlowError>(error@),
        held.last() == held[0],
{
    if held[0].status.auth_generation == expected_generation {
        lemma_current_generation(renew, expected_generation, events, held);
    } else {
        lemma_past_generation(renew, expected_generation, events, held);
    }
}

/// How the store forgets a login: what it says, and what it holds then.
pub type Removal = spec_fn(Held) -> (Result<AuthStatus, StorageError>, Held);

/// The store counts on, and nobody is signed in.
pub open spec fn signs_out(remove: Removal, held: Held) -> bool {
    let (answer, after) = remove(held);
    &&& answer == Ok::<AuthStatus, StorageError>(after.status)
    &&& !after.status.authenticated
    &&& after.status.auth_generation == held.status.auth_generation + 1
}

/// `event` answers `task`. Whether there is a token to revoke, and what becomes of it, is
/// left open.
pub open spec fn answers_logout(
    remove: Removal,
    held: Held,
    task: Logout,
    event: LogoutEvent,
    after: Held,
) -> bool {
    match task {
        Logout::FindToken => event is Token && after == held,
        Logout::Revoke(_) => event is Revoked && after == held,
        Logout::Commit => {
            &&& event == LogoutEvent::Committed(remove(held).0)
            &&& after == remove(held).1
        },
        Logout::Finish(_) => false,
    }
}

/// `events[i]` answers what was asked after the event before it.
pub open spec fn is_logout_step(
    remove: Removal,
    can_revoke: bool,
    events: Seq<LogoutEvent>,
    held: Seq<Held>,
    i: int,
) -> bool {
    answers_logout(
        remove,
        held[i - 1],
        logout_step(can_revoke, events[i - 1]),
        events[i],
        held[i],
    )
}

/// A logout from its start to its end. `held[i]` is what the store holds after `events[i]`.
pub open spec fn is_logout(
    remove: Removal,
    can_revoke: bool,
    events: Seq<LogoutEvent>,
    held: Seq<Held>,
) -> bool {
    &&& events.len() > 0
    &&& held.len() == events.len()
    &&& (events[0] matches LogoutEvent::Locked(Ok(_)))
    &&& forall|i: int|
        0 < i < events.len() ==> #[trigger] is_logout_step(remove, can_revoke, events, held, i)
    &&& logout_step(can_revoke, events.last()) is Finish
}

/// What a logout reports.
pub open spec fn logout_result(can_revoke: bool, events: Seq<LogoutEvent>) -> Result<
    AuthStatus,
    FlowError,
> {
    logout_step(can_revoke, events.last())->Finish_0
}

/// How many revocations are sent.
pub open spec fn revocations(can_revoke: bool, events: Seq<LogoutEvent>) -> nat
    decreases events.len(),
{
    if events.len() == 0 {
        0
    } else {
        revocations(can_revoke, events.drop_last()) + (if logout_step(can_revoke, events.last())
            is Revoke {
            1nat
        } else {
            0nat
        })
    }
}

/// How a logout goes.
proof fn lemma_logout(remove: Removal, can_revoke: bool, events: Seq<LogoutEvent>, held: Seq<Held>)
    requires
        is_logout(remove, can_revoke, events, held),
    ensures
        logout_result(can_revoke, events) == told(remove(held[0]).0),
        held.last() == remove(held[0]).1,
        revocations(can_revoke, events) <= 1,
        !can_revoke ==> revocations(can_revoke, events) == 0,
{
    reveal_with_fuel(revocations, 5);
    assert(events.len() > 1);
    if can_revoke {
        assert(is_logout_step(remove, can_revoke, events, held, 1));
        assert(events[1] is Token);
        assert(events.len() > 2);
        if logout_step(can_revoke, events[1]) is Revoke {
            assert(is_logout_step(remove, can_revoke, events, held, 2));
            assert(events[2] is Revoked);
            assert(events.len() > 3);
            assert(is_logout_step(remove, can_revoke, events, held, 3));
            assert(events[3] is Committed);
            if events.len() > 4 {
                assert(!is_logout_step(remove, can_revoke, events, held, 4));
            }
        } else {
            assert(is_logout_step(remove, can_revoke, events, held, 2));
            assert(events[2] is Committed);
            if events.len() > 3 {
                assert(!is_logout_step(remove, can_revoke, events, held, 3));
            }
        }
    } else {
        assert(is_logout_step(remove, can_revoke, events, held, 1));
        assert(events[1] is Committed);
        if events.len() > 2 {
            assert(!is_logout_step(remove, can_revoke, events, held, 2));
        }
    }
}

/// A logout that tries to revoke a token and one that does not report the same and leave
/// the same behind: whether there is a token, and whether its revocation succeeds, does not
/// show. At most one revocation is sent. Over a store that works, nobody is signed in then.
pub proof fn law_revocation_does_not_show(
    remove: Removal,
    revoking: Seq<LogoutEvent>,
    revoking_held: Seq<Held>,
    local: Seq<LogoutEvent>,
    local_held: Seq<Held>,
)
    requires
        is_logout(remove, true, revoking, revoking_held),
        is_logout(remove, false, local, local_held),
        revoking_held[0] == local_held[0],
    ensures
        logout_result(true, revoking) == logout_result(false, local),
        revoking_held.last() == local_held.last(),
        revocations(true, revoking) <= 1,
        revocations(false, local) == 0,
        signs_out(remove, local_held[0]) ==> {
            &&& logout_result(true, revoking) == Ok::<AuthStatus, FlowError>(
                revoking_held.last().status,
            )
            &&& !revoking_held.last().status.authenticated
            &&& revoking_held.last().status.auth_generation
                == local_held[0].status.auth_generation + 1
        },
{
    lemma_logout(remove, true, revoking, revoking_held);
    lemma_logout(remove, false, local, local_held);
}

} // verus!
