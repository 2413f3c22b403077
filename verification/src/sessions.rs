//! Several sessions emitting into one bus.
//!
//! Sessions share nothing but the bus, and the bus takes emissions in the
//! order in which they are made. This module states what that means for
//! any interleaving of the sessions' events: each session's emissions
//! appear on the bus exactly as if it were alone, and every text frame
//! gives one `camera-frame`.

use vstd::prelude::*;
use crate::relay::{
    emitted, ends_session, law_every_text_frame_once, payloads_of, state_after,
    texts_arrive_while_active, texts_of, trace, EmissionView, EventView, FrameView, SessionState,
};

verus! {

/// The items tagged with `session`, in order, without their tags.
pub open spec fn of_session<T>(tagged: Seq<(nat, T)>, session: nat) -> Seq<T>
    decreases tagged.len(),
{
    if tagged.len() == 0 {
        Seq::empty()
    } else if tagged.last().0 == session {
        of_session(tagged.drop_last(), session).push(tagged.last().1)
    } else {
        of_session(tagged.drop_last(), session)
    }
}

/// What the bus sees when the events, each tagged with its session, are
/// handled in the given order by sessions that all start at the handshake.
/// Each emission carries the tag of the session that made it.
pub open spec fn bus_trace(events: Seq<(nat, EventView)>) -> Seq<(nat, EmissionView)>
    decreases events.len(),
{
    if events.len() == 0 {
        Seq::empty()
    } else {
        let before = events.drop_last();
        let (session, event) = events.last();
        let state = state_after(SessionState::Upgrading, of_session(before, session));
        match emitted(state, event) {
            Some(emission) => bus_trace(before).push((session, emission)),
            None => bus_trace(before),
        }
    }
}

/// How many `camera-frame` emissions the bus saw, from all sessions.
pub open spec fn frame_count(bus: Seq<(nat, EmissionView)>) -> nat
    decreases bus.len(),
{
    if bus.len() == 0 {
        0
    } else if bus.last().1 is CameraFrame {
        frame_count(bus.drop_last()) + 1
    } else {
        frame_count(bus.drop_last())
    }
}

/// How many text frames arrived, over all sessions.
pub open spec fn text_count(events: Seq<(nat, EventView)>) -> nat
    decreases events.len(),
{
    if events.len() == 0 {
        0
    } else if events.last().1 matches EventView::Received(FrameView::Text(_)) {
        text_count(events.drop_last()) + 1
    } else {
        text_count(events.drop_last())
    }
}

/// What a transport reports for one connection that it upgraded: the
/// upgrade comes first, and nothing comes after the event that ends the
/// session.
pub open spec fn orderly(events: Seq<EventView>) -> bool {
    &&& events.len() > 0 ==> events[0] == EventView::Upgraded
    &&& forall|i: int| 0 <= i < events.len() - 1 ==> !ends_session(#[trigger] events[i])
}

/// Whatever the interleaving, the emissions of one session appear on the
/// bus as that session alone would have made them: the same emissions in
/// the same order.
pub proof fn law_sessions_keep_their_order(events: Seq<(nat, EventView)>, session: nat)
    ensures
        of_session(bus_trace(events), session) == trace(
            SessionState::Upgrading,
            of_session(events, session),
        ),
    decreases events.len(),
{
    if events.len() > 0 {
        let before = events.drop_last();
        let (origin, event) = events.last();
        law_sessions_keep_their_order(before, session);
        let state = state_after(SessionState::Upgrading, of_session(before, origin));
        if origin == session {
            assert(of_session(events, session).drop_last() =~= of_session(before, session));
        }
        match emitted(state, event) {
            Some(emission) => {
                assert(bus_trace(events).drop_last() =~= bus_trace(before));
            },
            None => {},
        }
    }
}

/// After an orderly run of events a session is active if the last event
/// did not end it, and closed if it did.
pub proof fn law_orderly_state(events: Seq<EventView>)
    requires
        orderly(events),
        events.len() > 0,
    ensures
        state_after(SessionState::Upgrading, events) == (if ends_session(events.last()) {
            SessionState::Closed
        } else {
            SessionState::Active
        }),
    decreases events.len(),
{
    let before = events.drop_last();
    if before.len() > 0 {
        law_orderly_state(before);
    } else {
        assert(state_after(SessionState::Upgrading, before) == SessionState::Upgrading);
    }
}

/// In an orderly run of events every text frame arrives while the session
/// is active.
pub proof fn law_orderly_is_relayed(events: Seq<EventView>)
    requires
        orderly(events),
    ensures
        texts_arrive_while_active(SessionState::Upgrading, events),
{
    assert forall|i: int|
        0 <= i < events.len() && (#[trigger] events[i] matches EventView::Received(
            FrameView::Text(_),
        )) implies state_after(SessionState::Upgrading, events.take(i))
        == SessionState::Active by {
        let earlier = events.take(i);
        assert(events[0] == EventView::Upgraded);
        assert(i > 0);
        assert(orderly(earlier)) by {
            assert(earlier[0] == events[0]);
            assert forall|j: int| 0 <= j < earlier.len() - 1 implies !ends_session(
                #[trigger] earlier[j],
            ) by {
                assert(earlier[j] == events[j]);
            }
        }
        law_orderly_state(earlier);
        assert(earlier.last() == events[i - 1]);
        assert(!ends_session(events[i - 1]));
    }
}

/// With any number of sessions at once and whatever the interleaving: where
/// a session's text frames arrive while it is active, the `camera-frame`
/// emissions it puts on the bus carry the payloads of its text frames, in
/// the order in which it received them.
pub proof fn law_concurrent_order(events: Seq<(nat, EventView)>, session: nat)
    requires
        texts_arrive_while_active(SessionState::Upgrading, of_session(events, session)),
    ensures
        payloads_of(of_session(bus_trace(events), session)) == texts_of(
            of_session(events, session),
        ),
{
    law_sessions_keep_their_order(events, session);
    law_every_text_frame_once(SessionState::Upgrading, of_session(events, session));
}

/// With any number of sessions at once and whatever the interleaving: where
/// each session's text frames arrive while it is active, the bus sees
/// exactly as many `camera-frame` emissions as text frames arrived.
pub proof fn law_concurrent_count(events: Seq<(nat, EventView)>)
    requires
        forall|session: nat|
            texts_arrive_while_active(
                SessionState::Upgrading,
                #[trigger] of_session(events, session),
            ),
    ensures
        frame_count(bus_trace(events)) == text_count(events),
    decreases events.len(),
{
    if events.len() > 0 {
        let before = events.drop_last();
        let (origin, event) = events.last();
        assert forall|session: nat|
            texts_arrive_while_active(
                SessionState::Upgrading,
                #[trigger] of_session(before, session),
            ) by {
            let whole = of_session(events, session);
            let part = of_session(before, session);
            assert(texts_arrive_while_active(SessionState::Upgrading, whole));
            if session == origin {
                assert(whole.drop_last() =~= part);
                assert forall|i: int|
                    0 <= i < part.len() && (#[trigger] part[i] matches EventView::Received(
                        FrameView::Text(_),
                    )) implies state_after(SessionState::Upgrading, part.take(i))
                    == SessionState::Active by {
                    assert(part[i] == whole[i]);
                    assert(part.take(i) =~= whole.take(i));
                }
            }
        }
        law_concurrent_count(before);
        let earlier = of_session(before, origin);
        let whole = of_session(events, origin);
        let state = state_after(SessionState::Upgrading, earlier);
        if event matches EventView::Received(FrameView::Text(_)) {
            assert(whole[whole.len() - 1] == event);
            assert(whole.take(whole.len() - 1) =~= earlier);
        }
        match emitted(state, event) {
            Some(emission) => {
                assert(bus_trace(events).drop_last() =~= bus_trace(before));
            },
            None => {},
        }
    }
}

} // verus!
