//! Events of the window system, and how a poll of the queue reads them.

use std::collections::VecDeque;
use vstd::prelude::*;

verus! {

/// An event of the window system, reduced to what the renderer reacts to.
#[derive(Clone, Copy, Debug, PartialEq, Eq, Structural)]
pub enum Event {
    /// The user asked to close the window.
    Quit,
    /// Anything else. The renderer discards it.
    Other,
}

/// Whether a poll of `queue` sees a request to close.
pub open spec fn closes(queue: Seq<Event>) -> bool {
    queue.contains(Event::Quit)
}

/// How many events one poll takes from the front of `queue`: all up to and including
/// the first request to close, or all of them where there is none.
pub open spec fn taken_by_poll(queue: Seq<Event>) -> nat
    decreases queue.len(),
{
    if queue.len() == 0 {
        0
    } else if queue[0] == Event::Quit {
        1
    } else {
        1 + taken_by_poll(queue.drop_first())
    }
}

/// What one poll leaves in `queue`.
pub open spec fn left_by_poll(queue: Seq<Event>) -> Seq<Event> {
    queue.skip(taken_by_poll(queue) as int)
}

/// How many requests to close `queue` holds.
pub open spec fn quits(queue: Seq<Event>) -> nat
    decreases queue.len(),
{
    if queue.len() == 0 {
        0
    } else if queue[0] == Event::Quit {
        1 + quits(queue.drop_first())
    } else {
        quits(queue.drop_first())
    }
}

/// A poll stops at the first request to close and nowhere else: it takes no more than
/// the queue holds, nothing that it passes over is a request to close, and it leaves
/// events behind only if the last one taken is such a request.
pub proof fn lemma_poll_stops_at_first_quit(queue: Seq<Event>)
    ensures
        taken_by_poll(queue) <= queue.len(),
        forall|i: int| 0 <= i < taken_by_poll(queue) - 1 ==> queue[i] != Event::Quit,
        closes(queue) ==> taken_by_poll(queue) >= 1 && queue[taken_by_poll(queue) - 1]
            == Event::Quit,
        !closes(queue) ==> taken_by_poll(queue) == queue.len(),
    decreases queue.len(),
{
    if queue.len() == 0 {
    } else if queue[0] == Event::Quit {
    } else {
        let rest = queue.drop_first();
        lemma_poll_stops_at_first_quit(rest);
        assert forall|i: int| 0 <= i < taken_by_poll(queue) - 1 implies queue[i]
            != Event::Quit by {
            if i > 0 {
                assert(queue[i] == rest[i - 1]);
            }
        }
        if closes(queue) {
            let k = choose|k: int| 0 <= k < queue.len() && queue[k] == Event::Quit;
            assert(rest[k - 1] == Event::Quit);
            assert(queue[taken_by_poll(queue) - 1] == rest[taken_by_poll(rest) - 1]);
        } else {
            assert forall|i: int| 0 <= i < rest.len() implies rest[i] != Event::Quit by {
                assert(queue[i + 1] == rest[i]);
            }
        }
    }
}

/// An event at the front that is no request to close is passed over: the poll goes on
/// as if the queue began behind it.
pub proof fn lemma_other_event_is_passed_over(queue: Seq<Event>)
    requires
        queue.len() > 0,
        queue[0] != Event::Quit,
    ensures
        closes(queue) == closes(queue.drop_first()),
        left_by_poll(queue) == left_by_poll(queue.drop_first()),
{
    let rest = queue.drop_first();
    lemma_poll_stops_at_first_quit(rest);
    assert(left_by_poll(queue) =~= left_by_poll(rest));
    if closes(queue) {
        let k = choose|k: int| 0 <= k < queue.len() && queue[k] == Event::Quit;
        assert(rest[k - 1] == Event::Quit);
    }
    if closes(rest) {
        let k = choose|k: int| 0 <= k < rest.len() && rest[k] == Event::Quit;
        assert(queue[k + 1] == Event::Quit);
    }
}

/// Every request to close is seen by exactly one poll: a poll sees one if and only if
/// the queue holds one, a poll that sees one leaves one fewer behind, and a poll that
/// sees none leaves nothing behind.
pub proof fn lemma_each_quit_is_seen_once(queue: Seq<Event>)
    ensures
        closes(queue) <==> quits(queue) > 0,
        closes(queue) ==> quits(left_by_poll(queue)) + 1 == quits(queue),
        !closes(queue) ==> left_by_poll(queue) == Seq::<Event>::empty(),
    decreases queue.len(),
{
    if queue.len() == 0 {
        assert(left_by_poll(queue) =~= Seq::<Event>::empty());
    } else if queue[0] == Event::Quit {
        assert(left_by_poll(queue) =~= queue.drop_first());
    } else {
        lemma_other_event_is_passed_over(queue);
        lemma_each_quit_is_seen_once(queue.drop_first());
    }
}

/// When a request to close joins a queue that holds none, the next poll sees it and
/// empties the queue, and the poll after that sees nothing.
pub proof fn lemma_quit_is_seen_once(queue: Seq<Event>)
    requires
        !closes(queue),
    ensures
        closes(queue.push(Event::Quit)),
        left_by_poll(queue.push(Event::Quit)) == Seq::<Event>::empty(),
        !closes(left_by_poll(queue.push(Event::Quit))),
{
    let pushed = queue.push(Event::Quit);
    assert(pushed[queue.len() as int] == Event::Quit);
    lemma_poll_stops_at_first_quit(pushed);
    let taken = taken_by_poll(pushed);
    if taken < pushed.len() {
        assert(pushed[taken - 1] == queue[taken - 1]);
        assert(queue.contains(Event::Quit));
    }
    assert(left_by_poll(pushed) =~= Seq::<Event>::empty());
}

/// A poll of an empty queue sees nothing and leaves it empty.
pub proof fn lemma_empty_queue_stays_open()
    ensures
        !closes(Seq::<Event>::empty()),
        left_by_poll(Seq::<Event>::empty()) == Seq::<Event>::empty(),
{
    assert(left_by_poll(Seq::<Event>::empty()) =~= Seq::<Event>::empty());
}

/// Polls `queue` once: takes events from its front until a request to close has been
/// taken or none is left, and tells which it was.
pub(crate) fn poll(queue: &mut VecDeque<Event>) -> (closing: bool)
    ensures
        closing == closes(old(queue)@),
        final(queue)@ == left_by_poll(old(queue)@),
        old(queue)@.len() == 0 ==> !closing,
{
    loop
        invariant
            closes(queue@) == closes(old(queue)@),
            left_by_poll(queue@) == left_by_poll(old(queue)@),
        decreases queue@.len(),
    {
        let ghost current = queue@;
        match queue.pop_front() {
            None => {
                assert(left_by_poll(current) =~= current);
                assert(!closes(current));
                return false;
            },
            Some(Event::Quit) => {
                assert(current[0] == Event::Quit);
                assert(left_by_poll(current) =~= queue@);
                return true;
            },
            Some(Event::Other) => {
                assert(queue@ =~= current.drop_first());
                proof {
                    lemma_other_event_is_passed_over(current);
                }
            },
        }
    }
}

} // verus!
