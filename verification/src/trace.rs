//! What holds of every sequence of events that a driver can report.

use vstd::prelude::*;
use crate::error::DeviceError;
use crate::link::Command;
use crate::reading::{be16, decoded, CountReading};
use crate::session::{next_phase, pending, run, Action, Event, Phase};

verus! {

/// Whether `event`, reported as the answer to step `step` of a cycle, lets the
/// cycle go on.
pub open spec fn advances(step: int, event: Event) -> bool {
    if step == 0 {
        event == Event::Opened
    } else if step == 1 {
        event == (Event::Sent { written: 2 })
    } else if step == 2 {
        event == Event::Paused
    } else if step == 3 {
        event == Event::Cleared
    } else if step == 4 {
        event is Sent
    } else if step == 5 {
        true
    } else if step == 6 {
        event == Event::Paused
    } else if step == 7 {
        event == (Event::Available { count: 2 })
    } else if step == 8 {
        event is Received && event->bytes@.len() == 2
    } else {
        false
    }
}

/// Whether every event of the sequence let the cycle go on.
pub open spec fn on_course(events: Seq<Event>) -> bool {
    forall|i: int| 0 <= i < events.len() ==> advances(i, #[trigger] events[i])
}

/// Reporting one more event takes one more step.
pub proof fn lemma_run_step(phase: Phase, events: Seq<Event>, event: Event)
    ensures
        run(phase, events.push(event)) == next_phase(run(phase, events), event),
{
    assert(events.push(event).drop_last() =~= events);
}

/// Events reported in two batches lead where they lead when reported as one.
pub proof fn lemma_run_concat(phase: Phase, first: Seq<Event>, second: Seq<Event>)
    ensures
        run(phase, first + second) == run(run(phase, first), second),
    decreases second.len(),
{
    if second.len() == 0 {
        assert(first + second =~= first);
    } else {
        lemma_run_concat(phase, first, second.drop_last());
        assert((first + second).drop_last() =~= first + second.drop_last());
    }
}

/// A cycle that is over stays as it ended, whatever is reported afterwards.
pub proof fn lemma_ended_is_final(phase: Phase, events: Seq<Event>)
    requires
        phase.ended(),
    ensures
        run(phase, events) == phase,
    decreases events.len(),
{
    if events.len() > 0 {
        lemma_ended_is_final(phase, events.drop_last());
    }
}

/// While a cycle is running, the number of events reported tells its phase,
/// and every one of them let it go on.
pub proof fn lemma_running_trace(events: Seq<Event>)
    requires
        !run(Phase::Opening, events).ended(),
    ensures
        events.len() == run(Phase::Opening, events).rank(),
        on_course(events),
    decreases events.len(),
{
    if events.len() > 0 {
        let before = events.drop_last();
        if run(Phase::Opening, before).ended() {
            lemma_ended_is_final(run(Phase::Opening, before), seq![events.last()]);
            lemma_run_concat(Phase::Opening, before, seq![events.last()]);
            assert(before + seq![events.last()] =~= events);
        }
        lemma_running_trace(before);
        assert forall|i: int| 0 <= i < events.len() implies advances(i, #[trigger] events[i]) by {
            if i < before.len() {
                assert(events[i] == before[i]);
            }
        }
    }
}

/// A cycle ends with a reading only along one course: the link opened, the
/// terminate command written in full, the pause, the buffers cleared, the
/// query written, the flush, the pause, two bytes available, two bytes read.
/// The reading is the number that those two bytes denote, the high byte first.
pub proof fn lemma_done_trace(events: Seq<Event>, reading: CountReading)
    requires
        run(Phase::Opening, events) == Phase::Done(reading),
    ensures
        events.len() >= 9,
        on_course(events.subrange(0, 9)),
        events[8] is Received,
        events[8]->bytes@.len() == 2,
        reading.cpm as int == be16(events[8]->bytes@[0], events[8]->bytes@[1]),
    decreases events.len(),
{
    let before = events.drop_last();
    if run(Phase::Opening, before).ended() {
        lemma_ended_is_final(run(Phase::Opening, before), seq![events.last()]);
        lemma_run_concat(Phase::Opening, before, seq![events.last()]);
        assert(before + seq![events.last()] =~= events);
        lemma_done_trace(before, reading);
        assert(before.subrange(0, 9) =~= events.subrange(0, 9));
    } else {
        lemma_running_trace(before);
        assert(run(Phase::Opening, before) == Phase::Receiving);
        assert(events.len() == 9);
        assert forall|i: int| 0 <= i < 9 implies advances(
            i,
            #[trigger] events.subrange(0, 9)[i],
        ) by {
            if i < 8 {
                assert(events[i] == before[i]);
            }
        }
    }
}

/// A terminate command that was not written in full ends the cycle with
/// `ShortWrite`, whatever is reported afterwards: the driver is told to
/// finish, and the query command is never asked for.
pub proof fn lemma_short_write_aborts(written: usize, rest: Seq<Event>, pause_millis: u64)
    requires
        written != 2,
    ensures
        run(Phase::Opening, seq![Event::Opened, Event::Sent { written }] + rest) == Phase::Failed(
            DeviceError::ShortWrite,
        ),
        pending(
            run(Phase::Opening, seq![Event::Opened, Event::Sent { written }] + rest),
            pause_millis,
        ) == Action::Finish(Err(DeviceError::ShortWrite)),
{
    let head = seq![Event::Opened, Event::Sent { written }];
    let none = Seq::<Event>::empty();
    lemma_run_step(Phase::Opening, none, Event::Opened);
    lemma_run_step(Phase::Opening, none.push(Event::Opened), Event::Sent { written });
    assert(none.push(Event::Opened).push(Event::Sent { written }) =~= head);
    lemma_run_concat(Phase::Opening, head, rest);
    lemma_ended_is_final(Phase::Failed(DeviceError::ShortWrite), rest);
}

/// The query command is asked for only once the terminate command has been
/// written in full.
pub proof fn lemma_query_follows_full_terminate(events: Seq<Event>, pause_millis: u64)
    requires
        pending(run(Phase::Opening, events), pause_millis) == Action::Send(Command::Query),
    ensures
        events.len() == 4,
        events[1] == (Event::Sent { written: 2 }),
{
    lemma_running_trace(events);
    assert(advances(1, events[1]));
}

/// When the device has anything but two bytes ready, the cycle ends with
/// `UnexpectedResponseLength`, whatever is reported afterwards: the driver is
/// told to finish, and no read is asked for.
pub proof fn lemma_wrong_length_aborts(
    events: Seq<Event>,
    count: usize,
    rest: Seq<Event>,
    pause_millis: u64,
)
    requires
        run(Phase::Opening, events) == Phase::Counting,
        count != 2,
    ensures
        run(Phase::Opening, events.push(Event::Available { count }) + rest) == Phase::Failed(
            DeviceError::UnexpectedResponseLength { got: count },
        ),
        pending(
            run(Phase::Opening, events.push(Event::Available { count }) + rest),
            pause_millis,
        ) == Action::Finish(Err(DeviceError::UnexpectedResponseLength { got: count })),
{
    let failed = Phase::Failed(DeviceError::UnexpectedResponseLength { got: count });
    lemma_run_step(Phase::Opening, events, Event::Available { count });
    lemma_run_concat(Phase::Opening, events.push(Event::Available { count }), rest);
    lemma_ended_is_final(failed, rest);
}

/// A read is asked for only once exactly two bytes were reported available.
pub proof fn lemma_read_follows_two_available(events: Seq<Event>, pause_millis: u64)
    requires
        pending(run(Phase::Opening, events), pause_millis) is Receive,
    ensures
        events.len() == 8,
        events[7] == (Event::Available { count: 2 }),
{
    lemma_running_trace(events);
    assert(advances(7, events[7]));
}

/// A reply of any length but two, if one is read after all, is refused and
/// not decoded.
pub proof fn lemma_wrong_reply_refused(bytes: Vec<u8>)
    requires
        bytes@.len() != 2,
    ensures
        next_phase(Phase::Receiving, Event::Received { bytes }) == Phase::Failed(
            DeviceError::UnexpectedResponseLength { got: bytes@.len() as usize },
        ),
        decoded(bytes@) is Err,
{
}

/// No cycle takes more than nine steps: once nine events are reported, it is
/// over.
pub proof fn lemma_cycle_ends_in_nine(events: Seq<Event>)
    requires
        events.len() >= 9,
    ensures
        run(Phase::Opening, events).ended(),
{
    if !run(Phase::Opening, events).ended() {
        lemma_running_trace(events);
    }
}

/// As long as every event lets the cycle go on, the cycle is still running
/// and stands at the step that the number of events tells.
pub proof fn lemma_course_is_running(events: Seq<Event>)
    requires
        on_course(events),
        events.len() <= 8,
    ensures
        !run(Phase::Opening, events).ended(),
        run(Phase::Opening, events).rank() == events.len(),
    decreases events.len(),
{
    if events.len() > 0 {
        let before = events.drop_last();
        assert forall|i: int| 0 <= i < before.len() implies advances(i, #[trigger] before[i]) by {
            assert(before[i] == events[i]);
        }
        lemma_course_is_running(before);
        assert(advances(events.len() - 1, events[events.len() - 1]));
    }
}

/// Nine events that each let the cycle go on end it with the reading that the
/// two bytes read denote.
pub proof fn lemma_course_is_done(events: Seq<Event>)
    requires
        on_course(events),
        events.len() == 9,
    ensures
        run(Phase::Opening, events) == Phase::Done(
            CountReading { cpm: be16(events[8]->bytes@[0], events[8]->bytes@[1]) as u16 },
        ),
{
    let before = events.drop_last();
    assert forall|i: int| 0 <= i < before.len() implies advances(i, #[trigger] before[i]) by {
        assert(before[i] == events[i]);
    }
    lemma_course_is_running(before);
    assert(advances(8, events[8]));
}

} // verus!
