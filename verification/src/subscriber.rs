//! The link subscriber's decisions.
//!
//! After a successful connect, a background reader owns the receive side
//! of the transport and loops: read one frame, then act on the outcome.
//! The reader performs the blocking read and the sleep; this module makes
//! the decision for each outcome, and failure is two-tiered — a transient
//! "no data yet" condition is waited out, a fatal transport error ends the
//! reader, and a decode failure of one frame is skipped without ever
//! ending the loop.

use vstd::prelude::*;

use crate::msg::MessageHeader;
use crate::msg::TelemetryMessage;

verus! {

/// The outcome of one attempt to read a frame from the transport.
#[derive(Clone, Copy, PartialEq, Debug)]
pub enum ReadOutcome {
    /// A frame was decoded: its sender header and message.
    Frame(MessageHeader, TelemetryMessage),
    /// No data is currently available; not an error.
    TransientEmpty,
    /// The transport failed; the link is considered dead.
    Fatal,
    /// One frame could not be decoded; not a transport failure.
    DecodeFailure,
}

/// What the reader does with one read outcome.
#[derive(Clone, Copy, PartialEq, Debug)]
pub enum SubscriberAction {
    /// Forward the message to the session's event channel.
    Forward(MessageHeader, TelemetryMessage),
    /// Sleep briefly, then try again.
    Sleep,
    /// End the reader; no automatic reconnect.
    Stop,
    /// Skip this frame and read the next one.
    Ignore,
}

/// The reader's decision for one read outcome: a decoded frame is
/// forwarded, a transient empty read is waited out, a fatal transport
/// error ends the reader, and a decode failure is skipped.
pub open spec fn spec_subscriber_step(outcome: ReadOutcome) -> SubscriberAction {
    match outcome {
        ReadOutcome::Frame(header, msg) => SubscriberAction::Forward(header, msg),
        ReadOutcome::TransientEmpty => SubscriberAction::Sleep,
        ReadOutcome::Fatal => SubscriberAction::Stop,
        ReadOutcome::DecodeFailure => SubscriberAction::Ignore,
    }
}

/// Decide what to do with one read outcome.
pub fn subscriber_step(outcome: ReadOutcome) -> (action: SubscriberAction)
    ensures
        action == spec_subscriber_step(outcome),
{
    match outcome {
        ReadOutcome::Frame(header, msg) => SubscriberAction::Forward(header, msg),
        ReadOutcome::TransientEmpty => SubscriberAction::Sleep,
        ReadOutcome::Fatal => SubscriberAction::Stop,
        ReadOutcome::DecodeFailure => SubscriberAction::Ignore,
    }
}

/// The telemetry events a run of the reader forwards for a sequence of
/// read outcomes: every decoded frame up to the first fatal error, in
/// order; transient and decode conditions forward nothing.
pub open spec fn spec_forwarded(outcomes: Seq<ReadOutcome>) -> Seq<(MessageHeader, TelemetryMessage)>
    decreases outcomes.len(),
{
    if outcomes.len() == 0 {
        Seq::empty()
    } else {
        match outcomes.first() {
            ReadOutcome::Frame(header, msg) => seq![(header, msg)] + spec_forwarded(
                outcomes.drop_first(),
            ),
            ReadOutcome::Fatal => Seq::empty(),
            _ => spec_forwarded(outcomes.drop_first()),
        }
    }
}

/// Whether a sequence of read outcomes ends the reader.
pub open spec fn spec_stopped(outcomes: Seq<ReadOutcome>) -> bool
    decreases outcomes.len(),
{
    if outcomes.len() == 0 {
        false
    } else {
        match outcomes.first() {
            ReadOutcome::Fatal => true,
            _ => spec_stopped(outcomes.drop_first()),
        }
    }
}

/// One run of the reader loop over a finite sequence of read outcomes:
/// act on each outcome in order until the sequence is exhausted or a
/// fatal error ends the reader.  Returns the forwarded events and whether
/// the reader ended.  Decode failures never end the run.
pub fn collect_telemetry_events(outcomes: &Vec<ReadOutcome>) -> (r: (
    Vec<(MessageHeader, TelemetryMessage)>,
    bool,
))
    ensures
        r.0@ == spec_forwarded(outcomes@),
        r.1 == spec_stopped(outcomes@),
{
    let mut events: Vec<(MessageHeader, TelemetryMessage)> = Vec::new();
    let mut i: usize = 0;
    proof {
        assert(outcomes@.skip(0) =~= outcomes@);
        assert(events@ + spec_forwarded(outcomes@) =~= spec_forwarded(outcomes@));
    }
    loop
        invariant
            i <= outcomes@.len(),
            spec_forwarded(outcomes@) == events@ + spec_forwarded(outcomes@.skip(i as int)),
            spec_stopped(outcomes@) == spec_stopped(outcomes@.skip(i as int)),
        ensures
            spec_forwarded(outcomes@) == events@ + spec_forwarded(outcomes@.skip(i as int)),
            spec_stopped(outcomes@) == spec_stopped(outcomes@.skip(i as int)),
            i == outcomes@.len() || outcomes@[i as int] is Fatal,
        decreases outcomes@.len() - i,
    {
        if i >= outcomes.len() {
            break;
        }
        proof {
            assert(outcomes@.skip(i as int).first() == outcomes@[i as int]);
            assert(outcomes@.skip(i as int).drop_first() =~= outcomes@.skip(i + 1));
        }
        match subscriber_step(outcomes[i]) {
            SubscriberAction::Forward(header, msg) => {
                events.push((header, msg));
            },
            SubscriberAction::Sleep => {},
            SubscriberAction::Ignore => {},
            SubscriberAction::Stop => {
                break;
            },
        }
        i += 1;
    }
    proof {
        if i == outcomes@.len() {
            assert(outcomes@.skip(i as int) =~= Seq::empty());
        } else {
            assert(outcomes@.skip(i as int).first() == outcomes@[i as int]);
        }
    }
    let stopped = i < outcomes.len();
    (events, stopped)
}

} // verus!
