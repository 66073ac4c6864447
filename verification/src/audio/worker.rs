//! The loop of the boost worker: it is told what came of its last action and says what to do next.

use vstd::prelude::*;

use crate::audio::AudioError;

verus! {

/// How long to wait for a captured packet before looking at the stop flag again, in milliseconds.
pub const PACKET_WAIT_MS: u32 = 50;

/// What came of the last action.
#[derive(Debug)]
pub enum WorkerEvent {
    /// Both streams were opened and started, or one could not be.
    Started(Result<(), AudioError>),
    StopChecked { stop: bool },
    StreamsStopped,
    Waited,
    /// The number of frames in the next packet, zero if there is none.
    PacketSized(Result<u32, AudioError>),
    /// The number of frames that the packet turned out to have.
    Captured(Result<u32, AudioError>),
    /// The packet of this many frames was given back.
    Released { frames: u32, result: Result<(), AudioError> },
    /// The samples were processed; holds the number of frames that the output has room for.
    Processed(Result<usize, AudioError>),
    Written(Result<(), AudioError>),
}

/// What to do next.
#[derive(Debug)]
pub enum WorkerAction {
    /// See whether the worker is to stop.
    CheckStop,
    StopStreams,
    /// Wait until a packet is captured, but no longer than this.
    Wait { ms: u32 },
    /// Ask for the number of frames in the next packet.
    SizePacket,
    /// Take the samples out of the packet.
    Capture,
    /// Give the packet back.
    Release { frames: u32 },
    /// Process the samples and ask how many frames of them the output has room for.
    Process,
    /// Write that many frames to the output.
    Write { frames: usize },
    End(Result<(), AudioError>),
}

/// The action after an event. A call that fails ends the worker with its error; a stop that is seen
/// ends it well.
pub open spec fn worker_action(event: WorkerEvent) -> WorkerAction {
    match event {
        WorkerEvent::Started(Ok(())) => WorkerAction::CheckStop,
        WorkerEvent::StopChecked { stop } => if stop {
            WorkerAction::StopStreams
        } else {
            WorkerAction::Wait { ms: PACKET_WAIT_MS }
        },
        WorkerEvent::StreamsStopped => WorkerAction::End(Ok(())),
        WorkerEvent::Waited => WorkerAction::SizePacket,
        WorkerEvent::PacketSized(Ok(frames)) => if frames > 0 {
            WorkerAction::Capture
        } else {
            WorkerAction::CheckStop
        },
        WorkerEvent::Captured(Ok(frames)) => WorkerAction::Release { frames },
        WorkerEvent::Released { frames, result: Ok(()) } => if frames > 0 {
            WorkerAction::Process
        } else {
            WorkerAction::SizePacket
        },
        WorkerEvent::Processed(Ok(frames)) => if frames > 0 {
            WorkerAction::Write { frames }
        } else {
            WorkerAction::SizePacket
        },
        WorkerEvent::Written(Ok(())) => WorkerAction::SizePacket,
        WorkerEvent::Started(Err(e)) => WorkerAction::End(Err(e)),
        WorkerEvent::PacketSized(Err(e)) => WorkerAction::End(Err(e)),
        WorkerEvent::Captured(Err(e)) => WorkerAction::End(Err(e)),
        WorkerEvent::Released { frames: _, result: Err(e) } => WorkerAction::End(Err(e)),
        WorkerEvent::Processed(Err(e)) => WorkerAction::End(Err(e)),
        WorkerEvent::Written(Err(e)) => WorkerAction::End(Err(e)),
    }
}

/// Says what the worker does after an event.
pub fn next_action(event: WorkerEvent) -> (r: WorkerAction)
    ensures
        r == worker_action(event),
{
    match event {
        WorkerEvent::Started(Ok(())) => WorkerAction::CheckStop,
        WorkerEvent::StopChecked { stop } => if stop {
            WorkerAction::StopStreams
        } else {
            WorkerAction::Wait { ms: PACKET_WAIT_MS }
        },
        WorkerEvent::StreamsStopped => WorkerAction::End(Ok(())),
        WorkerEvent::Waited => WorkerAction::SizePacket,
        WorkerEvent::PacketSized(Ok(frames)) => if frames > 0 {
            WorkerAction::Capture
        } else {
            WorkerAction::CheckStop
        },
        WorkerEvent::Captured(Ok(frames)) => WorkerAction::Release { frames },
        WorkerEvent::Released { frames, result: Ok(()) } => if frames > 0 {
            WorkerAction::Process
        } else {
            WorkerAction::SizePacket
        },
        WorkerEvent::Processed(Ok(frames)) => if frames > 0 {
            WorkerAction::Write { frames }
        } else {
            WorkerAction::SizePacket
        },
        WorkerEvent::Written(Ok(())) => WorkerAction::SizePacket,
        WorkerEvent::Started(Err(e)) => WorkerAction::End(Err(e)),
        WorkerEvent::PacketSized(Err(e)) => WorkerAction::End(Err(e)),
        WorkerEvent::Captured(Err(e)) => WorkerAction::End(Err(e)),
        WorkerEvent::Released { frames: _, result: Err(e) } => WorkerAction::End(Err(e)),
        WorkerEvent::Processed(Err(e)) => WorkerAction::End(Err(e)),
        WorkerEvent::Written(Err(e)) => WorkerAction::End(Err(e)),
    }
}

/// The error that an event tells of, if it tells of one.
pub open spec fn failure_of(event: WorkerEvent) -> Option<AudioError> {
    match event {
        WorkerEvent::Started(Err(e)) => Some(e),
        WorkerEvent::PacketSized(Err(e)) => Some(e),
        WorkerEvent::Captured(Err(e)) => Some(e),
        WorkerEvent::Released { frames: _, result: Err(e) } => Some(e),
        WorkerEvent::Processed(Err(e)) => Some(e),
        WorkerEvent::Written(Err(e)) => Some(e),
        _ => None,
    }
}

/// The event is an answer to the action. The end has none.
pub open spec fn answers(event: WorkerEvent, action: WorkerAction) -> bool {
    match action {
        WorkerAction::CheckStop => event is StopChecked,
        WorkerAction::StopStreams => event is StreamsStopped,
        WorkerAction::Wait { .. } => event is Waited,
        WorkerAction::SizePacket => event is PacketSized,
        WorkerAction::Capture => event is Captured,
        WorkerAction::Release { frames } => event matches WorkerEvent::Released {
            frames: released,
            ..
        } && released == frames,
        WorkerAction::Process => event is Processed,
        WorkerAction::Write { .. } => event is Written,
        WorkerAction::End(_) => false,
    }
}

/// The worker ends with an error exactly where a call fails, and then with the error of that call.
pub proof fn failures_end_the_worker(event: WorkerEvent)
    ensures
        match failure_of(event) {
            Some(e) => worker_action(event) == WorkerAction::End(Err(e)),
            None => !(worker_action(event) matches WorkerAction::End(Err(_))),
        },
{
}

/// The worker ends well exactly where its streams are stopped, and they are stopped exactly where a
/// stop was seen.
pub proof fn stops_end_the_worker_well(event: WorkerEvent)
    ensures
        worker_action(event) == WorkerAction::End(Ok(())) <==> event is StreamsStopped,
        worker_action(event) is StopStreams <==> event == (WorkerEvent::StopChecked { stop: true }),
{
}

/// A packet that is captured is given back, all of it, before anything else is done, and its samples
/// are processed where it has any.
pub proof fn captured_packets_are_released(frames: u32, answer: WorkerEvent)
    requires
        answers(answer, worker_action(WorkerEvent::Captured(Ok(frames)))),
    ensures
        worker_action(WorkerEvent::Captured(Ok(frames))) == (WorkerAction::Release { frames }),
        failure_of(answer) is None ==> worker_action(answer) == if frames > 0 {
            WorkerAction::Process
        } else {
            WorkerAction::SizePacket
        },
{
}

/// The stop flag is looked at whenever the packets have run out, before the worker waits again.
pub proof fn stops_are_looked_for(answer: WorkerEvent)
    ensures
        worker_action(WorkerEvent::PacketSized(Ok(0))) is CheckStop,
        worker_action(answer) is Wait <==> answer == (WorkerEvent::StopChecked { stop: false }),
{
}

/// A packet that was captured is worked through: it is processed if it has frames, and as many
/// frames are written as there is room for, all of them and no more.
pub proof fn packets_are_worked_through(frames: u32, room: usize)
    requires
        frames > 0,
        room > 0,
    ensures
        worker_action(WorkerEvent::PacketSized(Ok(frames))) is Capture,
        worker_action(WorkerEvent::Captured(Ok(frames))) == (WorkerAction::Release { frames }),
        worker_action(WorkerEvent::Released { frames, result: Ok(()) }) is Process,
        worker_action(WorkerEvent::Processed(Ok(room))) == (WorkerAction::Write { frames: room }),
{
}

/// Frames are written only as many as the output has room for, and after that the next packet is
/// looked for; only where there is none is it seen whether the worker is to stop.
pub proof fn writes_follow_the_room(event: WorkerEvent, n: usize)
    ensures
        worker_action(event) == (WorkerAction::Write { frames: n }) <==> n > 0 && event
            == WorkerEvent::Processed(Ok(n)),
        worker_action(event) is SizePacket <==> match event {
            WorkerEvent::Waited => true,
            WorkerEvent::Written(result) => result is Ok,
            WorkerEvent::Processed(room) => room == Ok::<usize, AudioError>(0),
            WorkerEvent::Released { frames, result } => frames == 0 && result is Ok,
            _ => false,
        },
        worker_action(event) is CheckStop <==> match event {
            WorkerEvent::Started(result) => result is Ok,
            WorkerEvent::PacketSized(frames) => frames == Ok::<u32, AudioError>(0),
            _ => false,
        },
        worker_action(event) matches WorkerAction::Wait { ms } ==> ms == 50,
{
}

} // verus!
