//! The capture device on Linux, a PulseAudio source.

use vstd::prelude::*;

use crate::audio::{is_headset, name_matches, AudioError, AudioErrorView};

verus! {

/// How long a PulseAudio connection or operation may take, in milliseconds.
pub const PA_TIMEOUT_MS: u64 = 3_000;

/// How long to sleep between two looks at a PulseAudio connection or operation, in milliseconds.
pub const PA_RETRY_MS: u64 = 5;

/// What PulseAudio tells about a source.
#[derive(Debug)]
pub struct SourceInfo {
    pub description: Option<String>,
    pub index: u32,
    pub channels: u8,
}

/// The source belongs to the headset. A source without a description counts as one with an empty
/// description.
pub open spec fn is_headset_source(source: SourceInfo) -> bool {
    match source.description {
        Some(d) => name_matches(d@),
        None => name_matches(""@),
    }
}

/// `i` is the position of the last source that belongs to the headset.
pub open spec fn is_last_headset_source(sources: Seq<SourceInfo>, i: int) -> bool {
    &&& 0 <= i < sources.len()
    &&& is_headset_source(sources[i])
    &&& forall|j: int| i < j < sources.len() ==> !is_headset_source(#[trigger] sources[j])
}

fn headset_source(source: &SourceInfo) -> (r: bool)
    ensures
        r == is_headset_source(*source),
{
    match &source.description {
        Some(d) => is_headset(d.as_str()),
        None => is_headset(""),
    }
}

fn last_headset_source(sources: &Vec<SourceInfo>) -> (r: Option<usize>)
    ensures
        match r {
            Some(i) => is_last_headset_source(sources@, i as int),
            None => forall|j: int|
                0 <= j < sources.len() ==> !is_headset_source(#[trigger] sources[j]),
        },
{
    let mut found: Option<usize> = None;
    for i in 0..sources.len()
        invariant
            match found {
                Some(f) => is_last_headset_source(sources@.take(i as int), f as int),
                None => forall|j: int| 0 <= j < i ==> !is_headset_source(#[trigger] sources[j]),
            },
    {
        let ghost before = found;
        if headset_source(&sources[i]) {
            found = Some(i);
        }
        proof {
            let seen = sources@.take(i as int);
            let now = sources@.take(i + 1);
            assert forall|j: int| 0 <= j < i implies seen[j] == #[trigger] now[j] by {
            }
            if let Some(f) = before {
                assert(forall|j: int| f < j < i ==> !is_headset_source(#[trigger] seen[j]));
            }
            assert(now[i as int] == sources[i as int]);
        }
    }
    assert(sources@.take(sources.len() as int) == sources@);
    found
}

/// Where a boost goes: the index of the source and the number of its channels.
#[derive(Debug, Clone, Copy, PartialEq, Eq, Structural)]
pub struct BoostTarget {
    pub index: u32,
    pub channels: u8,
}

/// The state of a PulseAudio connection.
#[derive(Debug, Clone, Copy, PartialEq, Eq, Structural)]
pub enum ContextState {
    Ready,
    Failed,
    Terminated,
    /// Any state on the way to one of the others.
    Pending,
}

/// The state of a PulseAudio operation.
#[derive(Debug, Clone, Copy, PartialEq, Eq, Structural)]
pub enum OperationState {
    Done,
    Cancelled,
    Running,
}

/// What to do about a connection or an operation.
#[derive(Debug)]
pub enum PulseWait {
    Done,
    Fail(AudioError),
    /// Look again a little later.
    Retry,
}

/// The wait ends with the error `msg`.
pub open spec fn fails_with(wait: PulseWait, msg: Seq<char>) -> bool {
    wait matches PulseWait::Fail(e) && e@ == AudioErrorView::ApiError(msg)
}

#[derive(Debug)]
pub struct LinuxAudioController {
    pub device_index: Option<u32>,
    /// Channel count of the headset's source.
    pub channels: Option<u8>,
}

impl LinuxAudioController {
    pub fn new() -> (r: Self)
        ensures
            r.device_index is None,
            r.channels is None,
    {
        LinuxAudioController { device_index: None, channels: None }
    }

    /// Looks for the headset among the sources; where several match, the last one counts.
    /// `sources` is the error if the list could not be had, which leaves the controller as it is.
    pub fn find_device(&mut self, sources: Result<Vec<SourceInfo>, AudioError>) -> (r: Result<
        bool,
        AudioError,
    >)
        ensures
            match sources {
                Ok(list) => match r {
                    Ok(true) => exists|i: int| #[trigger]
                        is_last_headset_source(list@, i) && final(self).device_index == Some(
                            list[i].index,
                        ) && final(self).channels == Some(list[i].channels),
                    Ok(false) => {
                        &&& forall|j: int|
                            0 <= j < list.len() ==> !is_headset_source(#[trigger] list@[j])
                        &&& final(self).device_index is None
                        &&& final(self).channels is None
                    },
                    Err(_) => false,
                },
                Err(e) => r == Err::<bool, _>(e) && *final(self) == *old(self),
            },
    {
        match sources {
            Ok(list) => match last_headset_source(&list) {
                Some(i) => {
                    self.device_index = Some(list[i].index);
                    self.channels = Some(list[i].channels);
                    Ok(true)
                },
                None => {
                    self.device_index = None;
                    self.channels = None;
                    Ok(false)
                },
            },
            Err(e) => Err(e),
        }
    }

    /// The source to read the boost from.
    pub fn source_index(&self) -> (r: Result<u32, AudioError>)
        ensures
            match self.device_index {
                Some(index) => r == Ok::<_, AudioError>(index),
                None => r matches Err(e) && e is DeviceNotFound,
            },
    {
        match self.device_index {
            Some(index) => Ok(index),
            None => Err(AudioError::DeviceNotFound),
        }
    }

    /// The source to boost, with its channel count: PulseAudio rejects a volume for another
    /// number of channels, but takes one channel for any source, which stands in where the count
    /// is unknown.
    pub fn boost_target(&self) -> (r: Result<BoostTarget, AudioError>)
        ensures
            match self.device_index {
                Some(index) => r matches Ok(target) && target.index == index && target.channels
                    == match self.channels {
                    Some(n) => if n >= 1 {
                        n
                    } else {
                        1
                    },
                    None => 1,
                },
                None => r matches Err(e) && e is DeviceNotFound,
            },
            r matches Ok(target) ==> target.channels >= 1,
    {
        match self.device_index {
            Some(index) => {
                let channels: u8 = match self.channels {
                    Some(n) => if n >= 1 {
                        n
                    } else {
                        1
                    },
                    None => 1,
                };
                Ok(BoostTarget { index, channels })
            },
            None => Err(AudioError::DeviceNotFound),
        }
    }

    /// PulseAudio supports volumes above 100%, so boost needs no other software.
    pub fn boost_available(&self) -> (r: bool)
        ensures
            r,
    {
        true
    }

    /// One look at a connection that is being made. `iterated` tells whether the main loop could
    /// be driven, `elapsed_ms` how long the connection has been taking.
    pub fn connect_pulse(iterated: bool, state: ContextState, elapsed_ms: u64) -> (r: PulseWait)
        ensures
            if !iterated {
                fails_with(r, "mainloop error"@)
            } else if state is Ready {
                r is Done
            } else if state is Failed || state is Terminated {
                fails_with(r, "context failed"@)
            } else if elapsed_ms >= PA_TIMEOUT_MS {
                fails_with(r, "PulseAudio connect timed out"@)
            } else {
                r is Retry
            },
    {
        if !iterated {
            return PulseWait::Fail(AudioError::ApiError("mainloop error".to_owned()));
        }
        match state {
            ContextState::Ready => PulseWait::Done,
            ContextState::Failed | ContextState::Terminated => PulseWait::Fail(
                AudioError::ApiError("context failed".to_owned()),
            ),
            ContextState::Pending => if elapsed_ms >= PA_TIMEOUT_MS {
                PulseWait::Fail(AudioError::ApiError("PulseAudio connect timed out".to_owned()))
            } else {
                PulseWait::Retry
            },
        }
    }

    /// One look at an operation that is under way. An operation that PulseAudio rejects ends as
    /// cancelled and is an error, so that a change that was not made is not taken for one.
    pub fn wait_for_op(iterated: bool, state: OperationState, elapsed_ms: u64) -> (r: PulseWait)
        ensures
            if !iterated {
                fails_with(r, "mainloop error"@)
            } else if state is Done {
                r is Done
            } else if state is Cancelled {
                fails_with(r, "PulseAudio operation cancelled"@)
            } else if elapsed_ms >= PA_TIMEOUT_MS {
                fails_with(r, "PulseAudio operation timed out"@)
            } else {
                r is Retry
            },
    {
        if !iterated {
            return PulseWait::Fail(AudioError::ApiError("mainloop error".to_owned()));
        }
        match state {
            OperationState::Done => PulseWait::Done,
            OperationState::Cancelled => PulseWait::Fail(
                AudioError::ApiError("PulseAudio operation cancelled".to_owned()),
            ),
            OperationState::Running => if elapsed_ms >= PA_TIMEOUT_MS {
                PulseWait::Fail(AudioError::ApiError("PulseAudio operation timed out".to_owned()))
            } else {
                PulseWait::Retry
            },
        }
    }
}

/// Of all sources of the headset the last counts, and there is a last one wherever there is one.
pub proof fn the_last_source_counts(sources: Seq<SourceInfo>, i: int, k: int)
    requires
        0 <= k < sources.len(),
        is_headset_source(sources[k]),
    ensures
        exists|last: int| is_last_headset_source(sources, last) && k <= last,
        is_last_headset_source(sources, i) ==> k <= i,
    decreases sources.len() - k,
{
    if exists|j: int| k < j < sources.len() && is_headset_source(#[trigger] sources[j]) {
        let j = choose|j: int| k < j < sources.len() && is_headset_source(#[trigger] sources[j]);
        the_last_source_counts(sources, i, j);
    } else {
        assert(is_last_headset_source(sources, k));
    }
}

/// A boost goes to the source that was found, with as many channels as that has, however many, and
/// one where that is not known.
pub proof fn boosts_go_to_the_source(
    controller: &LinuxAudioController,
    target: Result<BoostTarget, AudioError>,
    source: Result<u32, AudioError>,
    index: u32,
    channels: u8,
)
    requires
        call_ensures(LinuxAudioController::boost_target, (controller,), target),
        call_ensures(LinuxAudioController::source_index, (controller,), source),
        controller.device_index == Some(index),
        channels > 0,
        controller.channels == Some(channels) || controller.channels is None && channels == 1,
    ensures
        target == Ok::<_, AudioError>(BoostTarget { index, channels }),
        source == Ok::<_, AudioError>(index),
{
}

/// A connection is waited for as long as it is on its way and three seconds have not passed, and
/// counts as made only once it is ready.
pub proof fn connections_are_waited_for(
    iterated: bool,
    state: ContextState,
    elapsed_ms: u64,
    wait: PulseWait,
)
    requires
        call_ensures(
            LinuxAudioController::connect_pulse,
            (iterated, state, elapsed_ms),
            wait,
        ),
    ensures
        wait is Done <==> iterated && state is Ready,
        wait is Retry <==> iterated && state is Pending && elapsed_ms < 3_000,
{
}

/// An operation is waited for as long as it runs and three seconds have not passed, and counts as
/// done only once it is.
pub proof fn operations_are_waited_for(
    iterated: bool,
    state: OperationState,
    elapsed_ms: u64,
    wait: PulseWait,
)
    requires
        call_ensures(LinuxAudioController::wait_for_op, (iterated, state, elapsed_ms), wait),
    ensures
        wait is Done <==> iterated && state is Done,
        wait is Retry <==> iterated && state is Running && elapsed_ms < 3_000,
{
}

/// A search finds the headset exactly if one of the sources belongs to it, and then boosts go to such
/// a source; where the sources could not be listed nothing changes.
pub proof fn searches_are_noted(
    controller: &mut LinuxAudioController,
    sources: Result<Vec<SourceInfo>, AudioError>,
    found: Result<bool, AudioError>,
    k: int,
)
    requires
        call_ensures(LinuxAudioController::find_device, (controller, sources), found),
    ensures
        found is Err <==> sources is Err,
        sources is Err ==> *final(controller) == *old(controller),
        found matches Ok(there) ==> there == final(controller).device_index is Some && there
            == final(controller).channels is Some,
        sources matches Ok(list) ==> (0 <= k < list@.len() && is_headset_source(list@[k])
            ==> found == Ok::<_, AudioError>(true)),
        sources matches Ok(list) ==> (0 <= k < list@.len() && is_headset_source(list@[k]) && (
        forall|j: int| k < j < list@.len() ==> !is_headset_source(#[trigger] list@[j]))
            ==> final(controller).device_index == Some(list@[k].index)
            && final(controller).channels == Some(list@[k].channels)),
{
    if let Ok(list) = sources {
        if 0 <= k < list@.len() && is_headset_source(list@[k]) {
            the_last_source_counts(list@, k, k);
            if found == Ok::<_, AudioError>(true) {
                let i = choose|i: int| #[trigger]
                    is_last_headset_source(list@, i) && final(controller).device_index == Some(
                        list[i].index,
                    ) && final(controller).channels == Some(list[i].channels);
                the_last_source_counts(list@, i, k);
            }
        }
    }
}

} // verus!
