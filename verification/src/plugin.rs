//! Decisions of the plugin's life cycle: the scratch buffer it keeps after
//! activation and what a call to process does.
use vstd::prelude::*;

verus! {

/// Length of the input scratch buffer after activation: it grows to the host's
/// largest block size and never shrinks.
pub fn scratch_len_after_activate(current: usize, max_buffer_size: u32) -> (r: usize)
    ensures
        r == if current < max_buffer_size { max_buffer_size as int } else { current as int },
        r >= current,
        r >= max_buffer_size,
{
    let max = max_buffer_size as usize;
    if current < max {
        max
    } else {
        current
    }
}

/// What a call to process ends in.
#[derive(Clone, Copy, Debug, PartialEq, Eq, Structural)]
pub enum ProcessOutcome {
    /// The vocoder engine does not exist: the plugin was not activated.
    NotInitialized,
    /// The buffer does not have exactly one channel.
    UnsupportedChannels,
    /// The audio is processed.
    Normal,
}

impl ProcessOutcome {
    /// The outcome for the plugin's state: without an engine nothing is done;
    /// with one, only a mono buffer is processed.
    pub open spec fn spec_decide(initialized: bool, channels: usize) -> ProcessOutcome {
        if !initialized {
            ProcessOutcome::NotInitialized
        } else if channels != 1 {
            ProcessOutcome::UnsupportedChannels
        } else {
            ProcessOutcome::Normal
        }
    }

    /// The outcome of a call to process, given whether the engine exists and
    /// how many channels the buffer has.
    pub fn decide(initialized: bool, channels: usize) -> (r: ProcessOutcome)
        ensures
            r == ProcessOutcome::spec_decide(initialized, channels),
    {
        if !initialized {
            ProcessOutcome::NotInitialized
        } else if channels != 1 {
            ProcessOutcome::UnsupportedChannels
        } else {
            ProcessOutcome::Normal
        }
    }

    /// Whether the pending parameter updates are taken and handed to the
    /// engine before the outcome: always, except when there is no engine.
    pub fn applies_pending(self) -> (r: bool)
        ensures
            r == (self != ProcessOutcome::NotInitialized),
    {
        match self {
            ProcessOutcome::NotInitialized => false,
            _ => true,
        }
    }

    /// The error reported to the host, or `None` when the audio was processed.
    pub fn error_message(self) -> (r: Option<&'static str>)
        ensures
            r is None <==> self == ProcessOutcome::Normal,
            self == ProcessOutcome::NotInitialized ==> r.unwrap()@
                == "inner plugin not initialized, was initialize not called?"@,
            self == ProcessOutcome::UnsupportedChannels ==> r.unwrap()@
                == "Currently only supports a single channel!"@,
    {
        match self {
            ProcessOutcome::NotInitialized => Some(
                "inner plugin not initialized, was initialize not called?",
            ),
            ProcessOutcome::UnsupportedChannels => Some("Currently only supports a single channel!"),
            ProcessOutcome::Normal => None,
        }
    }
}

} // verus!
