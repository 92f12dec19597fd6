use vstd::prelude::*;
use crate::envelope::XFADE_LEN;
use crate::text::text_eq;

verus! {

/// Playback mode of the grain.
#[derive(Clone, Copy, PartialEq, Eq, Structural, Debug)]
pub enum GrainStatus {
    /// Silence; the playhead keeps advancing.
    Off,
    /// Raw loop, no smoothing of the seam.
    On,
    /// Loop with a constant-power crossfade across the seam.
    XFade,
}

/// Why a control command was rejected. A rejected command changes nothing.
#[derive(Clone, Copy, PartialEq, Eq, Structural, Debug)]
pub enum ControlError {
    /// The command's address names no known command.
    UnknownRoute,
    /// The status command carries no text argument first.
    BadStatusArg,
    /// The status token names no playback mode.
    UnknownStatus,
    /// The grain command carries no integer start first.
    BadStartArg,
    /// The grain command carries no integer length second.
    BadLengthArg,
    /// The grain length is not longer than the crossfade.
    GrainTooShort,
}

/// The playback mode that a token names: exactly `Off`, `On` or `XFade`.
pub open spec fn status_of_token(token: Seq<char>) -> Option<GrainStatus> {
    if token == "Off"@ {
        Some(GrainStatus::Off)
    } else if token == "On"@ {
        Some(GrainStatus::On)
    } else if token == "XFade"@ {
        Some(GrainStatus::XFade)
    } else {
        None
    }
}

impl GrainStatus {
    /// Parses a control token into a playback mode.
    pub fn from_token(token: &str) -> (r: Option<GrainStatus>)
        ensures
            r == status_of_token(token@),
    {
        if text_eq(token, "Off") {
            Some(GrainStatus::Off)
        } else if text_eq(token, "On") {
            Some(GrainStatus::On)
        } else if text_eq(token, "XFade") {
            Some(GrainStatus::XFade)
        } else {
            None
        }
    }
}

/// The playback parameters that the control side writes and the renderer
/// reads once per block.
#[derive(Clone, Copy, PartialEq, Eq, Structural, Debug)]
pub struct GrainParams {
    pub status: GrainStatus,
    /// First sample of the grain in the store.
    pub start: usize,
    /// Grain length in samples.
    pub length: usize,
}

/// `start` clamped into `[0, store_len)`.
pub open spec fn clamp_start(start: int, store_len: int) -> int {
    if start < 0 {
        0
    } else if start >= store_len {
        store_len - 1
    } else {
        start
    }
}

/// `length` clamped to at most `store_len`.
pub open spec fn clamp_length(length: int, store_len: int) -> int {
    if length > store_len {
        store_len
    } else {
        length
    }
}

/// Outcome of a grain command on `p`: rejected whole when the length does not
/// exceed the crossfade, else both values clamped into the store.
pub open spec fn grain_update(p: GrainParams, start: int, length: int, store_len: int) -> Result<
    GrainParams,
    ControlError,
> {
    if length <= XFADE_LEN {
        Err(ControlError::GrainTooShort)
    } else {
        Ok(
            GrainParams {
                start: clamp_start(start, store_len) as usize,
                length: clamp_length(length, store_len) as usize,
                ..p
            },
        )
    }
}

/// Outcome of a status command on `p`.
pub open spec fn status_update(p: GrainParams, token: Seq<char>) -> Result<
    GrainParams,
    ControlError,
> {
    match status_of_token(token) {
        Some(s) => Ok(GrainParams { status: s, ..p }),
        None => Err(ControlError::UnknownStatus),
    }
}

/// The parameters after a command with the given outcome: the new ones when
/// accepted, the old ones when rejected.
pub open spec fn after(p: GrainParams, outcome: Result<GrainParams, ControlError>) -> GrainParams {
    match outcome {
        Ok(q) => q,
        Err(_) => p,
    }
}

/// What a command's method returns for a given outcome.
pub open spec fn reply(outcome: Result<GrainParams, ControlError>) -> Result<(), ControlError> {
    match outcome {
        Ok(_) => Ok(()),
        Err(e) => Err(e),
    }
}

impl GrainParams {
    /// Grain inside a store of `store_len` samples and longer than the crossfade.
    pub open spec fn valid_for(&self, store_len: int) -> bool {
        &&& self.start < store_len
        &&& XFADE_LEN < self.length <= store_len
    }

    /// The start-up parameters: crossfaded loop over the whole store.
    pub fn initial(store_len: usize) -> (r: GrainParams)
        ensures
            r == (GrainParams { status: GrainStatus::XFade, start: 0, length: store_len }),
    {
        GrainParams { status: GrainStatus::XFade, start: 0, length: store_len }
    }

    /// Sets the playback mode from a control token.
    pub fn set_status(&mut self, token: &str) -> (r: Result<(), ControlError>)
        ensures
            *final(self) == after(*old(self), status_update(*old(self), token@)),
            r == reply(status_update(*old(self), token@)),
    {
        match GrainStatus::from_token(token) {
            Some(s) => {
                self.status = s;
                Ok(())
            },
            None => Err(ControlError::UnknownStatus),
        }
    }

    /// Sets the grain window; the store has `store_len` samples.
    pub fn set_grain(&mut self, start: i32, length: i32, store_len: usize) -> (r: Result<
        (),
        ControlError,
    >)
        requires
            XFADE_LEN < store_len,
        ensures
            *final(self) == after(*old(self), grain_update(*old(self), start as int, length as int, store_len as int)),
            r == reply(grain_update(*old(self), start as int, length as int, store_len as int)),
    {
        if length <= XFADE_LEN as i32 {
            return Err(ControlError::GrainTooShort);
        }
        let s: usize = if start < 0 {
            0
        } else if start as usize >= store_len {
            store_len - 1
        } else {
            start as usize
        };
        let l: usize = if length as usize > store_len {
            store_len
        } else {
            length as usize
        };
        self.start = s;
        self.length = l;
        Ok(())
    }
}

} // verus!
