use vstd::prelude::*;
use crate::envelope::XFADE_LEN;
use crate::params::{
    after, clamp_start, grain_update, reply, status_update, ControlError, GrainParams,
};
use crate::text::text_eq;

verus! {

/// Address of the command that sets the playback mode.
pub const STATUS_ADDR: &'static str = "/tadeusz/status";

/// Address of the command that sets the grain window.
pub const GRAIN_ADDR: &'static str = "/tadeusz/params";

/// One decoded argument of a control command.
#[derive(Debug)]
pub enum ControlArg {
    Int(i32),
    Text(String),
    /// An argument of any other type.
    Other,
}

/// A decoded control command: an address and its arguments.
#[derive(Debug)]
pub struct ControlMessage {
    pub addr: String,
    pub args: Vec<ControlArg>,
}

/// Outcome of a command on `p`, for a store of `store_len` samples.
pub open spec fn command_update(p: GrainParams, msg: ControlMessage, store_len: int) -> Result<
    GrainParams,
    ControlError,
> {
    let args = msg.args@;
    if msg.addr@ == STATUS_ADDR@ {
        if args.len() >= 1 && args[0] is Text {
            status_update(p, args[0]->Text_0@)
        } else {
            Err(ControlError::BadStatusArg)
        }
    } else if msg.addr@ == GRAIN_ADDR@ {
        if !(args.len() >= 1 && args[0] is Int) {
            Err(ControlError::BadStartArg)
        } else if !(args.len() >= 2 && args[1] is Int) {
            Err(ControlError::BadLengthArg)
        } else {
            grain_update(p, args[0]->Int_0 as int, args[1]->Int_0 as int, store_len)
        }
    } else {
        Err(ControlError::UnknownRoute)
    }
}

/// Validates one command and applies it to `params` all at once, or not at
/// all. The store has `store_len` samples.
pub fn handle(params: &mut GrainParams, msg: &ControlMessage, store_len: usize) -> (r: Result<
    (),
    ControlError,
>)
    requires
        XFADE_LEN < store_len,
    ensures
        *final(params) == after(*old(params), command_update(*old(params), *msg, store_len as int)),
        r == reply(command_update(*old(params), *msg, store_len as int)),
{
    if text_eq(msg.addr.as_str(), STATUS_ADDR) {
        if msg.args.len() >= 1 {
            match &msg.args[0] {
                ControlArg::Text(token) => params.set_status(token.as_str()),
                _ => Err(ControlError::BadStatusArg),
            }
        } else {
            Err(ControlError::BadStatusArg)
        }
    } else if text_eq(msg.addr.as_str(), GRAIN_ADDR) {
        let start: i32 = if msg.args.len() >= 1 {
            match &msg.args[0] {
                ControlArg::Int(v) => *v,
                _ => {
                    return Err(ControlError::BadStartArg);
                },
            }
        } else {
            return Err(ControlError::BadStartArg);
        };
        let length: i32 = if msg.args.len() >= 2 {
            match &msg.args[1] {
                ControlArg::Int(v) => *v,
                _ => {
                    return Err(ControlError::BadLengthArg);
                },
            }
        } else {
            return Err(ControlError::BadLengthArg);
        };
        params.set_grain(start, length, store_len)
    } else {
        Err(ControlError::UnknownRoute)
    }
}

/// Accepted commands keep the parameters valid for the store.
pub proof fn lemma_command_keeps_valid(p: GrainParams, msg: ControlMessage, store_len: int)
    requires
        XFADE_LEN < store_len,
        p.valid_for(store_len),
    ensures
        after(p, command_update(p, msg, store_len)).valid_for(store_len),
{
}

/// Applying the same grain command twice leaves the parameters as applying it once.
pub proof fn lemma_grain_idempotent(p: GrainParams, start: int, length: int, store_len: int)
    requires
        XFADE_LEN < store_len,
    ensures
        ({
            let once = after(p, grain_update(p, start, length, store_len));
            &&& after(once, grain_update(once, start, length, store_len)) == once
            &&& reply(grain_update(once, start, length, store_len)) == reply(
                grain_update(p, start, length, store_len),
            )
        }),
{
}

/// A grain command whose length does not exceed the crossfade is rejected and
/// leaves start and length as they were.
pub proof fn lemma_short_grain_rejected(p: GrainParams, start: int, length: int, store_len: int)
    requires
        length <= XFADE_LEN,
    ensures
        grain_update(p, start, length, store_len) == Err::<GrainParams, ControlError>(
            ControlError::GrainTooShort,
        ),
        after(p, grain_update(p, start, length, store_len)) == p,
{
}

/// An accepted grain command puts the start inside the store, whatever start
/// was asked for; one past the end lands on the last sample.
pub proof fn lemma_start_clamped(p: GrainParams, start: int, length: int, store_len: usize)
    requires
        XFADE_LEN < store_len,
        XFADE_LEN < length,
    ensures
        ({
            let q = after(p, grain_update(p, start, length, store_len as int));
            &&& 0 <= q.start < store_len
            &&& start >= store_len ==> q.start == store_len - 1
            &&& 0 <= start < store_len ==> q.start == start
        }),
{
}

} // verus!
