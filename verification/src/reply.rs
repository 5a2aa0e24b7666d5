//! Cookies and replies: the bookkeeping around one request.
//!
//! Sending a request yields a [`Cookie`]. Later the foreign decode call waits
//! for the server and hands back an [`Answer`]; [`Cookie::get_reply`] turns
//! that answer into the decoded reply or into a [`ReplyError`]. Memory that
//! the decode call allocated is released through a [`WipeGuard`], which
//! permits the foreign wipe exactly once.

use vstd::prelude::*;

verus! {

/// What the server reported in place of a reply.
#[derive(Clone, Copy, Debug, PartialEq, Eq, Structural)]
pub struct ProtocolError {
    pub response_type: u8,
    pub error_code: u8,
    /// The low bits of the sequence number of the request that failed.
    pub sequence: u16,
}

/// Why no reply could be handed out.
#[derive(Clone, Copy, Debug, PartialEq, Eq, Structural)]
pub enum ReplyError {
    /// The server answered the request with an error.
    Protocol(ProtocolError),
    /// The server reported no error, yet the property was absent or had
    /// another shape than the request asked for.
    Missing,
}

/// Which signals of the foreign decode call count as a failure.
#[derive(Clone, Copy, Debug, PartialEq, Eq, Structural)]
pub enum Decoder {
    /// Only a reported error fails the request; the status byte is ignored.
    ErrorOnly,
    /// A reported error or a zero status byte fails the request.
    ErrorOrStatus,
}

/// What the foreign decode call handed back.
#[derive(Clone, Copy, Debug, PartialEq, Eq, Structural)]
pub struct Answer {
    /// The call's return value: zero when nothing was decoded.
    pub status: u8,
    /// The error that the call stored, if any.
    pub error: Option<ProtocolError>,
}

impl Answer {
    /// `true` when a checked request with this answer has failed under
    /// `decoder`.
    pub open spec fn failed(self, decoder: Decoder) -> bool {
        self.error is Some || (decoder == Decoder::ErrorOrStatus && self.status == 0)
    }

    /// The error that a failed answer stands for.
    pub open spec fn failure(self) -> ReplyError {
        match self.error {
            Some(error) => ReplyError::Protocol(error),
            None => ReplyError::Missing,
        }
    }
}

/// Where a request stands.
#[derive(Clone, Copy, Debug, PartialEq, Eq, Structural)]
pub enum Phase {
    /// Described, not yet sent.
    Created,
    /// Sent; the answer has not been looked at.
    Pending,
    /// The answer held a reply.
    Decoded,
    /// The answer held an error.
    Errored,
}

/// A request that was sent and whose answer has not been read yet.
#[derive(Clone, Copy, Debug, PartialEq, Eq, Structural)]
pub struct Cookie {
    sequence: u32,
    checked: bool,
    decoder: Decoder,
}

impl Cookie {
    /// The sequence number that the request was sent under.
    pub closed spec fn spec_sequence(&self) -> u32 {
        self.sequence
    }

    /// `true` when protocol errors are collected for the request.
    pub closed spec fn spec_is_checked(&self) -> bool {
        self.checked
    }

    /// The failure rule of the call that decodes the answer.
    pub closed spec fn spec_decoder(&self) -> Decoder {
        self.decoder
    }

    /// The phase that reading `answer` moves this request to.
    pub open spec fn phase_after(self, answer: Answer) -> Phase {
        if self.spec_is_checked() && answer.failed(self.spec_decoder()) {
            Phase::Errored
        } else {
            Phase::Decoded
        }
    }

    /// The cookie of a request that was sent under `sequence`. `checked` says
    /// whether protocol errors are collected for it or discarded.
    pub fn new(sequence: u32, checked: bool, decoder: Decoder) -> (cookie: Cookie)
        ensures
            cookie.spec_sequence() == sequence,
            cookie.spec_is_checked() == checked,
            cookie.spec_decoder() == decoder,
    {
        Cookie { sequence, checked, decoder }
    }

    /// The cookie of a request whose protocol errors are collected.
    pub fn checked(sequence: u32, decoder: Decoder) -> (cookie: Cookie)
        ensures
            cookie.spec_sequence() == sequence,
            cookie.spec_is_checked(),
            cookie.spec_decoder() == decoder,
    {
        Cookie { sequence, checked: true, decoder }
    }

    /// The cookie of a request whose protocol errors are discarded.
    pub fn unchecked(sequence: u32, decoder: Decoder) -> (cookie: Cookie)
        ensures
            cookie.spec_sequence() == sequence,
            !cookie.spec_is_checked(),
            cookie.spec_decoder() == decoder,
    {
        Cookie { sequence, checked: false, decoder }
    }

    /// The sequence number that the request was sent under.
    #[verifier::when_used_as_spec(spec_sequence)]
    pub fn sequence(&self) -> (sequence: u32)
        ensures
            sequence == self.spec_sequence(),
    {
        self.sequence
    }

    /// Whether protocol errors are collected for this request.
    #[verifier::when_used_as_spec(spec_is_checked)]
    pub fn is_checked(&self) -> (checked: bool)
        ensures
            checked == self.spec_is_checked(),
    {
        self.checked
    }

    /// The failure rule of the call that decodes this request's answer.
    #[verifier::when_used_as_spec(spec_decoder)]
    pub fn decoder(&self) -> (decoder: Decoder)
        ensures
            decoder == self.spec_decoder(),
    {
        self.decoder
    }

    /// Concludes the request from the answer of the decode call.
    ///
    /// A checked request fails exactly when the answer failed, with the
    /// server's error where there is one. An unchecked request never fails:
    /// whatever was decoded is handed out as it is. A reply is handed out
    /// whole or not at all.
    pub fn get_reply<R>(&self, answer: Answer, reply: R) -> (result: Result<R, ReplyError>)
        ensures
            self.is_checked() ==> (result is Err <==> answer.failed(self.decoder())),
            !self.is_checked() ==> result is Ok,
            result is Ok ==> result->Ok_0 == reply,
            result is Err ==> result->Err_0 == answer.failure(),
            result is Ok <==> self.phase_after(answer) == Phase::Decoded,
    {
        if !self.checked {
            return Ok(reply);
        }
        match answer.error {
            Some(error) => Err(ReplyError::Protocol(error)),
            None => match self.decoder {
                Decoder::ErrorOnly => Ok(reply),
                Decoder::ErrorOrStatus => if answer.status != 0 {
                    Ok(reply)
                } else {
                    Err(ReplyError::Missing)
                },
            },
        }
    }
}

/// Permission to release the foreign memory behind one reply.
///
/// The owner of the memory asks the guard before wiping. The guard agrees the
/// first time and never again, however often and on whatever path it is asked.
#[derive(Debug, PartialEq, Eq, Structural)]
pub struct WipeGuard {
    armed: bool,
}

impl WipeGuard {
    /// `true` until the wipe has been permitted.
    pub closed spec fn spec_is_armed(&self) -> bool {
        self.armed
    }

    /// The guard after it has been asked once: it permits nothing more.
    pub closed spec fn asked(self) -> WipeGuard {
        WipeGuard { armed: false }
    }

    /// How many wipes the guard permits in all when it is asked `asks` times
    /// in a row.
    pub open spec fn wipes(self, asks: nat) -> nat
        decreases asks,
    {
        if asks == 0 {
            0
        } else if self.spec_is_armed() {
            1 + self.asked().wipes((asks - 1) as nat)
        } else {
            self.asked().wipes((asks - 1) as nat)
        }
    }

    /// The guard of a reply whose memory is held.
    pub fn new() -> (guard: WipeGuard)
        ensures
            guard.spec_is_armed(),
    {
        WipeGuard { armed: true }
    }

    /// The guard of a reply that borrows its memory and must never wipe it.
    pub fn disarmed() -> (guard: WipeGuard)
        ensures
            !guard.spec_is_armed(),
    {
        WipeGuard { armed: false }
    }

    /// Whether the wipe is still to come.
    #[verifier::when_used_as_spec(spec_is_armed)]
    pub fn is_armed(&self) -> (armed: bool)
        ensures
            armed == self.spec_is_armed(),
    {
        self.armed
    }

    /// Asks for the wipe: `true` means that the caller wipes now.
    pub fn release(&mut self) -> (wipe: bool)
        ensures
            wipe == old(self).is_armed(),
            *final(self) == old(self).asked(),
            !final(self).is_armed(),
    {
        let wipe = self.armed;
        self.armed = false;
        wipe
    }
}

/// Reading an answer is a function of the cookie and the answer alone, and a
/// request never returns to an earlier phase: it ends decoded or errored.
pub proof fn request_ends(cookie: Cookie, answer: Answer)
    ensures
        cookie.phase_after(answer) == Phase::Decoded || cookie.phase_after(answer)
            == Phase::Errored,
        cookie.phase_after(answer) == Phase::Errored <==> cookie.is_checked() && answer.failed(
            cookie.decoder(),
        ),
{
}

/// A guard that has been asked permits nothing more.
pub proof fn asked_guard_is_spent(guard: WipeGuard, asks: nat)
    ensures
        !guard.asked().is_armed(),
        guard.asked().wipes(asks) == 0,
    decreases asks,
{
    if asks > 0 {
        asked_guard_is_spent(guard.asked(), (asks - 1) as nat);
    }
}

/// A guard that holds memory permits exactly one wipe, however often it is
/// asked, as long as it is asked at all; a guard that holds none permits no
/// wipe.
pub proof fn wipe_exactly_once(guard: WipeGuard, asks: nat)
    requires
        asks > 0,
    ensures
        guard.wipes(asks) == if guard.is_armed() {
            1nat
        } else {
            0nat
        },
{
    asked_guard_is_spent(guard, (asks - 1) as nat);
}

} // verus!
