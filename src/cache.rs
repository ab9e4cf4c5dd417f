//! Per-device freshness cache with single-flight refresh.
//!
//! Readers get the cached light state while it is fresh. Otherwise they try
//! to claim the device's single in-flight slot; only the reader whose claim
//! succeeds sends a state query, and every reader then polls until a fresh
//! state has been recorded. Recording a decoded device information message
//! refreshes the state and frees the slot.
use vstd::prelude::*;
use crate::decoder::{HomeLightMessage, HomeLightMessageType, MessageModel};
use crate::light::{
    HSVColor,
    LightInfo,
    LightInfoModel,
    PayloadError,
    light_of,
    name_bytes,
    utf8_decoded,
};

verus! {

/// How long a recorded light state stays fresh, in milliseconds.
pub const LIGHT_INFO_TTL: u128 = 300_000;

/// Pause between two freshness checks of a waiting reader, in milliseconds.
pub const POLL_INTERVAL_MS: u64 = 50;

/// Whether a state observed at `observed_at` is still fresh at `now`
/// (both in milliseconds).
pub open spec fn is_fresh(observed_at: u128, now: u128) -> bool {
    now < observed_at + LIGHT_INFO_TTL
}

/// Cache entry of one device.
#[derive(Debug)]
pub struct RunState {
    /// Last known light state and the time it was observed.
    pub light_info: Option<(LightInfo, u128)>,
    /// A state query has been sent and no answer recorded since.
    pub request_in_flight: bool,
}

/// Abstract value of a cache entry.
pub struct RunStateModel {
    pub light_info: Option<(LightInfoModel, u128)>,
    pub request_in_flight: bool,
}

impl View for RunState {
    type V = RunStateModel;

    open spec fn view(&self) -> RunStateModel {
        RunStateModel {
            light_info: match self.light_info {
                Some((info, at)) => Some((info@, at)),
                None => None,
            },
            request_in_flight: self.request_in_flight,
        }
    }
}

/// The cached state if it is fresh at `now`.
pub open spec fn fresh_value(s: RunStateModel, now: u128) -> Option<LightInfoModel> {
    match s.light_info {
        Some((info, at)) => if is_fresh(at, now) {
            Some(info)
        } else {
            None
        },
        None => None,
    }
}

/// A claim of the in-flight slot: the entry after it, and whether this
/// claim won the slot (and so must send the query).
pub open spec fn claim(s: RunStateModel) -> (RunStateModel, bool) {
    (RunStateModel { request_in_flight: true, ..s }, !s.request_in_flight)
}

/// The entry once `info` has been observed at `now`.
pub open spec fn recorded(s: RunStateModel, info: LightInfoModel, now: u128) -> RunStateModel {
    RunStateModel { light_info: Some((info, now)), request_in_flight: false }
}

/// The entry with a change applied to its cached light state, if any; the
/// observation time is kept.
pub open spec fn patched(
    s: RunStateModel,
    f: spec_fn(LightInfoModel) -> LightInfoModel,
) -> RunStateModel {
    RunStateModel {
        light_info: match s.light_info {
            Some((info, at)) => Some((f(info), at)),
            None => None,
        },
        ..s
    }
}

/// What handling `message`, received at `now`, does to the entry, and the
/// result reported: `Ok(true)` when a state was recorded, `Ok(false)` for a
/// message type that is not handled, an error for an undecodable payload.
pub open spec fn message_outcome(s: RunStateModel, message: MessageModel, now: u128) -> (
    RunStateModel,
    Result<bool, PayloadError>,
) {
    match message.message_type {
        HomeLightMessageType::DeviceInfo => match utf8_decoded(name_bytes(message.data)) {
            Some(name) => (recorded(s, light_of(name, message.data), now), Ok(true)),
            None => (s, Err(PayloadError::NameNotUtf8)),
        },
        HomeLightMessageType::DeviceColor => (s, Ok(false)),
    }
}

impl RunState {
    /// An entry with no known state and no query in flight.
    pub fn new() -> (r: RunState)
        ensures
            r@.light_info is None,
            !r@.request_in_flight,
    {
        RunState { light_info: None, request_in_flight: false }
    }

    /// The cached state if it is fresh at `now`.
    pub fn fresh_info(&self, now: u128) -> (r: Option<LightInfo>)
        ensures
            r matches Some(info) ==> fresh_value(self@, now) == Some(info@),
            r is None ==> fresh_value(self@, now) is None,
    {
        match &self.light_info {
            Some((info, at)) => {
                if now < *at || now - *at < LIGHT_INFO_TTL {
                    Some(info.duplicate())
                } else {
                    None
                }
            },
            None => None,
        }
    }

    /// First step of a read: the cached state, when the read is not forced
    /// and the state is fresh at `now`. `None` means the reader must claim
    /// and wait.
    pub fn begin_read(&self, force: bool, now: u128) -> (r: Option<LightInfo>)
        ensures
            force ==> r is None,
            !force ==> (r matches Some(info) ==> fresh_value(self@, now) == Some(info@)),
            !force ==> (r is None ==> fresh_value(self@, now) is None),
    {
        if force {
            None
        } else {
            self.fresh_info(now)
        }
    }

    /// Claims the in-flight slot if it is free. Only a caller that gets
    /// `true` sends the state query.
    pub fn try_claim(&mut self) -> (r: bool)
        ensures
            (final(self)@, r) == claim(old(self)@),
    {
        if self.request_in_flight {
            false
        } else {
            self.request_in_flight = true;
            true
        }
    }

    /// Frees the in-flight slot without an answer (the link was lost, so
    /// the query will never be answered).
    pub fn release_claim(&mut self)
        ensures
            final(self)@ == (RunStateModel { request_in_flight: false, ..old(self)@ }),
    {
        self.request_in_flight = false;
    }

    /// Records a state observed at `now` and frees the in-flight slot.
    pub fn record_device_info(&mut self, info: LightInfo, now: u128)
        ensures
            final(self)@ == recorded(old(self)@, info@, now),
    {
        self.light_info = Some((info, now));
        self.request_in_flight = false;
    }

    /// Handles a decoded message received at `now`. A device information
    /// message is decoded and recorded (`Ok(true)`), or reported as
    /// undecodable with the entry left alone; other messages are not handled
    /// (`Ok(false)`).
    pub fn consume_message(&mut self, message: &HomeLightMessage, now: u128) -> (r: Result<
        bool,
        PayloadError,
    >)
        ensures
            (final(self)@, r) == message_outcome(old(self)@, message@, now),
    {
        match message.message_type {
            HomeLightMessageType::DeviceInfo => {
                match LightInfo::from_raw_data(message.data.as_slice()) {
                    Ok(info) => {
                        self.record_device_info(info, now);
                        Ok(true)
                    },
                    Err(e) => Err(e),
                }
            },
            HomeLightMessageType::DeviceColor => Ok(false),
        }
    }

    /// Sets the cached power state after an on/off command was queued.
    pub fn patch_power(&mut self, on: bool)
        ensures
            final(self)@ == patched(
                old(self)@,
                |i: LightInfoModel| LightInfoModel { is_on: on, ..i },
            ),
    {
        if let Some((info, _)) = &mut self.light_info {
            info.is_on = on;
        }
    }

    /// Sets the cached hue after a colour command was queued.
    pub fn patch_hue(&mut self, h: u8)
        ensures
            final(self)@ == patched(
                old(self)@,
                |i: LightInfoModel| LightInfoModel { color: HSVColor { h, ..i.color }, ..i },
            ),
    {
        if let Some((info, _)) = &mut self.light_info {
            info.color.h = h;
        }
    }

    /// Sets the cached saturation after a colour command was queued.
    pub fn patch_saturation(&mut self, s: u8)
        ensures
            final(self)@ == patched(
                old(self)@,
                |i: LightInfoModel| LightInfoModel { color: HSVColor { s, ..i.color }, ..i },
            ),
    {
        if let Some((info, _)) = &mut self.light_info {
            info.color.s = s;
        }
    }

    /// Sets the cached value (brightness) after a colour command was queued.
    pub fn patch_value(&mut self, v: u8)
        ensures
            final(self)@ == patched(
                old(self)@,
                |i: LightInfoModel| LightInfoModel { color: HSVColor { v, ..i.color }, ..i },
            ),
    {
        if let Some((info, _)) = &mut self.light_info {
            info.color.v = v;
        }
    }
}

/// The entry after `n` successive claims.
pub open spec fn after_claims(s: RunStateModel, n: nat) -> RunStateModel
    decreases n,
{
    if n == 0 {
        s
    } else {
        after_claims(claim(s).0, (n - 1) as nat)
    }
}

/// How many of `n` successive claims win the slot, and so send a query.
pub open spec fn granted_claims(s: RunStateModel, n: nat) -> nat
    decreases n,
{
    if n == 0 {
        0
    } else {
        (if claim(s).1 {
            1nat
        } else {
            0nat
        }) + granted_claims(claim(s).0, (n - 1) as nat)
    }
}

/// Single flight: of any number of readers that find the entry stale and
/// try to claim the slot before an answer is recorded, exactly one wins and
/// sends a query when no query was in flight, and none does when one
/// already was. The cached state is untouched by the claims.
pub proof fn lemma_single_flight(s: RunStateModel, n: nat)
    ensures
        granted_claims(s, n) == (if n > 0 && !s.request_in_flight {
            1nat
        } else {
            0nat
        }),
        after_claims(s, n).light_info == s.light_info,
        n > 0 ==> after_claims(s, n).request_in_flight,
    decreases n,
{
    if n > 0 {
        lemma_single_flight(claim(s).0, (n - 1) as nat);
    }
}

/// Every waiter gets the same answer: once a state has been recorded at
/// `at`, a freshness check at any time at which it is fresh returns exactly
/// that state, however many claims were made after it.
pub proof fn lemma_answer_shared(
    s: RunStateModel,
    info: LightInfoModel,
    at: u128,
    claims: nat,
    now: u128,
)
    requires
        is_fresh(at, now),
    ensures
        fresh_value(after_claims(recorded(s, info, at), claims), now) == Some(info),
{
    lemma_single_flight(recorded(s, info, at), claims);
}

} // verus!
