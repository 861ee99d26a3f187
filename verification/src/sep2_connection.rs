//! The decisions of the connection to the SEP2 server: which device is ours,
//! which responses to keep and retry, and which MRID each meter reading
//! carries.
use std::collections::VecDeque;

use vstd::prelude::*;
use vstd::utf8::encode_utf8;

use crate::{Error, ResourceKind};
use crate::sep2_model::{EndDevice, EndDeviceList, Lfdi};
use crate::sep2_types::{DERCapability, DERSettings, DERStatus, MirrorMeterReading, PhaseCode, PowerOfTenMultiplierType, ResponseStatus, UomType};
use crate::store::{Store, StoreKey};

pub mod polling;
pub mod readings;
pub mod session;

verus! {

/// What the connection to the server is asked to do.
#[derive(Clone, Debug)]
pub enum Command {
    SendDeviceStatus(DERStatus),
    SendDeviceCapability(DERCapability),
    SendDeviceSettings(DERSettings),
    SendControlResponse(ControlResponse),
    SendMeterReadings(Vec<MirrorMeterReading>),
    /// Sent on initial start or by the retry task.
    Wake,
    SubscribeToResource { href: String, kind: ResourceKind, poll_rate: Option<u32> },
    UnsubscribeFromResource { href: String },
}

/// A response to a control, to be sent to its reply address.
#[derive(Clone, Debug, PartialEq, Eq)]
pub struct ControlResponse {
    pub subject: u128,
    pub status: ResponseStatus,
    pub reply_to: String,
    pub time: i64,
}

impl ControlResponse {
    pub fn new(subject: u128, status: ResponseStatus, reply_to: String, time: i64) -> (r: ControlResponse)
        ensures
            r == (ControlResponse { subject, status, reply_to, time }),
    {
        ControlResponse { subject, status, reply_to, time }
    }
}

/// The size at which the queue of responses drops its oldest. It is larger
/// than the 24 controls that SEP2 requires a client to store, with some
/// leeway.
pub const MAX_RESPONSE_QUEUE_SIZE: usize = 30;

/// The queue after `response` joins it at the back and the oldest are dropped
/// from the front while it holds `MAX_RESPONSE_QUEUE_SIZE` or more.
pub open spec fn queued(queue: Seq<ControlResponse>, response: ControlResponse) -> Seq<ControlResponse> {
    let all = queue.push(response);
    if all.len() >= MAX_RESPONSE_QUEUE_SIZE {
        all.skip(all.len() - (MAX_RESPONSE_QUEUE_SIZE - 1))
    } else {
        all
    }
}

/// Queues a response to be sent, keeping the queue below its limit.
pub fn queue_response(queue: &mut VecDeque<ControlResponse>, response: ControlResponse)
    ensures
        final(queue)@ == queued(old(queue)@, response),
        final(queue)@.len() < MAX_RESPONSE_QUEUE_SIZE,
{
    let ghost all = old(queue)@.push(response);
    queue.push_back(response);
    let ghost mut dropped: int = 0;
    while queue.len() >= MAX_RESPONSE_QUEUE_SIZE
        invariant
            0 <= dropped <= all.len(),
            queue@ == all.skip(dropped),
            dropped > 0 ==> all.len() - dropped >= MAX_RESPONSE_QUEUE_SIZE - 1,
        decreases queue@.len(),
    {
        let _ = queue.pop_front();
        proof {
            assert(all.skip(dropped).drop_first() =~= all.skip(dropped + 1));
            dropped = dropped + 1;
        }
    }
    proof {
        if all.len() >= MAX_RESPONSE_QUEUE_SIZE {
            assert(dropped == all.len() - (MAX_RESPONSE_QUEUE_SIZE - 1));
        } else {
            assert(dropped == 0);
            assert(all.skip(0) =~= all);
        }
    }
}

/// `s` holds `p` as a contiguous run.
pub open spec fn holds(s: Seq<u8>, p: Seq<u8>) -> bool {
    exists|i: int| 0 <= i && i + p.len() <= s.len() && #[trigger] s.subrange(i, i + p.len()) == p
}

fn bytes_hold(s: &[u8], p: &[u8]) -> (r: bool)
    ensures
        r == holds(s@, p@),
{
    if p.len() > s.len() {
        return false;
    }
    let last = s.len() - p.len();
    let mut i: usize = 0;
    while i <= last
        invariant
            p@.len() <= s@.len(),
            last == s@.len() - p@.len(),
            i <= last + 1,
            forall|k: int| 0 <= k < i ==> #[trigger] s@.subrange(k, k + p@.len()) != p@,
        decreases s@.len() - i,
    {
        let mut j: usize = 0;
        assert(i + p@.len() <= s@.len());
        while j < p.len() && s[i + j] == p[j]
            invariant
                i + p@.len() <= s@.len(),
                s@.len() == s.len(),
                p@.len() == p.len(),
                j <= p@.len(),
                forall|m: int| 0 <= m < j ==> s@[i + m] == p@[m],
            decreases p@.len() - j,
        {
            j = j + 1;
        }
        if j == p.len() {
            assert(s@.subrange(i as int, i + p@.len()) =~= p@);
            return true;
        }
        assert(s@.subrange(i as int, i + p@.len())[j as int] != p@[j as int]);
        i = i + 1;
    }
    assert forall|k: int| 0 <= k && k + p@.len() <= s@.len() implies #[trigger] s@.subrange(k, k + p@.len()) != p@ by {
        assert(k < i);
    }
    false
}

/// Whether `message` holds `phrase`, by their UTF-8 bytes.
fn mentions(message: &str, phrase: &str) -> (r: bool)
    ensures
        r == holds(encode_utf8(message@), encode_utf8(phrase@)),
{
    bytes_hold(message.as_bytes(), phrase.as_bytes())
}

/// A failure to send a response that is worth a retry: the connection was
/// refused, or the server asked us to slow down (HTTP 429). Any other
/// failure discards the response.
pub open spec fn retriable(message: Seq<char>) -> bool {
    let m = encode_utf8(message);
    holds(m, encode_utf8("Connection refused"@)) || (holds(m, encode_utf8("Unexpected HTTP response"@))
        && holds(m, encode_utf8("429"@)))
}

/// Whether a failure to send a response, described by `message`, is worth a
/// retry.
pub fn is_failure_retriable(message: &str) -> (r: bool)
    ensures
        r == retriable(message@),
{
    mentions(message, "Connection refused") || (mentions(message, "Unexpected HTTP response")
        && mentions(message, "429"))
}

/// What to do about our device, given the server's EndDeviceList.
#[derive(Debug)]
pub enum Registration {
    /// The server does not know our device: register it.
    Register,
    /// The server knows our device as this one.
    Known(EndDevice),
}

/// Decides what to do about our device from the server's EndDeviceList: an
/// empty list means registering it; a list of one must be our device; more
/// than one device is unexpected.
pub fn check_registration(list: EndDeviceList, ours: Lfdi) -> (r: Result<Registration, Error>)
    ensures
        list.all == 0 ==> r matches Ok(Registration::Register),
        list.all == 1 && list.end_device@.len() == 0 ==> (r matches Err(Error::InvalidInput(s))
            && s@ == "EndDeviceList is missing an item"@),
        list.all == 1 && list.end_device@.len() > 0 && list.end_device@[0].lfdi == Some(ours) ==> r
            == Ok::<Registration, Error>(Registration::Known(list.end_device@[0])),
        list.all == 1 && list.end_device@.len() > 0 && list.end_device@[0].lfdi != Some(ours) ==> r
            matches Err(Error::UnexpectedDevice),
        list.all > 1 ==> r matches Err(Error::UnexpectedDevice),
{
    if list.all == 0 {
        return Ok(Registration::Register);
    }
    if list.all > 1 {
        return Err(Error::UnexpectedDevice);
    }
    let mut devices = list.end_device;
    if devices.len() == 0 {
        return Err(Error::InvalidInput(String::from_str("EndDeviceList is missing an item")));
    }
    let device = devices.remove(0);
    let matches = match device.lfdi {
        Some(l) => l == ours,
        None => false,
    };
    if !matches {
        return Err(Error::UnexpectedDevice);
    }
    Ok(Registration::Known(device))
}

/// The position of the first mirror usage point of the device `lfdi`, given
/// the device of each point of the list in order.
pub fn find_usage_point(devices: &Vec<Lfdi>, lfdi: Lfdi) -> (r: Option<usize>)
    ensures
        match r {
            Some(i) => i < devices@.len() && devices@[i as int] == lfdi && forall|j: int|
                0 <= j < i ==> devices@[j] != lfdi,
            None => forall|j: int| 0 <= j < devices@.len() ==> devices@[j] != lfdi,
        },
{
    let mut i: usize = 0;
    while i < devices.len()
        invariant
            i <= devices@.len(),
            forall|j: int| 0 <= j < i ==> devices@[j] != lfdi,
        decreases devices@.len() - i,
    {
        if devices[i] == lfdi {
            return Some(i);
        }
        i = i + 1;
    }
    None
}

/// What distinguishes the readings that we send: their unit, their phase and
/// their power of ten.
#[derive(Clone, Copy, Debug, PartialEq, Eq, Structural)]
pub struct CacheKey {
    pub uom: UomType,
    pub phase: Option<PhaseCode>,
    pub power_of_ten_multiplier: PowerOfTenMultiplierType,
}

impl StoreKey for CacheKey {
    type Id = CacheKey;

    open spec fn id(&self) -> CacheKey {
        *self
    }

    fn same_key(&self, other: &Self) -> (r: bool) {
        *self == *other
    }

    fn copy_key(&self) -> (r: Self) {
        *self
    }
}

/// The key of a reading. A missing power of ten counts as none, so that the
/// two cannot be told apart.
pub open spec fn reading_key_spec(reading: MirrorMeterReading) -> CacheKey {
    CacheKey {
        uom: reading.uom,
        phase: reading.phase,
        power_of_ten_multiplier: match reading.power_of_ten_multiplier {
            Some(p) => p,
            None => PowerOfTenMultiplierType::Unit,
        },
    }
}

/// The key under which a reading's MRID is remembered.
pub fn reading_key(reading: &MirrorMeterReading) -> (r: CacheKey)
    ensures
        r == reading_key_spec(*reading),
{
    CacheKey {
        uom: reading.uom,
        phase: reading.phase,
        power_of_ten_multiplier: match reading.power_of_ten_multiplier {
            Some(p) => p,
            None => PowerOfTenMultiplierType::Unit,
        },
    }
}

/// A fresh MRID carrying the PEN `pen`.
///
/// Calls `sep2_common::mrid_gen(pen)`, which ORs the time, a random number
/// and a counter, shifted left by 32 bits, with the PEN. So the low 32 bits
/// of the result are the PEN; the rest depends on the time and on chance and
/// is not stated.
#[verifier::external_body]
fn fresh_mrid(pen: u32) -> (r: u128)
    ensures
        r % 0x1_0000_0000 == pen,
{
    sep2_common::mrid_gen(pen).0
}

/// A fresh MRID for a resource this device creates, such as its mirror
/// usage point: the PEN in its low 32 bits makes it unique among those of
/// other enterprises.
pub fn new_mrid(pen: u32) -> (r: u128)
    ensures
        r % 0x1_0000_0000 == pen,
{
    fresh_mrid(pen)
}

/// Builds the cache of MRIDs from the readings already on the server: each
/// key keeps the MRID of the last reading with it.
pub fn cache_from_readings(readings: &Vec<MirrorMeterReading>) -> (r: Store<CacheKey, u128>)
    ensures
        forall|k: CacheKey| #[trigger] r@.contains_key(k) <==> exists|i: int|
            0 <= i < readings@.len() && reading_key_spec(#[trigger] readings@[i]) == k,
        forall|i: int|
            0 <= i < readings@.len() ==> (forall|j: int|
                i < j < readings@.len() ==> reading_key_spec(#[trigger] readings@[j]) != reading_key_spec(
                    readings@[i],
                )) ==> r@[reading_key_spec(#[trigger] readings@[i])] == readings@[i].mrid,
{
    let mut cache: Store<CacheKey, u128> = Store::new();
    let mut i: usize = 0;
    while i < readings.len()
        invariant
            i <= readings@.len(),
            forall|k: CacheKey| #[trigger] cache@.contains_key(k) <==> exists|m: int|
                0 <= m < i && reading_key_spec(#[trigger] readings@[m]) == k,
            forall|m: int|
                0 <= m < i ==> (forall|j: int|
                    m < j < i ==> reading_key_spec(#[trigger] readings@[j]) != reading_key_spec(
                        readings@[m],
                    )) ==> cache@[reading_key_spec(#[trigger] readings@[m])] == readings@[m].mrid,
        decreases readings@.len() - i,
    {
        let key = reading_key(&readings[i]);
        cache.upsert(key, readings[i].mrid);
        assert forall|k: CacheKey| #[trigger] cache@.contains_key(k) <==> exists|m: int|
            0 <= m < i + 1 && reading_key_spec(#[trigger] readings@[m]) == k by {
            if k == key {
                assert(reading_key_spec(readings@[i as int]) == k);
            }
        }
        i = i + 1;
    }
    cache
}

/// The MRID for a reading: the one remembered under its key, or else a fresh
/// one carrying the PEN in its low 32 bits, which is remembered.
pub fn mrid_for(cache: &mut Store<CacheKey, u128>, reading: &MirrorMeterReading, pen: u32) -> (r: u128)
    ensures
        old(cache)@.contains_key(reading_key_spec(*reading)) ==> r == old(cache)@[reading_key_spec(*reading)]
            && final(cache)@ == old(cache)@,
        !old(cache)@.contains_key(reading_key_spec(*reading)) ==> final(cache)@ == old(cache)@.insert(
            reading_key_spec(*reading),
            r,
        ) && r % 0x1_0000_0000 == pen,
{
    let key = reading_key(reading);
    match cache.get(&key) {
        Some(m) => *m,
        None => {
            let m = fresh_mrid(pen);
            cache.upsert(key, m);
            m
        },
    }
}

} // verus!
