//! VMBus connection, version negotiation, and channel offer enumeration.
//!
//! Implements the INITIATE_CONTACT / VERSION_RESPONSE handshake with
//! version fallback (WIN10 → WIN8_1), then REQUEST_OFFERS to enumerate
//! synthetic devices. Pre-WIN8_1 protocols are not supported (they
//! require an interrupt page).
use vstd::prelude::*;
use vstd::bytes::*;
use crate::wire::{push_u32_le, push_u64_le, read_u16_le, read_u32_le, u16_at, u32_at};
use crate::channel::HvError;

verus! {

// VMBus channel message types
pub const CHANNELMSG_OFFERCHANNEL: u32 = 1;
pub const CHANNELMSG_REQUEST_OFFERS: u32 = 3;
pub const CHANNELMSG_ALLOFFERS_DELIVERED: u32 = 4;
pub const CHANNELMSG_INITIATE_CONTACT: u32 = 14;
pub const CHANNELMSG_VERSION_RESPONSE: u32 = 15;

// VMBus protocol versions: (major << 16) | minor
pub const VERSION_WIN10: u32 = 0x0004_0000;
pub const VERSION_WIN8_1: u32 = 0x0003_0000;

/// A 16-byte GUID in its wire byte order.
#[derive(Debug, Clone, Copy)]
pub struct Guid {
    pub bytes: [u8; 16],
}

impl Guid {
    pub fn from_bytes(bytes: [u8; 16]) -> (g: Guid)
        ensures
            g.bytes == bytes,
    {
        Guid { bytes }
    }

    /// Byte-wise equality.
    pub fn same_as(&self, other: &Guid) -> (r: bool)
        ensures
            r == (self.bytes@ == other.bytes@),
    {
        let mut i: usize = 0;
        while i < 16
            invariant
                i <= 16,
                forall|k: int| 0 <= k < i ==> self.bytes@[k] == other.bytes@[k],
            decreases 16 - i,
        {
            if self.bytes[i] != other.bytes[i] {
                return false;
            }
            i = i + 1;
        }
        assert(self.bytes@ =~= other.bytes@);
        true
    }
}

/// Bytes of the synthetic video device GUID {DA0A7802-E377-4AAC-8E77-0558EB1073F8}.
pub open spec fn synthvid_bytes() -> Seq<u8> {
    seq![0x02u8, 0x78, 0x0a, 0xda, 0x77, 0xe3, 0xac, 0x4a, 0x8e, 0x77, 0x05, 0x58, 0xeb, 0x10, 0x73, 0xf8]
}

/// Bytes of the synthetic network device GUID {F8615163-DF3E-46C5-913F-F2D2F965ED0E}.
pub open spec fn netvsc_bytes() -> Seq<u8> {
    seq![0x63u8, 0x51, 0x61, 0xf8, 0x3e, 0xdf, 0xc5, 0x46, 0x91, 0x3f, 0xf2, 0xd2, 0xf9, 0x65, 0xed, 0x0e]
}

/// Bytes of the synthetic keyboard GUID {F912AD6D-2B17-48EA-BD65-F927A61C7684}.
pub open spec fn synth_keyboard_bytes() -> Seq<u8> {
    seq![0x6du8, 0xad, 0x12, 0xf9, 0x17, 0x2b, 0xea, 0x48, 0xbd, 0x65, 0xf9, 0x27, 0xa6, 0x1c, 0x76, 0x84]
}

/// Bytes of the heartbeat service GUID {57164F39-9115-4E78-AB55-382F3BD5422D}.
pub open spec fn heartbeat_bytes() -> Seq<u8> {
    seq![0x39u8, 0x4f, 0x16, 0x57, 0x15, 0x91, 0x78, 0x4e, 0xab, 0x55, 0x38, 0x2f, 0x3b, 0xd5, 0x42, 0x2d]
}

/// Synthetic video device.
pub fn guid_synthvid() -> (g: Guid)
    ensures
        g.bytes@ == synthvid_bytes(),
{
    let g = Guid { bytes: [0x02, 0x78, 0x0a, 0xda, 0x77, 0xe3, 0xac, 0x4a, 0x8e, 0x77, 0x05, 0x58, 0xeb, 0x10, 0x73, 0xf8] };
    assert(g.bytes@ =~= synthvid_bytes());
    g
}

/// Synthetic network device.
pub fn guid_netvsc() -> (g: Guid)
    ensures
        g.bytes@ == netvsc_bytes(),
{
    let g = Guid { bytes: [0x63, 0x51, 0x61, 0xf8, 0x3e, 0xdf, 0xc5, 0x46, 0x91, 0x3f, 0xf2, 0xd2, 0xf9, 0x65, 0xed, 0x0e] };
    assert(g.bytes@ =~= netvsc_bytes());
    g
}

/// Synthetic keyboard.
pub fn guid_synth_keyboard() -> (g: Guid)
    ensures
        g.bytes@ == synth_keyboard_bytes(),
{
    let g = Guid { bytes: [0x6d, 0xad, 0x12, 0xf9, 0x17, 0x2b, 0xea, 0x48, 0xbd, 0x65, 0xf9, 0x27, 0xa6, 0x1c, 0x76, 0x84] };
    assert(g.bytes@ =~= synth_keyboard_bytes());
    g
}

/// Heartbeat service.
pub fn guid_heartbeat() -> (g: Guid)
    ensures
        g.bytes@ == heartbeat_bytes(),
{
    let g = Guid { bytes: [0x39, 0x4f, 0x16, 0x57, 0x15, 0x91, 0x78, 0x4e, 0xab, 0x55, 0x38, 0x2f, 0x3b, 0xd5, 0x42, 0x2d] };
    assert(g.bytes@ =~= heartbeat_bytes());
    g
}

/// A discovered VMBus channel offer (synthetic device).
#[derive(Debug, Clone, Copy)]
pub struct ChannelOffer {
    /// Device type GUID (e.g., synthvid, netvsc).
    pub device_type: Guid,
    /// Instance GUID (unique per device instance).
    pub instance_id: Guid,
    /// Channel ID used for OPEN_CHANNEL and ring buffer communication.
    pub child_relid: u32,
    /// Connection ID for sending messages to this channel.
    pub connection_id: u32,
    /// Monitor ID for this channel.
    pub monitor_id: u8,
    /// Whether this channel has a monitor page allocated.
    pub monitor_allocated: bool,
    /// Whether this channel uses a dedicated interrupt.
    pub is_dedicated_interrupt: bool,
}

/// Name of a well-known device GUID.
pub open spec fn device_name_spec(g: Seq<u8>) -> Seq<char> {
    if g == synthvid_bytes() {
        "synthvid"@
    } else if g == netvsc_bytes() {
        "netvsc"@
    } else if g == synth_keyboard_bytes() {
        "keyboard"@
    } else if g == heartbeat_bytes() {
        "heartbeat"@
    } else {
        "unknown"@
    }
}

/// Name a well-known device GUID for logging.
pub fn device_name(guid: &Guid) -> (name: &'static str)
    ensures
        name@ == device_name_spec(guid.bytes@),
{
    if guid.same_as(&guid_synthvid()) {
        "synthvid"
    } else if guid.same_as(&guid_netvsc()) {
        "netvsc"
    } else if guid.same_as(&guid_synth_keyboard()) {
        "keyboard"
    } else if guid.same_as(&guid_heartbeat()) {
        "heartbeat"
    } else {
        "unknown"
    }
}

/// Build the target_info field for INITIATE_CONTACT.
///
/// For WIN8_1+ protocol the 8-byte field holds target_vcpu_index (byte 0,
/// boot vCPU) and feature_bits (byte 1, capabilities flag); older
/// protocols would need an interrupt page GPA, which is not supported.
pub fn target_info_for_version(version: u32) -> (r: u64)
    ensures
        version >= VERSION_WIN8_1 ==> r == 0x100,
        version < VERSION_WIN8_1 ==> r == 0,
{
    if version >= VERSION_WIN8_1 {
        0x0000_0000_0000_0100
    } else {
        0
    }
}

/// INITIATE_CONTACT (40 bytes): type, padding, requested version,
/// target vcpu (0), target info, both monitor page addresses.
pub open spec fn initiate_contact_bytes(version: u32, monitor_page1: u64, monitor_page2: u64) -> Seq<u8> {
    spec_u32_to_le_bytes(CHANNELMSG_INITIATE_CONTACT) + spec_u32_to_le_bytes(0) + spec_u32_to_le_bytes(version)
        + spec_u32_to_le_bytes(0) + spec_u64_to_le_bytes(if version >= VERSION_WIN8_1 { 0x100u64 } else { 0u64 })
        + spec_u64_to_le_bytes(monitor_page1) + spec_u64_to_le_bytes(monitor_page2)
}

/// INITIATE_CONTACT follows the wire layout: message type at bytes 0..4,
/// the requested version at 8..12, target vcpu 0 at 12..16, the target
/// info at 16..24 (the SINT to use, 0x100, from WIN8_1 on; 0 before), and
/// the two monitor pages at 24..32 and 32..40.
pub proof fn lemma_initiate_contact_layout(version: u32, monitor_page1: u64, monitor_page2: u64)
    ensures
        ({
            let m = initiate_contact_bytes(version, monitor_page1, monitor_page2);
            &&& m.len() == 40
            &&& m.subrange(0, 4) == spec_u32_to_le_bytes(CHANNELMSG_INITIATE_CONTACT)
            &&& m.subrange(8, 12) == spec_u32_to_le_bytes(version)
            &&& m.subrange(12, 16) == spec_u32_to_le_bytes(0)
            &&& m.subrange(16, 24) == spec_u64_to_le_bytes(
                if version >= VERSION_WIN8_1 {
                    0x100u64
                } else {
                    0u64
                },
            )
            &&& m.subrange(24, 32) == spec_u64_to_le_bytes(monitor_page1)
            &&& m.subrange(32, 40) == spec_u64_to_le_bytes(monitor_page2)
        }),
{
    lemma_auto_spec_u32_to_from_le_bytes();
    lemma_auto_spec_u64_to_from_le_bytes();
    let m = initiate_contact_bytes(version, monitor_page1, monitor_page2);
    let t: u64 = if version >= VERSION_WIN8_1 {
        0x100u64
    } else {
        0u64
    };
    assert(m.subrange(0, 4) =~= spec_u32_to_le_bytes(CHANNELMSG_INITIATE_CONTACT));
    assert(m.subrange(8, 12) =~= spec_u32_to_le_bytes(version));
    assert(m.subrange(12, 16) =~= spec_u32_to_le_bytes(0));
    assert(m.subrange(16, 24) =~= spec_u64_to_le_bytes(t));
    assert(m.subrange(24, 32) =~= spec_u64_to_le_bytes(monitor_page1));
    assert(m.subrange(32, 40) =~= spec_u64_to_le_bytes(monitor_page2));
}

/// Build the INITIATE_CONTACT message for one version attempt.
pub fn initiate_contact_msg(version: u32, monitor_page1: u64, monitor_page2: u64) -> (m: Vec<u8>)
    ensures
        m@ == initiate_contact_bytes(version, monitor_page1, monitor_page2),
{
    let mut m: Vec<u8> = Vec::new();
    push_u32_le(&mut m, CHANNELMSG_INITIATE_CONTACT);
    push_u32_le(&mut m, 0);
    push_u32_le(&mut m, version);
    push_u32_le(&mut m, 0);
    push_u64_le(&mut m, target_info_for_version(version));
    push_u64_le(&mut m, monitor_page1);
    push_u64_le(&mut m, monitor_page2);
    m
}

/// VERSION_RESPONSE: `Ok` when the host supports the requested version,
/// `VersionRejected` when it does not; `None` for any other message.
pub open spec fn version_response_spec(payload: Seq<u8>) -> Option<Result<(), HvError>> {
    if payload.len() < 12 || u32_at(payload, 0) != CHANNELMSG_VERSION_RESPONSE {
        None
    } else if payload[8] != 0 {
        Some(Ok(()))
    } else {
        Some(Err(HvError::VersionRejected))
    }
}

/// Matches the host's VERSION_RESPONSE message.
pub fn match_version_response(payload: &[u8]) -> (r: Option<Result<(), HvError>>)
    ensures
        r == version_response_spec(payload@),
{
    if payload.len() < 12 {
        return None;
    }
    if read_u32_le(payload, 0) != CHANNELMSG_VERSION_RESPONSE {
        return None;
    }
    if payload[8] != 0 {
        Some(Ok(()))
    } else {
        Some(Err(HvError::VersionRejected))
    }
}

/// Versions tried during connection, newest first.
pub open spec fn vmbus_versions() -> Seq<u32> {
    seq![VERSION_WIN10, VERSION_WIN8_1]
}

/// Version offered at attempt `attempt`.
pub fn connect_version(attempt: usize) -> (v: u32)
    requires
        attempt < 2,
    ensures
        v == vmbus_versions()[attempt as int],
{
    if attempt == 0 {
        VERSION_WIN10
    } else {
        VERSION_WIN8_1
    }
}

/// What to do after a connection attempt.
#[derive(Debug, Clone, Copy, PartialEq, Eq, Structural)]
pub enum ConnectStep {
    /// The host accepted this version: connection established.
    Accepted(u32),
    /// Offer the next version (the attempt number to make next).
    TryNext(usize),
    /// Give up with this error.
    Fail(HvError),
}

/// Version negotiation: an accepted version ends the negotiation; a
/// rejection moves on to the next older version, and once every version
/// was rejected the connection fails with `VersionRejected`; any other
/// error ends the negotiation with that error.
pub fn connect_step(attempt: usize, result: Result<(), HvError>) -> (s: ConnectStep)
    requires
        attempt < 2,
    ensures
        result is Ok ==> s == ConnectStep::Accepted(vmbus_versions()[attempt as int]),
        result == Err::<(), HvError>(HvError::VersionRejected) ==> s == (if attempt + 1 < 2 {
            ConnectStep::TryNext((attempt + 1) as usize)
        } else {
            ConnectStep::Fail(HvError::VersionRejected)
        }),
        (result matches Err(e) && e != HvError::VersionRejected) ==> s == ConnectStep::Fail(result->Err_0),
{
    match result {
        Ok(()) => ConnectStep::Accepted(connect_version(attempt)),
        Err(HvError::VersionRejected) => {
            if attempt + 1 < 2 {
                ConnectStep::TryNext(attempt + 1)
            } else {
                ConnectStep::Fail(HvError::VersionRejected)
            }
        },
        Err(e) => ConnectStep::Fail(e),
    }
}

/// REQUEST_OFFERS is just a header with msgtype=3.
pub fn request_offers_msg() -> (m: Vec<u8>)
    ensures
        m@ == spec_u32_to_le_bytes(CHANNELMSG_REQUEST_OFFERS) + spec_u32_to_le_bytes(0),
{
    let mut m: Vec<u8> = Vec::new();
    push_u32_le(&mut m, CHANNELMSG_REQUEST_OFFERS);
    push_u32_le(&mut m, 0);
    m
}

/// GUID stored at byte offset `a`.
pub open spec fn guid_at(p: Seq<u8>, a: int) -> Seq<u8> {
    p.subrange(a, a + 16)
}

/// Decoding of an OFFERCHANNEL payload (196 bytes, packed).
pub open spec fn offer_spec(p: Seq<u8>, o: ChannelOffer) -> bool {
    &&& o.device_type.bytes@ == guid_at(p, 8)
    &&& o.instance_id.bytes@ == guid_at(p, 24)
    &&& o.child_relid == u32_at(p, 184)
    &&& o.monitor_id == p[188]
    &&& o.monitor_allocated == (p[189] != 0)
    &&& o.is_dedicated_interrupt == (u16_at(p, 190) != 0)
    &&& o.connection_id == u32_at(p, 192)
}

/// A decoded OFFERCHANNEL payload holds the fields of the wire layout: the
/// interface type GUID from bytes 8..24, the instance GUID from bytes
/// 24..40, the child relid from 184..188, the monitor id from byte 188,
/// the monitor-allocated flag from byte 189, the dedicated-interrupt flag
/// from 190..192 and the connection id from 192..196 (little-endian).
pub proof fn lemma_offer_wire_layout(p: Seq<u8>, o: ChannelOffer)
    requires
        p.len() >= 196,
        offer_spec(p, o),
    ensures
        o.device_type.bytes@ == p.subrange(8, 24),
        o.instance_id.bytes@ == p.subrange(24, 40),
        spec_u32_to_le_bytes(o.child_relid) == p.subrange(184, 188),
        o.monitor_id == p[188],
        o.monitor_allocated == (p[189] != 0),
        o.is_dedicated_interrupt == (spec_u16_from_le_bytes(p.subrange(190, 192)) != 0),
        spec_u32_to_le_bytes(o.connection_id) == p.subrange(192, 196),
{
    lemma_auto_spec_u32_to_from_le_bytes();
}

/// Copies a GUID out of a payload.
fn guid_from(p: &[u8], a: usize) -> (g: Guid)
    requires
        a + 16 <= p.len(),
    ensures
        g.bytes@ == guid_at(p@, a as int),
{
    let mut bytes = [0u8; 16];
    let mut i: usize = 0;
    while i < 16
        invariant
            a + 16 <= p.len(),
            i <= 16,
            forall|k: int| 0 <= k < i ==> bytes@[k] == p@[a + k],
        decreases 16 - i,
    {
        bytes[i] = p[a + i];
        i = i + 1;
    }
    assert(bytes@ =~= guid_at(p@, a as int));
    Guid { bytes }
}

/// Parse an OFFERCHANNEL message payload into a ChannelOffer.
///
/// Layout (packed, 196 bytes): header (8), interface type GUID (8..24),
/// instance GUID (24..40), ..., child relid (184..188), monitor id (188),
/// monitor allocated (189), dedicated interrupt (190..192), connection id (192..196).
pub fn parse_offer(payload: &[u8]) -> (r: Option<ChannelOffer>)
    ensures
        payload@.len() < 196 ==> r is None,
        payload@.len() >= 196 ==> (r matches Some(o) && offer_spec(payload@, o)),
        r matches Some(o) ==> o.device_type.bytes@ == payload@.subrange(8, 24) && o.instance_id.bytes@
            == payload@.subrange(24, 40) && o.child_relid == spec_u32_from_le_bytes(payload@.subrange(184, 188))
            && o.connection_id == spec_u32_from_le_bytes(payload@.subrange(192, 196)),
{
    if payload.len() < 196 {
        return None;
    }
    let device_type = guid_from(payload, 8);
    let instance_id = guid_from(payload, 24);
    let child_relid = read_u32_le(payload, 184);
    let monitor_id = payload[188];
    let monitor_allocated = payload[189] != 0;
    let is_dedicated_interrupt = read_u16_le(payload, 190);
    let connection_id = read_u32_le(payload, 192);
    Some(
        ChannelOffer {
            device_type,
            instance_id,
            child_relid,
            connection_id,
            monitor_id,
            monitor_allocated,
            is_dedicated_interrupt: is_dedicated_interrupt != 0,
        },
    )
}

/// Effect of one host message while collecting offers: OFFERCHANNEL
/// messages that parse are appended; ALLOFFERS_DELIVERED ends the
/// collection (returns `true`); anything else is skipped.
pub fn collect_offer(offers: &mut Vec<ChannelOffer>, payload: &[u8]) -> (done: bool)
    ensures
        done == (payload@.len() >= 4 && u32_at(payload@, 0) == CHANNELMSG_ALLOFFERS_DELIVERED),
        (payload@.len() >= 196 && u32_at(payload@, 0) == CHANNELMSG_OFFERCHANNEL) ==> {
            &&& final(offers)@.len() == old(offers)@.len() + 1
            &&& final(offers)@.subrange(0, old(offers)@.len() as int) == old(offers)@
            &&& offer_spec(payload@, final(offers)@.last())
        },
        !(payload@.len() >= 196 && u32_at(payload@, 0) == CHANNELMSG_OFFERCHANNEL) ==> final(offers)@
            == old(offers)@,
{
    if payload.len() < 4 {
        return false;
    }
    let msgtype = read_u32_le(payload, 0);
    if msgtype == CHANNELMSG_OFFERCHANNEL {
        match parse_offer(payload) {
            Some(offer) => {
                offers.push(offer);
                proof {
                    assert(offers@.subrange(0, old(offers)@.len() as int) =~= old(offers)@);
                }
            },
            None => {},
        }
        false
    } else {
        msgtype == CHANNELMSG_ALLOFFERS_DELIVERED
    }
}

/// Result of offer collection: the offers once ALLOFFERS_DELIVERED was
/// seen; on a timeout, the offers gathered so far if there are any.
pub fn finish_offers(result: Result<(), HvError>, offers: Vec<ChannelOffer>) -> (r: Result<Vec<ChannelOffer>, HvError>)
    ensures
        result is Ok ==> (r matches Ok(v) && v@ == offers@),
        result == Err::<(), HvError>(HvError::Timeout) ==> if offers@.len() > 0 {
            r matches Ok(v) && v@ == offers@
        } else {
            r == Err::<Vec<ChannelOffer>, HvError>(HvError::Timeout)
        },
        (result matches Err(e) && e != HvError::Timeout) ==> r == Err::<Vec<ChannelOffer>, HvError>(result->Err_0),
{
    match result {
        Ok(()) => Ok(offers),
        Err(HvError::Timeout) => {
            if offers.len() > 0 {
                Ok(offers)
            } else {
                Err(HvError::Timeout)
            }
        },
        Err(e) => Err(e),
    }
}

/// The first offer of device type `guid`, if any.
pub fn find_offer(offers: &[ChannelOffer], guid: &Guid) -> (r: Option<ChannelOffer>)
    ensures
        match r {
            Some(o) => exists|i: int|
                0 <= i < offers@.len() && #[trigger] offers@[i] == o && o.device_type.bytes@ == guid.bytes@
                    && forall|j: int| 0 <= j < i ==> offers@[j].device_type.bytes@ != guid.bytes@,
            None => forall|j: int| 0 <= j < offers@.len() ==> offers@[j].device_type.bytes@ != guid.bytes@,
        },
{
    let mut i: usize = 0;
    while i < offers.len()
        invariant
            i <= offers@.len(),
            forall|j: int| 0 <= j < i ==> offers@[j].device_type.bytes@ != guid.bytes@,
        decreases offers@.len() - i,
    {
        if offers[i].device_type.same_as(guid) {
            let o = offers[i];
            assert(offers@[i as int] == o);
            return Some(o);
        }
        i = i + 1;
    }
    None
}

} // verus!
