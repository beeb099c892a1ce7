//! NVSP/RNDIS/VMBus protocol constants and their typed forms.
use vstd::prelude::*;

verus! {

// ── wire constants ─────────────────────────────────────────────────────

pub const NVSP_PROTOCOL_VERSION_1: u32 = 0x2;
pub const NVSP_PROTOCOL_VERSION_2: u32 = 0x30002;
pub const NVSP_PROTOCOL_VERSION_4: u32 = 0x40000;
pub const NVSP_PROTOCOL_VERSION_5: u32 = 0x50000;
pub const NVSP_PROTOCOL_VERSION_6: u32 = 0x60000;
pub const NVSP_PROTOCOL_VERSION_61: u32 = 0x60001;

pub const NVSP_MSG_TYPE_NONE: u32 = 0;
pub const NVSP_MSG_TYPE_INIT: u32 = 1;
pub const NVSP_MSG_TYPE_INIT_COMPLETE: u32 = 2;
pub const NVSP_MSG1_TYPE_SEND_NDIS_VER: u32 = 100;
pub const NVSP_MSG1_TYPE_SEND_RECV_BUF: u32 = 101;
pub const NVSP_MSG1_TYPE_SEND_RECV_BUF_COMPLETE: u32 = 102;
pub const NVSP_MSG1_TYPE_REVOKE_RECV_BUF: u32 = 103;
pub const NVSP_MSG1_TYPE_SEND_SEND_BUF: u32 = 104;
pub const NVSP_MSG1_TYPE_SEND_SEND_BUF_COMPLETE: u32 = 105;
pub const NVSP_MSG1_TYPE_REVOKE_SEND_BUF: u32 = 106;
pub const NVSP_MSG1_TYPE_SEND_RNDIS_PKT: u32 = 107;
pub const NVSP_MSG1_TYPE_SEND_RNDIS_PKT_COMPLETE: u32 = 108;
pub const NVSP_MSG2_TYPE_SEND_NDIS_CONFIG: u32 = 125;
pub const NVSP_MSG4_TYPE_SEND_VF_ASSOCIATION: u32 = 128;
pub const NVSP_MSG4_TYPE_SWITCH_DATA_PATH: u32 = 129;
pub const NVSP_MSG5_TYPE_SUBCHANNEL: u32 = 133;
pub const NVSP_MSG5_TYPE_SEND_INDIRECTION_TABLE: u32 = 134;

pub const NVSP_STAT_NONE: u32 = 0;
pub const NVSP_STAT_SUCCESS: u32 = 1;
pub const NVSP_STAT_FAIL: u32 = 2;
pub const NVSP_STAT_PROTOCOL_TOO_NEW: u32 = 3;
pub const NVSP_STAT_PROTOCOL_TOO_OLD: u32 = 4;
pub const NVSP_STAT_INVALID_RNDIS_PKT: u32 = 5;
pub const NVSP_STAT_BUSY: u32 = 6;
pub const NVSP_STAT_PROTOCOL_UNSUPPORTED: u32 = 7;

pub const RNDIS_MSG_COMPLETION: u32 = 0x8000_0000;
pub const RNDIS_MSG_PACKET: u32 = 0x0000_0001;
pub const RNDIS_MSG_INIT: u32 = 0x0000_0002;
pub const RNDIS_MSG_INIT_C: u32 = 0x8000_0002;
pub const RNDIS_MSG_HALT: u32 = 0x0000_0003;
pub const RNDIS_MSG_QUERY: u32 = 0x0000_0004;
pub const RNDIS_MSG_QUERY_C: u32 = 0x8000_0004;
pub const RNDIS_MSG_SET: u32 = 0x0000_0005;
pub const RNDIS_MSG_SET_C: u32 = 0x8000_0005;
pub const RNDIS_MSG_RESET: u32 = 0x0000_0006;
pub const RNDIS_MSG_RESET_C: u32 = 0x8000_0006;
pub const RNDIS_MSG_INDICATE: u32 = 0x0000_0007;
pub const RNDIS_MSG_KEEPALIVE: u32 = 0x0000_0008;
pub const RNDIS_MSG_KEEPALIVE_C: u32 = 0x8000_0008;

pub const RNDIS_MAJOR_VERSION: u32 = 1;
pub const RNDIS_MINOR_VERSION: u32 = 0;

pub const RNDIS_STATUS_SUCCESS: u32 = 0x0000_0000;
pub const RNDIS_STATUS_PENDING: u32 = 0x0000_0103;
pub const RNDIS_STATUS_MEDIA_CONNECT: u32 = 0x4001_000B;
pub const RNDIS_STATUS_MEDIA_DISCONNECT: u32 = 0x4001_000C;
pub const RNDIS_STATUS_NETWORK_CHANGE: u32 = 0x4001_0018;
pub const RNDIS_STATUS_FAILURE: u32 = 0xC000_0001;
pub const RNDIS_STATUS_NOT_SUPPORTED: u32 = 0xC000_00BB;
pub const RNDIS_STATUS_RESOURCES: u32 = 0xC000_009A;
pub const RNDIS_STATUS_INVALID_DATA: u32 = 0xC001_0015;

pub const OID_GEN_SUPPORTED_LIST: u32 = 0x0001_0101;
pub const OID_GEN_HARDWARE_STATUS: u32 = 0x0001_0102;
pub const OID_GEN_MAXIMUM_FRAME_SIZE: u32 = 0x0001_0106;
pub const OID_GEN_LINK_SPEED: u32 = 0x0001_0107;
pub const OID_GEN_CURRENT_PACKET_FILTER: u32 = 0x0001_010E;
pub const OID_GEN_CURRENT_LOOKAHEAD: u32 = 0x0001_010F;
pub const OID_GEN_MAXIMUM_TOTAL_SIZE: u32 = 0x0001_0111;
pub const OID_GEN_MEDIA_CONNECT_STATUS: u32 = 0x0001_0114;
pub const OID_802_3_PERMANENT_ADDRESS: u32 = 0x0101_0101;
pub const OID_802_3_CURRENT_ADDRESS: u32 = 0x0101_0102;
pub const OID_802_3_MULTICAST_LIST: u32 = 0x0101_0103;
pub const OID_802_3_MAXIMUM_LIST_SIZE: u32 = 0x0101_0104;
pub const OID_TCP_OFFLOAD_PARAMETERS: u32 = 0xFC01_020C;
pub const OID_TCP_OFFLOAD_HARDWARE_CAPABILITIES: u32 = 0xFC01_020D;
pub const OID_GEN_RECEIVE_SCALE_CAPABILITIES: u32 = 0x0001_0203;
pub const OID_GEN_RECEIVE_SCALE_PARAMETERS: u32 = 0x0001_0204;

pub const NDIS_PACKET_TYPE_DIRECTED: u32 = 0x0000_0001;
pub const NDIS_PACKET_TYPE_MULTICAST: u32 = 0x0000_0002;
pub const NDIS_PACKET_TYPE_ALL_MULTICAST: u32 = 0x0000_0004;
pub const NDIS_PACKET_TYPE_BROADCAST: u32 = 0x0000_0008;
pub const NDIS_PACKET_TYPE_PROMISCUOUS: u32 = 0x0000_0020;

pub const VM_PKT_DATA_INBAND: u32 = 6;
pub const VM_PKT_DATA_USING_XFER_PAGES: u32 = 7;
pub const VM_PKT_DATA_USING_GPA_DIRECT: u32 = 9;
pub const VM_PKT_COMP: u32 = 11;

// Well-known buffer IDs and sizes used during NVSP buffer registration.
pub const RECEIVE_BUFFER_ID: u16 = 0xCAFE;
pub const SEND_BUFFER_ID: u16 = 0;
pub const RECEIVE_BUFFER_SIZE: usize = 16 * 1024 * 1024;
pub const SEND_BUFFER_SIZE: usize = 1024 * 1024;
pub const SEND_SECTION_SIZE: usize = 6144;
pub const RECV_SECTION_SIZE: usize = 1728;
pub const RNDIS_MAX_PKT_DEFAULT: u32 = 8;
pub const RNDIS_PKT_ALIGN_DEFAULT: u32 = 8;

// ── NVSP protocol versions ──────────────────────────────────────────────

/// NVSP protocol version negotiated between VSC (guest) and VSP (host).
#[derive(Debug, Clone, Copy, PartialEq, Eq, Structural)]
pub enum NvspVersion {
    V1,
    V2,
    V4,
    V5,
    V6,
    V61,
}

/// Wire value of a protocol version.
pub open spec fn nvsp_version_value(v: NvspVersion) -> u32 {
    match v {
        NvspVersion::V1 => NVSP_PROTOCOL_VERSION_1,
        NvspVersion::V2 => NVSP_PROTOCOL_VERSION_2,
        NvspVersion::V4 => NVSP_PROTOCOL_VERSION_4,
        NvspVersion::V5 => NVSP_PROTOCOL_VERSION_5,
        NvspVersion::V6 => NVSP_PROTOCOL_VERSION_6,
        NvspVersion::V61 => NVSP_PROTOCOL_VERSION_61,
    }
}

/// Versions to try during negotiation, newest first.
pub open spec fn negotiate_order_spec() -> Seq<NvspVersion> {
    seq![NvspVersion::V61, NvspVersion::V6, NvspVersion::V5, NvspVersion::V4, NvspVersion::V2, NvspVersion::V1]
}

impl NvspVersion {
    /// Versions to try during negotiation, newest first.
    pub fn negotiate_order() -> (v: Vec<NvspVersion>)
        ensures
            v@ == negotiate_order_spec(),
    {
        let v = vec![
            NvspVersion::V61,
            NvspVersion::V6,
            NvspVersion::V5,
            NvspVersion::V4,
            NvspVersion::V2,
            NvspVersion::V1,
        ];
        assert(v@ =~= negotiate_order_spec());
        v
    }

    pub fn as_u32(self) -> (r: u32)
        ensures
            r == nvsp_version_value(self),
    {
        match self {
            NvspVersion::V1 => NVSP_PROTOCOL_VERSION_1,
            NvspVersion::V2 => NVSP_PROTOCOL_VERSION_2,
            NvspVersion::V4 => NVSP_PROTOCOL_VERSION_4,
            NvspVersion::V5 => NVSP_PROTOCOL_VERSION_5,
            NvspVersion::V6 => NVSP_PROTOCOL_VERSION_6,
            NvspVersion::V61 => NVSP_PROTOCOL_VERSION_61,
        }
    }
}

// ── NVSP message types ──────────────────────────────────────────────────

/// NVSP message type sent/received on the VMBus channel.
#[derive(Debug, Clone, Copy, PartialEq, Eq, Structural)]
pub enum NvspMessageType {
    NoMessage,
    Init,
    InitComplete,
    // Version 1
    SendNdisVersion,
    SendReceiveBuffer,
    SendReceiveBufferComplete,
    RevokeReceiveBuffer,
    SendSendBuffer,
    SendSendBufferComplete,
    RevokeSendBuffer,
    SendRndisPkt,
    SendRndisPktComplete,
    // Version 2
    SendNdisConfig,
    // Version 4
    SendVfAssociation,
    SwitchDataPath,
    // Version 5
    SubChannel,
    SendIndirectionTable,
}

/// Wire value of an NVSP message type.
pub open spec fn nvsp_message_type_value(t: NvspMessageType) -> u32 {
    match t {
        NvspMessageType::NoMessage => NVSP_MSG_TYPE_NONE,
        NvspMessageType::Init => NVSP_MSG_TYPE_INIT,
        NvspMessageType::InitComplete => NVSP_MSG_TYPE_INIT_COMPLETE,
        NvspMessageType::SendNdisVersion => NVSP_MSG1_TYPE_SEND_NDIS_VER,
        NvspMessageType::SendReceiveBuffer => NVSP_MSG1_TYPE_SEND_RECV_BUF,
        NvspMessageType::SendReceiveBufferComplete => NVSP_MSG1_TYPE_SEND_RECV_BUF_COMPLETE,
        NvspMessageType::RevokeReceiveBuffer => NVSP_MSG1_TYPE_REVOKE_RECV_BUF,
        NvspMessageType::SendSendBuffer => NVSP_MSG1_TYPE_SEND_SEND_BUF,
        NvspMessageType::SendSendBufferComplete => NVSP_MSG1_TYPE_SEND_SEND_BUF_COMPLETE,
        NvspMessageType::RevokeSendBuffer => NVSP_MSG1_TYPE_REVOKE_SEND_BUF,
        NvspMessageType::SendRndisPkt => NVSP_MSG1_TYPE_SEND_RNDIS_PKT,
        NvspMessageType::SendRndisPktComplete => NVSP_MSG1_TYPE_SEND_RNDIS_PKT_COMPLETE,
        NvspMessageType::SendNdisConfig => NVSP_MSG2_TYPE_SEND_NDIS_CONFIG,
        NvspMessageType::SendVfAssociation => NVSP_MSG4_TYPE_SEND_VF_ASSOCIATION,
        NvspMessageType::SwitchDataPath => NVSP_MSG4_TYPE_SWITCH_DATA_PATH,
        NvspMessageType::SubChannel => NVSP_MSG5_TYPE_SUBCHANNEL,
        NvspMessageType::SendIndirectionTable => NVSP_MSG5_TYPE_SEND_INDIRECTION_TABLE,
    }
}

impl NvspMessageType {
    pub fn as_u32(self) -> (r: u32)
        ensures
            r == nvsp_message_type_value(self),
    {
        match self {
            NvspMessageType::NoMessage => NVSP_MSG_TYPE_NONE,
            NvspMessageType::Init => NVSP_MSG_TYPE_INIT,
            NvspMessageType::InitComplete => NVSP_MSG_TYPE_INIT_COMPLETE,
            NvspMessageType::SendNdisVersion => NVSP_MSG1_TYPE_SEND_NDIS_VER,
            NvspMessageType::SendReceiveBuffer => NVSP_MSG1_TYPE_SEND_RECV_BUF,
            NvspMessageType::SendReceiveBufferComplete => NVSP_MSG1_TYPE_SEND_RECV_BUF_COMPLETE,
            NvspMessageType::RevokeReceiveBuffer => NVSP_MSG1_TYPE_REVOKE_RECV_BUF,
            NvspMessageType::SendSendBuffer => NVSP_MSG1_TYPE_SEND_SEND_BUF,
            NvspMessageType::SendSendBufferComplete => NVSP_MSG1_TYPE_SEND_SEND_BUF_COMPLETE,
            NvspMessageType::RevokeSendBuffer => NVSP_MSG1_TYPE_REVOKE_SEND_BUF,
            NvspMessageType::SendRndisPkt => NVSP_MSG1_TYPE_SEND_RNDIS_PKT,
            NvspMessageType::SendRndisPktComplete => NVSP_MSG1_TYPE_SEND_RNDIS_PKT_COMPLETE,
            NvspMessageType::SendNdisConfig => NVSP_MSG2_TYPE_SEND_NDIS_CONFIG,
            NvspMessageType::SendVfAssociation => NVSP_MSG4_TYPE_SEND_VF_ASSOCIATION,
            NvspMessageType::SwitchDataPath => NVSP_MSG4_TYPE_SWITCH_DATA_PATH,
            NvspMessageType::SubChannel => NVSP_MSG5_TYPE_SUBCHANNEL,
            NvspMessageType::SendIndirectionTable => NVSP_MSG5_TYPE_SEND_INDIRECTION_TABLE,
        }
    }

    pub fn from_u32(v: u32) -> (r: Option<Self>)
        ensures
            r matches Some(t) ==> nvsp_message_type_value(t) == v,
            r is None ==> forall|t: NvspMessageType| nvsp_message_type_value(t) != v,
    {
        match v {
            NVSP_MSG_TYPE_NONE => Some(Self::NoMessage),
            NVSP_MSG_TYPE_INIT => Some(Self::Init),
            NVSP_MSG_TYPE_INIT_COMPLETE => Some(Self::InitComplete),
            NVSP_MSG1_TYPE_SEND_NDIS_VER => Some(Self::SendNdisVersion),
            NVSP_MSG1_TYPE_SEND_RECV_BUF => Some(Self::SendReceiveBuffer),
            NVSP_MSG1_TYPE_SEND_RECV_BUF_COMPLETE => Some(Self::SendReceiveBufferComplete),
            NVSP_MSG1_TYPE_REVOKE_RECV_BUF => Some(Self::RevokeReceiveBuffer),
            NVSP_MSG1_TYPE_SEND_SEND_BUF => Some(Self::SendSendBuffer),
            NVSP_MSG1_TYPE_SEND_SEND_BUF_COMPLETE => Some(Self::SendSendBufferComplete),
            NVSP_MSG1_TYPE_REVOKE_SEND_BUF => Some(Self::RevokeSendBuffer),
            NVSP_MSG1_TYPE_SEND_RNDIS_PKT => Some(Self::SendRndisPkt),
            NVSP_MSG1_TYPE_SEND_RNDIS_PKT_COMPLETE => Some(Self::SendRndisPktComplete),
            NVSP_MSG2_TYPE_SEND_NDIS_CONFIG => Some(Self::SendNdisConfig),
            NVSP_MSG4_TYPE_SEND_VF_ASSOCIATION => Some(Self::SendVfAssociation),
            NVSP_MSG4_TYPE_SWITCH_DATA_PATH => Some(Self::SwitchDataPath),
            NVSP_MSG5_TYPE_SUBCHANNEL => Some(Self::SubChannel),
            NVSP_MSG5_TYPE_SEND_INDIRECTION_TABLE => Some(Self::SendIndirectionTable),
            _ => None,
        }
    }
}

// ── NVSP status ─────────────────────────────────────────────────────────

/// Status code returned in NVSP completion messages.
#[derive(Debug, Clone, Copy, PartialEq, Eq, Structural)]
pub enum NvspStatus {
    NoStatus,
    Success,
    Fail,
    ProtocolTooNew,
    ProtocolTooOld,
    InvalidRndisPkt,
    Busy,
    ProtocolUnsupported,
}

/// Wire value of an NVSP status.
pub open spec fn nvsp_status_value(s: NvspStatus) -> u32 {
    match s {
        NvspStatus::NoStatus => NVSP_STAT_NONE,
        NvspStatus::Success => NVSP_STAT_SUCCESS,
        NvspStatus::Fail => NVSP_STAT_FAIL,
        NvspStatus::ProtocolTooNew => NVSP_STAT_PROTOCOL_TOO_NEW,
        NvspStatus::ProtocolTooOld => NVSP_STAT_PROTOCOL_TOO_OLD,
        NvspStatus::InvalidRndisPkt => NVSP_STAT_INVALID_RNDIS_PKT,
        NvspStatus::Busy => NVSP_STAT_BUSY,
        NvspStatus::ProtocolUnsupported => NVSP_STAT_PROTOCOL_UNSUPPORTED,
    }
}

impl NvspStatus {
    pub fn from_u32(v: u32) -> (r: Option<Self>)
        ensures
            r matches Some(s) ==> nvsp_status_value(s) == v,
            r is None ==> forall|s: NvspStatus| nvsp_status_value(s) != v,
    {
        match v {
            NVSP_STAT_NONE => Some(Self::NoStatus),
            NVSP_STAT_SUCCESS => Some(Self::Success),
            NVSP_STAT_FAIL => Some(Self::Fail),
            NVSP_STAT_PROTOCOL_TOO_NEW => Some(Self::ProtocolTooNew),
            NVSP_STAT_PROTOCOL_TOO_OLD => Some(Self::ProtocolTooOld),
            NVSP_STAT_INVALID_RNDIS_PKT => Some(Self::InvalidRndisPkt),
            NVSP_STAT_BUSY => Some(Self::Busy),
            NVSP_STAT_PROTOCOL_UNSUPPORTED => Some(Self::ProtocolUnsupported),
            _ => None,
        }
    }

    pub fn is_success(self) -> (r: bool)
        ensures
            r == (self == NvspStatus::Success),
    {
        self == Self::Success
    }
}

// ── RNDIS message types ─────────────────────────────────────────────────

/// RNDIS message type (ndis_msg_type field of rndis_message).
#[derive(Debug, Clone, Copy, PartialEq, Eq, Structural)]
pub enum RndisMessageType {
    Packet,
    Init,
    InitComplete,
    Halt,
    Query,
    QueryComplete,
    SetRequest,
    SetComplete,
    Reset,
    ResetComplete,
    Indicate,
    KeepAlive,
    KeepAliveComplete,
}

/// Wire value of an RNDIS message type.
pub open spec fn rndis_message_type_value(t: RndisMessageType) -> u32 {
    match t {
        RndisMessageType::Packet => RNDIS_MSG_PACKET,
        RndisMessageType::Init => RNDIS_MSG_INIT,
        RndisMessageType::InitComplete => RNDIS_MSG_INIT_C,
        RndisMessageType::Halt => RNDIS_MSG_HALT,
        RndisMessageType::Query => RNDIS_MSG_QUERY,
        RndisMessageType::QueryComplete => RNDIS_MSG_QUERY_C,
        RndisMessageType::SetRequest => RNDIS_MSG_SET,
        RndisMessageType::SetComplete => RNDIS_MSG_SET_C,
        RndisMessageType::Reset => RNDIS_MSG_RESET,
        RndisMessageType::ResetComplete => RNDIS_MSG_RESET_C,
        RndisMessageType::Indicate => RNDIS_MSG_INDICATE,
        RndisMessageType::KeepAlive => RNDIS_MSG_KEEPALIVE,
        RndisMessageType::KeepAliveComplete => RNDIS_MSG_KEEPALIVE_C,
    }
}

impl RndisMessageType {
    pub fn as_u32(self) -> (r: u32)
        ensures
            r == rndis_message_type_value(self),
    {
        match self {
            RndisMessageType::Packet => RNDIS_MSG_PACKET,
            RndisMessageType::Init => RNDIS_MSG_INIT,
            RndisMessageType::InitComplete => RNDIS_MSG_INIT_C,
            RndisMessageType::Halt => RNDIS_MSG_HALT,
            RndisMessageType::Query => RNDIS_MSG_QUERY,
            RndisMessageType::QueryComplete => RNDIS_MSG_QUERY_C,
            RndisMessageType::SetRequest => RNDIS_MSG_SET,
            RndisMessageType::SetComplete => RNDIS_MSG_SET_C,
            RndisMessageType::Reset => RNDIS_MSG_RESET,
            RndisMessageType::ResetComplete => RNDIS_MSG_RESET_C,
            RndisMessageType::Indicate => RNDIS_MSG_INDICATE,
            RndisMessageType::KeepAlive => RNDIS_MSG_KEEPALIVE,
            RndisMessageType::KeepAliveComplete => RNDIS_MSG_KEEPALIVE_C,
        }
    }

    /// Returns true if this is a completion (response) message type.
    pub fn is_completion(self) -> (r: bool)
        ensures
            r == (rndis_message_type_value(self) & RNDIS_MSG_COMPLETION != 0),
    {
        (self.as_u32() & RNDIS_MSG_COMPLETION) != 0
    }

    pub fn from_u32(v: u32) -> (r: Option<Self>)
        ensures
            r matches Some(t) ==> rndis_message_type_value(t) == v,
            r is None ==> forall|t: RndisMessageType| rndis_message_type_value(t) != v,
    {
        match v {
            RNDIS_MSG_PACKET => Some(Self::Packet),
            RNDIS_MSG_INIT => Some(Self::Init),
            RNDIS_MSG_INIT_C => Some(Self::InitComplete),
            RNDIS_MSG_HALT => Some(Self::Halt),
            RNDIS_MSG_QUERY => Some(Self::Query),
            RNDIS_MSG_QUERY_C => Some(Self::QueryComplete),
            RNDIS_MSG_SET => Some(Self::SetRequest),
            RNDIS_MSG_SET_C => Some(Self::SetComplete),
            RNDIS_MSG_RESET => Some(Self::Reset),
            RNDIS_MSG_RESET_C => Some(Self::ResetComplete),
            RNDIS_MSG_INDICATE => Some(Self::Indicate),
            RNDIS_MSG_KEEPALIVE => Some(Self::KeepAlive),
            RNDIS_MSG_KEEPALIVE_C => Some(Self::KeepAliveComplete),
            _ => None,
        }
    }
}

// ── RNDIS status ────────────────────────────────────────────────────────

/// RNDIS status code returned in completion messages.
#[derive(Debug, Clone, Copy, PartialEq, Eq, Structural)]
pub struct RndisStatus(pub u32);

impl RndisStatus {
    pub fn is_success(self) -> (r: bool)
        ensures
            r == (self.0 == RNDIS_STATUS_SUCCESS),
    {
        self.0 == RNDIS_STATUS_SUCCESS
    }

    /// NDIS error codes have the top two bits set (0xC0000000 range).
    pub fn is_error(self) -> (r: bool)
        ensures
            r == (self.0 & 0xC000_0000 == 0xC000_0000),
    {
        self.0 & 0xC000_0000 == 0xC000_0000
    }
}

// ── VMBus packet types ──────────────────────────────────────────────────

/// VMBus ring buffer packet type.
#[derive(Debug, Clone, Copy, PartialEq, Eq, Structural)]
pub enum VmbusPacketType {
    DataInBand,
    DataUsingXferPages,
    DataUsingGpaDirect,
    Completion,
}

/// Wire value of a VMBus packet type.
pub open spec fn vmbus_packet_type_value(t: VmbusPacketType) -> u16 {
    match t {
        VmbusPacketType::DataInBand => VM_PKT_DATA_INBAND as u16,
        VmbusPacketType::DataUsingXferPages => VM_PKT_DATA_USING_XFER_PAGES as u16,
        VmbusPacketType::DataUsingGpaDirect => VM_PKT_DATA_USING_GPA_DIRECT as u16,
        VmbusPacketType::Completion => VM_PKT_COMP as u16,
    }
}

impl VmbusPacketType {
    pub fn from_u16(v: u16) -> (r: Option<Self>)
        ensures
            r matches Some(t) ==> vmbus_packet_type_value(t) == v,
            r is None ==> forall|t: VmbusPacketType| vmbus_packet_type_value(t) != v,
    {
        match v as u32 {
            VM_PKT_DATA_INBAND => Some(Self::DataInBand),
            VM_PKT_DATA_USING_XFER_PAGES => Some(Self::DataUsingXferPages),
            VM_PKT_DATA_USING_GPA_DIRECT => Some(Self::DataUsingGpaDirect),
            VM_PKT_COMP => Some(Self::Completion),
            _ => None,
        }
    }
}

// ── NDIS OIDs ───────────────────────────────────────────────────────────

/// NDIS Object Identifier used in RNDIS QUERY/SET messages.
#[derive(Debug, Clone, Copy, PartialEq, Eq, Structural)]
pub struct NdisOid(pub u32);

// ── NDIS packet filter (bitflags) ───────────────────────────────────────

/// NDIS packet filter flags for OID_GEN_CURRENT_PACKET_FILTER.
#[derive(Debug, Clone, Copy, PartialEq, Eq, Structural)]
pub struct NdisPacketFilter(pub u32);

/// Standard filter for normal operation: unicast + multicast + broadcast.
pub const NDIS_PACKET_FILTER_STANDARD: u32 = NDIS_PACKET_TYPE_DIRECTED | NDIS_PACKET_TYPE_MULTICAST
    | NDIS_PACKET_TYPE_BROADCAST;

impl NdisPacketFilter {
    /// Union of two filters.
    pub fn bitor(self, rhs: Self) -> (r: Self)
        ensures
            r.0 == self.0 | rhs.0,
    {
        NdisPacketFilter(self.0 | rhs.0)
    }

    /// Intersection of two filters.
    pub fn bitand(self, rhs: Self) -> (r: Self)
        ensures
            r.0 == self.0 & rhs.0,
    {
        NdisPacketFilter(self.0 & rhs.0)
    }
}

// ── VSC capability flags ────────────────────────────────────────────────

/// Flags for nvsp_2_vsc_capability.data (bitfield over u64).
#[derive(Debug, Clone, Copy, PartialEq, Eq, Structural)]
pub struct VscCapability(pub u64);

pub const VSC_CAP_VMQ: u64 = 1;
pub const VSC_CAP_CHIMNEY: u64 = 2;
pub const VSC_CAP_SRIOV: u64 = 4;
pub const VSC_CAP_IEEE8021Q: u64 = 8;
pub const VSC_CAP_CORRELATION_ID: u64 = 16;
pub const VSC_CAP_TEAMING: u64 = 32;
pub const VSC_CAP_VSUBNETID: u64 = 64;
pub const VSC_CAP_RSC: u64 = 128;

// ── laws ────────────────────────────────────────────────────────────────

/// Decoding the wire value of any NVSP message type gives the type back,
/// and no two message types share a wire value.
pub proof fn lemma_nvsp_message_type_roundtrip(t: NvspMessageType, u: NvspMessageType)
    ensures
        nvsp_message_type_value(t) == nvsp_message_type_value(u) ==> t == u,
{
}

/// No two RNDIS message types share a wire value, and exactly the
/// response types carry the completion bit.
pub proof fn lemma_rndis_message_type_roundtrip(t: RndisMessageType, u: RndisMessageType)
    ensures
        rndis_message_type_value(t) == rndis_message_type_value(u) ==> t == u,
        (rndis_message_type_value(t) & RNDIS_MSG_COMPLETION != 0) <==> (t == RndisMessageType::InitComplete
            || t == RndisMessageType::QueryComplete || t == RndisMessageType::SetComplete || t
            == RndisMessageType::ResetComplete || t == RndisMessageType::KeepAliveComplete),
{
    assert(RNDIS_MSG_PACKET & RNDIS_MSG_COMPLETION == 0) by (bit_vector);
    assert(RNDIS_MSG_INIT & RNDIS_MSG_COMPLETION == 0) by (bit_vector);
    assert(RNDIS_MSG_INIT_C & RNDIS_MSG_COMPLETION != 0) by (bit_vector);
    assert(RNDIS_MSG_HALT & RNDIS_MSG_COMPLETION == 0) by (bit_vector);
    assert(RNDIS_MSG_QUERY & RNDIS_MSG_COMPLETION == 0) by (bit_vector);
    assert(RNDIS_MSG_QUERY_C & RNDIS_MSG_COMPLETION != 0) by (bit_vector);
    assert(RNDIS_MSG_SET & RNDIS_MSG_COMPLETION == 0) by (bit_vector);
    assert(RNDIS_MSG_SET_C & RNDIS_MSG_COMPLETION != 0) by (bit_vector);
    assert(RNDIS_MSG_RESET & RNDIS_MSG_COMPLETION == 0) by (bit_vector);
    assert(RNDIS_MSG_RESET_C & RNDIS_MSG_COMPLETION != 0) by (bit_vector);
    assert(RNDIS_MSG_INDICATE & RNDIS_MSG_COMPLETION == 0) by (bit_vector);
    assert(RNDIS_MSG_KEEPALIVE & RNDIS_MSG_COMPLETION == 0) by (bit_vector);
    assert(RNDIS_MSG_KEEPALIVE_C & RNDIS_MSG_COMPLETION != 0) by (bit_vector);
}

} // verus!
