//! NVSP set-up of a NetVSC channel as a state machine: version
//! negotiation, NDIS version announcement, and registration of the
//! receive and send buffers.
//!
//! Each step takes the host's answer (or the GPADL handle of a buffer
//! just shared) and yields the next state with the channel messages to
//! send; the caller sends them, waits, and feeds the next event.
use vstd::prelude::*;
use crate::channel::HvError;
use crate::netvsc::{
    ndis_config_message, ndis_version_for, ndis_version_for_spec, nvsp_init_accepted_spec, nvsp_negotiate_step,
    recv_buf_setup_outcome, recv_buf_setup_spec, send_buf_setup_outcome, send_buf_setup_spec, NvspStep,
};
use crate::nvsp_msg::{
    build_nvsp_init, build_nvsp_send_ndis_version, build_nvsp_send_recv_buf, build_nvsp_send_send_buf,
    nvsp_buffer_bytes, nvsp_init_bytes, nvsp_message_padded, nvsp_ndis_version_bytes,
};
use crate::nvsp_types::{
    negotiate_order_spec, nvsp_version_value, NvspVersion, NVSP_MSG1_TYPE_SEND_RECV_BUF,
    NVSP_MSG1_TYPE_SEND_SEND_BUF, RECEIVE_BUFFER_ID, SEND_BUFFER_ID,
};
use crate::wire::{append_bytes, zeros};

verus! {

/// Transaction ids of the set-up messages.
pub const TXID_INIT: u64 = 0;
pub const TXID_RECV_BUF: u64 = 1;
pub const TXID_SEND_BUF: u64 = 2;
pub const TXID_NDIS_VERSION: u64 = 98;
pub const TXID_NDIS_CONFIG: u64 = 99;

/// A channel message to send: payload, transaction id, and whether a
/// completion is requested.
pub struct NvspSend {
    pub payload: Vec<u8>,
    pub txid: u64,
    pub completion: bool,
}

/// Messages by their bytes.
pub open spec fn sends_view(v: Seq<NvspSend>) -> Seq<(Seq<u8>, u64, bool)> {
    Seq::new(v.len(), |i: int| (v[i].payload@, v[i].txid, v[i].completion))
}

/// Where the set-up stands.
#[derive(Debug, Clone, Copy, PartialEq, Eq, Structural)]
pub enum NvspSetup {
    /// Waiting for the answer to the offer of `negotiate_order()[attempt]`.
    Offered(usize),
    /// The version was accepted; the receive buffer is to be shared next.
    ShareRecvBuffer(u32),
    /// Waiting for RECV_BUF_COMPLETE.
    RecvBufferSent(u32),
    /// The send buffer is to be shared next.
    ShareSendBuffer(u32),
    /// Waiting for SEND_BUF_COMPLETE.
    SendBufferSent(u32),
    /// Done: the negotiated version and the send section size.
    Ready(u32, u32),
    /// The set-up ended with this error.
    Failed(HvError),
}

/// The offer of `negotiate_order()[attempt]`.
pub open spec fn offer_send(attempt: int) -> (Seq<u8>, u64, bool) {
    (nvsp_init_bytes(nvsp_version_value(negotiate_order_spec()[attempt])) + zeros(8), TXID_INIT, true)
}

/// Messages sent once `ver` is accepted: NDIS_CONFIG (from version 2 on),
/// then the NDIS version, both without completion.
pub open spec fn accepted_sends(ver: NvspVersion) -> Seq<(Seq<u8>, u64, bool)> {
    let (major, minor) = ndis_version_for_spec(nvsp_version_value(ver));
    let announce = seq![(nvsp_ndis_version_bytes(major, minor) + zeros(8), TXID_NDIS_VERSION, false)];
    if ver == NvspVersion::V1 {
        announce
    } else {
        seq![(ndis_config_message(), TXID_NDIS_CONFIG, false)] + announce
    }
}

/// First state and messages of the set-up.
pub open spec fn setup_start_spec() -> (NvspSetup, Seq<(Seq<u8>, u64, bool)>) {
    (NvspSetup::Offered(0), seq![offer_send(0)])
}

/// Step on the host's answer `resp` (the payload of the packet received).
/// An answer in a state that waits for none changes nothing; an empty
/// payload while waiting for a buffer registration is skipped.
pub open spec fn setup_response_spec(state: NvspSetup, resp: Seq<u8>) -> (NvspSetup, Seq<(Seq<u8>, u64, bool)>) {
    let order = negotiate_order_spec();
    match state {
        NvspSetup::Offered(a) => if a < order.len() {
            if nvsp_init_accepted_spec(resp) {
                (NvspSetup::ShareRecvBuffer(nvsp_version_value(order[a as int])), accepted_sends(order[a as int]))
            } else if a + 1 < order.len() {
                (NvspSetup::Offered((a + 1) as usize), seq![offer_send(a + 1)])
            } else {
                (NvspSetup::Failed(HvError::VersionRejected), Seq::empty())
            }
        } else {
            (state, Seq::empty())
        },
        NvspSetup::RecvBufferSent(v) => if resp.len() == 0 {
            (state, Seq::empty())
        } else {
            match recv_buf_setup_spec(resp) {
                Ok(()) => (NvspSetup::ShareSendBuffer(v), Seq::empty()),
                Err(e) => (NvspSetup::Failed(e), Seq::empty()),
            }
        },
        NvspSetup::SendBufferSent(v) => if resp.len() == 0 {
            (state, Seq::empty())
        } else {
            match send_buf_setup_spec(resp) {
                Ok(size) => (NvspSetup::Ready(v, size), Seq::empty()),
                Err(e) => (NvspSetup::Failed(e), Seq::empty()),
            }
        },
        _ => (state, Seq::empty()),
    }
}

/// Step once a buffer was shared with the host as GPADL `gpadl`: the
/// registration message for it. Any other state changes nothing.
pub open spec fn buffer_shared_spec(state: NvspSetup, gpadl: u32) -> (NvspSetup, Seq<(Seq<u8>, u64, bool)>) {
    match state {
        NvspSetup::ShareRecvBuffer(v) => (
            NvspSetup::RecvBufferSent(v),
            seq![
                (
                    nvsp_buffer_bytes(NVSP_MSG1_TYPE_SEND_RECV_BUF, gpadl, RECEIVE_BUFFER_ID) + zeros(8),
                    TXID_RECV_BUF,
                    true,
                ),
            ],
        ),
        NvspSetup::ShareSendBuffer(v) => (
            NvspSetup::SendBufferSent(v),
            seq![
                (
                    nvsp_buffer_bytes(NVSP_MSG1_TYPE_SEND_SEND_BUF, gpadl, SEND_BUFFER_ID) + zeros(8),
                    TXID_SEND_BUF,
                    true,
                ),
            ],
        ),
        _ => (state, Seq::empty()),
    }
}

/// A message of the set-up from a padded NVSP message.
fn padded_send(msg: &[u8], txid: u64, completion: bool) -> (s: NvspSend)
    requires
        msg@.len() == crate::nvsp_msg::NVSP_STRUCT_SIZE,
    ensures
        s.payload@ == msg@ + zeros(8),
        s.txid == txid,
        s.completion == completion,
{
    let padded = nvsp_message_padded(msg);
    let mut payload: Vec<u8> = Vec::new();
    append_bytes(&mut payload, &padded);
    NvspSend { payload, txid, completion }
}

/// The offer of the version at `attempt` in the negotiation order.
fn offer(attempt: usize) -> (s: NvspSend)
    requires
        attempt < negotiate_order_spec().len(),
    ensures
        (s.payload@, s.txid, s.completion) == offer_send(attempt as int),
{
    let order = NvspVersion::negotiate_order();
    let m = build_nvsp_init(order[attempt].as_u32());
    padded_send(m.as_slice(), TXID_INIT, true)
}

/// First state and messages of the set-up: the offer of the newest version.
pub fn nvsp_setup_start() -> (r: (NvspSetup, Vec<NvspSend>))
    ensures
        (r.0, sends_view(r.1@)) == setup_start_spec(),
{
    let mut v: Vec<NvspSend> = Vec::new();
    v.push(offer(0));
    assert(sends_view(v@) =~= seq![offer_send(0)]);
    (NvspSetup::Offered(0), v)
}

/// Steps on the host's answer `resp` in state `state`.
pub fn nvsp_setup_response(state: NvspSetup, resp: &[u8]) -> (r: (NvspSetup, Vec<NvspSend>))
    ensures
        (r.0, sends_view(r.1@)) == setup_response_spec(state, resp@),
{
    let mut out: Vec<NvspSend> = Vec::new();
    match state {
        NvspSetup::Offered(a) => {
            if a >= 6 {
                assert(sends_view(out@) =~= Seq::<(Seq<u8>, u64, bool)>::empty());
                return (state, out);
            }
            match nvsp_negotiate_step(a, resp) {
                NvspStep::Accepted { version, ndis_config } => {
                    let ghost ver = negotiate_order_spec()[a as int];
                    match ndis_config {
                        Some(c) => {
                            out.push(NvspSend { payload: c, txid: TXID_NDIS_CONFIG, completion: false });
                        },
                        None => {},
                    }
                    let (major, minor) = ndis_version_for(version);
                    let m = build_nvsp_send_ndis_version(major, minor);
                    out.push(padded_send(m.as_slice(), TXID_NDIS_VERSION, false));
                    assert(sends_view(out@) =~= accepted_sends(ver));
                    (NvspSetup::ShareRecvBuffer(version), out)
                },
                NvspStep::TryNext => {
                    out.push(offer(a + 1));
                    assert(sends_view(out@) =~= seq![offer_send(a + 1)]);
                    (NvspSetup::Offered(a + 1), out)
                },
                NvspStep::Rejected => {
                    assert(sends_view(out@) =~= Seq::<(Seq<u8>, u64, bool)>::empty());
                    (NvspSetup::Failed(HvError::VersionRejected), out)
                },
            }
        },
        NvspSetup::RecvBufferSent(v) => {
            assert(sends_view(out@) =~= Seq::<(Seq<u8>, u64, bool)>::empty());
            if resp.len() == 0 {
                return (state, out);
            }
            match recv_buf_setup_outcome(resp) {
                Ok(()) => (NvspSetup::ShareSendBuffer(v), out),
                Err(e) => (NvspSetup::Failed(e), out),
            }
        },
        NvspSetup::SendBufferSent(v) => {
            assert(sends_view(out@) =~= Seq::<(Seq<u8>, u64, bool)>::empty());
            if resp.len() == 0 {
                return (state, out);
            }
            match send_buf_setup_outcome(resp) {
                Ok(size) => (NvspSetup::Ready(v, size), out),
                Err(e) => (NvspSetup::Failed(e), out),
            }
        },
        _ => {
            assert(sends_view(out@) =~= Seq::<(Seq<u8>, u64, bool)>::empty());
            (state, out)
        },
    }
}

/// Steps once a buffer was shared as GPADL `gpadl`.
pub fn nvsp_buffer_shared(state: NvspSetup, gpadl: u32) -> (r: (NvspSetup, Vec<NvspSend>))
    ensures
        (r.0, sends_view(r.1@)) == buffer_shared_spec(state, gpadl),
{
    let mut out: Vec<NvspSend> = Vec::new();
    match state {
        NvspSetup::ShareRecvBuffer(v) => {
            let m = build_nvsp_send_recv_buf(gpadl, RECEIVE_BUFFER_ID);
            out.push(padded_send(m.as_slice(), TXID_RECV_BUF, true));
            assert(sends_view(out@) =~= buffer_shared_spec(state, gpadl).1);
            (NvspSetup::RecvBufferSent(v), out)
        },
        NvspSetup::ShareSendBuffer(v) => {
            let m = build_nvsp_send_send_buf(gpadl, SEND_BUFFER_ID);
            out.push(padded_send(m.as_slice(), TXID_SEND_BUF, true));
            assert(sends_view(out@) =~= buffer_shared_spec(state, gpadl).1);
            (NvspSetup::SendBufferSent(v), out)
        },
        _ => {
            assert(sends_view(out@) =~= Seq::<(Seq<u8>, u64, bool)>::empty());
            (state, out)
        },
    }
}

/// Every state the set-up passes through is coherent: an offer is one of
/// the versions of the negotiation order, and a negotiated version is one
/// of those versions' wire values.
pub open spec fn setup_wf(state: NvspSetup) -> bool {
    let offered = |v: u32| exists|i: int| 0 <= i < negotiate_order_spec().len() && v == nvsp_version_value(
        #[trigger] negotiate_order_spec()[i],
    );
    match state {
        NvspSetup::Offered(a) => a < negotiate_order_spec().len(),
        NvspSetup::ShareRecvBuffer(v) => offered(v),
        NvspSetup::RecvBufferSent(v) => offered(v),
        NvspSetup::ShareSendBuffer(v) => offered(v),
        NvspSetup::SendBufferSent(v) => offered(v),
        NvspSetup::Ready(v, _) => offered(v),
        NvspSetup::Failed(_) => true,
    }
}

/// The set-up starts coherent, every step keeps it coherent, and once it
/// is ready or failed no event moves it or sends anything.
pub proof fn lemma_setup_steps_keep_wf(state: NvspSetup, resp: Seq<u8>, gpadl: u32)
    requires
        setup_wf(state),
    ensures
        setup_wf(setup_start_spec().0),
        setup_wf(setup_response_spec(state, resp).0),
        setup_wf(buffer_shared_spec(state, gpadl).0),
        (state is Ready || state is Failed) ==> setup_response_spec(state, resp) == (state, Seq::<(Seq<u8>, u64, bool)>::empty())
            && buffer_shared_spec(state, gpadl) == (state, Seq::<(Seq<u8>, u64, bool)>::empty()),
{
    match state {
        NvspSetup::Offered(a) => {
            if nvsp_init_accepted_spec(resp) {
                let v = nvsp_version_value(negotiate_order_spec()[a as int]);
                assert(0 <= a < negotiate_order_spec().len() && v == nvsp_version_value(negotiate_order_spec()[a as int]));
            }
        },
        _ => {},
    }
}


/// Position of a state in the set-up sequence: version offers, receive
/// buffer sharing and registration, send buffer sharing and registration,
/// ready. A failed set-up has no position.
pub open spec fn setup_phase(state: NvspSetup) -> int {
    match state {
        NvspSetup::Offered(_) => 0,
        NvspSetup::ShareRecvBuffer(_) => 1,
        NvspSetup::RecvBufferSent(_) => 2,
        NvspSetup::ShareSendBuffer(_) => 3,
        NvspSetup::SendBufferSent(_) => 4,
        NvspSetup::Ready(_, _) => 5,
        NvspSetup::Failed(_) => -1,
    }
}

/// The version a state has settled on, once the offer was accepted.
pub open spec fn setup_version(state: NvspSetup) -> Option<u32> {
    match state {
        NvspSetup::ShareRecvBuffer(v) => Some(v),
        NvspSetup::RecvBufferSent(v) => Some(v),
        NvspSetup::ShareSendBuffer(v) => Some(v),
        NvspSetup::SendBufferSent(v) => Some(v),
        NvspSetup::Ready(v, _) => Some(v),
        _ => None,
    }
}

/// The set-up runs in its fixed order: every step either leaves the state
/// in its phase, moves it to the next phase or fails it, so READY is only
/// reached after both buffers were shared and registered, the receive
/// buffer first. Once a version is accepted it is kept to the end.
pub proof fn lemma_setup_moves_in_order(state: NvspSetup, resp: Seq<u8>, gpadl: u32)
    ensures
        ({
            let next = setup_response_spec(state, resp).0;
            ||| next == state
            ||| setup_phase(next) == setup_phase(state) && setup_phase(state) == 0
            ||| setup_phase(next) == setup_phase(state) + 1
            ||| next is Failed
        }),
        ({
            let next = buffer_shared_spec(state, gpadl).0;
            ||| next == state
            ||| setup_phase(next) == setup_phase(state) + 1
        }),
        setup_version(state) is Some && !(setup_response_spec(state, resp).0 is Failed) ==> setup_version(
            setup_response_spec(state, resp).0,
        ) == setup_version(state),
        setup_version(state) is Some ==> setup_version(buffer_shared_spec(state, gpadl).0) == setup_version(state),
{
}

} // verus!
