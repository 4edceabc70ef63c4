//! The flow record and the order in which its measurements feed the model.
//!
//! A measurement is a real number. The record holds each one as an ordered
//! key: a 64-bit integer chosen by the caller so that keys compare as the
//! measurements do. Nothing in this crate does arithmetic on a key; keys are
//! only moved and compared, and the caller turns them back into numbers.

use vstd::prelude::*;

verus! {

/// The number of columns of a feature row.
pub const FEATURE_COUNT: usize = 37;

/// One labelled network-flow observation.
#[derive(Debug, Clone)]
pub struct UnswNb15Item {
    /// Total duration of the record.
    pub dur: i64,
    /// Transaction protocol.
    pub proto: String,
    /// Network service, or `-` where none is in use.
    pub service: String,
    /// Connection state, or `-` where none applies.
    pub state: String,
    /// Packets sent from source to destination.
    pub spkts: i64,
    /// Packets sent from destination to source.
    pub dpkts: i64,
    /// Bytes sent from source to destination.
    pub sbytes: i64,
    /// Bytes sent from destination to source.
    pub dbytes: i64,
    /// Packet rate.
    pub rate: i64,
    /// Time to live, source to destination.
    pub sttl: i64,
    /// Time to live, destination to source.
    pub dttl: i64,
    /// Data rate, source to destination.
    pub sload: i64,
    /// Data rate, destination to source.
    pub dload: i64,
    /// Source packets retransmitted or dropped.
    pub sloss: i64,
    /// Destination packets retransmitted or dropped.
    pub dloss: i64,
    /// Source inter-packet arrival time.
    pub sinpkt: i64,
    /// Destination inter-packet arrival time.
    pub dinpkt: i64,
    /// Source jitter.
    pub sjit: i64,
    /// Destination jitter.
    pub djit: i64,
    /// Source window advertisement.
    pub swin: i64,
    /// Destination window advertisement.
    pub dwin: i64,
    /// Connection setup round-trip time.
    pub tcprtt: i64,
    /// Source base sequence number.
    pub stcpb: i64,
    /// Destination base sequence number.
    pub dtcpb: i64,
    /// Time between the SYN and the SYN-ACK packets.
    pub synack: i64,
    /// Time between the SYN-ACK and the ACK packets.
    pub ackdat: i64,
    /// Mean packet size sent by the source.
    pub smean: i64,
    /// Mean packet size sent by the destination.
    pub dmean: i64,
    /// Pipelined depth of the request/response transaction.
    pub trans_depth: i64,
    /// Size of the response body.
    pub response_body_len: i64,
    /// Connections with the same service and source address.
    pub ct_srv_src: i64,
    /// Count per state within a time-to-live range.
    pub ct_state_ttl: i64,
    /// Flows with a request method.
    pub ct_flw_http_mthd: i64,
    /// Connections from the same source address.
    pub ct_src_ltm: i64,
    /// Connections with the same service and destination address.
    pub ct_srv_dst: i64,
    /// Whether the session was opened with a user and a password.
    pub is_ftp_login: i64,
    /// Flows with a command in the session.
    pub ct_ftp_cmd: i64,
    /// Connections to the same destination address.
    pub ct_dst_ltm: i64,
    /// Connections with the same source address and destination port.
    pub ct_src_dport_ltm: i64,
    /// Connections between the same source and destination address.
    pub ct_dst_src_ltm: i64,
    /// The target: zero for normal traffic, one for an attack.
    pub label: i64,
    /// Name of the attack category.
    pub attack_cat: String,
}

impl UnswNb15Item {
    /// The feature row of the record: its measurements in the fixed column
    /// order of the model's input. The three categorical fields, the attack
    /// category and the label are no features. The source window fills two
    /// columns and the destination window none.
    pub open spec fn spec_features(&self) -> Seq<i64> {
        seq![
            self.dur,
            self.spkts,
            self.dpkts,
            self.sbytes,
            self.dbytes,
            self.rate,
            self.sttl,
            self.dttl,
            self.sload,
            self.dload,
            self.sloss,
            self.dloss,
            self.sinpkt,
            self.dinpkt,
            self.sjit,
            self.djit,
            self.swin,
            self.stcpb,
            self.dtcpb,
            self.tcprtt,
            self.synack,
            self.ackdat,
            self.swin,
            self.smean,
            self.dmean,
            self.trans_depth,
            self.response_body_len,
            self.ct_srv_src,
            self.ct_state_ttl,
            self.ct_dst_ltm,
            self.ct_src_dport_ltm,
            self.ct_dst_src_ltm,
            self.is_ftp_login,
            self.ct_ftp_cmd,
            self.ct_flw_http_mthd,
            self.ct_src_ltm,
            self.ct_srv_dst,
        ]
    }

    /// Extracts the feature row of the record.
    pub fn features(&self) -> (row: Vec<i64>)
        ensures
            row@ == self.spec_features(),
            row@.len() == FEATURE_COUNT,
    {
        let row = vec![
            self.dur,
            self.spkts,
            self.dpkts,
            self.sbytes,
            self.dbytes,
            self.rate,
            self.sttl,
            self.dttl,
            self.sload,
            self.dload,
            self.sloss,
            self.dloss,
            self.sinpkt,
            self.dinpkt,
            self.sjit,
            self.djit,
            self.swin,
            self.stcpb,
            self.dtcpb,
            self.tcprtt,
            self.synack,
            self.ackdat,
            self.swin,
            self.smean,
            self.dmean,
            self.trans_depth,
            self.response_body_len,
            self.ct_srv_src,
            self.ct_state_ttl,
            self.ct_dst_ltm,
            self.ct_src_dport_ltm,
            self.ct_dst_src_ltm,
            self.is_ftp_login,
            self.ct_ftp_cmd,
            self.ct_flw_http_mthd,
            self.ct_src_ltm,
            self.ct_srv_dst,
        ];
        assert(row@ =~= self.spec_features());
        row
    }
}

} // verus!
