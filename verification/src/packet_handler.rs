use vstd::prelude::*;

use crate::packets::{frame_bytes, InstructionPacket, PacketView, StatusPacket};
use crate::utils::checksum_of;

verus! {

#[derive(PartialEq, Eq, Debug, Clone, Copy, Structural)]
pub enum TxStatus {
    Success,
}

#[derive(PartialEq, Eq, Debug, Clone, Copy, Structural)]
pub enum TxError {
    PortBusy,
    TxFail,
    Error,
    NotAvailable,
}

pub type TxResult = Result<TxStatus, TxError>;

#[derive(Debug)]
pub enum RxStatus {
    Success(Option<StatusPacket>),
    RxWaiting,
}

#[derive(PartialEq, Eq, Debug, Clone, Copy, Structural)]
pub enum RxError {
    PortBusy,
    RxFail,
    RxTimeout,
    RxCorrupt,
    NotAvailable,
}

pub type RxResult = Result<RxStatus, RxError>;

/// The id that addresses every servo at once; no servo answers it.
pub const BROADCAST_ID: u8 = 0xFE;

/// The longest packet, in bytes, that is sent.
pub const MAX_PACKET_LENGTH: u32 = 250;

/// Where an exchange stands.
#[derive(PartialEq, Eq, Debug, Clone, Copy, Structural)]
pub enum Stage {
    /// The request frame is being written.
    Transmit,
    /// The two header bytes of the reply are awaited.
    Header,
    /// The id, length and error bytes of the reply are awaited.
    Meta,
    /// The parameter bytes of the reply are awaited.
    Params,
    /// The checksum byte of the reply is awaited.
    Checksum,
    /// The exchange has ended.
    Done,
}

/// The state of an exchange: its stage, whether the request went to the broadcast id,
/// and the reply fields received so far.
#[verifier::ext_equal]
pub struct ExchangeView {
    pub stage: Stage,
    pub broadcast: bool,
    pub id: u8,
    pub length: u8,
    pub error: u8,
    pub params: Seq<u8>,
}

/// The outcome of a reception, as a value.
#[verifier::ext_equal]
pub enum RxView {
    Status(Option<PacketView>),
    Waiting,
    Failed(RxError),
}

/// What the port has to do next, as a value.
#[verifier::ext_equal]
pub enum StepView {
    /// Write these bytes.
    Send(Seq<u8>),
    /// Read exactly this many bytes.
    Read(nat),
    /// The request could not be sent; the exchange is over.
    TxFailed(TxError),
    /// The exchange is over with this outcome.
    Finished(RxView),
}

/// The outcome of a reception, as a value.
pub open spec fn rx_view(result: RxResult) -> RxView {
    match result {
        Ok(RxStatus::Success(Some(p))) => RxView::Status(Some(p@)),
        Ok(RxStatus::Success(None)) => RxView::Status(None),
        Ok(RxStatus::RxWaiting) => RxView::Waiting,
        Err(e) => RxView::Failed(e),
    }
}

/// What the port has to do next.
#[derive(Debug)]
pub enum ExchangeStep {
    /// Write these bytes to the port, then call `Exchange::on_sent`.
    Send(Vec<u8>),
    /// Read exactly this many bytes from the port, then call `Exchange::on_received`.
    Receive(usize),
    /// The request could not be sent; the exchange is over.
    TxFailed(TxError),
    /// The exchange is over with this outcome.
    Finished(RxResult),
}

impl View for ExchangeStep {
    type V = StepView;

    open spec fn view(&self) -> StepView {
        match self {
            ExchangeStep::Send(bytes) => StepView::Send(bytes@),
            ExchangeStep::Receive(n) => StepView::Read(*n as nat),
            ExchangeStep::TxFailed(e) => StepView::TxFailed(*e),
            ExchangeStep::Finished(r) => StepView::Finished(rx_view(*r)),
        }
    }
}

/// The state `s` with the exchange ended.
pub open spec fn ended(s: ExchangeView) -> ExchangeView {
    ExchangeView { stage: Stage::Done, ..s }
}

/// A reply that breaks the framing rules ends the exchange.
pub open spec fn corrupt(s: ExchangeView) -> (ExchangeView, StepView) {
    (ended(s), StepView::Finished(RxView::Failed(RxError::RxCorrupt)))
}

/// Starting the exchange of request `p`: a frame longer than `MAX_PACKET_LENGTH`
/// fails with `TxError::Error`; any other is sent as it is.
pub open spec fn start_spec(p: PacketView) -> (ExchangeView, StepView) {
    let s = ExchangeView {
        stage: Stage::Transmit,
        broadcast: p.id == BROADCAST_ID,
        id: 0,
        length: 0,
        error: 0,
        params: Seq::empty(),
    };
    if p.length + 4 > MAX_PACKET_LENGTH {
        (ended(s), StepView::TxFailed(TxError::Error))
    } else {
        (s, StepView::Send(frame_bytes(p)))
    }
}

/// After the request was written (`ok`) or not: a failed write fails with
/// `TxError::TxFail`; a broadcast request ends with no reply; any other awaits the
/// two header bytes of the reply.
pub open spec fn sent_spec(s: ExchangeView, ok: bool) -> (ExchangeView, StepView) {
    if !ok {
        (ended(s), StepView::TxFailed(TxError::TxFail))
    } else if s.broadcast {
        (ended(s), StepView::Finished(RxView::Status(None)))
    } else {
        (ExchangeView { stage: Stage::Header, ..s }, StepView::Read(2))
    }
}

/// Whether the exchange is waiting for reply bytes.
pub open spec fn is_receiving(s: ExchangeView) -> bool {
    s.stage == Stage::Header || s.stage == Stage::Meta || s.stage == Stage::Params || s.stage
        == Stage::Checksum
}

/// How many bytes the exchange waits for.
pub open spec fn read_len(s: ExchangeView) -> nat {
    match s.stage {
        Stage::Header => 2,
        Stage::Meta => 3,
        Stage::Params => (s.length - 2) as nat,
        Stage::Checksum => 1,
        _ => 0,
    }
}

/// After `bytes` of the reply arrived. The header must be `FF FF`; the length byte,
/// which counts the parameters plus two, must be at least 2; the checksum must match
/// the other fields. A reply that meets all three ends as that status packet, any
/// other with `RxError::RxCorrupt`.
pub open spec fn received_spec(s: ExchangeView, bytes: Seq<u8>) -> (ExchangeView, StepView) {
    match s.stage {
        Stage::Header => {
            if bytes == seq![0xFFu8, 0xFFu8] {
                (ExchangeView { stage: Stage::Meta, ..s }, StepView::Read(3))
            } else {
                corrupt(s)
            }
        },
        Stage::Meta => {
            if bytes[1] < 2 {
                corrupt(s)
            } else {
                (
                    ExchangeView {
                        stage: Stage::Params,
                        id: bytes[0],
                        length: bytes[1],
                        error: bytes[2],
                        ..s
                    },
                    StepView::Read((bytes[1] - 2) as nat),
                )
            }
        },
        Stage::Params => (ExchangeView { stage: Stage::Checksum, params: bytes, ..s }, StepView::Read(1)),
        _ => {
            if bytes[0] == checksum_of(s.id, s.length, s.error, s.params) {
                (
                    ended(s),
                    StepView::Finished(
                        RxView::Status(
                            Some(
                                PacketView {
                                    id: s.id,
                                    length: s.length,
                                    code: s.error,
                                    params: s.params,
                                    checksum: bytes[0],
                                },
                            ),
                        ),
                    ),
                )
            } else {
                corrupt(s)
            }
        },
    }
}

/// A reply frame built by the protocol's rules is decoded, in the reads that the
/// exchange asks for, to the very packet it was built from.
pub proof fn lemma_reply_frame_decodes(s: ExchangeView, v: PacketView)
    requires
        s.stage == Stage::Header,
        crate::packets::is_well_formed(v),
        v.params.len() <= 253,
    ensures
        ({
            let f = frame_bytes(v);
            let n = v.params.len() as int;
            let (s1, t1) = received_spec(s, f.subrange(0, 2));
            let (s2, t2) = received_spec(s1, f.subrange(2, 5));
            let (s3, t3) = received_spec(s2, f.subrange(5, 5 + n));
            let (s4, t4) = received_spec(s3, f.subrange(5 + n, 6 + n));
            &&& t1 == StepView::Read(3)
            &&& read_len(s1) == 3
            &&& t2 == StepView::Read(n as nat)
            &&& read_len(s2) == n
            &&& t3 == StepView::Read(1)
            &&& read_len(s3) == 1
            &&& t4 == StepView::Finished(RxView::Status(Some(v)))
            &&& s4.stage == Stage::Done
        }),
{
    let f = frame_bytes(v);
    let n = v.params.len() as int;
    assert(f.subrange(0, 2) =~= seq![0xFFu8, 0xFFu8]);
    assert(f.subrange(5, 5 + n) =~= v.params);
    let (s1, t1) = received_spec(s, f.subrange(0, 2));
    let (s2, t2) = received_spec(s1, f.subrange(2, 5));
    assert(s2.params == s.params);
    let (s3, t3) = received_spec(s2, f.subrange(5, 5 + n));
    assert(s3.params =~= v.params);
    let (s4, t4) = received_spec(s3, f.subrange(5 + n, 6 + n));
    assert(t4 =~= StepView::Finished(RxView::Status(Some(v))));
}

/// Starting the exchange of a request that fits and reporting a successful write
/// awaits the two header bytes of the reply, unless the request went to the
/// broadcast id, which is answered by no servo.
pub proof fn lemma_written_request_awaits_reply(p: PacketView)
    requires
        p.length + 4 <= MAX_PACKET_LENGTH,
    ensures
        start_spec(p).1 == StepView::Send(frame_bytes(p)),
        start_spec(p).0.stage == Stage::Transmit,
        p.id != BROADCAST_ID ==> sent_spec(start_spec(p).0, true).1 == StepView::Read(2),
        p.id == BROADCAST_ID ==> sent_spec(start_spec(p).0, true).1 == StepView::Finished(
            RxView::Status(None),
        ),
{
}

/// A write that failed fails the exchange with `TxFail`, whether or not the request
/// went to the broadcast id, and the exchange is over.
pub proof fn lemma_failed_write_fails(s: ExchangeView)
    requires
        s.stage == Stage::Transmit,
    ensures
        sent_spec(s, false).1 == StepView::TxFailed(TxError::TxFail),
        sent_spec(s, false).0.stage == Stage::Done,
{
}

/// The exchange accepts a reply only with the checksum byte it received, and only
/// when that byte is the checksum of the reply's other fields; any other checksum
/// byte ends the exchange as corrupt, whatever the number of parameters.
pub proof fn lemma_reply_checksum_is_checked(s: ExchangeView, bytes: Seq<u8>)
    requires
        is_receiving(s),
        bytes.len() == read_len(s),
    ensures
        received_spec(s, bytes).1 matches StepView::Finished(RxView::Status(Some(v))) ==> {
            &&& s.stage == Stage::Checksum
            &&& v.checksum == bytes[0]
            &&& v.checksum == checksum_of(v.id, v.length, v.code, v.params)
            &&& v.id == s.id && v.length == s.length && v.code == s.error && v.params == s.params
        },
        s.stage == Stage::Checksum && bytes[0] != checksum_of(s.id, s.length, s.error, s.params)
            ==> received_spec(s, bytes).1 == StepView::Finished(RxView::Failed(RxError::RxCorrupt)),
{
}

/// A request to the broadcast id that was written ends the exchange with no reply.
pub proof fn lemma_broadcast_gets_no_reply(p: PacketView)
    requires
        p.id == BROADCAST_ID,
        p.length + 4 <= MAX_PACKET_LENGTH,
    ensures
        ({
            let (s0, t0) = start_spec(p);
            let (s1, t1) = sent_spec(s0, true);
            &&& t0 == StepView::Send(frame_bytes(p))
            &&& t1 == StepView::Finished(RxView::Status(None))
            &&& s1.stage == Stage::Done
        }),
{
}

/// Each step that asks for reply bytes leaves the exchange waiting for exactly that
/// many bytes, so the port can follow the steps it is given.
pub proof fn lemma_read_steps_match_waits(s: ExchangeView, ok: bool, bytes: Seq<u8>)
    ensures
        s.stage == Stage::Transmit ==> (sent_spec(s, ok).1 matches StepView::Read(n) ==> is_receiving(
            sent_spec(s, ok).0,
        ) && read_len(sent_spec(s, ok).0) == n),
        is_receiving(s) && bytes.len() == read_len(s) ==> (received_spec(s, bytes).1 matches StepView::Read(
            n,
        ) ==> is_receiving(received_spec(s, bytes).0) && read_len(received_spec(s, bytes).0) == n),
        !(sent_spec(s, ok).1 is Read) ==> sent_spec(s, ok).0.stage == Stage::Done,
        !(received_spec(s, bytes).1 is Read) ==> received_spec(s, bytes).0.stage == Stage::Done,
{
}

/// One request to a servo and its reply, as decisions: each call says what the port
/// has to do next, and the caller reports back what happened.
pub struct Exchange {
    stage: Stage,
    broadcast: bool,
    id: u8,
    length: u8,
    error: u8,
    params: Vec<u8>,
}

impl View for Exchange {
    type V = ExchangeView;

    closed spec fn view(&self) -> ExchangeView {
        ExchangeView {
            stage: self.stage,
            broadcast: self.broadcast,
            id: self.id,
            length: self.length,
            error: self.error,
            params: self.params@,
        }
    }
}

impl Exchange {
    /// Starts the exchange of `packet` (see `start_spec`).
    pub fn start(packet: &InstructionPacket) -> (res: (Exchange, ExchangeStep))
        ensures
            res.0@ =~= start_spec(packet@).0,
            res.1@ =~= start_spec(packet@).1,
            res.0@.broadcast == (packet@.id == BROADCAST_ID),
            packet@.length + 4 <= MAX_PACKET_LENGTH ==> res.0@.stage == Stage::Transmit
                && res.1@ == StepView::Send(frame_bytes(packet@)),
            packet@.length + 4 > MAX_PACKET_LENGTH ==> res.0@.stage == Stage::Done
                && res.1@ == StepView::TxFailed(TxError::Error),
    {
        let exchange = Exchange {
            stage: Stage::Transmit,
            broadcast: packet.id() == BROADCAST_ID,
            id: 0,
            length: 0,
            error: 0,
            params: Vec::new(),
        };
        if packet.get_total_packet_length() > MAX_PACKET_LENGTH {
            let exchange = Exchange { stage: Stage::Done, ..exchange };
            (exchange, ExchangeStep::TxFailed(TxError::Error))
        } else {
            (exchange, ExchangeStep::Send(packet.as_bytes()))
        }
    }

    /// Whether the exchange is over.
    pub fn is_done(&self) -> (done: bool)
        ensures
            done == (self@.stage == Stage::Done),
    {
        self.stage == Stage::Done
    }

    /// Reports whether the request frame was written (see `sent_spec`).
    pub fn on_sent(&mut self, ok: bool) -> (step: ExchangeStep)
        requires
            old(self)@.stage == Stage::Transmit,
        ensures
            final(self)@ =~= sent_spec(old(self)@, ok).0,
            step@ =~= sent_spec(old(self)@, ok).1,
            !ok ==> step@ == StepView::TxFailed(TxError::TxFail),
            ok && old(self)@.broadcast ==> step@ == StepView::Finished(RxView::Status(None)),
            ok && !old(self)@.broadcast ==> step@ == StepView::Read(2),
    {
        if !ok {
            self.stage = Stage::Done;
            ExchangeStep::TxFailed(TxError::TxFail)
        } else if self.broadcast {
            self.stage = Stage::Done;
            ExchangeStep::Finished(Ok(RxStatus::Success(None)))
        } else {
            self.stage = Stage::Header;
            ExchangeStep::Receive(2)
        }
    }

    /// Reports the bytes read for the last `ExchangeStep::Receive` (see `received_spec`).
    pub fn on_received(&mut self, bytes: &[u8]) -> (step: ExchangeStep)
        requires
            is_receiving(old(self)@),
            bytes@.len() == read_len(old(self)@),
        ensures
            final(self)@ =~= received_spec(old(self)@, bytes@).0,
            step@ =~= received_spec(old(self)@, bytes@).1,
            step@ matches StepView::Finished(RxView::Status(Some(v))) ==> {
                &&& old(self)@.stage == Stage::Checksum
                &&& v.checksum == bytes@[0]
                &&& v.checksum == checksum_of(v.id, v.length, v.code, v.params)
            },
            old(self)@.stage == Stage::Checksum && bytes@[0] != checksum_of(
                old(self)@.id,
                old(self)@.length,
                old(self)@.error,
                old(self)@.params,
            ) ==> step@ == StepView::Finished(RxView::Failed(RxError::RxCorrupt)),
    {
        match self.stage {
            Stage::Header => {
                if bytes[0] == 0xFF && bytes[1] == 0xFF {
                    proof {
                        assert(bytes@ =~= seq![0xFFu8, 0xFFu8]);
                    }
                    self.stage = Stage::Meta;
                    ExchangeStep::Receive(3)
                } else {
                    self.stage = Stage::Done;
                    ExchangeStep::Finished(Err(RxError::RxCorrupt))
                }
            },
            Stage::Meta => {
                if bytes[1] < 2 {
                    self.stage = Stage::Done;
                    ExchangeStep::Finished(Err(RxError::RxCorrupt))
                } else {
                    self.id = bytes[0];
                    self.length = bytes[1];
                    self.error = bytes[2];
                    self.stage = Stage::Params;
                    ExchangeStep::Receive((bytes[1] - 2) as usize)
                }
            },
            Stage::Params => {
                self.params = crate::packets::copy_bytes(bytes);
                self.stage = Stage::Checksum;
                ExchangeStep::Receive(1)
            },
            _ => {
                let checksum: u8 = bytes[0];
                let expected: u8 = crate::utils::compute_checksum(
                    self.id,
                    self.length,
                    self.error,
                    self.params.as_slice(),
                );
                self.stage = Stage::Done;
                if checksum == expected {
                    let header: [u8; 2] = [0xFF, 0xFF];
                    proof {
                        assert(header@ =~= seq![0xFFu8, 0xFFu8]);
                    }
                    let packet = StatusPacket::new(
                        &header,
                        self.id,
                        self.length,
                        self.error,
                        self.params.as_slice(),
                        checksum,
                    );
                    ExchangeStep::Finished(Ok(RxStatus::Success(Some(packet))))
                } else {
                    ExchangeStep::Finished(Err(RxError::RxCorrupt))
                }
            },
        }
    }
}

/// The data of a reply: that of the status packet when the exchange ended with one,
/// and none otherwise.
pub fn reply_data(result: RxResult) -> (data: Option<u16>)
    ensures
        data == (match rx_view(result) {
            RxView::Status(Some(p)) => Some(crate::packets::extracted_value(p.params)),
            _ => None,
        }),
{
    match result {
        Ok(RxStatus::Success(Some(packet))) => Some(packet.extract_data()),
        _ => None,
    }
}

} // verus!
