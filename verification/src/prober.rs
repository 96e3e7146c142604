//! The prober: one instance owns an identifier, a destination and a
//! sequence-number counter, issues batches of echo requests, and decides the
//! outcome of the response-wait phase event by event.
//!
//! The caller owns the socket and the clock: it performs each read, sleep
//! and deadline check and hands the outcome in as a [`PollEvent`]; every
//! decision in between is made here.
use crate::codec::build_echo_request;
use crate::codec::matches_fields;
use crate::codec::parse_echo_reply;
use crate::codec::reply_identifier;
use crate::codec::reply_payload;
use crate::codec::reply_sequence;
use crate::codec::request_and_response_match;
use crate::codec::valid_echo_reply;
use crate::codec::EchoReply;
use crate::codec::EchoRequest;
use crate::codec::ICMP_PAYLOAD_LENGTH;
use crate::Error;
use vstd::prelude::*;

verus! {

use vstd::slice::slice_subrange;

/// Echo requests sent back-to-back by one probing attempt.
pub const NUM_PINGS_TO_SEND: usize = 3;

/// Bytes of IPv4 header in front of every received ICMP message.
pub const IPV4_HEADER_LENGTH: usize = 20;

/// The sequence number a prober issues `k` steps after `start`: the counter
/// wraps from 65535 back to 0.
pub open spec fn sequence_after(start: u16, k: int) -> u16 {
    ((start + k) % 0x10000) as u16
}

proof fn lemma_sequence_after_step(start: u16, k: int)
    requires
        0 <= k,
    ensures
        sequence_after(sequence_after(start, k), 1) == sequence_after(start, k + 1),
{
    let m = 0x10000;
    vstd::arithmetic::div_mod::lemma_mod_bound(start + k, m);
    vstd::arithmetic::div_mod::lemma_add_mod_noop(start + k, 1, m);
    vstd::arithmetic::div_mod::lemma_small_mod(1nat, m as nat);
}

/// Successive sequence numbers strictly increase, except at the wrap, where
/// 65535 is followed by 0.
pub proof fn lemma_sequence_progression(start: u16, k: int)
    requires
        0 <= k,
    ensures
        sequence_after(start, k) < 0xffff ==> sequence_after(start, k + 1) == sequence_after(
            start,
            k,
        ) + 1,
        sequence_after(start, k) == 0xffff ==> sequence_after(start, k + 1) == 0,
{
    lemma_sequence_after_step(start, k);
    let a = sequence_after(start, k);
    vstd::arithmetic::div_mod::lemma_mod_bound(a + 1, 0x10000);
    if a < 0xffff {
        vstd::arithmetic::div_mod::lemma_small_mod((a + 1) as nat, 0x10000nat);
    } else {
        vstd::arithmetic::div_mod::lemma_mod_self_0(0x10000);
    }
}

/// Relies on `rand::random`: an arbitrary 16-bit value from the
/// thread-local generator. Nothing can be promised of it.
#[verifier::external_body]
fn random_identifier() -> (r: u16) {
    rand::random()
}

/// One prober instance: its identifier stays fixed for its whole lifetime,
/// its sequence-number counter only moves forward (wrapping at 65536).
pub struct Prober {
    /// The identifier every request of this instance carries.
    pub identifier: u16,
    /// The sequence number the next request will carry.
    pub next_sequence: u16,
    /// The IPv4 destination of every request of this instance, as octets.
    pub destination: [u8; 4],
}

impl Prober {
    /// A fresh prober for one destination, with a random identifier and the
    /// sequence counter at zero.
    pub fn new(destination: [u8; 4]) -> (r: Prober)
        ensures
            r.next_sequence == 0,
            r.destination == destination,
    {
        Prober { identifier: random_identifier(), next_sequence: 0, destination }
    }

    /// A prober with a chosen identifier, so that a caller may supply its
    /// own source of randomness.
    pub fn with_identifier(identifier: u16, destination: [u8; 4]) -> (r: Prober)
        ensures
            r.identifier == identifier,
            r.next_sequence == 0,
            r.destination == destination,
    {
        Prober { identifier, next_sequence: 0, destination }
    }

    /// Hands out the next sequence number and advances the counter, wrapping
    /// from 65535 to 0. The identifier and destination never change.
    pub fn next_seq(&mut self) -> (r: u16)
        ensures
            r == old(self).next_sequence,
            final(self).next_sequence == sequence_after(old(self).next_sequence, 1),
            final(self).identifier == old(self).identifier,
            final(self).destination == old(self).destination,
    {
        let current = self.next_sequence;
        if current == 0xffff {
            self.next_sequence = 0;
        } else {
            self.next_sequence = current + 1;
        }
        proof {
            if current < 0xffff {
                vstd::arithmetic::div_mod::lemma_small_mod((current + 1) as nat, 0x10000nat);
            } else {
                vstd::arithmetic::div_mod::lemma_mod_self_0(0x10000);
            }
        }
        current
    }

    /// Builds the next echo request of this instance: its identifier, the
    /// next sequence number, and a fresh random payload.
    pub fn next_ping_request(&mut self) -> (r: EchoRequest)
        ensures
            r.identifier == old(self).identifier,
            r.sequence == old(self).next_sequence,
            r.payload@.len() == ICMP_PAYLOAD_LENGTH,
            r.wf(),
            final(self).next_sequence == sequence_after(old(self).next_sequence, 1),
            final(self).identifier == old(self).identifier,
            final(self).destination == old(self).destination,
    {
        let sequence = self.next_seq();
        build_echo_request(self.identifier, sequence, ICMP_PAYLOAD_LENGTH)
    }

    /// Builds the batch a probing attempt sends: exactly
    /// [`NUM_PINGS_TO_SEND`] requests, all with this instance's identifier,
    /// with ascending (wrapping) sequence numbers and independent random
    /// payloads.
    pub fn begin_probe(&mut self) -> (r: Vec<EchoRequest>)
        ensures
            r@.len() == NUM_PINGS_TO_SEND,
            forall|k: int|
                0 <= k < r@.len() ==> {
                    &&& #[trigger] r@[k].identifier == old(self).identifier
                    &&& r@[k].sequence == sequence_after(old(self).next_sequence, k)
                    &&& r@[k].payload@.len() == ICMP_PAYLOAD_LENGTH
                    &&& r@[k].wf()
                },
            final(self).identifier == old(self).identifier,
            final(self).next_sequence == sequence_after(
                old(self).next_sequence,
                NUM_PINGS_TO_SEND as int,
            ),
            final(self).destination == old(self).destination,
    {
        let ghost start = self.next_sequence;
        let ghost identifier = self.identifier;
        let mut requests: Vec<EchoRequest> = Vec::new();
        let mut k: usize = 0;
        while k < NUM_PINGS_TO_SEND
            invariant
                k <= NUM_PINGS_TO_SEND,
                requests@.len() == k,
                self.identifier == identifier,
                self.destination == old(self).destination,
                self.next_sequence == sequence_after(start, k as int),
                forall|j: int|
                    0 <= j < k ==> {
                        &&& #[trigger] requests@[j].identifier == identifier
                        &&& requests@[j].sequence == sequence_after(start, j)
                        &&& requests@[j].payload@.len() == ICMP_PAYLOAD_LENGTH
                        &&& requests@[j].wf()
                    },
            decreases NUM_PINGS_TO_SEND - k,
        {
            proof {
                lemma_sequence_after_step(start, k as int);
            }
            let request = self.next_ping_request();
            let ghost before = requests@;
            requests.push(request);
            proof {
                assert(requests@ == before.push(request));
                assert(requests@[k as int] == request);
                assert(forall|j: int| 0 <= j < k ==> requests@[j] == before[j]);
            }
            k = k + 1;
        }
        requests
    }
}

/// What one poll of the socket produced, as the caller observed it.
#[derive(Debug, PartialEq, Eq)]
pub enum PollEvent {
    /// A datagram arrived: its raw bytes, IPv4 header still in front.
    Datagram(Vec<u8>),
    /// The non-blocking read reported no data currently available.
    NoData,
    /// The read failed with a genuine OS error, its raw code if there was one.
    ReadFailure(Option<i32>),
    /// The deadline of the attempt has passed.
    DeadlineExceeded,
}

/// What the caller must do next with the response-wait phase.
#[derive(Debug, PartialEq, Eq)]
pub enum PollDecision {
    /// Poll again at once: a datagram was handled.
    Continue,
    /// Nothing pending: sleep briefly, then poll again.
    Pause,
    /// The attempt is over, with this outcome.
    Done(Result<(), Error>),
}

/// The index of the first request a reply with the given fields can still
/// be matched to, scanning in request order from `i`; the length of the
/// batch when there is none.
pub open spec fn first_match_from(
    requests: Seq<EchoRequest>,
    matched: Seq<bool>,
    identifier: u16,
    sequence: u16,
    payload: Seq<u8>,
    i: int,
) -> int
    decreases requests.len() - i,
{
    if i < 0 || i >= requests.len() {
        requests.len() as int
    } else if !matched[i] && matches_fields(requests[i], identifier, sequence, payload) {
        i
    } else {
        first_match_from(requests, matched, identifier, sequence, payload, i + 1)
    }
}

/// The pending-request set of one probing attempt: the requests sent, which
/// of them has been answered, and whether the attempt has already succeeded.
pub struct WaitState {
    /// The requests of this attempt, in the order they were sent.
    pub requests: Vec<EchoRequest>,
    /// For each request, whether a reply has been matched to it.
    pub matched: Vec<bool>,
    /// Whether at least one request has been matched.
    pub succeeded: bool,
}

impl WaitState {
    /// Whether some request of the attempt has been matched.
    pub open spec fn any_matched(self) -> bool {
        exists|i: int| 0 <= i < self.matched@.len() && self.matched@[i]
    }

    /// The flags walk beside the requests, and the success flag is set
    /// exactly when some request has been matched.
    pub open spec fn wf(self) -> bool {
        &&& self.matched@.len() == self.requests@.len()
        &&& (self.succeeded <==> self.any_matched())
    }

    /// Starts the response-wait phase: every request unmatched, no success.
    pub fn new(requests: Vec<EchoRequest>) -> (r: WaitState)
        ensures
            r.wf(),
            !r.succeeded,
            r.requests@ == requests@,
            forall|i: int| 0 <= i < r.matched@.len() ==> !r.matched@[i],
    {
        let mut matched: Vec<bool> = Vec::new();
        let mut k: usize = 0;
        let total = requests.len();
        while k < total
            invariant
                k <= total,
                matched@.len() == k,
                forall|i: int| 0 <= i < k ==> !matched@[i],
            decreases total - k,
        {
            matched.push(false);
            k = k + 1;
        }
        WaitState { requests, matched, succeeded: false }
    }
}

/// The match flags after a datagram: if the buffer is long enough to carry
/// an IPv4 header and the rest is a checksum-valid echo reply, the first
/// still-unmatched request it answers is marked; otherwise nothing changes.
pub open spec fn matched_after_datagram(s: WaitState, bytes: Seq<u8>) -> Seq<bool> {
    if bytes.len() > IPV4_HEADER_LENGTH && valid_echo_reply(bytes.skip(IPV4_HEADER_LENGTH as int)) {
        let icmp = bytes.skip(IPV4_HEADER_LENGTH as int);
        let i = first_match_from(
            s.requests@,
            s.matched@,
            reply_identifier(icmp),
            reply_sequence(icmp),
            reply_payload(icmp),
            0,
        );
        if i < s.requests@.len() {
            s.matched@.update(i, true)
        } else {
            s.matched@
        }
    } else {
        s.matched@
    }
}

/// The success flag after a datagram: set once a reply is matched, and
/// never cleared.
pub open spec fn succeeded_after_datagram(s: WaitState, bytes: Seq<u8>) -> bool {
    if bytes.len() > IPV4_HEADER_LENGTH && valid_echo_reply(bytes.skip(IPV4_HEADER_LENGTH as int)) {
        let icmp = bytes.skip(IPV4_HEADER_LENGTH as int);
        let i = first_match_from(
            s.requests@,
            s.matched@,
            reply_identifier(icmp),
            reply_sequence(icmp),
            reply_payload(icmp),
            0,
        );
        if i < s.requests@.len() {
            true
        } else {
            s.succeeded
        }
    } else {
        s.succeeded
    }
}

/// What the wait phase answers to each event, given the state it is in.
/// A datagram never ends the attempt by itself; a quiet socket ends it with
/// success once a reply has been matched; a read failure aborts at once;
/// the deadline ends it with success or [`Error::TimeoutError`] according
/// to whether any reply was matched.
pub open spec fn poll_decision(s: WaitState, event: PollEvent) -> PollDecision {
    match event {
        PollEvent::Datagram(_) => PollDecision::Continue,
        PollEvent::NoData => if s.succeeded {
            PollDecision::Done(Ok(()))
        } else {
            PollDecision::Pause
        },
        PollEvent::ReadFailure(code) => PollDecision::Done(Err(Error::ReadError(code))),
        PollEvent::DeadlineExceeded => if s.succeeded {
            PollDecision::Done(Ok(()))
        } else {
            PollDecision::Done(Err(Error::TimeoutError))
        },
    }
}

fn mark_first_match(state: &mut WaitState, reply: &EchoReply)
    requires
        old(state).wf(),
    ensures
        final(state).wf(),
        final(state).requests@ == old(state).requests@,
        ({
            let i = first_match_from(
                old(state).requests@,
                old(state).matched@,
                reply.identifier,
                reply.sequence,
                reply.payload@,
                0,
            );
            if i < old(state).requests@.len() {
                final(state).matched@ == old(state).matched@.update(i, true)
                    && final(state).succeeded
            } else {
                final(state).matched@ == old(state).matched@
                    && final(state).succeeded == old(state).succeeded
            }
        }),
{
    let ghost requests_view = state.requests@;
    let ghost matched_view = state.matched@;
    let total = state.requests.len();
    let mut k: usize = 0;
    while k < total
        invariant
            requests_view == old(state).requests@,
            matched_view == old(state).matched@,
            state.requests@ == requests_view,
            state.matched@ == matched_view,
            state.succeeded == old(state).succeeded,
            state.wf(),
            total == requests_view.len(),
            k <= total,
            first_match_from(
                requests_view,
                matched_view,
                reply.identifier,
                reply.sequence,
                reply.payload@,
                0,
            ) == first_match_from(
                requests_view,
                matched_view,
                reply.identifier,
                reply.sequence,
                reply.payload@,
                k as int,
            ),
        decreases total - k,
    {
        let answered = state.matched[k];
        if !answered && request_and_response_match(&state.requests[k], reply) {
            proof {
                assert(first_match_from(
                    requests_view,
                    matched_view,
                    reply.identifier,
                    reply.sequence,
                    reply.payload@,
                    k as int,
                ) == k);
            }
            state.matched.set(k, true);
            state.succeeded = true;
            proof {
                assert(state.matched@[k as int]);
                assert(state.any_matched());
            }
            return ;
        }
        proof {
            assert(first_match_from(
                requests_view,
                matched_view,
                reply.identifier,
                reply.sequence,
                reply.payload@,
                k as int,
            ) == first_match_from(
                requests_view,
                matched_view,
                reply.identifier,
                reply.sequence,
                reply.payload@,
                k as int + 1,
            ));
        }
        k = k + 1;
    }
}

/// One step of the response-wait phase: takes what the caller's poll of the
/// socket produced and answers what to do next, updating the pending set.
///
/// A datagram is handled as the codec and the pending set dictate: stripped
/// of its IPv4 header, parsed, and matched against the first still-unmatched
/// request it answers; malformed or corrupted datagrams change nothing and
/// are never an error. A quiet socket ends the attempt with success exactly
/// when a reply has been matched; otherwise the caller is told to pause and
/// poll again. A read failure or the deadline ends the attempt as
/// [`poll_decision`] states.
pub fn poll_step(state: &mut WaitState, event: PollEvent) -> (d: PollDecision)
    requires
        old(state).wf(),
        event matches PollEvent::Datagram(bytes) ==> bytes@.len() <= 0xffff
            + IPV4_HEADER_LENGTH,
    ensures
        final(state).wf(),
        d == poll_decision(*old(state), event),
        final(state).requests@ == old(state).requests@,
        (event matches PollEvent::Datagram(bytes) ==> final(state).matched@
            == matched_after_datagram(*old(state), bytes@) && final(state).succeeded
            == succeeded_after_datagram(*old(state), bytes@)),
        !(event matches PollEvent::Datagram(_)) ==> *final(state) == *old(state),
{
    match event {
        PollEvent::Datagram(bytes) => {
            let length = bytes.len();
            if length > IPV4_HEADER_LENGTH {
                let icmp = slice_subrange(bytes.as_slice(), IPV4_HEADER_LENGTH, length);
                proof {
                    assert(icmp@ =~= bytes@.skip(IPV4_HEADER_LENGTH as int));
                }
                if let Some(reply) = parse_echo_reply(icmp) {
                    mark_first_match(state, &reply);
                }
            }
            PollDecision::Continue
        },
        PollEvent::NoData => {
            if state.succeeded {
                PollDecision::Done(Ok(()))
            } else {
                PollDecision::Pause
            }
        },
        PollEvent::ReadFailure(code) => PollDecision::Done(Err(Error::ReadError(code))),
        PollEvent::DeadlineExceeded => {
            if state.succeeded {
                PollDecision::Done(Ok(()))
            } else {
                PollDecision::Done(Err(Error::TimeoutError))
            }
        },
    }
}

/// Law: as soon as any one of the sent requests has been matched, a poll
/// that finds the socket quiet ends the attempt with success, whatever
/// became of the other requests.
pub proof fn lemma_success_on_quiet_socket(s: WaitState)
    requires
        s.wf(),
        exists|i: int| 0 <= i < s.matched@.len() && s.matched@[i],
    ensures
        poll_decision(s, PollEvent::NoData) == PollDecision::Done(Ok::<(), Error>(())),
{
}

/// Law: the wait phase answers [`Error::TimeoutError`] exactly when the
/// deadline passes with not one request matched — whatever else was
/// received, malformed or otherwise.
pub proof fn lemma_timeout_exactly_without_match(s: WaitState, event: PollEvent)
    requires
        s.wf(),
    ensures
        poll_decision(s, event) == PollDecision::Done(Err::<(), Error>(Error::TimeoutError)) <==> (
        event == PollEvent::DeadlineExceeded && (forall|i: int|
            0 <= i < s.matched@.len() ==> !s.matched@[i])),
{
    match event {
        PollEvent::DeadlineExceeded => {
            if s.succeeded {
                let i = choose|i: int| 0 <= i < s.matched@.len() && s.matched@[i];
                assert(0 <= i < s.matched@.len() && s.matched@[i]);
            }
        },
        _ => {},
    }
}

} // verus!