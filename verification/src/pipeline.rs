//! The producer/consumer pipeline model: which frames the capture loop
//! forwards under cooperative cancellation, and which decoded records the
//! dispatch loop lets through the message-kind filter.

use vstd::prelude::*;
use crate::config::PacketType;
use crate::decode::parse_packet;
use crate::decode::spec_decode;
use crate::view::PacketInfo;
use crate::view::PacketInfoV;

verus! {

/// Whether the configured filter suppresses a record of this kind: a filter
/// names the kind to drop, so a record is excluded exactly when its kind
/// equals the configured one.
pub open spec fn spec_excluded(kind: PacketType, filter: Option<PacketType>) -> bool {
    match filter {
        Some(f) => f == kind,
        None => false,
    }
}

/// Decides whether the filter drops this record.
pub fn filter_excludes(pkt: &PacketInfo, filter: Option<PacketType>) -> (r: bool)
    ensures
        r == spec_excluded(pkt.msg_type, filter),
{
    match filter {
        Some(f) => f == pkt.msg_type,
        None => false,
    }
}

/// Filter exclusion is exact negation: with a filter configured, a record is
/// dropped exactly when its kind is the configured kind, so every record of
/// the other kind passes; with no filter, every record passes.
pub proof fn lemma_filter_exact_negation(kind: PacketType, f: PacketType)
    ensures
        spec_excluded(kind, Some(f)) <==> kind == f,
        !spec_excluded(kind, None),
{
}

/// What the dispatch loop does with one frame: the decoded record, unless the
/// frame is not applicable or the filter drops its kind.
pub open spec fn spec_handle(frame: Seq<u8>, filter: Option<PacketType>) -> Option<PacketInfoV> {
    match spec_decode(frame) {
        Some(v) => if !spec_excluded(v.msg_type, filter) {
            Some(v)
        } else {
            None
        },
        None => None,
    }
}

/// Decodes one frame and applies the filter: the record a renderer receives
/// for this frame, if any.
pub fn handle_frame(frame: &[u8], filter: Option<PacketType>) -> (r: Option<PacketInfo>)
    ensures
        r is Some <==> spec_handle(frame@, filter) is Some,
        r matches Some(p) ==> spec_handle(frame@, filter) == Some(p@),
{
    match parse_packet(frame) {
        Some(p) => if !filter_excludes(&p, filter) {
            Some(p)
        } else {
            None
        },
        None => None,
    }
}

/// The records the dispatch loop hands a renderer for a queue of frames, in
/// queue order: each frame decoded, the inapplicable ones and the filtered
/// kinds dropped.
pub open spec fn spec_dispatch(frames: Seq<Seq<u8>>, filter: Option<PacketType>) -> Seq<
    PacketInfoV,
>
    decreases frames.len(),
{
    if frames.len() == 0 {
        Seq::empty()
    } else {
        let rest = spec_dispatch(frames.drop_first(), filter);
        match spec_handle(frames.first(), filter) {
            Some(v) => seq![v] + rest,
            None => rest,
        }
    }
}

/// Dispatching one more frame appends that frame's surviving record, if any,
/// after the records of the frames before it.
pub proof fn lemma_dispatch_snoc(frames: Seq<Seq<u8>>, frame: Seq<u8>, filter: Option<PacketType>)
    ensures
        spec_dispatch(frames.push(frame), filter) == spec_dispatch(frames, filter) + (match spec_handle(
            frame,
            filter,
        ) {
            Some(v) => seq![v],
            None => Seq::<PacketInfoV>::empty(),
        }),
    decreases frames.len(),
{
    reveal_with_fuel(spec_dispatch, 3);
    let tail = match spec_handle(frame, filter) {
        Some(v) => seq![v],
        None => Seq::<PacketInfoV>::empty(),
    };
    if frames.len() == 0 {
        assert(frames.push(frame).drop_first() =~= Seq::<Seq<u8>>::empty());
        assert(frames.push(frame).first() == frame);
        assert(Seq::<PacketInfoV>::empty() + tail =~= tail);
        assert(spec_dispatch(frames.push(frame), filter) =~= spec_dispatch(frames, filter) + tail);
    } else {
        assert(frames.push(frame).drop_first() =~= frames.drop_first().push(frame));
        assert(frames.push(frame).first() == frames.first());
        lemma_dispatch_snoc(frames.drop_first(), frame, filter);
        let rest = spec_dispatch(frames.drop_first(), filter);
        match spec_handle(frames.first(), filter) {
            Some(v) => {
                assert(seq![v] + (rest + tail) =~= (seq![v] + rest) + tail);
            },
            None => {},
        }
        assert(spec_dispatch(frames.push(frame), filter) =~= spec_dispatch(frames, filter) + tail);
    }
}

/// Every queued frame is rendered: when each queued frame decodes to a record
/// the filter lets through, dispatching yields exactly one record per frame,
/// in queue order. No frame captured and queued before shutdown is silently
/// discarded.
pub proof fn lemma_dispatch_renders_every_queued_frame(
    frames: Seq<Seq<u8>>,
    filter: Option<PacketType>,
)
    requires
        forall|k: int| 0 <= k < frames.len() ==> (#[trigger] spec_handle(frames[k], filter)) is Some,
    ensures
        spec_dispatch(frames, filter).len() == frames.len(),
        forall|k: int|
            0 <= k < frames.len() ==> spec_dispatch(frames, filter)[k] == (#[trigger] spec_handle(
                frames[k],
                filter,
            )).unwrap(),
    decreases frames.len(),
{
    if frames.len() > 0 {
        assert(spec_handle(frames[0], filter) is Some);
        lemma_dispatch_renders_every_queued_frame(frames.drop_first(), filter);
        assert forall|k: int| 0 <= k < frames.len() implies spec_dispatch(frames, filter)[k]
            == (#[trigger] spec_handle(frames[k], filter)).unwrap() by {
            if k > 0 {
                assert(spec_dispatch(frames.drop_first(), filter)[k - 1] == spec_handle(
                    frames.drop_first()[k - 1],
                    filter,
                ).unwrap());
                assert(frames.drop_first()[k - 1] == frames[k]);
            }
        }
    }
}

/// Drains a queue of frames in order: decodes each, applies the filter, and
/// returns the surviving records in capture order.
pub fn dispatch_records(frames: &Vec<Vec<u8>>, filter: Option<PacketType>) -> (out: Vec<
    PacketInfo,
>)
    ensures
        out@.map_values(|p: PacketInfo| p@) == spec_dispatch(frames.deep_view(), filter),
{
    let mut out: Vec<PacketInfo> = Vec::new();
    let mut i: usize = 0;
    while i < frames.len()
        invariant
            i <= frames@.len(),
            frames.deep_view().len() == frames@.len(),
            forall|k: int|
                0 <= k < frames@.len() ==> frames.deep_view()[k] == #[trigger] frames@[k]@,
            out@.map_values(|p: PacketInfo| p@) == spec_dispatch(
                frames.deep_view().take(i as int),
                filter,
            ),
        decreases frames@.len() - i,
    {
        let ghost prefix = frames.deep_view().take(i as int);
        match handle_frame(frames[i].as_slice(), filter) {
            Some(p) => {
                out.push(p);
            },
            None => {},
        }
        proof {
            lemma_dispatch_snoc(prefix, frames.deep_view()[i as int], filter);
            assert(frames.deep_view().take(i + 1 as int) =~= prefix.push(
                frames.deep_view()[i as int],
            ));
            assert(out@.map_values(|p: PacketInfo| p@) =~= spec_dispatch(
                frames.deep_view().take(i + 1 as int),
                filter,
            ));
        }
        i += 1;
    }
    proof {
        assert(frames.deep_view().take(frames@.len() as int) =~= frames.deep_view());
    }
    out
}

/// The frames the capture loop forwards, given the frames the source yields
/// and the cancellation flag value observed after each pull: the longest
/// prefix pulled while the flag stayed clear. The loop polls the flag once
/// per pulled frame, after the pull and before the send.
pub open spec fn spec_forwarded(pulled: Seq<Seq<u8>>, cancelled: Seq<bool>) -> Seq<Seq<u8>>
    decreases pulled.len(),
{
    if pulled.len() == 0 || cancelled.len() == 0 {
        Seq::empty()
    } else if cancelled.first() {
        Seq::empty()
    } else {
        seq![pulled.first()] + spec_forwarded(pulled.drop_first(), cancelled.drop_first())
    }
}

/// Once the cancellation flag is set, no further frame is forwarded: if the
/// flag is seen set at poll `k`, at most the `k` frames pulled before it are
/// sent, and what is sent is a prefix of what was pulled, in order.
pub proof fn lemma_cancellation_stops_forwarding(
    pulled: Seq<Seq<u8>>,
    cancelled: Seq<bool>,
    k: int,
)
    requires
        pulled.len() == cancelled.len(),
        0 <= k < cancelled.len(),
        cancelled[k],
    ensures
        spec_forwarded(pulled, cancelled).len() <= k,
        spec_forwarded(pulled, cancelled) == pulled.take(spec_forwarded(pulled, cancelled).len() as int),
    decreases pulled.len(),
{
    lemma_forwarded_prefix(pulled, cancelled);
    if pulled.len() == 0 || cancelled.first() {
    } else {
        lemma_cancellation_stops_forwarding(pulled.drop_first(), cancelled.drop_first(), k - 1);
    }
}

/// What the capture loop forwards is a prefix of what it pulled.
pub proof fn lemma_forwarded_prefix(pulled: Seq<Seq<u8>>, cancelled: Seq<bool>)
    ensures
        spec_forwarded(pulled, cancelled).len() <= pulled.len(),
        spec_forwarded(pulled, cancelled) == pulled.take(spec_forwarded(pulled, cancelled).len() as int),
    decreases pulled.len(),
{
    if pulled.len() == 0 || cancelled.len() == 0 || cancelled.first() {
        assert(spec_forwarded(pulled, cancelled) =~= pulled.take(0));
    } else {
        lemma_forwarded_prefix(pulled.drop_first(), cancelled.drop_first());
        let rest = spec_forwarded(pulled.drop_first(), cancelled.drop_first());
        assert(seq![pulled.first()] + rest =~= pulled.take(rest.len() as int + 1));
    }
}

/// The capture loop's decision for one pulled frame: stop without sending
/// when the flag was observed set, otherwise forward the frame.
pub fn capture_step(cancelled: bool) -> (forward: bool)
    ensures
        forward == !cancelled,
{
    !cancelled
}

/// Replays the capture loop's decisions over a pulled sequence of frames and
/// the flag values observed after each pull: returns exactly the frames the
/// loop sends to the queue, in order.
pub fn capture_session(pulled: &Vec<Vec<u8>>, cancelled: &Vec<bool>) -> (sent: Vec<Vec<u8>>)
    requires
        pulled@.len() == cancelled@.len(),
    ensures
        sent.deep_view() == spec_forwarded(pulled.deep_view(), cancelled@),
{
    let mut sent: Vec<Vec<u8>> = Vec::new();
    let mut i: usize = 0;
    proof {
        assert(pulled.deep_view().skip(0) =~= pulled.deep_view());
        assert(cancelled@.skip(0) =~= cancelled@);
        assert(sent.deep_view() =~= Seq::<Seq<u8>>::empty());
        assert(Seq::<Seq<u8>>::empty() + spec_forwarded(pulled.deep_view(), cancelled@)
            =~= spec_forwarded(pulled.deep_view(), cancelled@));
    }
    loop
        invariant
            i <= pulled@.len(),
            pulled@.len() == cancelled@.len(),
            pulled.deep_view().len() == pulled@.len(),
            forall|k: int|
                0 <= k < pulled@.len() ==> pulled.deep_view()[k] == #[trigger] pulled@[k]@,
            forall|k: int| 0 <= k < i ==> !(#[trigger] cancelled@[k]),
            sent.deep_view() =~= pulled.deep_view().take(i as int),
            spec_forwarded(pulled.deep_view(), cancelled@) == sent.deep_view() + spec_forwarded(
                pulled.deep_view().skip(i as int),
                cancelled@.skip(i as int),
            ),
        decreases pulled@.len() - i,
    {
        if i >= pulled.len() {
            proof {
                assert(pulled.deep_view().skip(i as int) =~= Seq::<Seq<u8>>::empty());
                assert(sent.deep_view() + spec_forwarded(
                    pulled.deep_view().skip(i as int),
                    cancelled@.skip(i as int),
                ) =~= sent.deep_view());
            }
            return sent;
        }
        let frame = pulled[i].clone();
        if !capture_step(cancelled[i]) {
            proof {
                assert(cancelled@.skip(i as int).first() == cancelled@[i as int]);
                assert(spec_forwarded(
                    pulled.deep_view().skip(i as int),
                    cancelled@.skip(i as int),
                ) =~= Seq::<Seq<u8>>::empty());
                assert(sent.deep_view() + Seq::<Seq<u8>>::empty() =~= sent.deep_view());
            }
            return sent;
        }
        sent.push(frame);
        proof {
            let dv = pulled.deep_view();
            assert(sent.deep_view() =~= dv.take(i + 1 as int));
            assert(dv.skip(i as int).drop_first() =~= dv.skip(i + 1 as int));
            assert(cancelled@.skip(i as int).drop_first() =~= cancelled@.skip(i + 1 as int));
            assert(spec_forwarded(dv.skip(i as int), cancelled@.skip(i as int)) =~= seq![
                dv[i as int],
            ] + spec_forwarded(dv.skip(i + 1 as int), cancelled@.skip(i + 1 as int)));
            assert(spec_forwarded(dv, cancelled@) =~= sent.deep_view() + spec_forwarded(
                dv.skip(i + 1 as int),
                cancelled@.skip(i + 1 as int),
            ));
        }
        i += 1;
    }
}

} // verus!
