use vstd::prelude::*;
use std::collections::VecDeque;
use crate::answers::{
    node_hq_of, RplidarResponseCapsuleMeasurementNodes, RplidarResponseHqCapsuledMeasurementNodes,
    RplidarResponseMeasurementNode, RplidarResponseMeasurementNodeHq,
    RplidarResponseUltraCapsuleMeasurementNodes, HQ_CAPSULE_SIZE, RPLIDAR_ANS_TYPE_MEASUREMENT,
    RPLIDAR_ANS_TYPE_MEASUREMENT_CAPSULED, RPLIDAR_ANS_TYPE_MEASUREMENT_CAPSULED_ULTRA,
    RPLIDAR_ANS_TYPE_MEASUREMENT_HQ, RPLIDAR_RESP_MEASUREMENT_ANGLE_SHIFT,
    RPLIDAR_RESP_MEASUREMENT_EXP_SYNC_1, RPLIDAR_RESP_MEASUREMENT_EXP_SYNC_2,
    RPLIDAR_RESP_MEASUREMENT_HQ_SYNC, RPLIDAR_RESP_MEASUREMENT_QUALITY_SHIFT,
    RPLIDAR_RESP_MEASUREMENT_SYNCBIT,
};
use crate::capsuled_parser::{capsuled_points, parse_capsuled};
use crate::channel::{channel_read, Channel, ChannelView};
use crate::ring_byte_buffer::advance;
use crate::checksum::{lemma_xor_all_update, xor_all, Checksum};
use crate::crc::{checksum_ieee, crc32_ieee};
use crate::errors::{protocol_error, Result, RposError};
use crate::internals::{CachedPrevCapsule, RPLIDAR_DEFAULT_CACHE_DEPTH};
use crate::message::{frame_of, Message};
use crate::prelude::{point_of, point_sync, ScanOptions, ScanPoint};
use crate::commands::{is_start_scan_request, start_scan_request};
use crate::ultra_capsuled_parser::{parse_ultra_capsuled, ultra_capsuled_points};
use crate::wire::{le_u16, le_u32, read_le_u32};

verus! {

/// Whether `b` passes the sync and XOR check of (ultra) capsuled answers:
/// the top nibbles of the first two bytes are the sync nibbles, and their
/// low nibble and high bits hold the XOR of all later bytes.
pub open spec fn capsule_check_ok(b: Seq<u8>) -> bool {
    &&& b.len() >= 2
    &&& b[0] >> 4u8 == RPLIDAR_RESP_MEASUREMENT_EXP_SYNC_1
    &&& b[1] >> 4u8 == RPLIDAR_RESP_MEASUREMENT_EXP_SYNC_2
    &&& (b[0] & 0xf) | (b[1] << 4u8) == xor_all(b.skip(2))
}

/// Whether `b` passes the check of HQ capsuled answers: the length, the sync
/// byte, and the CRC-32 of all but the last four bytes, which hold it.
pub open spec fn hq_check_ok(b: Seq<u8>) -> bool {
    &&& b.len() == HQ_CAPSULE_SIZE
    &&& b[0] == RPLIDAR_RESP_MEASUREMENT_HQ_SYNC
    &&& crc32_ieee(b.take(137)) as int == le_u32(b.skip(137))
}

/// Checks the sync nibbles and the XOR checksum of a capsuled answer.
pub fn check_sync_and_checksum(msg: &Message) -> (r: Result<()>)
    ensures
        r is Ok <==> capsule_check_ok(msg.data@),
        r is Err ==> r->Err_0 is ProtocolError,
{
    if msg.data.len() < 2 {
        return Err(protocol_error("data too short"));
    }
    if (msg.data[0] >> 4u8) != RPLIDAR_RESP_MEASUREMENT_EXP_SYNC_1 {
        return Err(protocol_error("miss sync 1"));
    }
    if (msg.data[1] >> 4u8) != RPLIDAR_RESP_MEASUREMENT_EXP_SYNC_2 {
        return Err(protocol_error("miss sync 2"));
    }
    let recv_checksum = (msg.data[0] & 0xf) | (msg.data[1] << 4u8);
    let mut checksum = Checksum::new();
    let data = msg.data.as_slice();
    checksum.push_slice(&data[2..data.len()]);
    assert(data@.subrange(2, data@.len() as int) =~= msg.data@.skip(2));
    assert(0u8 ^ xor_all(msg.data@.skip(2)) == xor_all(msg.data@.skip(2))) by {
        let x = xor_all(msg.data@.skip(2));
        assert(0u8 ^ x == x) by (bit_vector);
    }
    if checksum.checksum() != recv_checksum {
        Err(protocol_error("checksum mismatch"))
    } else {
        Ok(())
    }
}

/// A capsuled answer that passes its check fails it once any byte after
/// the first two is changed: corruption of one byte is always detected.
pub proof fn lemma_capsule_corruption_detected(b: Seq<u8>, j: int, v: u8)
    requires
        capsule_check_ok(b),
        2 <= j < b.len(),
        v != b[j],
    ensures
        !capsule_check_ok(b.update(j, v)),
{
    lemma_xor_all_update(b.skip(2), j - 2, v);
    assert(b.update(j, v).skip(2) =~= b.skip(2).update(j - 2, v));
    let x = xor_all(b.skip(2));
    let o = b[j];
    assert(x ^ o ^ v != x) by (bit_vector)
        requires
            o != v,
    ;
}

/// Checks an HQ capsuled answer given the CRC-32 of its first 137 bytes:
/// the length, the sync byte, and that the last four bytes hold `crc`.
pub fn check_hq_frame(data: &[u8], crc: u32) -> (r: Result<()>)
    ensures
        r is Ok <==> data@.len() == HQ_CAPSULE_SIZE && data@[0] == RPLIDAR_RESP_MEASUREMENT_HQ_SYNC
            && crc as int == le_u32(data@.skip(137)),
        r is Err ==> r->Err_0 is ProtocolError,
{
    if data.len() != HQ_CAPSULE_SIZE {
        return Err(protocol_error("data length mismatch"));
    }
    if data[0] != RPLIDAR_RESP_MEASUREMENT_HQ_SYNC {
        return Err(protocol_error("sync mismatch"));
    }
    let recv_checksum = read_le_u32(&data[137..141]);
    assert(data@.subrange(137, 141) =~= data@.skip(137).take(4));
    if crc != recv_checksum {
        Err(protocol_error("checksum mismatch"))
    } else {
        Ok(())
    }
}

/// Checks the length, the sync byte and the CRC-32 of an HQ capsuled answer.
pub fn check_sync_and_checksum_hq(msg: &Message) -> (r: Result<()>)
    ensures
        r is Ok <==> hq_check_ok(msg.data@),
        r is Err ==> r->Err_0 is ProtocolError,
{
    let data = msg.data.as_slice();
    if data.len() != HQ_CAPSULE_SIZE {
        return Err(protocol_error("data length mismatch"));
    }
    let checksum = checksum_ieee(&data[0..137]);
    assert(data@.subrange(0, 137) =~= msg.data@.take(137));
    check_hq_frame(data, checksum)
}

/// The point a legacy measurement record stands for.
pub open spec fn legacy_point(n: RplidarResponseMeasurementNode) -> ScanPoint {
    ScanPoint {
        angle_z_q14: ((((n.angle_q6_checkbit as u32) >> 1u32) << 8u32) / 90) as u16,
        dist_mm_q2: n.distance_q2 as u32,
        quality: (n.sync_quality >> 2u8) << 2u8,
        flag: n.sync_quality & 1,
    }
}

/// The legacy measurement record stored in the five bytes `b`.
pub open spec fn legacy_node_of(b: Seq<u8>) -> RplidarResponseMeasurementNode {
    RplidarResponseMeasurementNode {
        sync_quality: b[0],
        angle_q6_checkbit: le_u16(b.skip(1)) as u16,
        distance_q2: le_u16(b.skip(3)) as u16,
    }
}

/// The points HQ nodes stand for.
pub open spec fn points_of(s: Seq<RplidarResponseMeasurementNodeHq>) -> Seq<ScanPoint> {
    Seq::new(s.len(), |i: int| point_of(s[i]))
}

/// The 16 points of the HQ capsuled answer `b`.
pub open spec fn hq_points(b: Seq<u8>) -> Seq<ScanPoint> {
    Seq::new(16, |i: int| point_of(node_hq_of(b.subrange(9 + 8 * i, 17 + 8 * i))))
}

/// The points a capsuled answer yields against the cached capsule.
pub open spec fn capsuled_output(
    cache: CachedPrevCapsule,
    nodes: RplidarResponseCapsuleMeasurementNodes,
) -> Seq<ScanPoint> {
    match cache {
        CachedPrevCapsule::Capsuled(prev) => points_of(capsuled_points(prev, nodes)),
        _ => Seq::empty(),
    }
}

/// The points an ultra capsuled answer yields against the cached capsule.
pub open spec fn ultra_capsuled_output(
    cache: CachedPrevCapsule,
    nodes: RplidarResponseUltraCapsuleMeasurementNodes,
) -> Seq<ScanPoint> {
    match cache {
        CachedPrevCapsule::UltraCapsuled(prev) => points_of(ultra_capsuled_points(prev, nodes)),
        _ => Seq::empty(),
    }
}

/// `k` ends the first revolution of `q` when the search starts at `from`:
/// the first point with the sync flag at index `max(from, 1)` or later.
pub open spec fn is_scan_end(q: Seq<ScanPoint>, from: int, k: int) -> bool {
    let start = if from < 1 {
        1
    } else {
        from
    };
    &&& start <= k < q.len()
    &&& point_sync(q[k])
    &&& forall|j: int| start <= j < k ==> !point_sync(#[trigger] q[j])
}

/// Result of looking for a complete revolution among the queued points.
pub enum ScanProgress {
    /// The points of one revolution, taken off the queue.
    Complete(Vec<ScanPoint>),
    /// No revolution yet; the queue length, from which to search next time.
    Pending(usize),
}

/// The driver session: the channel, the queue of decoded points and the
/// cached capsule.
pub struct RplidarDevice {
    channel: Channel,
    cached_measurement_nodes: VecDeque<ScanPoint>,
    cached_prev_capsule: CachedPrevCapsule,
}

impl RplidarDevice {
    pub closed spec fn wf(&self) -> bool {
        self.channel.wf()
    }

    /// Decoded points waiting to be taken, oldest first.
    pub closed spec fn queue(&self) -> Seq<ScanPoint> {
        self.cached_measurement_nodes@
    }

    /// The capsule the next capsule answer is decoded against.
    pub closed spec fn cache(&self) -> CachedPrevCapsule {
        self.cached_prev_capsule
    }

    pub closed spec fn channel_view(&self) -> ChannelView {
        self.channel@
    }

    /// A session over `channel`, with no points queued and no capsule cached.
    pub fn new(channel: Channel) -> (r: RplidarDevice)
        requires
            channel.wf(),
        ensures
            r.wf(),
            r.queue() == Seq::<ScanPoint>::empty(),
            r.cache() == CachedPrevCapsule::Empty,
            r.channel_view() == channel@,
    {
        RplidarDevice {
            channel: channel,
            cached_measurement_nodes: VecDeque::with_capacity(RPLIDAR_DEFAULT_CACHE_DEPTH),
            cached_prev_capsule: CachedPrevCapsule::Empty,
        }
    }

    /// The number of queued points.
    pub fn cached_len(&self) -> (r: usize)
        ensures
            r == self.queue().len(),
    {
        proof {
            vstd::std_specs::vecdeque::axiom_spec_len(&self.cached_measurement_nodes);
        }
        self.cached_measurement_nodes.len()
    }

    /// Forgets the cached capsule, as a new scan starts.
    pub fn reset_capsule_cache(&mut self)
        ensures
            final(self).cache() == CachedPrevCapsule::Empty,
            final(self).queue() == old(self).queue(),
            final(self).channel_view() == old(self).channel_view(),
            final(self).wf() == old(self).wf(),
    {
        self.cached_prev_capsule = CachedPrevCapsule::Empty;
    }

    /// The request that starts a scan in `scan_mode`; the cached capsule is
    /// dropped so that no point is decoded across two scans.
    pub fn start_scan_message(&mut self, scan_mode: u16, options: &ScanOptions) -> (r: Message)
        ensures
            final(self).cache() == CachedPrevCapsule::Empty,
            final(self).queue() == old(self).queue(),
            final(self).channel_view() == old(self).channel_view(),
            final(self).wf() == old(self).wf(),
            is_start_scan_request(scan_mode, *options, r),
    {
        self.cached_prev_capsule = CachedPrevCapsule::Empty;
        start_scan_request(scan_mode, options)
    }

    /// Queues one more point.
    pub fn push_point(&mut self, point: ScanPoint)
        ensures
            final(self).queue() == old(self).queue().push(point),
            final(self).cache() == old(self).cache(),
            final(self).channel_view() == old(self).channel_view(),
            final(self).wf() == old(self).wf(),
    {
        self.cached_measurement_nodes.push_back(point);
    }

    fn on_measurement_node_hq(&mut self, node: RplidarResponseMeasurementNodeHq)
        ensures
            final(self).queue() == old(self).queue().push(point_of(node)),
            final(self).cache() == old(self).cache(),
            final(self).channel_view() == old(self).channel_view(),
            final(self).wf() == old(self).wf(),
    {
        self.cached_measurement_nodes.push_back(ScanPoint::from(node));
    }

    fn on_measurement_nodes_hq(&mut self, nodes: &[RplidarResponseMeasurementNodeHq])
        ensures
            final(self).queue() == old(self).queue() + points_of(nodes@),
            final(self).cache() == old(self).cache(),
            final(self).channel_view() == old(self).channel_view(),
            final(self).wf() == old(self).wf(),
    {
        let mut i: usize = 0;
        while i < nodes.len()
            invariant
                i <= nodes@.len(),
                self.queue() == old(self).queue() + points_of(nodes@.take(i as int)),
                self.cache() == old(self).cache(),
                self.channel_view() == old(self).channel_view(),
                self.wf() == old(self).wf(),
            decreases nodes@.len() - i,
        {
            self.on_measurement_node_hq(nodes[i]);
            assert(points_of(nodes@.take(i + 1)) =~= points_of(nodes@.take(i as int)).push(
                point_of(nodes@[i as int]),
            ));
            i = i + 1;
        }
        assert(nodes@.take(nodes@.len() as int) =~= nodes@);
    }

    fn on_measurement_node(&mut self, node: RplidarResponseMeasurementNode)
        ensures
            final(self).queue() == old(self).queue().push(legacy_point(node)),
            final(self).cache() == old(self).cache(),
            final(self).channel_view() == old(self).channel_view(),
            final(self).wf() == old(self).wf(),
    {
        self.cached_measurement_nodes.push_back(
            ScanPoint {
                angle_z_q14: ((((node.angle_q6_checkbit as u32) >> RPLIDAR_RESP_MEASUREMENT_ANGLE_SHIFT)
                    << 8u32) / 90) as u16,
                dist_mm_q2: node.distance_q2 as u32,
                quality: (node.sync_quality >> RPLIDAR_RESP_MEASUREMENT_QUALITY_SHIFT)
                    << RPLIDAR_RESP_MEASUREMENT_QUALITY_SHIFT,
                flag: node.sync_quality & RPLIDAR_RESP_MEASUREMENT_SYNCBIT,
            },
        );
    }

    fn on_measurement_capsuled(&mut self, nodes: RplidarResponseCapsuleMeasurementNodes)
        ensures
            final(self).queue() == old(self).queue() + capsuled_output(old(self).cache(), nodes),
            final(self).cache() == CachedPrevCapsule::Capsuled(nodes),
            final(self).channel_view() == old(self).channel_view(),
            final(self).wf() == old(self).wf(),
    {
        let (parsed_nodes, new_cached_capsuled) = parse_capsuled(&self.cached_prev_capsule, nodes);
        self.cached_prev_capsule = new_cached_capsuled;
        self.on_measurement_nodes_hq(parsed_nodes.as_slice());
    }

    fn on_measurement_ultra_capsuled(&mut self, nodes: RplidarResponseUltraCapsuleMeasurementNodes)
        ensures
            final(self).queue() == old(self).queue() + ultra_capsuled_output(old(self).cache(), nodes),
            final(self).cache() == CachedPrevCapsule::UltraCapsuled(nodes),
            final(self).channel_view() == old(self).channel_view(),
            final(self).wf() == old(self).wf(),
    {
        let (parsed_nodes, new_cached_capsuled) = parse_ultra_capsuled(
            &self.cached_prev_capsule,
            nodes,
        );
        self.cached_prev_capsule = new_cached_capsuled;
        self.on_measurement_nodes_hq(parsed_nodes.as_slice());
    }

    fn on_measurement_hq_capsuled(&mut self, nodes: RplidarResponseHqCapsuledMeasurementNodes)
        ensures
            final(self).queue() == old(self).queue() + points_of(nodes.nodes@),
            final(self).cache() == old(self).cache(),
            final(self).channel_view() == old(self).channel_view(),
            final(self).wf() == old(self).wf(),
    {
        self.on_measurement_nodes_hq(nodes.nodes.as_slice());
    }

    /// Decodes a measurement answer and queues its points. A capsuled answer
    /// replaces the cached capsule. On error nothing changes.
    pub fn on_scan_data(&mut self, msg: &Message) -> (r: Result<()>)
        ensures
            final(self).channel_view() == old(self).channel_view(),
            final(self).wf() == old(self).wf(),
            r is Err ==> final(self).queue() == old(self).queue() && final(self).cache() == old(
                self,
            ).cache(),
            msg.cmd == RPLIDAR_ANS_TYPE_MEASUREMENT ==> {
                &&& (r is Ok <==> msg.data@.len() == 5)
                &&& r is Err ==> r->Err_0 is OperationFail
                &&& r is Ok ==> final(self).queue() == old(self).queue().push(
                    legacy_point(legacy_node_of(msg.data@)),
                ) && final(self).cache() == old(self).cache()
            },
            msg.cmd == RPLIDAR_ANS_TYPE_MEASUREMENT_CAPSULED ==> {
                &&& (r is Ok <==> capsule_check_ok(msg.data@) && msg.data@.len() == 84)
                &&& !capsule_check_ok(msg.data@) ==> r is Err && r->Err_0 is ProtocolError
                &&& capsule_check_ok(msg.data@) && msg.data@.len() != 84 ==> r is Err
                    && r->Err_0 is OperationFail
                &&& r is Ok ==> {
                    &&& final(self).cache() is Capsuled
                    &&& final(self).cache()->Capsuled_0.decodes(msg.data@)
                    &&& final(self).queue() == old(self).queue() + capsuled_output(
                        old(self).cache(),
                        final(self).cache()->Capsuled_0,
                    )
                }
            },
            msg.cmd == RPLIDAR_ANS_TYPE_MEASUREMENT_CAPSULED_ULTRA ==> {
                &&& (r is Ok <==> capsule_check_ok(msg.data@) && msg.data@.len() == 132)
                &&& !capsule_check_ok(msg.data@) ==> r is Err && r->Err_0 is ProtocolError
                &&& capsule_check_ok(msg.data@) && msg.data@.len() != 132 ==> r is Err
                    && r->Err_0 is OperationFail
                &&& r is Ok ==> {
                    &&& final(self).cache() is UltraCapsuled
                    &&& final(self).cache()->UltraCapsuled_0.decodes(msg.data@)
                    &&& final(self).queue() == old(self).queue() + ultra_capsuled_output(
                        old(self).cache(),
                        final(self).cache()->UltraCapsuled_0,
                    )
                }
            },
            msg.cmd == RPLIDAR_ANS_TYPE_MEASUREMENT_HQ ==> {
                &&& (r is Ok <==> hq_check_ok(msg.data@))
                &&& r is Err ==> r->Err_0 is ProtocolError
                &&& r is Ok ==> final(self).queue() == old(self).queue() + hq_points(msg.data@)
                    && final(self).cache() == old(self).cache()
            },
            msg.cmd != RPLIDAR_ANS_TYPE_MEASUREMENT && msg.cmd
                != RPLIDAR_ANS_TYPE_MEASUREMENT_CAPSULED && msg.cmd
                != RPLIDAR_ANS_TYPE_MEASUREMENT_CAPSULED_ULTRA && msg.cmd
                != RPLIDAR_ANS_TYPE_MEASUREMENT_HQ ==> r is Err && r->Err_0 is ProtocolError,
    {
        let data = msg.data.as_slice();
        if msg.cmd == RPLIDAR_ANS_TYPE_MEASUREMENT {
            let node = RplidarResponseMeasurementNode::parse(data)?;
            self.on_measurement_node(node);
            Ok(())
        } else if msg.cmd == RPLIDAR_ANS_TYPE_MEASUREMENT_CAPSULED {
            check_sync_and_checksum(msg)?;
            let nodes = RplidarResponseCapsuleMeasurementNodes::parse(data)?;
            self.on_measurement_capsuled(nodes);
            Ok(())
        } else if msg.cmd == RPLIDAR_ANS_TYPE_MEASUREMENT_CAPSULED_ULTRA {
            check_sync_and_checksum(msg)?;
            let nodes = RplidarResponseUltraCapsuleMeasurementNodes::parse(data)?;
            self.on_measurement_ultra_capsuled(nodes);
            Ok(())
        } else if msg.cmd == RPLIDAR_ANS_TYPE_MEASUREMENT_HQ {
            check_sync_and_checksum_hq(msg)?;
            let nodes = RplidarResponseHqCapsuledMeasurementNodes::parse(data)?;
            self.on_measurement_hq_capsuled(nodes);
            assert(points_of(nodes.nodes@) =~= hq_points(msg.data@));
            Ok(())
        } else {
            Err(protocol_error("unexpected response"))
        }
    }

    /// Takes the oldest queued point; a timeout when none is queued.
    pub fn grab_scan_point(&mut self) -> (r: Result<ScanPoint>)
        ensures
            final(self).cache() == old(self).cache(),
            final(self).channel_view() == old(self).channel_view(),
            final(self).wf() == old(self).wf(),
            old(self).queue().len() == 0 ==> r is Err && r->Err_0 is OperationTimeout
                && final(self).queue() == old(self).queue(),
            old(self).queue().len() > 0 ==> r == Ok::<ScanPoint, RposError>(old(self).queue()[0])
                && final(self).queue() == old(self).queue().skip(1),
    {
        match self.cached_measurement_nodes.pop_front() {
            Some(point) => Ok(point),
            None => Err(RposError::OperationTimeout),
        }
    }

    fn find_scan_end(&self, scanned: usize) -> (r: Option<usize>)
        ensures
            r is Some ==> is_scan_end(self.queue(), scanned as int, r->Some_0 as int),
            r is None ==> forall|k: int| !is_scan_end(self.queue(), scanned as int, k),
    {
        let len = self.cached_len();
        let ghost q = self.queue();
        let mut i: usize = if scanned < 1 {
            1
        } else {
            scanned
        };
        let ghost start = i as int;
        while i < len
            invariant
                len == q.len(),
                q == self.queue(),
                start == if scanned < 1 {
                    1
                } else {
                    scanned as int
                },
                start <= i,
                forall|j: int| start <= j < i && j < len ==> !point_sync(#[trigger] q[j]),
            decreases len - i,
        {
            if self.cached_measurement_nodes[i].is_sync() {
                return Some(i);
            }
            i = i + 1;
        }
        assert forall|k: int| !is_scan_end(q, scanned as int, k) by {
            if start <= k < q.len() && point_sync(q[k]) {
                assert(!point_sync(q[k]));
            }
        }
        None
    }

    /// Looks for the end of the first revolution among the queued points,
    /// from index `scanned` on (at least 1: a sync flag on the first point
    /// does not end anything). When found at `k`, the first `k` points are
    /// taken off the queue and returned.
    pub fn grab_scan(&mut self, scanned: usize) -> (r: ScanProgress)
        ensures
            final(self).cache() == old(self).cache(),
            final(self).channel_view() == old(self).channel_view(),
            final(self).wf() == old(self).wf(),
            match r {
                ScanProgress::Complete(points) => {
                    &&& is_scan_end(old(self).queue(), scanned as int, points@.len() as int)
                    &&& points@ == old(self).queue().take(points@.len() as int)
                    &&& final(self).queue() == old(self).queue().skip(points@.len() as int)
                },
                ScanProgress::Pending(n) => {
                    &&& n == old(self).queue().len()
                    &&& final(self).queue() == old(self).queue()
                    &&& forall|k: int| !is_scan_end(old(self).queue(), scanned as int, k)
                },
            },
    {
        let ghost q = self.queue();
        let end = match self.find_scan_end(scanned) {
            Some(k) => k,
            None => {
                return ScanProgress::Pending(self.cached_len());
            },
        };
        assert(is_scan_end(q, scanned as int, end as int));
        let mut out: Vec<ScanPoint> = Vec::with_capacity(end);
        let mut t: usize = 0;
        while t < end
            invariant
                end < q.len(),
                t <= end,
                out@ == q.take(t as int),
                self.queue() == q.skip(t as int),
                self.cache() == old(self).cache(),
                self.channel_view() == old(self).channel_view(),
                self.wf() == old(self).wf(),
            decreases end - t,
        {
            if let Some(point) = self.cached_measurement_nodes.pop_front() {
                out.push(point);
            }
            assert(q.take(t + 1) =~= q.take(t as int).push(q[t as int]));
            assert(q.skip(t as int).subrange(1, q.skip(t as int).len() as int) =~= q.skip(t + 1));
            t = t + 1;
        }
        ScanProgress::Complete(out)
    }

    /// Stages bytes received from the transport; returns how many were taken.
    pub fn feed(&mut self, bytes: &[u8]) -> (r: usize)
        requires
            old(self).wf(),
        ensures
            final(self).wf(),
            final(self).queue() == old(self).queue(),
            final(self).cache() == old(self).cache(),
            final(self).channel_view().decoder == old(self).channel_view().decoder,
            final(self).channel_view().capacity == old(self).channel_view().capacity,
            final(self).channel_view().read_pos == old(self).channel_view().read_pos,
            r == if bytes@.len() < old(self).channel_view().capacity - old(
                self,
            ).channel_view().buffered.len() {
                bytes@.len() as usize
            } else {
                (old(self).channel_view().capacity - old(self).channel_view().buffered.len()) as usize
            },
            final(self).channel_view().buffered == old(self).channel_view().buffered + bytes@.take(
                r as int,
            ),
    {
        self.channel.feed(bytes)
    }

    /// Room left for received bytes.
    pub fn free_space(&self) -> (r: usize)
        requires
            self.wf(),
        ensures
            r == self.channel_view().capacity - self.channel_view().buffered.len(),
    {
        self.channel.free_space()
    }

    /// Decodes one answer from the staged bytes, if they hold one.
    pub fn read_message(&mut self) -> (r: Result<Option<Message>>)
        requires
            old(self).wf(),
        ensures
            final(self).wf(),
            final(self).queue() == old(self).queue(),
            final(self).cache() == old(self).cache(),
            final(self).channel_view().capacity == old(self).channel_view().capacity,
            ({
                let o = channel_read(old(self).channel_view());
                &&& final(self).channel_view().decoder == o.decoder
                &&& final(self).channel_view().buffered == old(self).channel_view().buffered.skip(
                    o.consumed as int,
                )
                &&& final(self).channel_view().read_pos == advance(
                    old(self).channel_view().read_pos,
                    o.consumed,
                    old(self).channel_view().capacity,
                )
                &&& (r is Ok <==> o.ok)
                &&& (r is Err ==> r->Err_0 is ProtocolError)
                &&& (r is Ok ==> frame_of(r->Ok_0) == o.frame)
            }),
    {
        self.channel.read()
    }

    /// The bytes to send to the transport for `msg`.
    pub fn encode_request(&mut self, msg: &Message) -> (r: Result<Vec<u8>>)
        requires
            old(self).wf(),
        ensures
            final(self).wf(),
            final(self).queue() == old(self).queue(),
            final(self).cache() == old(self).cache(),
            msg.data@.len() <= 255 ==> r is Ok && r->Ok_0@ == crate::protocol::request_bytes(
                msg.cmd,
                msg.data@,
            ),
            msg.data@.len() > 255 ==> r is Err && r->Err_0 is OperationFail,
    {
        self.channel.write(msg)
    }

    /// Resets the channel's encoder and decoder, as after a protocol error.
    pub fn reset_channel(&mut self)
        requires
            old(self).wf(),
        ensures
            final(self).wf(),
            final(self).queue() == old(self).queue(),
            final(self).cache() == old(self).cache(),
            final(self).channel_view().decoder == old(self).channel_view().decoder.restart(0),
            final(self).channel_view().buffered == old(self).channel_view().buffered,
            final(self).channel_view().read_pos == old(self).channel_view().read_pos,
            final(self).channel_view().capacity == old(self).channel_view().capacity,
    {
        self.channel.reset();
    }
}

} // verus!
