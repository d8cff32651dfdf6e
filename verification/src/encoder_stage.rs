//! Bookkeeping of the encoder stage.
//!
//! The stage owns everything around the raw codec: the frame size the codec
//! was built for, the presentation-timestamp counter, the meter for the
//! source bitrate, and the smoother feeding rate control. The codec itself
//! is an external library driven by the embedding program: `prepare_input`
//! computes the planar buffer handed to it, and `complete_encode` takes the
//! packets it produced and assembles the outgoing frame.

use crate::bitrate::BitrateMeasure;
use crate::bitrate::BitrateSample;
use crate::bitrate::spec_rate;
use crate::smoother::CurrentBitrate;
use crate::smoother::spec_commit;
use crate::smoother::spec_mean;
use crate::yuv::argb_to_i420;
use crate::yuv::spec_i420;
use vstd::prelude::*;

verus! {

/// Samples kept by the source-rate meter: two seconds of frames at 60 Hz.
pub const ENCODED_RATE_WINDOW: usize = 120;

/// Bitrate figures reported back to the frame source.
#[derive(Clone, Copy, PartialEq, Eq, Structural, Debug)]
pub struct DebugInfo {
    pub current: u64,
    pub estimated: u64,
}

impl Default for DebugInfo {
    /// Both figures start at zero.
    fn default() -> (d: Self)
        ensures
            d.current == 0 && d.estimated == 0,
    {
        DebugInfo { current: 0, estimated: 0 }
    }
}

/// One encoded frame on its way to the session driver: the concatenated
/// codec packets, the nominal presentation duration (nanoseconds), the
/// measured source bitrate at production time, and the capture instant.
pub struct EncodedFrame {
    pub data: Vec<u8>,
    pub duration: u64,
    pub current_bitrate: u64,
    pub time: u64,
}

impl EncodedFrame {
    /// The compressed payload.
    pub fn data(&self) -> (r: &[u8])
        ensures
            r@ == self.data@,
    {
        self.data.as_slice()
    }

    /// The nominal presentation duration, in nanoseconds.
    pub fn duration(&self) -> (r: u64)
        ensures
            r == self.duration,
    {
        self.duration
    }

    /// The measured source bitrate when the frame was produced.
    pub fn current_bitrate(&self) -> (r: u64)
        ensures
            r == self.current_bitrate,
    {
        self.current_bitrate
    }

    /// The capture instant of the source frame, in nanoseconds.
    pub fn time(&self) -> (r: u64)
        ensures
            r == self.time,
    {
        self.time
    }
}

/// Concatenation of codec packet payloads in emission order.
pub open spec fn concat_packets(packets: Seq<Vec<u8>>) -> Seq<u8>
    decreases packets.len(),
{
    if packets.len() == 0 {
        Seq::empty()
    } else {
        concat_packets(packets.drop_last()) + packets.last()@
    }
}

/// A prefix of the packet sequence never concatenates to more bytes than
/// the whole of it.
proof fn lemma_concat_take_len(s: Seq<Vec<u8>>, i: int)
    requires
        0 <= i <= s.len(),
    ensures
        concat_packets(s.take(i)).len() <= concat_packets(s).len(),
    decreases s.len() - i,
{
    if i == s.len() {
        assert(s.take(i) =~= s);
    } else {
        lemma_concat_take_len(s, i + 1);
        assert(s.take(i + 1).drop_last() =~= s.take(i));
    }
}

/// The bookkeeping half of the encoder stage: one codec instance is sized
/// to `(width, height)`; a frame of any other size makes the embedding
/// program rebuild stage and codec together.
pub struct Encoder {
    pub width: u32,
    pub height: u32,
    pub stat: BitrateMeasure,
    pub current: CurrentBitrate,
    pub pts: u64,
}

impl Encoder {
    /// Well-formedness of the owned meter and smoother.
    pub open spec fn wf(&self) -> bool {
        &&& self.stat.wf()
        &&& self.stat.capacity() == ENCODED_RATE_WINDOW
        &&& self.current.wf()
    }

    /// Create the stage for a codec sized to `width` by `height` pixels at
    /// instant `now`.
    pub fn new(width: u32, height: u32, now: u64) -> (e: Self)
        ensures
            e.wf(),
            e.width == width,
            e.height == height,
            e.pts == 0,
            e.stat@ == Seq::<BitrateSample>::empty(),
            e.current@ == seq![crate::smoother::INITIAL_BITRATE],
            e.current.last_commit() == now,
    {
        Encoder {
            width,
            height,
            stat: BitrateMeasure::new(ENCODED_RATE_WINDOW),
            current: CurrentBitrate::new(now),
            pts: 0,
        }
    }

    /// The frame size the codec instance was built for.
    pub fn size(&self) -> (r: (u32, u32))
        ensures
            r == (self.width, self.height),
    {
        (self.width, self.height)
    }

    /// Whether an incoming frame of `width` by `height` pixels forces the
    /// codec instance to be rebuilt.
    pub fn needs_rebuild(&self, width: u32, height: u32) -> (r: bool)
        ensures
            r == !(self.width == width && self.height == height),
    {
        !(self.width == width && self.height == height)
    }

    /// The presentation timestamp to hand to the codec for the next frame:
    /// one tick per frame.
    pub fn pts(&self) -> (r: u64)
        ensures
            r == self.pts,
    {
        self.pts
    }

    /// Convert a packed BGRA source frame into the planar buffer the codec
    /// consumes.
    pub fn prepare_input(&self, data: &[u8], yuv: &mut Vec<u8>)
        requires
            data@.len() == 4 * self.width * self.height,
            4 * self.width * self.height <= usize::MAX,
        ensures
            final(yuv)@ == spec_i420(data@, self.width as nat, self.height as nat),
    {
        argb_to_i420(self.width as usize, self.height as usize, data, yuv)
    }

    /// Assemble the outgoing frame from the packets the codec emitted:
    /// concatenate their payloads, advance the timestamp counter, record
    /// the raw source size in the meter, and report the meter's rate.
    pub fn complete_encode(
        &mut self,
        packets: &Vec<Vec<u8>>,
        raw_len: usize,
        duration: u64,
        time: u64,
        now: u64,
    ) -> (frame: EncodedFrame)
        requires
            old(self).wf(),
            old(self).pts < u64::MAX,
            raw_len <= u32::MAX,
            concat_packets(packets@).len() <= usize::MAX,
            old(self).stat@.len() > 0 ==> old(self).stat@.last().time <= now,
        ensures
            final(self).wf(),
            frame.data@ == concat_packets(packets@),
            frame.duration == duration,
            frame.time == time,
            frame.current_bitrate == spec_rate(final(self).stat@, now),
            final(self).stat@ == (if old(self).stat@.len() == old(self).stat.capacity() {
                old(self).stat@.drop_first()
            } else {
                old(self).stat@
            }).push(BitrateSample { data_size: raw_len as u32, time: now }),
            final(self).pts == old(self).pts + 1,
            final(self).width == old(self).width,
            final(self).height == old(self).height,
            final(self).current == old(self).current,
    {
        let mut data: Vec<u8> = Vec::new();
        let n = packets.len();
        let mut i: usize = 0;
        while i < n
            invariant
                n == packets@.len(),
                i <= n,
                concat_packets(packets@).len() <= usize::MAX,
                data@ == concat_packets(packets@.take(i as int)),
            decreases n - i,
        {
            let p = &packets[i];
            let m = p.len();
            proof {
                assert(packets@.take(i + 1).drop_last() =~= packets@.take(i as int));
                lemma_concat_take_len(packets@, i + 1);
            }
            let mut j: usize = 0;
            while j < m
                invariant
                    n == packets@.len(),
                    i < n,
                    p@ == packets@[i as int]@,
                    m == packets@[i as int]@.len(),
                    j <= m,
                    concat_packets(packets@.take(i as int)).len() + m <= usize::MAX,
                    data@ == concat_packets(packets@.take(i as int)) + packets@[i as int]@.take(
                        j as int,
                    ),
                decreases m - j,
            {
                data.push(p[j]);
                proof {
                    assert(packets@[i as int]@.take(j + 1) =~= packets@[i as int]@.take(
                        j as int,
                    ).push(packets@[i as int]@[j as int]));
                }
                j = j + 1;
            }
            proof {
                assert(packets@.take(i + 1).drop_last() =~= packets@.take(i as int));
                assert(packets@[i as int]@.take(m as int) =~= packets@[i as int]@);
                assert(data@ =~= concat_packets(packets@.take(i + 1)));
            }
            i = i + 1;
        }
        proof {
            assert(packets@.take(n as int) =~= packets@);
        }

        self.pts = self.pts + 1;
        self.stat.push(raw_len as u32, now);
        let current_bitrate = self.stat.bitrate(now);

        EncodedFrame { data, duration, current_bitrate, time }
    }

    /// Rate-control hook: feed the latest bandwidth estimate to the
    /// smoother and, on a commit, report the codec bitrates to apply — the
    /// target at eight tenths of the new committed rate, the maximum at the
    /// committed rate itself. Without a commit nothing is reconfigured.
    pub fn rate_control(&mut self, estimated_bitrate: u64, now: u64) -> (r: Option<(u64, u64)>)
        requires
            old(self).wf(),
            old(self).current.last_commit() <= now,
        ensures
            final(self).wf(),
            final(self).width == old(self).width,
            final(self).height == old(self).height,
            final(self).pts == old(self).pts,
            final(self).stat == old(self).stat,
            r is Some <==> spec_commit(
                spec_mean(final(self).current@),
                old(self).current.committed(),
                old(self).current.last_commit(),
                now,
            ),
            r is Some ==> {
                &&& final(self).current.committed() == spec_mean(final(self).current@)
                &&& r == Some(
                    (
                        (final(self).current.committed() as int * 8 / 10) as u64,
                        final(self).current.committed(),
                    ),
                )
            },
            r is None ==> final(self).current.committed() == old(self).current.committed(),
    {
        let committed = self.current.update(estimated_bitrate, now);
        if committed {
            let target: u64 = self.current_target();
            let scaled: u128 = (target as u128) * 8 / 10;
            proof {
                assert(target as int * 8 / 10 <= target as int) by (nonlinear_arith)
                    requires
                        0 <= target as int,
                ;
            }
            Some((scaled as u64, target))
        } else {
            None
        }
    }

    /// The committed target bitrate of the smoother.
    pub fn current_target(&self) -> (r: u64)
        ensures
            r == self.current.committed(),
    {
        self.current.bitrate_target()
    }
}

} // verus!
