//! Video decoding decisions: the size frames are converted to, the colour
//! matrix used for the conversion, the pixel format requested from the
//! decoder, the fallback from hardware to software decoding, and copying
//! decoded rows into frame buffers.

use vstd::prelude::*;
use crate::frame_copy::{copy_rows, in_copied_rows, rows_copied, source_index};

verus! {

/// Decodes video backgrounds; the decoding itself (FFmpeg) runs in the
/// application, its decisions here.
pub struct VideoDecoder;

/// The smallest size, keeping the source's aspect ratio, that still covers
/// `target` (scaled down, never up). `None` or a degenerate target or source
/// keeps the source size. With `r = max(tw/sw, th/sh)`, the result is
/// `(ceil(sw * r), ceil(sh * r))` clamped to `1..=source`.
pub open spec fn spec_scaled_video_size(src: (u32, u32), target: Option<(u32, u32)>) -> (u32, u32) {
    let (sw, sh) = src;
    match target {
        None => src,
        Some((tw, th)) => if tw == 0 || th == 0 || sw == 0 || sh == 0 {
            src
        } else {
            // The larger of the ratios tw/sw and th/sh, as num/den.
            let (num, den) = if tw as int * sh as int >= th as int * sw as int {
                (tw as int, sw as int)
            } else {
                (th as int, sh as int)
            };
            if num >= den {
                src
            } else {
                let w = (sw as int * num + den - 1) / den;
                let h = (sh as int * num + den - 1) / den;
                (
                    (if w < 1 { 1 } else if w > sw { sw as int } else { w }) as u32,
                    (if h < 1 { 1 } else if h > sh { sh as int } else { h }) as u32,
                )
            }
        },
    }
}

fn clamp_u64(v: u64, hi: u32) -> (r: u32)
    requires
        hi >= 1,
    ensures
        r == (if v < 1 { 1 } else if v > hi { hi as int } else { v as int }),
{
    if v < 1 {
        1
    } else if v > hi as u64 {
        hi
    } else {
        v as u32
    }
}

/// The size to convert a `src`-sized video to so that it still covers the
/// largest monitor (`target`, in physical pixels): scaled down with its
/// aspect ratio kept, never up, rounding up so that it never falls short of
/// the target. `None` (monitor size not known yet) keeps the source size.
pub fn scaled_video_size(src: (u32, u32), target: Option<(u32, u32)>) -> (r: (u32, u32))
    ensures
        r == spec_scaled_video_size(src, target),
{
    let (sw, sh) = src;
    let (tw, th) = match target {
        Some(t) => t,
        None => return src,
    };
    if tw == 0 || th == 0 || sw == 0 || sh == 0 {
        return src;
    }
    proof {
        assert((tw as int) * (sh as int) <= 0xffff_ffff * 0xffff_ffff) by (nonlinear_arith)
            requires
                tw <= 0xffff_ffffu32,
                sh <= 0xffff_ffffu32,
        ;
        assert((th as int) * (sw as int) <= 0xffff_ffff * 0xffff_ffff) by (nonlinear_arith)
            requires
                th <= 0xffff_ffffu32,
                sw <= 0xffff_ffffu32,
        ;
    }
    let (num, den): (u64, u64) = if (tw as u64) * (sh as u64) >= (th as u64) * (sw as u64) {
        (tw as u64, sw as u64)
    } else {
        (th as u64, sh as u64)
    };
    if num >= den {
        return src;
    }
    proof {
        assert((sw as int) * (num as int) <= 0xffff_ffff * 0xffff_ffff) by (nonlinear_arith)
            requires
                sw <= 0xffff_ffffu32,
                num <= 0xffff_ffffu64,
        ;
        assert((sh as int) * (num as int) <= 0xffff_ffff * 0xffff_ffff) by (nonlinear_arith)
            requires
                sh <= 0xffff_ffffu32,
                num <= 0xffff_ffffu64,
        ;
    }
    let w = ((sw as u64) * num + den - 1) / den;
    let h = ((sh as u64) * num + den - 1) / den;
    (clamp_u64(w, sw), clamp_u64(h, sh))
}

/// The converted size is never larger than the source in either direction.
pub proof fn scaled_size_never_upscales(src: (u32, u32), target: Option<(u32, u32)>)
    ensures
        spec_scaled_video_size(src, target).0 <= src.0,
        spec_scaled_video_size(src, target).1 <= src.1,
{
}

proof fn lemma_ceil_covers(s: int, num: int, den: int, t: int)
    requires
        s > 0,
        den > 0,
        t >= 0,
        s * num >= t * den,
    ensures
        (s * num + den - 1) / den >= t,
{
    assert(s * num + den - 1 >= t * den);
    vstd::arithmetic::div_mod::lemma_div_by_multiple(t, den);
    vstd::arithmetic::div_mod::lemma_div_is_ordered(t * den, s * num + den - 1, den);
}

/// The converted size covers the monitor as far as the source can: each
/// side is at least the target's (or the source's own, when the source is
/// smaller), so the renderer never has to stretch it.
pub proof fn scaled_size_covers_the_target(src: (u32, u32), tw: u32, th: u32)
    requires
        tw > 0,
        th > 0,
    ensures
        spec_scaled_video_size(src, Some((tw, th))).0 >= (if tw < src.0 { tw } else { src.0 }),
        spec_scaled_video_size(src, Some((tw, th))).1 >= (if th < src.1 { th } else { src.1 }),
{
    let (sw, sh) = src;
    if sw > 0 && sh > 0 {
        let (num, den) = if tw as int * sh as int >= th as int * sw as int {
            (tw as int, sw as int)
        } else {
            (th as int, sh as int)
        };
        if num < den {
            if tw as int * sh as int >= th as int * sw as int {
                assert(sw as int * num == tw as int * den) by (nonlinear_arith)
                    requires
                        num == tw as int,
                        den == sw as int,
                ;
                assert(sh as int * num >= th as int * den) by (nonlinear_arith)
                    requires
                        num == tw as int,
                        den == sw as int,
                        tw as int * sh as int >= th as int * sw as int,
                ;
            } else {
                assert(sh as int * num == th as int * den) by (nonlinear_arith)
                    requires
                        num == th as int,
                        den == sh as int,
                ;
                assert(sw as int * num >= tw as int * den) by (nonlinear_arith)
                    requires
                        num == th as int,
                        den == sh as int,
                        (tw as int) * (sh as int) < (th as int) * (sw as int),
                ;
            }
            lemma_ceil_covers(sw as int, num, den, tw as int);
            lemma_ceil_covers(sh as int, num, den, th as int);
        }
    }
}

/// The colour matrix a video stream is tagged with.
#[derive(Clone, Copy, Debug, PartialEq, Eq, Structural)]
pub enum ColorSpace {
    Rgb,
    Bt709,
    Unspecified,
    Fcc,
    Bt470bg,
    Smpte170m,
    Smpte240m,
    Bt2020Ncl,
    Bt2020Cl,
    /// Any other tag (YCgCo, ICtCp, chroma-derived, ...).
    Other,
}

/// The swscale YUV-to-RGB matrix (`SWS_CS_*`) used for the conversion.
#[derive(Clone, Copy, Debug, PartialEq, Eq, Structural)]
pub enum SwsMatrix {
    Itu709,
    Fcc,
    Itu601,
    Smpte240m,
    Bt2020,
}

impl SwsMatrix {
    /// The matrix's `SWS_CS_*` number from `libswscale/swscale.h`.
    pub fn code(self) -> (r: i32)
        ensures
            r == match self {
                SwsMatrix::Itu709 => 1i32,
                SwsMatrix::Fcc => 4i32,
                SwsMatrix::Itu601 => 5i32,
                SwsMatrix::Smpte240m => 7i32,
                SwsMatrix::Bt2020 => 9i32,
            },
    {
        match self {
            SwsMatrix::Itu709 => 1,
            SwsMatrix::Fcc => 4,
            SwsMatrix::Itu601 => 5,
            SwsMatrix::Smpte240m => 7,
            SwsMatrix::Bt2020 => 9,
        }
    }
}

/// The matrix for a stream tagged `space`, `height` lines tall: the tag's
/// own matrix, and for untagged (or unusually tagged) video the usual guess
/// of BT.709 for HD (720 lines and up) and BT.601 below.
pub open spec fn spec_sws_colorspace(space: ColorSpace, height: u32) -> SwsMatrix {
    match space {
        ColorSpace::Bt709 => SwsMatrix::Itu709,
        ColorSpace::Fcc => SwsMatrix::Fcc,
        ColorSpace::Bt470bg | ColorSpace::Smpte170m => SwsMatrix::Itu601,
        ColorSpace::Smpte240m => SwsMatrix::Smpte240m,
        ColorSpace::Bt2020Ncl | ColorSpace::Bt2020Cl => SwsMatrix::Bt2020,
        _ => if height >= 720 { SwsMatrix::Itu709 } else { SwsMatrix::Itu601 },
    }
}

/// Picks the YUV-to-RGB matrix for a stream (swscale's own default would be
/// BT.601 for everything, which shifts the colours of untagged HD video).
pub fn sws_colorspace(space: ColorSpace, height: u32) -> (r: SwsMatrix)
    ensures
        r == spec_sws_colorspace(space, height),
{
    match space {
        ColorSpace::Bt709 => SwsMatrix::Itu709,
        ColorSpace::Fcc => SwsMatrix::Fcc,
        ColorSpace::Bt470bg | ColorSpace::Smpte170m => SwsMatrix::Itu601,
        ColorSpace::Smpte240m => SwsMatrix::Smpte240m,
        ColorSpace::Bt2020Ncl | ColorSpace::Bt2020Cl => SwsMatrix::Bt2020,
        _ => if height >= 720 {
            SwsMatrix::Itu709
        } else {
            SwsMatrix::Itu601
        },
    }
}

/// A pixel format the decoder offers, and whether it is a hardware
/// (GPU-surface) format.
#[derive(Clone, Copy, Debug, PartialEq, Eq, Structural)]
pub struct OfferedFormat {
    pub format: i32,
    pub hwaccel: bool,
}

/// The decoder's `get_format` choice: VAAPI surfaces when the decoder
/// offers them for this stream, otherwise the first software format, so
/// that a stream the GPU cannot handle still decodes in software.
pub fn select_decode_format(offered: &[OfferedFormat], vaapi: i32) -> (r: Option<i32>)
    ensures
        match r {
            Some(f) => if f == vaapi && exists|i: int| 0 <= i < offered@.len() && offered@[i].format == vaapi {
                true
            } else {
                (forall|i: int| 0 <= i < offered@.len() ==> offered@[i].format != vaapi)
                    && exists|i: int|
                    0 <= i < offered@.len() && !offered@[i].hwaccel && offered@[i].format == f
                        && forall|j: int| 0 <= j < i ==> offered@[j].hwaccel
            },
            None => forall|i: int|
                0 <= i < offered@.len() ==> offered@[i].format != vaapi && offered@[i].hwaccel,
        },
{
    let mut software: Option<usize> = None;
    let mut i: usize = 0;
    while i < offered.len()
        invariant
            i <= offered@.len(),
            forall|k: int| 0 <= k < i ==> offered@[k].format != vaapi,
            match software {
                Some(s) => s < i && !offered@[s as int].hwaccel && forall|j: int|
                    0 <= j < s ==> offered@[j].hwaccel,
                None => forall|j: int| 0 <= j < i ==> offered@[j].hwaccel,
            },
        decreases offered@.len() - i,
    {
        let f = offered[i];
        if f.format == vaapi {
            return Some(vaapi);
        }
        if software.is_none() && !f.hwaccel {
            software = Some(i);
        }
        i = i + 1;
    }
    match software {
        Some(s) => Some(offered[s].format),
        None => None,
    }
}

/// Consecutive packets the VAAPI decoder may reject before decoding falls
/// back to software.
pub const MAX_HARDWARE_PACKET_ERRORS: u32 = 8;

/// What to do with a packet after handing it to the decoder.
#[derive(Clone, Copy, Debug, PartialEq, Eq, Structural)]
pub enum PacketVerdict {
    /// Accepted: receive the frames it produced.
    Decode,
    /// Rejected: skip it.
    Skip,
    /// The hardware decoder keeps failing: reopen the file in software.
    SwitchToSoftware,
}

/// Updates the run of consecutive hardware rejections after one packet
/// and says what to do with it.
pub fn packet_verdict(errors: u32, accepted: bool, hardware: bool) -> (r: (u32, PacketVerdict))
    requires
        errors < MAX_HARDWARE_PACKET_ERRORS,
    ensures
        accepted ==> r == (0u32, PacketVerdict::Decode),
        !accepted && !hardware ==> r == (errors, PacketVerdict::Skip),
        !accepted && hardware && errors + 1 >= MAX_HARDWARE_PACKET_ERRORS ==> r == (
            (errors + 1) as u32,
            PacketVerdict::SwitchToSoftware,
        ),
        !accepted && hardware && errors + 1 < MAX_HARDWARE_PACKET_ERRORS ==> r == (
            (errors + 1) as u32,
            PacketVerdict::Skip,
        ),
        r.1 != PacketVerdict::SwitchToSoftware ==> r.0 < MAX_HARDWARE_PACKET_ERRORS,
{
    if accepted {
        (0, PacketVerdict::Decode)
    } else if hardware {
        let e = errors + 1;
        if e >= MAX_HARDWARE_PACKET_ERRORS {
            (e, PacketVerdict::SwitchToSoftware)
        } else {
            (e, PacketVerdict::Skip)
        }
    } else {
        (errors, PacketVerdict::Skip)
    }
}

/// What the local decoder does with one decoded frame: how long to sleep
/// first so that the frame is shown at its own timestamp, and whether to
/// send it at all.
#[derive(Clone, Copy, Debug, PartialEq, Eq, Structural)]
pub struct FramePace {
    pub sleep_us: u64,
    pub send: bool,
}

/// The shortest gap between two sent frames at `fps` frames per second (a
/// rate of 0 counts as 1), in microseconds.
pub open spec fn spec_frame_gap_us(fps: u32) -> int {
    1_000_000int / (if fps < 1 { 1int } else { fps as int })
}

/// Paces one frame whose timestamp is `target_us` after the start of the
/// loop, `elapsed_us` into it: the decoder sleeps until the timestamp, and
/// thins the stream to `fps` by dropping a frame that would follow the last
/// one sent (at `last_sent_us`; 0 while none has been sent since the start
/// of the loop) by less than one frame gap.
pub fn pace_frame(target_us: u64, elapsed_us: u64, last_sent_us: u64, fps: u32) -> (r: FramePace)
    ensures
        r.sleep_us == (if target_us > elapsed_us { target_us - elapsed_us } else { 0 }),
        r.send == !(last_sent_us > 0 && target_us < last_sent_us + spec_frame_gap_us(fps)),
{
    let sleep_us = if target_us > elapsed_us { target_us - elapsed_us } else { 0 };
    let rate: u64 = if fps < 1 { 1 } else { fps as u64 };
    let gap: u64 = 1_000_000 / rate;
    let too_soon = last_sent_us > 0 && (target_us as u128) < (last_sent_us as u128) + (gap as u128);
    FramePace { sleep_us, send: !too_soon }
}

/// Sent frames are at least one frame gap apart, so the decoder never
/// outruns the configured frame rate.
pub proof fn sent_frames_respect_the_frame_rate(target_us: u64, last_sent_us: u64, fps: u32, send: bool)
    requires
        send == !(last_sent_us > 0 && target_us < last_sent_us + spec_frame_gap_us(fps)),
        send,
        last_sent_us > 0,
    ensures
        target_us - last_sent_us >= spec_frame_gap_us(fps),
{
}

/// How many rows a padded frame copy moves: as many as fit in the
/// `frame_size`-byte destination and as there are `stride`-sized chunks of
/// the source (the last one possibly short).
pub open spec fn spec_frame_rows(frame_size: int, row_bytes: int, data_len: int, stride: int) -> int {
    let dst_rows = frame_size / row_bytes;
    let src_rows = (data_len + stride - 1) / stride;
    if dst_rows < src_rows { dst_rows } else { src_rows }
}

/// Copies a converted frame's first plane (`data`, rows `stride` bytes
/// apart) into the first `frame_size` bytes of `dst` as densely packed
/// `width`-pixel RGBA rows: one bulk copy when the source is already dense,
/// row by row when the decoder padded its rows.
pub fn copy_scaled_frame(dst: &mut Vec<u8>, data: &[u8], stride: usize, width: u32, frame_size: usize)
    requires
        width <= u32::MAX / 4,
        frame_size <= old(dst)@.len(),
        stride == width * 4 ==> frame_size <= data@.len(),
        stride != width * 4 ==> width > 0 && stride > 0,
        stride != width * 4 && spec_frame_rows(frame_size as int, width * 4, data@.len() as int, stride as int) > 0
            ==> stride >= width * 4 && (spec_frame_rows(
            frame_size as int,
            width * 4,
            data@.len() as int,
            stride as int,
        ) - 1) * stride + width * 4 <= data@.len(),
    ensures
        final(dst)@.len() == old(dst)@.len(),
        stride == width * 4 ==> (forall|i: int|
            0 <= i < final(dst)@.len() ==> #[trigger] final(dst)@[i] == if i < frame_size {
                data@[i]
            } else {
                old(dst)@[i]
            }),
        stride != width * 4 ==> rows_copied(
            old(dst)@,
            final(dst)@,
            data@,
            width * 4,
            stride as int,
            width * 4,
            spec_frame_rows(frame_size as int, width * 4, data@.len() as int, stride as int),
        ),
{
    let row = (width * 4) as usize;
    if stride == row {
        if frame_size > 0 {
            copy_rows(dst, frame_size, data, frame_size, frame_size, 1);
            proof {
                assert forall|i: int| 0 <= i < dst@.len() implies #[trigger] dst@[i] == if i
                    < frame_size {
                    data@[i]
                } else {
                    old(dst)@[i]
                } by {
                    if i < frame_size {
                        vstd::arithmetic::div_mod::lemma_small_mod(i as nat, frame_size as nat);
                        assert(i / (frame_size as int) == 0) by {
                            vstd::arithmetic::div_mod::lemma_basic_div(i, frame_size as int);
                        }
                        assert(source_index(i, frame_size as int, frame_size as int) == i);
                    } else {
                        assert(i / (frame_size as int) >= 1) by {
                            vstd::arithmetic::div_mod::lemma_div_is_ordered(frame_size as int, i, frame_size as int);
                            vstd::arithmetic::div_mod::lemma_div_by_self(frame_size as int);
                        }
                    }
                }
            }
        }
    } else {
        let dst_rows = frame_size / row;
        let src_rows = if data.len() == 0 {
            0
        } else {
            (data.len() - 1) / stride + 1
        };
        proof {
            let d = data@.len() as int;
            let st = stride as int;
            if d == 0 {
                vstd::arithmetic::div_mod::lemma_small_div_converse(st - 1, st);
                vstd::arithmetic::div_mod::lemma_basic_div(st - 1, st);
            } else {
                vstd::arithmetic::div_mod::lemma_div_plus_one(d - 1, st);
                assert(st + (d - 1) == d + st - 1);
            }
            assert(src_rows == (d + st - 1) / st);
        }
        let rows = if dst_rows < src_rows { dst_rows } else { src_rows };
        if rows > 0 {
            proof {
                let fs = frame_size as int;
                let r = row as int;
                let q = fs / r;
                vstd::arithmetic::div_mod::lemma_fundamental_div_mod(fs, r);
                vstd::arithmetic::mul::lemma_mul_inequality(rows as int, q, r);
                vstd::arithmetic::mul::lemma_mul_is_distributive_sub_other_way(r, rows as int, 1);
                vstd::arithmetic::mul::lemma_mul_is_commutative(r, q);
                assert((rows - 1) * r + r == rows * r);
            }
        }
        copy_rows(dst, row, data, stride, row, rows);
    }
}

/// A frame buffer of exactly `frame_size` bytes: a recycled buffer cut or
/// zero-extended to size, or a fresh zeroed one.
pub fn prepare_frame_buffer(recycled: Option<Vec<u8>>, frame_size: usize) -> (r: Vec<u8>)
    ensures
        r@.len() == frame_size,
        match recycled {
            Some(b) => forall|i: int|
                0 <= i < frame_size ==> #[trigger] r@[i] == if i < b@.len() { b@[i] } else { 0u8 },
            None => forall|i: int| 0 <= i < frame_size ==> #[trigger] r@[i] == 0u8,
        },
{
    match recycled {
        Some(mut b) => {
            if b.len() != frame_size {
                b.resize(frame_size, 0u8);
            }
            b
        },
        None => vec![0u8; frame_size],
    }
}


/// Most decoded-frame buffers kept for reuse; further ones are freed.
pub const FRAME_POOL_CAPACITY: usize = 3;

/// Spent frame buffers waiting to be reused by the decoder, newest last.
pub struct FramePool {
    buffers: Vec<Vec<u8>>,
}

impl View for FramePool {
    type V = Seq<Seq<u8>>;

    closed spec fn view(&self) -> Seq<Seq<u8>> {
        Seq::new(self.buffers@.len(), |i: int| self.buffers@[i]@)
    }
}

impl FramePool {
    /// The pool never holds more than `FRAME_POOL_CAPACITY` buffers.
    pub closed spec fn wf(&self) -> bool {
        self.buffers@.len() <= FRAME_POOL_CAPACITY
    }

    /// Number of buffers waiting.
    pub fn len(&self) -> (n: usize)
        ensures
            n == self@.len(),
    {
        self.buffers.len()
    }

    /// Hands out a buffer of `frame_size` bytes: the most recently recycled
    /// one, cut or zero-extended to size, or a fresh zeroed one when the pool
    /// is empty.
    pub fn take_buffer(&mut self, frame_size: usize) -> (buf: Vec<u8>)
        requires
            old(self).wf(),
        ensures
            final(self).wf(),
            buf@.len() == frame_size,
            old(self)@.len() == 0 ==> final(self)@ == old(self)@
                && forall|i: int| 0 <= i < frame_size ==> #[trigger] buf@[i] == 0u8,
            old(self)@.len() > 0 ==> final(self)@ == old(self)@.drop_last()
                && forall|i: int| 0 <= i < frame_size ==> #[trigger] buf@[i] == if i
                    < old(self)@.last().len() {
                    old(self)@.last()[i]
                } else {
                    0u8
                },
    {
        let recycled = self.buffers.pop();
        let buf = prepare_frame_buffer(recycled, frame_size);
        proof {
            if old(self)@.len() > 0 {
                assert(self@ =~= old(self)@.drop_last());
            } else {
                assert(self@ =~= old(self)@);
            }
        }
        buf
    }

    /// Takes back a spent buffer; it is kept only while the pool has room,
    /// and dropped otherwise. Returns whether it was kept.
    pub fn recycle(&mut self, buf: Vec<u8>) -> (kept: bool)
        requires
            old(self).wf(),
        ensures
            final(self).wf(),
            kept == (old(self)@.len() < FRAME_POOL_CAPACITY),
            kept ==> final(self)@ == old(self)@.push(buf@),
            !kept ==> final(self)@ == old(self)@,
    {
        if self.buffers.len() < FRAME_POOL_CAPACITY {
            let ghost b = buf@;
            self.buffers.push(buf);
            proof {
                assert(self@ =~= old(self)@.push(b));
            }
            true
        } else {
            false
        }
    }
}

/// The empty pool of reusable frame buffers that a decoder starts with.
pub fn get_frame_pool() -> (pool: FramePool)
    ensures
        pool.wf(),
        pool@.len() == 0,
{
    FramePool { buffers: Vec::with_capacity(FRAME_POOL_CAPACITY) }
}

/// A buffer handed back to the pool is the next one handed out, and the pool
/// is then as it was before.
pub proof fn recycled_buffer_is_reused_first(before: FramePool, kept: FramePool, after: FramePool, buf: Seq<u8>, out: Seq<u8>, frame_size: usize)
    requires
        before.wf(),
        before@.len() < FRAME_POOL_CAPACITY,
        kept@ == before@.push(buf),
        after@ == kept@.drop_last(),
        out.len() == frame_size,
        forall|i: int| 0 <= i < frame_size ==> #[trigger] out[i] == if i < kept@.last().len() {
            kept@.last()[i]
        } else {
            0u8
        },
    ensures
        after@ == before@,
        forall|i: int| 0 <= i < frame_size && i < buf.len() ==> #[trigger] out[i] == buf[i],
{
    assert(kept@.last() == buf);
    assert(after@ =~= before@);
}

/// A stream's tagged colour space decides its matrix whatever its height:
/// standard-definition tags (BT.470BG, SMPTE 170M) convert with BT.601,
/// BT.709 with BT.709, and so on; only untagged or unknown streams are judged
/// by height, BT.709 from 720 lines up and BT.601 below.
pub proof fn tagged_streams_keep_their_matrix(height: u32)
    ensures
        spec_sws_colorspace(ColorSpace::Bt470bg, height) == SwsMatrix::Itu601,
        spec_sws_colorspace(ColorSpace::Smpte170m, height) == SwsMatrix::Itu601,
        spec_sws_colorspace(ColorSpace::Bt709, height) == SwsMatrix::Itu709,
        spec_sws_colorspace(ColorSpace::Fcc, height) == SwsMatrix::Fcc,
        spec_sws_colorspace(ColorSpace::Smpte240m, height) == SwsMatrix::Smpte240m,
        spec_sws_colorspace(ColorSpace::Bt2020Ncl, height) == SwsMatrix::Bt2020,
        spec_sws_colorspace(ColorSpace::Bt2020Cl, height) == SwsMatrix::Bt2020,
        spec_sws_colorspace(ColorSpace::Unspecified, height) == (if height >= 720 {
            SwsMatrix::Itu709
        } else {
            SwsMatrix::Itu601
        }),
        spec_sws_colorspace(ColorSpace::Rgb, height) == spec_sws_colorspace(
            ColorSpace::Unspecified,
            height,
        ),
        spec_sws_colorspace(ColorSpace::Other, height) == spec_sws_colorspace(
            ColorSpace::Unspecified,
            height,
        ),
{
}

proof fn lemma_ceil_div(a: int, d: int)
    requires
        a >= 0,
        d > 0,
    ensures
        ((a + d - 1) / d) * d >= a,
        ((a + d - 1) / d - 1) * d < a,
        (a + d - 1) / d >= 0,
{
    vstd::arithmetic::div_mod::lemma_fundamental_div_mod(a + d - 1, d);
    let c = (a + d - 1) / d;
    let r = (a + d - 1) % d;
    assert(c * d >= a && (c - 1) * d < a && c >= 0) by (nonlinear_arith)
        requires
            a + d - 1 == d * c + r,
            0 <= r < d,
            a >= 0,
            d > 0,
    ;
}

/// Scaling down keeps the aspect ratio: when the monitor is smaller than the
/// video on both sides, one side becomes exactly the monitor's, and the
/// other is the same scale rounded up, so `w / h` stays within one pixel of
/// `sw / sh` (`-sw < w * sh - h * sw < sh`); both sides stay within the source.
pub proof fn scaled_size_keeps_the_aspect_ratio(sw: u32, sh: u32, tw: u32, th: u32)
    requires
        0 < tw < sw,
        0 < th < sh,
    ensures
        ({
            let (w, h) = spec_scaled_video_size((sw, sh), Some((tw, th)));
            &&& w == tw || h == th
            &&& -(sw as int) < (w as int) * (sh as int) - (h as int) * (sw as int) < (sh as int)
            &&& 1 <= w <= sw
            &&& 1 <= h <= sh
        }),
{
    let (w, h) = spec_scaled_video_size((sw, sh), Some((tw, th)));
    let (swi, shi, twi, thi) = (sw as int, sh as int, tw as int, th as int);
    if twi * shi >= thi * swi {
        // The width's ratio is the larger: the width lands on the monitor's.
        lemma_ceil_div(swi * twi, swi);
        lemma_ceil_div(shi * twi, swi);
        let cw = (swi * twi + swi - 1) / swi;
        let ch = (shi * twi + swi - 1) / swi;
        assert(cw == twi) by (nonlinear_arith)
            requires
                cw * swi >= swi * twi,
                (cw - 1) * swi < swi * twi,
                swi > 0,
        ;
        assert(1 <= ch <= shi) by (nonlinear_arith)
            requires
                ch * swi >= shi * twi,
                (ch - 1) * swi < shi * twi,
                0 < twi < swi,
                shi > 0,
        ;
        assert(w == tw && h as int == ch);
        assert(-swi < twi * shi - ch * swi <= 0) by (nonlinear_arith)
            requires
                ch * swi >= shi * twi,
                (ch - 1) * swi < shi * twi,
        ;
    } else {
        // The height's ratio is the larger: the height lands on the monitor's.
        lemma_ceil_div(shi * thi, shi);
        lemma_ceil_div(swi * thi, shi);
        let ch = (shi * thi + shi - 1) / shi;
        let cw = (swi * thi + shi - 1) / shi;
        assert(ch == thi) by (nonlinear_arith)
            requires
                ch * shi >= shi * thi,
                (ch - 1) * shi < shi * thi,
                shi > 0,
        ;
        assert(1 <= cw <= swi) by (nonlinear_arith)
            requires
                cw * shi >= swi * thi,
                (cw - 1) * shi < swi * thi,
                0 < thi < shi,
                swi > 0,
        ;
        assert(h == th && w as int == cw);
        assert(0 <= cw * shi - thi * swi < shi) by (nonlinear_arith)
            requires
                cw * shi >= swi * thi,
                (cw - 1) * shi < swi * thi,
        ;
    }
}

} // verus!
