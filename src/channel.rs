//! One displayed channel: its padded buffer, its index table, and where on
//! screen it is drawn.
use vstd::prelude::*;

use crate::buffer::{padded_buffer, padded_mix};
use crate::stabilizer::{as_ints, index_table, leading_pad, stabilize, SEARCH_RADIUS};
use crate::wave::WaveResource;

verus! {

/// Number of samples shown per frame.
pub const WINDOW_SIZE: usize = 4096;

/// Video frames per second that the index tables are computed for.
pub const TARGET_FPS: u32 = 60;

/// Nanoseconds per second.
pub const NANOS_PER_SECOND: u64 = 1_000_000_000;

/// A horizontal band of the normalized screen `[-0.5, 0.5] x [-0.5, 0.5]`:
/// band `row` of `rows` equal bands, counted from the bottom, so that it
/// spans `y` from `row / rows - 0.5` to `(row + 1) / rows - 0.5`.
#[derive(Clone, Copy, Debug, PartialEq, Eq, Structural)]
pub struct Band {
    pub row: usize,
    pub rows: usize,
}

/// The frame shown `elapsed` nanoseconds into playback: `floor(fps * elapsed_seconds)`.
pub open spec fn frame_at_time(fps: nat, elapsed: nat) -> int {
    ((fps * elapsed) as int) / (NANOS_PER_SECOND as int)
}

/// The frame shown `elapsed` nanoseconds into playback, saturated to `usize`.
pub open spec fn shown_frame(fps: nat, elapsed: nat) -> int {
    if frame_at_time(fps, elapsed) <= usize::MAX {
        frame_at_time(fps, elapsed)
    } else {
        usize::MAX as int
    }
}

/// A channel to draw: its padded mono samples, its index table once
/// computed, and its place on screen.
pub struct ChannelData {
    data: Vec<i32>,
    index: usize,
    frame_indices: Vec<usize>,
    position: Band,
    buffer_size: usize,
    target_fps: u32,
    name: String,
}

impl ChannelData {
    /// The padded mono samples.
    pub closed spec fn samples(&self) -> Seq<i32> {
        self.data@
    }

    /// The index table; empty until it has been computed.
    pub closed spec fn frames(&self) -> Seq<usize> {
        self.frame_indices@
    }

    /// The channel's position in the list of channels.
    pub closed spec fn ordinal(&self) -> usize {
        self.index
    }

    /// The number of samples shown per frame.
    pub closed spec fn window_size(&self) -> usize {
        self.buffer_size
    }

    /// The frame rate that the index table is computed for.
    pub closed spec fn fps(&self) -> u32 {
        self.target_fps
    }

    /// The channel's name.
    pub closed spec fn label(&self) -> String {
        self.name
    }

    /// Where on screen the channel is drawn.
    pub closed spec fn band(&self) -> Band {
        self.position
    }

    /// The samples start with `2 * buffer_size` zeros, and every table entry
    /// is the right edge of a whole window.
    pub open spec fn wf(&self) -> bool {
        &&& leading_pad(self.samples(), self.window_size() as nat)
        &&& forall|k: int|
            0 <= k < self.frames().len() ==> self.window_size() <= #[trigger] self.frames()[k]
                <= self.samples().len()
    }

    /// The index table has been computed.
    pub open spec fn is_ready(&self) -> bool {
        self.frames().len() > 0
    }

    /// The entry of the index table used for `frame`: the last one past the end.
    pub open spec fn edge_for(&self, frame: int) -> int {
        let last = self.frames().len() - 1;
        if frame < last {
            self.frames()[frame] as int
        } else {
            self.frames()[last] as int
        }
    }

    /// A channel with the mid-mixed, zero-padded samples of `data` and no
    /// index table yet.
    pub fn new(
        data: &[(i32, i32)],
        index: usize,
        name: String,
        position: Band,
        buffer_size: usize,
        target_fps: u32,
    ) -> (r: Self)
        requires
            4 * buffer_size + data@.len() <= usize::MAX,
        ensures
            r.wf(),
            r.samples() == padded_mix(data@, buffer_size as nat),
            r.frames().len() == 0,
            r.ordinal() == index,
            r.label() == name,
            r.band() == position,
            r.window_size() == buffer_size,
            r.fps() == target_fps,
    {
        let buf = padded_buffer(data, buffer_size);
        proof {
            crate::buffer::lemma_padded_mix_layout(data@, buffer_size as nat);
        }
        ChannelData {
            data: buf,
            index,
            frame_indices: Vec::new(),
            position,
            buffer_size,
            target_fps,
            name,
        }
    }

    /// The channel's position in the list of channels.
    pub fn index(&self) -> (r: usize)
        ensures
            r == self.ordinal(),
    {
        self.index
    }

    /// The channel's name.
    pub fn name(&self) -> (r: &String)
        ensures
            *r == self.label(),
    {
        &self.name
    }

    /// Where on screen the channel is drawn.
    pub fn position(&self) -> (r: Band)
        ensures
            r == self.band(),
    {
        self.position
    }

    /// The number of samples shown per frame.
    pub fn buffer_size(&self) -> (r: usize)
        ensures
            r == self.window_size(),
    {
        self.buffer_size
    }

    /// The frame rate that the index table is computed for.
    pub fn target_fps(&self) -> (r: u32)
        ensures
            r == self.fps(),
    {
        self.target_fps
    }

    /// Computes the index table for audio at `sample_rate`.
    pub fn precompute_indices(&mut self, sample_rate: u32)
        requires
            old(self).wf(),
            sample_rate >= 1,
            old(self).fps() >= 1,
        ensures
            final(self).wf(),
            final(self).is_ready(),
            as_ints(final(self).frames()) == index_table(
                old(self).samples(),
                old(self).window_size() as nat,
                sample_rate as nat,
                old(self).fps() as nat,
                SEARCH_RADIUS as nat,
            ),
            final(self).samples() == old(self).samples(),
            final(self).ordinal() == old(self).ordinal(),
            final(self).label() == old(self).label(),
            final(self).band() == old(self).band(),
            final(self).window_size() == old(self).window_size(),
            final(self).fps() == old(self).fps(),
    {
        let table = stabilize(
            &self.data,
            self.buffer_size,
            sample_rate,
            self.target_fps,
            SEARCH_RADIUS,
        );
        proof {
            crate::stabilizer::lemma_table_within_buffer(
                self.data@,
                self.buffer_size as nat,
                sample_rate as nat,
                self.target_fps as nat,
                SEARCH_RADIUS as nat,
            );
            crate::stabilizer::lemma_table_ends_with_pad(
                self.data@,
                self.buffer_size as nat,
                sample_rate as nat,
                self.target_fps as nat,
                SEARCH_RADIUS as nat,
            );
            assert forall|k: int| 0 <= k < table@.len() implies self.buffer_size <= #[trigger] table@[k]
                <= self.data@.len() by {
                assert(as_ints(table@)[k] == table@[k] as int);
            }
        }
        self.frame_indices = table;
    }

    /// The window shown on `frame`: the `buffer_size` samples before the
    /// frame's table entry (the last entry past the end of the table).
    pub fn get_data(&self, frame: usize) -> (r: &[i32])
        requires
            self.wf(),
            self.is_ready(),
        ensures
            r@ == self.samples().subrange(
                self.edge_for(frame as int) - self.window_size(),
                self.edge_for(frame as int),
            ),
    {
        let last = self.frame_indices.len() - 1;
        let frame = if frame < last {
            frame
        } else {
            last
        };
        let i = self.frame_indices[frame];
        vstd::slice::slice_subrange(self.data.as_slice(), i - self.buffer_size, i)
    }

    /// The frame shown `elapsed` nanoseconds into playback, saturated to `usize`.
    pub fn frame_at(&self, elapsed: u64) -> (r: usize)
        ensures
            r as int == shown_frame(self.fps() as nat, elapsed as nat),
    {
        proof {
            assert((self.target_fps as int) * (elapsed as int) <= 0xffff_ffff * 0xffff_ffff_ffff_ffff)
                by (nonlinear_arith)
                requires
                    self.target_fps <= 0xffff_ffff,
                    elapsed <= 0xffff_ffff_ffff_ffff,
            ;
        }
        let k: u128 = (self.target_fps as u128) * (elapsed as u128) / (NANOS_PER_SECOND as u128);
        if k > usize::MAX as u128 {
            usize::MAX
        } else {
            k as usize
        }
    }

    /// The window to draw `elapsed` nanoseconds into playback.
    pub fn window_at(&self, elapsed: u64) -> (r: &[i32])
        requires
            self.wf(),
            self.is_ready(),
        ensures
            r@ == self.samples().subrange(
                self.edge_for(shown_frame(self.fps() as nat, elapsed as nat)) - self.window_size(),
                self.edge_for(shown_frame(self.fps() as nat, elapsed as nat)),
            ),
    {
        let frame = self.frame_at(elapsed);
        self.get_data(frame)
    }
}

/// The band of channel `i` among `count` channels: the channels fill the
/// screen from the top down and the master takes the bottom band.
pub open spec fn channel_band(i: int, count: int) -> Band {
    Band { row: (count - i) as usize, rows: (count + 1) as usize }
}

/// The channels to draw for `wave`: one per channel, in order, then the
/// master, named "Master", at the bottom; none has its index table yet.
pub fn build_channels(wave: &WaveResource, buffer_size: usize, target_fps: u32) -> (r: Vec<
    ChannelData,
>)
    requires
        wave.channel_names@.len() >= wave.channels@.len(),
        wave.channels@.len() < usize::MAX,
        4 * buffer_size + wave.master@.len() <= usize::MAX,
        forall|i: int|
            0 <= i < wave.channels@.len() ==> 4 * buffer_size + (#[trigger] wave.channels@[i])@.len()
                <= usize::MAX,
    ensures
        r@.len() == wave.channels@.len() + 1,
        forall|i: int|
            0 <= i < r@.len() ==> {
                &&& (#[trigger] r@[i]).wf()
                &&& r@[i].frames().len() == 0
                &&& r@[i].ordinal() == i
                &&& r@[i].window_size() == buffer_size
                &&& r@[i].fps() == target_fps
            },
        forall|i: int|
            0 <= i < wave.channels@.len() ==> {
                &&& (#[trigger] r@[i]).samples() == padded_mix(
                    wave.channels@[i]@,
                    buffer_size as nat,
                )
                &&& r@[i].label() == wave.channel_names@[i]
                &&& r@[i].band() == channel_band(i, wave.channels@.len() as int)
            },
        r@[wave.channels@.len() as int].samples() == padded_mix(
            wave.master@,
            buffer_size as nat,
        ),
        r@[wave.channels@.len() as int].label()@ == "Master"@,
        r@[wave.channels@.len() as int].band() == channel_band(
            wave.channels@.len() as int,
            wave.channels@.len() as int,
        ),
{
    let count = wave.channels.len();
    let mut out: Vec<ChannelData> = Vec::new();
    let mut i: usize = 0;
    while i < count
        invariant
            i <= count,
            count == wave.channels@.len(),
            count < usize::MAX,
            wave.channel_names@.len() >= count,
            forall|j: int|
                0 <= j < count ==> 4 * buffer_size + (#[trigger] wave.channels@[j])@.len()
                    <= usize::MAX,
            out@.len() == i,
            forall|j: int|
                0 <= j < i ==> {
                    &&& (#[trigger] out@[j]).wf()
                    &&& out@[j].frames().len() == 0
                    &&& out@[j].ordinal() == j
                    &&& out@[j].window_size() == buffer_size
                    &&& out@[j].fps() == target_fps
                    &&& out@[j].samples() == padded_mix(wave.channels@[j]@, buffer_size as nat)
                    &&& out@[j].label() == wave.channel_names@[j]
                    &&& out@[j].band() == channel_band(j, count as int)
                },
        decreases count - i,
    {
        let band = Band { row: count - i, rows: count + 1 };
        let ch = ChannelData::new(
            wave.channels[i].as_slice(),
            i,
            wave.channel_names[i].clone(),
            band,
            buffer_size,
            target_fps,
        );
        out.push(ch);
        i += 1;
    }
    let master = ChannelData::new(
        wave.master.as_slice(),
        count,
        "Master".to_owned(),
        Band { row: 0, rows: count + 1 },
        buffer_size,
        target_fps,
    );
    out.push(master);
    out
}

} // verus!
