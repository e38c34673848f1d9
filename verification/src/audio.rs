//! The ring buffer that the input stream fills and the pitch detector reads.
use vstd::prelude::*;

verus! {

/// Number of samples the ring buffer holds.
pub const BUFFER_SIZE: usize = 8192;

/// Mono audio history: the last `BUFFER_SIZE` samples received, stored
/// circularly. `write_pos` is where the next sample goes, so the oldest
/// sample sits there and the newest just before it.
pub struct AudioBuffer<T> {
    pub samples: Vec<T>,
    pub write_pos: usize,
    pub sample_rate: u32,
}

/// `frames` appended to `history`, keeping the length: the oldest fall out.
pub open spec fn after_pushing<T>(history: Seq<T>, frames: Seq<T>) -> Seq<T> {
    (history + frames).subrange(frames.len() as int, (history.len() + frames.len()) as int)
}

/// The last `min(n, history.len())` items of `history`, oldest first.
pub open spec fn most_recent<T>(history: Seq<T>, n: nat) -> Seq<T> {
    let m = if n <= history.len() {
        n
    } else {
        history.len()
    };
    history.subrange(history.len() - m, history.len() as int)
}

/// Number of frames in `len` interleaved samples of `channels` channels (the
/// last frame may be incomplete).
pub open spec fn frame_count(len: nat, channels: nat) -> nat
    recommends
        channels > 0,
{
    ((len + channels - 1) / (channels as int)) as nat
}

/// The first channel of interleaved audio: the first sample of each frame.
pub open spec fn first_channel<T>(data: Seq<T>, channels: nat) -> Seq<T>
    recommends
        channels > 0,
{
    Seq::new(frame_count(data.len(), channels), |k: int| data[k * channels])
}

impl<T: Copy> AudioBuffer<T> {
    /// The buffer's shape: `BUFFER_SIZE` slots and a write position among them.
    pub open spec fn wf(&self) -> bool {
        &&& self.samples@.len() == BUFFER_SIZE
        &&& self.write_pos < BUFFER_SIZE
    }

    /// The stored samples in the order they arrived, oldest first.
    pub open spec fn history(&self) -> Seq<T> {
        self.samples@.subrange(self.write_pos as int, BUFFER_SIZE as int) + self.samples@.subrange(
            0,
            self.write_pos as int,
        )
    }

    /// A buffer full of `silence` (for audio samples, 0.0).
    pub fn new(sample_rate: u32, silence: T) -> (b: Self)
        ensures
            b.wf(),
            b.write_pos == 0,
            b.sample_rate == sample_rate,
            b.history() == Seq::new(BUFFER_SIZE as nat, |i: int| silence),
    {
        let mut samples: Vec<T> = Vec::new();
        for i in 0..BUFFER_SIZE
            invariant
                samples@.len() == i,
                forall|j: int| 0 <= j < i ==> samples@[j] == silence,
        {
            samples.push(silence);
        }
        let b = AudioBuffer { samples, write_pos: 0, sample_rate };
        proof {
            assert(b.history() =~= Seq::new(BUFFER_SIZE as nat, |i: int| silence));
        }
        b
    }

    /// Slot `(write_pos + j) % BUFFER_SIZE` holds the `j`-th oldest sample.
    pub proof fn lemma_history_index(&self, j: int)
        requires
            self.wf(),
            0 <= j < BUFFER_SIZE,
        ensures
            self.history()[j] == self.samples@[(self.write_pos + j) % (BUFFER_SIZE as int)],
    {
        if self.write_pos + j < BUFFER_SIZE {
            assert((self.write_pos + j) % (BUFFER_SIZE as int) == self.write_pos + j);
        } else {
            assert((self.write_pos + j) % (BUFFER_SIZE as int) == self.write_pos + j - BUFFER_SIZE);
        }
    }

    /// Stores one sample over the oldest one.
    pub fn push_sample(&mut self, sample: T)
        requires
            old(self).wf(),
        ensures
            final(self).wf(),
            final(self).history() == old(self).history().drop_first().push(sample),
            final(self).sample_rate == old(self).sample_rate,
            final(self).write_pos == (old(self).write_pos + 1) % (BUFFER_SIZE as int),
            final(self).samples@ == old(self).samples@.update(old(self).write_pos as int, sample),
    {
        let ghost before = self.history();
        let pos = self.write_pos;
        self.samples.set(pos, sample);
        self.write_pos = (pos + 1) % BUFFER_SIZE;
        proof {
            assert(self.history() =~= before.drop_first().push(sample));
        }
    }

    /// Appends the first channel of interleaved audio `data`.
    pub fn push_samples(&mut self, data: &[T], channels: usize)
        requires
            old(self).wf(),
            channels > 0,
        ensures
            final(self).wf(),
            final(self).history() == after_pushing(
                old(self).history(),
                first_channel(data@, channels as nat),
            ),
            final(self).sample_rate == old(self).sample_rate,
            final(self).write_pos == (old(self).write_pos + frame_count(data@.len(), channels as nat))
                % (BUFFER_SIZE as int),
    {
        let ghost start = self.history();
        let ghost frames = first_channel(data@, channels as nat);
        let len = data.len();
        let mut i: usize = 0;
        let ghost mut k: nat = 0;
        proof {
            lemma_frame_index(data@.len(), channels as nat, 0);
        }
        while i < len
            invariant
                self.wf(),
                self.sample_rate == old(self).sample_rate,
                len == data@.len(),
                channels > 0,
                i <= len,
                i < len ==> i == k * channels && k < frames.len(),
                i == len ==> k == frames.len(),
                frames == first_channel(data@, channels as nat),
                start == old(self).history(),
                self.history() == after_pushing(start, frames.subrange(0, k as int)),
                self.write_pos == (old(self).write_pos + k) % (BUFFER_SIZE as int),
            decreases len - i,
        {
            let sample = data[i];
            let ghost done = frames.subrange(0, k as int);
            self.push_sample(sample);
            proof {
                vstd::arithmetic::div_mod::lemma_add_mod_noop(
                    old(self).write_pos + k,
                    1,
                    BUFFER_SIZE as int,
                );
                vstd::arithmetic::div_mod::lemma_mod_twice(old(self).write_pos + k, BUFFER_SIZE as int);
                assert(frames.subrange(0, (k + 1) as int) =~= done.push(sample));
                assert(after_pushing(start, done).drop_first().push(sample) =~= after_pushing(
                    start,
                    done.push(sample),
                ));
                k = k + 1;
                assert(k * channels == (k - 1) * channels + channels) by (nonlinear_arith);
            }
            if len - i <= channels {
                i = len;
                proof {
                    lemma_last_frame(data@.len(), channels as nat, k);
                }
            } else {
                i = i + channels;
                proof {
                    lemma_frame_index(data@.len(), channels as nat, k);
                }
            }
        }
        proof {
            assert(frames.subrange(0, k as int) =~= frames);
        }
    }

    /// The most recent `n` samples in order, oldest first (all of them when
    /// `n` exceeds the buffer).
    pub fn latest(&self, n: usize) -> (out: Vec<T>)
        requires
            self.wf(),
        ensures
            out@ == most_recent(self.history(), n as nat),
    {
        let n = if n < BUFFER_SIZE {
            n
        } else {
            BUFFER_SIZE
        };
        let mut out: Vec<T> = Vec::new();
        let start = (self.write_pos + BUFFER_SIZE - n) % BUFFER_SIZE;
        for i in 0..n
            invariant
                self.wf(),
                n <= BUFFER_SIZE,
                start == (self.write_pos + BUFFER_SIZE - n) % (BUFFER_SIZE as int),
                out@.len() == i,
                forall|j: int| 0 <= j < i ==> out@[j] == self.history()[BUFFER_SIZE - n + j],
        {
            proof {
                self.lemma_history_index(BUFFER_SIZE - n + i);
                assert((start + i) % (BUFFER_SIZE as int) == (self.write_pos + (BUFFER_SIZE - n + i))
                    % (BUFFER_SIZE as int));
            }
            out.push(self.samples[(start + i) % BUFFER_SIZE]);
        }
        proof {
            assert(out@ =~= most_recent(self.history(), n as nat));
        }
        out
    }
}

proof fn lemma_frame_index(len: nat, channels: nat, k: nat)
    requires
        channels > 0,
    ensures
        k < frame_count(len, channels) <==> k * channels < len,
{
    assert(k < frame_count(len, channels) <==> k * channels < len) by (nonlinear_arith)
        requires
            channels > 0,
            frame_count(len, channels) == (len + channels - 1) / (channels as int),
    ;
}

proof fn lemma_last_frame(len: nat, channels: nat, k: nat)
    requires
        channels > 0,
        k >= 1,
        (k - 1) * channels < len,
        len - (k - 1) * channels <= channels,
    ensures
        k == frame_count(len, channels),
{
    assert(k == frame_count(len, channels)) by (nonlinear_arith)
        requires
            channels > 0,
            k >= 1,
            (k - 1) * channels < len,
            len - (k - 1) * channels <= channels,
            frame_count(len, channels) == (len + channels - 1) / (channels as int),
    ;
}

/// What a read gives back of a write: once `frames` have been appended to a
/// full history (and no more than the buffer holds), the most recent
/// `frames.len()` samples are exactly `frames`, in order.
pub proof fn law_latest_reads_back_pushed<T>(history: Seq<T>, frames: Seq<T>)
    requires
        history.len() == BUFFER_SIZE,
        frames.len() <= BUFFER_SIZE,
    ensures
        most_recent(after_pushing(history, frames), frames.len()) == frames,
        after_pushing(history, frames).len() == BUFFER_SIZE,
{
    assert(most_recent(after_pushing(history, frames), frames.len()) =~= frames);
}

/// Appending in two steps gives the same history as appending everything at
/// once.
pub proof fn law_push_in_two_steps<T>(history: Seq<T>, first: Seq<T>, second: Seq<T>)
    ensures
        after_pushing(after_pushing(history, first), second) == after_pushing(history, first + second),
{
    assert(after_pushing(after_pushing(history, first), second) =~= after_pushing(
        history,
        first + second,
    ));
}

/// Mono input is taken as it is.
pub proof fn law_mono_takes_every_sample<T>(data: Seq<T>)
    ensures
        first_channel(data, 1) == data,
{
    assert(first_channel(data, 1) =~= data);
}

} // verus!
