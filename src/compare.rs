use vstd::prelude::*;

verus! {

/// The frames of an interleaved stereo stream: item `i` is the pair of samples
/// at positions `2i` and `2i + 1`. A trailing unpaired sample belongs to no frame.
pub open spec fn frames<T>(s: Seq<T>) -> Seq<(T, T)> {
    Seq::new(s.len() / 2, |i: int| (s[2 * i], s[2 * i + 1]))
}

/// The left channel of an interleaved stereo stream: the samples at even positions.
pub open spec fn left_samples<T>(s: Seq<T>) -> Seq<T> {
    Seq::new((s.len() + 1) / 2, |i: int| s[2 * i])
}

/// Whether a left/right pair of integer samples lies outside the tolerance:
/// any difference at all when the threshold is zero, otherwise a difference
/// whose magnitude exceeds the threshold.
pub open spec fn pair_differs(left: int, right: int, threshold: nat) -> bool {
    if threshold == 0 {
        left != right
    } else {
        left - right > threshold || right - left > threshold
    }
}

/// Whether some frame of `s` has channels that differ beyond `threshold`.
pub open spec fn frames_differ(s: Seq<i32>, threshold: nat) -> bool {
    exists|i: int|
        0 <= i < frames(s).len() && #[trigger] pair_differs(
            frames(s)[i].0 as int,
            frames(s)[i].1 as int,
            threshold,
        )
}

/// Exact integer tolerance test on one left/right pair.
pub fn int_pair_differs(left: i32, right: i32, threshold: u32) -> (r: bool)
    ensures
        r == pair_differs(left as int, right as int, threshold as nat),
{
    let diff: i64 = left as i64 - right as i64;
    if threshold == 0 {
        diff != 0
    } else {
        diff > threshold as i64 || -diff > threshold as i64
    }
}

/// Groups a stream of interleaved samples into left/right frames, one sample at
/// a time.
pub struct FramePairer<T> {
    pending: Option<T>,
    seen: Ghost<Seq<T>>,
}

impl<T> FramePairer<T> {
    /// The samples handed in so far.
    pub closed spec fn samples(&self) -> Seq<T> {
        self.seen@
    }

    pub closed spec fn wf(&self) -> bool {
        &&& self.seen@.len() % 2 == 0 ==> self.pending is None
        &&& self.seen@.len() % 2 == 1 ==> self.pending == Some(self.seen@.last())
    }

    pub fn new() -> (r: Self)
        ensures
            r.wf(),
            r.samples() == Seq::<T>::empty(),
    {
        FramePairer { pending: None, seen: Ghost(Seq::empty()) }
    }

    /// Takes the next sample. Returns the frame it completes, if it is the right
    /// sample of one.
    pub fn push(&mut self, sample: T) -> (r: Option<(T, T)>)
        requires
            old(self).wf(),
        ensures
            final(self).wf(),
            final(self).samples() == old(self).samples().push(sample),
            frames(final(self).samples()) == (match r {
                Some(f) => frames(old(self).samples()).push(f),
                None => frames(old(self).samples()),
            }),
            r is Some <==> old(self).samples().len() % 2 == 1,
            r is Some ==> r->0 == (old(self).samples().last(), sample),
    {
        let ghost s0 = self.seen@;
        let ghost s1 = s0.push(sample);
        self.seen = Ghost(s1);
        let r = match self.pending.take() {
            Some(left) => Some((left, sample)),
            None => {
                self.pending = Some(sample);
                None
            },
        };
        proof {
            if r is Some {
                assert(frames(s1) =~= frames(s0).push(r->0));
            } else {
                assert(frames(s1) =~= frames(s0));
            }
        }
        r
    }
}

/// Streaming channel comparator for integer samples: takes the interleaved
/// samples one at a time and keeps the verdict for the frames seen so far.
pub struct ChannelComparator {
    threshold: u32,
    pairer: FramePairer<i32>,
    pairs: u64,
    differs: bool,
}

impl ChannelComparator {
    /// The samples handed in so far.
    pub closed spec fn samples(&self) -> Seq<i32> {
        self.pairer.samples()
    }

    pub closed spec fn threshold_spec(&self) -> nat {
        self.threshold as nat
    }

    pub closed spec fn wf(&self) -> bool {
        &&& self.pairer.wf()
        &&& self.pairs as nat == frames(self.pairer.samples()).len()
        &&& self.differs == frames_differ(self.pairer.samples(), self.threshold as nat)
    }

    pub fn new(threshold: u32) -> (r: Self)
        ensures
            r.wf(),
            r.samples() == Seq::<i32>::empty(),
            r.threshold_spec() == threshold as nat,
    {
        ChannelComparator { threshold, pairer: FramePairer::new(), pairs: 0, differs: false }
    }

    /// Takes the next sample and returns the verdict so far: whether some
    /// complete frame has channels that differ beyond the threshold.
    pub fn push(&mut self, sample: i32) -> (r: bool)
        requires
            old(self).wf(),
            frames(old(self).samples()).len() < u64::MAX,
        ensures
            final(self).wf(),
            final(self).samples() == old(self).samples().push(sample),
            final(self).threshold_spec() == old(self).threshold_spec(),
            r == frames_differ(final(self).samples(), final(self).threshold_spec()),
    {
        let ghost s0 = self.pairer.samples();
        let ghost t = self.threshold as nat;
        let frame = self.pairer.push(sample);
        let ghost s1 = self.pairer.samples();
        match frame {
            Some((left, right)) => {
                self.pairs = self.pairs + 1;
                let d = int_pair_differs(left, right, self.threshold);
                proof {
                    let n = frames(s0).len() as int;
                    assert(frames(s1)[n] == (left, right));
                    if d {
                        assert(pair_differs(frames(s1)[n].0 as int, frames(s1)[n].1 as int, t));
                    }
                    if frames_differ(s0, t) {
                        let i = choose|i: int|
                            0 <= i < frames(s0).len() && #[trigger] pair_differs(
                                frames(s0)[i].0 as int,
                                frames(s0)[i].1 as int,
                                t,
                            );
                        assert(frames(s1)[i] == frames(s0)[i]);
                    }
                    if frames_differ(s1, t) {
                        let i = choose|i: int|
                            0 <= i < frames(s1).len() && #[trigger] pair_differs(
                                frames(s1)[i].0 as int,
                                frames(s1)[i].1 as int,
                                t,
                            );
                        if i < n {
                            assert(frames(s1)[i] == frames(s0)[i]);
                        }
                    }
                }
                self.differs = self.differs || d;
            },
            None => {},
        }
        self.differs
    }

    /// The verdict so far.
    pub fn differs(&self) -> (r: bool)
        requires
            self.wf(),
        ensures
            r == frames_differ(self.samples(), self.threshold_spec()),
    {
        self.differs
    }

    /// The number of complete frames taken so far.
    pub fn pairs_processed(&self) -> (r: u64)
        requires
            self.wf(),
        ensures
            r as nat == frames(self.samples()).len(),
    {
        self.pairs
    }
}

/// The frames of a prefix of a stream are a prefix of its frames.
proof fn lemma_frames_of_prefix<T>(s: Seq<T>, k: int)
    requires
        0 <= k <= s.len(),
    ensures
        frames(s.subrange(0, k)).len() <= frames(s).len(),
        forall|i: int|
            0 <= i < frames(s.subrange(0, k)).len() ==> #[trigger] frames(s.subrange(0, k))[i]
                == frames(s)[i],
{
}

/// Whether the channels of an interleaved stereo stream differ beyond the
/// threshold in some frame. The scan stops at the first such frame.
pub fn channels_differ(samples: &[i32], threshold: u32) -> (r: bool)
    ensures
        r == frames_differ(samples@, threshold as nat),
{
    let mut cmp = ChannelComparator::new(threshold);
    let mut i: usize = 0;
    let mut found = false;
    while i < samples.len()
        invariant_except_break
            !found,
            !frames_differ(cmp.samples(), threshold as nat),
        invariant
            0 <= i <= samples.len(),
            cmp.wf(),
            cmp.threshold_spec() == threshold as nat,
            cmp.samples() == samples@.subrange(0, i as int),
        ensures
            found ==> frames_differ(cmp.samples(), threshold as nat),
            !found ==> i == samples.len() && !frames_differ(cmp.samples(), threshold as nat),
        decreases samples.len() - i,
    {
        proof {
            lemma_frames_of_prefix(samples@, i as int);
        }
        let d = cmp.push(samples[i]);
        i = i + 1;
        assert(cmp.samples() =~= samples@.subrange(0, i as int));
        if d {
            found = true;
            break;
        }
    }
    let ghost t = threshold as nat;
    proof {
        lemma_frames_of_prefix(samples@, i as int);
        let p = samples@.subrange(0, i as int);
        if found {
            let j = choose|j: int|
                0 <= j < frames(p).len() && #[trigger] pair_differs(
                    frames(p)[j].0 as int,
                    frames(p)[j].1 as int,
                    t,
                );
            assert(frames(p)[j] == frames(samples@)[j]);
        } else {
            assert(p =~= samples@);
        }
    }
    found
}

/// Picks the left channel out of a stream of interleaved samples, one sample at
/// a time: the samples at even positions pass, the others are dropped.
pub struct LeftChannel<T> {
    at_left: bool,
    seen: Ghost<Seq<T>>,
}

impl<T> LeftChannel<T> {
    /// The samples handed in so far.
    pub closed spec fn samples(&self) -> Seq<T> {
        self.seen@
    }

    pub closed spec fn wf(&self) -> bool {
        self.at_left == (self.seen@.len() % 2 == 0)
    }

    pub fn new() -> (r: Self)
        ensures
            r.wf(),
            r.samples() == Seq::<T>::empty(),
    {
        LeftChannel { at_left: true, seen: Ghost(Seq::empty()) }
    }

    /// Takes the next sample and returns it if it belongs to the left channel.
    pub fn push(&mut self, sample: T) -> (r: Option<T>)
        requires
            old(self).wf(),
        ensures
            final(self).wf(),
            final(self).samples() == old(self).samples().push(sample),
            left_samples(final(self).samples()) == (match r {
                Some(x) => left_samples(old(self).samples()).push(x),
                None => left_samples(old(self).samples()),
            }),
            r is Some <==> old(self).samples().len() % 2 == 0,
            r is Some ==> r->0 == sample,
    {
        let ghost s0 = self.seen@;
        let ghost s1 = s0.push(sample);
        self.seen = Ghost(s1);
        if self.at_left {
            self.at_left = false;
            assert(left_samples(s1) =~= left_samples(s0).push(sample));
            Some(sample)
        } else {
            self.at_left = true;
            assert(left_samples(s1) =~= left_samples(s0));
            None
        }
    }
}

/// The left channel of an interleaved stereo stream: the samples at positions
/// 0, 2, 4, ... in their order and unchanged.
pub fn left_channel<T: Copy>(samples: &[T]) -> (r: Vec<T>)
    ensures
        r@ == left_samples(samples@),
{
    let mut sel: LeftChannel<T> = LeftChannel::new();
    let mut out: Vec<T> = Vec::new();
    let mut i: usize = 0;
    while i < samples.len()
        invariant
            0 <= i <= samples.len(),
            sel.wf(),
            sel.samples() == samples@.subrange(0, i as int),
            out@ == left_samples(sel.samples()),
        decreases samples.len() - i,
    {
        let x = samples[i];
        match sel.push(x) {
            Some(v) => out.push(v),
            None => {},
        }
        i = i + 1;
        assert(sel.samples() =~= samples@.subrange(0, i as int));
    }
    assert(samples@.subrange(0, i as int) =~= samples@);
    out
}

/// A stream whose two channels are equal in every frame is faux stereo,
/// whatever the threshold.
pub proof fn lemma_equal_channels_are_faux(s: Seq<i32>, threshold: nat)
    requires
        forall|i: int| 0 <= i < frames(s).len() ==> #[trigger] frames(s)[i].0 == frames(s)[i].1,
    ensures
        !frames_differ(s, threshold),
{
    assert forall|i: int| 0 <= i < frames(s).len() implies !#[trigger] pair_differs(
        frames(s)[i].0 as int,
        frames(s)[i].1 as int,
        threshold,
    ) by {
        assert(frames(s)[i].0 == frames(s)[i].1);
    }
}

/// A stream with one frame whose channels differ by more than the threshold is
/// real stereo; with a zero threshold any difference at all is enough.
pub proof fn lemma_exceeding_frame_differs(s: Seq<i32>, threshold: nat, i: int)
    requires
        0 <= i < frames(s).len(),
        threshold == 0 ==> frames(s)[i].0 != frames(s)[i].1,
        threshold > 0 ==> {
            ||| frames(s)[i].0 - frames(s)[i].1 > threshold
            ||| frames(s)[i].1 - frames(s)[i].0 > threshold
        },
    ensures
        frames_differ(s, threshold),
{
    assert(pair_differs(frames(s)[i].0 as int, frames(s)[i].1 as int, threshold));
}

/// With a zero threshold a stream is real stereo exactly when some frame has
/// two different samples.
pub proof fn lemma_exact_comparison(s: Seq<i32>)
    ensures
        frames_differ(s, 0) <==> exists|i: int|
            0 <= i < frames(s).len() && #[trigger] frames(s)[i].0 != frames(s)[i].1,
{
    if frames_differ(s, 0) {
        let i = choose|i: int|
            0 <= i < frames(s).len() && #[trigger] pair_differs(
                frames(s)[i].0 as int,
                frames(s)[i].1 as int,
                0,
            );
        assert(frames(s)[i].0 != frames(s)[i].1);
    }
    if exists|i: int| 0 <= i < frames(s).len() && #[trigger] frames(s)[i].0 != frames(s)[i].1 {
        let i = choose|i: int| 0 <= i < frames(s).len() && #[trigger] frames(s)[i].0 != frames(s)[i].1;
        assert(pair_differs(frames(s)[i].0 as int, frames(s)[i].1 as int, 0));
    }
}

/// The left channel taken from a stream is, sample for sample, the left half of
/// each of its frames, followed by a trailing unpaired sample if there is one.
pub proof fn lemma_left_channel_of_frames<T>(s: Seq<T>)
    ensures
        forall|i: int| 0 <= i < frames(s).len() ==> #[trigger] left_samples(s)[i] == frames(s)[i].0,
        left_samples(s).len() == frames(s).len() + s.len() % 2,
{
}

} // verus!
