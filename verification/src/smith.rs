use vstd::prelude::*;

verus! {

/// One step of a delay line over `line` (oldest sample first): the oldest
/// sample drops out and `val` enters as the newest. A line of length 0
/// holds nothing and stays empty.
pub open spec fn delay_push(line: Seq<u64>, val: u64) -> Seq<u64> {
    if line.len() == 0 {
        line
    } else {
        line.drop_first().push(val)
    }
}

/// The delay line after pushing every sample of `samples`, first to last.
pub open spec fn delay_push_all(line: Seq<u64>, samples: Seq<u64>) -> Seq<u64>
    decreases samples.len(),
{
    if samples.len() == 0 {
        line
    } else {
        delay_push(delay_push_all(line, samples.drop_last()), samples.last())
    }
}

/// The sample a delay line hands out: its oldest one, or `0.0` (the
/// all-zero pattern) when the line is empty.
pub open spec fn oldest(line: Seq<u64>) -> u64 {
    if line.len() == 0 {
        0
    } else {
        line[0]
    }
}

/// `n` copies of `val`.
pub open spec fn repeated(val: u64, n: nat) -> Seq<u64> {
    Seq::new(n, |_i: int| val)
}

/// The ring buffer is a delay line: after any run of pushes, the line holds
/// the last `capacity` values of its earlier contents followed by everything
/// pushed. In particular, once at least `capacity` samples have been pushed,
/// the oldest entry is the sample pushed exactly `capacity` pushes ago.
pub proof fn lemma_delay_line(line: Seq<u64>, samples: Seq<u64>)
    requires
        line.len() > 0,
    ensures
        delay_push_all(line, samples) == (line + samples).subrange(
            samples.len() as int,
            (samples.len() + line.len()) as int,
        ),
        samples.len() >= line.len() ==> delay_push_all(line, samples)[0] == samples[samples.len()
            - line.len()],
    decreases samples.len(),
{
    if samples.len() == 0 {
        assert((line + samples).subrange(0, line.len() as int) =~= line);
    } else {
        let prefix = samples.drop_last();
        lemma_delay_line(line, prefix);
        let before = (line + prefix).subrange(prefix.len() as int, (prefix.len() + line.len()) as int);
        let after = (line + samples).subrange(samples.len() as int, (samples.len() + line.len()) as int);
        assert(before.drop_first().push(samples.last()) =~= after);
    }
}

/// What a delay line of `capacity` samples hands out after a run of pushes
/// is the sample pushed `capacity` pushes ago, once there has been one;
/// before that, it is the line's earlier sample that has not yet been pushed
/// out.
pub proof fn lemma_oldest_is_delayed_sample(line: Seq<u64>, samples: Seq<u64>)
    requires
        line.len() > 0,
    ensures
        samples.len() >= line.len() ==> oldest(delay_push_all(line, samples)) == samples[samples.len()
            - line.len()],
        samples.len() < line.len() ==> oldest(delay_push_all(line, samples)) == line[samples.len() as int],
        delay_push_all(line, samples).len() == line.len(),
{
    lemma_delay_line(line, samples);
}

/// A line re-seeded with `val` reads `val` as its oldest sample for as long
/// as fewer than `capacity` new samples have been pushed, so the delayed
/// prediction never falls back to a stale or zero sample after a reseed.
pub proof fn lemma_reseeded_line(val: u64, capacity: nat, samples: Seq<u64>)
    requires
        samples.len() < capacity,
    ensures
        delay_push_all(repeated(val, capacity), samples)[0] == val,
{
    lemma_delay_line(repeated(val, capacity), samples);
}

/// Fixed-size zero-allocation ring buffer for dead time delay.
/// `N` is the compile-time max capacity, chosen by the caller to fit the
/// delay steps it needs with headroom.
///
/// Samples are stored as the bit patterns of the `f64` values they stand
/// for (`f64::to_bits`); the all-zero pattern is `0.0`.
#[derive(Clone, Copy, Debug)]
pub struct RingBuffer<const N: usize> {
    data: [u64; N],
    head: usize,
    capacity: usize,
}

impl<const N: usize> View for RingBuffer<N> {
    /// The samples in the delay line, oldest first; its length is the
    /// buffer's capacity.
    type V = Seq<u64>;

    closed spec fn view(&self) -> Seq<u64> {
        Seq::new(
            self.capacity as nat,
            |i: int|
                if self.head + i < self.capacity {
                    self.data@[self.head + i]
                } else {
                    self.data@[self.head + i - self.capacity]
                },
        )
    }
}

impl<const N: usize> RingBuffer<N> {
    /// The buffer's internal bookkeeping is consistent.
    pub closed spec fn wf(&self) -> bool {
        &&& self.capacity <= N
        &&& self.data@.len() == N
        &&& (self.capacity == 0 ==> self.head == 0)
        &&& (self.capacity > 0 ==> self.head < self.capacity)
    }

    /// A buffer whose delay line is `capacity` samples long (at most `N`),
    /// all of them `0.0`.
    pub fn new(capacity: usize) -> (buf: Self)
        ensures
            buf.wf(),
            buf@ == repeated(0, if capacity > N { N as nat } else { capacity as nat }),
    {
        let cap = if capacity > N {
            N
        } else {
            capacity
        };
        let buf = Self { data: [0u64; N], head: 0, capacity: cap };
        assert(buf@ =~= repeated(0, cap as nat));
        buf
    }

    /// Get oldest value in queue (y_m = y_hat[k - d]); `0.0` when the
    /// line is empty.
    pub fn read_oldest(&self) -> (val: u64)
        requires
            self.wf(),
        ensures
            val == oldest(self@),
    {
        if self.capacity == 0 {
            0
        } else {
            self.data[self.head]
        }
    }

    /// Overwrite oldest entry with new sample and advance head.
    pub fn push(&mut self, val: u64)
        requires
            old(self).wf(),
        ensures
            final(self).wf(),
            final(self)@ == delay_push(old(self)@, val),
    {
        if self.capacity > 0 {
            let ghost before = self@;
            self.data[self.head] = val;
            proof {
                if self.head + 1 < self.capacity {
                    vstd::arithmetic::div_mod::lemma_small_mod(
                        (self.head + 1) as nat,
                        self.capacity as nat,
                    );
                } else {
                    vstd::arithmetic::div_mod::lemma_mod_self_0(self.capacity as int);
                }
            }
            self.head = (self.head + 1) % self.capacity;
            assert(self@ =~= before.drop_first().push(val));
        }
    }

    /// Zero the whole storage and reset the head.
    pub fn reset(&mut self)
        requires
            old(self).wf(),
        ensures
            final(self).wf(),
            final(self)@ == repeated(0, old(self)@.len()),
    {
        self.data = [0u64; N];
        self.head = 0;
        assert(self@ =~= repeated(0, self.capacity as nat));
    }

    /// Overwrite every in-use slot (0..capacity) with the same value and
    /// reset the head -- used to re-seed the delay line from a real
    /// measurement instead of zeroing it.
    pub fn fill(&mut self, val: u64)
        requires
            old(self).wf(),
        ensures
            final(self).wf(),
            final(self)@ == repeated(val, old(self)@.len()),
    {
        let cap = self.capacity;
        let mut i: usize = 0;
        while i < cap
            invariant
                cap == self.capacity,
                self.capacity <= N,
                self.data@.len() == N,
                (self.capacity == 0 ==> self.head == 0),
                (self.capacity > 0 ==> self.head < self.capacity),
                i <= cap,
                forall|j: int| 0 <= j < i ==> self.data@[j] == val,
            decreases cap - i,
        {
            self.data[i] = val;
            i = i + 1;
        }
        self.head = 0;
        assert(self@ =~= repeated(val, self.capacity as nat));
    }
}

} // verus!
