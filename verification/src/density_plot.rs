//! Rolling history of recorded densities: a fixed-capacity ring buffer of
//! fixed-point samples, and the popup state that tracks the running range
//! of everything it has seen. Drawing the plot is left to the rendering
//! layer, which reads the samples in order through `iter_in_order`.

use vstd::prelude::*;

verus! {

/// A fixed-capacity ring buffer of density samples in thousandths. Once
/// full, each new sample overwrites the oldest one.
pub struct TimeSeriesRingBuffer {
    buffer: Vec<i64>,
    capacity: usize,
    head: usize,
    len: usize,
}

impl TimeSeriesRingBuffer {
    /// The fixed capacity, as a specification value.
    pub closed spec fn spec_capacity(self) -> usize {
        self.capacity
    }

    /// The number of stored samples, as a specification value.
    pub closed spec fn spec_len(self) -> usize {
        self.len
    }

    /// The backing storage, as a specification value.
    pub closed spec fn spec_buffer(self) -> Seq<i64> {
        self.buffer@
    }

    /// The write cursor, as a specification value.
    pub closed spec fn spec_head(self) -> usize {
        self.head
    }

    /// The storage slot of the oldest sample.
    pub open spec fn spec_start(self) -> int {
        if self.spec_head() >= self.spec_len() {
            self.spec_head() - self.spec_len()
        } else {
            self.spec_head() + self.spec_capacity() - self.spec_len()
        }
    }

    /// The stored samples, oldest first.
    pub open spec fn spec_samples(self) -> Seq<i64> {
        Seq::new(
            self.spec_len() as nat,
            |i: int|
                self.spec_buffer()[if self.spec_start() + i < self.spec_capacity() {
                    self.spec_start() + i
                } else {
                    self.spec_start() + i - self.spec_capacity()
                }],
        )
    }

    /// Well-formedness: fully allocated storage, a cursor inside it, and
    /// at most `capacity` samples.
    pub open spec fn wf(self) -> bool {
        &&& self.spec_capacity() <= 1_000_000_000
        &&& self.spec_buffer().len() == self.spec_capacity()
        &&& self.spec_len() <= self.spec_capacity()
        &&& self.spec_capacity() > 0 ==> self.spec_head() < self.spec_capacity()
        &&& self.spec_capacity() == 0 ==> self.spec_head() == 0
    }

    /// An empty buffer of the given capacity.
    pub fn with_capacity(capacity: usize) -> (r: TimeSeriesRingBuffer)
        requires
            capacity <= 1_000_000_000,
        ensures
            r.wf(),
            r.spec_capacity() == capacity,
            r.spec_samples() == Seq::<i64>::empty(),
    {
        let mut buffer: Vec<i64> = Vec::new();
        let mut i: usize = 0;
        while i < capacity
            invariant
                i <= capacity,
                buffer@.len() == i,
            decreases capacity - i,
        {
            buffer.push(0);
            i = i + 1;
        }
        let r = TimeSeriesRingBuffer { buffer, capacity, head: 0, len: 0 };
        proof {
            assert(r.spec_samples() =~= Seq::<i64>::empty());
        }
        r
    }

    /// Appends a sample, overwriting the oldest one when full; a buffer of
    /// capacity 0 stays empty.
    pub fn push(&mut self, value: i64)
        requires
            old(self).wf(),
        ensures
            final(self).wf(),
            final(self).spec_capacity() == old(self).spec_capacity(),
            old(self).spec_capacity() == 0 ==> final(self).spec_samples() == old(
                self,
            ).spec_samples(),
            old(self).spec_capacity() > 0 && old(self).spec_len() < old(self).spec_capacity()
                ==> final(self).spec_samples() == old(self).spec_samples().push(value),
            old(self).spec_capacity() > 0 && old(self).spec_len() == old(self).spec_capacity()
                ==> final(self).spec_samples() == old(self).spec_samples().subrange(
                1,
                old(self).spec_len() as int,
            ).push(value),
    {
        if self.capacity == 0 {
            return ;
        }
        let h = self.head;
        self.buffer[h] = value;
        if self.head + 1 == self.capacity {
            self.head = 0;
        } else {
            self.head = self.head + 1;
        }
        if self.len < self.capacity {
            self.len = self.len + 1;
            assert(self.spec_samples() =~= old(self).spec_samples().push(value));
        } else {
            assert(self.spec_samples() =~= old(self).spec_samples().subrange(
                1,
                old(self).spec_len() as int,
            ).push(value));
        }
    }

    /// The number of stored samples.
    pub fn len(&self) -> (r: usize)
        ensures
            r == self.spec_len(),
    {
        self.len
    }

    /// The fixed capacity.
    pub fn capacity(&self) -> (r: usize)
        ensures
            r == self.spec_capacity(),
    {
        self.capacity
    }

    /// Copies the stored samples out, oldest first.
    pub fn iter_in_order(&self) -> (r: Vec<i64>)
        requires
            self.wf(),
        ensures
            r@ == self.spec_samples(),
    {
        let mut out: Vec<i64> = Vec::new();
        let start = if self.head >= self.len {
            self.head - self.len
        } else {
            self.head + self.capacity - self.len
        };
        let mut i: usize = 0;
        while i < self.len
            invariant
                self.wf(),
                i <= self.spec_len(),
                start == self.spec_start(),
                out@.len() == i,
                forall|k: int| 0 <= k < i ==> out@[k] == self.spec_samples()[k],
            decreases self.len - i,
        {
            let idx = if start + i < self.capacity {
                start + i
            } else {
                start + i - self.capacity
            };
            out.push(self.buffer[idx]);
            i = i + 1;
        }
        proof {
            assert(out@ =~= self.spec_samples());
        }
        out
    }
}

/// The density-history popup: a rolling series of samples plus the open
/// flag and the extreme densities seen so far, all that the rendering
/// layer needs to scale and draw the plot.
pub struct DensityPopup {
    series: TimeSeriesRingBuffer,
    is_open: bool,
    y_min_seen: i64,
    y_max_seen: i64,
}

impl DensityPopup {
    /// The recorded samples, oldest first.
    pub open spec fn spec_samples(self) -> Seq<i64> {
        self.spec_series().spec_samples()
    }

    /// The rolling series, as a specification value.
    pub closed spec fn spec_series(self) -> TimeSeriesRingBuffer {
        self.series
    }

    /// Whether the popup is shown, as a specification value.
    pub closed spec fn spec_is_open(self) -> bool {
        self.is_open
    }

    /// The smallest density recorded so far, as a specification value.
    pub closed spec fn spec_y_min_seen(self) -> i64 {
        self.y_min_seen
    }

    /// The largest density recorded so far, as a specification value.
    pub closed spec fn spec_y_max_seen(self) -> i64 {
        self.y_max_seen
    }

    pub open spec fn wf(self) -> bool {
        self.spec_series().wf()
    }

    /// A closed popup with an empty history of the given capacity. The
    /// extremes start out inverted (minimum 1000, maximum 0) so that the
    /// first recorded sample defines both.
    pub fn new(capacity: usize) -> (r: DensityPopup)
        requires
            capacity <= 1_000_000_000,
        ensures
            r.wf(),
            r.spec_series().spec_capacity() == capacity,
            r.spec_samples() == Seq::<i64>::empty(),
            !r.spec_is_open(),
            r.spec_y_min_seen() == 1000,
            r.spec_y_max_seen() == 0,
    {
        DensityPopup {
            series: TimeSeriesRingBuffer::with_capacity(capacity),
            is_open: false,
            y_min_seen: 1000,
            y_max_seen: 0,
        }
    }

    /// Shows the popup if hidden and hides it if shown.
    pub fn toggle(&mut self)
        ensures
            final(self).spec_is_open() == !old(self).spec_is_open(),
            final(self).spec_series() == old(self).spec_series(),
            final(self).spec_y_min_seen() == old(self).spec_y_min_seen(),
            final(self).spec_y_max_seen() == old(self).spec_y_max_seen(),
    {
        self.is_open = !self.is_open;
    }

    /// Appends a density sample (in thousandths) to the history and
    /// widens the recorded extremes to cover it.
    pub fn record_density(&mut self, density_millis: i64)
        requires
            old(self).wf(),
        ensures
            final(self).wf(),
            final(self).spec_series().spec_capacity() == old(self).spec_series().spec_capacity(),
            final(self).spec_is_open() == old(self).spec_is_open(),
            old(self).spec_series().spec_capacity() == 0 ==> final(self).spec_samples() == old(
                self,
            ).spec_samples(),
            old(self).spec_series().spec_capacity() > 0 && old(self).spec_samples().len() < old(
                self,
            ).spec_series().spec_capacity() ==> final(self).spec_samples() == old(
                self,
            ).spec_samples().push(density_millis),
            old(self).spec_series().spec_capacity() > 0 && old(self).spec_samples().len() == old(
                self,
            ).spec_series().spec_capacity() ==> final(self).spec_samples() == old(
                self,
            ).spec_samples().subrange(1, old(self).spec_samples().len() as int).push(
                density_millis,
            ),
            final(self).spec_y_min_seen() == if density_millis < old(self).spec_y_min_seen() {
                density_millis
            } else {
                old(self).spec_y_min_seen()
            },
            final(self).spec_y_max_seen() == if density_millis > old(self).spec_y_max_seen() {
                density_millis
            } else {
                old(self).spec_y_max_seen()
            },
    {
        self.series.push(density_millis);
        if density_millis < self.y_min_seen {
            self.y_min_seen = density_millis;
        }
        if density_millis > self.y_max_seen {
            self.y_max_seen = density_millis;
        }
    }

    /// Whether the popup is shown.
    pub fn is_open(&self) -> (r: bool)
        ensures
            r == self.spec_is_open(),
    {
        self.is_open
    }

    /// The smallest density recorded so far, in thousandths.
    pub fn y_min_seen(&self) -> (r: i64)
        ensures
            r == self.spec_y_min_seen(),
    {
        self.y_min_seen
    }

    /// The largest density recorded so far, in thousandths.
    pub fn y_max_seen(&self) -> (r: i64)
        ensures
            r == self.spec_y_max_seen(),
    {
        self.y_max_seen
    }

    /// The number of recorded samples.
    pub fn sample_count(&self) -> (r: usize)
        ensures
            r == self.spec_samples().len(),
    {
        self.series.len()
    }

    /// Copies the recorded samples out, oldest first.
    pub fn samples(&self) -> (r: Vec<i64>)
        requires
            self.wf(),
        ensures
            r@ == self.spec_samples(),
    {
        self.series.iter_in_order()
    }
}

} // verus!
