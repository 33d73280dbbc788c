//! The memory of a request: pieces of buffers, in the order in which the data goes there or comes
//! from there.

use vstd::prelude::*;

verus! {

/// A piece of one of the buffers of a request.
#[derive(Clone, Copy, Debug, PartialEq, Eq, Structural)]
pub struct Segment {
    /// The number of the buffer.
    pub buffer: usize,
    /// The first byte.
    pub start: usize,
    /// The end: the first byte that is not part of it.
    pub end: usize,
}

impl Segment {
    /// The bytes that it covers, each as the number of the buffer and the position therein.
    pub open spec fn bytes(self) -> Seq<(int, int)> {
        Seq::new(
            (self.end - self.start) as nat,
            |i: int| (self.buffer as int, self.start + i),
        )
    }
}

/// The bytes that these pieces cover, in order.
pub open spec fn segment_bytes(segments: Seq<Segment>) -> Seq<(int, int)>
    decreases segments.len(),
{
    if segments.len() == 0 {
        Seq::empty()
    } else {
        segments[0].bytes() + segment_bytes(segments.drop_first())
    }
}

/// All bytes of the first `n` of the buffers that are as long as `lengths` says, in order.
pub open spec fn buffer_bytes(lengths: Seq<usize>, n: int) -> Seq<(int, int)>
    decreases n,
{
    if n <= 0 {
        Seq::empty()
    } else {
        buffer_bytes(lengths, n - 1) + Seq::new(lengths[n - 1] as nat, |i: int| (n - 1, i))
    }
}

proof fn lemma_segment_bytes_push(segments: Seq<Segment>, last: Segment)
    ensures
        segment_bytes(segments.push(last)) == segment_bytes(segments) + last.bytes(),
    decreases segments.len(),
{
    if segments.len() == 0 {
        assert(segments.push(last).drop_first() =~= Seq::<Segment>::empty());
        assert(segments.push(last)[0] == last);
        reveal_with_fuel(segment_bytes, 2);
        assert(segment_bytes(segments.push(last)) =~= segment_bytes(segments) + last.bytes());
    } else {
        assert(segments.push(last).drop_first() =~= segments.drop_first().push(last));
        lemma_segment_bytes_push(segments.drop_first(), last);
        assert(segment_bytes(segments.push(last)) =~= segment_bytes(segments) + last.bytes());
    }
}

/// The memory of a request, or what is left of it.
///
/// It is viewed as the sequence of its bytes, each as the number of the buffer that it lies in and
/// the position therein.
pub struct IoVector {
    segments: Vec<Segment>,
}

impl View for IoVector {
    type V = Seq<(int, int)>;

    closed spec fn view(&self) -> Seq<(int, int)> {
        segment_bytes(self.segments@)
    }
}

/// No piece is empty.
pub open spec fn no_empty_segment(segments: Seq<Segment>) -> bool {
    forall|i: int| 0 <= i < segments.len() ==> (#[trigger] segments[i]).start < segments[i].end
}

/// The pieces are in the order of the buffers, and there is no more than one of each buffer.
pub open spec fn in_buffer_order(segments: Seq<Segment>) -> bool {
    forall|i: int, j: int|
        0 <= i < j < segments.len() ==> (#[trigger] segments[i]).buffer < (
        #[trigger] segments[j]).buffer
}

/// `segment` is what is left of the first buffer that anything of is left.
pub open spec fn is_leading_segment(bytes: Seq<(int, int)>, segment: Segment) -> bool {
    let len = segment.end - segment.start;
    &&& 0 < len <= bytes.len()
    &&& bytes.take(len) == segment.bytes()
    &&& len < bytes.len() ==> bytes[len].0 != segment.buffer
}

/// All bytes of the buffers are the bytes of these buffers, each of them, and in order: buffer by
/// buffer, and from the beginning of each to its end.
pub proof fn law_buffers_are_taken_in_order(lengths: Seq<usize>, n: int)
    requires
        0 <= n <= lengths.len(),
    ensures
        ({
            let bytes = buffer_bytes(lengths, n);
            &&& forall|j: int|
                0 <= j < bytes.len() ==> 0 <= (#[trigger] bytes[j]).0 < n && 0 <= bytes[j].1
                    < lengths[bytes[j].0]
            &&& forall|j: int, k: int|
                0 <= j < k < bytes.len() ==> (#[trigger] bytes[j]).0 < (#[trigger] bytes[k]).0 || (
                bytes[j].0 == bytes[k].0 && bytes[j].1 < bytes[k].1)
            &&& forall|b: int, i: int|
                0 <= b < n && 0 <= i < lengths[b] ==> #[trigger] bytes.contains((b, i))
        }),
    decreases n,
{
    if n > 0 {
        law_buffers_are_taken_in_order(lengths, n - 1);
        let before = buffer_bytes(lengths, n - 1);
        let bytes = buffer_bytes(lengths, n);
        assert forall|b: int, i: int| 0 <= b < n && 0 <= i < lengths[b] implies
            #[trigger] bytes.contains((b, i)) by {
            if b < n - 1 {
                assert(before.contains((b, i)));
                let j = choose|j: int| 0 <= j < before.len() && before[j] == (b, i);
                assert(bytes[j] == (b, i));
            } else {
                assert(bytes[before.len() + i] == (b, i));
            }
        }
    }
}

/// The bytes that pieces cover are the bytes of these pieces, each of them, and in order: piece by
/// piece, and from the beginning of each to its end.
///
/// No piece is empty, and they are in the order of their buffers.
pub proof fn law_segments_are_taken_in_order(segments: Seq<Segment>)
    requires
        forall|m: int| 0 <= m < segments.len() ==> (#[trigger] segments[m]).start < segments[m].end,
        forall|l: int, m: int|
            0 <= l < m < segments.len() ==> (#[trigger] segments[l]).buffer < (
            #[trigger] segments[m]).buffer,
    ensures
        ({
            let bytes = segment_bytes(segments);
            &&& forall|j: int|
                0 <= j < bytes.len() ==> exists|m: int|
                    0 <= m < segments.len() && (#[trigger] segments[m]).buffer == (
                    #[trigger] bytes[j]).0 && segments[m].start <= bytes[j].1 < segments[m].end
            &&& forall|j: int, k: int|
                0 <= j < k < bytes.len() ==> (#[trigger] bytes[j]).0 < (#[trigger] bytes[k]).0 || (
                bytes[j].0 == bytes[k].0 && bytes[j].1 < bytes[k].1)
            &&& forall|m: int, i: int|
                0 <= m < segments.len() && segments[m].start <= i < segments[m].end
                    ==> #[trigger] bytes.contains((segments[m].buffer as int, i))
        }),
    decreases segments.len(),
{
    if segments.len() > 0 {
        let first = segments[0];
        let rest = segments.drop_first();
        let len = first.end - first.start;
        let bytes = segment_bytes(segments);
        let tail = segment_bytes(rest);
        assert forall|m: int| 0 <= m < rest.len() implies (#[trigger] rest[m]).start < rest[m].end
            && first.buffer < rest[m].buffer by {
            assert(rest[m] == segments[m + 1]);
        }
        assert forall|l: int, m: int| 0 <= l < m < rest.len() implies (#[trigger] rest[l]).buffer < (
        #[trigger] rest[m]).buffer by {
            assert(rest[l] == segments[l + 1] && rest[m] == segments[m + 1]);
        }
        law_segments_are_taken_in_order(rest);
        assert(bytes == first.bytes() + tail);
        assert forall|j: int| 0 <= j < bytes.len() implies exists|m: int|
            0 <= m < segments.len() && (#[trigger] segments[m]).buffer == (#[trigger] bytes[j]).0
                && segments[m].start <= bytes[j].1 < segments[m].end by {
            if j < len {
                assert(segments[0].buffer == bytes[j].0);
            } else {
                assert(bytes[j] == tail[j - len]);
                let m = choose|m: int|
                    0 <= m < rest.len() && (#[trigger] rest[m]).buffer == tail[j - len].0
                        && rest[m].start <= tail[j - len].1 < rest[m].end;
                assert(segments[m + 1] == rest[m]);
            }
        }
        assert forall|j: int, k: int| 0 <= j < k < bytes.len() implies (#[trigger] bytes[j]).0 < (
        #[trigger] bytes[k]).0 || (bytes[j].0 == bytes[k].0 && bytes[j].1 < bytes[k].1) by {
            if len <= k {
                assert(bytes[k] == tail[k - len]);
                let m = choose|m: int|
                    0 <= m < rest.len() && (#[trigger] rest[m]).buffer == tail[k - len].0
                        && rest[m].start <= tail[k - len].1 < rest[m].end;
                assert(first.buffer < rest[m].buffer);
                if len <= j {
                    assert(bytes[j] == tail[j - len]);
                }
            }
        }
        assert forall|m: int, i: int|
            0 <= m < segments.len() && segments[m].start <= i
                < segments[m].end implies #[trigger] bytes.contains(
            (segments[m].buffer as int, i),
        ) by {
            if m == 0 {
                assert(bytes[i - first.start] == (first.buffer as int, i));
            } else {
                assert(rest[m - 1] == segments[m]);
                assert(tail.contains((rest[m - 1].buffer as int, i)));
                let j = choose|j: int|
                    0 <= j < tail.len() && tail[j] == (rest[m - 1].buffer as int, i);
                assert(bytes[len + j] == tail[j]);
            }
        }
    }
}

/// What is left of the first buffer that anything of is left is the first piece, whole.
///
/// No piece is empty, and they are in the order of their buffers.
pub proof fn law_leading_segment_is_first(segments: Seq<Segment>, segment: Segment)
    requires
        segments.len() > 0,
        forall|m: int| 0 <= m < segments.len() ==> (#[trigger] segments[m]).start < segments[m].end,
        forall|l: int, m: int|
            0 <= l < m < segments.len() ==> (#[trigger] segments[l]).buffer < (
            #[trigger] segments[m]).buffer,
    ensures
        is_leading_segment(segment_bytes(segments), segment) <==> segment == segments[0],
{
    let first = segments[0];
    let rest = segments.drop_first();
    let bytes = segment_bytes(segments);
    let len = first.end - first.start;
    reveal_with_fuel(segment_bytes, 2);
    assert(bytes == first.bytes() + segment_bytes(rest));
    if rest.len() > 0 {
        assert(rest[0] == segments[1]);
        assert(bytes[len] == rest[0].bytes()[0]);
    }
    assert(bytes.take(len) =~= first.bytes());
    assert(is_leading_segment(bytes, first));
    if is_leading_segment(bytes, segment) {
        let other = segment.end - segment.start;
        assert(bytes.take(other)[0] == segment.bytes()[0]);
        assert(bytes[0] == first.bytes()[0]);
        if other > len {
            assert(bytes.take(other)[len] == segment.bytes()[len]);
        } else if other < len {
            assert(bytes[other] == first.bytes()[other]);
        }
    }
}

impl IoVector {
    #[verifier::type_invariant]
    spec fn well_formed(self) -> bool {
        &&& no_empty_segment(self.segments@)
        &&& in_buffer_order(self.segments@)
    }

    /// All of the buffers that are as long as `lengths` says.
    pub fn from_lengths(lengths: &Vec<usize>) -> (r: Self)
        ensures
            r@ == buffer_bytes(lengths@, lengths.len() as int),
    {
        let mut segments: Vec<Segment> = Vec::new();
        let mut n: usize = 0;
        while n < lengths.len()
            invariant
                n <= lengths.len(),
                no_empty_segment(segments@),
                in_buffer_order(segments@),
                forall|i: int| 0 <= i < segments.len() ==> (#[trigger] segments@[i]).buffer < n,
                segment_bytes(segments@) == buffer_bytes(lengths@, n as int),
            decreases lengths.len() - n,
        {
            let ghost before = segments@;
            let segment = Segment { buffer: n, start: 0, end: lengths[n] };
            proof {
                lemma_segment_bytes_push(before, segment);
                assert(segment.bytes() =~= Seq::new(
                    lengths@[n as int] as nat,
                    |i: int| (n as int, i),
                ));
            }
            if lengths[n] > 0 {
                segments.push(segment);
            } else {
                assert(segment_bytes(before) + segment.bytes() =~= segment_bytes(before));
            }
            n = n + 1;
        }
        IoVector { segments }
    }

    /// Whether there is nothing left.
    pub fn is_empty(&self) -> (r: bool)
        ensures
            r == (self@.len() == 0),
    {
        proof {
            use_type_invariant(self);
            if self.segments.len() > 0 {
                assert(segment_bytes(self.segments@).len() >= self.segments@[0].bytes().len());
            }
        }
        self.segments.len() == 0
    }

    /// The pieces that are left, in the order of the buffers; none is empty.
    pub fn segments(&self) -> (r: &Vec<Segment>)
        ensures
            segment_bytes(r@) == self@,
            no_empty_segment(r@),
            in_buffer_order(r@),
    {
        proof {
            use_type_invariant(self);
        }
        &self.segments
    }

    /// What is left of the first buffer that anything of is left.
    pub fn first_segment(&self) -> (r: Option<Segment>)
        ensures
            match r {
                Some(segment) => is_leading_segment(self@, segment),
                None => self@.len() == 0,
            },
    {
        proof {
            use_type_invariant(self);
        }
        if self.segments.len() == 0 {
            return None;
        }
        let segment = self.segments[0];
        proof {
            let rest = self.segments@.drop_first();
            let len = segment.end - segment.start;
            reveal_with_fuel(segment_bytes, 2);
            assert(self@ == segment.bytes() + segment_bytes(rest));
            assert(self@.take(len) =~= segment.bytes());
            if len < self@.len() {
                assert(rest.len() > 0);
                assert(rest[0] == self.segments@[1]);
                assert(self@[len] == segment_bytes(rest)[0]);
                assert(segment_bytes(rest)[0] == rest[0].bytes()[0]);
            }
        }
        Some(segment)
    }

    /// Whether there are at least `n` bytes.
    pub fn has_at_least(&self, n: u64) -> (r: bool)
        ensures
            r == (n <= self@.len()),
    {
        proof {
            use_type_invariant(self);
        }
        let mut missing: u64 = n;
        let mut i: usize = 0;
        assert(self.segments@.skip(0) =~= self.segments@);
        while missing > 0 && i < self.segments.len()
            invariant
                i <= self.segments.len(),
                no_empty_segment(self.segments@),
                missing <= n,
                n - missing + segment_bytes(self.segments@.skip(i as int)).len()
                    == segment_bytes(self.segments@).len() || (missing == 0 && n
                    <= segment_bytes(self.segments@).len()),
            decreases self.segments.len() - i,
        {
            let segment = self.segments[i];
            let len: u64 = (segment.end - segment.start) as u64;
            proof {
                let rest = self.segments@.skip(i as int);
                assert(rest[0] == segment);
                assert(rest.drop_first() =~= self.segments@.skip(i + 1));
            }
            if missing <= len {
                missing = 0;
            } else {
                missing = missing - len;
            }
            i = i + 1;
        }
        assert(i == self.segments.len() ==> self.segments@.skip(i as int).len() == 0);
        missing == 0
    }

    /// What is left after the first `mid` bytes.
    pub fn split_tail_at(&self, mid: u64) -> (r: Self)
        requires
            mid <= self@.len(),
        ensures
            r@ == self@.skip(mid as int),
    {
        proof {
            use_type_invariant(self);
        }
        let mut rest: u64 = mid;
        let mut i: usize = 0;
        assert(self.segments@.skip(0) =~= self.segments@);
        while i < self.segments.len() && (self.segments[i].end - self.segments[i].start) as u64
            <= rest
            invariant
                i <= self.segments.len(),
                no_empty_segment(self.segments@),
                rest <= mid <= segment_bytes(self.segments@).len(),
                rest <= segment_bytes(self.segments@.skip(i as int)).len(),
                segment_bytes(self.segments@.skip(i as int)).skip(rest as int) == segment_bytes(
                    self.segments@,
                ).skip(mid as int),
            decreases self.segments.len() - i,
        {
            let len: u64 = (self.segments[i].end - self.segments[i].start) as u64;
            proof {
                let left = self.segments@.skip(i as int);
                assert(left[0] == self.segments@[i as int]);
                assert(left.drop_first() =~= self.segments@.skip(i + 1));
                assert(segment_bytes(left).skip(rest as int) =~= segment_bytes(
                    left.drop_first(),
                ).skip(rest - len));
            }
            rest = rest - len;
            i = i + 1;
        }
        let mut segments: Vec<Segment> = Vec::new();
        if i < self.segments.len() {
            let first = self.segments[i];
            let cut = Segment { start: first.start + rest as usize, ..first };
            segments.push(cut);
            proof {
                let left = self.segments@.skip(i as int);
                assert(left[0] == first);
                assert(left.drop_first() =~= self.segments@.skip(i + 1));
                assert(cut.bytes() =~= first.bytes().skip(rest as int));
                lemma_segment_bytes_push(Seq::empty(), cut);
                assert(segments@ =~= Seq::empty().push(cut));
                assert(segment_bytes(segments@) =~= cut.bytes());
                assert(segment_bytes(left).skip(rest as int) =~= segment_bytes(segments@)
                    + segment_bytes(self.segments@.skip(i + 1)));
            }
            i = i + 1;
        } else {
            assert(self.segments@.skip(i as int) =~= Seq::empty());
            assert(segment_bytes(segments@) + segment_bytes(self.segments@.skip(i as int))
                =~= segment_bytes(self.segments@).skip(mid as int));
        }
        while i < self.segments.len()
            invariant
                i <= self.segments.len(),
                no_empty_segment(self.segments@),
                no_empty_segment(segments@),
                in_buffer_order(self.segments@),
                in_buffer_order(segments@),
                forall|j: int, k: int|
                    0 <= j < segments.len() && i <= k < self.segments.len() ==> (
                    #[trigger] segments@[j]).buffer < (#[trigger] self.segments@[k]).buffer,
                segment_bytes(segments@) + segment_bytes(self.segments@.skip(i as int))
                    == segment_bytes(self.segments@).skip(mid as int),
            decreases self.segments.len() - i,
        {
            let segment = self.segments[i];
            proof {
                let left = self.segments@.skip(i as int);
                assert(left[0] == segment);
                assert(left.drop_first() =~= self.segments@.skip(i + 1));
                lemma_segment_bytes_push(segments@, segment);
                assert((segment_bytes(segments@) + segment.bytes()) + segment_bytes(
                    left.drop_first(),
                ) =~= segment_bytes(segments@) + segment_bytes(left));
            }
            segments.push(segment);
            i = i + 1;
        }
        assert(self.segments@.skip(i as int) =~= Seq::empty());
        assert(segment_bytes(segments@) + Seq::empty() =~= segment_bytes(segments@));
        IoVector { segments }
    }
}

} // verus!
