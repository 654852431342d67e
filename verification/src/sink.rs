use vstd::prelude::*;
use vstd::string::StringSliceAdditionalSpecFns;

verus! {

/// Well-formedness of a diagnostic range list over a buffer of `buf_len`
/// bytes: every range is ordered and bounded by the buffer length, and the
/// ranges are sorted and non-overlapping.
pub open spec fn ranges_wf(ranges: Seq<(usize, usize)>, buf_len: int) -> bool {
    &&& forall|i: int|
        0 <= i < ranges.len() ==> (#[trigger] ranges[i]).0 <= ranges[i].1 <= buf_len
    &&& forall|i: int|
        0 <= i && i + 1 < ranges.len() ==> (#[trigger] ranges[i]).1 <= ranges[i + 1].0
}

/// The output sink: one shared, append-only byte buffer that both the
/// primary and the diagnostic output path of the interpreter write into, so
/// that the relative ordering of the two streams is preserved exactly, plus a
/// range list marking the byte spans written through the diagnostic path.
pub struct OutputSink {
    buffer: Vec<u8>,
    ranges: Vec<(usize, usize)>,
}

impl OutputSink {
    /// The bytes written so far, primary and diagnostic interleaved.
    pub closed spec fn buffer_view(&self) -> Seq<u8> {
        self.buffer@
    }

    /// The diagnostic spans, as (start, end) byte offsets into the buffer.
    pub closed spec fn ranges_view(&self) -> Seq<(usize, usize)> {
        self.ranges@
    }

    /// The sink's invariant: its diagnostic range list is sorted,
    /// non-overlapping and bounded by the buffer length.
    pub open spec fn wf(&self) -> bool {
        ranges_wf(self.ranges_view(), self.buffer_view().len() as int)
    }

    /// An empty sink.
    pub fn new() -> (r: Self)
        ensures
            r.wf(),
            r.buffer_view() =~= Seq::<u8>::empty(),
            r.ranges_view() =~= Seq::<(usize, usize)>::empty(),
    {
        OutputSink { buffer: Vec::new(), ranges: Vec::new() }
    }

    /// Appends `bytes` through the primary output path: the buffer grows by
    /// exactly those bytes and no diagnostic range is recorded.
    pub fn write_primary(&mut self, bytes: &[u8])
        requires
            old(self).wf(),
        ensures
            final(self).wf(),
            final(self).buffer_view() == old(self).buffer_view() + bytes@,
            final(self).ranges_view() == old(self).ranges_view(),
    {
        self.write_bytes_internal(bytes);
        proof {
            assert(ranges_wf(self.ranges@, self.buffer@.len() as int));
        }
    }

    /// Appends the text's bytes through the diagnostic output path: the
    /// buffer grows by exactly those bytes, and one range marking the span of
    /// this write is appended to the range list.
    pub fn write_diagnostic(&mut self, text: &str)
        requires
            old(self).wf(),
        ensures
            final(self).wf(),
            final(self).buffer_view() == old(self).buffer_view() + text.spec_bytes(),
            final(self).ranges_view() == old(self).ranges_view().push(
                (
                    old(self).buffer_view().len() as usize,
                    (old(self).buffer_view().len() + text.spec_bytes().len()) as usize,
                ),
            ),
    {
        let start: usize = self.buffer.len();
        self.write_bytes_internal(text.as_bytes());
        let end: usize = self.buffer.len();
        self.ranges.push((start, end));
        proof {
            let r = self.ranges@;
            assert forall|i: int| 0 <= i < r.len() implies (#[trigger] r[i]).0 <= r[i].1
                <= self.buffer@.len() by {
                if i < r.len() - 1 {
                    assert(old(self).ranges@[i] == r[i]);
                }
            }
            assert forall|i: int| 0 <= i && i + 1 < r.len() implies (#[trigger] r[i]).1 <= r[i
                + 1].0 by {
                if i + 1 < r.len() - 1 {
                    assert(old(self).ranges@[i + 1] == r[i + 1]);
                } else {
                    assert(old(self).ranges@[i].1 <= old(self).buffer_view().len());
                }
            }
        }
    }

    /// The shared appending step of both write paths.
    fn write_bytes_internal(&mut self, bytes: &[u8])
        ensures
            final(self).buffer_view() == old(self).buffer_view() + bytes@,
            final(self).ranges_view() == old(self).ranges_view(),
    {
        let n = bytes.len();
        let mut i: usize = 0;
        while i < n
            invariant
                i <= n,
                n == bytes@.len(),
                self.ranges@ == old(self).ranges@,
                self.buffer@ == old(self).buffer@ + bytes@.take(i as int),
            decreases n - i,
        {
            let b = *vstd::slice::slice_index_get(bytes, i);
            self.buffer.push(b);
            i = i + 1;
            proof {
                assert(old(self).buffer@ + bytes@.take(i - 1) + seq![bytes@[i - 1]]
                    =~= old(self).buffer@ + bytes@.take(i as int));
            }
        }
        proof {
            assert(self.buffer@ =~= old(self).buffer@ + bytes@);
        }
    }

    /// Drains the sink: returns the whole buffer and the range list, leaving
    /// the sink empty (and so trivially well formed again).
    pub fn take(&mut self) -> (r: (Vec<u8>, Vec<(usize, usize)>))
        requires
            old(self).wf(),
        ensures
            r.0@ == old(self).buffer_view(),
            r.1@ == old(self).ranges_view(),
            ranges_wf(r.1@, r.0@.len() as int),
            final(self).wf(),
            final(self).buffer_view().len() == 0,
            final(self).ranges_view().len() == 0,
    {
        let mut buffer: Vec<u8> = Vec::new();
        let mut ranges: Vec<(usize, usize)> = Vec::new();
        core::mem::swap(&mut buffer, &mut self.buffer);
        core::mem::swap(&mut ranges, &mut self.ranges);
        (buffer, ranges)
    }
}

} // verus!
