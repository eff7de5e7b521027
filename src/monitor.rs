//! The resource monitor's running maximum of sampled memory usage, and the
//! standard-input protocol.
use vstd::prelude::*;
use crate::text::strings;

verus! {

/// Running maximum of memory-usage samples, in bytes; the series itself is
/// not kept.
#[derive(Debug, Clone, Copy, PartialEq, Eq, Structural)]
pub struct PeakTracker {
    pub peak: u64,
}

impl PeakTracker {
    /// A tracker that has seen no sample.
    pub fn new() -> (r: PeakTracker)
        ensures
            r.peak == 0,
    {
        PeakTracker { peak: 0 }
    }

    /// Records one sample.
    pub fn observe(&mut self, usage: u64)
        ensures
            final(self).peak == if usage > old(self).peak {
                usage
            } else {
                old(self).peak
            },
    {
        if usage > self.peak {
            self.peak = usage;
        }
    }
}

/// The bytes written to a sandbox's standard input: each line followed by a
/// newline, in order.
pub open spec fn input_text(lines: Seq<Seq<char>>) -> Seq<char>
    decreases lines.len(),
{
    if lines.len() == 0 {
        seq![]
    } else {
        input_text(lines.drop_last()) + lines.last() + seq!['\n']
    }
}

/// The text to write to a sandbox's standard input before closing it.
pub fn input_payload(lines: &Vec<String>) -> (r: String)
    ensures
        r@ == input_text(strings(lines@)),
{
    let mut s = String::new();
    let mut i: usize = 0;
    while i < lines.len()
        invariant
            i <= lines.len(),
            s@ == input_text(strings(lines@.subrange(0, i as int))),
        decreases lines.len() - i,
    {
        assert(strings(lines@.subrange(0, i + 1)).drop_last() =~= strings(lines@.subrange(0, i as int)));
        let ghost prev = s@;
        proof { reveal_strlit("\n"); }
        s.append(lines[i].as_str());
        s.append("\n");
        assert(strings(lines@.subrange(0, i + 1)).last() == lines@[i as int]@);
        assert(s@ =~= prev + lines@[i as int]@ + seq!['\n']);
        i = i + 1;
    }
    assert(lines@.subrange(0, lines.len() as int) =~= lines@);
    s
}

} // verus!
