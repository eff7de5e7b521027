//! Output collection: demultiplexing the captured log stream, and the
//! timing block that interpreted-language images write into stderr.
use vstd::prelude::*;
use vstd::utf8::{valid_utf8, decode_utf8};
use crate::text::{chars_of, split_lines, string_from_chars, trim, trim_range, range_is,
    range_starts_with, lines_of, texts};
use crate::numbers::{elapsed_millis, parsed_u32, parse_elapsed_range, parse_u32_range, cap_u64};

verus! {

/// Line that opens the timing block in stderr.
pub const BEGIN_MARKER: &'static str = "===CODE_EXEC_TIME_BEGIN===";

/// Line that closes the timing block in stderr.
pub const END_MARKER: &'static str = "===CODE_EXEC_TIME_END===";

/// Prefix of the timing line that gives the elapsed wall-clock time.
pub const ELAPSED_PREFIX: &'static str = "Elapsed (wall clock) time:";

/// Prefix of the timing line that gives the peak resident set size in KiB.
pub const RSS_PREFIX: &'static str = "Maximum resident set size (kbytes):";

/// Note put into stderr in place of a log frame that could not be read.
pub const READ_ERROR_NOTE: &'static str = "Error reading logs: ";

/// One frame of a sandbox's captured log stream.
#[derive(Debug, Clone)]
pub enum LogChunk {
    StdOut(Vec<u8>),
    StdErr(Vec<u8>),
    /// A frame of another stream (input echo, console), which is dropped.
    Other,
    /// A frame that could not be read, with the reader's message.
    ReadError(String),
}

/// What `String::from_utf8_lossy` makes of a byte sequence.
pub uninterp spec fn lossy_text(b: Seq<u8>) -> Seq<char>;

/// Relies on `String::from_utf8_lossy`: the result depends on the bytes
/// alone, and valid UTF-8 is decoded unchanged.
#[verifier::external_body]
pub(crate) fn decode_lossy(b: &Vec<u8>) -> (r: String)
    ensures
        r@ == lossy_text(b@),
        valid_utf8(b@) ==> r@ == decode_utf8(b@),
{
    String::from_utf8_lossy(b).into_owned()
}

/// The bytes of all stdout frames, joined in order.
pub open spec fn out_bytes(chunks: Seq<LogChunk>) -> Seq<u8>
    decreases chunks.len(),
{
    if chunks.len() == 0 {
        seq![]
    } else {
        match chunks.last() {
            LogChunk::StdOut(m) => out_bytes(chunks.drop_last()) + m@,
            _ => out_bytes(chunks.drop_last()),
        }
    }
}

/// Scan of the stderr frames: the text settled so far, and the bytes of the
/// run of frames since the last unreadable frame, not yet decoded. Each run
/// is decoded as a whole, so a character split across frames survives.
pub open spec fn err_scan(chunks: Seq<LogChunk>) -> (Seq<char>, Seq<u8>)
    decreases chunks.len(),
{
    if chunks.len() == 0 {
        (seq![], seq![])
    } else {
        let (done, run) = err_scan(chunks.drop_last());
        match chunks.last() {
            LogChunk::StdErr(m) => (done, run + m@),
            LogChunk::ReadError(msg) => (done + lossy_text(run) + READ_ERROR_NOTE@ + msg@, seq![]),
            _ => (done, run),
        }
    }
}

/// The stdout and stderr texts of a log stream. Each stream's frames are
/// joined before decoding; an unreadable frame puts a note into stderr.
pub open spec fn demux(chunks: Seq<LogChunk>) -> (Seq<char>, Seq<char>) {
    (lossy_text(out_bytes(chunks)), err_scan(chunks).0 + lossy_text(err_scan(chunks).1))
}

/// Splits a captured log stream into its stdout and stderr texts. Output
/// that is valid UTF-8 comes back exactly as written.
pub fn demux_logs(chunks: &Vec<LogChunk>) -> (r: (String, String))
    ensures
        (r.0@, r.1@) == demux(chunks@),
        valid_utf8(out_bytes(chunks@)) ==> r.0@ == decode_utf8(out_bytes(chunks@)),
{
    let mut out: Vec<u8> = Vec::new();
    let mut done = String::new();
    let mut run: Vec<u8> = Vec::new();
    let mut i: usize = 0;
    while i < chunks.len()
        invariant
            i <= chunks.len(),
            out@ == out_bytes(chunks@.subrange(0, i as int)),
            (done@, run@) == err_scan(chunks@.subrange(0, i as int)),
        decreases chunks.len() - i,
    {
        assert(chunks@.subrange(0, i + 1).drop_last() =~= chunks@.subrange(0, i as int));
        match &chunks[i] {
            LogChunk::StdOut(m) => {
                push_all(&mut out, m);
            },
            LogChunk::StdErr(m) => {
                push_all(&mut run, m);
            },
            LogChunk::Other => {},
            LogChunk::ReadError(msg) => {
                let t = decode_lossy(&run);
                done.append(t.as_str());
                done.append(READ_ERROR_NOTE);
                done.append(msg.as_str());
                run = Vec::new();
                assert(run@ =~= seq![]);
            },
        }
        i = i + 1;
    }
    assert(chunks@.subrange(0, chunks.len() as int) =~= chunks@);
    let stdout = decode_lossy(&out);
    let tail = decode_lossy(&run);
    done.append(tail.as_str());
    (stdout, done)
}

/// Scan of stderr's lines: whether a timing block is open, the text kept
/// outside blocks (each line followed by a newline), and the lines inside.
pub open spec fn block_scan(lines: Seq<Seq<char>>) -> (bool, Seq<char>, Seq<Seq<char>>)
    decreases lines.len(),
{
    if lines.len() == 0 {
        (false, seq![], seq![])
    } else {
        let (open, kept, inner) = block_scan(lines.drop_last());
        let l = lines.last();
        if trim(l) == BEGIN_MARKER@ {
            (true, kept, inner)
        } else if trim(l) == END_MARKER@ {
            (false, kept, inner)
        } else if open {
            (open, kept, inner.push(l))
        } else {
            (open, kept + l + seq!['\n'], inner)
        }
    }
}

/// Whether line `l` starts with `p`.
pub open spec fn has_prefix(l: Seq<char>, p: Seq<char>) -> bool {
    p.len() <= l.len() && l.subrange(0, p.len() as int) == p
}

/// The elapsed milliseconds and peak KiB given by the last matching timing
/// lines; an unreadable peak counts as zero.
pub open spec fn timing_scan(lines: Seq<Seq<char>>) -> (Option<nat>, Option<u32>)
    decreases lines.len(),
{
    if lines.len() == 0 {
        (None, None)
    } else {
        let (e, k) = timing_scan(lines.drop_last());
        let l = lines.last();
        let e2 = if has_prefix(l, ELAPSED_PREFIX@) {
            Some(elapsed_millis(trim(l.subrange(ELAPSED_PREFIX@.len() as int, l.len() as int))))
        } else {
            e
        };
        let k2 = if has_prefix(l, RSS_PREFIX@) {
            Some(
                match parsed_u32(trim(l.subrange(RSS_PREFIX@.len() as int, l.len() as int))) {
                    Some(n) => n,
                    None => 0u32,
                },
            )
        } else {
            k
        };
        (e2, k2)
    }
}

/// An optional count, capped at `u64::MAX`.
pub open spec fn capped(o: Option<nat>) -> Option<u64> {
    match o {
        Some(n) => Some(cap_u64(n)),
        None => None,
    }
}

/// What the timing block of a stderr text reports.
#[derive(Debug, Clone)]
pub struct TimingReport {
    /// The stderr text without the timing block.
    pub stderr: String,
    /// The elapsed wall-clock time, in milliseconds, if a line gave it.
    pub elapsed_ms: Option<u64>,
    /// The peak resident set size, in KiB, if a line gave it.
    pub max_rss_kb: Option<u32>,
}

fn push_all<T: Copy>(dst: &mut Vec<T>, src: &Vec<T>)
    ensures
        final(dst)@ == old(dst)@ + src@,
{
    let mut i: usize = 0;
    while i < src.len()
        invariant
            i <= src.len(),
            dst@ == old(dst)@ + src@.subrange(0, i as int),
        decreases src.len() - i,
    {
        dst.push(src[i]);
        i = i + 1;
        assert(dst@ =~= old(dst)@ + src@.subrange(0, i as int));
    }
    assert(src@.subrange(0, src.len() as int) =~= src@);
}

/// Extracts the timing block from `stderr` and removes it from the text.
pub fn split_timing_block(stderr: &str) -> (r: TimingReport)
    ensures
        r.stderr@ == block_scan(lines_of(stderr@)).1,
        r.elapsed_ms == capped(timing_scan(block_scan(lines_of(stderr@)).2).0),
        r.max_rss_kb == timing_scan(block_scan(lines_of(stderr@)).2).1,
{
    let chars = chars_of(stderr);
    let lines = split_lines(&chars);
    let ghost ls = lines_of(stderr@);
    let mut open = false;
    let mut kept: Vec<char> = Vec::new();
    let ghost mut inner: Seq<Seq<char>> = seq![];
    let mut elapsed: Option<u64> = None;
    let mut rss: Option<u32> = None;
    let mut i: usize = 0;
    while i < lines.len()
        invariant
            i <= lines.len(),
            texts(lines@) == ls,
            (open, kept@, inner) == block_scan(ls.subrange(0, i as int)),
            elapsed == capped(timing_scan(inner).0),
            rss == timing_scan(inner).1,
        decreases lines.len() - i,
    {
        let l = &lines[i];
        assert(ls.subrange(0, i + 1).drop_last() =~= ls.subrange(0, i as int));
        assert(ls[i as int] == l@);
        let (a, b) = trim_range(l, 0, l.len());
        assert(l@.subrange(0, l.len() as int) =~= l@);
        if range_is(l, a, b, BEGIN_MARKER) {
            open = true;
        } else if range_is(l, a, b, END_MARKER) {
            open = false;
        } else if open {
            proof {
                let prev = inner;
                inner = inner.push(l@);
                assert(inner.drop_last() =~= prev);
            }
            let n = l.len();
            if range_starts_with(l, 0, n, ELAPSED_PREFIX) {
                let p = ELAPSED_PREFIX.unicode_len();
                let (c, d) = trim_range(l, p, n);
                elapsed = Some(parse_elapsed_range(l, c, d));
            }
            if range_starts_with(l, 0, n, RSS_PREFIX) {
                let p = RSS_PREFIX.unicode_len();
                let (c, d) = trim_range(l, p, n);
                rss = Some(
                    match parse_u32_range(l, c, d) {
                        Some(k) => k,
                        None => 0,
                    },
                );
            }
        } else {
            push_all(&mut kept, l);
            kept.push('\n');
        }
        i = i + 1;
    }
    assert(ls.subrange(0, lines.len() as int) =~= ls);
    TimingReport { stderr: string_from_chars(&kept), elapsed_ms: elapsed, max_rss_kb: rss }
}

} // verus!
