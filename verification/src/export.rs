use vstd::prelude::*;
use vstd::string::StringExecFns;

use crate::encoding::{encode_tiff_big_endian, encode_tiff_native, tiff_big_endian_bytes};
use crate::error::ExportError;
use crate::volume::Volume3D;

verus! {

// ---------------------------------------------------------------------------
// Output file names: a 1-based index, zero-padded to at least five digits,
// between the fixed stem and extension.
// ---------------------------------------------------------------------------

/// The decimal digit character for `d` in `[0, 10)`.
pub open spec fn digit_char(d: int) -> char {
    if d == 0 {
        '0'
    } else if d == 1 {
        '1'
    } else if d == 2 {
        '2'
    } else if d == 3 {
        '3'
    } else if d == 4 {
        '4'
    } else if d == 5 {
        '5'
    } else if d == 6 {
        '6'
    } else if d == 7 {
        '7'
    } else if d == 8 {
        '8'
    } else {
        '9'
    }
}

/// The decimal digits of `n`, most significant first, without leading
/// zeros (a single `'0'` for zero).
pub open spec fn decimal_digits(n: nat) -> Seq<char>
    decreases n,
{
    if n < 10 {
        seq![digit_char(n as int)]
    } else {
        decimal_digits(n / 10) + seq![digit_char((n % 10) as int)]
    }
}

/// `k` zero characters.
pub open spec fn zero_run(k: nat) -> Seq<char> {
    Seq::new(k, |i: int| '0')
}

/// The decimal digits of `n` left-padded with zeros to at least five
/// characters.
pub open spec fn padded_index(n: nat) -> Seq<char> {
    if decimal_digits(n).len() >= 5 {
        decimal_digits(n)
    } else {
        zero_run((5 - decimal_digits(n).len()) as nat) + decimal_digits(n)
    }
}

/// The output file name for the 1-based slice index `n`:
/// `slice_` + the padded index + `.tif`.
pub open spec fn slice_file_name_spec(n: nat) -> Seq<char> {
    seq!['s', 'l', 'i', 'c', 'e', '_'] + padded_index(n) + seq!['.', 't', 'i', 'f']
}

/// A number has at least one digit and no more than `n + 1`.
proof fn lemma_decimal_digits_len(n: nat)
    ensures
        1 <= decimal_digits(n).len() <= n + 1,
    decreases n,
{
    if n >= 10 {
        lemma_decimal_digits_len(n / 10);
    }
}

fn digit_str(d: usize) -> (r: &'static str)
    requires
        d < 10,
    ensures
        r@ == seq![digit_char(d as int)],
{
    if d == 0 {
        proof {
            reveal_strlit("0");
            assert("0"@ =~= seq![digit_char(0)]);
        }
        "0"
    } else if d == 1 {
        proof {
            reveal_strlit("1");
            assert("1"@ =~= seq![digit_char(1)]);
        }
        "1"
    } else if d == 2 {
        proof {
            reveal_strlit("2");
            assert("2"@ =~= seq![digit_char(2)]);
        }
        "2"
    } else if d == 3 {
        proof {
            reveal_strlit("3");
            assert("3"@ =~= seq![digit_char(3)]);
        }
        "3"
    } else if d == 4 {
        proof {
            reveal_strlit("4");
            assert("4"@ =~= seq![digit_char(4)]);
        }
        "4"
    } else if d == 5 {
        proof {
            reveal_strlit("5");
            assert("5"@ =~= seq![digit_char(5)]);
        }
        "5"
    } else if d == 6 {
        proof {
            reveal_strlit("6");
            assert("6"@ =~= seq![digit_char(6)]);
        }
        "6"
    } else if d == 7 {
        proof {
            reveal_strlit("7");
            assert("7"@ =~= seq![digit_char(7)]);
        }
        "7"
    } else if d == 8 {
        proof {
            reveal_strlit("8");
            assert("8"@ =~= seq![digit_char(8)]);
        }
        "8"
    } else {
        proof {
            reveal_strlit("9");
            assert("9"@ =~= seq![digit_char(9)]);
        }
        "9"
    }
}

/// Appends the decimal digits of `n`, most significant first.
fn push_decimal(s: &mut String, n: usize)
    ensures
        final(s)@ == old(s)@ + decimal_digits(n as nat),
    decreases n,
{
    if n < 10 {
        s.append(digit_str(n));
    } else {
        push_decimal(s, n / 10);
        s.append(digit_str(n % 10));
        proof {
            assert(s@ =~= old(s)@ + decimal_digits(n as nat));
        }
    }
}

/// The number of decimal digits of `n`.
fn count_digits(n: usize) -> (c: usize)
    ensures
        c == decimal_digits(n as nat).len(),
    decreases n,
{
    if n < 10 {
        1
    } else {
        proof {
            lemma_decimal_digits_len((n / 10) as nat);
        }
        1 + count_digits(n / 10)
    }
}

/// The output file name for the 1-based slice index `idx`, zero-padded to
/// five digits: `slice_00001.tif` for index 1, and so on. Indices with more
/// than five digits keep all their digits.
pub fn slice_file_name(idx: usize) -> (r: String)
    ensures
        r@ == slice_file_name_spec(idx as nat),
{
    let mut s = String::new();
    s.append("slice_");
    proof {
        reveal_strlit("slice_");
        assert(s@ =~= seq!['s', 'l', 'i', 'c', 'e', '_']);
    }
    let c = count_digits(idx);
    let mut pad: usize = if c >= 5 {
        0
    } else {
        5 - c
    };
    let ghost total_pad = pad as nat;
    while pad > 0
        invariant
            pad <= total_pad,
            s@ == seq!['s', 'l', 'i', 'c', 'e', '_'] + zero_run((total_pad - pad) as nat),
        decreases pad,
    {
        s.append("0");
        proof {
            reveal_strlit("0");
            assert(s@ =~= seq!['s', 'l', 'i', 'c', 'e', '_'] + zero_run(
                (total_pad - (pad - 1)) as nat,
            ));
        }
        pad = pad - 1;
    }
    push_decimal(&mut s, idx);
    s.append(".tif");
    proof {
        reveal_strlit(".tif");
        assert(s@ =~= slice_file_name_spec(idx as nat));
    }
    s
}

// ---------------------------------------------------------------------------
// The export pipeline: per-frame encoding, and the batch with its progress
// trace.
// ---------------------------------------------------------------------------

/// The on-disk byte order of the exported images: the host's own, or
/// explicit big-endian.
#[derive(Clone, Copy, Debug, PartialEq, Eq, Structural)]
pub enum Endianness {
    Big,
    Native,
}

/// What the pipeline reports to an observer: one `InProgress` message per
/// completed frame, then a single terminal `Done` on success or `Error` on
/// the first failure.
#[derive(Debug, PartialEq)]
pub enum ProgressMessage {
    InProgress { num_done: usize, total: usize },
    Done { total: usize },
    Error { msg: String },
}

/// One frame ready to be written: the file name relative to the
/// destination directory, and the complete image bytes.
pub struct FrameOutput {
    pub file_name: String,
    pub bytes: Vec<u8>,
}

/// The 0-indexed, half-open frame range `[start, stop)` derived from the
/// 1-indexed user-facing frame numbers: `start_at_frame` counts from 1, and
/// an absent `stop_at_frame` means the whole remaining stack.
pub fn frame_range(start_at_frame: usize, stop_at_frame: Option<usize>, depth: usize) -> (r: (
    usize,
    usize,
))
    requires
        1 <= start_at_frame,
    ensures
        r.0 == start_at_frame - 1,
        stop_at_frame matches Some(f) ==> r.1 == f,
        stop_at_frame is None ==> r.1 == depth,
{
    let stop = match stop_at_frame {
        Some(f) => f,
        None => depth,
    };
    (start_at_frame - 1, stop)
}

/// Whether frame `z` can be exported: its sample range lies inside the
/// buffer and the image is not empty.
pub open spec fn frame_ok(v: Volume3D<'_>, z: int) -> bool {
    v.slice_in_bounds(z) && v.width() > 0 && v.height() > 0
}

/// Encodes the single frame `z` of an export whose range begins at
/// `start`: looks the slice up, names the output after the 1-based index
/// relative to `start` — never after the absolute `z` — and serializes it
/// in the requested byte order. Fails with a bounds error when the slice
/// range is not inside the buffer, and with an encoding error when the
/// image is empty; with big-endian output those are the only failures.
pub fn encode_frame<'a>(volume: &Volume3D<'a>, z: usize, start: usize, endianness: Endianness)
    -> (r: Result<FrameOutput, ExportError>)
    requires
        start <= z,
        volume.width() <= u32::MAX,
        volume.height() <= u32::MAX,
        2 * volume.width() * volume.height() <= u32::MAX,
    ensures
        r matches Ok(f) ==> {
            &&& frame_ok(*volume, z as int)
            &&& f.file_name@ == slice_file_name_spec((z - start + 1) as nat)
            &&& endianness == Endianness::Big ==> f.bytes@ == tiff_big_endian_bytes(
                volume.slice_spec(z as int),
                volume.width() as int,
                volume.height() as int,
            )
        },
        !volume.slice_in_bounds(z as int) ==> r == Err::<FrameOutput, ExportError>(
            ExportError::Bounds,
        ),
        volume.slice_in_bounds(z as int) && (volume.width() == 0 || volume.height() == 0)
            ==> r == Err::<FrameOutput, ExportError>(ExportError::Encoding),
        endianness == Endianness::Big ==> (r is Ok <==> frame_ok(*volume, z as int)),
        r matches Err(e) ==> e == ExportError::Bounds || e == ExportError::Encoding,
{
    let data = match volume.get_slice(z) {
        Ok(s) => s,
        Err(e) => {
            return Err(e);
        },
    };
    proof {
        volume.lemma_slice_spec_len(z as int);
    }
    let (nx, ny, _nz) = volume.dimensions();
    let width = nx as u32;
    let height = ny as u32;
    let encoded = match endianness {
        Endianness::Big => encode_tiff_big_endian(data, width, height),
        Endianness::Native => encode_tiff_native(data, width, height),
    };
    let bytes = match encoded {
        Ok(b) => b,
        Err(e) => {
            return Err(e);
        },
    };
    let file_name = slice_file_name(z - start + 1);
    Ok(FrameOutput { file_name, bytes })
}

/// The reported count of completed frames out of `total`.
pub open spec fn in_progress_msg(done: int, total: int) -> ProgressMessage {
    ProgressMessage::InProgress { num_done: done as usize, total: total as usize }
}

/// The message trace of a fully successful export of `n` frames: `done`
/// climbing from 1 to `n`, then the terminal `Done`.
pub open spec fn success_trace(n: nat) -> Seq<ProgressMessage> {
    Seq::new(n, |i: int| in_progress_msg(i + 1, n as int)).push(
        ProgressMessage::Done { total: n as usize },
    )
}

/// The `done` count a message reports; `total` for the terminal `Done`.
pub open spec fn done_of(m: ProgressMessage) -> int {
    match m {
        ProgressMessage::InProgress { num_done, .. } => num_done as int,
        ProgressMessage::Done { total } => total as int,
        ProgressMessage::Error { .. } => 0,
    }
}

/// Progress is monotone: over a successful export of `n` frames the
/// observer sees `done` values that never decrease and never exceed `n`,
/// and exactly one terminal message, `Done` with total `n`, after them.
pub proof fn lemma_progress_monotone(n: nat)
    requires
        n <= usize::MAX,
    ensures
        success_trace(n).len() == n + 1,
        forall|i: int, j: int|
            0 <= i <= j < success_trace(n).len() ==> done_of(success_trace(n)[i]) <= done_of(
                success_trace(n)[j],
            ),
        forall|i: int| 0 <= i < success_trace(n).len() ==> done_of(success_trace(n)[i]) <= n,
        success_trace(n).last() == (ProgressMessage::Done { total: n as usize }),
        forall|i: int| 0 <= i < n ==> success_trace(n)[i] == in_progress_msg(i + 1, n as int),
{
    assert forall|i: int| 0 <= i < success_trace(n).len() implies done_of(success_trace(n)[i])
        <= n by {
        if i < n {
            assert(success_trace(n)[i] == in_progress_msg(i + 1, n as int));
        }
    }
}

/// Exports the frame range `[start, stop)` of the volume in order: one
/// output per frame, named by its 1-based index relative to `start`, each a
/// self-contained TIFF in the requested byte order. The batch is
/// fail-fast: frames are produced until the first error, which becomes the
/// overall result. The second component is the progress trace an observer
/// would receive: one `InProgress` per completed frame with a climbing
/// `done` count, closed by `Done` on success or by `Error` carrying the
/// failure's description.
///
/// `start <= stop <= depth` is the caller's contract, not a reported
/// error; a violating range must be rejected before any frame work.
pub fn export_volume<'a>(
    volume: &Volume3D<'a>,
    start: usize,
    stop: usize,
    endianness: Endianness,
) -> (r: (Result<Vec<FrameOutput>, ExportError>, Vec<ProgressMessage>))
    requires
        start <= stop,
        stop <= volume.depth(),
        volume.width() <= u32::MAX,
        volume.height() <= u32::MAX,
        2 * volume.width() * volume.height() <= u32::MAX,
    ensures
        ({
            let n = stop - start;
            let (res, msgs) = r;
            &&& res matches Ok(frames) ==> {
                &&& frames@.len() == n
                &&& forall|i: int|
                    0 <= i < n ==> (#[trigger] frames@[i]).file_name@ == slice_file_name_spec(
                        (i + 1) as nat,
                    )
                &&& endianness == Endianness::Big ==> forall|i: int|
                    0 <= i < n ==> (#[trigger] frames@[i]).bytes@ == tiff_big_endian_bytes(
                        volume.slice_spec(start + i),
                        volume.width() as int,
                        volume.height() as int,
                    )
            }
            &&& res is Ok ==> msgs@ == success_trace(n as nat)
            &&& res is Ok ==> forall|z: int| start <= z < stop ==> frame_ok(*volume, z)
            &&& endianness == Endianness::Big ==> (res is Ok <==> forall|z: int|
                start <= z < stop ==> frame_ok(*volume, z))
            &&& forall|i: int|
                0 <= i < msgs@.len() - 1 ==> #[trigger] msgs@[i] == in_progress_msg(
                    i + 1,
                    n as int,
                )
            &&& msgs@.len() <= n + 1
            &&& res matches Err(e) ==> {
                &&& e == ExportError::Bounds || e == ExportError::Encoding
                &&& msgs@.len() >= 1
                &&& (msgs@.last() matches ProgressMessage::Error { msg }
                    && msg@ == e.message_spec())
            }
            &&& res matches Err(e) ==> (endianness == Endianness::Big ==> (exists|k: int|
                {
                    &&& start <= k < stop
                    &&& !frame_ok(*volume, k)
                    &&& (forall|zz: int| start <= zz < k ==> frame_ok(*volume, zz))
                    &&& msgs@.len() == k - start + 1
                    &&& (e == ExportError::Bounds <==> !volume.slice_in_bounds(k))
                }))
        }),
{
    let n = stop - start;
    let mut frames: Vec<FrameOutput> = Vec::new();
    let mut msgs: Vec<ProgressMessage> = Vec::new();
    let mut z = start;
    while z < stop
        invariant
            start <= z <= stop,
            stop <= volume.depth(),
            volume.width() <= u32::MAX,
            volume.height() <= u32::MAX,
            2 * volume.width() * volume.height() <= u32::MAX,
            n == stop - start,
            frames@.len() == z - start,
            msgs@.len() == z - start,
            forall|i: int|
                0 <= i < z - start ==> (#[trigger] frames@[i]).file_name@
                    == slice_file_name_spec((i + 1) as nat),
            endianness == Endianness::Big ==> forall|i: int|
                0 <= i < z - start ==> (#[trigger] frames@[i]).bytes@ == tiff_big_endian_bytes(
                    volume.slice_spec(start + i),
                    volume.width() as int,
                    volume.height() as int,
                ),
            forall|i: int|
                0 <= i < z - start ==> #[trigger] msgs@[i] == in_progress_msg(i + 1, n as int),
            forall|zz: int| start <= zz < z ==> frame_ok(*volume, zz),
        decreases stop - z,
    {
        match encode_frame(volume, z, start, endianness) {
            Ok(f) => {
                frames.push(f);
                msgs.push(
                    ProgressMessage::InProgress { num_done: z - start + 1, total: n },
                );
            },
            Err(e) => {
                msgs.push(ProgressMessage::Error { msg: e.message() });
                return (Err(e), msgs);
            },
        }
        z = z + 1;
    }
    msgs.push(ProgressMessage::Done { total: n });
    proof {
        assert(msgs@ =~= success_trace(n as nat));
    }
    (Ok(frames), msgs)
}

} // verus!
