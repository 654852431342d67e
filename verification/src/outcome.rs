use vstd::prelude::*;
use vstd::utf8::encode_utf8;
use vstd::utf8::valid_utf8;
use vstd::utf8::decode_utf8;

use crate::backtrace::{chain_len, frames_of, render_backtrace, Frame};
use crate::embedded::embedded_file;
use crate::fs::{block_matches, tier_resolve, FileProvider, FsError, Resolver, SourceBlock};
use crate::sink::{ranges_wf, OutputSink};
use crate::text::{bytes_to_string, char_span, leading_count};

verus! {

/// The execution-step budget configured for one interpreter run.
pub const MAX_STEPS: u64 = 10000000;

/// The source-nesting budget configured for one interpreter run.
pub const MAX_NESTING_DEPTH: u16 = 100;

/// Interpreter progress at failure time, as the engine reports it: the word
/// span within the current line is in byte offsets.
pub struct RawPosition {
    pub offset: usize,
    pub block_name: String,
    pub line: String,
    pub line_number: usize,
    pub word_start: usize,
    pub word_end: usize,
}

/// Interpreter progress at failure time, prepared for host display: the word
/// span within the current line is in character offsets, each multi-byte
/// character counted once.
pub struct ErrorPosition {
    pub offset: usize,
    pub block_name: String,
    pub line: String,
    pub line_number: usize,
    pub word_start: usize,
    pub word_end: usize,
}

/// How one interpreter run ended: success with an exit code, or failure with
/// the engine's error text, an optional position and an optional backtrace,
/// innermost frame first.
pub enum Outcome {
    Success { exit_code: u8 },
    Failure { stderr: String, position: Option<ErrorPosition>, backtrace: Option<Vec<String>> },
}

/// The terminal artifact of one run: the captured output text, the byte
/// spans of it written through the diagnostic path, and the outcome.
pub struct ExecutionResult {
    pub stdout: String,
    pub stderr_ranges: Vec<(usize, usize)>,
    pub outcome: Outcome,
}

/// A raw failure position converted for display: all fields carried over
/// verbatim but the word span, which moves from byte offsets to
/// character offsets within the same line.
pub open spec fn position_converted(raw: RawPosition, pos: ErrorPosition) -> bool {
    &&& pos.offset == raw.offset
    &&& pos.block_name@ == raw.block_name@
    &&& pos.line@ == raw.line@
    &&& pos.line_number == raw.line_number
    &&& pos.word_start == leading_count(encode_utf8(raw.line@), raw.word_start as int)
    &&& pos.word_end == leading_count(encode_utf8(raw.line@), raw.word_end as int)
}

/// A rendered backtrace: one entry per chain node, innermost first.
pub open spec fn backtrace_rendered(innermost: Frame, bt: Seq<String>) -> bool {
    &&& bt.len() == chain_len(innermost)
    &&& forall|i: int| 0 <= i < bt.len() ==> (#[trigger] bt[i])@ == frames_of(innermost)[i]
}

/// The successful outcome for the engine's raw exit value. The engine reports
/// the value with inverted polarity; the adapter inverts it back (bitwise, so
/// `255 - raw`) before exposing it under the conventional reading where zero
/// is the clean exit. This inversion is part of the observable contract.
pub fn assemble_success(raw_exit: u8) -> (r: Outcome)
    ensures
        r matches Outcome::Success { exit_code } && exit_code == 255 - raw_exit,
{
    Outcome::Success { exit_code: 255 - raw_exit }
}

/// The failed outcome for an engine error: the error text is carried through
/// verbatim; the position, when the engine exposes one, has its word span
/// converted from byte to character offsets; the pending-continuation chain,
/// when the engine exposes one, is rendered innermost first.
pub fn assemble_failure(stderr: String, position: Option<RawPosition>, innermost: Option<&Frame>) -> (r:
    Outcome)
    requires
        position matches Some(p) ==> p.word_start <= p.word_end <= encode_utf8(p.line@).len(),
    ensures
        r matches Outcome::Failure { stderr: s, position: pos, backtrace: bt } && s@ == stderr@
            && (match (position, pos) {
            (None, None) => true,
            (Some(raw), Some(ep)) => position_converted(raw, ep),
            _ => false,
        }) && (match (innermost, bt) {
            (None, None) => true,
            (Some(f), Some(v)) => backtrace_rendered(*f, v@),
            _ => false,
        }),
{
    let pos: Option<ErrorPosition> = match position {
        None => None,
        Some(raw) => {
            let (ws, we) = char_span(raw.line.as_str(), raw.word_start, raw.word_end);
            Some(
                ErrorPosition {
                    offset: raw.offset,
                    block_name: raw.block_name,
                    line: raw.line,
                    line_number: raw.line_number,
                    word_start: ws,
                    word_end: we,
                },
            )
        },
    };
    let bt: Option<Vec<String>> = match innermost {
        None => None,
        Some(f) => Some(render_backtrace(f)),
    };
    Outcome::Failure { stderr, position: pos, backtrace: bt }
}

/// Captured output that is not valid text: fatal to the whole session.
#[derive(Debug)]
pub struct EncodingError;

/// Drains the sink exactly once and attaches the decoded output text and the
/// diagnostic range list to the outcome. Decoding failure is fatal and yields
/// no result at all: a caller is never handed a result claiming success after
/// an unrecovered failure.
pub fn finish(sink: &mut OutputSink, outcome: Outcome) -> (r: Result<ExecutionResult, EncodingError>)
    requires
        old(sink).wf(),
    ensures
        final(sink).wf(),
        final(sink).buffer_view().len() == 0,
        final(sink).ranges_view().len() == 0,
        valid_utf8(old(sink).buffer_view()) ==> (r matches Ok(res) && res.stdout@ == decode_utf8(
            old(sink).buffer_view(),
        ) && res.stderr_ranges@ == old(sink).ranges_view() && res.outcome == outcome),
        !valid_utf8(old(sink).buffer_view()) ==> r is Err,
        r matches Ok(res) ==> ranges_wf(res.stderr_ranges@, old(sink).buffer_view().len() as int),
{
    let (buffer, ranges) = sink.take();
    match bytes_to_string(buffer) {
        Some(stdout) => Ok(ExecutionResult { stdout, stderr_ranges: ranges, outcome }),
        None => Err(EncodingError),
    }
}

/// Resolves the standard-library source block when the caller asks for
/// preloading, and nothing otherwise. The base library belongs to the
/// embedded set, so the lookup never reports `NotFound`: only the external
/// provider, which is consulted first, can fail it.
pub fn stdlib_block<P: FileProvider>(resolver: &Resolver<P>, with_stdlib: bool) -> (r: Result<
    Option<SourceBlock>,
    FsError,
>)
    ensures
        !with_stdlib ==> (r matches Ok(o) && o is None),
        with_stdlib ==> (r matches Ok(o) ==> o is Some),
        !(r matches Err(FsError::NotFound)),
        !(r matches Err(FsError::OutOfRange)),
        r matches Ok(Some(sb)) ==> resolver.session_file(sb.name@) is Some || embedded_file(
            sb.name@,
        ) is Some,
        r matches Ok(Some(sb)) ==> exists|ext: Option<Result<Seq<u8>, Seq<char>>>|
            block_matches(
                Ok(sb),
                tier_resolve(resolver.session_file(sb.name@), ext, embedded_file(sb.name@)),
                sb.name@,
            ),
{
    if !with_stdlib {
        return Ok(None);
    }
    let name = crate::embedded::base_lib_name();
    let r0 = resolver.open_block(name.as_str());
    match r0 {
        Ok(sb) => {
            proof {
                let ext0 = choose|ext: Option<Result<Seq<u8>, Seq<char>>>|
                    block_matches(
                        r0,
                        tier_resolve(resolver.session_file(name@), ext, embedded_file(name@)),
                        name@,
                    );
                assert(sb.name@ == name@);
                assert(block_matches(
                    Ok(sb),
                    tier_resolve(resolver.session_file(sb.name@), ext0, embedded_file(sb.name@)),
                    sb.name@,
                ));
            }
            Ok(Some(sb))
        },
        Err(e) => Err(e),
    }
}

} // verus!
