use std::cell::RefCell;
use std::rc::Rc;

use fift_host::backtrace::Frame;
use fift_host::fs::{FileProvider, Resolver, SourceBlock};
use fift_host::outcome::{
    assemble_failure, assemble_success, finish, stdlib_block, ExecutionResult, Outcome,
    RawPosition, MAX_NESTING_DEPTH, MAX_STEPS,
};
use fift_host::sink::OutputSink;

struct NoProvider;

impl FileProvider for NoProvider {
    fn file_exists(&self, _name: &str) -> bool {
        false
    }

    fn read(&self, _name: &str) -> Result<Vec<u8>, String> {
        Err("no provider".to_string())
    }
}

fn to_engine_block(sb: SourceBlock) -> fift::core::SourceBlock {
    fift::core::SourceBlock::new(sb.name, std::io::Cursor::new(sb.content))
}

#[derive(Clone)]
struct SharedSink(Rc<RefCell<OutputSink>>);

impl std::io::Write for SharedSink {
    fn write(&mut self, buf: &[u8]) -> std::io::Result<usize> {
        self.0.borrow_mut().write_primary(buf);
        Ok(buf.len())
    }

    fn flush(&mut self) -> std::io::Result<()> {
        Ok(())
    }
}

impl std::fmt::Write for SharedSink {
    fn write_str(&mut self, s: &str) -> std::fmt::Result {
        self.0.borrow_mut().write_diagnostic(s);
        Ok(())
    }
}

fn build_frame(cont: &fift::core::RcFiftCont, d: &fift::core::Dictionary) -> Frame {
    Frame {
        dump: format!("{}", cont.display_dump(d)),
        up: cont.up().map(|parent| Box::new(build_frame(parent, d))),
    }
}

fn interpret(input: &str, with_stdlib: bool) -> ExecutionResult {
    let resolver = Resolver::new(NoProvider);
    let sink = Rc::new(RefCell::new(OutputSink::new()));
    let stdlib = stdlib_block(&resolver, with_stdlib).expect("stdlib resolves");
    let mut env = fift::core::env::EmptyEnvironment;
    let mut stdout_w = SharedSink(sink.clone());
    let mut stderr_w = SharedSink(sink.clone());
    let mut ctx = fift::Context::new(&mut env, &mut stdout_w, &mut stderr_w)
        .with_basic_modules()
        .expect("engine construction")
        .with_limits(fift::core::ExecutionLimits {
            max_steps: Some(MAX_STEPS as usize),
            max_include_depth: Some(MAX_NESTING_DEPTH),
        });
    ctx.add_source_block(fift::core::SourceBlock::new(
        "<stdin>",
        std::io::Cursor::new(input.to_string()),
    ));
    if let Some(block) = stdlib {
        ctx.add_source_block(to_engine_block(block));
    }
    let run = ctx.run();
    let outcome = match run {
        Ok(raw_exit) => assemble_success(raw_exit),
        Err(e) => {
            let position: Option<RawPosition> = ctx.input.get_position().and_then(|p| {
                if p.word_start <= p.word_end && p.word_end <= p.line.len() {
                    Some(RawPosition {
                        offset: p.offset,
                        block_name: p.source_block_name.to_string(),
                        line: p.line.to_string(),
                        line_number: p.line_number,
                        word_start: p.word_start,
                        word_end: p.word_end,
                    })
                } else {
                    None
                }
            });
            let innermost = ctx
                .next
                .take()
                .map(|next| build_frame(&next, &ctx.dicts.current));
            assemble_failure(format!("{e:?}"), position, innermost.as_ref())
        }
    };
    drop(ctx);
    let result = finish(&mut sink.borrow_mut(), outcome).expect("captured output is text");
    result
}

#[test]
fn arithmetic_without_stdlib_succeeds() {
    let result = interpret("2 2 + .", false);
    match result.outcome {
        // Running off the end of the source leaves the engine's raw exit
        // value untouched, and the preserved polarity inversion turns it
        // into 255; an explicit clean exit is what reports zero.
        Outcome::Success { exit_code } => assert_eq!(exit_code, 255),
        Outcome::Failure { stderr, .. } => panic!("expected success, got failure: {stderr}"),
    }
    assert!(result.stdout.contains('4'), "stdout was {:?}", result.stdout);
}

#[test]
fn explicit_exit_reports_code_zero() {
    let result = interpret("2 2 + . bye", false);
    match result.outcome {
        Outcome::Success { exit_code } => assert_eq!(exit_code, 0),
        Outcome::Failure { stderr, .. } => panic!("expected success, got failure: {stderr}"),
    }
    assert!(result.stdout.contains('4'));
}

#[test]
fn unresolvable_word_fails_with_position() {
    let result = interpret("2 2 someword-that-does-not-exist", false);
    match result.outcome {
        Outcome::Success { .. } => panic!("expected failure"),
        Outcome::Failure { stderr, position, .. } => {
            assert!(!stderr.is_empty());
            let pos = position.expect("engine exposes a position");
            assert!(pos.word_start < pos.word_end);
        }
    }
}

#[test]
fn run_with_stdlib_preloaded() {
    // The `."` word is defined by the base library, not by the built-in
    // modules: this run only succeeds if the embedded stdlib was preloaded.
    let result = interpret(".\"from the stdlib\"", true);
    match result.outcome {
        Outcome::Success { exit_code: _ } => {}
        Outcome::Failure { stderr, .. } => panic!("expected success, got failure: {stderr}"),
    }
    assert!(result.stdout.contains("from the stdlib"));
}

#[test]
fn stdlib_block_resolves_to_embedded_base_library() {
    let resolver = Resolver::new(NoProvider);
    let block = stdlib_block(&resolver, true)
        .expect("never fails without a provider")
        .expect("requested, so present");
    let expected = fift_libs::base_lib();
    assert_eq!(block.name, expected.name);
    assert_eq!(block.content, expected.content.as_bytes());
    let none = stdlib_block(&resolver, false).expect("never fails without a provider");
    assert!(none.is_none());
}

#[test]
fn diagnostic_ranges_cover_engine_stderr() {
    // A failing run may route diagnostic text through the secondary path;
    // whatever happened, the recorded ranges must be sorted, non-overlapping
    // and bounded by the captured output.
    let result = interpret("\"x\" abort", false);
    let bytes = result.stdout.len();
    let mut prev_end = 0usize;
    for (start, end) in &result.stderr_ranges {
        assert!(prev_end <= *start);
        assert!(start <= end);
        assert!(*end <= bytes);
        prev_end = *end;
    }
    match result.outcome {
        Outcome::Success { .. } => panic!("abort must fail the run"),
        Outcome::Failure { stderr, .. } => assert!(!stderr.is_empty()),
    }
}
