//! The analysis of one crash report: the sections of the written report and
//! the annotated trace of the stack that faulted.

use vstd::prelude::*;
use vstd::string::StringExecFns;
use crate::frame_annotator::{
    asks_for_work, frame_start, frame_step, idle, lemma_frame_makes_progress,
    lemma_frame_waits_for_its_work, steps_left, Action, ActionView, AnalysisError, Event,
    FrameTask, FrameTaskView, Phase,
};
use crate::image_path::names_contain;
use crate::r2pipe_cache::{R2PipeCache, SessionView};
use crate::structs::crash_info::{CrashInfo, Frame, Register, Thread, ThreadState, UsedImage};
use crate::structs::incident_report::IncidentReport;
use crate::text::{
    decimal, decimal_string, field_line, pad_left, prefixed_hex, push_decimal, push_field_line,
    push_padded_left, push_prefixed_hex, push_section_rule, same_text, section_rule, text_or,
};

verus! {

/// A frame with its number in the stack it was recorded in; the innermost
/// frame has number 0.
#[derive(Debug)]
pub struct IndexedFrame {
    pub index: usize,
    pub frame: Frame,
}

/// The frames of one stack in the order in which they are rendered: the last
/// that was recorded first, the innermost last, each with the number it was
/// recorded under.
pub open spec fn reversed(frames: Seq<Frame>) -> Seq<IndexedFrame> {
    Seq::new(
        frames.len(),
        |k: int|
            IndexedFrame {
                index: (frames.len() - 1 - k) as usize,
                frame: frames[frames.len() - 1 - k],
            },
    )
}

/// Whether the thread is marked as the one that faulted.
pub open spec fn faulted(thread: Thread) -> bool {
    thread.triggered == Some(true)
}

/// The frames to render of the first `upto` threads: those of the threads
/// that faulted, thread by thread.
pub open spec fn faulting_frames(threads: Seq<Thread>, upto: nat) -> Seq<IndexedFrame>
    decreases upto,
{
    if upto == 0 {
        Seq::empty()
    } else {
        let thread = threads[upto - 1];
        faulting_frames(threads, (upto - 1) as nat) + (if faulted(thread) {
            reversed(thread.frames@)
        } else {
            Seq::empty()
        })
    }
}

/// The frames of the stack trace in the order in which they are rendered:
/// those of the backtrace of the last exception where the report has one,
/// else those of the threads that faulted.
pub open spec fn render_order(crash: CrashInfo) -> Seq<IndexedFrame> {
    match crash.last_exception_backtrace {
        Some(backtrace) => reversed(backtrace@),
        None => faulting_frames(crash.threads@, crash.threads@.len()),
    }
}

/// Frames are rendered in the reverse of the order in which they were
/// recorded: the frame rendered at place `k` of `n` is the one recorded at
/// place `n - 1 - k`, under that number.
pub proof fn lemma_rendered_in_reverse(frames: Seq<Frame>)
    requires
        frames.len() <= usize::MAX,
    ensures
        reversed(frames).len() == frames.len(),
        reversed(frames).map_values(|f: IndexedFrame| f.frame) == frames.reverse(),
        forall|k: int|
            0 <= k < frames.len() ==> (#[trigger] reversed(frames)[k]).index == frames.len() - 1
                - k,
{
    assert(reversed(frames).map_values(|f: IndexedFrame| f.frame) =~= frames.reverse());
}

/// The heading of the stack trace.
pub const TRACE_HEADING: &'static str = "STACK TRACE\n\n";

/// The stack trace in progress: the frames to render, how many of them are
/// done, the text so far, and the frame that is being annotated.
#[derive(Debug)]
pub struct StackTrace {
    frames: Vec<IndexedFrame>,
    position: usize,
    text: String,
    task: FrameTask,
}

/// A `StackTrace` as plain values.
pub ghost struct StackTraceView {
    pub frames: Seq<IndexedFrame>,
    pub position: int,
    pub text: Seq<char>,
    pub task: FrameTaskView,
}

impl View for StackTrace {
    type V = StackTraceView;

    closed spec fn view(&self) -> StackTraceView {
        StackTraceView {
            frames: self.frames@,
            position: self.position as int,
            text: self.text@,
            task: self.task@,
        }
    }
}

/// What the frames are annotated against: the images of the process, its
/// name, whether it is first-party software, and the names of the images
/// that are never disassembled.
pub ghost struct TraceContext {
    pub images: Seq<UsedImage>,
    pub proc_name: Seq<char>,
    pub first_party: bool,
    pub filtered: Seq<String>,
}

/// A trace that has come to its end.
pub open spec fn ended(trace: StackTraceView) -> StackTraceView {
    StackTraceView { position: trace.frames.len() as int, task: idle(), ..trace }
}

/// The trace from frame `position` on, with `text` rendered so far. Frames
/// are started in order. The text of each frame that is finished is added
/// to the text so far, and the next frame is started, until a frame asks for
/// outside work, or the input cannot be analysed, or no frame is left: then
/// the whole text is finished.
pub open spec fn trace_from(
    context: TraceContext,
    frames: Seq<IndexedFrame>,
    position: int,
    text: Seq<char>,
) -> (StackTraceView, ActionView)
    decreases frames.len() - position,
{
    let trace = StackTraceView { frames, position, text, task: idle() };
    if position < 0 || position >= frames.len() {
        (ended(trace), ActionView::Finish { text })
    } else {
        let start = frame_start(
            context.images,
            context.proc_name,
            context.first_party,
            context.filtered,
            frames[position].index,
            frames[position].frame,
        );
        match start.1 {
            ActionView::Finish { text: block } => trace_from(
                context,
                frames,
                position + 1,
                text + block,
            ),
            ActionView::Abort { error } => (ended(trace), start.1),
            _ => (StackTraceView { task: start.0, ..trace }, start.1),
        }
    }
}

/// One step of the trace: the frame in progress takes the event. When that
/// finishes the frame, its text is added and the trace goes on with the next
/// frame.
pub open spec fn trace_step(
    context: TraceContext,
    trace: StackTraceView,
    event: Event,
    sessions: Seq<SessionView>,
) -> (StackTraceView, Seq<SessionView>, ActionView) {
    let next = frame_step(trace.task, event, sessions);
    match next.2 {
        ActionView::Finish { text: block } => {
            let rest = trace_from(context, trace.frames, trace.position + 1, trace.text + block);
            (rest.0, next.1, rest.1)
        },
        ActionView::Abort { error } => (ended(trace), next.1, next.2),
        _ => (StackTraceView { task: next.0, ..trace }, next.1, next.2),
    }
}

/// What is rendered stays rendered: the text of a trace that goes on from
/// `text` begins with `text`, and the text that a finished trace hands out
/// is the text that it holds.
pub proof fn lemma_trace_keeps_text(
    context: TraceContext,
    frames: Seq<IndexedFrame>,
    position: int,
    text: Seq<char>,
)
    ensures
        text.is_prefix_of(trace_from(context, frames, position, text).0.text),
        trace_from(context, frames, position, text).1 matches ActionView::Finish { text: whole }
            ==> whole == trace_from(context, frames, position, text).0.text,
    decreases frames.len() - position,
{
    if 0 <= position < frames.len() {
        let start = frame_start(
            context.images,
            context.proc_name,
            context.first_party,
            context.filtered,
            frames[position].index,
            frames[position].frame,
        );
        match start.1 {
            ActionView::Finish { text: block } => {
                lemma_trace_keeps_text(context, frames, position + 1, text + block);
                let end = trace_from(context, frames, position + 1, text + block).0.text;
                assert(end.subrange(0, text.len() as int) =~= (text + block).subrange(
                    0,
                    text.len() as int,
                ));
            },
            _ => {},
        }
    }
}

/// A step of the trace keeps the text that was rendered before it.
pub proof fn lemma_step_keeps_text(
    context: TraceContext,
    trace: StackTraceView,
    event: Event,
    sessions: Seq<SessionView>,
)
    ensures
        trace.text.is_prefix_of(trace_step(context, trace, event, sessions).0.text),
{
    match frame_step(trace.task, event, sessions).2 {
        ActionView::Finish { text: block } => {
            lemma_trace_keeps_text(context, trace.frames, trace.position + 1, trace.text + block);
            let end = trace_step(context, trace, event, sessions).0.text;
            assert(end.subrange(0, trace.text.len() as int) =~= (trace.text + block).subrange(
                0,
                trace.text.len() as int,
            ));
        },
        _ => {},
    }
}

/// How many actions a trace can still hand out: for the frame in progress
/// what it can still wait for, and for each frame behind it its start and
/// all it can wait for.
pub open spec fn work_left(trace: StackTraceView) -> int {
    if 0 <= trace.position < trace.frames.len() {
        (trace.frames.len() - trace.position - 1) * 6 + steps_left(trace.task.phase)
    } else {
        0
    }
}

/// A trace that starts its frames at `position` has used up the start of
/// the first of them.
pub proof fn lemma_trace_start_makes_progress(
    context: TraceContext,
    frames: Seq<IndexedFrame>,
    position: int,
    text: Seq<char>,
)
    requires
        0 <= position,
    ensures
        work_left(trace_from(context, frames, position, text).0) <= (frames.len() - position) * 6
            - 1 || work_left(trace_from(context, frames, position, text).0) == 0,
    decreases frames.len() - position,
{
    if position < frames.len() {
        let start = frame_start(
            context.images,
            context.proc_name,
            context.first_party,
            context.filtered,
            frames[position].index,
            frames[position].frame,
        );
        match start.1 {
            ActionView::Finish { text: block } => {
                lemma_trace_start_makes_progress(context, frames, position + 1, text + block);
            },
            _ => {},
        }
    }
}

/// A trace that asks for outside work is in progress: one of its frames
/// waits for the answer.
pub proof fn lemma_trace_waits_for_its_work(
    context: TraceContext,
    frames: Seq<IndexedFrame>,
    position: int,
    text: Seq<char>,
)
    requires
        0 <= position,
    ensures
        asks_for_work(trace_from(context, frames, position, text).1) ==> {
            let trace = trace_from(context, frames, position, text).0;
            0 <= trace.position < trace.frames.len() && trace.task.phase != Phase::Finished
        },
    decreases frames.len() - position,
{
    if position < frames.len() {
        let start = frame_start(
            context.images,
            context.proc_name,
            context.first_party,
            context.filtered,
            frames[position].index,
            frames[position].frame,
        );
        match start.1 {
            ActionView::Finish { text: block } => {
                lemma_trace_waits_for_its_work(context, frames, position + 1, text + block);
            },
            _ => {},
        }
    }
}

/// A step that asks for outside work leaves the trace in progress.
pub proof fn lemma_step_waits_for_its_work(
    context: TraceContext,
    trace: StackTraceView,
    event: Event,
    sessions: Seq<SessionView>,
)
    requires
        0 <= trace.position < trace.frames.len(),
    ensures
        asks_for_work(trace_step(context, trace, event, sessions).2) ==> {
            let next = trace_step(context, trace, event, sessions).0;
            0 <= next.position < next.frames.len() && next.task.phase != Phase::Finished
        },
{
    lemma_frame_waits_for_its_work(trace.task, event, sessions);
    match frame_step(trace.task, event, sessions).2 {
        ActionView::Finish { text: block } => {
            lemma_trace_waits_for_its_work(
                context,
                trace.frames,
                trace.position + 1,
                trace.text + block,
            );
        },
        _ => {},
    }
}

/// The run always comes to its end: whatever the event, a step leaves a
/// trace in progress with less work than it had. A trace of `n` frames is
/// finished after at most `6 * n` actions.
pub proof fn lemma_trace_makes_progress(
    context: TraceContext,
    trace: StackTraceView,
    event: Event,
    sessions: Seq<SessionView>,
)
    requires
        0 <= trace.position < trace.frames.len(),
        trace.task.phase != Phase::Finished,
    ensures
        0 <= work_left(trace_step(context, trace, event, sessions).0) < work_left(trace),
{
    lemma_frame_makes_progress(trace.task, event, sessions);
    match frame_step(trace.task, event, sessions).2 {
        ActionView::Finish { text: block } => {
            lemma_trace_start_makes_progress(
                context,
                trace.frames,
                trace.position + 1,
                trace.text + block,
            );
        },
        _ => {},
    }
}

/// The names of the images that are not worth disassembling, unless others
/// are given.
pub open spec fn default_filter() -> Seq<Seq<char>> {
    seq!["UIKitCore"@, "libdispatch.dylib"@, "CoreFoundation"@, "CFNetwork"@]
}

/// The usual filter holds the four large system frameworks: an analysis
/// that was made without a filter of its own disassembles none of them.
pub proof fn lemma_default_filter_names(filtered: Vec<String>)
    requires
        filtered.deep_view() == default_filter(),
    ensures
        names_contain(filtered@, "UIKitCore"@),
        names_contain(filtered@, "libdispatch.dylib"@),
        names_contain(filtered@, "CoreFoundation"@),
        names_contain(filtered@, "CFNetwork"@),
{
    assert(default_filter().len() == 4);
    assert(filtered.deep_view().len() == filtered@.len());
    assert(filtered.deep_view()[0] == filtered@[0]@);
    assert(filtered.deep_view()[1] == filtered@[1]@);
    assert(filtered.deep_view()[2] == filtered@[2]@);
    assert(filtered.deep_view()[3] == filtered@[3]@);
}

/// The section on the process and the system it ran on.
pub open spec fn general_info_text(general: IncidentReport, crash: CrashInfo) -> Seq<char> {
    "GENERAL INFO\n\n"@ + field_line(15, "Name:"@, general.name@) + field_line(
        15,
        "App Name:"@,
        general.app_name@,
    ) + field_line(15, "Bundle ID:"@, text_or(crash.coalition_name, ""@)) + field_line(
        15,
        "Version:"@,
        general.app_version@,
    ) + field_line(15, "OS Version:"@, general.os_version@) + field_line(
        15,
        "Timestamp:"@,
        general.timestamp@,
    ) + field_line(15, "OS build:"@, crash.os_version.build@) + field_line(
        15,
        "OS model:"@,
        crash.model_code@,
    ) + field_line(15, "CPU:"@, crash.cpu_type@) + field_line(
        15,
        "User ID:"@,
        decimal(crash.user_id as nat),
    ) + field_line(15, "Proc Path:"@, crash.proc_path@) + field_line(
        15,
        "Parent Proc:"@,
        crash.parent_proc@,
    ) + field_line(15, "Parent PID:"@, decimal(crash.parent_pid as nat)) + section_rule()
}

/// The line on how the process was ended, where the report says so.
pub open spec fn termination_line(crash: CrashInfo) -> Seq<char> {
    match crash.termination {
        Some(termination) => field_line(
            20,
            "Termination:"@,
            text_or(termination.indicator, "None"@),
        ),
        None => Seq::empty(),
    }
}

/// The section on the exception.
pub open spec fn exception_info_text(crash: CrashInfo) -> Seq<char> {
    "EXCEPTION INFO\n\n"@ + field_line(20, "Exception type:"@, crash.exception.exception_type@)
        + field_line(20, "Exception subtype:"@, text_or(crash.exception.subtype, "None"@))
        + field_line(20, "Exception signal:"@, crash.exception.signal@) + field_line(
        20,
        "Exception codes:"@,
        crash.exception.codes@,
    ) + termination_line(crash) + section_rule()
}

/// What a register points at, right-aligned in 50 characters: the selector
/// where there is one, else the symbol, else nothing.
pub open spec fn register_target(register: Register) -> Seq<char> {
    match register.objc_selector {
        Some(selector) => pad_left(selector@, 50),
        None => match register.symbol {
            Some(symbol) => pad_left(symbol@, 50),
            None => Seq::empty(),
        },
    }
}

/// The line of general-purpose register `number`.
pub open spec fn register_line(number: nat, register: Register) -> Seq<char> {
    "x"@ + decimal(number) + ": "@ + prefixed_hex(register.value as nat) + register_target(
        register,
    ) + "\n"@
}

/// The lines of the first `upto` general-purpose registers.
pub open spec fn register_lines(registers: Seq<Register>, upto: nat) -> Seq<char>
    decreases upto,
{
    if upto == 0 {
        Seq::empty()
    } else {
        register_lines(registers, (upto - 1) as nat) + register_line(
            (upto - 1) as nat,
            registers[upto - 1],
        )
    }
}

/// The line of a register that has a name.
pub open spec fn named_register_line(name: Seq<char>, value: u64) -> Seq<char> {
    name + ": "@ + prefixed_hex(value as nat) + "\n"@
}

/// The registers of one thread.
pub open spec fn thread_state_text(state: ThreadState) -> Seq<char> {
    register_lines(state.x@, state.x@.len()) + named_register_line("pc"@, state.pc.value)
        + named_register_line("sp"@, state.sp.value) + named_register_line("fp"@, state.fp.value)
        + named_register_line("esr"@, state.esr.value) + named_register_line(
        "lr"@,
        state.lr.value,
    ) + named_register_line("cpsr"@, state.cpsr.value) + named_register_line(
        "far"@,
        state.far.value,
    ) + "flavor: "@ + state.flavor@ + "\n"@
}

/// The registers of those of the first `upto` threads that faulted; `None`
/// where one of them has no registers recorded.
pub open spec fn faulting_registers(threads: Seq<Thread>, upto: nat) -> Option<Seq<char>>
    decreases upto,
{
    if upto == 0 {
        Some(Seq::empty())
    } else {
        let thread = threads[upto - 1];
        match faulting_registers(threads, (upto - 1) as nat) {
            Some(before) => if faulted(thread) {
                match thread.thread_state {
                    Some(state) => Some(before + thread_state_text(state)),
                    None => None,
                }
            } else {
                Some(before)
            },
            None => None,
        }
    }
}

/// The section on the registers. Reports of the CPU type `X86-64` have no
/// registers to show.
pub open spec fn registers_text(crash: CrashInfo) -> Result<Seq<char>, AnalysisError> {
    if crash.cpu_type@ == "X86-64"@ {
        Ok("REGISTERS\n\n"@ + section_rule())
    } else {
        match faulting_registers(crash.threads@, crash.threads@.len()) {
            Some(registers) => Ok("REGISTERS\n\n"@ + registers + section_rule()),
            None => Err(AnalysisError::MissingThreadState),
        }
    }
}

/// A copy of `frame`.
pub fn copy_frame(frame: &Frame) -> (copy: Frame)
    ensures
        copy == *frame,
{
    let symbol = match &frame.symbol {
        Some(s) => Some(s.clone()),
        None => None,
    };
    Frame {
        image_offset: frame.image_offset,
        symbol,
        symbol_location: frame.symbol_location,
        image_index: frame.image_index,
    }
}

/// Appends the frames of one stack to `order`, in the order in which they
/// are rendered.
fn push_reversed(order: &mut Vec<IndexedFrame>, frames: &Vec<Frame>)
    ensures
        final(order)@ == old(order)@ + reversed(frames@),
{
    let count = frames.len();
    let mut done: usize = 0;
    while done < count
        invariant
            done <= count,
            count == frames@.len(),
            order@ == old(order)@ + reversed(frames@).take(done as int),
        decreases count - done,
    {
        let index = count - 1 - done;
        order.push(IndexedFrame { index, frame: copy_frame(&frames[index]) });
        assert(order@ =~= old(order)@ + reversed(frames@).take(done + 1));
        done += 1;
    }
    assert(reversed(frames@).take(count as int) =~= reversed(frames@));
}

/// Appends the line of a register that has a name to `out`.
fn push_named_register(out: &mut String, name: &str, value: u64)
    ensures
        final(out)@ == old(out)@ + named_register_line(name@, value),
{
    out.append(name);
    out.append(": ");
    push_prefixed_hex(out, value);
    out.append("\n");
    assert(out@ =~= old(out)@ + named_register_line(name@, value));
}

/// Appends the line of general-purpose register `number` to `out`.
fn push_register_line(out: &mut String, number: usize, register: &Register)
    ensures
        final(out)@ == old(out)@ + register_line(number as nat, *register),
{
    out.append("x");
    push_decimal(out, number as u64);
    out.append(": ");
    push_prefixed_hex(out, register.value);
    match &register.objc_selector {
        Some(selector) => {
            push_padded_left(out, selector.as_str(), 50);
        },
        None => match &register.symbol {
            Some(symbol) => {
                push_padded_left(out, symbol.as_str(), 50);
            },
            None => {},
        },
    }
    out.append("\n");
    assert(out@ =~= old(out)@ + register_line(number as nat, *register));
}

/// Appends the registers of one thread to `out`.
fn push_thread_state(out: &mut String, state: &ThreadState)
    ensures
        final(out)@ == old(out)@ + thread_state_text(*state),
{
    let mut i: usize = 0;
    while i < state.x.len()
        invariant
            i <= state.x.len(),
            out@ == old(out)@ + register_lines(state.x@, i as nat),
        decreases state.x.len() - i,
    {
        push_register_line(out, i, &state.x[i]);
        assert(out@ =~= old(out)@ + register_lines(state.x@, (i + 1) as nat));
        i += 1;
    }
    push_named_register(out, "pc", state.pc.value);
    push_named_register(out, "sp", state.sp.value);
    push_named_register(out, "fp", state.fp.value);
    push_named_register(out, "esr", state.esr.value);
    push_named_register(out, "lr", state.lr.value);
    push_named_register(out, "cpsr", state.cpsr.value);
    push_named_register(out, "far", state.far.value);
    out.append("flavor: ");
    out.append(state.flavor.as_str());
    out.append("\n");
    assert(out@ =~= old(out)@ + thread_state_text(*state));
}

/// The analysis of one crash report: the two records of the report, the
/// sessions of the backend, and the names of the images that are never
/// disassembled.
pub struct CrashLogAnalyzer {
    pub general_info: IncidentReport,
    pub crash_info: CrashInfo,
    pub r2_cache: R2PipeCache,
    pub filtered_dylibs: Vec<String>,
}

impl CrashLogAnalyzer {
    /// What the frames of this report are annotated against.
    pub open spec fn context(&self) -> TraceContext {
        TraceContext {
            images: self.crash_info.used_images@,
            proc_name: self.crash_info.proc_name@,
            first_party: self.general_info.is_first_party == 1,
            filtered: self.filtered_dylibs@,
        }
    }

    /// An analysis of the report that the two records make up, without
    /// sessions, which disassembles no image of the usual large system
    /// frameworks.
    pub fn new(general_info: IncidentReport, crash_info: CrashInfo) -> (analyzer: CrashLogAnalyzer)
        ensures
            analyzer.general_info == general_info,
            analyzer.crash_info == crash_info,
            analyzer.r2_cache@ == Seq::<SessionView>::empty(),
            analyzer.filtered_dylibs.deep_view() == default_filter(),
    {
        let mut filtered: Vec<String> = Vec::new();
        filtered.push(String::from_str("UIKitCore"));
        filtered.push(String::from_str("libdispatch.dylib"));
        filtered.push(String::from_str("CoreFoundation"));
        filtered.push(String::from_str("CFNetwork"));
        assert(filtered.deep_view() =~= default_filter());
        CrashLogAnalyzer::with_filter(general_info, crash_info, filtered)
    }

    /// An analysis of the report that the two records make up, without
    /// sessions, which disassembles no image named in `filtered_dylibs`.
    pub fn with_filter(
        general_info: IncidentReport,
        crash_info: CrashInfo,
        filtered_dylibs: Vec<String>,
    ) -> (analyzer: CrashLogAnalyzer)
        ensures
            analyzer.general_info == general_info,
            analyzer.crash_info == crash_info,
            analyzer.r2_cache@ == Seq::<SessionView>::empty(),
            analyzer.filtered_dylibs == filtered_dylibs,
    {
        CrashLogAnalyzer { general_info, crash_info, r2_cache: R2PipeCache::new(), filtered_dylibs }
    }

    /// The section on the process and the system it ran on.
    pub fn parse_general_info(&self) -> (text: String)
        ensures
            text@ == general_info_text(self.general_info, self.crash_info),
    {
        let general = &self.general_info;
        let crash = &self.crash_info;
        let mut res = String::new();
        res.append("GENERAL INFO\n\n");
        push_field_line(&mut res, 15, "Name:", general.name.as_str());
        push_field_line(&mut res, 15, "App Name:", general.app_name.as_str());
        match &crash.coalition_name {
            Some(bundle) => push_field_line(&mut res, 15, "Bundle ID:", bundle.as_str()),
            None => push_field_line(&mut res, 15, "Bundle ID:", ""),
        }
        push_field_line(&mut res, 15, "Version:", general.app_version.as_str());
        push_field_line(&mut res, 15, "OS Version:", general.os_version.as_str());
        push_field_line(&mut res, 15, "Timestamp:", general.timestamp.as_str());
        push_field_line(&mut res, 15, "OS build:", crash.os_version.build.as_str());
        push_field_line(&mut res, 15, "OS model:", crash.model_code.as_str());
        push_field_line(&mut res, 15, "CPU:", crash.cpu_type.as_str());
        let user = decimal_string(crash.user_id as u64);
        push_field_line(&mut res, 15, "User ID:", user.as_str());
        push_field_line(&mut res, 15, "Proc Path:", crash.proc_path.as_str());
        push_field_line(&mut res, 15, "Parent Proc:", crash.parent_proc.as_str());
        let parent = decimal_string(crash.parent_pid as u64);
        push_field_line(&mut res, 15, "Parent PID:", parent.as_str());
        push_section_rule(&mut res);
        assert(res@ =~= general_info_text(self.general_info, self.crash_info));
        res
    }

    /// The section on the exception.
    pub fn parse_exception_info(&self) -> (text: String)
        ensures
            text@ == exception_info_text(self.crash_info),
    {
        let exception = &self.crash_info.exception;
        let mut res = String::new();
        res.append("EXCEPTION INFO\n\n");
        push_field_line(&mut res, 20, "Exception type:", exception.exception_type.as_str());
        match &exception.subtype {
            Some(subtype) => push_field_line(&mut res, 20, "Exception subtype:", subtype.as_str()),
            None => push_field_line(&mut res, 20, "Exception subtype:", "None"),
        }
        push_field_line(&mut res, 20, "Exception signal:", exception.signal.as_str());
        push_field_line(&mut res, 20, "Exception codes:", exception.codes.as_str());
        match &self.crash_info.termination {
            Some(termination) => match &termination.indicator {
                Some(indicator) => push_field_line(&mut res, 20, "Termination:", indicator.as_str()),
                None => push_field_line(&mut res, 20, "Termination:", "None"),
            },
            None => {},
        }
        assert(res@ =~= "EXCEPTION INFO\n\n"@ + field_line(
            20,
            "Exception type:"@,
            exception.exception_type@,
        ) + field_line(20, "Exception subtype:"@, text_or(exception.subtype, "None"@))
            + field_line(20, "Exception signal:"@, exception.signal@) + field_line(
            20,
            "Exception codes:"@,
            exception.codes@,
        ) + termination_line(self.crash_info));
        push_section_rule(&mut res);
        assert(res@ =~= exception_info_text(self.crash_info));
        res
    }

    /// The section on the registers of the threads that faulted. Fails where
    /// such a thread has no registers recorded.
    pub fn parse_registers(&self) -> (r: Result<String, AnalysisError>)
        ensures
            match r {
                Ok(text) => registers_text(self.crash_info) == Ok::<Seq<char>, AnalysisError>(text@),
                Err(error) => registers_text(self.crash_info) == Err::<Seq<char>, AnalysisError>(
                    error,
                ),
            },
    {
        let mut res = String::new();
        res.append("REGISTERS\n\n");
        if !same_text(self.crash_info.cpu_type.as_str(), "X86-64") {
            let threads = &self.crash_info.threads;
            let ghost heading = res@;
            let mut t: usize = 0;
            while t < threads.len()
                invariant
                    t <= threads.len(),
                    threads == &self.crash_info.threads,
                    self.crash_info.cpu_type@ != "X86-64"@,
                    faulting_registers(threads@, t as nat) is Some,
                    res@ == heading + faulting_registers(threads@, t as nat).unwrap(),
                decreases threads.len() - t,
            {
                let thread = &threads[t];
                let flagged = match thread.triggered {
                    Some(flag) => flag,
                    None => false,
                };
                if flagged {
                    match &thread.thread_state {
                        Some(state) => {
                            push_thread_state(&mut res, state);
                        },
                        None => {
                            proof {
                                lemma_missing_state_stays_missing(
                                    threads@,
                                    (t + 1) as nat,
                                    threads@.len(),
                                );
                            }
                            return Err(AnalysisError::MissingThreadState);
                        },
                    }
                }
                assert(res@ =~= heading + faulting_registers(threads@, (t + 1) as nat).unwrap());
                t += 1;
            }
        }
        push_section_rule(&mut res);
        assert(registers_text(self.crash_info) == Ok::<Seq<char>, AnalysisError>(res@)) by {
            if self.crash_info.cpu_type@ == "X86-64"@ {
                assert(res@ =~= "REGISTERS\n\n"@ + section_rule());
            } else {
                assert(res@ =~= "REGISTERS\n\n"@ + faulting_registers(
                    self.crash_info.threads@,
                    self.crash_info.threads@.len(),
                ).unwrap() + section_rule());
            }
        }
        Ok(res)
    }

    /// The frames of the stack trace in the order in which they are
    /// rendered.
    pub fn faulting_frames(&self) -> (order: Vec<IndexedFrame>)
        ensures
            order@ == render_order(self.crash_info),
    {
        let mut order: Vec<IndexedFrame> = Vec::new();
        match &self.crash_info.last_exception_backtrace {
            Some(backtrace) => {
                push_reversed(&mut order, backtrace);
                assert(order@ =~= reversed(backtrace@));
            },
            None => {
                let threads = &self.crash_info.threads;
                let mut t: usize = 0;
                while t < threads.len()
                    invariant
                        t <= threads.len(),
                        order@ == faulting_frames(threads@, t as nat),
                    decreases threads.len() - t,
                {
                    let thread = &threads[t];
                    let flagged = match thread.triggered {
                        Some(flag) => flag,
                        None => false,
                    };
                    if flagged {
                        push_reversed(&mut order, &thread.frames);
                    }
                    assert(order@ =~= faulting_frames(threads@, (t + 1) as nat));
                    t += 1;
                }
            },
        }
        order
    }

    /// Goes on with the trace from its frame `position` on.
    fn run_frames(&self, frames: Vec<IndexedFrame>, position: usize, text: String) -> (next: (
        StackTrace,
        Action,
    ))
        ensures
            (next.0@, next.1@) == trace_from(self.context(), frames@, position as int, text@),
    {
        let ghost goal = trace_from(self.context(), frames@, position as int, text@);
        let mut at = position;
        let mut so_far = text;
        while at < frames.len()
            invariant
                goal == trace_from(self.context(), frames@, position as int, text@),
                trace_from(self.context(), frames@, at as int, so_far@) == goal,
            ensures
                at >= frames.len(),
                goal == trace_from(self.context(), frames@, position as int, text@),
                trace_from(self.context(), frames@, at as int, so_far@) == goal,
            decreases frames.len() - at,
        {
            let (task, action) = FrameTask::begin(
                &self.crash_info.used_images,
                self.crash_info.proc_name.as_str(),
                self.general_info.is_first_party == 1,
                &self.filtered_dylibs,
                frames[at].index,
                &frames[at].frame,
            );
            match action {
                Action::Finish { text: block } => {
                    so_far.append(block.as_str());
                    at += 1;
                },
                Action::Abort { error } => {
                    let end = frames.len();
                    return (
                        StackTrace {
                            frames,
                            position: end,
                            text: so_far,
                            task: FrameTask::finished(),
                        },
                        Action::Abort { error },
                    );
                },
                other => {
                    return (StackTrace { frames, position: at, text: so_far, task }, other);
                },
            }
        }
        let end = frames.len();
        let whole = so_far.clone();
        (
            StackTrace { frames, position: end, text: so_far, task: FrameTask::finished() },
            Action::Finish { text: whole },
        )
    }

    /// Starts the trace of the stack that faulted: the backtrace of the last
    /// exception where the report has one, else the stacks of the threads
    /// that faulted. Returns the trace in progress and what to do first.
    pub fn analyze_faulting_thread(&mut self) -> (next: (StackTrace, Action))
        ensures
            *final(self) == *old(self),
            (next.0@, next.1@) == trace_from(
                old(self).context(),
                render_order(old(self).crash_info),
                0,
                TRACE_HEADING@,
            ),
    {
        let frames = self.faulting_frames();
        let mut text = String::new();
        text.append(TRACE_HEADING);
        assert(text@ =~= TRACE_HEADING@);
        self.run_frames(frames, 0, text)
    }

    /// Takes the outcome of the last action of `trace` and says what to do
    /// next.
    pub fn resume(&mut self, trace: StackTrace, event: Event) -> (next: (StackTrace, Action))
        ensures
            final(self).general_info == old(self).general_info,
            final(self).crash_info == old(self).crash_info,
            final(self).filtered_dylibs == old(self).filtered_dylibs,
            (next.0@, final(self).r2_cache@, next.1@) == trace_step(
                old(self).context(),
                trace@,
                event,
                old(self).r2_cache@,
            ),
    {
        let StackTrace { frames, position, text, task } = trace;
        let (task, action) = task.step(event, &mut self.r2_cache);
        match action {
            Action::Finish { text: block } => {
                let mut text = text;
                text.append(block.as_str());
                if position < frames.len() {
                    self.run_frames(frames, position + 1, text)
                } else {
                    let end = frames.len();
                    let whole = text.clone();
                    (
                        StackTrace { frames, position: end, text, task: FrameTask::finished() },
                        Action::Finish { text: whole },
                    )
                }
            },
            Action::Abort { error } => {
                let end = frames.len();
                (
                    StackTrace { frames, position: end, text, task: FrameTask::finished() },
                    Action::Abort { error },
                )
            },
            other => (StackTrace { frames, position, text, task }, other),
        }
    }
}

/// Once a thread that faulted lacks its registers, no later thread brings
/// them back.
proof fn lemma_missing_state_stays_missing(threads: Seq<Thread>, from: nat, upto: nat)
    requires
        from <= upto,
        faulting_registers(threads, from) is None,
    ensures
        faulting_registers(threads, upto) is None,
    decreases upto - from,
{
    if from < upto {
        lemma_missing_state_stays_missing(threads, from, (upto - 1) as nat);
    }
}

} // verus!
