//! The annotation of one stack frame. The annotator decides; whoever drives
//! it does the outside work. It hands out one `Action` at a time (look
//! whether a file is there, open a session of the backend, run commands in
//! one) and takes the outcome back as an `Event`, until the frame's text is
//! finished.

use vstd::prelude::*;
use vstd::string::StringExecFns;
use crate::aslr::{aslr_translate, translatable};
use crate::image_path::{binary_path, binary_path_text, is_filtered, names_contain};
use crate::r2pipe_cache::{
    lookup_of, sessions_after_discard, sessions_after_lookup, sessions_after_ready, R2PipeCache,
    SessionLookup, SessionView,
};
use crate::structs::crash_info::{Frame, UsedImage};
use crate::symbol_query::{
    pattern_accepted, pattern_captures, query_view, symbol_query, symbol_query_of, SymbolError,
    OBJC_METHOD,
};
use crate::text::{
    blank, contains, contains_text, decimal, decimal_string, hex_string, is_blank, pad_right,
    prefixed_hex, push_decimal, push_padded_right, push_prefixed_hex, upper_hex,
};

verus! {

/// The command that makes the backend analyse the whole binary.
pub const ANALYSIS_COMMAND: &'static str = "aaa";

/// The command that lists the sections of the binary as JSON.
pub const SECTIONS_COMMAND: &'static str = "iSSj";

/// The field of a section that holds its address in the file's own address
/// space.
pub const ADDRESS_FIELD: &'static str = "vaddr";

/// What stands in the place of the name of an image that has none.
pub const UNKNOWN_IMAGE: &'static str = "???";

/// What marks a recorded symbol as a bare `base + offset`.
pub const RAW_ADDRESS_MARK: &'static str = " + ";

/// Why an analysis cannot go on. Each of these ends the run.
#[derive(Debug, Clone, Copy, PartialEq, Eq, Structural)]
pub enum AnalysisError {
    /// A frame names an image that the report does not list.
    ImageIndexOutOfRange,
    /// The path of a binary has no file name to keep its session under.
    NoFileName,
    /// The pattern of a method name was not accepted by the pattern engine.
    PatternRejected,
    /// A thread that faulted has no registers recorded.
    MissingThreadState,
    /// An event came that answers no action that was handed out.
    UnexpectedEvent,
}

/// What the driver is to do next.
#[derive(Debug, PartialEq, Eq)]
pub enum Action {
    /// Look whether a file is at `path`; answer with `Event::PathProbed`.
    ProbePath { path: String },
    /// Open a session of the backend on the binary at `path`, run `analysis`
    /// in it and keep it under the number `session`; answer with
    /// `Event::SessionOpened`, or with `Event::BackendFailed`.
    OpenSession { session: usize, path: String, analysis: String },
    /// Run `commands`, in order, in session `session`; answer with the output
    /// of the last in `Event::Reply`, or with `Event::BackendFailed`.
    Run { session: usize, commands: Vec<String> },
    /// Nothing more: `text` is finished.
    Finish { text: String },
    /// Nothing more: the input cannot be analysed.
    Abort { error: AnalysisError },
}

/// An `Action` as plain values.
pub ghost enum ActionView {
    ProbePath { path: Seq<char> },
    OpenSession { session: usize, path: Seq<char>, analysis: Seq<char> },
    Run { session: usize, commands: Seq<Seq<char>> },
    Finish { text: Seq<char> },
    Abort { error: AnalysisError },
}

impl View for Action {
    type V = ActionView;

    open spec fn view(&self) -> ActionView {
        match self {
            Action::ProbePath { path } => ActionView::ProbePath { path: path@ },
            Action::OpenSession { session, path, analysis } => ActionView::OpenSession {
                session: *session,
                path: path@,
                analysis: analysis@,
            },
            Action::Run { session, commands } => ActionView::Run {
                session: *session,
                commands: commands.deep_view(),
            },
            Action::Finish { text } => ActionView::Finish { text: text@ },
            Action::Abort { error } => ActionView::Abort { error: *error },
        }
    }
}

/// What came of the last action.
#[derive(Debug, PartialEq, Eq)]
pub enum Event {
    /// Whether a file is at the path that was to be probed.
    PathProbed { exists: bool },
    /// The session is open and its binary analysed.
    SessionOpened,
    /// The output of the last command that was to be run.
    Reply { text: String },
    /// The backend could not do what was asked.
    BackendFailed,
}

/// How far the annotation of a frame has come: which answer it waits for.
#[derive(Debug, Clone, Copy, PartialEq, Eq, Structural)]
pub enum Phase {
    /// Waits to hear whether the binary is on disk.
    Probing,
    /// Waits for the session to be opened.
    Opening,
    /// Waits for the sections of the binary.
    StaticBase,
    /// Waits for the address of the symbol.
    SymbolAddress,
    /// Waits for the listing of the function around an address.
    FunctionListing,
    /// Waits for the listing of a number of bytes.
    BytesListing,
    /// Waits for nothing.
    Finished,
}

/// The annotation of one frame in progress.
#[derive(Debug)]
pub struct FrameTask {
    phase: Phase,
    index: usize,
    image_base: u64,
    image_offset: u64,
    symbol_location: Option<u32>,
    symbol: String,
    header: String,
    path: String,
    session: usize,
}

/// A `FrameTask` as plain values: the phase; the number of the frame, the
/// base of its image in the process, its offset and the place of the program
/// counter in its symbol; the symbol as it is shown; the header lines; the
/// path of the binary and the number of its session.
pub ghost struct FrameTaskView {
    pub phase: Phase,
    pub index: usize,
    pub image_base: u64,
    pub image_offset: u64,
    pub symbol_location: Option<u32>,
    pub symbol: Seq<char>,
    pub header: Seq<char>,
    pub path: Seq<char>,
    pub session: usize,
}

impl View for FrameTask {
    type V = FrameTaskView;

    closed spec fn view(&self) -> FrameTaskView {
        FrameTaskView {
            phase: self.phase,
            index: self.index,
            image_base: self.image_base,
            image_offset: self.image_offset,
            symbol_location: self.symbol_location,
            symbol: self.symbol@,
            header: self.header@,
            path: self.path@,
            session: self.session,
        }
    }
}

/// The lines for a frame whose image has no name: the frame's number, the
/// placeholder and the offset in upper-case hexadecimal, in columns of 10, 25
/// and 25 characters, and an empty line.
pub open spec fn unknown_image_block(index: nat, offset: nat) -> Seq<char> {
    pad_right(decimal(index), 10) + " "@ + pad_right(UNKNOWN_IMAGE@, 25) + " 0x"@ + pad_right(
        upper_hex(offset),
        25,
    ) + "\n"@ + "\n"@
}

/// The symbol of a frame that recorded none: the base of the image in the
/// process and the offset, both in hexadecimal.
pub open spec fn raw_symbol_text(base: nat, offset: nat) -> Seq<char> {
    prefixed_hex(base) + RAW_ADDRESS_MARK@ + prefixed_hex(offset)
}

/// The symbol of a frame as it is shown and looked up.
pub open spec fn symbol_text(symbol: Option<String>, base: u64, offset: u64) -> Seq<char> {
    match symbol {
        Some(s) => s@,
        None => raw_symbol_text(base as nat, offset as nat),
    }
}

/// The header of a frame: its number, the name of its image and its symbol,
/// in columns of 10, 25 and 25 characters, and an empty line.
pub open spec fn header_block(index: nat, image_name: Seq<char>, symbol: Seq<char>) -> Seq<char> {
    pad_right(decimal(index), 10) + " "@ + pad_right(image_name, 25) + " "@ + pad_right(symbol, 25)
        + "\n"@ + "\n"@
}

/// The command that lists the function around `address`.
pub open spec fn function_listing_command(address: nat) -> Seq<char> {
    "s "@ + prefixed_hex(address) + "; sf.; pdua "@ + prefixed_hex(address)
}

/// The command that moves the backend to `address`, given as the backend
/// wrote it.
pub open spec fn seek_command(address: Seq<char>) -> Seq<char> {
    "s "@ + address
}

/// The command that lists `count` bytes as instructions.
pub open spec fn bytes_listing_command(count: nat) -> Seq<char> {
    "pD "@ + decimal(count)
}

/// How many bytes are listed for a frame whose program counter stands
/// `symbol_location` bytes into its symbol: these bytes, and 4 more for the
/// innermost frame, whose program counter may stand inside an instruction.
pub open spec fn listing_length(index: nat, symbol_location: nat) -> nat {
    if index == 0 {
        symbol_location + 4
    } else {
        symbol_location
    }
}

/// A task that waits for nothing and holds nothing.
pub open spec fn idle() -> FrameTaskView {
    FrameTaskView {
        phase: Phase::Finished,
        index: 0,
        image_base: 0,
        image_offset: 0,
        symbol_location: None,
        symbol: Seq::empty(),
        header: Seq::empty(),
        path: Seq::empty(),
        session: 0,
    }
}

/// The frame ends with its header alone.
pub open spec fn header_only(task: FrameTaskView) -> (FrameTaskView, ActionView) {
    (idle(), ActionView::Finish { text: task.header })
}

/// The start of a frame. A frame whose image index is out of range ends the
/// run. A frame whose image has no name ends at once with the lines for an
/// unknown image. So does, with its header, a frame whose image is among the
/// `filtered` names: nothing is asked of the disk or the backend for it. For
/// any other frame the path of its binary is to be probed.
pub open spec fn frame_start(
    images: Seq<UsedImage>,
    proc_name: Seq<char>,
    first_party: bool,
    filtered: Seq<String>,
    index: usize,
    frame: Frame,
) -> (FrameTaskView, ActionView) {
    if frame.image_index >= images.len() {
        (idle(), ActionView::Abort { error: AnalysisError::ImageIndexOutOfRange })
    } else {
        let image = images[frame.image_index as int];
        match image.name {
            None => (
                idle(),
                ActionView::Finish {
                    text: unknown_image_block(index as nat, frame.image_offset as nat),
                },
            ),
            Some(name) => {
                let symbol = symbol_text(frame.symbol, image.base, frame.image_offset);
                let header = header_block(index as nat, name@, symbol);
                let path = binary_path_text(name@, image.path, proc_name, first_party);
                if names_contain(filtered, name@) {
                    (idle(), ActionView::Finish { text: header })
                } else {
                    (
                        FrameTaskView {
                            phase: Phase::Probing,
                            index,
                            image_base: image.base,
                            image_offset: frame.image_offset,
                            symbol_location: frame.symbol_location,
                            symbol,
                            header,
                            path,
                            session: 0,
                        },
                        ActionView::ProbePath { path },
                    )
                }
            },
        }
    }
}

/// The sections of the binary are asked for, to translate the frame's
/// address by them.
pub open spec fn ask_static_base(task: FrameTaskView) -> (FrameTaskView, ActionView) {
    (
        FrameTaskView { phase: Phase::StaticBase, ..task },
        ActionView::Run { session: task.session, commands: seq![SECTIONS_COMMAND@] },
    )
}

/// What follows once the session of the binary is ready, given the query
/// for the frame's symbol. A symbol that is a bare `base + offset` is not
/// looked up: its address is translated. So is that of a symbol for which
/// there is no query. A query is run. The failure to build one ends the run.
pub open spec fn on_session_ready(
    task: FrameTaskView,
    query: Result<Option<Seq<char>>, SymbolError>,
) -> (FrameTaskView, ActionView) {
    if contains_text(task.symbol, RAW_ADDRESS_MARK@) {
        ask_static_base(task)
    } else {
        match query {
            Ok(Some(q)) => (
                FrameTaskView { phase: Phase::SymbolAddress, ..task },
                ActionView::Run { session: task.session, commands: seq![q] },
            ),
            Ok(None) => ask_static_base(task),
            Err(_) => (idle(), ActionView::Abort { error: AnalysisError::PatternRejected }),
        }
    }
}

/// What follows the probe of the binary's path, given what the cache says of
/// the path and the query for the frame's symbol. Without the file the frame
/// ends with its header. A session that is not ready has to be opened first.
/// A ready session is used as it is.
pub open spec fn on_path_probed(
    task: FrameTaskView,
    exists: bool,
    lookup: Option<SessionLookup>,
    query: Result<Option<Seq<char>>, SymbolError>,
) -> (FrameTaskView, ActionView) {
    if !exists {
        header_only(task)
    } else {
        match lookup {
            None => (idle(), ActionView::Abort { error: AnalysisError::NoFileName }),
            Some(found) => if !found.ready {
                (
                    FrameTaskView { phase: Phase::Opening, session: found.session, ..task },
                    ActionView::OpenSession {
                        session: found.session,
                        path: task.path,
                        analysis: ANALYSIS_COMMAND@,
                    },
                )
            } else {
                on_session_ready(FrameTaskView { session: found.session, ..task }, query)
            },
        }
    }
}

/// What follows the sections of the binary, given the base that they name.
/// Where there is a base, and that base plus the frame's offset fits in 64
/// bits, the function around that address is listed, wherever the image was
/// loaded in the process. Else the frame ends with its header.
pub open spec fn on_static_base(task: FrameTaskView, base: Option<u64>) -> (
    FrameTaskView,
    ActionView,
) {
    match base {
        Some(static_base) => if translatable(static_base, task.image_offset) {
            (
                FrameTaskView { phase: Phase::FunctionListing, ..task },
                ActionView::Run {
                    session: task.session,
                    commands: seq![
                        function_listing_command((static_base + task.image_offset) as nat),
                    ],
                },
            )
        } else {
            header_only(task)
        },
        None => header_only(task),
    }
}

/// What follows the answer to the symbol query. A blank answer means that
/// the symbol table has no such entry: the frame's address is translated
/// instead. With an address, and with the place of the program counter in
/// the symbol, the bytes up to that place are listed from the address on.
/// Without that place nothing is listed.
pub open spec fn on_symbol_address(task: FrameTaskView, reply: Seq<char>) -> (
    FrameTaskView,
    ActionView,
) {
    if is_blank(reply) {
        ask_static_base(task)
    } else {
        match task.symbol_location {
            Some(location) => (
                FrameTaskView { phase: Phase::BytesListing, ..task },
                ActionView::Run {
                    session: task.session,
                    commands: seq![
                        seek_command(reply),
                        bytes_listing_command(listing_length(task.index as nat, location as nat)),
                    ],
                },
            ),
            None => (idle(), ActionView::Finish { text: task.header + "\n"@ }),
        }
    }
}

/// The text of a frame with its listing: behind the listing of a function
/// come two line ends, behind that of bytes one.
pub open spec fn on_listing(task: FrameTaskView, reply: Seq<char>) -> (FrameTaskView, ActionView) {
    if task.phase == Phase::FunctionListing {
        (idle(), ActionView::Finish { text: task.header + reply + "\n"@ + "\n"@ })
    } else {
        (idle(), ActionView::Finish { text: task.header + reply + "\n"@ })
    }
}

/// The query for the symbol of a frame, as the pattern engine makes it come
/// out.
pub open spec fn query_for(symbol: Seq<char>) -> Result<Option<Seq<char>>, SymbolError> {
    symbol_query_of(
        symbol,
        pattern_accepted(OBJC_METHOD@),
        pattern_captures(OBJC_METHOD@, symbol),
    )
}

/// The base that the backend's list of sections names: the address of the
/// first section.
pub open spec fn static_base_of(reply: Seq<char>) -> Option<u64> {
    json_array_member(reply, 0, ADDRESS_FIELD@)
}

/// One step of a frame: the task, the sessions and the action after `event`.
/// A failure of the backend, in whatever phase waits for the backend, ends
/// the frame with its header; a session that could not be opened is given
/// up, so that the next frame of that binary tries again. An event that the
/// phase does not wait for ends the run.
pub open spec fn frame_step(task: FrameTaskView, event: Event, sessions: Seq<SessionView>) -> (
    FrameTaskView,
    Seq<SessionView>,
    ActionView,
) {
    match (task.phase, event) {
        (Phase::Probing, Event::PathProbed { exists }) => {
            let next = on_path_probed(
                task,
                exists,
                lookup_of(sessions, task.path),
                query_for(task.symbol),
            );
            (
                next.0,
                if exists {
                    sessions_after_lookup(sessions, task.path)
                } else {
                    sessions
                },
                next.1,
            )
        },
        (Phase::Opening, Event::SessionOpened) => {
            let next = on_session_ready(task, query_for(task.symbol));
            (next.0, sessions_after_ready(sessions, task.session as int), next.1)
        },
        (Phase::StaticBase, Event::Reply { text }) => {
            let next = on_static_base(task, static_base_of(text@));
            (next.0, sessions, next.1)
        },
        (Phase::SymbolAddress, Event::Reply { text }) => {
            let next = on_symbol_address(task, text@);
            (next.0, sessions, next.1)
        },
        (Phase::FunctionListing, Event::Reply { text }) => {
            let next = on_listing(task, text@);
            (next.0, sessions, next.1)
        },
        (Phase::BytesListing, Event::Reply { text }) => {
            let next = on_listing(task, text@);
            (next.0, sessions, next.1)
        },
        (Phase::Opening, Event::BackendFailed) => (
            idle(),
            sessions_after_discard(sessions, task.session as int),
            header_only(task).1,
        ),
        (Phase::StaticBase, Event::BackendFailed) => (idle(), sessions, header_only(task).1),
        (Phase::SymbolAddress, Event::BackendFailed) => (idle(), sessions, header_only(task).1),
        (Phase::FunctionListing, Event::BackendFailed) => (idle(), sessions, header_only(task).1),
        (Phase::BytesListing, Event::BackendFailed) => (idle(), sessions, header_only(task).1),
        _ => (idle(), sessions, ActionView::Abort { error: AnalysisError::UnexpectedEvent }),
    }
}

/// The unsigned integer that `serde_json` reads in the JSON text `json` at
/// `field` of element `index` of the array that the text holds; `None` where
/// the text is no JSON, holds no such array, element or field, or the field
/// is no unsigned integer of 64 bits.
pub uninterp spec fn json_array_member(json: Seq<char>, index: nat, field: Seq<char>) -> Option<
    u64,
>;

/// Parses `json` with `serde_json::from_str`, steps into the result with
/// `Value::get`, first by `index`, then by `field`, and reads what is there
/// with `Value::as_u64`. The contract gives the outcome a name and claims
/// only that it depends on the three arguments alone.
#[verifier::external_body]
fn json_array_member_of(json: &str, index: usize, field: &str) -> (member: Option<u64>)
    ensures
        member == json_array_member(json@, index as nat, field@),
{
    let document: serde_json::Value = serde_json::from_str(json).ok()?;
    document.get(index)?.get(field)?.as_u64()
}

/// The base that the binary's file names, read from the backend's list of
/// sections.
pub fn static_base_from_reply(reply: &str) -> (base: Option<u64>)
    ensures
        base == static_base_of(reply@),
{
    json_array_member_of(reply, 0, ADDRESS_FIELD)
}

/// The number of bytes to list for frame `index`.
pub fn listing_length_of(index: usize, symbol_location: u32) -> (count: u64)
    ensures
        count == listing_length(index as nat, symbol_location as nat),
{
    if index == 0 {
        symbol_location as u64 + 4
    } else {
        symbol_location as u64
    }
}

/// The lines for frame `index` where its image has no name.
pub fn unknown_image_text(index: usize, offset: u64) -> (text: String)
    ensures
        text@ == unknown_image_block(index as nat, offset as nat),
{
    let mut text = String::new();
    let number = decimal_string(index as u64);
    push_padded_right(&mut text, number.as_str(), 10);
    text.append(" ");
    push_padded_right(&mut text, UNKNOWN_IMAGE, 25);
    text.append(" 0x");
    let digits = hex_string(offset, true);
    push_padded_right(&mut text, digits.as_str(), 25);
    text.append("\n");
    text.append("\n");
    assert(text@ =~= unknown_image_block(index as nat, offset as nat));
    text
}

/// The symbol of a frame as it is shown and looked up.
pub fn symbol_of(symbol: &Option<String>, base: u64, offset: u64) -> (text: String)
    ensures
        text@ == symbol_text(*symbol, base, offset),
{
    match symbol {
        Some(s) => s.clone(),
        None => {
            let mut text = String::new();
            push_prefixed_hex(&mut text, base);
            text.append(RAW_ADDRESS_MARK);
            push_prefixed_hex(&mut text, offset);
            assert(text@ =~= raw_symbol_text(base as nat, offset as nat));
            text
        },
    }
}

/// The header of frame `index`.
pub fn header_text(index: usize, image_name: &str, symbol: &str) -> (text: String)
    ensures
        text@ == header_block(index as nat, image_name@, symbol@),
{
    let mut text = String::new();
    let number = decimal_string(index as u64);
    push_padded_right(&mut text, number.as_str(), 10);
    text.append(" ");
    push_padded_right(&mut text, image_name, 25);
    text.append(" ");
    push_padded_right(&mut text, symbol, 25);
    text.append("\n");
    text.append("\n");
    assert(text@ =~= header_block(index as nat, image_name@, symbol@));
    text
}

/// The command that lists the function around `address`.
pub fn function_listing(address: u64) -> (command: String)
    ensures
        command@ == function_listing_command(address as nat),
{
    let mut command = String::new();
    command.append("s ");
    push_prefixed_hex(&mut command, address);
    command.append("; sf.; pdua ");
    push_prefixed_hex(&mut command, address);
    assert(command@ =~= function_listing_command(address as nat));
    command
}

/// The commands that list `count` bytes from `address` on, where `address`
/// is what the backend answered to a symbol query.
pub fn bytes_listing(address: &str, count: u64) -> (commands: Vec<String>)
    ensures
        commands.deep_view() == seq![seek_command(address@), bytes_listing_command(count as nat)],
{
    let mut seek = String::new();
    seek.append("s ");
    seek.append(address);
    assert(seek@ =~= seek_command(address@));
    let mut list = String::new();
    list.append("pD ");
    push_decimal(&mut list, count);
    assert(list@ =~= bytes_listing_command(count as nat));
    let mut commands: Vec<String> = Vec::new();
    commands.push(seek);
    commands.push(list);
    assert(commands.deep_view() =~= seq![
        seek_command(address@),
        bytes_listing_command(count as nat),
    ]);
    commands
}

/// One command as a list of commands.
fn single(command: String) -> (commands: Vec<String>)
    ensures
        commands.deep_view() == seq![command@],
{
    let mut commands: Vec<String> = Vec::new();
    commands.push(command);
    assert(commands.deep_view() =~= seq![command@]);
    commands
}

impl FrameTask {
    /// A task that waits for nothing and holds nothing.
    pub fn finished() -> (task: FrameTask)
        ensures
            task@ == idle(),
    {
        FrameTask {
            phase: Phase::Finished,
            index: 0,
            image_base: 0,
            image_offset: 0,
            symbol_location: None,
            symbol: String::new(),
            header: String::new(),
            path: String::new(),
            session: 0,
        }
    }

    /// The phase the task is in.
    pub fn phase(&self) -> (phase: Phase)
        ensures
            phase == self@.phase,
    {
        self.phase
    }

    /// Starts the annotation of `frame`, frame number `index` of its stack,
    /// in a process named `proc_name` with the images `images`.
    pub fn begin(
        images: &Vec<UsedImage>,
        proc_name: &str,
        first_party: bool,
        filtered: &Vec<String>,
        index: usize,
        frame: &Frame,
    ) -> (next: (FrameTask, Action))
        ensures
            (next.0@, next.1@) == frame_start(
                images@,
                proc_name@,
                first_party,
                filtered@,
                index,
                *frame,
            ),
    {
        if frame.image_index as usize >= images.len() {
            return (
                FrameTask::finished(),
                Action::Abort { error: AnalysisError::ImageIndexOutOfRange },
            );
        }
        let image = &images[frame.image_index as usize];
        match &image.name {
            None => (
                FrameTask::finished(),
                Action::Finish { text: unknown_image_text(index, frame.image_offset) },
            ),
            Some(name) => {
                let symbol = symbol_of(&frame.symbol, image.base, frame.image_offset);
                let header = header_text(index, name.as_str(), symbol.as_str());
                let path = binary_path(name.as_str(), &image.path, proc_name, first_party);
                if is_filtered(filtered, name.as_str()) {
                    (FrameTask::finished(), Action::Finish { text: header })
                } else {
                    let probe = path.clone();
                    (
                        FrameTask {
                            phase: Phase::Probing,
                            index,
                            image_base: image.base,
                            image_offset: frame.image_offset,
                            symbol_location: frame.symbol_location,
                            symbol,
                            header,
                            path,
                            session: 0,
                        },
                        Action::ProbePath { path: probe },
                    )
                }
            },
        }
    }

    /// Ends the frame with its header alone.
    fn end_with_header(self) -> (next: (FrameTask, Action))
        ensures
            (next.0@, next.1@) == header_only(self@),
    {
        (FrameTask::finished(), Action::Finish { text: self.header })
    }

    /// Asks for the sections of the binary.
    fn request_static_base(self) -> (next: (FrameTask, Action))
        ensures
            (next.0@, next.1@) == ask_static_base(self@),
    {
        let session = self.session;
        let mut command = String::new();
        command.append(SECTIONS_COMMAND);
        assert(command@ =~= SECTIONS_COMMAND@);
        (
            FrameTask { phase: Phase::StaticBase, ..self },
            Action::Run { session, commands: single(command) },
        )
    }

    /// Whether the symbol of the frame is a bare `base + offset`.
    pub fn has_raw_address(&self) -> (raw: bool)
        ensures
            raw == contains_text(self@.symbol, RAW_ADDRESS_MARK@),
    {
        contains(self.symbol.as_str(), RAW_ADDRESS_MARK)
    }

    /// Goes on once the session of the binary is ready, with `query` as the
    /// query for the frame's symbol.
    pub fn session_ready(self, query: Result<Option<String>, SymbolError>) -> (next: (
        FrameTask,
        Action,
    ))
        ensures
            (next.0@, next.1@) == on_session_ready(self@, query_view(query)),
    {
        if self.has_raw_address() {
            self.request_static_base()
        } else {
            match query {
                Ok(Some(q)) => {
                    let session = self.session;
                    (
                        FrameTask { phase: Phase::SymbolAddress, ..self },
                        Action::Run { session, commands: single(q) },
                    )
                },
                Ok(None) => self.request_static_base(),
                Err(_) => (
                    FrameTask::finished(),
                    Action::Abort { error: AnalysisError::PatternRejected },
                ),
            }
        }
    }

    /// The query for the frame's symbol. None is built for a bare
    /// `base + offset`, which is never looked up.
    fn query(&self) -> (query: Result<Option<String>, SymbolError>)
        ensures
            on_session_ready(self@, query_view(query)) == on_session_ready(
                self@,
                query_for(self@.symbol),
            ),
    {
        if self.has_raw_address() {
            Ok(None)
        } else {
            symbol_query(self.symbol.as_str())
        }
    }

    /// Goes on after the probe of the binary's path, with what the cache
    /// said of the path and `query` as the query for the frame's symbol.
    pub fn path_probed(
        self,
        exists: bool,
        lookup: Option<SessionLookup>,
        query: Result<Option<String>, SymbolError>,
    ) -> (next: (FrameTask, Action))
        ensures
            (next.0@, next.1@) == on_path_probed(self@, exists, lookup, query_view(query)),
    {
        if !exists {
            return self.end_with_header();
        }
        match lookup {
            None => (FrameTask::finished(), Action::Abort { error: AnalysisError::NoFileName }),
            Some(found) => {
                if !found.ready {
                    let path = self.path.clone();
                    let mut analysis = String::new();
                    analysis.append(ANALYSIS_COMMAND);
                    assert(analysis@ =~= ANALYSIS_COMMAND@);
                    (
                        FrameTask { phase: Phase::Opening, session: found.session, ..self },
                        Action::OpenSession { session: found.session, path, analysis },
                    )
                } else {
                    let task = FrameTask { session: found.session, ..self };
                    task.session_ready(query)
                }
            },
        }
    }

    /// Goes on after the sections of the binary, with the base they name.
    pub fn static_base_known(self, base: Option<u64>) -> (next: (FrameTask, Action))
        ensures
            (next.0@, next.1@) == on_static_base(self@, base),
    {
        match base {
            Some(static_base) => match aslr_translate(
                self.image_base,
                static_base,
                self.image_offset,
            ) {
                Some(address) => {
                    let session = self.session;
                    (
                        FrameTask { phase: Phase::FunctionListing, ..self },
                        Action::Run { session, commands: single(function_listing(address)) },
                    )
                },
                None => self.end_with_header(),
            },
            None => self.end_with_header(),
        }
    }

    /// Goes on after the answer to the symbol query.
    pub fn symbol_address_known(self, reply: &str) -> (next: (FrameTask, Action))
        ensures
            (next.0@, next.1@) == on_symbol_address(self@, reply@),
    {
        if blank(reply) {
            self.request_static_base()
        } else {
            match self.symbol_location {
                Some(location) => {
                    let session = self.session;
                    let count = listing_length_of(self.index, location);
                    (
                        FrameTask { phase: Phase::BytesListing, ..self },
                        Action::Run { session, commands: bytes_listing(reply, count) },
                    )
                },
                None => {
                    let mut text = self.header;
                    text.append("\n");
                    (FrameTask::finished(), Action::Finish { text })
                },
            }
        }
    }

    /// Ends the frame with its listing.
    pub fn listing_known(self, reply: &str) -> (next: (FrameTask, Action))
        ensures
            (next.0@, next.1@) == on_listing(self@, reply@),
    {
        let function = self.phase == Phase::FunctionListing;
        let mut text = self.header;
        text.append(reply);
        text.append("\n");
        if function {
            text.append("\n");
        }
        (FrameTask::finished(), Action::Finish { text })
    }

    /// Takes the outcome of the last action and says what to do next.
    pub fn step(self, event: Event, cache: &mut R2PipeCache) -> (next: (FrameTask, Action))
        ensures
            (next.0@, final(cache)@, next.1@) == frame_step(self@, event, old(cache)@),
    {
        match (self.phase, event) {
            (Phase::Probing, Event::PathProbed { exists }) => {
                if exists {
                    let lookup = cache.get_or_create(self.path.as_str());
                    let query = self.query();
                    self.path_probed(true, lookup, query)
                } else {
                    self.path_probed(false, None, Ok(None))
                }
            },
            (Phase::Opening, Event::SessionOpened) => {
                cache.mark_ready(self.session);
                let query = self.query();
                self.session_ready(query)
            },
            (Phase::StaticBase, Event::Reply { text }) => {
                let base = static_base_from_reply(text.as_str());
                self.static_base_known(base)
            },
            (Phase::SymbolAddress, Event::Reply { text }) => self.symbol_address_known(
                text.as_str(),
            ),
            (Phase::FunctionListing, Event::Reply { text }) => self.listing_known(text.as_str()),
            (Phase::BytesListing, Event::Reply { text }) => self.listing_known(text.as_str()),
            (Phase::Opening, Event::BackendFailed) => {
                cache.discard(self.session);
                self.end_with_header()
            },
            (Phase::StaticBase, Event::BackendFailed) => self.end_with_header(),
            (Phase::SymbolAddress, Event::BackendFailed) => self.end_with_header(),
            (Phase::FunctionListing, Event::BackendFailed) => self.end_with_header(),
            (Phase::BytesListing, Event::BackendFailed) => self.end_with_header(),
            _ => (FrameTask::finished(), Action::Abort { error: AnalysisError::UnexpectedEvent }),
        }
    }
}

/// The phases in which a task waits for the backend.
pub open spec fn awaits_backend(phase: Phase) -> bool {
    phase == Phase::Opening || phase == Phase::StaticBase || phase == Phase::SymbolAddress
        || phase == Phase::FunctionListing || phase == Phase::BytesListing
}

/// An image whose name is among the filtered names is not disassembled,
/// whether its file is there or not: its frame ends at once with the header,
/// and nothing is asked of the disk or the backend.
pub proof fn lemma_filtered_image_is_skipped(
    images: Seq<UsedImage>,
    proc_name: Seq<char>,
    first_party: bool,
    filtered: Seq<String>,
    index: usize,
    frame: Frame,
)
    requires
        frame.image_index < images.len(),
        images[frame.image_index as int].name is Some,
        names_contain(filtered, images[frame.image_index as int].name.unwrap()@),
    ensures
        frame_start(images, proc_name, first_party, filtered, index, frame) == (
            idle(),
            ActionView::Finish {
                text: header_block(
                    index as nat,
                    images[frame.image_index as int].name.unwrap()@,
                    symbol_text(
                        frame.symbol,
                        images[frame.image_index as int].base,
                        frame.image_offset,
                    ),
                ),
            },
        ),
{
}

/// A failure of the backend costs a frame its listing and nothing else: in
/// every phase that waits for the backend the frame ends with its header,
/// and the run goes on. The sessions that are ready stay as they are.
pub proof fn lemma_backend_failure_keeps_header(task: FrameTaskView, sessions: Seq<SessionView>)
    requires
        awaits_backend(task.phase),
    ensures
        frame_step(task, Event::BackendFailed, sessions).0 == idle(),
        frame_step(task, Event::BackendFailed, sessions).2 == (ActionView::Finish {
            text: task.header,
        }),
        frame_step(task, Event::BackendFailed, sessions).1 == sessions || (task.phase
            == Phase::Opening && !sessions.last().ready && frame_step(
            task,
            Event::BackendFailed,
            sessions,
        ).1 == sessions.drop_last()),
{
}

/// Whatever comes back, the text that a step finishes a frame with begins
/// with the frame's header.
pub proof fn lemma_frame_text_begins_with_header(
    task: FrameTaskView,
    event: Event,
    sessions: Seq<SessionView>,
)
    ensures
        frame_step(task, event, sessions).2 matches ActionView::Finish { text }
            ==> task.header.is_prefix_of(text),
{
    match frame_step(task, event, sessions).2 {
        ActionView::Finish { text } => {
            assert(text.subrange(0, task.header.len() as int) =~= task.header);
        },
        _ => {},
    }
}

/// A session is opened only in answer to the probe of a path whose session
/// is not ready, under the number of that session, on the path that was
/// probed, with the full analysis as its first command. A session that is
/// ready is never opened again: each binary is analysed once.
pub proof fn lemma_session_opened_once(
    task: FrameTaskView,
    event: Event,
    sessions: Seq<SessionView>,
)
    ensures
        frame_step(task, event, sessions).2 matches ActionView::OpenSession {
            session,
            path,
            analysis,
        } ==> {
            &&& task.phase == Phase::Probing
            &&& event == (Event::PathProbed { exists: true })
            &&& lookup_of(sessions, task.path) matches Some(found)
            &&& found.session == session
            &&& !found.ready
            &&& path == task.path
            &&& analysis == ANALYSIS_COMMAND@
        },
{
}

/// The address that is listed for a translated frame is the static base plus
/// the offset of the frame, for every base at which the image was loaded, be
/// it above or below the static base.
pub proof fn lemma_listing_address_ignores_runtime_base(task: FrameTaskView, static_base: u64)
    requires
        static_base + task.image_offset <= u64::MAX,
    ensures
        on_static_base(task, Some(static_base)) == (
            FrameTaskView { phase: Phase::FunctionListing, ..task },
            ActionView::Run {
                session: task.session,
                commands: seq![function_listing_command((static_base + task.image_offset) as nat)],
            },
        ),
        forall|runtime_base: u64|
            on_static_base(
                FrameTaskView { image_base: runtime_base, ..task },
                Some(static_base),
            ).1 == on_static_base(task, Some(static_base)).1,
{
}

/// How many answers a frame in phase `phase` can still wait for.
pub open spec fn steps_left(phase: Phase) -> nat {
    match phase {
        Phase::Probing => 5,
        Phase::Opening => 4,
        Phase::SymbolAddress => 3,
        Phase::StaticBase => 2,
        Phase::FunctionListing => 1,
        Phase::BytesListing => 1,
        Phase::Finished => 0,
    }
}

/// Every frame comes to its end: whatever the event, a step takes a frame
/// that is in progress nearer to it, by at least one of the five answers that
/// a frame can wait for.
pub proof fn lemma_frame_makes_progress(
    task: FrameTaskView,
    event: Event,
    sessions: Seq<SessionView>,
)
    requires
        task.phase != Phase::Finished,
    ensures
        steps_left(frame_step(task, event, sessions).0.phase) < steps_left(task.phase),
{
}

/// Whether the action asks for outside work, and so for an event in return.
pub open spec fn asks_for_work(action: ActionView) -> bool {
    action is ProbePath || action is OpenSession || action is Run
}

/// A frame that asks for outside work waits for the answer: it is not
/// finished.
pub proof fn lemma_frame_waits_for_its_work(
    task: FrameTaskView,
    event: Event,
    sessions: Seq<SessionView>,
)
    ensures
        asks_for_work(frame_step(task, event, sessions).2) ==> frame_step(
            task,
            event,
            sessions,
        ).0.phase != Phase::Finished,
{
}

} // verus!
