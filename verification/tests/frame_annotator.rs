use ips_analyzer::frame_annotator::{
    bytes_listing, function_listing, header_text, listing_length_of, static_base_from_reply,
    symbol_of, unknown_image_text, Action, AnalysisError, Event, FrameTask, Phase,
};
use ips_analyzer::r2pipe_cache::{R2PipeCache, SessionLookup};
use ips_analyzer::symbol_query::SymbolError;
use ips_analyzer::structs::crash_info::{Frame, UsedImage};

fn image(name: Option<&str>, path: Option<&str>, base: u64) -> UsedImage {
    UsedImage {
        source: String::from("P"),
        arch: Some(String::from("arm64")),
        base,
        size: 0x4000,
        uuid: String::from("00000000-0000-0000-0000-000000000000"),
        path: path.map(String::from),
        name: name.map(String::from),
    }
}

fn images() -> Vec<UsedImage> {
    vec![
        image(Some("Demo"), Some("/private/var/containers/Demo.app/Demo"), 0x1_0480_0000),
        image(Some("CoreFoundation"), Some("/System/Library/Frameworks/CoreFoundation"), 0x1_8000_0000),
        image(None, None, 0x2_0000_0000),
        image(Some("Kit"), Some("/private/var/containers/Demo.app/Frameworks/Kit.framework/Kit"), 0x1_0500_0000),
        image(Some("libsystem_c.dylib"), Some("/usr/lib/system/libsystem_c.dylib"), 0x1_9000_0000),
    ]
}

fn filtered() -> Vec<String> {
    vec![
        String::from("UIKitCore"),
        String::from("libdispatch.dylib"),
        String::from("CoreFoundation"),
        String::from("CFNetwork"),
    ]
}

fn frame(image_index: u32, offset: u64, symbol: Option<&str>, location: Option<u32>) -> Frame {
    Frame {
        image_offset: offset,
        symbol: symbol.map(String::from),
        symbol_location: location,
        image_index,
    }
}

fn begin(index: usize, frame: &Frame) -> (FrameTask, Action) {
    FrameTask::begin(&images(), "Demo", false, &filtered(), index, frame)
}

fn header(index: usize, name: &str, symbol: &str) -> String {
    format!("{:<10} {:<25} {:<25}\n\n", index, name, symbol)
}

fn reply(text: &str) -> Event {
    Event::Reply { text: String::from(text) }
}

fn run(session: usize, commands: &[&str]) -> Action {
    Action::Run { session, commands: commands.iter().map(|c| c.to_string()).collect() }
}

fn finish(text: String) -> Action {
    Action::Finish { text }
}

#[test]
fn image_index_out_of_range_ends_the_run() {
    let (task, action) = begin(0, &frame(5, 0x10, Some("main"), Some(8)));
    assert_eq!(action, Action::Abort { error: AnalysisError::ImageIndexOutOfRange });
    assert_eq!(task.phase(), Phase::Finished);
}

#[test]
fn image_without_name_gets_the_placeholder() {
    let (task, action) = begin(3, &frame(2, 0xabc, Some("main"), Some(8)));
    let expected = format!("{:<10} {:<25} 0x{:<25X}\n\n", 3, "???", 0xabc);
    assert_eq!(action, finish(expected));
    assert_eq!(task.phase(), Phase::Finished);
    assert_eq!(
        unknown_image_text(3, 0xabc),
        "3          ???                       0xABC                      \n\n"
    );
}

#[test]
fn header_has_three_columns() {
    assert_eq!(header_text(12, "Demo", "main"), header(12, "Demo", "main"));
    assert_eq!(
        header_text(0, "Demo", "main"),
        "0          Demo                      main                     \n\n"
    );
    let long = "-[AVeryLongClassName aVeryLongSelectorName:withArgument:]";
    assert_eq!(header_text(1, "Kit", long), header(1, "Kit", long));
}

#[test]
fn symbol_is_the_recorded_one_or_base_and_offset() {
    assert_eq!(symbol_of(&Some(String::from("main")), 0x1000, 0x20), "main");
    assert_eq!(symbol_of(&None, 0x1_0480_0000, 0x1f4), "0x104800000 + 0x1f4");
    assert_eq!(symbol_of(&None, 0x1_0480_0000, 0x1f4), format!("{:#0x} + {:#0x}", 0x1_0480_0000u64, 0x1f4u64));
}

#[test]
fn filtered_image_is_never_disassembled() {
    let (task, action) = begin(4, &frame(1, 0x44, Some("CFRunLoopRun"), Some(16)));
    assert_eq!(action, finish(header(4, "CoreFoundation", "CFRunLoopRun")));
    assert_eq!(task.phase(), Phase::Finished);
}

#[test]
fn other_images_are_probed_at_their_path() {
    let (task, action) = begin(0, &frame(0, 0x10, Some("main"), Some(8)));
    assert_eq!(action, Action::ProbePath { path: String::from("apps/Demo.app/Demo") });
    assert_eq!(task.phase(), Phase::Probing);
    let (_, action) = begin(0, &frame(3, 0x10, Some("kit_call"), Some(8)));
    assert_eq!(
        action,
        Action::ProbePath { path: String::from("apps/Demo.app/Frameworks/Kit.framework/Kit") }
    );
    let (_, action) = begin(0, &frame(4, 0x10, Some("abort"), Some(8)));
    assert_eq!(action, Action::ProbePath { path: String::from("dylibs/libsystem_c.dylib") });
    let (_, action) =
        FrameTask::begin(&images(), "Demo", true, &filtered(), 0, &frame(0, 0x10, Some("main"), None));
    assert_eq!(action, Action::ProbePath { path: String::from("apps/Demo") });
}

#[test]
fn missing_file_leaves_the_header() {
    let mut cache = R2PipeCache::new();
    let (task, _) = begin(2, &frame(0, 0x10, Some("main"), Some(8)));
    let (task, action) = task.step(Event::PathProbed { exists: false }, &mut cache);
    assert_eq!(action, finish(header(2, "Demo", "main")));
    assert_eq!(task.phase(), Phase::Finished);
    assert_eq!(cache.len(), 0);
}

#[test]
fn innermost_frame_lists_four_bytes_more() {
    assert_eq!(listing_length_of(0, 8), 12);
    assert_eq!(listing_length_of(1, 8), 8);
    assert_eq!(listing_length_of(0, 0), 4);
    assert_eq!(listing_length_of(7, 0), 0);
    assert_eq!(listing_length_of(0, u32::MAX), u32::MAX as u64 + 4);
}

#[test]
fn named_symbol_is_looked_up_and_listed() {
    let mut cache = R2PipeCache::new();
    let (task, _) = begin(0, &frame(0, 0x10, Some("-[AppDelegate run]"), Some(8)));
    let (task, action) = task.step(Event::PathProbed { exists: true }, &mut cache);
    assert_eq!(
        action,
        Action::OpenSession {
            session: 0,
            path: String::from("apps/Demo.app/Demo"),
            analysis: String::from("aaa"),
        }
    );
    assert_eq!(task.phase(), Phase::Opening);
    assert!(!cache.is_ready(0));
    let (task, action) = task.step(Event::SessionOpened, &mut cache);
    assert_eq!(action, run(0, &["is ~AppDelegate~run]~!block_invoke~!cold[2]"]));
    assert_eq!(task.phase(), Phase::SymbolAddress);
    assert!(cache.is_ready(0));
    let (task, action) = task.step(reply("0x100004a10\n"), &mut cache);
    assert_eq!(action, run(0, &["s 0x100004a10\n", "pD 12"]));
    assert_eq!(task.phase(), Phase::BytesListing);
    let (task, action) = task.step(reply("  mov x0, x1\n  ret"), &mut cache);
    assert_eq!(
        action,
        finish(header(0, "Demo", "-[AppDelegate run]") + "  mov x0, x1\n  ret" + "\n")
    );
    assert_eq!(task.phase(), Phase::Finished);
}

#[test]
fn outer_frame_lists_up_to_the_program_counter() {
    let mut cache = R2PipeCache::new();
    let (task, _) = begin(1, &frame(0, 0x10, Some("helper"), Some(8)));
    let (task, _) = task.step(Event::PathProbed { exists: true }, &mut cache);
    let (task, action) = task.step(Event::SessionOpened, &mut cache);
    assert_eq!(action, run(0, &["is ~helper~!block_invoke[2]:0"]));
    let (_, action) = task.step(reply("0x100004a10"), &mut cache);
    assert_eq!(action, run(0, &["s 0x100004a10", "pD 8"]));
}

#[test]
fn symbol_without_location_is_not_listed() {
    let mut cache = R2PipeCache::new();
    let (task, _) = begin(1, &frame(0, 0x10, Some("helper"), None));
    let (task, _) = task.step(Event::PathProbed { exists: true }, &mut cache);
    let (task, _) = task.step(Event::SessionOpened, &mut cache);
    let (task, action) = task.step(reply("0x100004a10"), &mut cache);
    assert_eq!(action, finish(header(1, "Demo", "helper") + "\n"));
    assert_eq!(task.phase(), Phase::Finished);
}

#[test]
fn raw_address_is_translated() {
    let mut cache = R2PipeCache::new();
    let (task, _) = begin(2, &frame(0, 0x1f4, None, None));
    let (task, _) = task.step(Event::PathProbed { exists: true }, &mut cache);
    let (task, action) = task.step(Event::SessionOpened, &mut cache);
    assert_eq!(action, run(0, &["iSSj"]));
    assert_eq!(task.phase(), Phase::StaticBase);
    let sections = r#"[{"name":"0.__TEXT","size":16384,"vaddr":4294967296,"paddr":0},{"name":"1.__DATA","vaddr":4294983680}]"#;
    let (task, action) = task.step(reply(sections), &mut cache);
    assert_eq!(action, run(0, &["s 0x1000001f4; sf.; pdua 0x1000001f4"]));
    assert_eq!(task.phase(), Phase::FunctionListing);
    let (task, action) = task.step(reply("  ret"), &mut cache);
    assert_eq!(
        action,
        finish(header(2, "Demo", "0x104800000 + 0x1f4") + "  ret" + "\n" + "\n")
    );
    assert_eq!(task.phase(), Phase::Finished);
}

#[test]
fn recorded_base_and_offset_is_translated_too() {
    let mut cache = R2PipeCache::new();
    let (task, _) = begin(2, &frame(0, 0x1f4, Some("0x104800000 + 500"), Some(4)));
    let (task, _) = task.step(Event::PathProbed { exists: true }, &mut cache);
    let (_, action) = task.step(Event::SessionOpened, &mut cache);
    assert_eq!(action, run(0, &["iSSj"]));
}

#[test]
fn name_that_fits_no_pattern_is_translated() {
    let mut cache = R2PipeCache::new();
    let (task, _) = begin(2, &frame(0, 0x1f4, Some("table[4]"), Some(4)));
    let (task, _) = task.step(Event::PathProbed { exists: true }, &mut cache);
    let (_, action) = task.step(Event::SessionOpened, &mut cache);
    assert_eq!(action, run(0, &["iSSj"]));
}

#[test]
fn blank_answer_to_the_query_is_no_match() {
    let mut cache = R2PipeCache::new();
    let (task, _) = begin(0, &frame(0, 0x1f4, Some("helper"), Some(4)));
    let (task, _) = task.step(Event::PathProbed { exists: true }, &mut cache);
    let (task, _) = task.step(Event::SessionOpened, &mut cache);
    let (task, action) = task.step(reply("\n"), &mut cache);
    assert_eq!(action, run(0, &["iSSj"]));
    assert_eq!(task.phase(), Phase::StaticBase);
}

#[test]
fn sections_without_a_base_leave_the_header() {
    for sections in ["", "not json", "[]", "{}", r#"[{"paddr":0}]"#, r#"[{"vaddr":-1}]"#, r#"[{"vaddr":"0x1000"}]"#] {
        let mut cache = R2PipeCache::new();
        let (task, _) = begin(2, &frame(0, 0x1f4, None, None));
        let (task, _) = task.step(Event::PathProbed { exists: true }, &mut cache);
        let (task, _) = task.step(Event::SessionOpened, &mut cache);
        let (task, action) = task.step(reply(sections), &mut cache);
        assert_eq!(action, finish(header(2, "Demo", "0x104800000 + 0x1f4")));
        assert_eq!(task.phase(), Phase::Finished);
    }
}

#[test]
fn image_loaded_below_its_static_base_is_translated() {
    let mut cache = R2PipeCache::new();
    let (task, _) = begin(2, &frame(0, 0x1f4, None, None));
    let (task, _) = task.step(Event::PathProbed { exists: true }, &mut cache);
    let (task, _) = task.step(Event::SessionOpened, &mut cache);
    // the image was loaded at 0x104800000, its file names 0x200000000
    let (task, action) = task.step(reply(r#"[{"vaddr":8589934592}]"#), &mut cache);
    assert_eq!(action, run(0, &["s 0x2000001f4; sf.; pdua 0x2000001f4"]));
    assert_eq!(task.phase(), Phase::FunctionListing);
    let (_, action) = task.step(reply("  ret"), &mut cache);
    assert_eq!(action, finish(header(2, "Demo", "0x104800000 + 0x1f4") + "  ret\n\n"));
}

#[test]
fn listing_address_ignores_where_the_image_was_loaded() {
    for base in [0u64, 0x1000, 0x1_0000_0000, 0x1_0480_0000, u64::MAX] {
        let images = vec![image(Some("Demo"), None, base)];
        let (task, _) =
            FrameTask::begin(&images, "Demo", false, &filtered(), 0, &frame(0, 0x1f4, None, None));
        let (_, action) = task.static_base_known(Some(0x1_0000_0000));
        assert_eq!(action, run(0, &["s 0x1000001f4; sf.; pdua 0x1000001f4"]));
    }
}

#[test]
fn address_beyond_64_bits_leaves_the_header() {
    let mut cache = R2PipeCache::new();
    let (task, _) = begin(2, &frame(0, 0x1f4, None, None));
    let (task, _) = task.step(Event::PathProbed { exists: true }, &mut cache);
    let (task, _) = task.step(Event::SessionOpened, &mut cache);
    let (_, action) = task.step(reply(r#"[{"vaddr":18446744073709551615}]"#), &mut cache);
    assert_eq!(action, finish(header(2, "Demo", "0x104800000 + 0x1f4")));
}

#[test]
fn static_base_is_the_address_of_the_first_section() {
    assert_eq!(static_base_from_reply(r#"[{"vaddr":4294967296},{"vaddr":7}]"#), Some(4294967296));
    assert_eq!(static_base_from_reply(r#"[{"name":"x","vaddr":0}]"#), Some(0));
    assert_eq!(static_base_from_reply(r#"[{"name":"x"}]"#), None);
    assert_eq!(static_base_from_reply(r#"{"vaddr":1}"#), None);
    assert_eq!(static_base_from_reply("[]"), None);
    assert_eq!(static_base_from_reply(""), None);
    assert_eq!(static_base_from_reply("4294967296"), None);
}

#[test]
fn commands_are_spelled_for_the_backend() {
    assert_eq!(function_listing(0x1000001f4), "s 0x1000001f4; sf.; pdua 0x1000001f4");
    assert_eq!(function_listing(0), format!("s {:#0x}; sf.; pdua {:#0x}", 0u64, 0u64));
    assert_eq!(bytes_listing("0x10", 12), vec![String::from("s 0x10"), String::from("pD 12")]);
}

#[test]
fn backend_failure_leaves_the_header() {
    let symbol = "helper";
    let expected = finish(header(0, "Demo", symbol));
    // while the session is opened
    let mut cache = R2PipeCache::new();
    let (task, _) = begin(0, &frame(0, 0x10, Some(symbol), Some(8)));
    let (task, _) = task.step(Event::PathProbed { exists: true }, &mut cache);
    let (task, action) = task.step(Event::BackendFailed, &mut cache);
    assert_eq!(action, expected);
    assert_eq!(task.phase(), Phase::Finished);
    assert!(!cache.is_ready(0));
    // while the symbol is looked up
    let mut cache = R2PipeCache::new();
    let (task, _) = begin(0, &frame(0, 0x10, Some(symbol), Some(8)));
    let (task, _) = task.step(Event::PathProbed { exists: true }, &mut cache);
    let (task, _) = task.step(Event::SessionOpened, &mut cache);
    let (_, action) = task.step(Event::BackendFailed, &mut cache);
    assert_eq!(action, expected);
    // while the bytes are listed
    let mut cache = R2PipeCache::new();
    let (task, _) = begin(0, &frame(0, 0x10, Some(symbol), Some(8)));
    let (task, _) = task.step(Event::PathProbed { exists: true }, &mut cache);
    let (task, _) = task.step(Event::SessionOpened, &mut cache);
    let (task, _) = task.step(reply("0x10"), &mut cache);
    let (_, action) = task.step(Event::BackendFailed, &mut cache);
    assert_eq!(action, expected);
    // while the sections are read, and while the function is listed
    let mut cache = R2PipeCache::new();
    let (task, _) = begin(0, &frame(0, 0x10, Some("a + b"), None));
    let (task, _) = task.step(Event::PathProbed { exists: true }, &mut cache);
    let (task, _) = task.step(Event::SessionOpened, &mut cache);
    let (_, action) = task.step(Event::BackendFailed, &mut cache);
    assert_eq!(action, finish(header(0, "Demo", "a + b")));
    let (task, _) = begin(0, &frame(0, 0x10, Some("a + b"), None));
    let (task, _) = task.step(Event::PathProbed { exists: true }, &mut cache);
    let (task, _) = task.step(reply(r#"[{"vaddr":4294967296}]"#), &mut cache);
    let (_, action) = task.step(Event::BackendFailed, &mut cache);
    assert_eq!(action, finish(header(0, "Demo", "a + b")));
}

#[test]
fn second_frame_of_a_binary_reuses_the_session() {
    let mut cache = R2PipeCache::new();
    let (task, _) = begin(1, &frame(0, 0x10, Some("helper"), Some(8)));
    let (task, action) = task.step(Event::PathProbed { exists: true }, &mut cache);
    assert!(matches!(action, Action::OpenSession { session: 0, .. }));
    let _ = task.step(Event::SessionOpened, &mut cache);
    let (task, _) = begin(0, &frame(0, 0x20, Some("main"), Some(4)));
    let (task, action) = task.step(Event::PathProbed { exists: true }, &mut cache);
    assert_eq!(action, run(0, &["is ~main~!block_invoke[2]:0"]));
    assert_eq!(task.phase(), Phase::SymbolAddress);
    assert_eq!(cache.len(), 1);
}

#[test]
fn binary_that_could_not_be_opened_is_tried_again() {
    let mut cache = R2PipeCache::new();
    let (task, _) = begin(1, &frame(0, 0x10, Some("helper"), Some(8)));
    let (task, action) = task.step(Event::PathProbed { exists: true }, &mut cache);
    assert!(matches!(action, Action::OpenSession { session: 0, .. }));
    assert_eq!(cache.len(), 1);
    let (_, action) = task.step(Event::BackendFailed, &mut cache);
    assert_eq!(action, finish(header(1, "Demo", "helper")));
    assert_eq!(cache.len(), 0);
    let (task, _) = begin(0, &frame(0, 0x20, Some("main"), Some(4)));
    let (task, action) = task.step(Event::PathProbed { exists: true }, &mut cache);
    assert_eq!(
        action,
        Action::OpenSession {
            session: 0,
            path: String::from("apps/Demo.app/Demo"),
            analysis: String::from("aaa"),
        }
    );
    let (_, action) = task.step(Event::SessionOpened, &mut cache);
    assert_eq!(action, run(0, &["is ~main~!block_invoke[2]:0"]));
    assert!(cache.is_ready(0));
}

#[test]
fn session_that_is_not_ready_is_opened() {
    let lookup = SessionLookup { session: 2, created: false, ready: false };
    let (task, _) = begin(0, &frame(0, 0x10, Some("main"), Some(8)));
    let (task, action) = task.path_probed(true, Some(lookup), Ok(None));
    assert!(matches!(action, Action::OpenSession { session: 2, .. }));
    assert_eq!(task.phase(), Phase::Opening);
}

#[test]
fn event_that_answers_nothing_ends_the_run() {
    let unexpected = Action::Abort { error: AnalysisError::UnexpectedEvent };
    let mut cache = R2PipeCache::new();
    let (task, _) = begin(0, &frame(0, 0x10, Some("main"), Some(8)));
    let (task, action) = task.step(Event::SessionOpened, &mut cache);
    assert_eq!(action, unexpected);
    assert_eq!(task.phase(), Phase::Finished);
    let (_, action) = task.step(Event::PathProbed { exists: true }, &mut cache);
    assert_eq!(action, unexpected);
    let (task, _) = begin(0, &frame(0, 0x10, Some("main"), Some(8)));
    let (_, action) = task.step(Event::BackendFailed, &mut cache);
    assert_eq!(action, unexpected);
    let (task, _) = begin(0, &frame(0, 0x10, Some("main"), Some(8)));
    let (task, _) = task.step(Event::PathProbed { exists: true }, &mut cache);
    let (_, action) = task.step(reply("0x10"), &mut cache);
    assert_eq!(action, unexpected);
    let (_, action) = FrameTask::finished().step(reply(""), &mut cache);
    assert_eq!(action, unexpected);
}

#[test]
fn path_without_file_name_ends_the_run() {
    let mut cache = R2PipeCache::new();
    let images = vec![image(Some(".."), Some("/usr/lib/.."), 0x1000)];
    let (task, action) =
        FrameTask::begin(&images, "Demo", false, &filtered(), 0, &frame(0, 0, Some("main"), None));
    assert_eq!(action, Action::ProbePath { path: String::from("dylibs/..") });
    let (_, action) = task.step(Event::PathProbed { exists: true }, &mut cache);
    assert_eq!(action, Action::Abort { error: AnalysisError::NoFileName });
}

#[test]
fn rejected_pattern_ends_the_run() {
    let mut cache = R2PipeCache::new();
    let (task, _) = begin(0, &frame(0, 0x10, Some("-[A b]"), Some(8)));
    let (task, _) = task.step(Event::PathProbed { exists: true }, &mut cache);
    let (task, action) = task.session_ready(Err(SymbolError::PatternRejected));
    assert_eq!(action, Action::Abort { error: AnalysisError::PatternRejected });
    assert_eq!(task.phase(), Phase::Finished);
}

#[test]
fn raw_address_needs_no_query() {
    let mut cache = R2PipeCache::new();
    let (task, _) = begin(0, &frame(0, 0x10, None, None));
    let (task, _) = task.step(Event::PathProbed { exists: true }, &mut cache);
    assert!(task.has_raw_address());
    let (_, action) = task.session_ready(Err(SymbolError::PatternRejected));
    assert_eq!(action, run(0, &["iSSj"]));
}

#[test]
fn steps_take_the_outcomes_as_given() {
    let lookup = SessionLookup { session: 3, created: false, ready: true };
    let (task, _) = begin(0, &frame(0, 0x10, Some("main"), Some(8)));
    let (task, action) = task.path_probed(true, Some(lookup), Ok(Some(String::from("QUERY"))));
    assert_eq!(action, run(3, &["QUERY"]));
    let (task, action) = task.symbol_address_known("0x20");
    assert_eq!(action, run(3, &["s 0x20", "pD 12"]));
    let (_, action) = task.listing_known("ASM");
    assert_eq!(action, finish(header(0, "Demo", "main") + "ASM\n"));
    let (task, _) = begin(0, &frame(0, 0x10, Some("main"), Some(8)));
    let (task, action) = task.path_probed(true, Some(lookup), Ok(None));
    assert_eq!(action, run(3, &["iSSj"]));
    let (_, action) = task.static_base_known(Some(0x1_0000_0000));
    assert_eq!(action, run(3, &["s 0x100000010; sf.; pdua 0x100000010"]));
    let (task, _) = begin(0, &frame(0, 0x10, Some("main"), Some(8)));
    let (_, action) = task.path_probed(true, None, Ok(None));
    assert_eq!(action, Action::Abort { error: AnalysisError::NoFileName });
    let (task, _) = begin(0, &frame(0, 0x10, Some("main"), Some(8)));
    let (_, action) = task.static_base_known(None);
    assert_eq!(action, finish(header(0, "Demo", "main")));
}
