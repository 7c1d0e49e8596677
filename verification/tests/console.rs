use mlem_runtime::console::{log_to, ConsoleLog, ConsoleReceiver, STATUS_CAPACITY};

#[test]
fn console_numbers_lines_from_zero() {
    let mut console = ConsoleReceiver::new();
    console.log(String::from("hello"));
    assert_eq!(console.get_last_log(), "[0000] hello\n");
    console.log(String::from("again"));
    assert_eq!(console.get_last_log(), "[0001] again\n");
    assert_eq!(console.get_log_string(), "[0001] again\n[0000] hello");
}

#[test]
fn empty_console_has_no_last_log() {
    let mut console = ConsoleReceiver::new();
    assert_eq!(console.get_last_log(), "");
    assert_eq!(console.get_log_string(), "");
    assert!(!console.update());
}

#[test]
fn console_log_new_keeps_the_message() {
    let log = ConsoleLog::new(String::from("kept"));
    assert_eq!(log.message, "kept");
}

#[test]
fn sender_lines_arrive_in_order() {
    let mut console = ConsoleReceiver::new();
    let sender = console.create_sender();
    sender.log(String::from("one"));
    sender.log(String::from("two"));
    assert!(console.update());
    assert!(!console.update());
    assert_eq!(console.get_last_log(), "[0001] two\n");
    assert_eq!(console.get_log_string(), "[0001] two\n[0000] one");
}

#[test]
fn cloned_sender_feeds_the_same_console() {
    let mut console = ConsoleReceiver::new();
    let sender = console.create_sender();
    let copy = sender.clone();
    drop(sender);
    copy.log(String::from("from the copy"));
    assert_eq!(console.get_last_log(), "[0000] from the copy\n");
}

#[test]
fn sender_outlives_nothing_it_needs() {
    let mut console = ConsoleReceiver::new();
    let sender = console.create_sender();
    let moved = sender;
    moved.log(String::from("from elsewhere"));
    drop(moved);
    assert!(console.update());
    assert_eq!(console.get_last_log(), "[0000] from elsewhere\n");
}

#[test]
fn sender_without_a_receiver_does_not_fail() {
    let console = ConsoleReceiver::new();
    let sender = console.create_sender();
    drop(console);
    sender.log(String::from("into the void"));
}

#[test]
fn display_text_lags_one_call_behind_new_lines() {
    let mut console = ConsoleReceiver::new();
    let sender = console.create_sender();
    sender.log(String::from("fresh"));
    // The lines came in with this very call, so the text of last time stands.
    assert_eq!(console.get_log_string(), "");
    // Nothing new now: the text is put together from the kept lines.
    assert_eq!(console.get_log_string(), "[0000] fresh");
}

#[test]
fn display_text_is_trimmed_at_the_end_only() {
    let mut console = ConsoleReceiver::new();
    console.log(String::from("  padded \t "));
    assert_eq!(console.get_log_string(), "[0000]   padded");
    let mut blank = ConsoleReceiver::new();
    blank.log(String::from("a\u{2003}"));
    assert_eq!(blank.get_log_string(), "[0000] a");
}

#[test]
fn display_keeps_the_text_when_told_of_new_lines() {
    let mut console = ConsoleReceiver::new();
    console.log(String::from("first"));
    assert_eq!(console.display(false), "[0000] first");
    console.log(String::from("second"));
    assert_eq!(console.display(true), "[0000] first");
    assert_eq!(console.display(false), "[0001] second\n[0000] first");
}

#[test]
fn console_keeps_the_newest_lines_only() {
    let mut console = ConsoleReceiver::new();
    for i in 0..70 {
        console.log(format!("line {}", i));
    }
    let text = console.get_log_string();
    let lines: Vec<&str> = text.split('\n').collect();
    assert_eq!(lines.len(), STATUS_CAPACITY);
    assert_eq!(lines[0], "[0069] line 69");
    assert_eq!(lines[63], "[0006] line 6");
    assert_eq!(console.get_last_log(), "[0069] line 69\n");
}

#[test]
fn absorb_takes_a_batch_first_to_last() {
    let mut console = ConsoleReceiver::new();
    let batch = vec![ConsoleLog::new(String::from("a")), ConsoleLog::new(String::from("b"))];
    assert!(console.absorb(batch));
    assert!(!console.absorb(Vec::new()));
    assert_eq!(console.get_log_string(), "[0001] b\n[0000] a");
}

#[test]
fn line_numbers_grow_past_four_digits() {
    let mut console = ConsoleReceiver::new();
    for _ in 0..10001 {
        console.log(String::new());
    }
    assert_eq!(console.get_last_log(), "[10000] \n");
}

#[test]
fn log_to_posts_where_there_is_a_console() {
    let mut console = ConsoleReceiver::new();
    let sender = Some(console.create_sender());
    log_to(&sender, String::from("posted"));
    log_to(&None, String::from("dropped"));
    assert_eq!(console.get_last_log(), "[0000] posted\n");
}

fn has_white_space_property(code: u32) -> bool {
    matches!(
        code,
        0x0009..=0x000D
            | 0x0020
            | 0x0085
            | 0x00A0
            | 0x1680
            | 0x2000..=0x200A
            | 0x2028
            | 0x2029
            | 0x202F
            | 0x205F
            | 0x3000
    )
}

fn shown_after(c: char) -> String {
    let mut console = ConsoleReceiver::new();
    console.log(format!("x{}", c));
    console.display(false)
}

#[test]
fn display_trims_exactly_the_white_space_code_points() {
    // Every code point of the basic plane, where all white space lies.
    for code in 0..=0xFFFFu32 {
        let c = match char::from_u32(code) {
            Some(c) => c,
            None => continue,
        };
        let expected =
            if has_white_space_property(code) { String::from("[0000] x") } else { format!("[0000] x{}", c) };
        assert_eq!(shown_after(c), expected, "code point {:#06x}", code);
    }
}

#[test]
fn display_keeps_characters_beyond_the_basic_plane() {
    let mut code = 0x10000u32;
    while code <= 0x10FFFF {
        if let Some(c) = char::from_u32(code) {
            assert_eq!(shown_after(c), format!("[0000] x{}", c), "code point {:#08x}", code);
        }
        code += 0x101;
    }
    assert_eq!(shown_after('\u{10FFFF}'), "[0000] x\u{10FFFF}");
}
