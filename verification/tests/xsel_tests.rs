use wsl_tools::clipboard::{
    after_attempt, byte_size, text_from_units, units_for_text, OpenDecision, CF_UNICODETEXT,
    OPEN_ATTEMPTS, RETRY_DELAY_MS,
};
use wsl_tools::message_box::encode_utf16;
use wsl_tools::utf16::{decode, decode_lossy, encode, terminator};
use wsl_tools::xsel::{copied_text, pasted_text, plan, Change, Options, Plan};

fn options() -> Options {
    Options {
        append: false,
        input: false,
        output: false,
        keep_crlf: false,
        clear: false,
        keep: false,
        exchange: false,
        trim: false,
    }
}

#[test]
fn pastes_if_both_stdin_and_stdout_are_ttys() {
    assert_eq!(plan(options(), true, true), Plan { output: true, change: Change::Nothing });
}

#[test]
fn copies_without_pasting_if_stdin_is_redirected() {
    assert_eq!(plan(options(), false, true), Plan { output: false, change: Change::Replace });
}

#[test]
fn copies_and_pastes_if_both_stdin_and_stdout_are_redirected() {
    assert_eq!(plan(options(), false, false), Plan { output: true, change: Change::Replace });
}

#[test]
fn input_copies_even_if_stdout_is_redirected() {
    let input = Options { input: true, ..options() };
    assert_eq!(plan(input, true, false), Plan { output: false, change: Change::Replace });
    assert_eq!(plan(input, false, false), Plan { output: false, change: Change::Replace });
}

#[test]
fn output_pastes_even_if_stdin_is_redirected() {
    let output = Options { output: true, ..options() };
    assert_eq!(plan(output, false, true), Plan { output: true, change: Change::Nothing });
    assert_eq!(plan(output, false, false), Plan { output: true, change: Change::Nothing });
}

#[test]
fn input_and_output_together_copies_and_pastes() {
    let both = Options { input: true, output: true, ..options() };
    assert_eq!(plan(both, true, true), Plan { output: true, change: Change::Replace });
}

#[test]
fn appends_to_clipboard() {
    let append = Options { append: true, ..options() };
    assert_eq!(plan(append, false, true), Plan { output: false, change: Change::Append });
    assert_eq!(copied_text("previous ", "next", false), "previous next");
}

#[test]
fn outputs_and_appends_to_clipboard() {
    let both = Options { append: true, output: true, ..options() };
    assert_eq!(plan(both, false, false), Plan { output: true, change: Change::Append });
}

#[test]
fn clears_the_clipboard() {
    let clear = Options { clear: true, ..options() };
    assert_eq!(plan(clear, true, true), Plan { output: false, change: Change::Clear });
    assert_eq!(plan(clear, false, false), Plan { output: false, change: Change::Clear });
}

#[test]
fn outputs_and_clears_the_clipboard() {
    let both = Options { clear: true, output: true, ..options() };
    assert_eq!(plan(both, true, true), Plan { output: true, change: Change::Clear });
}

#[test]
fn keep_and_exchange_noop_and_exit() {
    let nothing = Plan { output: false, change: Change::Nothing };
    let keep = Options { keep: true, input: true, output: true, clear: true, ..options() };
    let exchange = Options { exchange: true, append: true, ..options() };
    assert_eq!(plan(keep, false, false), nothing);
    assert_eq!(plan(exchange, false, false), nothing);
    assert_eq!(plan(Options { keep: true, ..options() }, true, true), nothing);
}

#[test]
fn crlf_is_replaced_with_lf_by_default() {
    assert_eq!(pasted_text("rin\r\nmiku\r\n", false, false), "rin\nmiku\n");
    assert_eq!(pasted_text("a\rb\r\r\nc\n\r", false, false), "a\rb\r\nc\n\r");
    assert_eq!(pasted_text("", false, false), "");
}

#[test]
fn keep_crlf_preserves_line_endings() {
    assert_eq!(pasted_text("rin\r\nmiku\r\n", true, false), "rin\r\nmiku\r\n");
}

#[test]
fn trims_newlines_from_input_and_output() {
    assert_eq!(pasted_text("rin\r\nmiku\r\n\n\r", false, true), "rin\nmiku");
    assert_eq!(copied_text("", "rin\r\nmiku\n\n", true), "rin\r\nmiku");
    assert_eq!(copied_text("old\n", "\r\n", true), "old");
    assert_eq!(copied_text("", "\n", true), "");
    assert_eq!(copied_text("old\n", "new\n", false), "old\nnew\n");
}

#[test]
fn trims_newlines_from_output_while_preserving_line_endings() {
    assert_eq!(pasted_text("rin\r\nmiku\r\n", true, true), "rin\r\nmiku");
    assert_eq!(pasted_text(" \n", true, true), " ");
}

#[test]
fn opening_the_clipboard_is_tried_ten_times() {
    assert_eq!(OPEN_ATTEMPTS, 10);
    assert_eq!(RETRY_DELAY_MS, 100);
    assert_eq!(CF_UNICODETEXT, 13);
    assert_eq!(after_attempt(1, true), OpenDecision::Proceed);
    assert_eq!(after_attempt(10, true), OpenDecision::Proceed);
    for attempt in 1..10 {
        assert_eq!(after_attempt(attempt, false), OpenDecision::Retry);
    }
    assert_eq!(after_attempt(10, false), OpenDecision::GiveUp);
    assert_eq!(after_attempt(11, false), OpenDecision::GiveUp);
}

#[test]
fn sets_ascii_text() {
    let units = units_for_text("kagamine rin");
    assert_eq!(units.len(), 13);
    assert_eq!(units[0], 'k' as u16);
    assert_eq!(units[12], 0);
    assert_eq!(byte_size(units.len()), Some(26));
}

#[test]
fn sets_unicode_text() {
    assert_eq!(units_for_text("鏡音リン"), vec![0x93E1, 0x97F3, 0x30EA, 0x30F3, 0]);
    assert_eq!(units_for_text("😀"), vec![0xD83D, 0xDE00, 0]);
    assert_eq!(units_for_text(""), vec![0]);
}

#[test]
fn gets_unicode_text() {
    assert_eq!(text_from_units(&vec![0x93E1, 0x97F3, 0x30EA, 0x30F3, 0, 0x41]), "鏡音リン");
    assert_eq!(text_from_units(&vec![0xD83D, 0xDE00]), "😀");
    assert_eq!(text_from_units(&vec![0xD83D, 0x41, 0xDE00, 0]), "\u{FFFD}A\u{FFFD}");
    assert_eq!(text_from_units(&vec![0]), "");
    assert_eq!(text_from_units(&Vec::new()), "");
}

#[test]
fn gets_text_with_newlines() {
    let units = units_for_text("rin\r\nmiku\n");
    assert_eq!(text_from_units(&units), "rin\r\nmiku\n");
}

#[test]
fn byte_size_is_twice_the_units() {
    assert_eq!(byte_size(0), Some(0));
    assert_eq!(byte_size(usize::MAX / 2), Some(usize::MAX - 1));
    assert_eq!(byte_size(usize::MAX / 2 + 1), None);
    assert_eq!(byte_size(usize::MAX), None);
}

#[test]
fn utf16_round_trip() {
    for text in ["", "plain", "リン%20& ちゃん", "a😀b", "\u{FFFF}\u{10000}\u{10FFFF}"] {
        let units = encode(text);
        assert_eq!(units, text.encode_utf16().collect::<Vec<u16>>());
        assert_eq!(decode(&units), Some(text.to_string()));
        assert_eq!(decode_lossy(&units), text);
    }
    assert_eq!(encode("\u{10000}"), vec![0xD800, 0xDC00]);
    assert_eq!(encode("\u{10FFFF}"), vec![0xDBFF, 0xDFFF]);
}

#[test]
fn unpaired_surrogates_are_rejected() {
    assert_eq!(decode(&vec![0xD800]), None);
    assert_eq!(decode(&vec![0xDC00, 0x41]), None);
    assert_eq!(decode(&vec![0xD800, 0xD800, 0xDC00]), None);
    assert_eq!(decode(&vec![0xD800, 0xDC00]), Some("\u{10000}".to_string()));
    assert_eq!(decode(&vec![0x41, 0xD7FF, 0xE000]), Some("A\u{D7FF}\u{E000}".to_string()));
    assert_eq!(decode_lossy(&vec![0xD800, 0xD800, 0xDC00]), "\u{FFFD}\u{10000}");
    assert_eq!(decode_lossy(&vec![0xDFFF]), "\u{FFFD}");
}

#[test]
fn terminator_is_the_first_zero() {
    assert_eq!(terminator(&vec![1, 2, 0, 3, 0]), Some(2));
    assert_eq!(terminator(&vec![0]), Some(0));
    assert_eq!(terminator(&vec![1, 2]), None);
    assert_eq!(terminator(&Vec::new()), None);
}

#[test]
fn message_text_ends_with_a_zero() {
    assert_eq!(encode_utf16("Hi"), vec![0x48, 0x69, 0]);
    assert_eq!(encode_utf16(""), vec![0]);
    assert_eq!(encode_utf16("鏡😀"), vec![0x93E1, 0xD83D, 0xDE00, 0]);
}
