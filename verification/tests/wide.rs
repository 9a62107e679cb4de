use message_bridge::{encode_wide, registered_name, TASKBAR_CREATED};

fn std_wide(text: &str) -> Vec<u16> {
    let mut units: Vec<u16> = text.encode_utf16().collect();
    units.push(0);
    units
}

#[test]
fn registered_name_is_the_taskbar_name() {
    assert_eq!(TASKBAR_CREATED, "TaskbarCreated");
    let expected: Vec<u16> =
        vec![84, 97, 115, 107, 98, 97, 114, 67, 114, 101, 97, 116, 101, 100, 0];
    assert_eq!(registered_name(), expected);
    let by_std: Vec<u16> = "TaskbarCreated\0".encode_utf16().collect();
    assert_eq!(registered_name(), by_std);
}

#[test]
fn empty_name_is_the_terminator_alone() {
    assert_eq!(encode_wide(""), vec![0u16]);
}

#[test]
fn basic_plane_characters_take_one_unit() {
    assert_eq!(encode_wide("A"), vec![0x0041u16, 0]);
    assert_eq!(encode_wide("\u{e9}"), vec![0x00E9u16, 0]);
    assert_eq!(encode_wide("\u{20ac}"), vec![0x20ACu16, 0]);
    assert_eq!(encode_wide("\u{d7ff}\u{e000}\u{ffff}"), vec![0xD7FFu16, 0xE000, 0xFFFF, 0]);
}

#[test]
fn other_characters_take_a_surrogate_pair() {
    assert_eq!(encode_wide("\u{10000}"), vec![0xD800u16, 0xDC00, 0]);
    assert_eq!(encode_wide("\u{1f600}"), vec![0xD83Du16, 0xDE00, 0]);
    assert_eq!(encode_wide("\u{10ffff}"), vec![0xDBFFu16, 0xDFFF, 0]);
    assert_eq!(encode_wide("a\u{1d11e}b"), vec![0x0061u16, 0xD834, 0xDD1E, 0x0062, 0]);
}

#[test]
fn encoding_agrees_with_the_standard_encoder() {
    let samples = [
        "",
        "TaskbarCreated",
        "Shell_TrayWnd",
        "gr\u{fc}\u{df}e",
        "\u{65e5}\u{672c}\u{8a9e}",
        "\u{1f600}\u{1f601} mixed \u{10348} text",
        "nul\0inside",
    ];
    for text in samples {
        assert_eq!(encode_wide(text), std_wide(text));
    }
}

#[test]
fn terminator_is_the_only_zero_of_a_name_without_one() {
    let units = encode_wide("TaskbarCreated");
    assert_eq!(units.len(), 15);
    assert_eq!(units.iter().position(|u| *u == 0), Some(14));
    let broken = encode_wide("nul\0inside");
    assert_eq!(broken.iter().position(|u| *u == 0), Some(3));
}
