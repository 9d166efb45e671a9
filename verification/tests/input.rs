use chip8::{key_index, poll, PollResult, ESCAPE};

fn down(result: PollResult) -> Option<Vec<usize>> {
    match result {
        PollResult::Stop => None,
        PollResult::Keymap(keymap) => Some((0..16).filter(|&k| keymap.is_down(k)).collect()),
    }
}

#[test]
fn keyboard_block_maps_to_the_keypad() {
    let layout = [
        ('1', 0x1), ('2', 0x2), ('3', 0x3), ('4', 0xC),
        ('q', 0x4), ('w', 0x5), ('e', 0x6), ('r', 0xD),
        ('a', 0x7), ('s', 0x8), ('d', 0x9), ('f', 0xE),
        ('z', 0xA), ('x', 0x0), ('c', 0xB), ('v', 0xF),
    ];
    for (key, index) in layout {
        assert_eq!(key_index(key), Some(index));
    }
}

#[test]
fn other_keys_map_to_nothing() {
    for key in ['0', '5', 'Q', 'b', ' ', ESCAPE, '\n', '\u{e9}'] {
        assert_eq!(key_index(key), None);
    }
}

#[test]
fn poll_stops_on_quit_or_escape() {
    assert_eq!(down(poll(true, &[])), None);
    assert_eq!(down(poll(true, &['q'])), None);
    assert_eq!(down(poll(false, &[ESCAPE])), None);
    assert_eq!(down(poll(false, &['q', 'w', ESCAPE])), None);
}

#[test]
fn poll_builds_the_keymap_of_the_frame() {
    assert_eq!(down(poll(false, &[])), Some(vec![]));
    assert_eq!(down(poll(false, &['x'])), Some(vec![0]));
    assert_eq!(down(poll(false, &['v', '1', 'p', '1', 'q'])), Some(vec![1, 4, 15]));
}
