use chip8_ports::keyboard::{KeyMap, KeyboardMessage};

#[test]
fn standard_layout_maps_every_key() {
    let map = KeyMap::new();
    let layout = [
        ("1", 0x1), ("2", 0x2), ("3", 0x3), ("4", 0xC),
        ("q", 0x4), ("w", 0x5), ("e", 0x6), ("r", 0xD),
        ("a", 0x7), ("s", 0x8), ("d", 0x9), ("f", 0xE),
        ("z", 0xA), ("x", 0x0), ("c", 0xB), ("v", 0xF),
    ];
    for (label, code) in layout {
        assert_eq!(map.key(label), Some(code));
    }
}

#[test]
fn unknown_labels_map_to_nothing() {
    let map = KeyMap::default();
    for label in ["", "ZZZ", "11", "Q", "5", "g", "\u{e9}", " "] {
        assert_eq!(map.key(label), None);
    }
}

#[test]
fn lookups_agree() {
    let map = KeyMap::new();
    for label in ["1", "v", "ZZZ", "x"] {
        assert_eq!(map.key(label), map.key(label));
    }
}

#[test]
fn messages_carry_their_key() {
    assert_eq!(KeyboardMessage::down(0xA), KeyboardMessage::Down(0xA));
    assert_eq!(KeyboardMessage::up(0), KeyboardMessage::Up(0));
}
