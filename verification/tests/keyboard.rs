use remote_pad::virtual_keyboard_matrix::VirtualKeyaboardMatrixItem as Key;
use remote_pad::virtual_keyboard_matrix::GRID_COLUMNS;
use remote_pad::virtual_keyboard_matrix::GRID_ROWS;

fn keys_of(bytes: &[u8]) -> Vec<Key> {
    let mut walk = Key::convert_bytes(bytes);
    let mut keys = Vec::new();
    while let Some(key) = walk.next() {
        keys.push(key);
    }
    keys
}

#[test]
fn digits_name_the_top_row() {
    assert_eq!(Key::byte_to_matrix(b'1'), Some(Key::N1));
    assert_eq!(Key::byte_to_matrix(b'5'), Some(Key::N5));
    assert_eq!(Key::byte_to_matrix(b'9'), Some(Key::N9));
    assert_eq!(Key::byte_to_matrix(b'0'), Some(Key::N0));
}

#[test]
fn letters_name_their_key_in_either_case() {
    assert_eq!(Key::byte_to_matrix(b'q'), Some(Key::Q));
    assert_eq!(Key::byte_to_matrix(b'Q'), Some(Key::Q));
    assert_eq!(Key::byte_to_matrix(b'm'), Some(Key::M));
    assert_eq!(Key::byte_to_matrix(b'M'), Some(Key::M));
    for letter in b'a'..=b'z' {
        let lower = Key::byte_to_matrix(letter);
        assert!(lower.is_some());
        assert_eq!(lower, Key::byte_to_matrix(letter.to_ascii_uppercase()));
    }
}

#[test]
fn space_dash_and_line_feed_are_keys() {
    assert_eq!(Key::byte_to_matrix(b' '), Some(Key::Space));
    assert_eq!(Key::byte_to_matrix(b'-'), Some(Key::Dash));
    assert_eq!(Key::byte_to_matrix(b'\n'), Some(Key::EOL));
}

#[test]
fn control_codes_name_trash_backspace_and_quit() {
    assert_eq!(Key::byte_to_matrix(1), Some(Key::Trash));
    assert_eq!(Key::byte_to_matrix(2), Some(Key::Backspace));
    assert_eq!(Key::byte_to_matrix(3), Some(Key::Quit));
}

#[test]
fn other_bytes_name_no_key() {
    assert_eq!(Key::byte_to_matrix(0), None);
    assert_eq!(Key::byte_to_matrix(4), None);
    assert_eq!(Key::byte_to_matrix(b'.'), None);
    assert_eq!(Key::byte_to_matrix(b'\r'), None);
    assert_eq!(Key::byte_to_matrix(0x80), None);
    let mut named = 0;
    for byte in 0..=255u8 {
        if Key::byte_to_matrix(byte).is_some() {
            named += 1;
        }
    }
    assert_eq!(named, 10 + 2 * 26 + 3 + 3);
}

#[test]
fn keys_sit_in_four_rows_of_ten() {
    assert_eq!(GRID_ROWS, 4);
    assert_eq!(GRID_COLUMNS, 10);
    assert_eq!(Key::N1.location(), Some((0, 0)));
    assert_eq!(Key::N0.location(), Some((0, 9)));
    assert_eq!(Key::Q.location(), Some((1, 0)));
    assert_eq!(Key::P.location(), Some((1, 9)));
    assert_eq!(Key::A.location(), Some((2, 0)));
    assert_eq!(Key::L.location(), Some((2, 8)));
    assert_eq!(Key::Z.location(), Some((3, 0)));
    assert_eq!(Key::Space.location(), Some((3, 4)));
    assert_eq!(Key::Dash.location(), Some((3, 8)));
}

#[test]
fn control_tokens_and_end_of_line_sit_nowhere() {
    assert_eq!(Key::Trash.location(), None);
    assert_eq!(Key::Backspace.location(), None);
    assert_eq!(Key::Quit.location(), None);
    assert_eq!(Key::EOL.location(), None);
}

#[test]
fn no_two_keys_share_a_place() {
    let mut keys: Vec<Key> = Vec::new();
    for byte in 0..=255u8 {
        if let Some(key) = Key::byte_to_matrix(byte) {
            if !keys.contains(&key) {
                keys.push(key);
            }
        }
    }
    let mut placed: Vec<(i8, i8)> = Vec::new();
    for key in keys.iter() {
        if let Some(place) = key.location() {
            assert!(0 <= place.0 && place.0 < GRID_ROWS);
            assert!(0 <= place.1 && place.1 < GRID_COLUMNS);
            assert!(!placed.contains(&place));
            placed.push(place);
        }
    }
    assert_eq!(placed.len(), 38);
}

#[test]
fn move_delta_is_target_minus_origin() {
    assert_eq!(Key::Q.compute_move_delta(&Key::A), Some((1, 0)));
    assert_eq!(Key::A.compute_move_delta(&Key::Q), Some((-1, 0)));
    assert_eq!(Key::N1.compute_move_delta(&Key::Dash), Some((3, 8)));
    assert_eq!(Key::Dash.compute_move_delta(&Key::N1), Some((-3, -8)));
    assert_eq!(Key::N0.compute_move_delta(&Key::Z), Some((3, -9)));
    assert_eq!(Key::G.compute_move_delta(&Key::G), Some((0, 0)));
}

#[test]
fn move_delta_matches_the_places_of_every_pair() {
    let mut keys: Vec<Key> = Vec::new();
    for byte in 0..=255u8 {
        if let Some(key) = Key::byte_to_matrix(byte) {
            if !keys.contains(&key) {
                keys.push(key);
            }
        }
    }
    assert_eq!(keys.len(), 42);
    for from in keys.iter() {
        for to in keys.iter() {
            let expected = match (from.location(), to.location()) {
                (Some(a), Some(b)) => Some((b.0 - a.0, b.1 - a.1)),
                _ => None,
            };
            assert_eq!(from.compute_move_delta(to), expected);
        }
    }
}

#[test]
fn a_key_without_a_place_gives_no_delta() {
    assert_eq!(Key::EOL.compute_move_delta(&Key::A), None);
    assert_eq!(Key::A.compute_move_delta(&Key::EOL), None);
    assert_eq!(Key::Quit.compute_move_delta(&Key::Q), None);
    assert_eq!(Key::Q.compute_move_delta(&Key::Trash), None);
    assert_eq!(Key::Backspace.compute_move_delta(&Key::Backspace), None);
}

#[test]
fn walking_a_buffer_gives_its_keys_in_order() {
    assert_eq!(keys_of(b"qa\n"), vec![Key::Q, Key::A, Key::EOL]);
    assert_eq!(keys_of(b"Hi 5"), vec![Key::H, Key::I, Key::Space, Key::N5]);
}

#[test]
fn walking_a_buffer_skips_bytes_that_name_no_key() {
    assert_eq!(keys_of(b"q.a"), vec![Key::Q, Key::A]);
    assert_eq!(keys_of(&[0, b'z', 0xff, 0xfe, b'x', b'!']), vec![Key::Z, Key::X]);
    assert_eq!(keys_of(b"..."), vec![]);
}

#[test]
fn walking_an_empty_buffer_gives_nothing() {
    let mut walk = Key::convert_bytes(&[]);
    assert_eq!(walk.next(), None);
    assert_eq!(walk.next(), None);
}

#[test]
fn a_finished_walk_stays_finished() {
    let mut walk = Key::convert_bytes(b"w");
    assert_eq!(walk.next(), Some(Key::W));
    assert_eq!(walk.next(), None);
    assert_eq!(walk.next(), None);
}
