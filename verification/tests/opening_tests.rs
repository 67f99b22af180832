use pawngrade::opening::{
    convert_move_to_str, convert_str_to_move, pick_book_move, read_polyglot_book, write_entry,
    Move, PolyglotEntry, PromotionPiece,
};

#[test]
fn packed_fields_read_back() {
    // to = e4 (file 4, rank 3), from = e2 (file 4, rank 1), promotion queen
    let value: u16 = 4 | (3 << 3) | (4 << 6) | (1 << 9) | (4 << 12);
    let m = Move(value);
    assert_eq!(m.value(), value);
    assert_eq!(m.end_file(), 4);
    assert_eq!(m.end_row(), 3);
    assert_eq!(m.start_file(), 4);
    assert_eq!(m.start_row(), 1);
    assert!(matches!(m.promotion_piece(), Some(PromotionPiece::Queen)));
    assert!(matches!(Move(0).promotion_piece(), None));
    assert!(matches!(Move(1 << 12).promotion_piece(), Some(PromotionPiece::Knight)));
    assert!(matches!(Move(2 << 12).promotion_piece(), Some(PromotionPiece::Bishop)));
    assert!(matches!(Move(3 << 12).promotion_piece(), Some(PromotionPiece::Rook)));
}

#[test]
fn move_string_round_trip() {
    let m = convert_str_to_move("e2e4");
    assert_eq!(m.start_file(), 4);
    assert_eq!(m.start_row(), 1);
    assert_eq!(m.end_file(), 4);
    assert_eq!(m.end_row(), 3);
    assert_eq!(convert_move_to_str(m), "e2e4");
    let promo = convert_str_to_move("a7a8q");
    assert!(matches!(promo.promotion_piece(), Some(PromotionPiece::Queen)));
    assert_eq!(convert_move_to_str(promo), "a7a8q");
    let knight = convert_str_to_move("h2h1n");
    assert_eq!(convert_move_to_str(knight), "h2h1n");
    assert_eq!(convert_move_to_str(convert_str_to_move("g8f6")), "g8f6");
}

#[test]
fn record_bytes_round_trip() {
    let entry = PolyglotEntry {
        key: 0x0123_4567_89ab_cdef,
        move_: Move(0x1a2b),
        weight: 0x00ff,
        learn: 0xdead_beef,
    };
    let bytes = write_entry(&entry);
    assert_eq!(bytes.len(), 16);
    assert_eq!(bytes[0], 0x01);
    assert_eq!(bytes[7], 0xef);
    assert_eq!(bytes[8], 0x1a);
    assert_eq!(bytes[9], 0x2b);
    assert_eq!(bytes[10], 0x00);
    assert_eq!(bytes[11], 0xff);
    assert_eq!(bytes[12], 0xde);
    assert_eq!(bytes[15], 0xef);
    let book = read_polyglot_book(&bytes).expect("whole records");
    let group = book.get(&entry.key).expect("key present");
    assert_eq!(group.len(), 1);
    assert_eq!(group[0], entry);
}

#[test]
fn book_groups_by_key() {
    let a = PolyglotEntry { key: 11, move_: Move(100), weight: 1, learn: 0 };
    let b = PolyglotEntry { key: 11, move_: Move(200), weight: 3, learn: 0 };
    let c = PolyglotEntry { key: 22, move_: Move(300), weight: 0, learn: 0 };
    let mut bytes = write_entry(&a);
    bytes.extend(write_entry(&b));
    bytes.extend(write_entry(&c));
    let book = read_polyglot_book(&bytes).expect("whole records");
    assert_eq!(book.get(&11).expect("group").len(), 2);
    assert_eq!(book.get(&22).expect("group").len(), 1);
    assert_eq!(book.get(&11).unwrap()[0], a);
    assert_eq!(book.get(&11).unwrap()[1], b);
    assert!(book.get(&33).is_none());
}

#[test]
fn truncated_books_are_refused() {
    let bytes: Vec<u8> = vec![0u8; 15];
    assert!(read_polyglot_book(&bytes).is_none());
    let bytes: Vec<u8> = vec![0u8; 17];
    assert!(read_polyglot_book(&bytes).is_none());
    let empty: Vec<u8> = Vec::new();
    assert!(read_polyglot_book(&empty).is_some());
}

#[test]
fn book_choice_comes_from_the_group() {
    let empty: Vec<PolyglotEntry> = Vec::new();
    assert!(pick_book_move(&empty).is_none());

    let single = vec![PolyglotEntry { key: 1, move_: Move(777), weight: 0, learn: 0 }];
    assert_eq!(pick_book_move(&single), Some(Move(777)));

    // whatever chance picks, the move is one of the group's
    let group = vec![
        PolyglotEntry { key: 1, move_: Move(10), weight: 5, learn: 0 },
        PolyglotEntry { key: 1, move_: Move(20), weight: 0, learn: 0 },
        PolyglotEntry { key: 1, move_: Move(30), weight: 2, learn: 0 },
    ];
    for _ in 0..50 {
        let picked = pick_book_move(&group).expect("nonempty");
        assert!(picked == Move(10) || picked == Move(20) || picked == Move(30));
    }

    // all weights zero: still a member
    let unweighted = vec![
        PolyglotEntry { key: 1, move_: Move(10), weight: 0, learn: 0 },
        PolyglotEntry { key: 1, move_: Move(20), weight: 0, learn: 0 },
    ];
    for _ in 0..20 {
        let picked = pick_book_move(&unweighted).expect("nonempty");
        assert!(picked == Move(10) || picked == Move(20));
    }
}
