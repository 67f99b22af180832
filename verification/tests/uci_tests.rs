use pawngrade::uci::{parse_go_params, parse_uci_command, parse_unsigned, str_eq, tokenize, UciCommand};

#[test]
fn single_word_commands() {
    assert!(matches!(parse_uci_command("uci"), UciCommand::Uci));
    assert!(matches!(parse_uci_command("isready"), UciCommand::IsReady));
    assert!(matches!(parse_uci_command("ucinewgame"), UciCommand::NewGame));
    assert!(matches!(parse_uci_command("quit"), UciCommand::Quit));
    assert!(matches!(parse_uci_command(""), UciCommand::Unknown));
    assert!(matches!(parse_uci_command("stop"), UciCommand::Unknown));
}

#[test]
fn go_parameters_are_read() {
    match parse_uci_command("go wtime 1000 btime 2500 depth 5") {
        UciCommand::Go { wtime, btime, depth } => {
            assert_eq!(wtime, 1000);
            assert_eq!(btime, 2500);
            assert_eq!(depth, 5);
        }
        _ => panic!("expected a go command"),
    }
    // missing parameters keep their defaults; a bare depth cap of zero
    // means no cap
    match parse_uci_command("go wtime 99") {
        UciCommand::Go { wtime, btime, depth } => {
            assert_eq!(wtime, 99);
            assert_eq!(btime, 100_000_000_000);
            assert_eq!(depth, 0);
        }
        _ => panic!("expected a go command"),
    }
    // malformed numbers are passed over
    match parse_uci_command("go wtime abc btime 7") {
        UciCommand::Go { wtime, btime, .. } => {
            assert_eq!(wtime, 100_000_000_000);
            assert_eq!(btime, 7);
        }
        _ => panic!("expected a go command"),
    }
}

#[test]
fn position_startpos_with_moves() {
    match parse_uci_command("position startpos moves e2e4 e7e5") {
        UciCommand::Position { startpos, fen: _, moves } => {
            assert!(startpos);
            assert_eq!(moves.len(), 2);
            assert_eq!(moves[0], "e2e4");
            assert_eq!(moves[1], "e7e5");
        }
        _ => panic!("expected a position command"),
    }
}

#[test]
fn position_fen_collects_the_fields() {
    let line = "position fen 6k1/1p3pp1/p7/8/r2n4/8/3K4/7q b - - 0 1 moves h1g2";
    match parse_uci_command(line) {
        UciCommand::Position { startpos, fen, moves } => {
            assert!(!startpos);
            assert_eq!(fen, "6k1/1p3pp1/p7/8/r2n4/8/3K4/7q b - - 0 1");
            assert_eq!(moves.len(), 1);
            assert_eq!(moves[0], "h1g2");
        }
        _ => panic!("expected a position command"),
    }
}

#[test]
fn numbers_parse_exactly() {
    assert_eq!(parse_unsigned("0"), Some(0));
    assert_eq!(parse_unsigned("42"), Some(42));
    assert_eq!(parse_unsigned("123456789012345678"), Some(123456789012345678));
    assert_eq!(parse_unsigned(""), None);
    assert_eq!(parse_unsigned("12x"), None);
    assert_eq!(parse_unsigned("-5"), None);
    assert_eq!(parse_unsigned("1234567890123456789"), None);
}

#[test]
fn tokens_split_on_spaces() {
    let tokens = tokenize("  go   wtime  12 ");
    assert_eq!(tokens.len(), 3);
    assert_eq!(tokens[0], "go");
    assert_eq!(tokens[1], "wtime");
    assert_eq!(tokens[2], "12");
    assert_eq!(tokenize("").len(), 0);
    assert_eq!(tokenize("   ").len(), 0);
}

#[test]
fn text_equality_is_exact() {
    assert!(str_eq("wtime", "wtime"));
    assert!(!str_eq("wtime", "btime"));
    assert!(!str_eq("wtime", "wtim"));
    assert!(!str_eq("", "a"));
    assert!(str_eq("", ""));
}

#[test]
fn go_fold_without_the_keyword_list() {
    let tokens = vec![
        String::from("go"),
        String::from("depth"),
        String::from("250"),
        String::from("btime"),
        String::from("8"),
    ];
    let (wtime, btime, depth) = parse_go_params(&tokens);
    assert_eq!(wtime, 100_000_000_000);
    assert_eq!(btime, 8);
    // the depth cap saturates at one hundred
    assert_eq!(depth, 100);
}

#[test]
fn later_moves_keywords_are_dropped() {
    // only the played moves survive; a stray repeated keyword does not
    match parse_uci_command("position startpos moves e2e4 moves e7e5") {
        UciCommand::Position { startpos, fen: _, moves } => {
            assert!(startpos);
            assert_eq!(moves.len(), 2);
            assert_eq!(moves[0], "e2e4");
            assert_eq!(moves[1], "e7e5");
        }
        _ => panic!("expected a position command"),
    }
    match parse_uci_command("position fen 8/8/8/8/8/8/8/K6k w - - 0 1") {
        UciCommand::Position { startpos, fen, moves } => {
            assert!(!startpos);
            assert_eq!(fen, "8/8/8/8/8/8/8/K6k w - - 0 1");
            assert_eq!(moves.len(), 0);
        }
        _ => panic!("expected a position command"),
    }
}
