use starhigh::decimal::{format_decimal, read_decimal};
use starhigh::scoreboard::{HighScore, HighScorePolicy, Lives, Scoreboard, STARTING_LIVES};

#[test]
fn a_new_scoreboard_is_empty() {
    assert_eq!(Scoreboard::new().score(), 0);
}

#[test]
fn points_add_up_one_by_one() {
    let mut board = Scoreboard::new();
    let mut last: u64 = 0;
    for n in 1..=25u64 {
        board.add_point();
        assert_eq!(board.score(), n);
        assert!(board.score() >= last);
        last = board.score();
    }
}

#[test]
fn points_stop_at_zero() {
    let mut board = Scoreboard::new();
    board.add_point();
    board.add_point();
    board.remove_point();
    assert_eq!(board.score(), 1);
    board.remove_point();
    assert_eq!(board.score(), 0);
    for _ in 0..10 {
        board.remove_point();
        assert_eq!(board.score(), 0);
    }
}

#[test]
fn lives_start_at_three() {
    let lives = Lives::new();
    assert_eq!(STARTING_LIVES, 3);
    assert_eq!(lives.count(), 3);
    assert!(!lives.is_dead());
}

#[test]
fn lives_go_up_and_down() {
    let mut lives = Lives::new();
    lives.add_life();
    assert_eq!(lives.count(), 4);
    lives.remove_life();
    lives.remove_life();
    lives.remove_life();
    assert_eq!(lives.count(), 1);
    assert!(!lives.is_dead());
    lives.remove_life();
    assert_eq!(lives.count(), 0);
    assert!(lives.is_dead());
}

#[test]
fn the_best_score_only_rises_when_kept() {
    let mut best = HighScore { value: 12 };
    best.record(7, HighScorePolicy::KeepBest);
    assert_eq!(best.value, 12);
    best.record(12, HighScorePolicy::KeepBest);
    assert_eq!(best.value, 12);
    best.record(30, HighScorePolicy::KeepBest);
    assert_eq!(best.value, 30);
}

#[test]
fn the_best_score_follows_the_last_session_when_overwritten() {
    let mut best = HighScore { value: 12 };
    best.record(7, HighScorePolicy::Overwrite);
    assert_eq!(best.value, 7);
    best.record(0, HighScorePolicy::Overwrite);
    assert_eq!(best.value, 0);
}

#[test]
fn a_best_score_is_stored_as_its_digits() {
    assert_eq!(HighScore { value: 0 }.to_bytes(), b"0".to_vec());
    assert_eq!(HighScore { value: 7 }.to_bytes(), b"7".to_vec());
    assert_eq!(HighScore { value: 10 }.to_bytes(), b"10".to_vec());
    assert_eq!(HighScore { value: 1203 }.to_bytes(), b"1203".to_vec());
    assert_eq!(
        HighScore { value: u64::MAX }.to_bytes(),
        b"18446744073709551615".to_vec()
    );
}

#[test]
fn a_best_score_is_read_from_its_digits() {
    assert_eq!(HighScore::from_bytes(b"0").value, 0);
    assert_eq!(HighScore::from_bytes(b"42").value, 42);
    assert_eq!(HighScore::from_bytes(b"007").value, 7);
    assert_eq!(HighScore::from_bytes(b"+15").value, 15);
    assert_eq!(
        HighScore::from_bytes(b"18446744073709551615").value,
        u64::MAX
    );
}

#[test]
fn what_is_no_number_reads_as_zero() {
    assert_eq!(HighScore::from_bytes(b"").value, 0);
    assert_eq!(HighScore::from_bytes(b"+").value, 0);
    assert_eq!(HighScore::from_bytes(b"-3").value, 0);
    assert_eq!(HighScore::from_bytes(b"12a").value, 0);
    assert_eq!(HighScore::from_bytes(b" 12").value, 0);
    assert_eq!(HighScore::from_bytes(b"12\n").value, 0);
    assert_eq!(HighScore::from_bytes(b"++1").value, 0);
    assert_eq!(HighScore::from_bytes(b"1+1").value, 0);
    assert_eq!(HighScore::from_bytes(&[0xff, 0x31]).value, 0);
}

#[test]
fn a_number_that_does_not_fit_reads_as_zero() {
    assert_eq!(HighScore::from_bytes(b"18446744073709551616").value, 0);
    assert_eq!(HighScore::from_bytes(b"99999999999999999999").value, 0);
    assert_eq!(HighScore::from_bytes(b"184467440737095516150").value, 0);
    assert_eq!(read_decimal(b"18446744073709551616"), None);
    assert_eq!(read_decimal(b"00018446744073709551615"), Some(u64::MAX));
}

#[test]
fn storing_then_loading_gives_the_value_back() {
    let values: [u64; 12] = [
        0,
        1,
        9,
        10,
        11,
        49,
        50,
        99,
        100,
        1_000_000,
        u64::MAX - 1,
        u64::MAX,
    ];
    for &value in values.iter() {
        let stored = HighScore { value }.to_bytes();
        assert_eq!(HighScore::from_bytes(&stored), HighScore { value });
        assert_eq!(read_decimal(&format_decimal(value)), Some(value));
    }
    let mut value: u64 = 1;
    for _ in 0..64 {
        let stored = HighScore { value }.to_bytes();
        assert_eq!(HighScore::from_bytes(&stored).value, value);
        value = value.wrapping_mul(6364136223846793005).wrapping_add(1442695040888963407);
    }
}

#[test]
fn reading_agrees_with_the_standard_parser() {
    let texts: [&str; 16] = [
        "", "0", "5", "+5", "-5", "+", "-", "05", "5 ", " 5", "5.0", "1e3", "\u{663}",
        "18446744073709551615", "18446744073709551616", "+00000000000000000000001",
    ];
    for text in texts.iter() {
        assert_eq!(read_decimal(text.as_bytes()), text.parse::<u64>().ok());
        assert_eq!(
            HighScore::from_bytes(text.as_bytes()).value,
            text.parse::<u64>().unwrap_or(0)
        );
    }
}

#[test]
fn writing_agrees_with_the_standard_formatter() {
    let values: [u64; 8] = [0, 3, 10, 99, 100, 12345, 1 << 40, u64::MAX];
    for &value in values.iter() {
        assert_eq!(format_decimal(value), value.to_string().into_bytes());
    }
}
