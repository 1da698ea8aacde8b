use starhigh::scoreboard::Scoreboard;
use starhigh::speed::{Speed, STARTING_SPEED};

fn board_with(points: u64) -> Scoreboard {
    let mut board = Scoreboard::new();
    for _ in 0..points {
        board.add_point();
    }
    board
}

#[test]
fn the_speed_starts_at_one_pixel() {
    let speed = Speed::new();
    assert_eq!(STARTING_SPEED, 100);
    assert_eq!(speed.value, 100);
    assert_eq!(speed.last_increased_at, 0);
}

#[test]
fn the_lowest_bracket_adds_a_quarter() {
    let mut speed = Speed::new();
    speed.increase();
    assert_eq!(speed.value, 125);
    assert_eq!(speed.last_increased_at, 0);
    speed.increase();
    assert_eq!(speed.value, 150);
    assert_eq!(speed.last_increased_at, 0);
}

#[test]
fn each_bracket_has_its_bonus() {
    let cases: [(u64, u64); 11] = [
        (0, 25),
        (99, 25),
        (100, 50),
        (199, 50),
        (200, 75),
        (349, 75),
        (350, 80),
        (499, 80),
        (500, 100),
        (501, 100),
        (u64::MAX, 100),
    ];
    for &(threshold, bonus) in cases.iter() {
        let mut speed = Speed { last_increased_at: threshold, value: 1000 };
        speed.increase();
        assert_eq!(speed.value, 1000 + bonus);
        assert_eq!(speed.last_increased_at, threshold);
    }
}

#[test]
fn the_speed_stays_at_the_top_of_its_range() {
    let mut speed = Speed { last_increased_at: 0, value: u64::MAX - 10 };
    speed.increase();
    assert_eq!(speed.value, u64::MAX);
    speed.increase();
    assert_eq!(speed.value, u64::MAX);
    let mut edge = Speed { last_increased_at: 0, value: u64::MAX - 25 };
    edge.increase();
    assert_eq!(edge.value, u64::MAX);
}

#[test]
fn a_rise_is_due_at_positive_multiples_of_ten() {
    let speed = Speed::new();
    assert!(!speed.should_increase(board_with(0)));
    assert!(!speed.should_increase(board_with(1)));
    assert!(!speed.should_increase(board_with(9)));
    assert!(speed.should_increase(board_with(10)));
    assert!(!speed.should_increase(board_with(11)));
    assert!(speed.should_increase(board_with(20)));
    assert!(speed.should_increase(board_with(100)));
    assert!(!speed.should_increase(board_with(105)));
}

#[test]
fn no_rise_is_due_below_the_threshold() {
    let speed = Speed { last_increased_at: 30, value: 100 };
    assert!(!speed.should_increase(board_with(10)));
    assert!(!speed.should_increase(board_with(20)));
    assert!(speed.should_increase(board_with(30)));
    assert!(speed.should_increase(board_with(40)));
    let odd = Speed { last_increased_at: 31, value: 100 };
    assert!(!odd.should_increase(board_with(30)));
    assert!(odd.should_increase(board_with(40)));
}

#[test]
fn the_speed_never_drops_over_many_rises() {
    let mut speed = Speed::new();
    let mut last = speed.value;
    for _ in 0..1000 {
        speed.increase();
        assert!(speed.value >= last);
        last = speed.value;
    }
    assert_eq!(speed.value, 100 + 1000 * 25);
}
