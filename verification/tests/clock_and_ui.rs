use trivia_game::clock::{
    update_time, ClockTickOutcome, TimeScale, TimeSinceLevelStart, LEVEL_TIME_LIMIT_MS,
};
use trivia_game::player::Vitality;
use trivia_game::text::{two_digit_text, u32_text};
use trivia_game::ui::{update_counter, update_score_text, Score, UiColor};

#[test]
fn ordinary_tick_advances_the_clock() {
    let mut scale = TimeScale(1);
    let mut elapsed = TimeSinceLevelStart(1_000);
    let mut vitals = vec![Vitality::Alive];
    let outcome = update_time(&mut scale, &mut elapsed, 500, false, &mut vitals);
    assert_eq!(elapsed, TimeSinceLevelStart(1_500));
    assert_eq!(scale, TimeScale(1));
    assert_eq!(outcome, ClockTickOutcome { time_event_sent: false, game_over: false });
    assert_eq!(vitals, vec![Vitality::Alive]);
}

#[test]
fn frozen_clock_does_not_advance() {
    let mut scale = TimeScale(0);
    let mut elapsed = TimeSinceLevelStart(42_000);
    let mut vitals = vec![Vitality::Dead];
    let outcome = update_time(&mut scale, &mut elapsed, 16, false, &mut vitals);
    assert_eq!(elapsed, TimeSinceLevelStart(42_000));
    assert_eq!(scale, TimeScale(0));
    assert!(!outcome.game_over);
    assert!(!outcome.time_event_sent);
    assert_eq!(vitals, vec![Vitality::Dead]);
}

#[test]
fn level_start_resets_clock_and_revives_players() {
    let mut scale = TimeScale(0);
    let mut elapsed = TimeSinceLevelStart(180_000);
    let mut vitals = vec![Vitality::Dead, Vitality::Dead];
    let outcome = update_time(&mut scale, &mut elapsed, 16, true, &mut vitals);
    assert_eq!(elapsed, TimeSinceLevelStart(16));
    assert_eq!(scale, TimeScale(1));
    assert!(outcome.time_event_sent);
    assert!(!outcome.game_over);
    assert_eq!(vitals, vec![Vitality::Alive, Vitality::Alive]);
}

#[test]
fn running_out_of_time_kills_and_ends_the_game() {
    let mut scale = TimeScale(1);
    let mut elapsed = TimeSinceLevelStart(179_900);
    let mut vitals = vec![Vitality::Alive];
    let outcome = update_time(&mut scale, &mut elapsed, 200, false, &mut vitals);
    assert_eq!(elapsed, TimeSinceLevelStart(LEVEL_TIME_LIMIT_MS));
    assert_eq!(scale, TimeScale(0));
    assert!(outcome.game_over);
    assert_eq!(vitals, vec![Vitality::Dead]);
}

#[test]
fn expiry_without_players_asks_for_no_game_over() {
    let mut scale = TimeScale(1);
    let mut elapsed = TimeSinceLevelStart(179_900);
    let mut vitals: Vec<Vitality> = Vec::new();
    let outcome = update_time(&mut scale, &mut elapsed, 200, false, &mut vitals);
    assert_eq!(elapsed, TimeSinceLevelStart(LEVEL_TIME_LIMIT_MS));
    assert!(!outcome.game_over);
}

#[test]
fn reaching_the_limit_exactly_is_not_expiry() {
    let mut scale = TimeScale(1);
    let mut elapsed = TimeSinceLevelStart(179_000);
    let mut vitals = vec![Vitality::Alive];
    let outcome = update_time(&mut scale, &mut elapsed, 1_000, false, &mut vitals);
    assert_eq!(elapsed, TimeSinceLevelStart(LEVEL_TIME_LIMIT_MS));
    assert_eq!(scale, TimeScale(1));
    assert!(!outcome.game_over);
    assert_eq!(vitals, vec![Vitality::Alive]);
}

#[test]
fn counter_shows_full_window_at_level_start() {
    let (text, color) = update_counter(0);
    assert_eq!(text, "02:00");
    assert_eq!(color, UiColor::White);
}

#[test]
fn counter_counts_down_minutes_and_seconds() {
    let (text, color) = update_counter(59_000);
    assert_eq!(text, "01:01");
    assert_eq!(color, UiColor::White);
}

#[test]
fn counter_blinks_red_on_even_seconds_near_the_end() {
    let (text, color) = update_counter(90_000);
    assert_eq!(text, "00:30");
    assert_eq!(color, UiColor::Red);
}

#[test]
fn counter_blinks_white_on_odd_seconds_near_the_end() {
    let (text, color) = update_counter(91_000);
    assert_eq!(text, "00:29");
    assert_eq!(color, UiColor::White);
}

#[test]
fn counter_sits_at_zero_once_the_window_has_passed() {
    let (text, color) = update_counter(150_000);
    assert_eq!(text, "00:00");
    assert_eq!(color, UiColor::Red);
}

#[test]
fn score_text_shows_correct_answers_over_five() {
    assert_eq!(update_score_text(&Score(0)), "0/5");
    assert_eq!(update_score_text(&Score(3)), "3/5");
    assert_eq!(update_score_text(&Score(5)), "5/5");
}

#[test]
fn numbers_render_in_decimal() {
    assert_eq!(u32_text(0), "0");
    assert_eq!(u32_text(7), "7");
    assert_eq!(u32_text(907), "907");
    assert_eq!(u32_text(120), "120");
}

#[test]
fn two_digit_numbers_are_zero_padded() {
    assert_eq!(two_digit_text(0), "00");
    assert_eq!(two_digit_text(7), "07");
    assert_eq!(two_digit_text(59), "59");
}

#[test]
fn score_starts_at_zero() {
    assert_eq!(Score::default(), Score(0));
}
