use trivia_game::console::{
    add_message_events_to_console, button_highlight, button_keyboard_select, console_setup,
    countdown, verdict_states, welcome_lines, wrong_splash_title, AbilityMenuState, BtnGridPos,
    ConsoleData, ConsoleSetup, ConsoleVerdict, PrintToConsoleEvent, SplashTimer,
    SPLASH_DURATION_MS,
};
use trivia_game::quiz::{
    all_questions_used, answer_question, choose_question, presented_options, reset_questions,
    AnswerOutcome, Question,
};
use trivia_game::ui::{Score, UiColor};
use trivia_game::{GameState, LevelState};

fn question(answer: &str, used: bool) -> Question {
    let mut q = Question::new(
        String::from("What is it?"),
        vec![String::from("A"), String::from("B"), answer.to_string()],
        answer.to_string(),
    );
    q.used = used;
    q
}

#[test]
fn a_new_question_is_unasked() {
    let q = Question::new(String::from("d"), vec![String::from("x")], String::from("x"));
    assert!(!q.used);
    assert_eq!(q.description, "d");
    assert_eq!(q.answer, "x");
}

#[test]
fn all_questions_used_checks_every_question() {
    assert!(all_questions_used(&Vec::new()));
    assert!(all_questions_used(&vec![question("a", true), question("b", true)]));
    assert!(!all_questions_used(&vec![question("a", true), question("b", false)]));
}

#[test]
fn choosing_from_a_spent_bank_gives_nothing() {
    assert_eq!(choose_question(&Vec::new()), None);
    assert_eq!(choose_question(&vec![question("a", true)]), None);
}

#[test]
fn choosing_picks_an_unused_question() {
    let bank = vec![question("a", true), question("b", true), question("c", false)];
    assert_eq!(choose_question(&bank), Some(2));
}

#[test]
fn presented_options_keep_exactly_the_question_choices() {
    let q = question("C", false);
    let shown = presented_options(&q);
    let mut sorted_shown = shown.clone();
    sorted_shown.sort();
    let mut sorted_options = q.options.clone();
    sorted_options.sort();
    assert_eq!(sorted_shown, sorted_options);
}

#[test]
fn a_correct_answer_scores_and_spends_the_question() {
    let mut q = question("C", false);
    let mut score = Score(0);
    let outcome = answer_question(&mut q, &String::from("C"), &mut score);
    assert_eq!(outcome, AnswerOutcome::Correct { won: false });
    assert_eq!(score, Score(1));
    assert!(q.used);
}

#[test]
fn the_fifth_correct_answer_wins() {
    let mut q = question("C", false);
    let mut score = Score(4);
    let outcome = answer_question(&mut q, &String::from("C"), &mut score);
    assert_eq!(outcome, AnswerOutcome::Correct { won: true });
    assert_eq!(score, Score(5));
}

#[test]
fn a_wrong_answer_spends_the_question_without_scoring() {
    let mut q = question("C", false);
    let mut score = Score(2);
    let outcome = answer_question(&mut q, &String::from("A"), &mut score);
    assert_eq!(outcome, AnswerOutcome::Wrong);
    assert_eq!(score, Score(2));
    assert!(q.used);
}

#[test]
fn resetting_makes_every_question_askable_again() {
    let mut bank = vec![question("a", true), question("b", false), question("c", true)];
    reset_questions(&mut bank);
    assert!(bank.iter().all(|q| !q.used));
    assert_eq!(bank[0].answer, "a");
    assert_eq!(bank[2].description, "What is it?");
}

#[test]
fn console_opens_with_an_unused_question() {
    let bank = vec![question("a", true), question("b", false)];
    assert_eq!(console_setup(&bank), ConsoleSetup::Ask { index: 1 });
}

#[test]
fn console_on_a_spent_bank_ends_the_game() {
    let bank = vec![question("a", true)];
    assert_eq!(
        console_setup(&bank),
        ConsoleSetup::Exhausted { game: GameState::GameOver, level: LevelState::OverWorld }
    );
}

fn three_buttons() -> Vec<BtnGridPos> {
    vec![
        BtnGridPos::new(0, String::from("A")),
        BtnGridPos::new(1, String::from("B")),
        BtnGridPos::new(2, String::from("C")),
    ]
}

#[test]
fn selection_moves_down_and_wraps() {
    let buttons = three_buttons();
    let mut menu = AbilityMenuState::default();
    let mut q = question("C", false);
    let mut score = Score(0);
    assert_eq!(
        button_keyboard_select(true, false, false, &mut menu, &buttons, &mut q, &mut score),
        None
    );
    assert_eq!(menu.selected_pos.row, 1);
    button_keyboard_select(true, false, false, &mut menu, &buttons, &mut q, &mut score);
    assert_eq!(menu.selected_pos.row, 2);
    button_keyboard_select(true, false, false, &mut menu, &buttons, &mut q, &mut score);
    assert_eq!(menu.selected_pos.row, 0);
    assert!(!q.used);
    assert_eq!(score, Score(0));
}

#[test]
fn selection_moves_up_and_stops_at_the_top() {
    let buttons = three_buttons();
    let mut menu = AbilityMenuState::default();
    let mut q = question("C", false);
    let mut score = Score(0);
    button_keyboard_select(false, true, false, &mut menu, &buttons, &mut q, &mut score);
    assert_eq!(menu.selected_pos.row, 0);
    menu.selected_pos.row = 2;
    button_keyboard_select(false, true, false, &mut menu, &buttons, &mut q, &mut score);
    assert_eq!(menu.selected_pos.row, 1);
}

#[test]
fn down_moves_before_up_in_one_tick() {
    let buttons = three_buttons();
    let mut menu = AbilityMenuState::default();
    menu.selected_pos.row = 2;
    let mut q = question("C", false);
    let mut score = Score(0);
    // Down first wraps two to zero; up then stops at the top.
    button_keyboard_select(true, true, false, &mut menu, &buttons, &mut q, &mut score);
    assert_eq!(menu.selected_pos.row, 0);
}

#[test]
fn selecting_the_correct_row_answers_correctly() {
    let buttons = three_buttons();
    let mut menu = AbilityMenuState::default();
    menu.selected_pos.row = 2;
    let mut q = question("C", false);
    let mut score = Score(0);
    let verdict =
        button_keyboard_select(false, false, true, &mut menu, &buttons, &mut q, &mut score);
    assert_eq!(verdict, Some(ConsoleVerdict::CorrectNext));
    assert_eq!(score, Score(1));
    assert!(q.used);
}

#[test]
fn selecting_the_winning_answer_wins() {
    let buttons = three_buttons();
    let mut menu = AbilityMenuState::default();
    menu.selected_pos.row = 2;
    let mut q = question("C", false);
    let mut score = Score(4);
    let verdict =
        button_keyboard_select(false, false, true, &mut menu, &buttons, &mut q, &mut score);
    assert_eq!(verdict, Some(ConsoleVerdict::CorrectWin));
    assert_eq!(score, Score(5));
}

#[test]
fn selecting_a_wrong_row_answers_wrongly() {
    let buttons = three_buttons();
    let mut menu = AbilityMenuState::default();
    let mut q = question("C", false);
    let mut score = Score(3);
    let verdict =
        button_keyboard_select(false, false, true, &mut menu, &buttons, &mut q, &mut score);
    assert_eq!(verdict, Some(ConsoleVerdict::WrongAnswer));
    assert_eq!(score, Score(3));
    assert!(q.used);
}

#[test]
fn selecting_with_no_button_on_the_row_does_nothing() {
    let buttons = vec![BtnGridPos::new(0, String::from("A"))];
    let mut menu = AbilityMenuState::default();
    menu.selected_pos.row = 2;
    let mut q = question("C", false);
    let mut score = Score(0);
    let verdict =
        button_keyboard_select(false, false, true, &mut menu, &buttons, &mut q, &mut score);
    assert_eq!(verdict, None);
    assert!(!q.used);
    assert_eq!(score, Score(0));
}

#[test]
fn a_tick_without_presses_changes_nothing() {
    let buttons = three_buttons();
    let mut menu = AbilityMenuState::default();
    let mut q = question("C", false);
    let mut score = Score(0);
    let verdict =
        button_keyboard_select(false, false, false, &mut menu, &buttons, &mut q, &mut score);
    assert_eq!(verdict, None);
    assert_eq!(menu.selected_pos.row, 0);
    assert!(!q.used);
}

#[test]
fn verdicts_ask_for_their_transitions() {
    assert_eq!(
        verdict_states(ConsoleVerdict::CorrectWin),
        (Some(GameState::WinScreen), LevelState::OverWorld)
    );
    assert_eq!(verdict_states(ConsoleVerdict::CorrectNext), (None, LevelState::OverWorld));
    assert_eq!(verdict_states(ConsoleVerdict::WrongAnswer), (None, LevelState::Wrong));
}

#[test]
fn the_splash_finishes_after_its_duration() {
    let mut timer = SplashTimer::new();
    assert_eq!(countdown(&mut timer, 1_000), None);
    assert_eq!(countdown(&mut timer, 999), None);
    assert_eq!(countdown(&mut timer, 1), Some(LevelState::Console));
    assert_eq!(timer.elapsed_ms, SPLASH_DURATION_MS);
    assert_eq!(countdown(&mut timer, 16), Some(LevelState::Console));
}

#[test]
fn welcome_banner_is_what_the_terminal_prints() {
    let lines = welcome_lines();
    assert_eq!(lines.len(), 23);
    assert_eq!(
        lines[2],
        "//                              BOZOS ver 3.0.2                               //"
    );
    assert_eq!(lines[8], "> System up to date and operational");
    assert_eq!(lines[19], "    - clear: clear the entire display");
    assert_eq!(lines[22], " ");
}

#[test]
fn print_events_append_to_the_console_display() {
    let mut data = ConsoleData { lines: vec![String::from("old")] };
    let events = vec![
        PrintToConsoleEvent(String::from("one")),
        PrintToConsoleEvent(String::from("two")),
    ];
    let appended = add_message_events_to_console(&mut data, &events);
    assert_eq!(appended, 2);
    assert_eq!(data.lines, vec!["old", "one", "two"]);
}

#[test]
fn only_the_selected_button_is_highlighted() {
    assert_eq!(button_highlight(1, 1), UiColor::Blue);
    assert_eq!(button_highlight(1, 2), UiColor::DimGray);
}

#[test]
fn the_wrong_splash_says_wrong() {
    assert_eq!(wrong_splash_title(), "WRONG");
}
