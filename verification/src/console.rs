//! The in-game console: the quiz menu, its selection, and the wrong-answer
//! splash.
//!
//! While the console is open, three answer buttons are shown in a column.
//! Up and down move the selection, wrapping past the last row, and select
//! answers the question with the choice on the selected row. A wrong answer
//! shows a splash for two seconds before the console reopens.

use crate::quiz::{choose_question, spec_all_used, Question, WIN_SCORE};
use crate::ui::{Score, UiColor};
use crate::{GameState, LevelState};
use vstd::prelude::*;

verus! {

/// Marker for entities spawned for the console screen.
#[derive(Clone, Copy, Debug, PartialEq, Eq, Structural, Default)]
pub struct ConsoleStateEntity;

/// Marker for the root node of the console screen.
#[derive(Clone, Copy, Debug, PartialEq, Eq, Structural, Default)]
pub struct UiRootNode;

/// Marker for the root node of the wrong-answer splash.
#[derive(Clone, Copy, Debug, PartialEq, Eq, Structural, Default)]
pub struct WrongRootNode;

/// Rows of answer buttons the selection wraps around.
pub const CHOICE_ROWS: usize = 3;

/// An answer button's place in the console menu: its row and the choice text
/// it carries.
#[derive(Clone, Debug)]
pub struct BtnGridPos {
    pub row: usize,
    pub choice: String,
}

impl BtnGridPos {
    /// A button at the given row carrying the given choice.
    pub fn new(row: usize, choice: String) -> (r: Self)
        ensures
            r.row == row,
            r.choice == choice,
    {
        BtnGridPos { row, choice }
    }
}

/// The console menu's live state: which button is selected.
#[derive(Clone, Debug)]
pub struct AbilityMenuState {
    pub selected_pos: BtnGridPos,
}

impl Default for AbilityMenuState {
    /// When the console opens, the top row is selected and no choice is
    /// carried yet.
    fn default() -> (r: Self)
        ensures
            r.selected_pos.row == 0,
            r.selected_pos.choice@ == Seq::<char>::empty(),
    {
        AbilityMenuState { selected_pos: BtnGridPos { row: 0, choice: String::new() } }
    }
}

/// The row selected after moving down: one further, wrapping to the top past
/// the last row.
pub open spec fn spec_selection_down(row: usize) -> usize {
    if row >= (CHOICE_ROWS - 1) as usize {
        0usize
    } else {
        (row + 1) as usize
    }
}

/// The row selected after moving up: one back, stopping at the top.
pub open spec fn spec_selection_up(row: usize) -> usize {
    if row == 0 {
        0usize
    } else {
        (row - 1) as usize
    }
}

/// The index of the first button on the given row; meaningful only when some
/// button is on that row.
pub open spec fn spec_first_on_row(buttons: Seq<BtnGridPos>, row: usize) -> int
    decreases buttons.len(),
{
    if buttons.len() == 0 {
        0
    } else if buttons[0].row == row {
        0
    } else {
        1 + spec_first_on_row(buttons.drop_first(), row)
    }
}

/// Whether some button sits on the given row.
pub open spec fn spec_row_present(buttons: Seq<BtnGridPos>, row: usize) -> bool {
    exists|i: int| 0 <= i < buttons.len() && buttons[i].row == row
}

/// A button on the given row, with none before it, is the first on that row.
proof fn lemma_first_on_row(buttons: Seq<BtnGridPos>, row: usize, i: int)
    requires
        0 <= i < buttons.len(),
        buttons[i].row == row,
        forall|k: int| 0 <= k < i ==> buttons[k].row != row,
    ensures
        spec_first_on_row(buttons, row) == i,
    decreases buttons.len(),
{
    if buttons[0].row != row {
        lemma_first_on_row(buttons.drop_first(), row, i - 1);
    }
}

/// The first button on the given row, scanning in order.
fn find_button(buttons: &Vec<BtnGridPos>, row: usize) -> (r: Option<usize>)
    ensures
        r is Some <==> spec_row_present(buttons@, row),
        r matches Some(i) ==> i == spec_first_on_row(buttons@, row) && i < buttons@.len()
            && buttons@[i as int].row == row,
{
    let n = buttons.len();
    let mut idx: usize = 0;
    while idx < n
        invariant
            n == buttons.len(),
            idx <= n,
            forall|k: int| 0 <= k < idx ==> buttons@[k].row != row,
        decreases n - idx,
    {
        if buttons[idx].row == row {
            proof {
                lemma_first_on_row(buttons@, row, idx as int);
            }
            return Some(idx);
        }
        idx = idx + 1;
    }
    None
}

/// The question a spawned answer button belongs to, by its index in the bank.
#[derive(Clone, Copy, Debug, PartialEq, Eq, Structural, Default)]
pub struct SelectedQuestion {
    pub question: usize,
}

/// How the console screen opens.
#[derive(Clone, Copy, Debug, PartialEq, Eq, Structural)]
pub enum ConsoleSetup {
    /// A question not yet asked, by its index in the bank, is put on screen.
    Ask { index: usize },
    /// Every question has been asked: the level returns to the overworld and
    /// the game is over.
    Exhausted { game: GameState, level: LevelState },
}

/// Opens the console: picks a question at random among those not yet asked,
/// or — when every question has been asked — sends the level back to the
/// overworld and ends the game.
pub fn console_setup(questions: &Vec<Question>) -> (r: ConsoleSetup)
    ensures
        spec_all_used(questions@) ==> r == (ConsoleSetup::Exhausted {
            game: GameState::GameOver,
            level: LevelState::OverWorld,
        }),
        !spec_all_used(questions@) ==> (r matches ConsoleSetup::Ask { index }
            && index < questions@.len() && !questions@[index as int].used),
{
    match choose_question(questions) {
        Some(index) => ConsoleSetup::Ask { index },
        None => ConsoleSetup::Exhausted {
            game: GameState::GameOver,
            level: LevelState::OverWorld,
        },
    }
}

/// The title of the wrong-answer splash.
pub fn wrong_splash_title() -> (r: String)
    ensures
        r@ == "WRONG"@,
{
    String::from_str("WRONG")
}

/// The color an answer button is drawn in: blue on the selected row, dim
/// gray elsewhere.
pub fn button_highlight(selected_row: usize, button_row: usize) -> (r: UiColor)
    ensures
        r == if selected_row == button_row {
            UiColor::Blue
        } else {
            UiColor::DimGray
        },
{
    if selected_row == button_row {
        UiColor::Blue
    } else {
        UiColor::DimGray
    }
}

/// What answering through the console asked the game to do.
#[derive(Clone, Copy, Debug, PartialEq, Eq, Structural)]
pub enum ConsoleVerdict {
    /// The answer was correct and reached the winning score.
    CorrectWin,
    /// The answer was correct; play goes on in the overworld.
    CorrectNext,
    /// The answer was wrong; the wrong-answer splash is shown.
    WrongAnswer,
}

/// The state changes each console verdict asks for: the new top-level phase,
/// if it changes, and the new level phase.
pub fn verdict_states(verdict: ConsoleVerdict) -> (r: (Option<GameState>, LevelState))
    ensures
        verdict == ConsoleVerdict::CorrectWin ==> r == (
            Some(GameState::WinScreen),
            LevelState::OverWorld,
        ),
        verdict == ConsoleVerdict::CorrectNext ==> r == (
            None::<GameState>,
            LevelState::OverWorld,
        ),
        verdict == ConsoleVerdict::WrongAnswer ==> r == (None::<GameState>, LevelState::Wrong),
{
    match verdict {
        ConsoleVerdict::CorrectWin => (Some(GameState::WinScreen), LevelState::OverWorld),
        ConsoleVerdict::CorrectNext => (None, LevelState::OverWorld),
        ConsoleVerdict::WrongAnswer => (None, LevelState::Wrong),
    }
}

/// The row selected after one tick's navigation: first a pressed down moves
/// the selection down, then a pressed up moves it up.
pub open spec fn spec_navigated_row(row: usize, down: bool, up: bool) -> usize {
    let after_down = if down {
        spec_selection_down(row)
    } else {
        row
    };
    if up {
        spec_selection_up(after_down)
    } else {
        after_down
    }
}

/// Reacts to one tick of console input, given which actions were just
/// pressed. Down and up move the selection, in that order. Select then
/// answers the question with the choice of the first button on the selected
/// row: the question is spent, a correct answer scores and wins the game at
/// the winning score, a wrong answer calls for the wrong-answer splash. A
/// selection with no button on the selected row changes nothing.
pub fn button_keyboard_select(
    down_pressed: bool,
    up_pressed: bool,
    select_pressed: bool,
    menu: &mut AbilityMenuState,
    buttons: &Vec<BtnGridPos>,
    question: &mut Question,
    score: &mut Score,
) -> (r: Option<ConsoleVerdict>)
    requires
        old(score).0 < u32::MAX,
    ensures
        final(menu).selected_pos.row == spec_navigated_row(
            old(menu).selected_pos.row,
            down_pressed,
            up_pressed,
        ),
        final(menu).selected_pos.choice == old(menu).selected_pos.choice,
        !(select_pressed && spec_row_present(buttons@, final(menu).selected_pos.row)) ==> {
            &&& r is None
            &&& *final(question) == *old(question)
            &&& *final(score) == *old(score)
        },
        select_pressed && spec_row_present(buttons@, final(menu).selected_pos.row) ==> ({
            let picked = buttons@[spec_first_on_row(buttons@, final(menu).selected_pos.row)];
            let correct = picked.choice@ == old(question).answer@;
            &&& final(question).used
            &&& final(question).description == old(question).description
            &&& final(question).options == old(question).options
            &&& final(question).answer == old(question).answer
            &&& correct ==> final(score).0 == old(score).0 + 1 && r == Some(
                if final(score).0 >= WIN_SCORE {
                    ConsoleVerdict::CorrectWin
                } else {
                    ConsoleVerdict::CorrectNext
                },
            )
            &&& !correct ==> *final(score) == *old(score) && r == Some(
                ConsoleVerdict::WrongAnswer,
            )
        }),
{
    if down_pressed {
        let row = menu.selected_pos.row;
        menu.selected_pos.row = if row >= CHOICE_ROWS - 1 {
            0
        } else {
            row + 1
        };
    }
    if up_pressed {
        let row = menu.selected_pos.row;
        menu.selected_pos.row = if row == 0 {
            0
        } else {
            row - 1
        };
    }
    if select_pressed {
        match find_button(buttons, menu.selected_pos.row) {
            Some(idx) => {
                question.used = true;
                if buttons[idx].choice == question.answer {
                    score.0 = score.0 + 1;
                    if score.0 >= WIN_SCORE {
                        Some(ConsoleVerdict::CorrectWin)
                    } else {
                        Some(ConsoleVerdict::CorrectNext)
                    }
                } else {
                    Some(ConsoleVerdict::WrongAnswer)
                }
            },
            None => None,
        }
    } else {
        None
    }
}

/// How long the wrong-answer splash is shown, in milliseconds.
pub const SPLASH_DURATION_MS: u32 = 2_000;

/// The one-shot timer behind the wrong-answer splash.
#[derive(Clone, Copy, Debug, PartialEq, Eq, Structural)]
pub struct SplashTimer {
    /// Milliseconds shown so far, pinned to the splash duration once reached.
    pub elapsed_ms: u32,
}

impl SplashTimer {
    /// A splash that has just been put on screen.
    pub fn new() -> (r: Self)
        ensures
            r.elapsed_ms == 0,
    {
        SplashTimer { elapsed_ms: 0 }
    }

    /// Advances the splash by one engine tick; true once the splash has been
    /// shown for its whole duration.
    pub fn tick(&mut self, delta_ms: u32) -> (finished: bool)
        ensures
            final(self).elapsed_ms == if old(self).elapsed_ms + delta_ms
                > SPLASH_DURATION_MS {
                SPLASH_DURATION_MS as int
            } else {
                old(self).elapsed_ms + delta_ms
            },
            finished == (old(self).elapsed_ms + delta_ms >= SPLASH_DURATION_MS),
    {
        let advanced: u64 = self.elapsed_ms as u64 + delta_ms as u64;
        if advanced > SPLASH_DURATION_MS as u64 {
            self.elapsed_ms = SPLASH_DURATION_MS;
        } else {
            self.elapsed_ms = advanced as u32;
        }
        self.elapsed_ms >= SPLASH_DURATION_MS
    }
}

/// The banner and help text printed when the console terminal opens: the
/// fake firmware header, the system state, the usage notes, and the command
/// list, exactly as shown on screen.
pub fn welcome_lines() -> (r: Vec<String>)
    ensures
        r@.len() == 23,
        r@[0]@
            == "// -------------------------------------------------------------------------- //"@,
        r@[1]@
            == "//                                                                            //"@,
        r@[2]@
            == "//                              BOZOS ver 3.0.2                               //"@,
        r@[3]@
            == "//                                                                            //"@,
        r@[4]@
            == "//                          Compute with confidence.                          //"@,
        r@[5]@
            == "// -------------------------------------------------------------------------- //"@,
        r@[6]@ == " "@,
        r@[7]@
            == "+ SYSTEM STATE --------------------------------------------------------------  +"@,
        r@[8]@ == "> System up to date and operational"@,
        r@[9]@ == " "@,
        r@[10]@
            == "+ HOW TO USE ----------------------------------------------------------------  +"@,
        r@[11]@ == "To interact with this terminal, type commands in the input line below."@,
        r@[12]@ == "Then, execute the command using the <Return> key on your (real) keyboard."@,
        r@[13]@ == "If you are lost, enter 'help' to show this message again."@,
        r@[14]@ == " "@,
        r@[15]@
            == "+ AVAILABLE COMMANDS --------------------------------------------------------  +"@,
        r@[16]@ == "    - help: show the available commands"@,
        r@[17]@ == "    - cheat <code>: enable a cheat code to activate an ability"@,
        r@[18]@ == "    - log: display a log entry"@,
        r@[19]@ == "    - clear: clear the entire display"@,
        r@[20]@ == "    - exit: exit this terminal to go back to boring reality"@,
        r@[21]@ == " "@,
        r@[22]@ == " "@,
{
    let mut lines: Vec<String> = Vec::new();
    lines.push(
        String::from_str(
            "// -------------------------------------------------------------------------- //",
        ),
    );
    lines.push(
        String::from_str(
            "//                                                                            //",
        ),
    );
    lines.push(
        String::from_str(
            "//                              BOZOS ver 3.0.2                               //",
        ),
    );
    lines.push(
        String::from_str(
            "//                                                                            //",
        ),
    );
    lines.push(
        String::from_str(
            "//                          Compute with confidence.                          //",
        ),
    );
    lines.push(
        String::from_str(
            "// -------------------------------------------------------------------------- //",
        ),
    );
    lines.push(String::from_str(" "));
    lines.push(
        String::from_str(
            "+ SYSTEM STATE --------------------------------------------------------------  +",
        ),
    );
    lines.push(String::from_str("> System up to date and operational"));
    lines.push(String::from_str(" "));
    lines.push(
        String::from_str(
            "+ HOW TO USE ----------------------------------------------------------------  +",
        ),
    );
    lines.push(
        String::from_str("To interact with this terminal, type commands in the input line below."),
    );
    lines.push(
        String::from_str(
            "Then, execute the command using the <Return> key on your (real) keyboard.",
        ),
    );
    lines.push(String::from_str("If you are lost, enter 'help' to show this message again."));
    lines.push(String::from_str(" "));
    lines.push(
        String::from_str(
            "+ AVAILABLE COMMANDS --------------------------------------------------------  +",
        ),
    );
    lines.push(String::from_str("    - help: show the available commands"));
    lines.push(String::from_str("    - cheat <code>: enable a cheat code to activate an ability"));
    lines.push(String::from_str("    - log: display a log entry"));
    lines.push(String::from_str("    - clear: clear the entire display"));
    lines.push(String::from_str("    - exit: exit this terminal to go back to boring reality"));
    lines.push(String::from_str(" "));
    lines.push(String::from_str(" "));
    lines
}

/// A request to print one line on the console display.
#[derive(Clone, Debug)]
pub struct PrintToConsoleEvent(pub String);

/// The console display: the lines printed so far, oldest first.
#[derive(Clone, Debug, Default)]
pub struct ConsoleData {
    pub lines: Vec<String>,
}

/// Appends each pending print request to the console display, in order.
pub fn add_message_events_to_console(
    data: &mut ConsoleData,
    events: &Vec<PrintToConsoleEvent>,
) -> (appended: usize)
    ensures
        appended == events@.len(),
        final(data).lines@ == old(data).lines@ + events@.map_values(
            |e: PrintToConsoleEvent| e.0,
        ),
{
    let n = events.len();
    let mut idx: usize = 0;
    while idx < n
        invariant
            n == events.len(),
            idx <= n,
            data.lines@ == old(data).lines@ + events@.subrange(0, idx as int).map_values(
                |e: PrintToConsoleEvent| e.0,
            ),
        decreases n - idx,
    {
        data.lines.push(events[idx].0.clone());
        proof {
            assert(events@.subrange(0, idx + 1).map_values(|e: PrintToConsoleEvent| e.0)
                =~= events@.subrange(0, idx as int).map_values(|e: PrintToConsoleEvent| e.0).push(
                events@[idx as int].0,
            ));
            assert(data.lines@ =~= old(data).lines@ + events@.subrange(0, idx + 1).map_values(
                |e: PrintToConsoleEvent| e.0,
            ));
        }
        idx = idx + 1;
    }
    proof {
        assert(events@.subrange(0, n as int) =~= events@);
    }
    n
}

/// Advances the wrong-answer splash and, once it has run its course, sends
/// the level back to the console.
pub fn countdown(timer: &mut SplashTimer, delta_ms: u32) -> (r: Option<LevelState>)
    ensures
        final(timer).elapsed_ms == if old(timer).elapsed_ms + delta_ms > SPLASH_DURATION_MS {
            SPLASH_DURATION_MS as int
        } else {
            old(timer).elapsed_ms + delta_ms
        },
        r == if old(timer).elapsed_ms + delta_ms >= SPLASH_DURATION_MS {
            Some(LevelState::Console)
        } else {
            None::<LevelState>
        },
{
    if timer.tick(delta_ms) {
        Some(LevelState::Console)
    } else {
        None
    }
}

} // verus!
