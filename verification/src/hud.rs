//! What the presentation layer shows: the score and the prompt.

use vstd::prelude::*;
use crate::state::GameState;

verus! {

/// The score after one more point. The count stops at the greatest `u64`.
pub open spec fn bumped(score: u64) -> u64 {
    if score < u64::MAX {
        (score + 1) as u64
    } else {
        score
    }
}

/// The number of bricks destroyed in this session.
#[derive(Clone, Copy, Debug, PartialEq, Eq, Structural)]
pub struct Scoreboard {
    pub score: u64,
}

impl Scoreboard {
    /// The scoreboard of a new session.
    pub fn new() -> (s: Scoreboard)
        ensures
            s.score == 0,
    {
        Scoreboard { score: 0 }
    }

    /// Counts one point.
    pub fn increment(&mut self)
        ensures
            final(self).score == bumped(old(self).score),
    {
        if self.score < u64::MAX {
            self.score = self.score + 1;
        }
    }
}

/// The character that stands for the digit `d`.
pub open spec fn digit_char(d: nat) -> char {
    if d == 0 {
        '0'
    } else if d == 1 {
        '1'
    } else if d == 2 {
        '2'
    } else if d == 3 {
        '3'
    } else if d == 4 {
        '4'
    } else if d == 5 {
        '5'
    } else if d == 6 {
        '6'
    } else if d == 7 {
        '7'
    } else if d == 8 {
        '8'
    } else {
        '9'
    }
}

/// The number `n` written in decimal, without leading zeros.
pub open spec fn decimal(n: nat) -> Seq<char>
    decreases n,
{
    if n < 10 {
        seq![digit_char(n)]
    } else {
        decimal(n / 10).push(digit_char(n % 10))
    }
}

/// The digit that the character `c` stands for; only the ten digit
/// characters stand for one.
pub open spec fn digit_value(c: char) -> Option<nat> {
    if c == '0' {
        Some(0)
    } else if c == '1' {
        Some(1)
    } else if c == '2' {
        Some(2)
    } else if c == '3' {
        Some(3)
    } else if c == '4' {
        Some(4)
    } else if c == '5' {
        Some(5)
    } else if c == '6' {
        Some(6)
    } else if c == '7' {
        Some(7)
    } else if c == '8' {
        Some(8)
    } else if c == '9' {
        Some(9)
    } else {
        None
    }
}

/// The number that a run of digit characters reads as, the last character
/// counting ones, the one before it tens, and so on.
pub open spec fn read_decimal(digits: Seq<char>) -> nat
    decreases digits.len(),
{
    if digits.len() == 0 {
        0
    } else {
        read_decimal(digits.drop_last()) * 10 + match digit_value(digits.last()) {
            Some(d) => d,
            None => 0,
        }
    }
}

/// The decimal form is the number's own: it is made of digit characters
/// only, it reads back as the number, and it starts with a zero only where
/// the number is zero, which is written as the single digit.
pub proof fn lemma_decimal_reads_back(n: nat)
    ensures
        decimal(n).len() >= 1,
        forall|i: int| 0 <= i < decimal(n).len() ==> digit_value(#[trigger] decimal(n)[i]) is Some,
        read_decimal(decimal(n)) == n,
        decimal(n)[0] == '0' <==> n == 0,
        n == 0 ==> decimal(n).len() == 1,
    decreases n,
{
    if n < 10 {
        assert(decimal(n).drop_last() =~= Seq::<char>::empty());
        assert(read_decimal(decimal(n).drop_last()) == 0);
    } else {
        lemma_decimal_reads_back(n / 10);
        let front = decimal(n / 10);
        let all = front.push(digit_char(n % 10));
        assert(all.drop_last() =~= front);
        assert(all[0] == front[0]);
        assert forall|i: int| 0 <= i < all.len() implies digit_value(#[trigger] all[i]) is Some by {
            if i < front.len() {
                assert(all[i] == front[i]);
            }
        }
    }
}

/// What the prompt says before the launch.
pub open spec fn prompt_text() -> Seq<char> {
    "Press SPACE to Start"@
}

/// How the score is shown while the ball is in play.
pub open spec fn score_line(score: u64) -> Seq<char> {
    "Score: "@ + decimal(score as nat)
}

/// The prompt that belongs to `state`: the call to start before the launch,
/// and nothing in any other state.
pub open spec fn info_text_in(state: GameState) -> Seq<char> {
    match state {
        GameState::NotStarted => prompt_text(),
        GameState::Playing => Seq::empty(),
        GameState::GameOver => Seq::empty(),
    }
}

/// The score text that belongs to `state`: the score while the ball is in
/// play, and nothing in any other state.
pub open spec fn score_text_in(state: GameState, score: u64) -> Seq<char> {
    match state {
        GameState::NotStarted => Seq::empty(),
        GameState::Playing => score_line(score),
        GameState::GameOver => Seq::empty(),
    }
}

/// The text of one decimal digit.
fn digit_str(d: u64) -> (r: &'static str)
    requires
        d < 10,
    ensures
        r@ == seq![digit_char(d as nat)],
{
    proof {
        reveal_strlit("0");
        reveal_strlit("1");
        reveal_strlit("2");
        reveal_strlit("3");
        reveal_strlit("4");
        reveal_strlit("5");
        reveal_strlit("6");
        reveal_strlit("7");
        reveal_strlit("8");
        reveal_strlit("9");
    }
    let r = if d == 0 {
        "0"
    } else if d == 1 {
        "1"
    } else if d == 2 {
        "2"
    } else if d == 3 {
        "3"
    } else if d == 4 {
        "4"
    } else if d == 5 {
        "5"
    } else if d == 6 {
        "6"
    } else if d == 7 {
        "7"
    } else if d == 8 {
        "8"
    } else {
        "9"
    };
    assert(r@ =~= seq![digit_char(d as nat)]);
    r
}

/// Writes `n` in decimal at the end of `text`.
pub fn append_decimal(text: &mut String, n: u64)
    ensures
        final(text)@ == old(text)@ + decimal(n as nat),
    decreases n,
{
    if n >= 10 {
        append_decimal(text, n / 10);
    }
    text.append(digit_str(n % 10));
    assert(text@ =~= old(text)@ + decimal(n as nat));
}

/// The line that shows `score`: the word `Score`, a colon, a blank and the
/// number in decimal.
pub fn score_text(score: u64) -> (text: String)
    ensures
        text@ == score_line(score),
{
    let mut text = String::from_str("Score: ");
    append_decimal(&mut text, score);
    text
}

/// The prompt line of the display.
#[derive(Clone, Debug, PartialEq, Eq)]
pub struct Infoboard {
    pub text: String,
}

impl View for Infoboard {
    type V = Seq<char>;

    open spec fn view(&self) -> Seq<char> {
        self.text@
    }
}

impl Infoboard {
    /// A blank prompt line.
    pub fn new() -> (b: Infoboard)
        ensures
            b@ == Seq::<char>::empty(),
    {
        Infoboard { text: String::new() }
    }

    /// Shows `text`.
    pub fn set_prompt(&mut self, text: &str)
        ensures
            final(self)@ == text@,
    {
        self.text = String::from_str(text);
    }

    /// Blanks the line.
    pub fn clear(&mut self)
        ensures
            final(self)@ == Seq::<char>::empty(),
    {
        self.text = String::new();
    }
}

/// Brings the prompt line in step with the game state: it shows the call to
/// start before the launch and is blank from then on, whatever it showed.
pub fn infoboard_system(state: GameState, infoboard: &mut Infoboard)
    ensures
        final(infoboard)@ == info_text_in(state),
{
    match state {
        GameState::NotStarted => {
            infoboard.set_prompt("Press SPACE to Start");
        },
        GameState::Playing => {
            infoboard.clear();
        },
        GameState::GameOver => {
            infoboard.clear();
        },
    }
}

/// Brings the score text in step with the game state and the score: it shows
/// the score while the ball is in play and is blank before the launch and
/// after the end, whatever it showed.
pub fn scoreboard_system(state: GameState, scoreboard: &Scoreboard, text: &mut String)
    ensures
        final(text)@ == score_text_in(state, scoreboard.score),
{
    match state {
        GameState::NotStarted => {
            *text = String::new();
        },
        GameState::Playing => {
            *text = score_text(scoreboard.score);
        },
        GameState::GameOver => {
            *text = String::new();
        },
    }
}

/// Only play shows a score and only the wait for the launch shows a prompt:
/// once the game is over both lines are blank.
pub proof fn lemma_display_is_blank_after_the_end(score: u64)
    ensures
        info_text_in(GameState::GameOver) == Seq::<char>::empty(),
        score_text_in(GameState::GameOver, score) == Seq::<char>::empty(),
        info_text_in(GameState::Playing) == Seq::<char>::empty(),
        score_text_in(GameState::NotStarted, score) == Seq::<char>::empty(),
        info_text_in(GameState::NotStarted) == prompt_text(),
        score_text_in(GameState::Playing, score) == score_line(score),
{
}

} // verus!
