//! One rock-paper-scissors round. The bot's move is drawn before the caller
//! suspends to wait for a reaction (the random source must be fully consumed
//! to a plain value before any suspension point); the resolution from the
//! bot's move and the observed event is a pure, verified function.

use vstd::prelude::*;
use rand::Rng;

verus! {

/// The fixed ordered choice symbols: rock, paper, scissors.
pub open spec fn choices_spec() -> Seq<char> {
    seq!['\u{1faa8}', '\u{1f4c4}', '\u{2702}']
}

/// The fixed ordered choice symbols as a vector, for reacting and indexing.
pub fn choices() -> (v: Vec<char>)
    ensures
        v@ == choices_spec(),
{
    let mut v: Vec<char> = Vec::new();
    v.push('\u{1faa8}');
    v.push('\u{1f4c4}');
    v.push('\u{2702}');
    proof {
        assert(v@ =~= choices_spec());
    }
    v
}

/// The position of a symbol among the choices, or -1 for a symbol that is
/// none of the three.
pub open spec fn choice_index(c: char) -> int {
    if c == '\u{1faa8}' {
        0
    } else if c == '\u{1f4c4}' {
        1
    } else if c == '\u{2702}' {
        2
    } else {
        -1
    }
}

/// The cyclic beats-relation: rock beats scissors, scissors beats paper,
/// paper beats rock.
pub open spec fn beats(a: int, b: int) -> bool {
    ||| a == 0 && b == 2
    ||| a == 2 && b == 1
    ||| a == 1 && b == 0
}

/// What one round resolves to.
#[derive(Clone, Copy, PartialEq, Eq, Structural, Debug)]
pub enum Outcome {
    /// The human's choice beats the bot's.
    Win,
    /// The bot's choice beats the human's.
    Loss,
    /// Both picked the same symbol.
    Tie,
    /// No reaction arrived within the wait window.
    Timeout,
    /// The reaction was none of the three choice symbols.
    Invalid,
}

/// What ended the wait for the human's reaction.
#[derive(Clone, Copy, PartialEq, Eq, Structural, Debug)]
pub enum GameEvent {
    /// The first reaction by the command issuer, carrying its symbol.
    Reacted(char),
    /// The wait window elapsed without a reaction.
    TimedOut,
}

/// The outcome a round with the given bot move resolves to on an event.
pub open spec fn resolve_spec(bot: int, event: GameEvent) -> Outcome {
    match event {
        GameEvent::TimedOut => Outcome::Timeout,
        GameEvent::Reacted(c) => {
            let pos = choice_index(c);
            if pos == -1 {
                Outcome::Invalid
            } else if pos == bot {
                Outcome::Tie
            } else if beats(pos, bot) {
                Outcome::Win
            } else {
                Outcome::Loss
            }
        },
    }
}

/// The first position of a character in a vector, or -1 when it does not
/// occur.
pub fn char_in_vec(vec: &Vec<char>, chr: char) -> (pos: i32)
    requires
        vec@.len() <= i32::MAX,
    ensures
        pos == -1 <==> !vec@.contains(chr),
        pos != -1 ==> 0 <= pos < vec@.len() && vec@[pos as int] == chr
            && forall|j: int| 0 <= j < pos ==> vec@[j] != chr,
{
    let mut i: usize = 0;
    while i < vec.len()
        invariant
            i <= vec@.len() <= i32::MAX,
            forall|j: int| 0 <= j < i ==> vec@[j] != chr,
        decreases vec@.len() - i,
    {
        if vec[i] == chr {
            return i as i32;
        }
        i = i + 1;
    }
    -1
}

/// Relies on rand::thread_rng and Rng::gen_range: a value drawn from the
/// range [0, n). Nothing more is claimed of a random result.
#[verifier::external_body]
fn sample_below(n: usize) -> (r: usize)
    requires
        n > 0,
    ensures
        r < n,
{
    rand::thread_rng().gen_range(0..n)
}

/// One round's transient state: the bot's move, drawn when the round starts.
pub struct GameRound {
    pub bot_index: usize,
}

impl GameRound {
    /// Starts a round by drawing the bot's move uniformly from the three
    /// positions. This happens before the caller suspends to wait for a
    /// reaction, so no random source is held across a suspension point.
    pub fn start() -> (g: GameRound)
        ensures
            g.bot_index < 3,
    {
        GameRound { bot_index: sample_below(3) }
    }

    /// The bot's chosen symbol.
    pub fn bot_symbol(&self) -> (c: char)
        requires
            self.bot_index < 3,
        ensures
            c == choices_spec()[self.bot_index as int],
    {
        let emojis = choices();
        emojis[self.bot_index]
    }

    /// Resolves the round from the observed event: a timeout resolves to
    /// `Timeout` whatever the bot picked; a reaction outside the three
    /// choices resolves to `Invalid`; otherwise the fixed beats-relation
    /// decides between `Tie`, `Win` and `Loss`.
    pub fn resolve(&self, event: &GameEvent) -> (out: Outcome)
        requires
            self.bot_index < 3,
        ensures
            out == resolve_spec(self.bot_index as int, *event),
            match *event {
                GameEvent::TimedOut => out == Outcome::Timeout,
                GameEvent::Reacted(c) => !choices_spec().contains(c)
                    ==> out == Outcome::Invalid,
            },
    {
        match event {
            GameEvent::TimedOut => Outcome::Timeout,
            GameEvent::Reacted(c) => {
                let emojis = choices();
                let position = char_in_vec(&emojis, *c);
                if position == -1 {
                    proof {
                        assert(!choices_spec().contains(*c));
                    }
                    Outcome::Invalid
                } else if position as usize == self.bot_index {
                    Outcome::Tie
                } else {
                    let losing: i32 = if position == 0 {
                        2
                    } else if position == 2 {
                        1
                    } else {
                        0
                    };
                    if losing as usize == self.bot_index {
                        Outcome::Win
                    } else {
                        Outcome::Loss
                    }
                }
            },
        }
    }
}

/// The symbol a reaction event carries, or a blank for a timeout, as the
/// result message shows it.
pub fn event_symbol(event: &GameEvent) -> (c: char)
    ensures
        match *event {
            GameEvent::Reacted(sym) => c == sym,
            GameEvent::TimedOut => c == ' ',
        },
{
    match event {
        GameEvent::Reacted(sym) => *sym,
        GameEvent::TimedOut => ' ',
    }
}

/// The user-facing line for an outcome.
pub open spec fn outcome_text_spec(o: Outcome) -> Seq<char> {
    match o {
        Outcome::Win => "You won!"@,
        Outcome::Loss => "You Lost!"@,
        Outcome::Tie => "Tie!"@,
        Outcome::Timeout => "No pick in 10 seconds, quitting game."@,
        Outcome::Invalid => "Cheater!"@,
    }
}

/// The user-facing line for an outcome.
pub fn outcome_text(o: &Outcome) -> (s: String)
    ensures
        s@ == outcome_text_spec(*o),
{
    match o {
        Outcome::Win => "You won!".to_owned(),
        Outcome::Loss => "You Lost!".to_owned(),
        Outcome::Tie => "Tie!".to_owned(),
        Outcome::Timeout => "No pick in 10 seconds, quitting game.".to_owned(),
        Outcome::Invalid => "Cheater!".to_owned(),
    }
}

/// Relies on String::push of std: appends exactly the given character.
#[verifier::external_body]
fn push_char(s: &mut String, c: char)
    ensures
        final(s)@ == old(s)@.push(c),
{
    s.push(c);
}

/// The edited prompt text: the human's symbol (blank on a timeout), the
/// bot's symbol, and the outcome line.
pub fn result_message(human_symbol: char, bot_symbol: char, outcome: &Outcome) -> (s: String)
    ensures
        s@ == seq![human_symbol] + " vs. "@ + seq![bot_symbol] + "\n"@
            + outcome_text_spec(*outcome),
{
    let mut s = String::new();
    push_char(&mut s, human_symbol);
    s.append(" vs. ");
    push_char(&mut s, bot_symbol);
    s.append("\n");
    let tail = outcome_text(outcome);
    s.append(tail.as_str());
    proof {
        assert(s@ =~= seq![human_symbol] + " vs. "@ + seq![bot_symbol] + "\n"@
            + outcome_text_spec(*outcome));
    }
    s
}

} // verus!
