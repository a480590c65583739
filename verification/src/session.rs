//! The interactive session: classifying the lines the user types and the
//! state machine that orchestrates one calculation cycle after another.
//!
//! The driver reads lines and passes their bytes here; this module decides
//! what each line means and what happens next. The only work left outside is
//! printing, reading, and the floating-point arithmetic of an accepted
//! computation.

use vstd::prelude::*;

use crate::ops::code_of;
use crate::ops::lemma_op_codes;
use crate::ops::Computation;
use crate::ops::EvalError;
use crate::ops::FloatBits;
use crate::ops::Operation;
use crate::ops::op_of;
use crate::text::is_u8_numeral;
use crate::text::line_affirms;
use crate::text::line_quits;
use crate::text::parse_u8;
use crate::text::quit_token;
use crate::text::split_tokens;
use crate::text::tokens_of;
use crate::text::u8_numeral_val;
use crate::text::yes_token;

verus! {

/// What an operation-selection line means: a chosen operation, a request to
/// quit, or input that selects nothing.
#[derive(Clone, Copy, Debug, PartialEq, Eq, Structural)]
pub enum Selection {
    Chosen(Operation),
    Quit,
    Invalid,
}

/// The meaning of an operation-selection line: the quit keyword quits; a
/// single token that is a decimal code for one of the five operations
/// chooses it; anything else is invalid.
pub open spec fn selection_of(line: Seq<u8>) -> Selection {
    if line_quits(line) {
        Selection::Quit
    } else if tokens_of(line).len() == 1 && is_u8_numeral(tokens_of(line)[0]) && op_of(
        u8_numeral_val(tokens_of(line)[0]),
    ) is Some {
        Selection::Chosen(op_of(u8_numeral_val(tokens_of(line)[0]))->0)
    } else {
        Selection::Invalid
    }
}

/// Selection is decided by the numeric code alone: a non-quit line chooses
/// an operation exactly when it is a single numeral token whose value is 1
/// through 5, the chosen operation is the one whose own code that value is,
/// and every other non-quit line selects nothing.
pub proof fn lemma_selection_by_code(line: Seq<u8>)
    requires
        !line_quits(line),
    ensures
        selection_of(line) is Chosen <==> tokens_of(line).len() == 1 && is_u8_numeral(
            tokens_of(line)[0],
        ) && 1 <= u8_numeral_val(tokens_of(line)[0]) <= 5,
        selection_of(line) matches Selection::Chosen(op) ==> code_of(op) == u8_numeral_val(
            tokens_of(line)[0],
        ),
        !(selection_of(line) is Chosen) ==> selection_of(line) is Invalid,
{
    if tokens_of(line).len() == 1 && is_u8_numeral(tokens_of(line)[0]) {
        lemma_op_codes(u8_numeral_val(tokens_of(line)[0]));
    }
}

/// Reads an operation-selection line.
pub fn select_operation(line: &[u8]) -> (s: Selection)
    ensures
        s == selection_of(line@),
{
    let ts = split_tokens(line);
    if ts.len() != 1 {
        return Selection::Invalid;
    }
    let t = ts[0].as_slice();
    proof {
        assert(t@ == tokens_of(line@)[0]);
    }
    if quit_token(t) {
        return Selection::Quit;
    }
    match parse_u8(t) {
        Some(n) => match Operation::from_u8(n) {
            Some(op) => Selection::Chosen(op),
            None => Selection::Invalid,
        },
        None => Selection::Invalid,
    }
}

/// What an operand line holds: a request to quit, a wrong number of tokens,
/// or exactly two tokens to be parsed as numbers.
#[derive(Debug)]
pub enum OperandLine {
    Quit,
    WrongCount,
    Pair(Vec<u8>, Vec<u8>),
}

/// Reads one operand line: the quit keyword quits, a line without exactly
/// two tokens asks for another line, and a two-token line hands the tokens
/// out for numeric parsing.
pub fn classify_operand_line(line: &[u8]) -> (r: OperandLine)
    ensures
        line_quits(line@) ==> r is Quit,
        !line_quits(line@) && tokens_of(line@).len() != 2 ==> r is WrongCount,
        !line_quits(line@) && tokens_of(line@).len() == 2 ==> (r matches OperandLine::Pair(
            t1,
            t2,
        ) && t1@ == tokens_of(line@)[0] && t2@ == tokens_of(line@)[1]),
{
    let mut ts = split_tokens(line);
    if ts.len() == 1 {
        let only = ts[0].as_slice();
        proof {
            assert(only@ == tokens_of(line@)[0]);
        }
        if quit_token(only) {
            return OperandLine::Quit;
        }
        return OperandLine::WrongCount;
    }
    if ts.len() != 2 {
        return OperandLine::WrongCount;
    }
    let t1 = ts.remove(0);
    let t2 = ts.remove(0);
    proof {
        assert(t1@ == tokens_of(line@)[0]);
        assert(t2@ == tokens_of(line@)[1]);
    }
    OperandLine::Pair(t1, t2)
}

/// The session's position in one cycle of prompt, read, evaluate, continue.
#[derive(Clone, Copy, Debug, PartialEq, Eq, Structural)]
pub enum State {
    /// The menu is shown and an operation-selection line is awaited.
    Prompting,
    /// An operation is chosen and an operand line is awaited.
    ReadingOperands { op: Operation },
    /// Two operands were read; the evaluator decides the outcome.
    Evaluating { op: Operation, a: FloatBits, b: FloatBits },
    /// A result or error was reported; a continue answer is awaited.
    AskingContinue,
    /// The session is over.
    Terminated,
}

/// What the driver reports about one operand line, after classifying it and
/// attempting to parse the two tokens as numbers.
#[derive(Clone, Copy, Debug, PartialEq, Eq, Structural)]
pub enum OperandEvent {
    /// The line was the quit keyword.
    Quit,
    /// The line did not hold exactly two tokens.
    WrongCount,
    /// The line held two tokens; each field holds the operand a token parsed
    /// to, or `None` where parsing failed.
    Parsed { first: Option<FloatBits>, second: Option<FloatBits> },
}

/// The session's reaction to one operand line.
#[derive(Clone, Copy, Debug, PartialEq, Eq, Structural)]
pub enum OperandFeedback {
    /// The user quit operand entry: the calculation is abandoned and the
    /// session returns to the menu.
    Abandoned,
    /// Not exactly two tokens: ask for another line.
    RetryCount,
    /// The first token is not a number: ask for another line.
    RetryFirst,
    /// The second token is not a number: ask for another line.
    RetrySecond,
    /// Both operands were read: the session moves on to evaluation.
    Accepted,
}

/// One interactive session. It starts at the menu and ends in `Terminated`;
/// every step says exactly how the state moves.
pub struct Session {
    pub state: State,
}

impl Session {
    /// A fresh session, at the menu.
    pub fn new() -> (s: Session)
        ensures
            s.state is Prompting,
    {
        Session { state: State::Prompting }
    }

    /// Consumes an operation-selection line. A chosen operation moves the
    /// session to operand entry; quitting or an invalid selection ends the
    /// session.
    pub fn select(&mut self, line: &[u8]) -> (s: Selection)
        requires
            old(self).state is Prompting,
        ensures
            s == selection_of(line@),
            s matches Selection::Chosen(op) ==> final(self).state == (State::ReadingOperands { op }),
            !(s is Chosen) ==> final(self).state is Terminated,
    {
        let s = select_operation(line);
        match s {
            Selection::Chosen(op) => {
                self.state = State::ReadingOperands { op };
            },
            _ => {
                self.state = State::Terminated;
            },
        }
        s
    }

    /// Consumes the driver's report of one operand line. Quitting abandons
    /// the calculation and returns to the menu; a malformed line leaves the
    /// session waiting for another; two parsed operands move it to
    /// evaluation.
    pub fn operand_line(&mut self, ev: OperandEvent) -> (fb: OperandFeedback)
        requires
            old(self).state is ReadingOperands,
        ensures
            ev is Quit ==> fb is Abandoned && final(self).state is Prompting,
            ev is WrongCount ==> fb is RetryCount && final(self).state == old(self).state,
            ev matches OperandEvent::Parsed { first: None, .. } ==> fb is RetryFirst
                && final(self).state == old(self).state,
            ev matches OperandEvent::Parsed { first: Some(_), second: None } ==> fb is RetrySecond
                && final(self).state == old(self).state,
            ev matches OperandEvent::Parsed { first: Some(a), second: Some(b) } ==> fb is Accepted
                && final(self).state == (State::Evaluating {
                op: old(self).state->ReadingOperands_op,
                a,
                b,
            }),
    {
        match ev {
            OperandEvent::Quit => {
                self.state = State::Prompting;
                OperandFeedback::Abandoned
            },
            OperandEvent::WrongCount => OperandFeedback::RetryCount,
            OperandEvent::Parsed { first: None, .. } => OperandFeedback::RetryFirst,
            OperandEvent::Parsed { first: Some(_), second: None } => OperandFeedback::RetrySecond,
            OperandEvent::Parsed { first: Some(a), second: Some(b) } => {
                let op = match self.state {
                    State::ReadingOperands { op } => op,
                    _ => vstd::pervasive::unreached(),
                };
                self.state = State::Evaluating { op, a, b };
                OperandFeedback::Accepted
            },
        }
    }

    /// Runs the evaluator on the operands that were read: the outcome is the
    /// accepted computation, or the division-by-zero error exactly when a
    /// division's divisor is zero. Either way the session moves on to asking
    /// whether to continue.
    pub fn evaluate(&mut self) -> (r: Result<Computation, EvalError>)
        requires
            old(self).state is Evaluating,
        ensures
            final(self).state is AskingContinue,
            r is Ok <==> !(old(self).state->Evaluating_op is Divide
                && old(self).state->Evaluating_b.spec_is_zero()),
            r matches Ok(c) ==> c == (Computation {
                op: old(self).state->Evaluating_op,
                a: old(self).state->Evaluating_a,
                b: old(self).state->Evaluating_b,
            }),
            r is Err ==> r->Err_0 is DivisionByZero,
    {
        let (op, a, b) = match self.state {
            State::Evaluating { op, a, b } => (op, a, b),
            _ => vstd::pervasive::unreached(),
        };
        self.state = State::AskingContinue;
        op.calculate(a, b)
    }

    /// Consumes the continue answer: an affirmative line starts another
    /// cycle at the menu; anything else ends the session.
    pub fn answer_continue(&mut self, line: &[u8]) -> (again: bool)
        requires
            old(self).state is AskingContinue,
        ensures
            again == line_affirms(line@),
            again ==> final(self).state is Prompting,
            !again ==> final(self).state is Terminated,
    {
        let ts = split_tokens(line);
        let mut affirmative = false;
        if ts.len() == 1 {
            let t = ts[0].as_slice();
            proof {
                assert(t@ == tokens_of(line@)[0]);
            }
            affirmative = yes_token(t);
        }
        if affirmative {
            self.state = State::Prompting;
        } else {
            self.state = State::Terminated;
        }
        affirmative
    }
}

} // verus!
