//! The twelve-state automaton that records what kind of symbol was coded last.
//!
//! Codes `0..=6` are the "literal history" states: the last symbol was a
//! literal. Codes `7..=11` follow a match, a long rep or a short rep.
use vstd::prelude::*;

verus! {

/// Number of distinct coder states.
pub const STATES: usize = 12;

const LIT_STATES: u8 = 7;

const LIT_LIT: u8 = 0;

const SHORTREP_LIT_LIT: u8 = 3;

const LIT_MATCH: u8 = 7;

const LIT_LONGREP: u8 = 8;

const LIT_SHORTREP: u8 = 9;

const NONLIT_MATCH: u8 = 10;

const NONLIT_REP: u8 = 11;

/// Whether `s` is one of the twelve state codes.
pub open spec fn valid_code(s: nat) -> bool {
    s < 12
}

/// Whether state `s` is reached right after a literal.
pub open spec fn literal_history(s: nat) -> bool {
    s <= 6
}

/// State after coding a literal from state `s`.
pub open spec fn after_literal(s: nat) -> nat {
    if s <= 3 {
        0
    } else if s <= 9 {
        (s - 3) as nat
    } else {
        (s - 6) as nat
    }
}

/// State after coding a new match from state `s`.
pub open spec fn after_match(s: nat) -> nat {
    if s < 7 {
        7
    } else {
        10
    }
}

/// State after coding a long repeated match from state `s`.
pub open spec fn after_long_rep(s: nat) -> nat {
    if s < 7 {
        8
    } else {
        11
    }
}

/// State after coding a short repeated match from state `s`.
pub open spec fn after_short_rep(s: nat) -> nat {
    if s < 7 {
        9
    } else {
        11
    }
}

/// Whatever state a literal follows, the next state is in the literal-history
/// block.
pub proof fn lemma_literal_enters_literal_history(s: nat)
    requires
        valid_code(s),
    ensures
        literal_history(after_literal(s)),
{
}

/// The coder's symbol-class state: a code in `0..12`.
#[derive(Debug, Clone, Copy, PartialEq, Eq, Structural, Hash)]
pub struct State {
    state: u8,
}

impl View for State {
    type V = nat;

    closed spec fn view(&self) -> nat {
        self.state as nat
    }
}

impl State {
    #[verifier::type_invariant]
    spec fn inv(self) -> bool {
        self.state < 12
    }

    /// The initial state: two literals in a row.
    pub fn new() -> (r: Self)
        ensures
            r@ == 0,
    {
        State { state: LIT_LIT }
    }

    /// Returns the state to its initial value.
    pub fn reset(&mut self)
        ensures
            final(self)@ == 0,
    {
        self.state = LIT_LIT;
    }

    /// The raw state code.
    pub fn get(&self) -> (r: u8)
        ensures
            r as nat == self@,
            valid_code(self@),
    {
        proof {
            use_type_invariant(self);
        }
        self.state
    }

    /// Overwrites this state with `other`, for rollback and resumption.
    pub fn set(&mut self, other: State)
        ensures
            *final(self) == other,
    {
        proof {
            use_type_invariant(&other);
        }
        self.state = other.state;
    }

    /// The state whose raw code is `code`.
    pub fn from_code(code: u8) -> (r: Self)
        requires
            valid_code(code as nat),
        ensures
            r@ == code as nat,
    {
        State { state: code }
    }

    /// Moves to the state that follows a literal.
    pub fn update_literal(&mut self)
        ensures
            final(self)@ == after_literal(old(self)@),
    {
        proof {
            use_type_invariant(&*self);
        }
        if self.state <= SHORTREP_LIT_LIT {
            self.state = LIT_LIT;
        } else if self.state <= LIT_SHORTREP {
            self.state = self.state - 3;
        } else {
            self.state = self.state - 6;
        }
    }

    /// Moves to the state that follows a new match.
    pub fn update_match(&mut self)
        ensures
            final(self)@ == after_match(old(self)@),
    {
        self.state = if self.state < LIT_STATES {
            LIT_MATCH
        } else {
            NONLIT_MATCH
        };
    }

    /// Moves to the state that follows a long repeated match.
    pub fn update_long_rep(&mut self)
        ensures
            final(self)@ == after_long_rep(old(self)@),
    {
        self.state = if self.state < LIT_STATES {
            LIT_LONGREP
        } else {
            NONLIT_REP
        };
    }

    /// Moves to the state that follows a short repeated match.
    pub fn update_short_rep(&mut self)
        ensures
            final(self)@ == after_short_rep(old(self)@),
    {
        self.state = if self.state < LIT_STATES {
            LIT_SHORTREP
        } else {
            NONLIT_REP
        };
    }

    /// Whether the last coded symbol was a literal.
    pub fn is_literal(&self) -> (r: bool)
        ensures
            r == literal_history(self@),
    {
        self.state < LIT_STATES
    }
}

impl Default for State {
    fn default() -> (r: Self)
        ensures
            r@ == 0,
    {
        State::new()
    }
}

} // verus!
