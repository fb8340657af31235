//! The one way in which a solve can fail, and its message.
use vstd::prelude::*;

verus! {

/// Why no root was returned.
#[derive(Debug, Clone, Copy, PartialEq, Eq, Structural)]
pub enum Error {
    /// The iteration cap, carried here, was used up before any round ended
    /// the search.
    MaxIter(usize),
}

/// The character of the decimal digit `d`; only `0` to `9` are digits.
pub open spec fn digit(d: nat) -> char {
    if d == 0 {
        '0'
    } else if d == 1 {
        '1'
    } else if d == 2 {
        '2'
    } else if d == 3 {
        '3'
    } else if d == 4 {
        '4'
    } else if d == 5 {
        '5'
    } else if d == 6 {
        '6'
    } else if d == 7 {
        '7'
    } else if d == 8 {
        '8'
    } else {
        '9'
    }
}

/// The decimal numeral of `n`, without leading zeros.
pub open spec fn decimal(n: nat) -> Seq<char>
    decreases n,
{
    if n < 10 {
        seq![digit(n)]
    } else {
        decimal(n / 10) + seq![digit(n % 10)]
    }
}

/// The numeral of one decimal digit.
fn digit_numeral(d: usize) -> (s: &'static str)
    requires
        d < 10,
    ensures
        s@ == seq![digit(d as nat)],
{
    proof {
        reveal_strlit("0");
        reveal_strlit("1");
        reveal_strlit("2");
        reveal_strlit("3");
        reveal_strlit("4");
        reveal_strlit("5");
        reveal_strlit("6");
        reveal_strlit("7");
        reveal_strlit("8");
        reveal_strlit("9");
    }
    let s = if d == 0 {
        "0"
    } else if d == 1 {
        "1"
    } else if d == 2 {
        "2"
    } else if d == 3 {
        "3"
    } else if d == 4 {
        "4"
    } else if d == 5 {
        "5"
    } else if d == 6 {
        "6"
    } else if d == 7 {
        "7"
    } else if d == 8 {
        "8"
    } else {
        "9"
    };
    assert(s@ =~= seq![digit(d as nat)]);
    s
}

/// Appends the decimal numeral of `n` to `text`.
fn append_decimal(text: &mut String, n: usize)
    ensures
        final(text)@ == old(text)@ + decimal(n as nat),
    decreases n,
{
    if n >= 10 {
        append_decimal(text, n / 10);
    }
    text.append(digit_numeral(n % 10));
    assert(final(text)@ =~= old(text)@ + decimal(n as nat));
}

impl Error {
    /// The iteration cap that was reached.
    pub open spec fn spec_limit(self) -> usize {
        match self {
            Error::MaxIter(max) => max,
        }
    }

    /// The iteration cap that was reached.
    #[verifier::when_used_as_spec(spec_limit)]
    pub fn limit(self) -> (max: usize)
        ensures
            max == self.spec_limit(),
    {
        match self {
            Error::MaxIter(max) => max,
        }
    }

    /// The message: `Maximal iteration (N) reached`, with the iteration cap
    /// in decimal for `N`.
    pub open spec fn spec_message(self) -> Seq<char> {
        "Maximal iteration ("@ + decimal(self.spec_limit() as nat) + ") reached"@
    }

    /// The message for a reader, which names the iteration cap.
    pub fn message(&self) -> (text: String)
        ensures
            text@ == self.spec_message(),
    {
        let mut text = String::from_str("Maximal iteration (");
        append_decimal(&mut text, self.limit());
        text.append(") reached");
        text
    }
}

} // verus!
