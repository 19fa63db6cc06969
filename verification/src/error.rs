//! The value a retry driver hands back on permanent failure.

use vstd::prelude::*;
use vstd::string::StringExecFns;

verus! {

/// The outcome of a retry call whose backoff strategy reported stop: the
/// number of times the operation was invoked, and the failure its last
/// invocation produced. Constructed once, never mutated afterwards.
#[derive(Debug, PartialEq, Eq)]
pub struct Error<E> {
    tries: u32,
    source: E,
}

impl<E> Error<E> {
    /// The number of attempts this error records.
    pub closed spec fn spec_tries(&self) -> u32 {
        self.tries
    }

    /// The underlying failure this error records.
    pub closed spec fn spec_source(&self) -> E {
        self.source
    }

    /// An error recording that the operation was invoked `tries` times and
    /// that `source` is the failure its last invocation produced.
    pub fn new(tries: u32, source: E) -> (r: Self)
        ensures
            r.spec_tries() == tries,
            r.spec_source() == source,
    {
        Self { tries, source }
    }

    /// The number of times the operation was invoked.
    pub fn tries(&self) -> (r: u32)
        ensures
            r == self.spec_tries(),
    {
        self.tries
    }

    /// The most recent failure, by reference.
    pub fn source(&self) -> (r: &E)
        ensures
            *r == self.spec_source(),
    {
        &self.source
    }

    /// The most recent failure, surrendering the error.
    pub fn into_source(self) -> (r: E)
        ensures
            r == self.spec_source(),
    {
        self.source
    }
}

/// The character for a single decimal digit.
pub open spec fn spec_digit(d: nat) -> char {
    if d == 0 {
        '0'
    } else if d == 1 {
        '1'
    } else if d == 2 {
        '2'
    } else if d == 3 {
        '3'
    } else if d == 4 {
        '4'
    } else if d == 5 {
        '5'
    } else if d == 6 {
        '6'
    } else if d == 7 {
        '7'
    } else if d == 8 {
        '8'
    } else {
        '9'
    }
}

/// The decimal rendering of `n`, most significant digit first, with no
/// leading zeros except for `n == 0` itself.
pub open spec fn spec_decimal(n: nat) -> Seq<char>
    decreases n,
{
    if n < 10 {
        seq![spec_digit(n)]
    } else {
        spec_decimal(n / 10).push(spec_digit(n % 10))
    }
}

/// The rendered form of an `Error`: the attempt count and the text of the
/// underlying failure, embedded in a fixed sentence.
pub open spec fn spec_message(tries: u32, source: Seq<char>) -> Seq<char> {
    "Tried "@ + spec_decimal(tries as nat) + " times. Most recent error: "@ + source
}

/// Appends the character for the decimal digit `d`.
fn push_digit(out: &mut String, d: u32)
    requires
        d < 10,
    ensures
        final(out)@ == old(out)@.push(spec_digit(d as nat)),
{
    let s: &str = if d == 0 {
        "0"
    } else if d == 1 {
        "1"
    } else if d == 2 {
        "2"
    } else if d == 3 {
        "3"
    } else if d == 4 {
        "4"
    } else if d == 5 {
        "5"
    } else if d == 6 {
        "6"
    } else if d == 7 {
        "7"
    } else if d == 8 {
        "8"
    } else {
        "9"
    };
    proof {
        reveal_strlit("0");
        reveal_strlit("1");
        reveal_strlit("2");
        reveal_strlit("3");
        reveal_strlit("4");
        reveal_strlit("5");
        reveal_strlit("6");
        reveal_strlit("7");
        reveal_strlit("8");
        reveal_strlit("9");
        assert(s@ =~= seq![spec_digit(d as nat)]);
    }
    out.append(s);
    proof {
        assert(out@ =~= old(out)@.push(spec_digit(d as nat)));
    }
}

/// Appends the decimal rendering of `n`.
fn push_decimal(out: &mut String, n: u32)
    ensures
        final(out)@ == old(out)@ + spec_decimal(n as nat),
    decreases n,
{
    if n >= 10 {
        push_decimal(out, n / 10);
    }
    push_digit(out, n % 10);
    proof {
        assert(out@ =~= old(out)@ + spec_decimal(n as nat));
    }
}

impl<'a> Error<&'a str> {
    /// The human-readable rendering of this error, embedding the attempt
    /// count and the text of the underlying failure.
    pub fn message(&self) -> (r: String)
        ensures
            r@ == spec_message(self.spec_tries(), self.spec_source()@),
    {
        let mut r = String::from_str("Tried ");
        push_decimal(&mut r, self.tries);
        r.append(" times. Most recent error: ");
        r.append(self.source);
        proof {
            assert(r@ =~= spec_message(self.spec_tries(), self.spec_source()@));
        }
        r
    }
}

} // verus!
