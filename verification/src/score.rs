//! A player's score and the text that shows it.

use vstd::prelude::*;
use vstd::string::StringExecFns;

verus! {

/// The character that stands for the digit `d`, for `d` from 0 to 9.
pub open spec fn digit(d: int) -> char {
    (('0' as u8) + d) as char
}

/// The digits of `n` in base ten, the highest first, without leading zeros.
pub open spec fn decimal(n: nat) -> Seq<char>
    decreases n,
{
    if n < 10 {
        seq![digit(n as int)]
    } else {
        decimal(n / 10).push(digit((n % 10) as int))
    }
}

/// The text that shows a score of `value` points.
pub open spec fn label_text(value: nat) -> Seq<char> {
    "Score: "@ + decimal(value)
}

fn digit_str(d: u32) -> (s: &'static str)
    requires
        d < 10,
    ensures
        s@ == seq![digit(d as int)],
{
    proof {
        reveal_strlit("0");
        reveal_strlit("1");
        reveal_strlit("2");
        reveal_strlit("3");
        reveal_strlit("4");
        reveal_strlit("5");
        reveal_strlit("6");
        reveal_strlit("7");
        reveal_strlit("8");
        reveal_strlit("9");
    }
    let s: &'static str = match d {
        0 => "0",
        1 => "1",
        2 => "2",
        3 => "3",
        4 => "4",
        5 => "5",
        6 => "6",
        7 => "7",
        8 => "8",
        _ => "9",
    };
    assert(s@ =~= seq![digit(d as int)]);
    s
}

fn push_decimal(text: &mut String, n: u32)
    ensures
        final(text)@ == old(text)@ + decimal(n as nat),
    decreases n,
{
    if n >= 10 {
        push_decimal(text, n / 10);
    }
    text.append(digit_str(n % 10));
    assert(final(text)@ =~= old(text)@ + decimal(n as nat));
}

/// A player's points, with the text that shows them. The text always reads
/// `Score: ` followed by the points in base ten.
#[derive(Debug, PartialEq, Eq)]
pub struct Score {
    label: String,
    value: i32,
}

impl Score {
    #[verifier::type_invariant]
    spec fn inv(self) -> bool {
        self.value >= 0 && self.label@ == label_text(self.value as nat)
    }

    /// The points.
    pub closed spec fn spec_value(&self) -> i32 {
        self.value
    }

    /// The text that shows the points.
    pub closed spec fn spec_label(&self) -> Seq<char> {
        self.label@
    }

    /// A score of no points.
    pub fn new() -> (s: Score)
        ensures
            s.value() == 0,
            s.spec_label() == label_text(0),
    {
        Score::with_value(0)
    }

    /// A score of `value` points.
    pub fn with_value(value: i32) -> (s: Score)
        requires
            value >= 0,
        ensures
            s.value() == value,
            s.spec_label() == label_text(value as nat),
    {
        let mut label = String::from_str("Score: ");
        push_decimal(&mut label, value as u32);
        Score { label, value }
    }

    #[verifier::when_used_as_spec(spec_value)]
    pub fn value(&self) -> (v: i32)
        ensures
            v == self.spec_value(),
            v >= 0,
    {
        proof {
            use_type_invariant(self);
        }
        self.value
    }

    /// The text that shows the points.
    pub fn label(&self) -> (text: &str)
        ensures
            text@ == self.spec_label(),
            text@ == label_text(self.value() as nat),
    {
        proof {
            use_type_invariant(self);
        }
        self.label.as_str()
    }

    /// Adds one point and rewrites the text to match.
    pub fn increment(&mut self)
        requires
            old(self).value() < i32::MAX,
        ensures
            final(self).value() == old(self).value() + 1,
            final(self).spec_label() == label_text((old(self).value() + 1) as nat),
    {
        proof {
            use_type_invariant(&*self);
        }
        *self = Score::with_value(self.value + 1);
    }
}

impl Clone for Score {
    fn clone(&self) -> (s: Score)
        ensures
            s == *self,
    {
        proof {
            use_type_invariant(self);
        }
        Score { label: self.label.clone(), value: self.value }
    }
}

} // verus!
