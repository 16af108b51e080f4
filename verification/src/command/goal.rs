//! Reading a goal expression.

use crate::command::{CommandLineError, CommandLineErrorView, GoalKind};
use vstd::prelude::*;
use vstd::string::StrSliceExecFns;

verus! {

/// Whether a character is one of the ten decimal digits.
pub open spec fn is_digit(c: char) -> bool {
    '0' <= c <= '9'
}

/// The number a decimal digit stands for.
pub open spec fn digit_value(c: char) -> nat {
    (c as u32 - '0' as u32) as nat
}

/// The number that a row of decimal digits writes.
pub open spec fn digits_value(s: Seq<char>) -> nat
    decreases s.len(),
{
    if s.len() == 0 {
        0
    } else {
        digits_value(s.drop_last()) * 10 + digit_value(s.last())
    }
}

/// Whether `s` holds decimal digits only.
pub open spec fn all_digits(s: Seq<char>) -> bool {
    forall|i: int| 0 <= i < s.len() ==> is_digit(#[trigger] s[i])
}

/// The decimal digits of `s`, in order, without its other characters.
pub open spec fn digits_of(s: Seq<char>) -> Seq<char>
    decreases s.len(),
{
    if s.len() == 0 {
        s
    } else if is_digit(s.last()) {
        digits_of(s.drop_last()).push(s.last())
    } else {
        digits_of(s.drop_last())
    }
}

/// The number of characters that follow the first point of `s`; zero where
/// `s` has no point.
pub open spec fn after_first_point(s: Seq<char>) -> nat
    decreases s.len(),
{
    if s.len() == 0 {
        0
    } else if s[0] == '.' {
        (s.len() - 1) as nat
    } else {
        after_first_point(s.drop_first())
    }
}

/// A whole number as text: an optional plus sign, then one or more decimal
/// digits whose value fits 32 bits.
pub open spec fn parse_u32(s: Seq<char>) -> Option<u32> {
    let body = if s.len() > 0 && s[0] == '+' {
        s.drop_first()
    } else {
        s
    };
    if body.len() > 0 && all_digits(body) && digits_value(body) <= u32::MAX {
        Some(digits_value(body) as u32)
    } else {
        None
    }
}

/// What a goal expression means.
///
/// - `<N`, with a whole number `N`, is a goal to stay under.
/// - An expression with a point is a fixed-point goal: its magnitude is
///   written by its digits, its number of decimals is the number of
///   characters after the first point, kept to 8 bits.
/// - A whole number `N` is a count to reach.
///
/// Anything else is an invalid goal expression.
pub open spec fn parse_goal(s: Seq<char>) -> Result<GoalKind, CommandLineErrorView> {
    if s.len() > 0 && s[0] == '<' {
        match parse_u32(s.drop_first()) {
            Some(n) => Ok(GoalKind::Addiction(n)),
            None => Err(CommandLineErrorView::InvalidGoal(s)),
        }
    } else if s.contains('.') {
        if digits_of(s).len() > 0 && digits_value(digits_of(s)) <= u32::MAX {
            Ok(
                GoalKind::Float(
                    digits_value(digits_of(s)) as u32,
                    (after_first_point(s) % 256) as u8,
                ),
            )
        } else {
            Err(CommandLineErrorView::InvalidGoal(s))
        }
    } else {
        match parse_u32(s) {
            Some(n) => Ok(GoalKind::Count(n)),
            None => Err(CommandLineErrorView::InvalidGoal(s)),
        }
    }
}

/// Reading further digits never lowers the number read so far.
pub proof fn lemma_digits_value_grows(s: Seq<char>, k: int)
    requires
        0 <= k <= s.len(),
    ensures
        digits_value(s.take(k)) <= digits_value(s),
    decreases s.len() - k,
{
    if k == s.len() {
        assert(s.take(k) =~= s);
    } else {
        lemma_digits_value_grows(s, k + 1);
        assert(s.take(k + 1).drop_last() =~= s.take(k));
    }
}

/// The digits of a prefix write no more than the digits of the whole.
pub proof fn lemma_digits_of_prefix(s: Seq<char>, k: int)
    requires
        0 <= k <= s.len(),
    ensures
        digits_value(digits_of(s.take(k))) <= digits_value(digits_of(s)),
        digits_of(s.take(k)).len() <= digits_of(s).len(),
    decreases s.len() - k,
{
    if k == s.len() {
        assert(s.take(k) =~= s);
    } else {
        lemma_digits_of_prefix(s, k + 1);
        assert(s.take(k + 1).drop_last() =~= s.take(k));
        let longer = digits_of(s.take(k + 1));
        if is_digit(s[k]) {
            assert(longer.drop_last() =~= digits_of(s.take(k)));
        }
    }
}

/// The number a decimal digit stands for, if `c` is one.
fn digit_of(c: char) -> (d: Option<u8>)
    ensures
        d is Some <==> is_digit(c),
        d matches Some(v) ==> v == digit_value(c) && v < 10,
{
    if '0' <= c && c <= '9' {
        Some((c as u32 - '0' as u32) as u8)
    } else {
        None
    }
}

/// Reads a whole number.
pub fn parse_number(s: &str) -> (r: Option<u32>)
    ensures
        r == parse_u32(s@),
{
    let n = s.unicode_len();
    let start: usize = if n > 0 && s.get_char(0) == '+' {
        1
    } else {
        0
    };
    let ghost body = s@.subrange(start as int, n as int);
    assert(body =~= if s@.len() > 0 && s@[0] == '+' {
        s@.drop_first()
    } else {
        s@
    });
    if start == n {
        return None;
    }
    let mut value: u64 = 0;
    let mut i: usize = start;
    assert(body.take(0) =~= Seq::<char>::empty());
    while i < n
        invariant
            n == s@.len(),
            start <= i <= n,
            body == s@.subrange(start as int, n as int),
            body == if s@.len() > 0 && s@[0] == '+' {
                s@.drop_first()
            } else {
                s@
            },
            value == digits_value(body.take(i - start)),
            value <= u32::MAX,
            forall|k: int| 0 <= k < i - start ==> is_digit(#[trigger] body[k]),
        decreases n - i,
    {
        let c = s.get_char(i);
        assert(body[i - start] == c);
        match digit_of(c) {
            None => {
                return None;
            },
            Some(d) => {
                assert(body.take(i - start + 1).drop_last() =~= body.take(i - start));
                value = value * 10 + d as u64;
                if value > u32::MAX as u64 {
                    proof {
                        lemma_digits_value_grows(body, i - start + 1);
                    }
                    return None;
                }
            },
        }
        i += 1;
    }
    assert(body.take(n - start) =~= body);
    Some(value as u32)
}

impl GoalKind {
    /// Reads a goal expression.
    pub fn from_str(s: &str) -> (r: Result<GoalKind, CommandLineError>)
        ensures
            match r {
                Ok(goal) => parse_goal(s@) == Ok::<GoalKind, CommandLineErrorView>(goal),
                Err(e) => parse_goal(s@) == Err::<GoalKind, CommandLineErrorView>(e@),
            },
    {
        let n = s.unicode_len();
        if n > 0 && s.get_char(0) == '<' {
            let rest = s.substring_char(1, n);
            assert(rest@ =~= s@.drop_first());
            return match parse_number(rest) {
                Some(v) => Ok(GoalKind::Addiction(v)),
                None => Err(CommandLineError::InvalidGoal(s.to_owned())),
            };
        }
        match decimals_after_point(s) {
            Some(decimals) => {
                match digits_number(s) {
                    Some(value) => Ok(GoalKind::Float(value, (decimals % 256) as u8)),
                    None => Err(CommandLineError::InvalidGoal(s.to_owned())),
                }
            },
            None => {
                match parse_number(s) {
                    Some(v) => Ok(GoalKind::Count(v)),
                    None => Err(CommandLineError::InvalidGoal(s.to_owned())),
                }
            },
        }
    }
}

impl std::str::FromStr for GoalKind {
    type Err = CommandLineError;

    /// Reads a goal expression, as [`GoalKind::from_str`] does.
    fn from_str(s: &str) -> (r: Result<GoalKind, CommandLineError>)
        ensures
            match r {
                Ok(goal) => parse_goal(s@) == Ok::<GoalKind, CommandLineErrorView>(goal),
                Err(e) => parse_goal(s@) == Err::<GoalKind, CommandLineErrorView>(e@),
            },
    {
        GoalKind::from_str(s)
    }
}

/// The number of characters after the first point of `s`, if it has one.
fn decimals_after_point(s: &str) -> (r: Option<usize>)
    ensures
        r is Some <==> s@.contains('.'),
        r matches Some(count) ==> count == after_first_point(s@),
{
    let n = s.unicode_len();
    let mut i: usize = 0;
    assert(s@ =~= s@.subrange(0, n as int));
    while i < n
        invariant
            n == s@.len(),
            i <= n,
            forall|k: int| 0 <= k < i ==> s@[k] != '.',
            after_first_point(s@) == after_first_point(s@.subrange(i as int, n as int)),
        decreases n - i,
    {
        let ghost rest = s@.subrange(i as int, n as int);
        assert(rest[0] == s@[i as int]);
        if s.get_char(i) == '.' {
            return Some(n - i - 1);
        }
        assert(rest.drop_first() =~= s@.subrange(i + 1, n as int));
        i += 1;
    }
    None
}

/// The number written by the digits of `s`, if there are any and it fits.
fn digits_number(s: &str) -> (r: Option<u32>)
    ensures
        r is Some <==> digits_of(s@).len() > 0 && digits_value(digits_of(s@)) <= u32::MAX,
        r matches Some(v) ==> v == digits_value(digits_of(s@)),
{
    let n = s.unicode_len();
    let mut value: u64 = 0;
    let mut seen = false;
    let mut i: usize = 0;
    assert(s@.take(0) =~= Seq::<char>::empty());
    while i < n
        invariant
            n == s@.len(),
            i <= n,
            value == digits_value(digits_of(s@.take(i as int))),
            value <= u32::MAX,
            seen == (digits_of(s@.take(i as int)).len() > 0),
        decreases n - i,
    {
        let c = s.get_char(i);
        assert(s@.take(i + 1).drop_last() =~= s@.take(i as int));
        assert(s@.take(i + 1).last() == c);
        match digit_of(c) {
            None => {},
            Some(d) => {
                assert(digits_of(s@.take(i + 1)).drop_last() =~= digits_of(s@.take(i as int)));
                value = value * 10 + d as u64;
                seen = true;
                if value > u32::MAX as u64 {
                    proof {
                        lemma_digits_of_prefix(s@, i + 1);
                    }
                    return None;
                }
            },
        }
        i += 1;
    }
    assert(s@.take(n as int) =~= s@);
    if seen {
        Some(value as u32)
    } else {
        None
    }
}

} // verus!
