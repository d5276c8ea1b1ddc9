//! The five severities, their total order, and how a level name is read.

use vstd::prelude::*;

verus! {

/// How important an event is; `Trace` is the least, `Error` the most.
#[derive(Clone, Copy, Debug, PartialEq, Eq, Structural)]
pub enum Severity {
    Trace,
    Debug,
    Info,
    Warn,
    Error,
}

/// The position of a severity in the total order.
pub open spec fn rank(s: Severity) -> nat {
    match s {
        Severity::Trace => 0,
        Severity::Debug => 1,
        Severity::Info => 2,
        Severity::Warn => 3,
        Severity::Error => 4,
    }
}

/// An event at `s` passes a filter whose threshold is `threshold`.
pub open spec fn admits(threshold: Severity, s: Severity) -> bool {
    rank(s) >= rank(threshold)
}

/// The upper-case name printed for a severity.
pub open spec fn tag_text(s: Severity) -> Seq<char> {
    match s {
        Severity::Trace => seq!['T', 'R', 'A', 'C', 'E'],
        Severity::Debug => seq!['D', 'E', 'B', 'U', 'G'],
        Severity::Info => seq!['I', 'N', 'F', 'O'],
        Severity::Warn => seq!['W', 'A', 'R', 'N'],
        Severity::Error => seq!['E', 'R', 'R', 'O', 'R'],
    }
}

pub open spec fn ascii_lower(c: char) -> char {
    if 'A' <= c && c <= 'Z' {
        ((c as u32) + 32) as char
    } else {
        c
    }
}

/// `a` and `b` are equal once ASCII letters are folded to lower case.
pub open spec fn eq_ignore_ascii_case(a: Seq<char>, b: Seq<char>) -> bool {
    a.len() == b.len() && forall|i: int| 0 <= i < a.len() ==> ascii_lower(a[i]) == ascii_lower(b[i])
}

pub open spec fn is_digit(c: char) -> bool {
    '0' <= c && c <= '9'
}

pub open spec fn all_digits(s: Seq<char>) -> bool {
    forall|i: int| 0 <= i < s.len() ==> is_digit(s[i])
}

/// The number that a string of decimal digits spells.
pub open spec fn digits_value(s: Seq<char>) -> nat
    decreases s.len(),
{
    if s.len() == 0 {
        0
    } else {
        digits_value(s.drop_last()) * 10 + ((s.last() as u32) - ('0' as u32)) as nat
    }
}

/// The value of `s` read as an unsigned decimal integer: an optional `+`
/// and at least one digit.
pub open spec fn unsigned_value(s: Seq<char>) -> Option<nat> {
    if s.len() > 0 && all_digits(s) {
        Some(digits_value(s))
    } else if s.len() > 1 && s[0] == '+' && all_digits(s.drop_first()) {
        Some(digits_value(s.drop_first()))
    } else {
        None
    }
}

/// The severity that one of the five names denotes, in any ASCII case.
pub open spec fn severity_name(s: Seq<char>) -> Option<Severity> {
    if eq_ignore_ascii_case(s, seq!['e', 'r', 'r', 'o', 'r']) {
        Some(Severity::Error)
    } else if eq_ignore_ascii_case(s, seq!['w', 'a', 'r', 'n']) {
        Some(Severity::Warn)
    } else if eq_ignore_ascii_case(s, seq!['i', 'n', 'f', 'o']) {
        Some(Severity::Info)
    } else if eq_ignore_ascii_case(s, seq!['d', 'e', 'b', 'u', 'g']) {
        Some(Severity::Debug)
    } else if eq_ignore_ascii_case(s, seq!['t', 'r', 'a', 'c', 'e']) {
        Some(Severity::Trace)
    } else {
        None
    }
}

/// What `tracing::Level` reads from `s`: a number from 1 (error) to 5
/// (trace), or one of the five names in any ASCII case.
pub open spec fn level_named(s: Seq<char>) -> Option<Severity> {
    match unsigned_value(s) {
        Some(n) => if n == 1 {
            Some(Severity::Error)
        } else if n == 2 {
            Some(Severity::Warn)
        } else if n == 3 {
            Some(Severity::Info)
        } else if n == 4 {
            Some(Severity::Debug)
        } else if n == 5 {
            Some(Severity::Trace)
        } else {
            None
        },
        None => severity_name(s),
    }
}

impl Severity {
    /// Whether an event at `self` passes a filter with the given threshold.
    pub fn is_admitted_by(self, threshold: Severity) -> (r: bool)
        ensures
            r == admits(threshold, self),
    {
        self.order() >= threshold.order()
    }

    /// The position of `self` in the order, from 0 (trace) to 4 (error).
    pub fn order(self) -> (r: u8)
        ensures
            r as nat == rank(self),
    {
        match self {
            Severity::Trace => 0,
            Severity::Debug => 1,
            Severity::Info => 2,
            Severity::Warn => 3,
            Severity::Error => 4,
        }
    }

    /// The upper-case name of `self`, as it appears in a rendered line.
    pub fn tag(self) -> (r: String)
        ensures
            r@ == tag_text(self),
    {
        match self {
            Severity::Trace => {
                let r = String::from_str("TRACE");
                proof {
                    reveal_strlit("TRACE");
                }
                assert(r@ =~= tag_text(self));
                r
            },
            Severity::Debug => {
                let r = String::from_str("DEBUG");
                proof {
                    reveal_strlit("DEBUG");
                }
                assert(r@ =~= tag_text(self));
                r
            },
            Severity::Info => {
                let r = String::from_str("INFO");
                proof {
                    reveal_strlit("INFO");
                }
                assert(r@ =~= tag_text(self));
                r
            },
            Severity::Warn => {
                let r = String::from_str("WARN");
                proof {
                    reveal_strlit("WARN");
                }
                assert(r@ =~= tag_text(self));
                r
            },
            Severity::Error => {
                let r = String::from_str("ERROR");
                proof {
                    reveal_strlit("ERROR");
                }
                assert(r@ =~= tag_text(self));
                r
            },
        }
    }
}

/// Relies on `FromStr for tracing::Level`: a number 1 to 5 as `usize`
/// parses it, or one of the five names compared with `eq_ignore_ascii_case`.
#[verifier::external_body]
fn parse_tracing_level(s: &str) -> (r: Option<Severity>)
    ensures
        r == level_named(s@),
{
    match s.parse::<tracing::Level>() {
        Ok(l) if l == tracing::Level::ERROR => Some(Severity::Error),
        Ok(l) if l == tracing::Level::WARN => Some(Severity::Warn),
        Ok(l) if l == tracing::Level::INFO => Some(Severity::Info),
        Ok(l) if l == tracing::Level::DEBUG => Some(Severity::Debug),
        Ok(_) => Some(Severity::Trace),
        Err(_) => None,
    }
}

/// Reads a level name: one of the five severity names in any ASCII case,
/// `None` for anything else, numbers included.
pub fn parse_severity(s: &str) -> (r: Option<Severity>)
    ensures
        r == severity_name(s@),
{
    if s.unicode_len() > 0 {
        let c = s.get_char(0);
        if ('0' <= c && c <= '9') || c == '+' {
            proof {
                assert(ascii_lower(s@[0]) == c);
                assert(ascii_lower(seq!['e', 'r', 'r', 'o', 'r'][0]) == 'e');
                assert(ascii_lower(seq!['w', 'a', 'r', 'n'][0]) == 'w');
                assert(ascii_lower(seq!['i', 'n', 'f', 'o'][0]) == 'i');
                assert(ascii_lower(seq!['d', 'e', 'b', 'u', 'g'][0]) == 'd');
                assert(ascii_lower(seq!['t', 'r', 'a', 'c', 'e'][0]) == 't');
            }
            return None;
        }
        assert(!is_digit(s@[0]));
    }
    parse_tracing_level(s)
}

/// The severity order is total and a filter is a cut of it: whatever passes
/// a threshold, every more severe event passes as well.
pub proof fn lemma_threshold_monotone(threshold: Severity, s1: Severity, s2: Severity)
    requires
        rank(s1) < rank(s2),
        admits(threshold, s1),
    ensures
        admits(threshold, s2),
{
}

} // verus!
