//! Version components and the partial order between them.

use vstd::prelude::*;

verus! {

use core::cmp::Ordering;
use vstd::string::StrSliceExecFns;

/// One token of a version string: a recognized modifier keyword, a separator,
/// a numeric run, a single fallback character, or the end-of-input sentinel.
///
/// The declaration order of the unit variants is their rank in the fallback
/// total order; see [`Component::rank`].
#[derive(Copy, Clone, Debug, PartialEq, Eq, PartialOrd, Ord, Structural)]
pub enum Component {
    Alpha,
    Beta,
    Pre,
    Rc,
    PatchLevel,
    DashOrDot,
    End,
    Num(u64),
    Char(char),
}

impl Component {
    /// The fixed total rank that orders component kinds when no exception
    /// applies: `Alpha < Beta < Pre < Rc < PatchLevel < DashOrDot < End < Num < Char`.
    pub open spec fn rank(self) -> int {
        match self {
            Component::Alpha => 0,
            Component::Beta => 1,
            Component::Pre => 2,
            Component::Rc => 3,
            Component::PatchLevel => 4,
            Component::DashOrDot => 5,
            Component::End => 6,
            Component::Num(_) => 7,
            Component::Char(_) => 8,
        }
    }
}

/// The ordering of two integers.
pub open spec fn int_order(x: int, y: int) -> Ordering {
    if x < y {
        Ordering::Less
    } else if x > y {
        Ordering::Greater
    } else {
        Ordering::Equal
    }
}

/// Exception pairs, lower-ranked side first, that compare equal although their
/// ranks differ: a separator, a zero-valued number or a bare patch-level marker
/// carries no more content than the end of the string.
pub open spec fn equal_exception(lo: Component, hi: Component) -> bool {
    ||| (lo == Component::End && hi == Component::Num(0u64))
    ||| (lo == Component::PatchLevel && hi == Component::End)
    ||| (lo == Component::DashOrDot && hi == Component::End)
}

/// Exception pairs, lower-ranked side first, that are incomparable: a separator
/// or patch marker cannot be meaningfully ranked against a numeric or
/// alphabetic continuation of a differently structured version string.
pub open spec fn incomparable_exception(lo: Component, hi: Component) -> bool {
    ||| (lo matches Component::Num(_) && hi matches Component::Char(_))
    ||| (lo == Component::PatchLevel && hi == Component::DashOrDot)
    ||| (lo == Component::PatchLevel && hi matches Component::Num(_))
    ||| (lo == Component::DashOrDot && hi matches Component::Num(_))
    ||| (lo == Component::DashOrDot && hi matches Component::Char(_))
}

/// The partial order on components: the symmetric exception table first, then
/// the payload order for matching `Num` or `Char` variants, then the rank.
pub open spec fn component_order(a: Component, b: Component) -> Option<Ordering> {
    if equal_exception(a, b) || equal_exception(b, a) {
        Some(Ordering::Equal)
    } else if incomparable_exception(a, b) || incomparable_exception(b, a) {
        None
    } else {
        match (a, b) {
            (Component::Num(x), Component::Num(y)) => Some(int_order(x as int, y as int)),
            (Component::Char(x), Component::Char(y)) => Some(int_order(x as int, y as int)),
            _ => Some(int_order(a.rank(), b.rank())),
        }
    }
}

impl Component {
    /// The rank of the component as a machine integer.
    fn rank_index(&self) -> (r: u8)
        ensures
            r as int == self.rank(),
    {
        match self {
            Component::Alpha => 0u8,
            Component::Beta => 1u8,
            Component::Pre => 2u8,
            Component::Rc => 3u8,
            Component::PatchLevel => 4u8,
            Component::DashOrDot => 5u8,
            Component::End => 6u8,
            Component::Num(_) => 7u8,
            Component::Char(_) => 8u8,
        }
    }
}

/// Whether `c` is an ASCII decimal digit.
pub open spec fn spec_is_digit(c: char) -> bool {
    '0' as int <= c as int && c as int <= '9' as int
}

/// The numeric value of an ASCII decimal digit.
pub open spec fn digit_val(c: char) -> u64 {
    (c as int - '0' as int) as u64
}

/// Folds one more digit into an accumulator, wrapping modulo `2^64`.
pub open spec fn push_digit(n: u64, d: u64) -> u64 {
    vstd::wrapping::u64_specs::wrapping_add(vstd::wrapping::u64_specs::wrapping_mul(n, 10), d)
}

/// The value of a digit run, most significant digit first, accumulated as
/// `n * 10 + d` on a 64-bit unsigned integer that wraps on overflow.
pub open spec fn num_value(s: Seq<char>) -> u64
    decreases s.len(),
{
    if s.len() == 0 {
        0u64
    } else {
        push_digit(num_value(s.drop_last()), digit_val(s.last()))
    }
}

/// The length of the maximal run of ASCII decimal digits at the front of `s`.
pub open spec fn digit_run_len(s: Seq<char>) -> nat
    decreases s.len(),
{
    if s.len() == 0 || !spec_is_digit(s[0]) {
        0
    } else {
        1 + digit_run_len(s.drop_first())
    }
}

/// Whether `p` is a prefix of `s`.
pub open spec fn starts_with(s: Seq<char>, p: Seq<char>) -> bool {
    p.len() <= s.len() && forall|i: int| 0 <= i < p.len() ==> s[i] == p[i]
}

pub open spec fn kw_alpha() -> Seq<char> {
    seq!['a', 'l', 'p', 'h', 'a']
}

pub open spec fn kw_beta() -> Seq<char> {
    seq!['b', 'e', 't', 'a']
}

pub open spec fn kw_pre() -> Seq<char> {
    seq!['p', 'r', 'e']
}

pub open spec fn kw_rc() -> Seq<char> {
    seq!['r', 'c']
}

pub open spec fn kw_pl() -> Seq<char> {
    seq!['p', 'l']
}

/// The token taken from the front of `s` when `s` starts with a digit run:
/// the run's wrapped numeric value and the text after the run.
pub open spec fn spec_eat_digits(s: Seq<char>) -> Option<(Component, Seq<char>)> {
    let k = digit_run_len(s) as int;
    if k == 0 {
        None
    } else {
        Some((Component::Num(num_value(s.take(k))), s.skip(k)))
    }
}

/// The token taken from the front of `s` when `s` starts with a separator
/// or a modifier keyword, tried in the fixed priority order.
pub open spec fn spec_eat_keyword(s: Seq<char>) -> Option<(Component, Seq<char>)> {
    if s.len() >= 1 && (s[0] == '.' || s[0] == '-') {
        Some((Component::DashOrDot, s.skip(1)))
    } else if starts_with(s, kw_alpha()) {
        Some((Component::Alpha, s.skip(5)))
    } else if starts_with(s, kw_beta()) {
        Some((Component::Beta, s.skip(4)))
    } else if starts_with(s, kw_pre()) {
        Some((Component::Pre, s.skip(3)))
    } else if starts_with(s, kw_rc()) {
        Some((Component::Rc, s.skip(2)))
    } else if starts_with(s, kw_pl()) {
        Some((Component::PatchLevel, s.skip(2)))
    } else {
        None
    }
}

/// ASCII-lowercases an ASCII alphabetic character; any other scalar is
/// returned unchanged.
pub open spec fn lower_ascii(c: char) -> char {
    if 'A' as int <= c as int && c as int <= 'Z' as int {
        (c as int + 32) as char
    } else {
        c
    }
}

/// The tokenizer: one component taken from the front of `s` and the
/// remaining text. Empty input yields `End`; a digit run yields `Num`;
/// then separators and keywords; any other single scalar is a fallback
/// `Char`, ASCII-lowercased if ASCII alphabetic.
pub open spec fn spec_eat(s: Seq<char>) -> (Component, Seq<char>) {
    if s.len() == 0 {
        (Component::End, s)
    } else {
        match spec_eat_digits(s) {
            Some(r) => r,
            None => match spec_eat_keyword(s) {
                Some(r) => r,
                None => (Component::Char(lower_ascii(s[0])), s.skip(1)),
            },
        }
    }
}

/// Relates an executable tokenizer result to its specification: same
/// component, and the remainder slice views to the specified remainder.
pub open spec fn option_eats(r: Option<(Component, &str)>, m: Option<(Component, Seq<char>)>) -> bool {
    match (r, m) {
        (None, None) => true,
        (Some(p), Some(q)) => p.0 == q.0 && p.1@ == q.1,
        _ => false,
    }
}

/// The digit run is never longer than the string.
pub proof fn lemma_digit_run_len_le(s: Seq<char>)
    ensures
        digit_run_len(s) <= s.len(),
    decreases s.len(),
{
    if s.len() != 0 && spec_is_digit(s[0]) {
        lemma_digit_run_len_le(s.drop_first());
    }
}

/// A position bounding a digit prefix on both sides is the digit run's length.
pub proof fn lemma_digit_run_len_is(s: Seq<char>, k: nat)
    requires
        k <= s.len(),
        forall|j: int| 0 <= j < k ==> spec_is_digit(s[j]),
        k < s.len() ==> !spec_is_digit(s[k as int]),
    ensures
        digit_run_len(s) == k,
    decreases s.len(),
{
    if k == 0 {
    } else {
        assert(spec_is_digit(s[0]));
        let t = s.drop_first();
        assert forall|j: int| 0 <= j < k - 1 implies spec_is_digit(t[j]) by {
            assert(t[j] == s[j + 1]);
        }
        if k - 1 < t.len() {
            assert(t[k - 1] == s[k as int]);
        }
        lemma_digit_run_len_is(t, (k - 1) as nat);
    }
}

/// The tokenizer is total and always progresses: empty input yields `End`
/// and the same empty remainder; non-empty input consumes at least one
/// scalar and never yields `End`.
pub proof fn lemma_eat_progress(s: Seq<char>)
    ensures
        s.len() == 0 ==> spec_eat(s) == (Component::End, s),
        s.len() > 0 ==> spec_eat(s).1.len() < s.len(),
        spec_eat(s).0 == Component::End <==> s.len() == 0,
{
    if s.len() > 0 {
        lemma_digit_run_len_le(s);
    }
}

impl Component {
    /// Takes a maximal run of ASCII decimal digits from the front of `s`, or
    /// `None` when `s` does not start with a digit. The run is folded into an
    /// unsigned 64-bit accumulator that wraps on overflow.
    pub fn eat_digits(s: &str) -> (r: Option<(Component, &str)>)
        ensures
            option_eats(r, spec_eat_digits(s@)),
    {
        let n = s.unicode_len();
        let mut i: usize = 0;
        let mut acc: u64 = 0;
        proof {
            lemma_digit_run_len_le(s@);
        }
        loop
            invariant
                n == s@.len(),
                0 <= i <= n,
                forall|j: int| 0 <= j < i ==> spec_is_digit(s@[j]),
                acc == num_value(s@.take(i as int)),
            ensures
                n == s@.len(),
                0 <= i <= n,
                forall|j: int| 0 <= j < i ==> spec_is_digit(s@[j]),
                acc == num_value(s@.take(i as int)),
                i < n ==> !spec_is_digit(s@[i as int]),
            decreases n - i,
        {
            if i == n {
                break;
            }
            let c = s.get_char(i);
            let u = c as u32;
            if u < 48 || 57 < u {
                break;
            }
            let d = (u - 48) as u64;
            proof {
                let t = s@.take(i + 1);
                assert(t.drop_last() =~= s@.take(i as int));
                assert(t.last() == s@[i as int]);
            }
            acc = acc.wrapping_mul(10).wrapping_add(d);
            i = i + 1;
        }
        proof {
            if i < n {
                assert(!spec_is_digit(s@[i as int]));
            }
            lemma_digit_run_len_is(s@, i as nat);
        }
        if i == 0 {
            None
        } else {
            let rest = s.substring_char(i, n);
            proof {
                assert(rest@ =~= s@.skip(i as int));
            }
            Some((Component::Num(acc), rest))
        }
    }

    /// Takes a separator (`.` or `-`) or one of the modifier keywords
    /// `alpha`, `beta`, `pre`, `rc`, `pl` from the front of `s`, trying the
    /// fixed prefixes in that priority order.
    pub fn eat_keyword(s: &str) -> (r: Option<(Component, &str)>)
        ensures
            option_eats(r, spec_eat_keyword(s@)),
    {
        let n = s.unicode_len();
        if n == 0 {
            return None;
        }
        let c0 = s.get_char(0);
        if c0 == '.' || c0 == '-' {
            let rest = s.substring_char(1, n);
            proof {
                assert(rest@ =~= s@.skip(1));
            }
            return Some((Component::DashOrDot, rest));
        }
        if n >= 5 && c0 == 'a' && s.get_char(1) == 'l' && s.get_char(2) == 'p' && s.get_char(3)
            == 'h' && s.get_char(4) == 'a' {
            let rest = s.substring_char(5, n);
            proof {
                assert(rest@ =~= s@.skip(5));
            }
            return Some((Component::Alpha, rest));
        }
        if n >= 4 && c0 == 'b' && s.get_char(1) == 'e' && s.get_char(2) == 't' && s.get_char(3)
            == 'a' {
            let rest = s.substring_char(4, n);
            proof {
                assert(rest@ =~= s@.skip(4));
            }
            return Some((Component::Beta, rest));
        }
        if n >= 3 && c0 == 'p' && s.get_char(1) == 'r' && s.get_char(2) == 'e' {
            let rest = s.substring_char(3, n);
            proof {
                assert(rest@ =~= s@.skip(3));
            }
            return Some((Component::Pre, rest));
        }
        if n >= 2 && c0 == 'r' && s.get_char(1) == 'c' {
            let rest = s.substring_char(2, n);
            proof {
                assert(rest@ =~= s@.skip(2));
            }
            return Some((Component::Rc, rest));
        }
        if n >= 2 && c0 == 'p' && s.get_char(1) == 'l' {
            let rest = s.substring_char(2, n);
            proof {
                assert(rest@ =~= s@.skip(2));
            }
            return Some((Component::PatchLevel, rest));
        }
        None
    }

    /// Takes a single scalar from the front of `s` as a fallback character,
    /// ASCII-lowercased if it is ASCII alphabetic.
    pub fn eat_plain_char(s: &str) -> (r: (Component, &str))
        requires
            s@.len() > 0,
        ensures
            r.0 == Component::Char(lower_ascii(s@[0])),
            r.1@ == s@.skip(1),
    {
        let n = s.unicode_len();
        let c = s.get_char(0);
        let u = c as u32;
        let lowered: char = if 65 <= u && u <= 90 {
            ((u + 32) as u8) as char
        } else {
            c
        };
        let rest = s.substring_char(1, n);
        proof {
            assert(rest@ =~= s@.skip(1));
        }
        (Component::Char(lowered), rest)
    }

    /// The tokenizer: one component taken from the front of `s` and the rest
    /// of `s`. Every call on non-empty input consumes at least one scalar;
    /// empty input yields `End` and the empty remainder.
    pub fn eat_str(s: &str) -> (r: (Component, &str))
        ensures
            r.0 == spec_eat(s@).0,
            r.1@ == spec_eat(s@).1,
    {
        if s.is_empty() {
            (Component::End, s)
        } else if let Some(result) = Self::eat_digits(s) {
            result
        } else if let Some(result) = Self::eat_keyword(s) {
            result
        } else {
            Self::eat_plain_char(s)
        }
    }

    /// Compares two components under the partial order: the exceptions of the
    /// table first, then payload or rank order. `None` means incomparable.
    pub fn real_cmp(&self, other: &Component) -> (r: Option<Ordering>)
        ensures
            r == component_order(*self, *other),
    {
        match (*self, *other) {
            (Component::End, Component::Num(0u64)) | (Component::Num(0u64), Component::End) => Some(
                Ordering::Equal,
            ),
            (Component::PatchLevel, Component::End) | (Component::End, Component::PatchLevel) => Some(
                Ordering::Equal,
            ),
            (Component::DashOrDot, Component::End) | (Component::End, Component::DashOrDot) => Some(
                Ordering::Equal,
            ),
            (Component::Num(_), Component::Char(_)) | (Component::Char(_), Component::Num(_)) => None,
            (Component::PatchLevel, Component::DashOrDot)
            | (Component::DashOrDot, Component::PatchLevel) => None,
            (Component::PatchLevel, Component::Num(_))
            | (Component::Num(_), Component::PatchLevel) => None,
            (Component::DashOrDot, Component::Num(_))
            | (Component::Num(_), Component::DashOrDot) => None,
            (Component::DashOrDot, Component::Char(_))
            | (Component::Char(_), Component::DashOrDot) => None,
            (Component::Num(x), Component::Num(y)) => Some(
                if x < y {
                    Ordering::Less
                } else if x > y {
                    Ordering::Greater
                } else {
                    Ordering::Equal
                },
            ),
            (Component::Char(x), Component::Char(y)) => {
                let ux = x as u32;
                let uy = y as u32;
                Some(
                    if ux < uy {
                        Ordering::Less
                    } else if ux > uy {
                        Ordering::Greater
                    } else {
                        Ordering::Equal
                    },
                )
            },
            _ => {
                let ra = self.rank_index();
                let rb = other.rank_index();
                Some(
                    if ra < rb {
                        Ordering::Less
                    } else if ra > rb {
                        Ordering::Greater
                    } else {
                        Ordering::Equal
                    },
                )
            },
        }
    }
}

} // verus!
