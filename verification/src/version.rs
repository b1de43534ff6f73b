//! The `Version` view over a string and the comparison driver.

use vstd::prelude::*;

verus! {

use core::cmp::Ordering;
use crate::component::Component;
use crate::component::component_order;
use crate::component::lemma_eat_progress;
use crate::component::spec_eat;

/// The partial order on version texts: both sides are tokenized in lock step
/// and the per-component results are folded into one verdict. Two exhausted
/// inputs are equal; the first incomparable pair makes the whole comparison
/// incomparable; the first strict inequality decides it; equal components
/// advance to the remainders.
pub open spec fn version_order(a: Seq<char>, b: Seq<char>) -> Option<Ordering>
    decreases a.len() + b.len(),
{
    let (c1, r1) = spec_eat(a);
    let (c2, r2) = spec_eat(b);
    if c1 == Component::End && c2 == Component::End {
        Some(Ordering::Equal)
    } else {
        match component_order(c1, c2) {
            Some(Ordering::Equal) => {
                proof {
                    lemma_eat_progress(a);
                    lemma_eat_progress(b);
                }
                version_order(r1, r2)
            },
            verdict => verdict,
        }
    }
}

/// An immutable view over a version string. It holds no derived state;
/// tokenization happens per comparison call.
#[derive(Debug, Eq)]
pub struct Version<'a>(&'a str);

impl<'a> View for Version<'a> {
    type V = Seq<char>;

    closed spec fn view(&self) -> Seq<char> {
        self.0@
    }
}

impl<'a> Version<'a> {
    /// The underlying string.
    pub fn as_str(&self) -> (s: &'a str)
        ensures
            s@ == self@,
    {
        self.0
    }
}

impl<'a> vstd::std_specs::cmp::PartialEqSpecImpl for Version<'a> {
    open spec fn obeys_eq_spec() -> bool {
        true
    }

    open spec fn eq_spec(&self, other: &Version<'a>) -> bool {
        version_order(self@, other@) == Some(Ordering::Equal)
    }
}

impl<'a> PartialEq for Version<'a> {
    /// Two versions are equal exactly when comparison yields equal; an
    /// incomparable pair is unequal, not an error.
    fn eq(&self, other: &Self) -> (r: bool) {
        matches!(self.partial_cmp(other), Some(Ordering::Equal))
    }
}

impl<'a> vstd::std_specs::cmp::PartialOrdSpecImpl for Version<'a> {
    open spec fn obeys_partial_cmp_spec() -> bool {
        true
    }

    open spec fn partial_cmp_spec(&self, other: &Version<'a>) -> Option<Ordering> {
        version_order(self@, other@)
    }
}

/// Compares two version texts component by component in lock step,
/// short-circuiting on the first incomparable pair; `None` means the texts
/// follow structurally different version schemes.
fn compare_texts(a: &str, b: &str) -> (r: Option<Ordering>)
    ensures
        r == version_order(a@, b@),
{
    let mut s: &str = a;
    let mut o: &str = b;
    loop
        invariant
            version_order(a@, b@) == version_order(s@, o@),
        decreases s@.len() + o@.len(),
    {
        let (c1, r1) = Component::eat_str(s);
        let (c2, r2) = Component::eat_str(o);
        if matches!(c1, Component::End) && matches!(c2, Component::End) {
            return Some(Ordering::Equal);
        }
        proof {
            lemma_eat_progress(s@);
            lemma_eat_progress(o@);
        }
        match c1.real_cmp(&c2) {
            Some(Ordering::Equal) => {
                s = r1;
                o = r2;
            },
            verdict => {
                return verdict;
            },
        }
    }
}

impl<'a> PartialOrd for Version<'a> {
    /// Compares two version texts component by component, short-circuiting on
    /// the first incomparable pair; `None` means the texts follow structurally
    /// different version schemes.
    fn partial_cmp(&self, other: &Self) -> (r: Option<Ordering>) {
        compare_texts(self.0, other.0)
    }
}

impl<'a> From<&'a str> for Version<'a> {
    fn from(s: &'a str) -> (v: Self)
        ensures
            v@ == s@,
    {
        Version(s)
    }
}

impl<'a> vstd::std_specs::convert::FromSpecImpl<&'a str> for Version<'a> {
    open spec fn obeys_from_spec() -> bool {
        true
    }

    closed spec fn from_spec(s: &'a str) -> Version<'a> {
        Version(s)
    }
}

/// The public comparison capability: any string-like value can produce a
/// [`Version`] view of itself and be compared to another such value.
pub trait VersionCmp {
    /// The characters of the value's version text.
    spec fn ver_text(&self) -> Seq<char>;

    /// Wraps the value's text in a [`Version`] view.
    fn version(&self) -> (v: Version<'_>)
        ensures
            v@ == self.ver_text(),
    ;

    /// Compares two version texts under the dewey partial order. `None`
    /// means the texts are incomparable.
    fn ver_cmp(&self, other: &Self) -> (r: Option<Ordering>)
        ensures
            r == version_order(self.ver_text(), other.ver_text()),
    ;
}

impl VersionCmp for str {
    open spec fn ver_text(&self) -> Seq<char> {
        self@
    }

    fn version(&self) -> (v: Version<'_>) {
        Version(self)
    }

    fn ver_cmp(&self, other: &Self) -> (r: Option<Ordering>) {
        self.version().partial_cmp(&other.version())
    }
}

} // verus!
