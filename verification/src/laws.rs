//! General laws of the comparison, proved once for all inputs.

use vstd::prelude::*;

verus! {

use core::cmp::Ordering;
use crate::component::Component;
use crate::component::component_order;
use crate::component::lemma_eat_progress;
use crate::component::spec_eat;
use crate::version::version_order;

/// Every component compares equal to itself.
pub proof fn lemma_component_order_reflexive(c: Component)
    ensures
        component_order(c, c) == Some(Ordering::Equal),
{
}

/// Reflexivity: comparing any version text to itself yields equal.
pub proof fn lemma_version_order_reflexive(s: Seq<char>)
    ensures
        version_order(s, s) == Some(Ordering::Equal),
    decreases s.len(),
{
    let (c, r) = spec_eat(s);
    lemma_eat_progress(s);
    lemma_component_order_reflexive(c);
    if s.len() > 0 {
        lemma_version_order_reflexive(r);
    }
}

/// Short circuit: once the aligned head components of two texts are
/// incomparable, the whole comparison is incomparable, whatever the remaining
/// suffixes hold.
pub proof fn lemma_version_order_short_circuit(a: Seq<char>, b: Seq<char>)
    requires
        component_order(spec_eat(a).0, spec_eat(b).0) is None,
    ensures
        version_order(a, b) is None,
{
}

/// Lock step: while the aligned head components compare equal and the texts
/// are not both exhausted, the comparison is decided by the remainders alone.
pub proof fn lemma_version_order_step(a: Seq<char>, b: Seq<char>)
    requires
        component_order(spec_eat(a).0, spec_eat(b).0) == Some(Ordering::Equal),
        !(spec_eat(a).0 == Component::End && spec_eat(b).0 == Component::End),
    ensures
        version_order(a, b) == version_order(spec_eat(a).1, spec_eat(b).1),
{
}

/// Unicode fallback: two single characters outside the ASCII range are taken
/// as fallback characters and ordered by scalar value.
pub proof fn lemma_fallback_char_order(c1: char, c2: char)
    requires
        c1 as int > 127,
        c2 as int > 127,
    ensures
        version_order(seq![c1], seq![c2]) == Some(crate::component::int_order(c1 as int, c2 as int)),
{
    let a = seq![c1];
    let b = seq![c2];
    assert(a.skip(1) =~= Seq::<char>::empty());
    assert(b.skip(1) =~= Seq::<char>::empty());
    if c1 == c2 {
        assert(version_order(a.skip(1), b.skip(1)) == Some(Ordering::Equal));
    }
}

} // verus!
