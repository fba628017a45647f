//! `KeySemantics`: the pure, stateless key-event semantic classifier.
//!
//! A key-down is a shortcut chord exactly when a non-Shift semantic
//! modifier — Command, Control, Option, or Fn — is held. Shift and lock
//! keys never make a chord on their own, and there are no timing rules.
//! The normalized chord presentation order is Fn, Ctrl, Opt, Shift, Cmd,
//! and Shift is shown only inside a chord.

use vstd::prelude::*;

use crate::domain::schema::Modifier;

verus! {

/// Pure key-event semantic classifier. Stateless by construction: every
/// answer is a function of the modifiers passed in.
pub struct KeySemantics;

/// The semantic chord mask: Command, Control, Option, or Fn.
pub open spec fn is_semantic(modifier: Modifier) -> bool {
    match modifier {
        Modifier::Command | Modifier::Control | Modifier::Option | Modifier::Fn => true,
        Modifier::Shift | Modifier::CapsLock => false,
    }
}

/// A chord: some held modifier is semantic.
pub open spec fn chord(held: Seq<Modifier>) -> bool {
    exists|i: int| 0 <= i < held.len() && is_semantic(#[trigger] held[i])
}

/// The normalized presentation order: Fn, Ctrl, Opt, Shift, Cmd. Lock
/// keys never appear in a chord presentation.
pub open spec fn presentation_order() -> Seq<Modifier> {
    seq![Modifier::Fn, Modifier::Control, Modifier::Option, Modifier::Shift, Modifier::Command]
}

/// The held modifiers a chord title presents: each modifier of the
/// presentation order that is held, once, in that order.
pub open spec fn presented(held: Seq<Modifier>) -> Seq<Modifier> {
    presentation_order().filter(|m: Modifier| held.contains(m))
}

/// The position of a modifier in the presentation order (CapsLock last).
pub open spec fn presentation_rank(modifier: Modifier) -> int {
    match modifier {
        Modifier::Fn => 0,
        Modifier::Control => 1,
        Modifier::Option => 2,
        Modifier::Shift => 3,
        Modifier::Command => 4,
        Modifier::CapsLock => 5,
    }
}

/// The presentation label of one modifier.
pub open spec fn label(modifier: Modifier) -> Seq<char> {
    match modifier {
        Modifier::Fn => seq!['F', 'n'],
        Modifier::Control => seq!['C', 't', 'r', 'l'],
        Modifier::Option => seq!['O', 'p', 't'],
        Modifier::Shift => seq!['S', 'h', 'i', 'f', 't'],
        Modifier::Command => seq!['C', 'm', 'd'],
        Modifier::CapsLock => seq!['C', 'a', 'p', 's', 'L', 'o', 'c', 'k'],
    }
}

fn holds(held: &[Modifier], modifier: Modifier) -> (r: bool)
    ensures
        r == held@.contains(modifier),
{
    let mut i: usize = 0;
    while i < held.len()
        invariant
            0 <= i <= held@.len(),
            forall|j: int| 0 <= j < i ==> held@[j] != modifier,
        decreases held@.len() - i,
    {
        if held[i] == modifier {
            return true;
        }
        i = i + 1;
    }
    false
}

impl KeySemantics {
    /// True when `modifier` is in the semantic chord mask: Command,
    /// Control, Option, or Fn. Shift and lock keys are excluded.
    pub fn is_semantic_modifier(modifier: Modifier) -> (r: bool)
        ensures
            r == is_semantic(modifier),
    {
        match modifier {
            Modifier::Command | Modifier::Control | Modifier::Option | Modifier::Fn => true,
            Modifier::Shift | Modifier::CapsLock => false,
        }
    }

    /// True when the key-down is a shortcut chord: any held non-Shift
    /// semantic modifier.
    pub fn is_chord(held: &[Modifier]) -> (r: bool)
        ensures
            r == chord(held@),
    {
        let mut i: usize = 0;
        while i < held.len()
            invariant
                0 <= i <= held@.len(),
                forall|j: int| 0 <= j < i ==> !is_semantic(#[trigger] held@[j]),
            decreases held@.len() - i,
        {
            if Self::is_semantic_modifier(held[i]) {
                return true;
            }
            i = i + 1;
        }
        false
    }

    /// The held modifiers a chord title presents, deduplicated and in the
    /// normalized order Fn, Ctrl, Opt, Shift, Cmd. Lock keys are dropped.
    pub fn presented_modifiers(held: &[Modifier]) -> (r: Vec<Modifier>)
        ensures
            r@ == presented(held@),
    {
        let ghost order = presentation_order();
        let ghost pred = |m: Modifier| held@.contains(m);
        let mut out: Vec<Modifier> = Vec::new();
        let candidates = [
            Modifier::Fn,
            Modifier::Control,
            Modifier::Option,
            Modifier::Shift,
            Modifier::Command,
        ];
        assert(candidates@ == order);
        let mut i: usize = 0;
        while i < 5
            invariant
                0 <= i <= 5,
                candidates@ == order,
                order == presentation_order(),
                pred == (|m: Modifier| held@.contains(m)),
                out@ == order.take(i as int).filter(pred),
            decreases 5 - i,
        {
            let candidate = candidates[i];
            proof {
                reveal_with_fuel(Seq::filter, 1);
                assert(order.take(i + 1).drop_last() == order.take(i as int));
            }
            if holds(held, candidate) {
                out.push(candidate);
            }
            i = i + 1;
        }
        assert(order.take(5) == order);
        out
    }

    /// The presentation label for one modifier.
    pub fn modifier_label(modifier: Modifier) -> (r: &'static str)
        ensures
            r@ == label(modifier),
    {
        match modifier {
            Modifier::Fn => {
                proof { reveal_strlit("Fn"); }
                "Fn"
            },
            Modifier::Control => {
                proof { reveal_strlit("Ctrl"); }
                "Ctrl"
            },
            Modifier::Option => {
                proof { reveal_strlit("Opt"); }
                "Opt"
            },
            Modifier::Shift => {
                proof { reveal_strlit("Shift"); }
                "Shift"
            },
            Modifier::Command => {
                proof { reveal_strlit("Cmd"); }
                "Cmd"
            },
            Modifier::CapsLock => {
                proof { reveal_strlit("CapsLock"); }
                "CapsLock"
            },
        }
    }
}

/// The presented chord is normalized: strictly increasing in the
/// presentation order (hence free of duplicates), free of lock keys, and
/// made of exactly the held non-lock modifiers.
pub proof fn lemma_presented_is_normalized(held: Seq<Modifier>)
    ensures
        forall|i: int, j: int|
            0 <= i < j < presented(held).len() ==> presentation_rank(#[trigger] presented(held)[i])
                < presentation_rank(#[trigger] presented(held)[j]),
        forall|m: Modifier|
            #[trigger] presented(held).contains(m) <==> (held.contains(m) && m != Modifier::CapsLock),
{
    let order = presentation_order();
    let pred = |m: Modifier| held.contains(m);
    reveal_with_fuel(Seq::filter, 6);
    assert(order.drop_last() == seq![Modifier::Fn, Modifier::Control, Modifier::Option, Modifier::Shift]);
    assert(order.drop_last().drop_last() == seq![Modifier::Fn, Modifier::Control, Modifier::Option]);
    assert(order.drop_last().drop_last().drop_last() == seq![Modifier::Fn, Modifier::Control]);
    assert(order.drop_last().drop_last().drop_last().drop_last() == seq![Modifier::Fn]);
    assert(order.drop_last().drop_last().drop_last().drop_last().drop_last() == Seq::<Modifier>::empty());
    let p = presented(held);
    assert(forall|i: int| 0 <= i < p.len() ==> #[trigger] pred(p[i]) && order.contains(p[i]));
    assert forall|m: Modifier| #[trigger] p.contains(m) <==> (held.contains(m) && m != Modifier::CapsLock) by {
        if held.contains(m) && m != Modifier::CapsLock {
            let k = presentation_rank(m);
            assert(order[k] == m);
            assert(order.contains(m));
        }
        if p.contains(m) {
            let i = choose|i: int| 0 <= i < p.len() && p[i] == m;
            assert(pred(p[i]));
        }
    }
}

/// A key-down is a chord exactly when its presented modifiers hold
/// something besides Shift.
pub proof fn lemma_chord_iff_presented_beyond_shift(held: Seq<Modifier>)
    ensures
        chord(held) <==> exists|m: Modifier|
            #[trigger] presented(held).contains(m) && m != Modifier::Shift,
{
    lemma_presented_is_normalized(held);
    if chord(held) {
        let i = choose|i: int| 0 <= i < held.len() && is_semantic(#[trigger] held[i]);
        assert(held.contains(held[i]));
        assert(presented(held).contains(held[i]));
    }
    if exists|m: Modifier| #[trigger] presented(held).contains(m) && m != Modifier::Shift {
        let m = choose|m: Modifier| #[trigger] presented(held).contains(m) && m != Modifier::Shift;
        assert(held.contains(m));
        let i = choose|i: int| 0 <= i < held.len() && held[i] == m;
        assert(is_semantic(held[i]));
    }
}

} // verus!
