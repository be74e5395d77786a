//! Hint lists: the options a component is configured with before it is
//! applied. A list keeps at most one hint of each kind; setting a hint replaces
//! the first hint of the same kind and appends the new one.

use vstd::prelude::*;

verus! {

/// A hint whose variant (its kind) can be told apart from its payload.
pub trait TraitHintKind: Sized + Copy {
    /// The kind of the hint: the index of its variant.
    spec fn spec_kind(&self) -> nat;

    fn kind(&self) -> (k: u8)
        ensures
            k as nat == self.spec_kind(),
    ;
}

/// Whether `a` and `b` are hints of the same kind.
pub open spec fn same_kind<H: TraitHintKind>(a: H, b: H) -> bool {
    a.spec_kind() == b.spec_kind()
}

/// Whether some hint of `s` has the kind of `h`.
pub open spec fn has_kind<H: TraitHintKind>(s: Seq<H>, h: H) -> bool {
    exists|i: int| 0 <= i < s.len() && same_kind(#[trigger] s[i], h)
}

/// The index of the first hint of `s`, from `i` on, with the kind of `h`;
/// the length of `s` where there is none.
pub open spec fn first_of_kind_from<H: TraitHintKind>(s: Seq<H>, h: H, i: int) -> int
    decreases s.len() - i,
{
    if i < 0 || i >= s.len() {
        s.len() as int
    } else if same_kind(s[i], h) {
        i
    } else {
        first_of_kind_from(s, h, i + 1)
    }
}

/// The index of the first hint of `s` with the kind of `h`.
pub open spec fn first_of_kind<H: TraitHintKind>(s: Seq<H>, h: H) -> int {
    first_of_kind_from(s, h, 0)
}

/// The list `s` after setting `h`: the first hint of the same kind leaves, and
/// `h` is appended.
pub open spec fn spec_with_hint<H: TraitHintKind>(s: Seq<H>, h: H) -> Seq<H> {
    if has_kind(s, h) {
        s.remove(first_of_kind(s, h)).push(h)
    } else {
        s.push(h)
    }
}

/// Whether no two hints of `s` have the same kind.
pub open spec fn unique_kinds<H: TraitHintKind>(s: Seq<H>) -> bool {
    forall|i: int, j: int|
        0 <= i < s.len() && 0 <= j < s.len() && i != j ==> !same_kind(#[trigger] s[i], #[trigger] s[j])
}

proof fn lemma_first_of_kind_from<H: TraitHintKind>(s: Seq<H>, h: H, i: int)
    requires
        0 <= i <= s.len(),
    ensures
        i <= first_of_kind_from(s, h, i) <= s.len(),
        first_of_kind_from(s, h, i) < s.len() ==> same_kind(s[first_of_kind_from(s, h, i)], h),
        forall|j: int| i <= j < first_of_kind_from(s, h, i) ==> !same_kind(#[trigger] s[j], h),
    decreases s.len() - i,
{
    if i < s.len() && !same_kind(s[i], h) {
        lemma_first_of_kind_from(s, h, i + 1);
    }
}

/// Where `s` has a hint of the kind of `h`, the first one exists and is as described.
pub proof fn lemma_first_of_kind<H: TraitHintKind>(s: Seq<H>, h: H)
    requires
        has_kind(s, h),
    ensures
        0 <= first_of_kind(s, h) < s.len(),
        same_kind(s[first_of_kind(s, h)], h),
        forall|j: int| 0 <= j < first_of_kind(s, h) ==> !same_kind(#[trigger] s[j], h),
{
    lemma_first_of_kind_from(s, h, 0);
    let k = choose|k: int| 0 <= k < s.len() && same_kind(#[trigger] s[k], h);
    if first_of_kind(s, h) == s.len() {
        assert(!same_kind(s[k], h));
    }
}

/// Sets `hint` in `hints`: the first hint of the same kind is removed, then
/// `hint` is appended.
pub fn set_hint_in<H: TraitHintKind>(hints: &mut Vec<H>, hint: H)
    ensures
        final(hints)@ == spec_with_hint(old(hints)@, hint),
{
    let k = hint.kind();
    let mut i: usize = 0;
    let mut found = false;
    while i < hints.len()
        invariant_except_break
            !found,
        invariant
            0 <= i <= hints.len(),
            hints@ == old(hints)@,
            k as nat == hint.spec_kind(),
            forall|j: int| 0 <= j < i ==> !same_kind(#[trigger] hints@[j], hint),
        ensures
            found ==> i < hints.len() && same_kind(hints@[i as int], hint),
            !found ==> i == hints.len(),
            hints@ == old(hints)@,
            forall|j: int| 0 <= j < i ==> !same_kind(#[trigger] hints@[j], hint),
        decreases hints.len() - i,
    {
        if hints[i].kind() == k {
            found = true;
            break;
        }
        i = i + 1;
    }
    proof {
        if found {
            lemma_first_of_kind(old(hints)@, hint);
            let f = first_of_kind(old(hints)@, hint);
            if f < i {
                assert(!same_kind(hints@[f], hint));
            }
            if i < f {
                assert(!same_kind(old(hints)@[i as int], hint));
            }
            assert(f == i);
        } else {
            assert(!has_kind(old(hints)@, hint));
        }
    }
    if found {
        hints.remove(i);
    }
    hints.push(hint);
}

/// After setting `h`, the list ends with `h`.
pub proof fn lemma_set_hint_last<H: TraitHintKind>(s: Seq<H>, h: H)
    ensures
        spec_with_hint(s, h).len() >= 1,
        spec_with_hint(s, h).last() == h,
{
}

/// Setting a hint keeps the lists in which no two hints share a kind so, and
/// leaves the other hints in the order they had.
pub proof fn lemma_set_hint_keeps_unique<H: TraitHintKind>(s: Seq<H>, h: H)
    requires
        unique_kinds(s),
    ensures
        unique_kinds(spec_with_hint(s, h)),
        spec_with_hint(s, h).drop_last() == s.filter(|x: H| !same_kind(x, h)),
{
    let r = spec_with_hint(s, h);
    if has_kind(s, h) {
        lemma_first_of_kind(s, h);
        let f = first_of_kind(s, h);
        let t = s.remove(f);
        assert forall|i: int| 0 <= i < t.len() implies !same_kind(#[trigger] t[i], h) by {
            if i < f {
                assert(t[i] == s[i]);
            } else {
                assert(t[i] == s[i + 1]);
                assert(!same_kind(s[i + 1], s[f]));
            }
        }
        assert forall|i: int, j: int|
            0 <= i < r.len() && 0 <= j < r.len() && i != j implies !same_kind(#[trigger] r[i], #[trigger] r[j]) by {
            if i < t.len() && j < t.len() {
                let a = if i < f { i } else { i + 1 };
                let b = if j < f { j } else { j + 1 };
                assert(r[i] == s[a] && r[j] == s[b]);
            }
        }
        lemma_filter_drops_one(s, h, f);
        assert(r.drop_last() =~= t);
    } else {
        assert forall|i: int, j: int|
            0 <= i < r.len() && 0 <= j < r.len() && i != j implies !same_kind(#[trigger] r[i], #[trigger] r[j]) by {
            if i < s.len() && j < s.len() {
                assert(r[i] == s[i] && r[j] == s[j]);
            } else if i == s.len() {
                assert(!same_kind(s[j], h));
            } else {
                assert(!same_kind(s[i], h));
            }
        }
        lemma_filter_keeps_all(s, h);
        assert(r.drop_last() =~= s);
    }
}

/// Setting the same hint twice in a list whose kinds are unique is setting it once.
pub proof fn lemma_set_hint_idempotent<H: TraitHintKind>(s: Seq<H>, h: H)
    requires
        unique_kinds(s),
    ensures
        spec_with_hint(spec_with_hint(s, h), h) == spec_with_hint(s, h),
{
    let r = spec_with_hint(s, h);
    lemma_set_hint_keeps_unique(s, h);
    let n = (r.len() - 1) as int;
    assert(same_kind(r[n], h));
    assert(has_kind(r, h));
    lemma_first_of_kind(r, h);
    let f = first_of_kind(r, h);
    if f < n {
        assert(!same_kind(r[f], r[n]));
    }
    assert(f == n);
    assert(r.remove(n).push(h) =~= r);
}

proof fn lemma_filter_keeps_all<H: TraitHintKind>(s: Seq<H>, h: H)
    requires
        forall|i: int| 0 <= i < s.len() ==> !same_kind(#[trigger] s[i], h),
    ensures
        s.filter(|x: H| !same_kind(x, h)) == s,
    decreases s.len(),
{
    reveal(Seq::filter);
    if s.len() > 0 {
        lemma_filter_keeps_all(s.drop_last(), h);
        assert(s.drop_last().push(s.last()) =~= s);
    } else {
        assert(s.filter(|x: H| !same_kind(x, h)) =~= s);
    }
}

proof fn lemma_filter_drops_one<H: TraitHintKind>(s: Seq<H>, h: H, f: int)
    requires
        0 <= f < s.len(),
        same_kind(s[f], h),
        forall|i: int| 0 <= i < s.len() && i != f ==> !same_kind(#[trigger] s[i], h),
    ensures
        s.filter(|x: H| !same_kind(x, h)) == s.remove(f),
    decreases s.len(),
{
    reveal(Seq::filter);
    let p = s.drop_last();
    if f == s.len() - 1 {
        lemma_filter_keeps_all(p, h);
        assert(s.remove(f) =~= p);
    } else {
        lemma_filter_drops_one(p, h, f);
        assert(s.remove(f) =~= p.remove(f).push(s.last()));
    }
}


/// A list in which no two hints share a kind, among `n` kinds, holds at most
/// `n` hints.
pub proof fn lemma_unique_kinds_bound<H: TraitHintKind>(s: Seq<H>, n: nat)
    requires
        unique_kinds(s),
        forall|i: int| 0 <= i < s.len() ==> (#[trigger] s[i]).spec_kind() < n,
    ensures
        s.len() <= n,
{
    let ks = s.map_values(|h: H| h.spec_kind() as int);
    assert(ks.no_duplicates()) by {
        assert forall|i: int, j: int| 0 <= i < ks.len() && 0 <= j < ks.len() && i != j implies ks[i] != ks[j] by {
            assert(!same_kind(s[i], s[j]));
        }
    }
    ks.unique_seq_to_set();
    vstd::set_lib::lemma_int_range(0, n as int);
    assert(ks.to_set().subset_of(vstd::set_lib::set_int_range(0, n as int))) by {
        assert forall|x: int| ks.to_set().contains(x) implies vstd::set_lib::set_int_range(0, n as int).contains(x) by {
            let i = choose|i: int| 0 <= i < ks.len() && ks[i] == x;
            assert(s[i].spec_kind() < n);
        }
    }
    vstd::set_lib::lemma_len_subset(ks.to_set(), vstd::set_lib::set_int_range(0, n as int));
}
} // verus!
