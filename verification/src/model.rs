//! The meaning of a generated builder: which methods its type-state admits at
//! each instantiation, and what every admitted call does.
//!
//! A generated builder's type arguments form an instantiation: one marker per
//! slot, modeled here as a boolean that is true once the slot's required field
//! has been supplied.  A required setter is admitted exactly where its own
//! slot is still unset; it sets that slot and records the supplied value.  An
//! optional setter is admitted everywhere and changes no slot.  The terminal
//! build method is admitted exactly at the fully-set instantiation.

use vstd::prelude::*;
use vstd::arithmetic::power2::pow2;
use vstd::relations::injective_on;
use vstd::set_lib::lemma_map_size;

verus! {

/// The instantiation a generated builder starts at: every slot unset.
pub open spec fn initial_inst(k: nat) -> Seq<bool> {
    Seq::new(k, |i: int| false)
}

/// Tells whether the required setter of `slot` is admitted at `inst`: its own
/// slot must still be unset.
pub open spec fn required_admitted(inst: Seq<bool>, slot: int) -> bool {
    &&& 0 <= slot < inst.len()
    &&& !inst[slot]
}

/// The instantiation after the required setter of `slot`: that one slot set,
/// every other slot unchanged.
pub open spec fn apply_required(inst: Seq<bool>, slot: int) -> Seq<bool> {
    inst.update(slot, true)
}

/// Tells whether the terminal build method is admitted at `inst`: every slot
/// set.
pub open spec fn build_admitted(inst: Seq<bool>) -> bool {
    forall|i: int| 0 <= i < inst.len() ==> inst[i]
}

/// Once a required field has been supplied, its setter is admitted at no
/// later point of any call chain: supplying a required field twice is
/// inexpressible.
pub proof fn lemma_required_setter_consumes_slot(inst: Seq<bool>, slot: int)
    requires
        required_admitted(inst, slot),
    ensures
        !required_admitted(apply_required(inst, slot), slot),
{
}

/// A call chain admitted from `inst` never invokes the required setter of a
/// slot that is already set in `inst`: once a required field is supplied, its
/// setter is unreachable in every continuation of the chain.
pub proof fn lemma_set_slot_unreachable(inst: Seq<bool>, slots: Seq<int>, s: int)
    requires
        chain_admitted(inst, slots),
        0 <= s < inst.len(),
        inst[s],
    ensures
        !slots.contains(s),
    decreases slots.len(),
{
    if slots.len() > 0 {
        let s0 = slots.first();
        lemma_set_slot_unreachable(apply_required(inst, s0), slots.drop_first(), s);
        if slots.contains(s) {
            let i = choose|i: int| 0 <= i < slots.len() && slots[i] == s;
            if i > 0 {
                assert(slots.drop_first()[i - 1] == s);
            }
        }
    }
}

/// An optional or variadic setter changes no type argument, so recording its
/// value commutes with every other setter that targets a different key: it
/// may stand anywhere in the call chain with the same outcome.
pub proof fn lemma_optional_commutes<V>(
    content: Map<int, V>,
    optional_key: int,
    optional_value: V,
    slot: int,
    slot_value: V,
)
    requires
        optional_key != slot,
    ensures
        content.insert(optional_key, optional_value).insert(slot, slot_value) == content.insert(
            slot,
            slot_value,
        ).insert(optional_key, optional_value),
{
    assert(content.insert(optional_key, optional_value).insert(slot, slot_value)
        =~= content.insert(slot, slot_value).insert(optional_key, optional_value));
}

/// The instantiation and content after running the required setters of
/// `slots` in order, supplying `values(slot)` to the setter of each slot.
pub open spec fn run_required_chain<V>(
    inst: Seq<bool>,
    content: Map<int, V>,
    slots: Seq<int>,
    values: spec_fn(int) -> V,
) -> (Seq<bool>, Map<int, V>)
    decreases slots.len(),
{
    if slots.len() == 0 {
        (inst, content)
    } else {
        run_required_chain(
            apply_required(inst, slots.first()),
            content.insert(slots.first(), values(slots.first())),
            slots.drop_first(),
            values,
        )
    }
}

/// Tells whether every step of the chain is admitted when run from `inst`.
pub open spec fn chain_admitted(inst: Seq<bool>, slots: Seq<int>) -> bool
    decreases slots.len(),
{
    if slots.len() == 0 {
        true
    } else {
        required_admitted(inst, slots.first()) && chain_admitted(
            apply_required(inst, slots.first()),
            slots.drop_first(),
        )
    }
}

/// Running distinct, still-unset required setters is admitted step by step;
/// the final instantiation sets exactly the targeted slots, and the final
/// content binds exactly the targeted slots to their supplied values,
/// independent of the order of the steps.
pub proof fn lemma_run_chain<V>(
    inst: Seq<bool>,
    content: Map<int, V>,
    slots: Seq<int>,
    values: spec_fn(int) -> V,
)
    requires
        slots.no_duplicates(),
        forall|i: int|
            0 <= i < slots.len() ==> 0 <= #[trigger] slots[i] < inst.len() && !inst[slots[i]],
    ensures
        chain_admitted(inst, slots),
        run_required_chain(inst, content, slots, values).0 =~= Seq::new(
            inst.len(),
            |j: int| inst[j] || slots.contains(j),
        ),
        run_required_chain(inst, content, slots, values).1 =~= content.union_prefer_right(
            Map::new(|j: int| slots.contains(j), |j: int| values(j)),
        ),
    decreases slots.len(),
{
    if slots.len() == 0 {
        assert forall|j: int| !slots.contains(j) by {
            if slots.contains(j) {
                let i = choose|i: int| 0 <= i < slots.len() && slots[i] == j;
            }
        }
        assert(Map::new(|j: int| slots.contains(j), |j: int| values(j)) =~= Map::<int, V>::empty());
    } else {
        let s0 = slots.first();
        let rest = slots.drop_first();
        let inst1 = apply_required(inst, s0);
        let content1 = content.insert(s0, values(s0));
        assert(slots[0] == s0);
        assert(slots.contains(s0));
        assert forall|j: int| rest.contains(j) implies slots.contains(j) && j != s0 by {
            let i = choose|i: int| 0 <= i < rest.len() && rest[i] == j;
            assert(slots[i + 1] == j);
        }
        assert forall|j: int| slots.contains(j) && j != s0 implies rest.contains(j) by {
            let i = choose|i: int| 0 <= i < slots.len() && slots[i] == j;
            assert(i != 0);
            assert(rest[i - 1] == j);
        }
        assert forall|i: int|
            0 <= i < rest.len() implies 0 <= #[trigger] rest[i] < inst1.len()
            && !inst1[rest[i]] by {
            assert(slots[i + 1] == rest[i]);
        }
        lemma_run_chain(inst1, content1, rest, values);
        assert(run_required_chain(inst, content, slots, values).0 =~= Seq::new(
            inst.len(),
            |j: int| inst[j] || slots.contains(j),
        ));
        assert(run_required_chain(inst, content, slots, values).1 =~= content.union_prefer_right(
            Map::new(|j: int| slots.contains(j), |j: int| values(j)),
        ));
    }
}

/// For every permutation of the k required setters, the whole chain is
/// admitted from the initial instantiation, it ends at an instantiation that
/// admits the terminal build method, and the accumulated content is the map
/// that binds every slot to its supplied value, whatever the permutation was.
pub proof fn lemma_permutation_independence<V>(k: nat, perm: Seq<int>, values: spec_fn(int) -> V)
    requires
        perm.len() == k,
        perm.no_duplicates(),
        forall|i: int| 0 <= i < perm.len() ==> 0 <= #[trigger] perm[i] < k,
        forall|j: int| 0 <= j < k ==> perm.contains(j),
    ensures
        chain_admitted(initial_inst(k), perm),
        build_admitted(run_required_chain(initial_inst(k), Map::<int, V>::empty(), perm, values).0),
        run_required_chain(initial_inst(k), Map::<int, V>::empty(), perm, values).1 =~= Map::new(
            |j: int| 0 <= j < k,
            |j: int| values(j),
        ),
{
    lemma_run_chain(initial_inst(k), Map::<int, V>::empty(), perm, values);
    assert forall|j: int| perm.contains(j) implies 0 <= j < k by {
        let i = choose|i: int| 0 <= i < perm.len() && perm[i] == j;
    }
    assert(Map::<int, V>::empty().union_prefer_right(
        Map::new(|j: int| perm.contains(j), |j: int| values(j)),
    ) =~= Map::new(|j: int| 0 <= j < k, |j: int| values(j)));
}

/// The required setters taken in declaration order.
pub open spec fn declared_order(k: nat) -> Seq<int> {
    Seq::new(k, |i: int| i)
}

/// The convenience constructor's chain, every required setter once in
/// declaration order, is admitted from the initial instantiation and yields
/// exactly the instantiation and content of any admitted manual permutation
/// with the same values: the convenience constructor is equivalent to manual
/// construction.
pub proof fn lemma_default_constructor_equivalent<V>(
    k: nat,
    perm: Seq<int>,
    values: spec_fn(int) -> V,
)
    requires
        perm.len() == k,
        perm.no_duplicates(),
        forall|i: int| 0 <= i < perm.len() ==> 0 <= #[trigger] perm[i] < k,
        forall|j: int| 0 <= j < k ==> perm.contains(j),
    ensures
        chain_admitted(initial_inst(k), declared_order(k)),
        build_admitted(
            run_required_chain(
                initial_inst(k),
                Map::<int, V>::empty(),
                declared_order(k),
                values,
            ).0,
        ),
        run_required_chain(initial_inst(k), Map::<int, V>::empty(), declared_order(k), values).1
            =~= run_required_chain(initial_inst(k), Map::<int, V>::empty(), perm, values).1,
{
    assert forall|j: int| 0 <= j < k implies declared_order(k).contains(j) by {
        assert(declared_order(k)[j] == j);
    }
    lemma_permutation_independence::<V>(k, declared_order(k), values);
    lemma_permutation_independence::<V>(k, perm, values);
}

/// With zero required fields there are no slots: the builder has a single
/// instantiation, and it admits the terminal build method immediately after
/// construction.
pub proof fn lemma_no_required_fields_builds_immediately()
    ensures
        initial_inst(0).len() == 0,
        build_admitted(initial_inst(0)),
        forall|inst: Seq<bool>| inst.len() == 0 ==> inst =~= initial_inst(0),
{
}

/// The build method is admitted at exactly one instantiation of k slots: the
/// fully-set one.
pub proof fn lemma_build_unique(k: nat, inst: Seq<bool>)
    requires
        inst.len() == k,
    ensures
        build_admitted(inst) <==> inst =~= Seq::new(k, |i: int| true),
{
}

/// Every instantiation of the k slots is reachable from the initial one by an
/// admitted chain of required setters.
pub proof fn lemma_every_instantiation_reachable(inst: Seq<bool>)
    ensures
        ({
            let slots = set_positions(inst);
            &&& chain_admitted(initial_inst(inst.len()), slots)
            &&& run_required_chain(
                initial_inst(inst.len()),
                Map::<int, int>::empty(),
                slots,
                |j: int| 0,
            ).0 =~= inst
        }),
{
    let k = inst.len();
    let slots = set_positions(inst);
    lemma_set_positions(inst);
    lemma_run_chain(initial_inst(k), Map::<int, int>::empty(), slots, |j: int| 0);
}

/// The positions of `inst` whose slot is set, in increasing order.
pub open spec fn set_positions(inst: Seq<bool>) -> Seq<int>
    decreases inst.len(),
{
    if inst.len() == 0 {
        Seq::empty()
    } else {
        set_positions(inst.drop_last()) + (if inst.last() {
            seq![inst.len() - 1]
        } else {
            Seq::empty()
        })
    }
}

/// The set positions are distinct, in range, and contain exactly the indices
/// whose slot is set.
pub proof fn lemma_set_positions(inst: Seq<bool>)
    ensures
        set_positions(inst).no_duplicates(),
        forall|i: int|
            0 <= i < set_positions(inst).len() ==> 0 <= #[trigger] set_positions(inst)[i]
                < inst.len(),
        forall|j: int| set_positions(inst).contains(j) <==> (0 <= j < inst.len() && inst[j]),
    decreases inst.len(),
{
    if inst.len() > 0 {
        lemma_set_positions(inst.drop_last());
        let pre = set_positions(inst.drop_last());
        let full = set_positions(inst);
        assert forall|j: int| pre.contains(j) implies full.contains(j) by {
            let i = choose|i: int| 0 <= i < pre.len() && pre[i] == j;
            assert(full[i] == j);
        }
        if inst.last() {
            assert(full[full.len() - 1] == inst.len() - 1);
            assert(full.contains(inst.len() - 1));
        }
        assert forall|j: int| full.contains(j) implies (0 <= j < inst.len() && inst[j]) by {
            let i = choose|i: int| 0 <= i < full.len() && full[i] == j;
            if i < pre.len() {
                assert(pre[i] == j);
                assert(pre.contains(j));
                assert(inst.drop_last()[j]);
            } else {
                assert(inst.last());
                assert(j == inst.len() - 1);
            }
        }
        assert forall|j: int| (0 <= j < inst.len() && inst[j]) implies full.contains(j) by {
            if j < inst.len() - 1 {
                assert(inst.drop_last()[j]);
                assert(pre.contains(j));
            } else {
                assert(full[full.len() - 1] == j);
            }
        }
    }
}

/// All instantiations of k slots.
pub open spec fn instantiations(k: nat) -> Set<Seq<bool>> {
    Set::new(|s: Seq<bool>| s.len() == k)
}

/// k slots admit exactly 2^k instantiations.
pub proof fn lemma_instantiation_count(k: nat)
    ensures
        instantiations(k).finite(),
        instantiations(k).len() == pow2(k),
    decreases k,
{
    vstd::arithmetic::power2::lemma_pow2_pos(k);
    if k == 0 {
        assert forall|s: Seq<bool>| #[trigger] instantiations(0).contains(s) implies s
            == Seq::<bool>::empty() by {
            assert(s =~= Seq::<bool>::empty());
        }
        assert(instantiations(0) =~= Set::empty().insert(Seq::<bool>::empty()));
        vstd::arithmetic::power2::lemma2_to64();
        assert(pow2(0) == 1);
    } else {
        let km1 = (k - 1) as nat;
        lemma_instantiation_count(km1);
        let prev = instantiations(km1);
        let push_true = |s: Seq<bool>| s.push(true);
        let push_false = |s: Seq<bool>| s.push(false);
        let with_true = prev.map(push_true);
        let with_false = prev.map(push_false);
        assert forall|s1: Seq<bool>, s2: Seq<bool>|
            s1.push(true) == s2.push(true) implies s1 == s2 by {
            assert(s1 =~= s1.push(true).drop_last());
            assert(s2 =~= s2.push(true).drop_last());
        }
        assert forall|s1: Seq<bool>, s2: Seq<bool>|
            s1.push(false) == s2.push(false) implies s1 == s2 by {
            assert(s1 =~= s1.push(false).drop_last());
            assert(s2 =~= s2.push(false).drop_last());
        }
        assert(injective_on(push_true, prev));
        assert(injective_on(push_false, prev));
        lemma_map_size(prev, with_true, push_true);
        lemma_map_size(prev, with_false, push_false);
        assert forall|s: Seq<bool>| #[trigger] instantiations(k).contains(s) implies with_true.union(
            with_false,
        ).contains(s) by {
            let stub = s.drop_last();
            assert(prev.contains(stub));
            if s.last() {
                assert(stub.push(true) =~= s);
                assert(with_true.contains(s));
            } else {
                assert(stub.push(false) =~= s);
                assert(with_false.contains(s));
            }
        }
        assert forall|s: Seq<bool>| #[trigger] with_true.union(with_false).contains(s) implies
            instantiations(k).contains(s) by {
            if with_true.contains(s) {
                let stub = choose|t: Seq<bool>| prev.contains(t) && push_true(t) == s;
            } else {
                let stub = choose|t: Seq<bool>| prev.contains(t) && push_false(t) == s;
            }
        }
        assert(instantiations(k) =~= with_true.union(with_false));
        assert forall|s: Seq<bool>| !(with_true.contains(s) && with_false.contains(s)) by {
            if with_true.contains(s) && with_false.contains(s) {
                let t1 = choose|t: Seq<bool>| prev.contains(t) && push_true(t) == s;
                let t2 = choose|t: Seq<bool>| prev.contains(t) && push_false(t) == s;
                assert(s.last() == true);
                assert(s.last() == false);
            }
        }
        lemma_disjoint_union_len(with_true, with_false);
        vstd::arithmetic::power2::lemma_pow2_unfold(k);
    }
}

/// One concrete run of a generated builder, for exercising the model: the
/// current instantiation and the values supplied for the required fields so
/// far.  Every step is specified by the model functions above.
pub struct BuilderRun<V> {
    /// The current instantiation: one marker per slot.
    pub inst: Vec<bool>,
    /// The value supplied for each slot, once its setter has run.
    pub content: Vec<Option<V>>,
}

impl<V> BuilderRun<V> {
    /// Starts a run at the initial instantiation: every slot unset, no value
    /// supplied.
    pub fn start(k: usize) -> (r: BuilderRun<V>)
        ensures
            r.inst@ =~= initial_inst(k as nat),
            r.content@.len() == k,
            forall|i: int| 0 <= i < k ==> (#[trigger] r.content@[i]) is None,
    {
        let mut inst: Vec<bool> = Vec::new();
        let mut content: Vec<Option<V>> = Vec::new();
        let mut i: usize = 0;
        while i < k
            invariant
                i <= k,
                inst@.len() == i,
                content@.len() == i,
                forall|j: int| 0 <= j < i ==> !(#[trigger] inst@[j]),
                forall|j: int| 0 <= j < i ==> (#[trigger] content@[j]) is None,
            decreases k - i,
        {
            inst.push(false);
            content.push(None);
            i += 1;
        }
        BuilderRun { inst, content }
    }

    /// Runs the required setter of `slot`, admitted only where that slot is
    /// still unset; it sets the slot and records the value.
    pub fn required_set(&mut self, slot: usize, value: V)
        requires
            required_admitted(old(self).inst@, slot as int),
            old(self).content@.len() == old(self).inst@.len(),
        ensures
            final(self).inst@ == apply_required(old(self).inst@, slot as int),
            final(self).content@ == old(self).content@.update(slot as int, Some(value)),
    {
        self.inst.set(slot, true);
        self.content.set(slot, Some(value));
    }

    /// Runs an optional or variadic setter: admitted at every instantiation,
    /// and no slot changes.
    pub fn optional_set(&mut self)
        ensures
            final(self).inst@ == old(self).inst@,
            final(self).content@ == old(self).content@,
    {
    }

    /// Tells whether the terminal build method is admitted: every slot set.
    pub fn build_admitted_now(&self) -> (r: bool)
        ensures
            r == build_admitted(self.inst@),
    {
        let mut i: usize = 0;
        while i < self.inst.len()
            invariant
                i <= self.inst@.len(),
                forall|j: int| 0 <= j < i ==> (#[trigger] self.inst@[j]),
            decreases self.inst@.len() - i,
        {
            if !self.inst[i] {
                return false;
            }
            i += 1;
        }
        true
    }

    /// The terminal build method: admitted only at the fully-set
    /// instantiation, it consumes the run and yields the accumulated values.
    pub fn build(self) -> (r: Vec<Option<V>>)
        requires
            build_admitted(self.inst@),
        ensures
            r == self.content,
    {
        self.content
    }
}

/// The length of the union of two disjoint finite sets is the sum of their
/// lengths.
proof fn lemma_disjoint_union_len<A>(s1: Set<A>, s2: Set<A>)
    requires
        s1.finite(),
        s2.finite(),
        forall|a: A| !(s1.contains(a) && s2.contains(a)),
    ensures
        s1.union(s2).finite(),
        s1.union(s2).len() == s1.len() + s2.len(),
    decreases s1.len(),
{
    if s1.len() == 0 {
        assert(s1 =~= Set::empty());
        assert(s1.union(s2) =~= s2);
    } else {
        let a = s1.choose();
        assert(s1.contains(a));
        lemma_disjoint_union_len(s1.remove(a), s2);
        assert(s1.union(s2) =~= s1.remove(a).union(s2).insert(a));
        assert(!s1.remove(a).union(s2).contains(a));
    }
}

} // verus!
