use ods_builder_gen::model::BuilderRun;

#[test]
fn permutations_accumulate_equal_content() {
    // Three required setters, run in declaration order.
    let mut in_order: BuilderRun<u64> = BuilderRun::start(3);
    in_order.required_set(0, 10);
    in_order.required_set(1, 20);
    in_order.required_set(2, 30);
    assert!(in_order.build_admitted_now());

    // The same setters, run in a different order with the same values.
    let mut shuffled: BuilderRun<u64> = BuilderRun::start(3);
    shuffled.required_set(2, 30);
    shuffled.required_set(0, 10);
    shuffled.required_set(1, 20);
    assert!(shuffled.build_admitted_now());

    assert_eq!(in_order.build(), shuffled.build());
}

#[test]
fn build_not_admitted_while_a_slot_is_unset() {
    let mut run: BuilderRun<u64> = BuilderRun::start(2);
    assert!(!run.build_admitted_now());
    run.required_set(0, 1);
    assert!(!run.build_admitted_now());
    run.required_set(1, 2);
    assert!(run.build_admitted_now());
}

#[test]
fn optional_calls_change_no_slot_in_any_position() {
    let mut run: BuilderRun<u64> = BuilderRun::start(2);
    run.optional_set();
    run.required_set(0, 1);
    run.optional_set();
    run.optional_set();
    run.required_set(1, 2);
    run.optional_set();
    assert!(run.build_admitted_now());
    assert_eq!(run.build(), vec![Some(1), Some(2)]);
}

#[test]
fn two_slots_reach_four_instantiations_one_admits_build() {
    let fresh = || -> BuilderRun<u64> { BuilderRun::start(2) };

    let both_unset = fresh();
    assert_eq!(both_unset.inst, vec![false, false]);
    assert!(!both_unset.build_admitted_now());

    let mut first_set = fresh();
    first_set.required_set(0, 1);
    assert_eq!(first_set.inst, vec![true, false]);
    assert!(!first_set.build_admitted_now());

    let mut second_set = fresh();
    second_set.required_set(1, 2);
    assert_eq!(second_set.inst, vec![false, true]);
    assert!(!second_set.build_admitted_now());

    let mut both_set = fresh();
    both_set.required_set(0, 1);
    both_set.required_set(1, 2);
    assert_eq!(both_set.inst, vec![true, true]);
    assert!(both_set.build_admitted_now());
}

#[test]
fn zero_slots_admit_build_immediately() {
    let run: BuilderRun<u64> = BuilderRun::start(0);
    assert!(run.build_admitted_now());
    assert_eq!(run.build(), vec![]);
}
