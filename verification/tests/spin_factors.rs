use spin_factors::builders::{InstanceBuilders, PrepareContext};
use spin_factors::error::{BuilderUnavailable, FactorError};
use spin_factors::spin_factors::{prepare_one, FactorEntry, SpinFactors};
use spin_factors::{DefaultBuilder, Factor, InstanceBuilder};

/// A factor whose builder records which of the factors 1, 2 and 3 it could
/// reach while it was prepared.
struct Probe {
    fail_prepare: bool,
    fail_build: bool,
}

struct ProbeBuilder {
    reached: Vec<u64>,
    fail_build: bool,
}

impl Factor for Probe {
    type InstanceData = Vec<u64>;
    type InstanceBuilder = ProbeBuilder;
}

impl InstanceBuilder<Probe, Vec<u64>> for ProbeBuilder {
    fn prepare<B>(factor: &Probe, mut ctx: PrepareContext<'_, B>) -> Result<Self, FactorError> {
        if factor.fail_prepare {
            return Err(FactorError::msg("prepare failed"));
        }
        let mut reached = Vec::new();
        for id in 1..=3u64 {
            match ctx.builder_mut(id, "Probe") {
                Ok(_) => reached.push(id),
                Err(FactorError::BuilderUnavailable { reason, .. }) => {
                    assert!(
                        reason == BuilderUnavailable::NotYetPrepared
                            || reason == BuilderUnavailable::NoSuchFactor
                    )
                }
                Err(_) => panic!("unexpected error"),
            }
        }
        Ok(ProbeBuilder { reached, fail_build: factor.fail_build })
    }

    fn build(self) -> Result<Vec<u64>, FactorError> {
        if self.fail_build {
            Err(FactorError::msg("build failed"))
        } else {
            Ok(self.reached)
        }
    }
}

fn probe(id: u64, fail_prepare: bool, fail_build: bool) -> FactorEntry<Probe> {
    FactorEntry { id, factor_type: "Probe".to_string(), factor: Probe { fail_prepare, fail_build } }
}

#[test]
fn each_factor_reaches_the_builders_before_it() {
    let set = SpinFactors::new(vec![probe(1, false, false), probe(2, false, false), probe(3, false, false)]);
    let data = set.build_data().ok().unwrap();
    assert_eq!(data, vec![vec![], vec![1], vec![1, 2]]);
}

#[test]
fn failing_prepare_ends_build() {
    let set = SpinFactors::new(vec![probe(1, false, false), probe(2, true, false)]);
    match set.build_data() {
        Err(e) => assert_eq!(e.message(), "prepare failed"),
        Ok(_) => panic!("expected failure"),
    }
}

#[test]
fn failing_build_ends_build() {
    let set = SpinFactors::new(vec![probe(1, false, true), probe(2, false, false)]);
    match set.build_data() {
        Err(e) => assert_eq!(e.message(), "build failed"),
        Ok(_) => panic!("expected failure"),
    }
}

#[test]
fn empty_set_builds_no_data() {
    let set: SpinFactors<Probe> = SpinFactors::new(vec![]);
    assert_eq!(set.build_data().ok().unwrap().len(), 0);
}

#[test]
fn data_getters_find_first_factor_of_a_type() {
    let set = SpinFactors::new(vec![probe(4, false, false), probe(5, false, false), probe(4, false, false)]);
    assert_eq!(set.len(), 3);
    assert_eq!(set.ids(), vec![4, 5, 4]);
    assert_eq!(set.data_getter(4), Some(0));
    assert_eq!(set.data_getter(5), Some(1));
    assert_eq!(set.data_getter(6), None);
    assert_eq!(set.data_getter2(4, 5), Some((0, 1)));
    assert_eq!(set.data_getter2(5, 4), Some((1, 0)));
    assert_eq!(set.data_getter2(4, 4), None);
    assert_eq!(set.data_getter2(4, 6), None);
}

#[test]
fn instance_builders_start_empty() {
    let set = SpinFactors::new(vec![probe(4, false, false)]);
    let mut builders = set.instance_builders();
    assert_eq!(builders.len(), 1);
    assert!(matches!(builders.builder_mut(4), Some(None)));
}

/// A factor whose state is a default value.
struct Plain;

impl Factor for Plain {
    type InstanceData = u32;
    type InstanceBuilder = DefaultBuilder<Plain, u32>;
}

#[test]
fn default_builder_builds_default_state() {
    let set = SpinFactors::new(vec![FactorEntry { id: 1, factor_type: "Plain".to_string(), factor: Plain }]);
    assert_eq!(set.build_data().ok().unwrap(), vec![0u32]);
}

#[test]
fn prepare_one_prepares_with_the_given_context() {
    let mut table: InstanceBuilders<ProbeBuilder> = InstanceBuilders::new(&vec![1, 2]);
    table.install(0, ProbeBuilder { reached: vec![], fail_build: false });
    let b = prepare_one(&Probe { fail_prepare: false, fail_build: false }, PrepareContext::new(&mut table))
        .ok()
        .unwrap();
    assert_eq!(b.reached, vec![1]);
}
