use spin_factors::builders::{InstanceBuilders, PrepareContext};
use spin_factors::outbound_http::{self, OutboundHttpFactor};
use spin_factors::outbound_networking::{self, OutboundNetworkingFactor};
use spin_factors::spin_factors::{FactorEntry, SpinFactors};
use spin_factors::wasi::preview1::{self, WasiPreview1Factor};
use spin_factors::wasi::{self, WasiFactor, WasiInterface};
use spin_factors::InstanceBuilder;

#[test]
fn wasi_interfaces_in_linking_order() {
    let all = WasiFactor::interfaces();
    assert_eq!(all.len(), 27);
    assert_eq!(all[0], WasiInterface::ClocksWallClock);
    assert_eq!(all[6], WasiInterface::IoStreams);
    assert_eq!(all[26], WasiInterface::SocketsIpNameLookup);
    for i in 0..all.len() {
        for j in 0..i {
            assert_ne!(all[i], all[j]);
        }
    }
}

#[test]
fn wasi_builder_prepares_and_builds() {
    let mut table: InstanceBuilders<()> = InstanceBuilders::new(&vec![]);
    let builder = wasi::Builder::prepare(&WasiFactor, PrepareContext::new(&mut table)).ok().unwrap();
    let mut data = builder.build().ok().unwrap();
    let _ = data.ctx();
    let _ = data.table();
}

#[test]
fn wasi_preview1_builder_prepares_and_builds() {
    let mut table: InstanceBuilders<()> = InstanceBuilders::new(&vec![]);
    let builder =
        preview1::Builder::prepare(&WasiPreview1Factor, PrepareContext::new(&mut table)).ok().unwrap();
    assert!(builder.build().is_ok());
}

#[test]
fn outbound_networking_allows_example_com() {
    let mut table: InstanceBuilders<()> = InstanceBuilders::new(&vec![]);
    let builder =
        outbound_networking::Builder::prepare(&OutboundNetworkingFactor, PrepareContext::new(&mut table))
            .ok()
            .unwrap();
    assert_eq!(builder.allowed_hosts().as_slice(), &["example.com".to_string()]);
    assert!(builder.build().is_ok());
}

#[test]
fn outbound_http_state_is_built_by_default() {
    let set = SpinFactors::new(vec![FactorEntry {
        id: 1,
        factor_type: "OutboundHttpFactor".to_string(),
        factor: OutboundHttpFactor,
    }]);
    let mut data: Vec<outbound_http::Data> = set.build_data().ok().unwrap();
    assert_eq!(data.len(), 1);
    let _ = data[0].ctx();
}

#[test]
fn wasi_set_builds_one_state_per_factor() {
    let set = SpinFactors::new(vec![
        FactorEntry { id: 1, factor_type: "WasiFactor".to_string(), factor: WasiFactor },
        FactorEntry { id: 2, factor_type: "WasiFactor".to_string(), factor: WasiFactor },
    ]);
    let data: Vec<wasi::Data> = set.build_data().ok().unwrap();
    assert_eq!(data.len(), 2);
}
