use spin_factors::builders::{InstanceBuilders, PrepareContext};
use spin_factors::error::{BuilderUnavailable, FactorError};

#[test]
fn new_table_has_empty_slots() {
    let mut table: InstanceBuilders<String> = InstanceBuilders::new(&vec![1, 2, 3]);
    assert_eq!(table.len(), 3);
    assert!(matches!(table.builder_mut(2), Some(None)));
    assert!(table.builder_mut(4).is_none());
}

#[test]
fn builder_mut_hands_out_first_prepared_builder() {
    let mut table: InstanceBuilders<String> = InstanceBuilders::new(&vec![5, 6, 5]);
    table.install(0, "first".to_string());
    table.install(2, "second".to_string());
    match table.builder_mut(5) {
        Some(Some(b)) => assert_eq!(b.as_str(), "first"),
        _ => panic!("expected the builder of the first factor"),
    }
}

#[test]
fn write_through_builder_mut_is_seen_later() {
    let mut table: InstanceBuilders<u32> = InstanceBuilders::new(&vec![10, 20]);
    table.install(1, 7);
    if let Some(Some(b)) = table.builder_mut(20) {
        *b = 8;
    }
    assert_eq!(table.take(1), Some(8));
    assert_eq!(table.take(1), None);
}

#[test]
fn install_and_take_out_of_range_change_nothing() {
    let mut table: InstanceBuilders<u32> = InstanceBuilders::new(&vec![1]);
    table.install(3, 9);
    assert_eq!(table.take(3), None);
    assert_eq!(table.take(0), None);
}

#[test]
fn context_reaches_only_prepared_builders() {
    // factors 1, 2, 3; the builder of the first is prepared
    let mut table: InstanceBuilders<u32> = InstanceBuilders::new(&vec![1, 2, 3]);
    table.install(0, 11);
    let mut ctx = PrepareContext::new(&mut table);
    match ctx.builder_mut(1, "One") {
        Ok(b) => {
            assert_eq!(*b, 11);
            *b = 12;
        }
        Err(_) => panic!("the first factor's builder is prepared"),
    }
    match ctx.builder_mut(2, "Two") {
        Err(FactorError::BuilderUnavailable { factor_type, reason }) => {
            assert_eq!(factor_type, "Two");
            assert_eq!(reason, BuilderUnavailable::NotYetPrepared);
        }
        _ => panic!("the second factor's builder is not prepared yet"),
    }
    match ctx.builder_mut(9, "Nine") {
        Err(FactorError::BuilderUnavailable { factor_type, reason }) => {
            assert_eq!(factor_type, "Nine");
            assert_eq!(reason, BuilderUnavailable::NoSuchFactor);
        }
        _ => panic!("no factor has identity 9"),
    }
    assert_eq!(table.take(0), Some(12));
}

#[test]
fn unavailable_builder_messages() {
    let mut table: InstanceBuilders<u32> = InstanceBuilders::new(&vec![1]);
    let mut ctx = PrepareContext::new(&mut table);
    let e = ctx.builder_mut(1, "my::Factor").err().unwrap();
    assert_eq!(
        e.message(),
        "could not get builder for my::Factor: builder not yet prepared"
    );
    let e = ctx.builder_mut(2, "other::Factor").err().unwrap();
    assert_eq!(e.message(), "could not get builder for other::Factor: no such factor");
}

#[test]
fn other_error_message_is_its_own() {
    let e = FactorError::msg("linking failed");
    assert_eq!(e.message(), "linking failed");
    assert!(matches!(e, FactorError::Other(_)));
}

#[test]
fn unavailable_reason_texts() {
    assert_eq!(BuilderUnavailable::NotYetPrepared.text(), "builder not yet prepared");
    assert_eq!(BuilderUnavailable::NoSuchFactor.text(), "no such factor");
}

#[test]
fn finished_context_hands_back_written_table() {
    let mut table: InstanceBuilders<u32> = InstanceBuilders::new(&vec![7]);
    table.install(0, 1);
    let mut ctx = PrepareContext::new(&mut table);
    if let Ok(b) = ctx.builder_mut(7, "Seven") {
        *b = 5;
    }
    ctx.finish();
    assert_eq!(table.take(0), Some(5));
}
