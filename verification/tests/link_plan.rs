use spin_factors::link_plan::{LinkPlan, LinkStep};

fn run(total: usize, outcomes: &[bool]) -> (Vec<usize>, LinkStep) {
    let mut plan = LinkPlan::new(total);
    let mut registered = Vec::new();
    let mut answers = outcomes.iter();
    loop {
        match plan.step() {
            LinkStep::Register(i) => {
                registered.push(i);
                plan.record(*answers.next().unwrap_or(&true));
            }
            end => return (registered, end),
        }
    }
}

#[test]
fn registers_every_item_in_order() {
    assert_eq!(run(3, &[true, true, true]), (vec![0, 1, 2], LinkStep::Done));
}

#[test]
fn stops_at_first_failure() {
    assert_eq!(run(4, &[true, false, true, true]), (vec![0, 1], LinkStep::Failed(1)));
}

#[test]
fn empty_run_is_done_at_once() {
    assert_eq!(run(0, &[]), (vec![], LinkStep::Done));
}

#[test]
fn failed_run_stays_failed() {
    let mut plan = LinkPlan::new(2);
    assert_eq!(plan.step(), LinkStep::Register(0));
    plan.record(false);
    assert_eq!(plan.step(), LinkStep::Failed(0));
    assert_eq!(plan.step(), LinkStep::Failed(0));
}
