use mmapfile::growth::plan_write;
use mmapfile::growth::required_capacity;

#[test]
fn required_capacity_doubles_until_it_fits() {
    assert_eq!(required_capacity(8, 12), 16);
    assert_eq!(required_capacity(8, 20), 32);
    assert_eq!(required_capacity(8, 17), 32);
    assert_eq!(required_capacity(1, 100), 128);
}

#[test]
fn required_capacity_keeps_a_sufficient_capacity() {
    assert_eq!(required_capacity(8, 8), 8);
    assert_eq!(required_capacity(8, 3), 8);
    assert_eq!(required_capacity(8, 0), 8);
}

#[test]
fn plan_write_without_growth() {
    let plan = plan_write(3, 8, 5);
    assert_eq!(plan.grow_to, None);
    assert_eq!(plan.end, 8);
}

#[test]
fn plan_write_with_growth() {
    let plan = plan_write(5, 8, 7);
    assert_eq!(plan.grow_to, Some(16));
    assert_eq!(plan.end, 12);
}
