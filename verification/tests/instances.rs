use egaku2d::{assert_only_one_instance, decrement_one_instance};

#[test]
fn one_instance_comes_and_goes() {
    let mut count: usize = 0;
    assert_only_one_instance(&mut count);
    assert_eq!(count, 1);
    decrement_one_instance(&mut count);
    assert_eq!(count, 0);
}

#[test]
fn a_second_instance_can_follow_the_first() {
    let mut count: usize = 0;
    assert_only_one_instance(&mut count);
    decrement_one_instance(&mut count);
    assert_only_one_instance(&mut count);
    assert_eq!(count, 1);
}
