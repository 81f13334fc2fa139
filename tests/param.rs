use fishtank::sim::param::Param;

#[test]
fn create_param() {
    let param = Param::<usize>::default().max(10).step(2).base(4);

    assert_eq!(param.min, usize::default());
    assert_eq!(param.max, 10);
    assert_eq!(param.base, 4);
    assert_eq!(param.step, 2);
    assert_eq!(*param.value(), 4);
}

#[test]
fn change_value() {
    let mut param = Param::<usize>::default().min(1).max(10).step(2).base(4);

    assert_eq!(*param.value(), 4);
    param.inc();
    assert_eq!(*param.value(), 6);
    param.dec();
    assert_eq!(*param.value(), 4);
}

#[test]
fn change_value_near_bounds() {
    let mut param = Param::<usize>::default().min(1).max(10).step(5).base(4);

    assert_eq!(*param.value(), 4);
    param.dec();
    assert_eq!(*param.value(), 1);
    param.inc();
    assert_eq!(*param.value(), 6);
    param.inc();
    assert_eq!(*param.value(), 10);
}

#[test]
fn step_larger_than_max_clamps_without_overflow() {
    let mut param = Param::<usize>::default().min(0).max(3).step(usize::MAX).base(2);
    param.inc();
    assert_eq!(*param.value(), 3);
    param.dec();
    assert_eq!(*param.value(), 0);
}

#[test]
fn reset_restores_base() {
    let mut param = Param::<usize>::default().min(0).max(100).step(7).base(21);
    param.inc();
    param.inc();
    assert_eq!(*param.value(), 35);
    param.reset();
    assert_eq!(*param.value(), 21);
    assert_eq!(param.base, 21);
}
