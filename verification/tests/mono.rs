use monorail::mono::Mono;

#[test]
fn wrap_and_unwrap() {
    let m = Mono::from_const(5u8);
    assert_eq!(*m.get(), 5);
    assert_eq!(*m, 5);
    assert_eq!(m.into_inner(), 5);
}

#[test]
fn get_mut_changes_value() {
    let mut m = Mono::from_const(vec![1u8]);
    m.get_mut().push(2);
    assert_eq!(m.into_inner(), vec![1u8, 2]);
}

#[test]
fn project_applies_function() {
    let m = Mono::from_const(21u32).project(|x| x * 2);
    assert_eq!(m.into_inner(), 42);
}

#[test]
fn invert_result_both_ways() {
    let ok: Mono<Result<u8, &str>> = Mono::from_const(Ok(1));
    assert_eq!(ok.invert_result().map(|m| m.into_inner()), Ok(1));
    let err: Mono<Result<u8, &str>> = Mono::from_const(Err("bad"));
    assert!(matches!(err.invert_result(), Err("bad")));
}

#[test]
fn from_inner_converts() {
    let m: Mono<u64> = Mono::from_inner(7u32);
    assert_eq!(m.into_inner(), 7u64);
    let s: Mono<String> = Mono::from_inner("abc");
    assert_eq!(s.into_inner(), "abc");
}

#[test]
fn clone_equality_and_default() {
    let a: Mono<Vec<u8>> = Mono::from(vec![1, 2]);
    let b = a.clone();
    assert!(a == b);
    assert_eq!(b.into_inner(), vec![1, 2]);
    let d: Mono<u32> = Mono::default();
    assert_eq!(d.into_inner(), 0);
    let converted: Mono<u64> = 9u64.into();
    assert_eq!(*converted.get(), 9);
}
