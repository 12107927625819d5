use overlayed::pin::Pinned;

#[test]
fn store_starts_with_given_value() {
    assert!(!Pinned::new(false).get());
    assert!(Pinned::new(true).get());
}

#[test]
fn store_set_then_get() {
    let p = Pinned::new(false);
    p.set(true);
    assert!(p.get());
    p.set(true);
    assert!(p.get());
    p.set(false);
    assert!(!p.get());
}

#[test]
fn store_toggle_returns_new_value() {
    let p = Pinned::new(false);
    assert!(p.toggle());
    assert!(p.get());
    assert!(!p.toggle());
    assert!(!p.get());
}

#[test]
fn store_n_toggles_parity() {
    for n in 0..9u32 {
        let p = Pinned::new(false);
        for _ in 0..n {
            p.toggle();
        }
        assert_eq!(p.get(), n % 2 == 1);
    }
}

#[test]
fn store_interleaved_callers_lose_no_toggle() {
    let p = Pinned::new(false);
    let first = &p;
    let second = &p;
    let mut total = 0u32;
    for round in 0..7u32 {
        first.toggle();
        total += 1;
        if round % 3 != 0 {
            second.toggle();
            total += 1;
        }
    }
    assert_eq!(p.get(), total % 2 == 1);
}
