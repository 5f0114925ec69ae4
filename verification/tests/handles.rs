use shared_handle::Arc;
use shared_handle::Weak;

#[test]
fn arc_001() {
    let arc = Arc::<i32>::new(42);
    println!("{:?}", arc.inner_ptr());

    let weak = arc.downgrade();
    println!("{:?}", weak.inner_ptr());

    let arc_clone = arc.clone();
    println!("{:?}", arc == arc_clone);
    println!("{:?}", arc.eq_weak(&weak));
    println!("{:?}", weak.eq_arc(&arc));

    println!("strong_count = {} weak_count = {}", arc.strong_count(), arc.weak_count());
    println!("strong_count = {} weak_count = {}", weak.strong_count(), weak.weak_count());
}

#[test]
fn weak_001() {
    let weak = Weak::<i32>::new();
    println!("{:?}", weak.inner_ptr());
}

#[test]
fn fresh_handle_counts() {
    let s = Arc::new(7_u64);
    assert_eq!(s.strong_count(), 1);
    assert_eq!(s.weak_count(), 0);
    let t = Arc::new(String::from("abc"));
    assert_eq!(t.strong_count(), 1);
    assert_eq!(t.weak_count(), 0);
}

#[test]
fn default_strong_handle() {
    let s = Arc::<i32>::default();
    assert_eq!(s.get_value(), 0);
    assert_eq!(s.strong_count(), 1);
    assert_eq!(s.weak_count(), 0);
}

#[test]
fn clone_increments_strong_only() {
    let s = Arc::new(3_i32);
    assert_eq!(s.strong_count(), 1);
    let c = s.clone();
    assert_eq!(s.strong_count(), 2);
    assert_eq!(c.strong_count(), 2);
    assert_eq!(s.weak_count(), 0);
    assert!(c == s);
    assert!(s == c);
    drop(c);
    assert_eq!(s.strong_count(), 1);
}

#[test]
fn downgrade_increments_weak_only() {
    let s = Arc::new(3_i32);
    let w = s.downgrade();
    assert_eq!(s.strong_count(), 1);
    assert_eq!(s.weak_count(), 1);
    assert_eq!(w.strong_count(), 1);
    assert_eq!(w.weak_count(), 1);
    let u = w.upgrade().unwrap();
    assert!(u == s);
    assert_eq!(s.strong_count(), 2);
    drop(u);
    assert_eq!(s.strong_count(), 1);
}

#[test]
fn dropping_last_strong_kills_value() {
    let s = Arc::new(5_i32);
    let w = s.downgrade();
    assert!(w.upgradable());
    drop(s);
    assert!(w.upgrade().is_none());
    assert!(!w.upgradable());
    assert_eq!(w.strong_count(), 0);
    assert_eq!(w.get(), None);
}

#[test]
fn dropping_last_weak_frees_block() {
    let s = Arc::new(1_i32);
    let w = s.downgrade();
    let w2 = w.clone();
    drop(s);
    assert!(w.upgrade().is_none());
    drop(w);
    assert!(w2.upgrade().is_none());
    drop(w2);
}

#[test]
fn identity_survives_mutation() {
    let s = Arc::new(1_i32);
    let c = s.clone();
    let w = s.downgrade();
    assert!(s == c);
    s.set_value(9);
    assert!(s == c);
    assert!(s.eq_weak(&w));
    assert!(w.eq_arc(&c));
    assert_eq!(c.get_value(), 9);
    c.set_value(-4);
    assert_eq!(s.get_value(), -4);
    assert_eq!(w.get(), Some(-4));
    assert!(s == c);
}

#[test]
fn identity_distinguishes_blocks() {
    let a = Arc::new(1_i32);
    let b = Arc::new(1_i32);
    assert!(a != b);
    assert!(!a.eq_weak(&b.downgrade()));
    assert!(!b.downgrade().eq_arc(&a));
    assert!(a.inner_ptr() != b.inner_ptr());
}

#[test]
fn cross_equality_is_symmetric() {
    let s = Arc::new(10_i32);
    let w = s.downgrade();
    assert!(s.eq_weak(&w));
    assert!(w.eq_arc(&s));
    let sc = s.clone();
    let wc = w.clone();
    assert!(sc.eq_weak(&w));
    assert!(s.eq_weak(&wc));
    assert!(wc.eq_arc(&sc));
    assert!(w.eq_arc(&sc));
}

#[test]
fn empty_weak_never_upgrades() {
    let w = Weak::<i32>::new();
    assert!(w.upgrade().is_none());
    assert!(!w.upgradable());
    assert_eq!(w.strong_count(), 0);
    assert_eq!(w.weak_count(), 0);
    assert_eq!(w.get(), None);
    let w2 = w.clone();
    assert!(w2.upgrade().is_none());
    assert!(w == w2);
    let d = Weak::<i32>::default();
    assert!(d.upgrade().is_none());
}

#[test]
fn strong_claim_round_trip() {
    let s = Arc::new(10_i32);
    let observer = s.clone();
    let id = s.inner_ptr();
    assert_eq!(observer.strong_count(), 2);
    let back = Arc::from_raw_identity(s.into_raw_identity_consuming());
    assert_eq!(observer.strong_count(), 2);
    assert_eq!(observer.weak_count(), 0);
    assert!(back == observer);
    assert!(back.inner_ptr() == id);
}

#[test]
fn weak_claim_round_trip() {
    let s = Arc::new(10_i32);
    let w = s.downgrade();
    let id = w.inner_ptr();
    assert_eq!(s.weak_count(), 1);
    let back = Weak::from_raw_identity(w.into_raw_identity_consuming());
    assert_eq!(s.weak_count(), 1);
    assert!(back.eq_arc(&s));
    assert!(back.inner_ptr() == id);
    let empty = Weak::<i32>::new();
    let empty_back = Weak::from_raw_identity(empty.into_raw_identity_consuming());
    assert!(empty_back.upgrade().is_none());
}

#[test]
fn two_strong_drops_then_weak_observes_death() {
    let s1 = Arc::new(10_i32);
    let w = s1.downgrade();
    let s2 = s1.clone();
    assert_eq!(s1.strong_count(), 2);
    assert_eq!(s1.weak_count(), 1);
    drop(s1);
    drop(s2);
    assert!(w.upgrade().is_none());
    assert_eq!(w.strong_count(), 0);
}

#[test]
fn upgraded_handle_reads_and_writes_the_cell() {
    let s = Arc::new(2_i32);
    let w = s.downgrade();
    let u = w.upgrade().unwrap();
    u.set_value(11);
    assert_eq!(s.get_value(), 11);
    drop(s);
    assert_eq!(u.get_value(), 11);
    assert!(w.upgradable());
    drop(u);
    assert!(!w.upgradable());
}
