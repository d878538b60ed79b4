use mio::error::MioError;
use mio::slab::Slab;

#[test]
fn live_token_maps_to_most_recent_insert() {
    let mut s: Slab<String> = Slab::new();
    let t1 = s.insert("alpha".to_string());
    let t2 = s.insert("beta".to_string());
    assert_ne!(t1, t2);
    assert_eq!(s.get(t1).unwrap().as_str(), "alpha");
    assert_eq!(s.get(t2).unwrap().as_str(), "beta");
}

#[test]
fn removed_token_fails_until_reissued() {
    let mut s: Slab<String> = Slab::new();
    let t1 = s.insert("alpha".to_string());
    let t2 = s.insert("beta".to_string());
    assert_eq!(s.remove(t1).unwrap(), "alpha");
    assert_eq!(s.get(t1).unwrap_err(), MioError::NoSuchSlot);
    assert_eq!(s.remove(t1).unwrap_err(), MioError::NoSuchSlot);
    assert!(!s.contains(t1));
    assert!(s.contains(t2));
    // The freed slot is reused, and the reissued token maps to the new value.
    let t3 = s.insert("gamma".to_string());
    assert_eq!(t3, t1);
    assert_eq!(s.get(t3).unwrap().as_str(), "gamma");
    // The untouched occupant is unaffected throughout.
    assert_eq!(s.get(t2).unwrap().as_str(), "beta");
}

#[test]
fn unknown_tokens_fail_lookups() {
    let mut s: Slab<u32> = Slab::new();
    assert_eq!(s.get(0).unwrap_err(), MioError::NoSuchSlot);
    assert_eq!(s.get(100).unwrap_err(), MioError::NoSuchSlot);
    assert_eq!(s.remove(7).unwrap_err(), MioError::NoSuchSlot);
    let t = s.insert(5);
    assert_eq!(s.get(t + 1).unwrap_err(), MioError::NoSuchSlot);
}

#[test]
fn get_mut_writes_through() {
    let mut s: Slab<String> = Slab::new();
    let t = s.insert("old".to_string());
    *s.get_mut(t).unwrap() = "new".to_string();
    assert_eq!(s.get(t).unwrap().as_str(), "new");
    assert_eq!(s.get_mut(t + 1).unwrap_err(), MioError::NoSuchSlot);
}

#[test]
fn interleaved_inserts_and_removes_track_tokens() {
    let mut s: Slab<u32> = Slab::new();
    let a = s.insert(1);
    let b = s.insert(2);
    let c = s.insert(3);
    assert_eq!(s.remove(b).unwrap(), 2);
    let d = s.insert(4);
    assert_eq!(d, b);
    assert_eq!(s.get(a).unwrap(), &1);
    assert_eq!(s.get(c).unwrap(), &3);
    assert_eq!(s.get(d).unwrap(), &4);
    assert_eq!(s.remove(a).unwrap(), 1);
    assert_eq!(s.remove(c).unwrap(), 3);
    assert_eq!(s.remove(d).unwrap(), 4);
    assert_eq!(s.get(a).unwrap_err(), MioError::NoSuchSlot);
    assert_eq!(s.get(c).unwrap_err(), MioError::NoSuchSlot);
    assert_eq!(s.get(d).unwrap_err(), MioError::NoSuchSlot);
}
