use capctl::cap::Cap;
use capctl::capset::{CapSet, CapSetIterator};

fn all_caps() -> Vec<Cap> {
    let mut v = Vec::new();
    let mut it = Cap::iter();
    while let Some(c) = it.next() {
        v.push(c);
    }
    v
}

fn collect(mut it: CapSetIterator) -> Vec<Cap> {
    let mut v = Vec::new();
    while let Some(c) = it.next() {
        v.push(c);
    }
    v
}

fn peek(it: &CapSetIterator) -> Option<Cap> {
    let mut c = it.clone();
    c.next()
}

fn full_set() -> CapSet {
    CapSet::from_bitmask_truncate(u64::MAX)
}

#[test]
fn test_capset_empty() {
    let mut set = CapSet::from_caps(&all_caps());
    for cap in all_caps() {
        set.drop(cap);
    }
    assert_eq!(set, CapSet::empty());
    assert!(set.is_empty());

    set = CapSet::empty();
    assert!(set.is_empty());
    assert_eq!(set, CapSet::default());

    set = CapSet::from_caps(&all_caps());
    set.clear();
    assert_eq!(set, CapSet::empty());
    assert!(set.is_empty());

    assert!(!all_caps().into_iter().any(|c| set.has(c)));
}

#[test]
fn test_capset_full() {
    let mut set = CapSet::empty();
    for cap in all_caps() {
        set.add(cap);
    }
    assert_eq!(set, full_set());
    assert!(!set.is_empty());

    set = CapSet::empty();
    set.add_all(&all_caps());
    assert_eq!(set, full_set());
    assert!(!set.is_empty());

    assert!(all_caps().into_iter().all(|c| set.has(c)));
}

#[test]
fn test_capset_add_drop() {
    let mut set = CapSet::empty();
    set.add(Cap::CHOWN);
    assert!(set.has(Cap::CHOWN));
    assert!(!set.is_empty());

    set.drop(Cap::CHOWN);
    assert!(!set.has(Cap::CHOWN));
    assert!(set.is_empty());

    set.set_state(Cap::CHOWN, true);
    assert!(set.has(Cap::CHOWN));
    assert!(!set.is_empty());

    set.set_state(Cap::CHOWN, false);
    assert!(!set.has(Cap::CHOWN));
    assert!(set.is_empty());
}

#[test]
fn test_capset_add_drop_all() {
    let mut set = CapSet::empty();
    set.add_all(&[Cap::FOWNER, Cap::CHOWN, Cap::KILL]);

    // Insertion order is not preserved: iteration is in ascending bit order.
    assert_eq!(collect(set.iter()), vec![Cap::CHOWN, Cap::FOWNER, Cap::KILL]);
    assert_eq!(collect(set.iter()), vec![Cap::CHOWN, Cap::FOWNER, Cap::KILL]);

    set.drop_all(&[Cap::FOWNER, Cap::CHOWN]);
    assert_eq!(collect(set.iter()), vec![Cap::KILL]);

    set.drop_all(&[Cap::KILL]);
    assert_eq!(collect(set.iter()), vec![]);
}

#[test]
fn test_capset_from_iter() {
    let set = CapSet::from_caps(&[Cap::CHOWN, Cap::FOWNER]);
    assert_eq!(collect(set.iter()), vec![Cap::CHOWN, Cap::FOWNER]);
}

#[test]
fn test_capset_iter_full() {
    assert_eq!(collect(Cap::iter()), collect(full_set().iter()));
    assert_eq!(collect(Cap::iter()), collect(CapSet::from_caps(&all_caps()).iter()));
}

#[test]
fn test_capset_iter_count() {
    for set in [
        CapSet::from_caps(&[]),
        CapSet::from_caps(&[Cap::CHOWN, Cap::FOWNER]),
        CapSet::from_caps(&all_caps()),
    ]
    .iter()
    {
        let mut count = set.size();

        let mut it = set.iter();
        assert_eq!(it.len(), count);
        assert_eq!(it.clone().count(), count);
        assert_eq!(it.size_hint(), (count, Some(count)));

        while let Some(_cap) = it.next() {
            count -= 1;
            assert_eq!(it.len(), count);
            assert_eq!(it.clone().count(), count);
            assert_eq!(it.size_hint(), (count, Some(count)));
        }

        assert_eq!(count, 0);

        assert_eq!(it.len(), 0);
        assert_eq!(it.clone().count(), 0);
        assert_eq!(it.size_hint(), (0, Some(0)));
    }
}

#[test]
fn test_capset_iter_last() {
    let last_cap = Cap::iter().last().unwrap();

    assert_eq!(CapSet::from_caps(&all_caps()).iter().last(), Some(last_cap));
    assert_eq!(CapSet::empty().iter().last(), None);

    let mut it = CapSet::from_caps(&all_caps()).iter();
    assert_eq!(it.clone().last(), Some(last_cap));
    while it.next().is_some() {
        if peek(&it).is_some() {
            assert_eq!(it.clone().last(), Some(last_cap));
        } else {
            assert_eq!(it.clone().last(), None);
        }
    }
    assert_eq!(it.len(), 0);
    assert_eq!(it.last(), None);

    let mut it = CapSet::from_caps(&[Cap::FOWNER]).iter();
    assert_eq!(it.clone().last(), Some(Cap::FOWNER));
    assert_eq!(it.next(), Some(Cap::FOWNER));
    assert_eq!(it.last(), None);

    let mut it = CapSet::from_caps(&[Cap::CHOWN]).iter();
    assert_eq!(it.clone().last(), Some(Cap::CHOWN));
    assert_eq!(it.next(), Some(Cap::CHOWN));
    assert_eq!(it.last(), None);

    let mut it = CapSet::from_caps(&[Cap::CHOWN, Cap::FOWNER]).iter();
    assert_eq!(it.clone().last(), Some(Cap::FOWNER));
    assert_eq!(it.next(), Some(Cap::CHOWN));
    assert_eq!(it.clone().last(), Some(Cap::FOWNER));
    assert_eq!(it.next(), Some(Cap::FOWNER));
    assert_eq!(it.clone().last(), None);
    assert_eq!(it.next(), None);
    assert_eq!(it.last(), None);
}

#[test]
fn test_capset_union() {
    let a = CapSet::from_caps(&[Cap::CHOWN, Cap::FOWNER]);
    let b = CapSet::from_caps(&[Cap::FOWNER, Cap::KILL]);
    let c = CapSet::from_caps(&[Cap::CHOWN, Cap::FOWNER, Cap::KILL]);
    assert_eq!(a.union(b), c);
}

#[test]
fn test_capset_intersection() {
    let a = CapSet::from_caps(&[Cap::CHOWN, Cap::FOWNER]);
    let b = CapSet::from_caps(&[Cap::FOWNER, Cap::KILL]);
    let c = CapSet::from_caps(&[Cap::FOWNER]);
    assert_eq!(a.intersection(b), c);
}

#[test]
fn test_capset_not() {
    assert_eq!(CapSet::from_caps(&all_caps()).complement(), CapSet::empty());
    assert_eq!(CapSet::from_caps(&all_caps()), CapSet::empty().complement());

    let mut a = CapSet::from_caps(&all_caps());
    let mut b = CapSet::empty();
    a.add(Cap::CHOWN);
    b.drop(Cap::CHOWN);
    assert_eq!(a.complement(), b);
}

#[test]
fn test_capset_bitor() {
    let a = CapSet::from_caps(&[Cap::CHOWN, Cap::FOWNER]);
    let b = CapSet::from_caps(&[Cap::FOWNER, Cap::KILL]);
    let c = CapSet::from_caps(&[Cap::CHOWN, Cap::FOWNER, Cap::KILL]);
    assert_eq!(a.union(b), c);

    let mut d = a;
    d = d.union(b);
    assert_eq!(d, c);
}

#[test]
fn test_capset_bitand() {
    let a = CapSet::from_caps(&[Cap::CHOWN, Cap::FOWNER]);
    let b = CapSet::from_caps(&[Cap::FOWNER, Cap::KILL]);
    let c = CapSet::from_caps(&[Cap::FOWNER]);
    assert_eq!(a.intersection(b), c);

    let mut d = a;
    d = d.intersection(b);
    assert_eq!(d, c);
}

#[test]
fn test_capset_bitxor() {
    let a = CapSet::from_caps(&[Cap::CHOWN, Cap::FOWNER]);
    let b = CapSet::from_caps(&[Cap::FOWNER, Cap::KILL]);
    let c = CapSet::from_caps(&[Cap::CHOWN, Cap::KILL]);
    assert_eq!(a.xor(b), c);

    let mut d = a;
    d = d.xor(b);
    assert_eq!(d, c);
}

#[test]
fn test_capset_sub() {
    let a = CapSet::from_caps(&[Cap::CHOWN, Cap::FOWNER]);
    let b = CapSet::from_caps(&[Cap::FOWNER, Cap::KILL]);
    let c = CapSet::from_caps(&[Cap::CHOWN]);
    assert_eq!(a.difference(b), c);

    let mut d = a;
    d = d.difference(b);
    assert_eq!(d, c);
}

#[test]
fn test_capset_fmt() {
    assert_eq!(CapSet::empty().render(), "{}");
    assert_eq!(CapSet::from_caps(&[Cap::CHOWN]).render(), "{CHOWN}");
    assert_eq!(CapSet::from_caps(&[Cap::CHOWN, Cap::FOWNER]).render(), "{CHOWN, FOWNER}");
}

#[test]
fn test_capset_macro() {
    assert_eq!(CapSet::from_caps(&[]), CapSet::empty());

    let mut one = CapSet::empty();
    one.add(Cap::CHOWN);
    assert_eq!(CapSet::from_caps(&[Cap::CHOWN]), one);
    assert_eq!(CapSet::from_caps(&[Cap::CHOWN]), one);

    let cap = Cap::CHOWN;
    assert_eq!(CapSet::from_caps(&[cap]), one);
    assert_eq!(CapSet::from_caps(&[cap]), one);

    let mut two = CapSet::empty();
    two.add(Cap::CHOWN);
    two.add(Cap::SYSLOG);
    assert_eq!(CapSet::from_caps(&[Cap::CHOWN, Cap::SYSLOG]), two);
    assert_eq!(CapSet::from_caps(&[Cap::SYSLOG, Cap::CHOWN]), two);

    let mut three = CapSet::empty();
    three.add(Cap::CHOWN);
    three.add(Cap::SYSLOG);
    three.add(Cap::FOWNER);
    assert_eq!(CapSet::from_caps(&[Cap::CHOWN, Cap::SYSLOG, Cap::FOWNER]), three);
    assert_eq!(CapSet::from_caps(&[Cap::FOWNER, Cap::SYSLOG, Cap::CHOWN]), three);
}

#[test]
fn test_capset_truncates_unknown_bits() {
    // Construction from a raw bitmask masks unknown high bits instead of
    // rejecting them.
    let set = CapSet::from_bitmask_truncate((1u64 << 63) | 1);
    assert_eq!(set, CapSet::from_caps(&[Cap::CHOWN]));
    assert_eq!(CapSet::from_bitmask_truncate(u64::MAX), CapSet::from_caps(&all_caps()));
    assert_eq!(CapSet::from_bitmask_truncate(0), CapSet::empty());
}

#[test]
fn test_capset_size_matches_iteration() {
    for set in [
        CapSet::empty(),
        CapSet::from_caps(&[Cap::NET_ADMIN]),
        CapSet::from_caps(&[Cap::CHOWN, Cap::SYS_ADMIN, Cap::CHECKPOINT_RESTORE]),
        CapSet::from_caps(&all_caps()),
    ] {
        assert_eq!(set.size(), collect(set.iter()).len());
    }
}

#[test]
fn test_capset_algebra_identities() {
    let a = CapSet::from_caps(&[Cap::CHOWN, Cap::NET_RAW, Cap::BPF]);
    let b = CapSet::from_caps(&[Cap::NET_RAW, Cap::SYS_TIME]);
    assert_eq!(a.union(a.complement()), full_set());
    assert_eq!(a.intersection(a.complement()), CapSet::empty());
    assert_eq!(a.difference(b), a.intersection(b.complement()));
}
