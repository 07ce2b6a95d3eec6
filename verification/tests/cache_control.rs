use graphql_extensions::cache_control::CacheControl;

fn control(public: bool, max_age: usize) -> CacheControl {
    CacheControl { public, max_age }
}

#[test]
fn default_is_public_without_age() {
    assert_eq!(CacheControl::default(), control(true, 0));
}

#[test]
fn merge_private_without_age_keeps_the_age() {
    assert_eq!(control(true, 30).merge(&control(false, 0)), control(false, 30));
}

#[test]
fn merge_takes_the_smaller_age() {
    assert_eq!(control(true, 30).merge(&control(true, 60)), control(true, 30));
    assert_eq!(control(true, 60).merge(&control(true, 30)), control(true, 30));
}

#[test]
fn merge_unset_age_gives_way() {
    assert_eq!(control(true, 0).merge(&control(true, 45)), control(true, 45));
    assert_eq!(control(true, 45).merge(&control(true, 0)), control(true, 45));
    assert_eq!(control(true, 0).merge(&control(true, 0)), control(true, 0));
}

#[test]
fn merge_is_public_only_if_both_are() {
    assert!(control(true, 1).merge(&control(true, 1)).public);
    assert!(!control(true, 1).merge(&control(false, 1)).public);
    assert!(!control(false, 1).merge(&control(true, 1)).public);
    assert!(!control(false, 1).merge(&control(false, 1)).public);
}

#[test]
fn merge_with_identity_changes_nothing() {
    let identity = CacheControl::default();
    for x in samples() {
        assert_eq!(x.merge(&identity), x);
        assert_eq!(identity.merge(&x), x);
    }
}

fn samples() -> Vec<CacheControl> {
    let mut all = Vec::new();
    for public in [true, false] {
        for max_age in [0, 1, 30, 60, 61, usize::MAX] {
            all.push(control(public, max_age));
        }
    }
    all
}

#[test]
fn merge_is_commutative() {
    for a in samples() {
        for b in samples() {
            assert_eq!(a.merge(&b), b.merge(&a));
        }
    }
}

#[test]
fn merge_is_associative() {
    for a in samples() {
        for b in samples() {
            for c in samples() {
                assert_eq!(a.merge(&b).merge(&c), a.merge(&b.merge(&c)));
            }
        }
    }
}

#[test]
fn merge_order_of_fields_does_not_matter() {
    let fields = [control(true, 60), control(true, 30), control(false, 0)];
    let forward = fields.iter().fold(CacheControl::default(), |all, field| all.merge(field));
    let backward = fields.iter().rev().fold(CacheControl::default(), |all, field| all.merge(field));
    assert_eq!(forward, control(false, 30));
    assert_eq!(backward, control(false, 30));
}

#[test]
fn value_without_age_is_none() {
    assert_eq!(control(true, 0).value(), None);
    assert_eq!(control(false, 0).value(), None);
}

#[test]
fn value_of_public_directive() {
    assert_eq!(control(true, 30).value(), Some("max-age=30".to_string()));
}

#[test]
fn value_of_private_directive() {
    assert_eq!(control(false, 60).value(), Some("max-age=60, private".to_string()));
}

#[test]
fn value_writes_every_digit() {
    assert_eq!(control(true, 1).value(), Some("max-age=1".to_string()));
    assert_eq!(control(true, 9).value(), Some("max-age=9".to_string()));
    assert_eq!(control(true, 10).value(), Some("max-age=10".to_string()));
    assert_eq!(control(true, 105).value(), Some("max-age=105".to_string()));
    assert_eq!(control(true, 1234567890).value(), Some("max-age=1234567890".to_string()));
    assert_eq!(
        control(false, usize::MAX).value(),
        Some(format!("max-age={}, private", usize::MAX))
    );
}
