use dock_splits::allowed_splits::InvalidEncoding;
use dock_splits::allowed_splits::Split;
use dock_splits::presets;
use dock_splits::AllowedSplits;

fn each_value() -> Vec<AllowedSplits> {
    (0u8..=15).map(AllowedSplits::from_u8).collect()
}

#[test]
fn round_trip_through_predicates() {
    for v in 0u8..=15 {
        let s = AllowedSplits::from_u8(v);
        let rebuilt = (if s.left() { 0b1000u8 } else { 0 })
            | (if s.right() { 0b0100 } else { 0 })
            | (if s.top() { 0b0010 } else { 0 })
            | (if s.bottom() { 0b0001 } else { 0 });
        assert_eq!(rebuilt, v);
    }
}

#[test]
fn try_from_u8_accepts_the_whole_domain() {
    for v in 0u8..=15 {
        let s = AllowedSplits::try_from_u8(v).unwrap();
        assert_eq!(s, AllowedSplits::from_u8(v));
    }
}

#[test]
fn try_from_u8_rejects_everything_above_fifteen() {
    for v in 16u8..=255 {
        assert_eq!(AllowedSplits::try_from_u8(v), Err(InvalidEncoding));
    }
}

#[test]
fn union_and_intersection_are_commutative() {
    for a in each_value() {
        for b in each_value() {
            assert_eq!(a.union(b), b.union(a));
            assert_eq!(a.intersect(b), b.intersect(a));
        }
    }
}

#[test]
fn union_and_intersection_are_associative() {
    for a in each_value() {
        for b in each_value() {
            for c in each_value() {
                assert_eq!(a.union(b).union(c), a.union(b.union(c)));
                assert_eq!(a.intersect(b).intersect(c), a.intersect(b.intersect(c)));
            }
        }
    }
}

#[test]
fn union_and_intersection_are_idempotent() {
    for a in each_value() {
        assert_eq!(a.union(a), a);
        assert_eq!(a.intersect(a), a);
    }
}

#[test]
fn none_is_union_identity_and_intersection_absorber() {
    for a in each_value() {
        assert_eq!(a.union(presets::none()), a);
        assert_eq!(a.intersect(presets::none()), presets::none());
    }
}

#[test]
fn all_is_intersection_identity_and_union_absorber() {
    for a in each_value() {
        assert_eq!(a.intersect(presets::all()), a);
        assert_eq!(a.union(presets::all()), presets::all());
    }
}

#[test]
fn all_and_none_presets_answer_their_queries() {
    assert!(presets::all().all());
    assert!(!presets::all().none());
    assert!(presets::none().none());
    assert!(!presets::none().all());
}

#[test]
fn composite_presets_are_unions_of_their_parts() {
    assert_eq!(presets::left_right(), presets::left().union(presets::right()));
    assert_eq!(presets::top_bottom(), presets::top().union(presets::bottom()));
    assert_eq!(presets::all(), presets::left_right().union(presets::top_bottom()));
}

#[test]
fn horizontal_query_agrees_with_left_and_right() {
    for s in each_value() {
        assert_eq!(s.left_or_right(), s.left() || s.right());
        assert_eq!(s.top_or_bottom(), s.top() || s.bottom());
    }
}

#[test]
fn allowed_agrees_with_the_four_predicates() {
    for s in each_value() {
        assert_eq!(s.allowed(&Split::Left), s.left());
        assert_eq!(s.allowed(&Split::Right), s.right());
        assert_eq!(s.allowed(&Split::Above), s.top());
        assert_eq!(s.allowed(&Split::Below), s.bottom());
    }
}

#[test]
fn intersecting_all_with_top_leaves_only_top() {
    let s = presets::all().intersect(presets::top());
    assert!(s.top());
    assert!(!s.bottom());
    assert!(!s.left());
    assert!(!s.right());
}

#[test]
fn union_of_none_and_left_is_left() {
    assert_eq!(presets::none().union(presets::left()), presets::left());
}

#[test]
fn top_bottom_is_vertical_only() {
    assert!(!presets::top_bottom().left_or_right());
    assert!(presets::top_bottom().top_or_bottom());
}

#[test]
fn sixteen_is_an_invalid_encoding() {
    assert_eq!(AllowedSplits::try_from_u8(16), Err(InvalidEncoding));
}

#[test]
fn default_allows_every_direction() {
    assert_eq!(AllowedSplits::default(), presets::all());
    assert!(presets::all().allowed(&Split::Right));
}

#[test]
fn assign_variants_match_their_operators() {
    for a in each_value() {
        for b in each_value() {
            let mut u = a;
            u.union_assign(b);
            assert_eq!(u, a.union(b));
            let mut i = a;
            i.intersect_assign(b);
            assert_eq!(i, a.intersect(b));
        }
    }
}

#[test]
fn single_direction_presets_set_one_bit_each() {
    assert!(presets::left().left());
    assert!(!presets::left().right() && !presets::left().top() && !presets::left().bottom());
    assert!(presets::right().right());
    assert!(!presets::right().left() && !presets::right().top() && !presets::right().bottom());
    assert!(presets::top().top());
    assert!(!presets::top().left() && !presets::top().right() && !presets::top().bottom());
    assert!(presets::bottom().bottom());
    assert!(!presets::bottom().left() && !presets::bottom().right() && !presets::bottom().top());
}
