//! Blend ratio stepping, pairing, merge summaries and lineage
//! round-trips.

use uniq::merge::{BlendRatio, LineageNode, MergeSpec};
use uniq::variant::VariantId;

#[test]
fn blend_next_saturates_at_full() {
    assert_eq!(BlendRatio::Full.next(), BlendRatio::Full);
}

#[test]
fn blend_prev_saturates_at_zero() {
    assert_eq!(BlendRatio::Zero.prev(), BlendRatio::Zero);
}

#[test]
fn blend_four_steps_span_the_scale() {
    let mut r = BlendRatio::Zero;
    for _ in 0..4 {
        r = r.next();
    }
    assert_eq!(r, BlendRatio::Full);
}

#[test]
fn blend_prev_then_next_round_trips_above_zero() {
    for r in [
        BlendRatio::Quarter,
        BlendRatio::Half,
        BlendRatio::ThreeQuarter,
        BlendRatio::Full,
    ] {
        assert_eq!(r.prev().next(), r);
    }
}

#[test]
fn blend_half_steps_to_three_quarter_and_pairs_with_quarter() {
    let stepped = BlendRatio::Half.next();
    assert_eq!(stepped, BlendRatio::ThreeQuarter);
    assert_eq!(stepped.paired(), BlendRatio::Quarter);
}

#[test]
fn blend_percentages() {
    assert_eq!(BlendRatio::Zero.as_percent(), 0);
    assert_eq!(BlendRatio::Quarter.as_percent(), 25);
    assert_eq!(BlendRatio::Half.as_percent(), 50);
    assert_eq!(BlendRatio::ThreeQuarter.as_percent(), 75);
    assert_eq!(BlendRatio::Full.as_percent(), 100);
}

#[test]
fn blend_paired_complements_percent() {
    for r in BlendRatio::all() {
        assert_eq!(r.as_percent() as u32 + r.paired().as_percent() as u32, 100);
    }
}

#[test]
fn blend_all_lists_five_in_order() {
    let all = BlendRatio::all();
    assert_eq!(all.len(), 5);
    assert_eq!(all[0], BlendRatio::Zero);
    assert_eq!(all[4], BlendRatio::Full);
}

#[test]
fn merge_spec_summary_shows_parents_and_percentages() {
    let spec = MergeSpec::new(
        VariantId("variant-1".to_string()),
        VariantId("variant-2".to_string()),
        BlendRatio::ThreeQuarter,
        BlendRatio::Quarter,
    );
    assert_eq!(spec.summary(), "variant-1 (75%) + variant-2 (25%)");
}

#[test]
fn lineage_leaf_flattens_to_its_own_pair() {
    let leaf = LineageNode::attach(
        VariantId("variant-1".to_string()),
        "attention routing".to_string(),
        "arxiv:1".to_string(),
    );
    assert_eq!(leaf.variant_id().0, "variant-1");
    let leaves = leaf.leaves();
    assert_eq!(
        leaves,
        vec![("attention routing".to_string(), "arxiv:1".to_string())]
    );
}

#[test]
fn lineage_round_trip_recovers_attached_pairs() {
    // Build: merge(merge(a, b), c) via attach/merge operations.
    let a = LineageNode::attach(
        VariantId("variant-1".to_string()),
        "quantized heads".to_string(),
        "arxiv:1".to_string(),
    );
    let b = LineageNode::attach(
        VariantId("variant-2".to_string()),
        "sparse routing".to_string(),
        "arxiv:2".to_string(),
    );
    let ab = LineageNode::merge(
        VariantId("merge-1".to_string()),
        a,
        b,
        BlendRatio::Half,
        BlendRatio::Half,
    );
    let c = LineageNode::attach(
        VariantId("variant-3".to_string()),
        "distilled critic".to_string(),
        "arxiv:3".to_string(),
    );
    let tree = LineageNode::merge(
        VariantId("merge-2".to_string()),
        ab,
        c,
        BlendRatio::ThreeQuarter,
        BlendRatio::Quarter,
    );
    assert_eq!(tree.variant_id().0, "merge-2");
    let leaves = tree.leaves();
    assert_eq!(
        leaves,
        vec![
            ("quantized heads".to_string(), "arxiv:1".to_string()),
            ("sparse routing".to_string(), "arxiv:2".to_string()),
            ("distilled critic".to_string(), "arxiv:3".to_string()),
        ]
    );
}

#[test]
fn blend_descriptions_are_distinct() {
    let mut seen: Vec<&str> = Vec::new();
    for r in BlendRatio::all() {
        let d = r.description();
        assert!(!seen.contains(&d));
        seen.push(d);
    }
}
