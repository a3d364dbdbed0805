//! Blend ratios and the merge lineage model.
//!
//! A merged variant combines two parent variants with a pair of blend
//! ratios drawn from a closed five-step scale. The lineage tree records,
//! append-only, how every variant traces back to the research techniques
//! it came from.

use vstd::prelude::*;
use vstd::multiset::Multiset;
use vstd::seq_lib::lemma_multiset_commutative;
use crate::variant::VariantId;

verus! {

/// How much of a particular variant's technique to integrate in a merge.
///
/// The scale is totally ordered with five steps; `next` and `prev` are
/// ordinal steps that saturate at the ends rather than wrap around.
#[derive(Debug, Clone, Copy, PartialEq, Eq, Structural)]
pub enum BlendRatio {
    /// 0% — not included, but the merge is "informed by" this variant's approach.
    Zero,
    /// 25% — contributes a minor sub-component.
    Quarter,
    /// 50% — equal architectural weight in the hybrid.
    Half,
    /// 75% — primary architecture, other side contributes sub-component.
    ThreeQuarter,
    /// 100% — full technique, other side only informs design decisions.
    Full,
}

impl BlendRatio {
    /// Position of this ratio on the five-step scale, from 0 to 4.
    pub open spec fn ordinal(self) -> int {
        match self {
            BlendRatio::Zero => 0,
            BlendRatio::Quarter => 1,
            BlendRatio::Half => 2,
            BlendRatio::ThreeQuarter => 3,
            BlendRatio::Full => 4,
        }
    }

    /// One ordinal step up the scale, saturating at the top.
    pub open spec fn spec_next(self) -> BlendRatio {
        match self {
            BlendRatio::Zero => BlendRatio::Quarter,
            BlendRatio::Quarter => BlendRatio::Half,
            BlendRatio::Half => BlendRatio::ThreeQuarter,
            BlendRatio::ThreeQuarter => BlendRatio::Full,
            BlendRatio::Full => BlendRatio::Full,
        }
    }

    /// One ordinal step down the scale, saturating at the bottom.
    pub open spec fn spec_prev(self) -> BlendRatio {
        match self {
            BlendRatio::Zero => BlendRatio::Zero,
            BlendRatio::Quarter => BlendRatio::Zero,
            BlendRatio::Half => BlendRatio::Quarter,
            BlendRatio::ThreeQuarter => BlendRatio::Half,
            BlendRatio::Full => BlendRatio::ThreeQuarter,
        }
    }

    /// The ordinal inverse of this ratio: the value at the mirrored
    /// position of the scale.
    pub open spec fn spec_paired(self) -> BlendRatio {
        match self {
            BlendRatio::Zero => BlendRatio::Full,
            BlendRatio::Quarter => BlendRatio::ThreeQuarter,
            BlendRatio::Half => BlendRatio::Half,
            BlendRatio::ThreeQuarter => BlendRatio::Quarter,
            BlendRatio::Full => BlendRatio::Zero,
        }
    }

    /// Get the numeric percentage.
    pub fn as_percent(&self) -> (r: u8)
        ensures
            r == 25 * self.ordinal(),
    {
        match self {
            BlendRatio::Zero => 0,
            BlendRatio::Quarter => 25,
            BlendRatio::Half => 50,
            BlendRatio::ThreeQuarter => 75,
            BlendRatio::Full => 100,
        }
    }

    /// Describe the blend for use in prompts handed to the collaborator.
    pub fn description(&self) -> (r: &'static str)
        ensures
            r@ == self.spec_description(),
    {
        match self {
            BlendRatio::Zero => "not directly used, but its insights inform the design",
            BlendRatio::Quarter => "contributes a minor sub-component or enhancement",
            BlendRatio::Half => "equal architectural weight in a true hybrid approach",
            BlendRatio::ThreeQuarter => "serves as the primary architecture",
            BlendRatio::Full => "fully implemented as the core approach",
        }
    }

    /// The prose description of each ratio.
    pub open spec fn spec_description(self) -> Seq<char> {
        match self {
            BlendRatio::Zero => "not directly used, but its insights inform the design"@,
            BlendRatio::Quarter => "contributes a minor sub-component or enhancement"@,
            BlendRatio::Half => "equal architectural weight in a true hybrid approach"@,
            BlendRatio::ThreeQuarter => "serves as the primary architecture"@,
            BlendRatio::Full => "fully implemented as the core approach"@,
        }
    }

    /// Get all blend ratios, in scale order.
    pub fn all() -> (r: Vec<BlendRatio>)
        ensures
            r@ =~= seq![
                BlendRatio::Zero,
                BlendRatio::Quarter,
                BlendRatio::Half,
                BlendRatio::ThreeQuarter,
                BlendRatio::Full,
            ],
    {
        let mut v: Vec<BlendRatio> = Vec::new();
        v.push(BlendRatio::Zero);
        v.push(BlendRatio::Quarter);
        v.push(BlendRatio::Half);
        v.push(BlendRatio::ThreeQuarter);
        v.push(BlendRatio::Full);
        v
    }

    /// Step to the next blend ratio (for keyboard navigation).
    pub fn next(&self) -> (r: BlendRatio)
        ensures
            r == self.spec_next(),
            r.ordinal() == if self.ordinal() < 4 { self.ordinal() + 1 } else { 4int },
    {
        match self {
            BlendRatio::Zero => BlendRatio::Quarter,
            BlendRatio::Quarter => BlendRatio::Half,
            BlendRatio::Half => BlendRatio::ThreeQuarter,
            BlendRatio::ThreeQuarter => BlendRatio::Full,
            BlendRatio::Full => BlendRatio::Full,
        }
    }

    /// Step to the previous blend ratio.
    pub fn prev(&self) -> (r: BlendRatio)
        ensures
            r == self.spec_prev(),
            r.ordinal() == if self.ordinal() > 0 { self.ordinal() - 1 } else { 0int },
    {
        match self {
            BlendRatio::Zero => BlendRatio::Zero,
            BlendRatio::Quarter => BlendRatio::Zero,
            BlendRatio::Half => BlendRatio::Quarter,
            BlendRatio::ThreeQuarter => BlendRatio::Half,
            BlendRatio::Full => BlendRatio::ThreeQuarter,
        }
    }

    /// The value shown on the other side of a two-sided blend slider:
    /// the ordinal inverse position on the scale. Because the five-step
    /// scale is symmetric around its midpoint this coincides with the
    /// arithmetic percentage complement; the pairing rule is the ordinal
    /// one, and the two would diverge if the step count ever changed.
    pub fn paired(&self) -> (r: BlendRatio)
        ensures
            r == self.spec_paired(),
            r.ordinal() == 4 - self.ordinal(),
    {
        match self {
            BlendRatio::Zero => BlendRatio::Full,
            BlendRatio::Quarter => BlendRatio::ThreeQuarter,
            BlendRatio::Half => BlendRatio::Half,
            BlendRatio::ThreeQuarter => BlendRatio::Quarter,
            BlendRatio::Full => BlendRatio::Zero,
        }
    }
}

/// Stepping up saturates at `Full`, and stepping down saturates at
/// `Zero`: the scale never wraps around.
pub proof fn lemma_blend_saturates()
    ensures
        BlendRatio::Full.spec_next() == BlendRatio::Full,
        BlendRatio::Zero.spec_prev() == BlendRatio::Zero,
{
}

/// Four upward steps walk the whole scale: starting from `Zero`,
/// applying `next` four times reaches `Full`.
pub proof fn lemma_blend_next_spans_scale()
    ensures
        BlendRatio::Zero.spec_next().spec_next().spec_next().spec_next() == BlendRatio::Full,
{
}

/// Stepping down then up returns to the start for every ratio above the
/// bottom of the scale.
pub proof fn lemma_blend_prev_next_roundtrip(x: BlendRatio)
    requires
        x != BlendRatio::Zero,
    ensures
        x.spec_prev().spec_next() == x,
{
}

/// The ordinal-inverse pairing mirrors the scale: paired values sit at
/// mirrored positions, and (because the scale is symmetric around its
/// midpoint) their percentages sum to 100.
pub proof fn lemma_blend_paired_mirrors(x: BlendRatio)
    ensures
        x.spec_paired().ordinal() == 4 - x.ordinal(),
        x.spec_paired().spec_paired() == x,
        25 * x.ordinal() + 25 * x.spec_paired().ordinal() == 100,
{
}

impl BlendRatio {
    /// The percentage of each ratio, written in decimal.
    pub open spec fn spec_percent_chars(self) -> Seq<char> {
        match self {
            BlendRatio::Zero => "0"@,
            BlendRatio::Quarter => "25"@,
            BlendRatio::Half => "50"@,
            BlendRatio::ThreeQuarter => "75"@,
            BlendRatio::Full => "100"@,
        }
    }

    fn percent_chars(&self) -> (r: &'static str)
        ensures
            r@ == self.spec_percent_chars(),
    {
        match self {
            BlendRatio::Zero => "0",
            BlendRatio::Quarter => "25",
            BlendRatio::Half => "50",
            BlendRatio::ThreeQuarter => "75",
            BlendRatio::Full => "100",
        }
    }
}

/// Specification for merging two variants together.
#[derive(Debug, PartialEq, Eq)]
pub struct MergeSpec {
    /// First parent variant.
    pub parent_a: VariantId,
    /// Second parent variant.
    pub parent_b: VariantId,
    /// How much of variant A's technique to integrate.
    pub blend_a: BlendRatio,
    /// How much of variant B's technique to integrate.
    pub blend_b: BlendRatio,
}

/// Mathematical image of a merge specification.
#[verifier::ext_equal]
pub struct MergeSpecView {
    pub parent_a: Seq<char>,
    pub parent_b: Seq<char>,
    pub blend_a: BlendRatio,
    pub blend_b: BlendRatio,
}

impl DeepView for MergeSpec {
    type V = MergeSpecView;

    open spec fn deep_view(&self) -> MergeSpecView {
        MergeSpecView {
            parent_a: self.parent_a.deep_view(),
            parent_b: self.parent_b.deep_view(),
            blend_a: self.blend_a,
            blend_b: self.blend_b,
        }
    }
}

/// The one-line summary of a merge specification:
/// `<parent a> (<percent a>%) + <parent b> (<percent b>%)`.
pub open spec fn spec_merge_summary(m: MergeSpecView) -> Seq<char> {
    m.parent_a + " ("@ + m.blend_a.spec_percent_chars() + "%) + "@ + m.parent_b + " ("@
        + m.blend_b.spec_percent_chars() + "%)"@
}

impl MergeSpec {
    /// Bundle the two parents and their blend ratios.
    pub fn new(
        parent_a: VariantId,
        parent_b: VariantId,
        blend_a: BlendRatio,
        blend_b: BlendRatio,
    ) -> (r: Self)
        ensures
            r.deep_view() == (MergeSpecView {
                parent_a: parent_a.deep_view(),
                parent_b: parent_b.deep_view(),
                blend_a,
                blend_b,
            }),
    {
        let r = MergeSpec { parent_a, parent_b, blend_a, blend_b };
        proof {
            assert(r.deep_view() =~= MergeSpecView {
                parent_a: r.parent_a.deep_view(),
                parent_b: r.parent_b.deep_view(),
                blend_a,
                blend_b,
            });
        }
        r
    }

    /// Generate a human-readable summary for display.
    pub fn summary(&self) -> (r: String)
        ensures
            r@ == spec_merge_summary(self.deep_view()),
    {
        let mut r = self.parent_a.0.clone();
        r.append(" (");
        r.append(self.blend_a.percent_chars());
        r.append("%) + ");
        r.append(self.parent_b.0.as_str());
        r.append(" (");
        r.append(self.blend_b.percent_chars());
        r.append("%)");
        r
    }
}

/// A node in the merge lineage tree: a write-once, append-only record
/// of how a merged variant traces back to its original research
/// techniques. Parents are owned exclusively by the node — moved in,
/// never shared — so the tree is acyclic by construction.
#[derive(Debug, PartialEq, Eq)]
pub enum LineageNode {
    /// A leaf node — an original research-based variant.
    Original { variant_id: VariantId, technique_name: String, paper_id: String },
    /// A merge node — has two parent lineage nodes.
    Merged {
        variant_id: VariantId,
        blend_a: BlendRatio,
        blend_b: BlendRatio,
        parent_a: Box<LineageNode>,
        parent_b: Box<LineageNode>,
    },
}

/// Mathematical image of a lineage tree.
pub enum LineageNodeView {
    Original { variant_id: Seq<char>, technique_name: Seq<char>, paper_id: Seq<char> },
    Merged {
        variant_id: Seq<char>,
        blend_a: BlendRatio,
        blend_b: BlendRatio,
        parent_a: Box<LineageNodeView>,
        parent_b: Box<LineageNodeView>,
    },
}

impl LineageNodeView {
    /// The variant this node records the provenance of.
    pub open spec fn spec_variant_id(self) -> Seq<char> {
        match self {
            LineageNodeView::Original { variant_id, .. } => variant_id,
            LineageNodeView::Merged { variant_id, .. } => variant_id,
        }
    }

    /// The (technique name, paper id) pairs at the leaves of the tree,
    /// left to right.
    pub open spec fn spec_leaves(self) -> Seq<(Seq<char>, Seq<char>)>
        decreases self,
    {
        match self {
            LineageNodeView::Original { technique_name, paper_id, .. } => seq![
                (technique_name, paper_id),
            ],
            LineageNodeView::Merged { parent_a, parent_b, .. } => parent_a.spec_leaves()
                + parent_b.spec_leaves(),
        }
    }

    /// The multiset of (technique name, paper id) pairs attached over
    /// the tree's whole build history.
    pub open spec fn spec_attached(self) -> Multiset<(Seq<char>, Seq<char>)>
        decreases self,
    {
        match self {
            LineageNodeView::Original { technique_name, paper_id, .. } => Multiset::empty()
                .insert((technique_name, paper_id)),
            LineageNodeView::Merged { parent_a, parent_b, .. } => parent_a.spec_attached().add(
                parent_b.spec_attached(),
            ),
        }
    }
}

/// Mathematical image of a lineage tree.
pub open spec fn lineage_view(n: LineageNode) -> LineageNodeView
    decreases n,
{
    match n {
        LineageNode::Original { variant_id, technique_name, paper_id } => {
            LineageNodeView::Original {
                variant_id: variant_id.deep_view(),
                technique_name: technique_name.deep_view(),
                paper_id: paper_id.deep_view(),
            }
        },
        LineageNode::Merged { variant_id, blend_a, blend_b, parent_a, parent_b } => {
            LineageNodeView::Merged {
                variant_id: variant_id.deep_view(),
                blend_a,
                blend_b,
                parent_a: Box::new(lineage_view(*parent_a)),
                parent_b: Box::new(lineage_view(*parent_b)),
            }
        },
    }
}

impl DeepView for LineageNode {
    type V = LineageNodeView;

    open spec fn deep_view(&self) -> LineageNodeView {
        lineage_view(*self)
    }
}

impl LineageNode {
    /// The variant this node records the provenance of.
    pub fn variant_id(&self) -> (r: &VariantId)
        ensures
            r.deep_view() == self.deep_view().spec_variant_id(),
    {
        match self {
            LineageNode::Original { variant_id, .. } => variant_id,
            LineageNode::Merged { variant_id, .. } => variant_id,
        }
    }

    /// Create an `Original` leaf for a technique drawn from a paper.
    pub fn attach(variant_id: VariantId, technique_name: String, paper_id: String) -> (r:
        LineageNode)
        ensures
            r.deep_view() == (LineageNodeView::Original {
                variant_id: variant_id.deep_view(),
                technique_name: technique_name.deep_view(),
                paper_id: paper_id.deep_view(),
            }),
    {
        LineageNode::Original { variant_id, technique_name, paper_id }
    }

    /// Create a `Merged` node, taking exclusive ownership of both
    /// parent subtrees. The caller mints a fresh variant id for every
    /// merge, which keeps the tree acyclic.
    pub fn merge(
        variant_id: VariantId,
        parent_a: LineageNode,
        parent_b: LineageNode,
        blend_a: BlendRatio,
        blend_b: BlendRatio,
    ) -> (r: LineageNode)
        ensures
            r.deep_view() == (LineageNodeView::Merged {
                variant_id: variant_id.deep_view(),
                blend_a,
                blend_b,
                parent_a: Box::new(parent_a.deep_view()),
                parent_b: Box::new(parent_b.deep_view()),
            }),
            r.deep_view().spec_leaves() == parent_a.deep_view().spec_leaves()
                + parent_b.deep_view().spec_leaves(),
    {
        LineageNode::Merged {
            variant_id,
            blend_a,
            blend_b,
            parent_a: Box::new(parent_a),
            parent_b: Box::new(parent_b),
        }
    }

    /// Flatten the tree to its leaves: the (technique name, paper id)
    /// pairs, left to right.
    pub fn leaves(&self) -> (r: Vec<(String, String)>)
        ensures
            r.deep_view() == self.deep_view().spec_leaves(),
        decreases self,
    {
        match self {
            LineageNode::Original { technique_name, paper_id, .. } => {
                let mut v: Vec<(String, String)> = Vec::new();
                v.push((technique_name.clone(), paper_id.clone()));
                proof {
                    assert(v.deep_view() =~= self.deep_view().spec_leaves());
                }
                v
            },
            LineageNode::Merged { parent_a, parent_b, .. } => {
                let mut v = parent_a.leaves();
                let ghost left = v.deep_view();
                let mut right = parent_b.leaves();
                let ghost rightv = right.deep_view();
                v.append(&mut right);
                proof {
                    assert(v.deep_view() =~= left + rightv);
                }
                v
            },
        }
    }
}

/// Flattening a lineage tree to its leaves recovers exactly the
/// (technique, paper) pairs attached over its build history, with no
/// duplication or loss: the leaf sequence's multiset equals the multiset
/// of attached pairs.
pub proof fn lemma_lineage_leaves_roundtrip(n: LineageNodeView)
    ensures
        n.spec_leaves().to_multiset() == n.spec_attached(),
    decreases n,
{
    broadcast use vstd::seq_lib::group_to_multiset_ensures;
    broadcast use vstd::multiset::lemma_multiset_empty_len;

    match n {
        LineageNodeView::Original { technique_name, paper_id, .. } => {
            let pair = (technique_name, paper_id);
            let e = Seq::<(Seq<char>, Seq<char>)>::empty();
            assert(n.spec_leaves() =~= e.push(pair));
            assert(e.to_multiset().len() == 0);
            assert(e.to_multiset() =~= Multiset::empty());
            assert(e.push(pair).to_multiset() =~= e.to_multiset().insert(pair));
        },
        LineageNodeView::Merged { parent_a, parent_b, .. } => {
            lemma_lineage_leaves_roundtrip(*parent_a);
            lemma_lineage_leaves_roundtrip(*parent_b);
            lemma_multiset_commutative(parent_a.spec_leaves(), parent_b.spec_leaves());
        },
    }
}

} // verus!
