//! Static schedule verifier: cache-line alignment and SIMD width checks.
use vstd::prelude::*;
use crate::ir::{ScheduleIRNode, SchedulePipeline};
use crate::text::{decimal, decimal_text};
use vstd::arithmetic::power2::{pow2, lemma2_to64, lemma_pow2_unfold, lemma_pow2_pos, lemma_pow2_strictly_increases};

verus! {

/// A hardware safety rule that a schedule breaks.
#[derive(Debug, Clone, PartialEq, Eq)]
pub enum VerifierViolation {
    MisalignedCacheLine { node_name: String, tile_size: usize },
    InvalidVectorWidth { node_name: String, width: usize },
    EmptyPipeline,
}

/// A violation with the node name taken by its view.
pub ghost enum ViolationView {
    MisalignedCacheLine { node_name: Seq<char>, tile_size: usize },
    InvalidVectorWidth { node_name: Seq<char>, width: usize },
    EmptyPipeline,
}

impl View for VerifierViolation {
    type V = ViolationView;

    open spec fn view(&self) -> ViolationView {
        match self {
            VerifierViolation::MisalignedCacheLine { node_name, tile_size } => {
                ViolationView::MisalignedCacheLine { node_name: node_name@, tile_size: *tile_size }
            },
            VerifierViolation::InvalidVectorWidth { node_name, width } => {
                ViolationView::InvalidVectorWidth { node_name: node_name@, width: *width }
            },
            VerifierViolation::EmptyPipeline => ViolationView::EmptyPipeline,
        }
    }
}

/// `w` is a power of two.
pub open spec fn is_pow2(w: int) -> bool
    decreases w,
{
    if w <= 0 {
        false
    } else if w == 1 {
        true
    } else {
        w % 2 == 0 && is_pow2(w / 2)
    }
}

/// The tile of `node` is a whole number of 64-byte cache lines.
pub open spec fn tile_aligned(node: ScheduleIRNode) -> bool {
    node.tile_size % 64 == 0
}

/// The SIMD width of `node` is a power of two of at least four lanes.
pub open spec fn width_valid(node: ScheduleIRNode) -> bool {
    is_pow2(node.vector_width as int) && node.vector_width >= 4
}

/// The violations of one node, alignment first.
pub open spec fn node_violations(node: ScheduleIRNode) -> Seq<ViolationView> {
    (if tile_aligned(node) {
        Seq::<ViolationView>::empty()
    } else {
        seq![ViolationView::MisalignedCacheLine { node_name: node.name@, tile_size: node.tile_size }]
    }) + (if width_valid(node) {
        Seq::<ViolationView>::empty()
    } else {
        seq![ViolationView::InvalidVectorWidth { node_name: node.name@, width: node.vector_width }]
    })
}

/// The violations of a list of nodes, in node order.
pub open spec fn nodes_violations(nodes: Seq<ScheduleIRNode>) -> Seq<ViolationView>
    decreases nodes.len(),
{
    if nodes.len() == 0 {
        Seq::empty()
    } else {
        nodes_violations(nodes.drop_last()) + node_violations(nodes.last())
    }
}

/// Every node of `nodes` is aligned and has a valid SIMD width.
pub open spec fn all_nodes_valid(nodes: Seq<ScheduleIRNode>) -> bool {
    forall|i: int| 0 <= i < nodes.len() ==> tile_aligned(#[trigger] nodes[i]) && width_valid(nodes[i])
}

/// What verification reports for `nodes`: `None` for a valid schedule,
/// otherwise the list of violations.
pub open spec fn spec_report(nodes: Seq<ScheduleIRNode>) -> Option<Seq<ViolationView>> {
    if nodes.len() == 0 {
        Some(seq![ViolationView::EmptyPipeline])
    } else if nodes_violations(nodes).len() == 0 {
        None
    } else {
        Some(nodes_violations(nodes))
    }
}

/// Power-of-two test on a SIMD width.
pub fn is_power_of_two(w: usize) -> (b: bool)
    ensures
        b == is_pow2(w as int),
{
    if w == 0 {
        return false;
    }
    let mut x: usize = w;
    while x % 2 == 0
        invariant
            x > 0,
            is_pow2(x as int) == is_pow2(w as int),
        decreases x,
    {
        x = x / 2;
    }
    x == 1
}

/// `w` is a power of two exactly when it is `2^k` for some `k`.
proof fn lemma_is_pow2_exp(w: int)
    ensures
        is_pow2(w) <==> exists|k: nat| w == #[trigger] pow2(k),
    decreases w,
{
    if w <= 0 {
        assert forall|k: nat| w != #[trigger] pow2(k) by {
            lemma_pow2_pos(k);
        }
    } else if w == 1 {
        lemma2_to64();
    } else {
        lemma_is_pow2_exp(w / 2);
        if is_pow2(w) {
            let k = choose|k: nat| w / 2 == #[trigger] pow2(k);
            lemma_pow2_unfold(k + 1);
            assert(w == pow2(k + 1));
        }
        if exists|k: nat| w == #[trigger] pow2(k) {
            let k = choose|k: nat| w == #[trigger] pow2(k);
            if k == 0 {
                lemma2_to64();
                assert(false);
            } else {
                lemma_pow2_unfold(k);
                assert(w / 2 == pow2((k - 1) as nat));
            }
        }
    }
}

/// A node passes the width check exactly when its SIMD width is one of
/// 4, 8, 16, ...: `2^k` lanes for some `k >= 2`.
pub proof fn lemma_valid_widths(node: ScheduleIRNode)
    ensures
        width_valid(node) <==> exists|k: nat| k >= 2 && node.vector_width == #[trigger] pow2(k),
{
    let w = node.vector_width as int;
    lemma_is_pow2_exp(w);
    if width_valid(node) {
        let k = choose|k: nat| w == #[trigger] pow2(k);
        if k < 2 {
            lemma2_to64();
            assert(false);
        }
    }
    if exists|k: nat| k >= 2 && node.vector_width == #[trigger] pow2(k) {
        let k = choose|k: nat| k >= 2 && node.vector_width == #[trigger] pow2(k);
        lemma2_to64();
        if k > 2 {
            lemma_pow2_strictly_increases(2, k);
        }
    }
}

/// Static schedule checker.
pub struct Verifier;

impl Verifier {
    /// Static analysis pass over the schedule: an empty pipeline is refused
    /// alone; otherwise every node whose tile is not a multiple of 64 bytes
    /// and every node whose SIMD width is not a power of two of at least 4
    /// is reported, in node order, alignment before width.
    pub fn verify(pipeline: &SchedulePipeline) -> (r: Result<(), Vec<VerifierViolation>>)
        ensures
            r is Ok <==> spec_report(pipeline.nodes@) is None,
            r matches Err(errs) ==> Some(errs@.map_values(|v: VerifierViolation| v@))
                == spec_report(pipeline.nodes@),
            r is Ok <==> pipeline.nodes@.len() > 0 && all_nodes_valid(pipeline.nodes@),
    {
        let mut errors: Vec<VerifierViolation> = Vec::new();
        let n = pipeline.nodes.len();
        if n == 0 {
            errors.push(VerifierViolation::EmptyPipeline);
            proof {
                assert(errors@.map_values(|v: VerifierViolation| v@) =~= seq![
                    ViolationView::EmptyPipeline,
                ]);
            }
            return Err(errors);
        }
        let mut i: usize = 0;
        proof {
            assert(pipeline.nodes@.take(0) =~= Seq::<ScheduleIRNode>::empty());
        }
        while i < n
            invariant
                n == pipeline.nodes@.len(),
                i <= n,
                errors@.map_values(|v: VerifierViolation| v@) == nodes_violations(
                    pipeline.nodes@.take(i as int),
                ),
            decreases n - i,
        {
            let node = &pipeline.nodes[i];
            let ghost before = errors@;
            proof {
                assert(pipeline.nodes@.take(i + 1).drop_last() =~= pipeline.nodes@.take(i as int));
            }
            if node.tile_size % 64 != 0 {
                errors.push(
                    VerifierViolation::MisalignedCacheLine {
                        node_name: node.name.clone(),
                        tile_size: node.tile_size,
                    },
                );
            }
            let ghost mid = errors@;
            if !is_power_of_two(node.vector_width) || node.vector_width < 4 {
                errors.push(
                    VerifierViolation::InvalidVectorWidth {
                        node_name: node.name.clone(),
                        width: node.vector_width,
                    },
                );
            }
            proof {
                assert(errors@.map_values(|v: VerifierViolation| v@) =~= before.map_values(
                    |v: VerifierViolation| v@,
                ) + node_violations(*node));
            }
            i = i + 1;
        }
        proof {
            assert(pipeline.nodes@.take(n as int) =~= pipeline.nodes@);
            lemma_no_violations_iff_valid(pipeline.nodes@);
        }
        if errors.len() == 0 {
            Ok(())
        } else {
            Err(errors)
        }
    }
}

/// The text that `{:?}` prints for a string with contents `s`: the
/// contents quoted and escaped.
pub uninterp spec fn quoted_debug_text(s: Seq<char>) -> Seq<char>;

/// The quoted form of `s` (`format!("{:?}", s)`).
#[verifier::external_body]
fn quoted_debug(s: &str) -> (q: String)
    ensures
        q@ == quoted_debug_text(s@),
{
    format!("{:?}", s)
}

/// The node name a violation carries (empty for an empty pipeline).
pub open spec fn violation_node_name(v: ViolationView) -> Seq<char> {
    match v {
        ViolationView::MisalignedCacheLine { node_name, .. } => node_name,
        ViolationView::InvalidVectorWidth { node_name, .. } => node_name,
        ViolationView::EmptyPipeline => Seq::empty(),
    }
}

/// The `{:?}` text of a violation whose node name prints as `quoted_name`.
pub open spec fn violation_text_with(v: ViolationView, quoted_name: Seq<char>) -> Seq<char> {
    match v {
        ViolationView::MisalignedCacheLine { tile_size, .. } => "MisalignedCacheLine { node_name: "@
            + quoted_name + ", tile_size: "@ + decimal_text(tile_size as nat) + " }"@,
        ViolationView::InvalidVectorWidth { width, .. } => "InvalidVectorWidth { node_name: "@
            + quoted_name + ", width: "@ + decimal_text(width as nat) + " }"@,
        ViolationView::EmptyPipeline => "EmptyPipeline"@,
    }
}

/// The `{:?}` text of a violation.
pub open spec fn violation_text(v: ViolationView) -> Seq<char> {
    violation_text_with(v, quoted_debug_text(violation_node_name(v)))
}

/// The texts of a list of violations, separated by `", "`.
pub open spec fn joined_violations_text(vs: Seq<ViolationView>) -> Seq<char>
    decreases vs.len(),
{
    if vs.len() == 0 {
        Seq::empty()
    } else if vs.len() == 1 {
        violation_text(vs[0])
    } else {
        joined_violations_text(vs.drop_last()) + ", "@ + violation_text(vs.last())
    }
}

/// The `{:?}` text of a list of violations: their texts in brackets.
pub open spec fn violations_text(vs: Seq<ViolationView>) -> Seq<char> {
    "["@ + joined_violations_text(vs) + "]"@
}

/// The `{:?}` text of `v`, given the printed form `quoted_name` of its node
/// name.
pub fn violation_debug_with(v: &VerifierViolation, quoted_name: &str) -> (s: String)
    ensures
        s@ == violation_text_with(v@, quoted_name@),
{
    match v {
        VerifierViolation::MisalignedCacheLine { tile_size, .. } => {
            let mut s = String::from_str("MisalignedCacheLine { node_name: ");
            s.append(quoted_name);
            s.append(", tile_size: ");
            s.append(decimal(*tile_size as u64).as_str());
            s.append(" }");
            s
        },
        VerifierViolation::InvalidVectorWidth { width, .. } => {
            let mut s = String::from_str("InvalidVectorWidth { node_name: ");
            s.append(quoted_name);
            s.append(", width: ");
            s.append(decimal(*width as u64).as_str());
            s.append(" }");
            s
        },
        VerifierViolation::EmptyPipeline => String::from_str("EmptyPipeline"),
    }
}

/// The `{:?}` text of a violation.
pub fn violation_debug(v: &VerifierViolation) -> (s: String)
    ensures
        s@ == violation_text(v@),
{
    match v {
        VerifierViolation::MisalignedCacheLine { node_name, .. } => {
            let q = quoted_debug(node_name.as_str());
            violation_debug_with(v, q.as_str())
        },
        VerifierViolation::InvalidVectorWidth { node_name, .. } => {
            let q = quoted_debug(node_name.as_str());
            violation_debug_with(v, q.as_str())
        },
        VerifierViolation::EmptyPipeline => violation_debug_with(v, ""),
    }
}

/// The `{:?}` text of a list of violations, as a refused schedule's error
/// message shows it.
pub fn violations_debug(vs: &Vec<VerifierViolation>) -> (s: String)
    ensures
        s@ == violations_text(vs@.map_values(|v: VerifierViolation| v@)),
{
    let n = vs.len();
    let ghost views = vs@.map_values(|v: VerifierViolation| v@);
    let mut s = String::from_str("[");
    let mut i: usize = 0;
    proof {
        assert(views.take(0) =~= Seq::<ViolationView>::empty());
    }
    while i < n
        invariant
            n == vs@.len(),
            views == vs@.map_values(|v: VerifierViolation| v@),
            i <= n,
            s@ == "["@ + joined_violations_text(views.take(i as int)),
        decreases n - i,
    {
        proof {
            assert(views.take(i + 1).drop_last() =~= views.take(i as int));
            assert(views.take(i + 1).last() == vs@[i as int]@);
        }
        if i > 0 {
            s.append(", ");
        }
        let t = violation_debug(&vs[i]);
        s.append(t.as_str());
        proof {
            if i == 0 {
                assert(views.take(1).len() == 1);
            }
        }
        i = i + 1;
    }
    proof {
        assert(views.take(n as int) =~= views);
    }
    s.append("]");
    s
}

/// Appending a node to a pipeline: the extended pipeline passes the checks
/// exactly when the original has no violations and the new node is aligned
/// with a valid width, and its violations are those of the original
/// followed by those of the new node.
pub proof fn lemma_add_node_verdict(before: SchedulePipeline, node: ScheduleIRNode, after: SchedulePipeline)
    requires
        after.nodes@ == before.nodes@.push(node),
    ensures
        nodes_violations(after.nodes@) == nodes_violations(before.nodes@) + node_violations(node),
        spec_report(after.nodes@) is None <==> nodes_violations(before.nodes@).len() == 0
            && tile_aligned(node) && width_valid(node),
{
    assert(after.nodes@.drop_last() =~= before.nodes@);
    assert(after.nodes@.last() == node);
}

/// A node made by `ScheduleIRNode::new` is always cache-line aligned, and it
/// passes the checks exactly when its width is a power of two of at least 4.
pub proof fn lemma_new_node_checks(node: ScheduleIRNode)
    requires
        node.tile_size == 64,
    ensures
        tile_aligned(node),
        node_violations(node).len() == 0 <==> width_valid(node),
{
}

/// A list of nodes has no violations exactly when every node is valid.
proof fn lemma_no_violations_iff_valid(nodes: Seq<ScheduleIRNode>)
    ensures
        nodes_violations(nodes).len() == 0 <==> all_nodes_valid(nodes),
    decreases nodes.len(),
{
    if nodes.len() > 0 {
        let init = nodes.drop_last();
        lemma_no_violations_iff_valid(init);
        if all_nodes_valid(nodes) {
            assert forall|i: int| 0 <= i < init.len() implies tile_aligned(#[trigger] init[i])
                && width_valid(init[i]) by {
                assert(init[i] == nodes[i]);
            }
            assert(tile_aligned(nodes[nodes.len() - 1]));
        }
        if all_nodes_valid(init) && node_violations(nodes.last()).len() == 0 {
            assert forall|i: int| 0 <= i < nodes.len() implies tile_aligned(#[trigger] nodes[i])
                && width_valid(nodes[i]) by {
                if i < init.len() {
                    assert(init[i] == nodes[i]);
                }
            }
        }
    }
}

} // verus!
