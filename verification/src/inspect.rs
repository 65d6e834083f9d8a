//! The human-readable hardware execution plan: three tables (summary,
//! schedule nodes, memory layout) rendered with `comfy_table`.
use vstd::prelude::*;
use comfy_table::Table;
use comfy_table::modifiers::UTF8_ROUND_CORNERS;
use comfy_table::presets::UTF8_FULL;
use crate::arena::{BufferSlot, LayoutPlan};
use crate::ir::{PointwiseOp, ScheduleIRNode, SchedulePipeline};
use crate::schema::{role_label, role_name, same_algorithm, sum_elements, total_elements};
use crate::text::{decimal, decimal02, decimal_text, hex08, padded_digits_text, padded_hex_text};

verus! {

/// A `comfy_table` table.
#[verifier::external_type_specification]
#[verifier::external_body]
pub struct ExTable(Table);

/// The header of a table: no row, or the one header row, each cell by its
/// text.
pub uninterp spec fn table_header(t: Table) -> Seq<Seq<Seq<char>>>;

/// The data rows of a table, in insertion order, each cell by its text.
pub uninterp spec fn table_rows(t: Table) -> Seq<Seq<Seq<char>>>;

/// The drawing character of each styled table component, by the
/// component's position in `comfy_table::TableComponent`.
pub uninterp spec fn table_style(t: Table) -> Map<int, char>;

/// The table keeps the layout settings of a new table: content arrangement
/// disabled, no fixed width, no column constraints.
pub uninterp spec fn table_default_layout(t: Table) -> bool;

/// The text that `comfy_table` renders for a table with default layout
/// settings, the given header, rows and component style.
pub uninterp spec fn rendered_table(
    header: Seq<Seq<Seq<char>>>,
    rows: Seq<Seq<Seq<char>>>,
    style: Map<int, char>,
) -> Seq<char>;

/// The number of stylable table components.
pub open spec fn component_count() -> int {
    19
}

/// The style after loading `preset`: component `k` takes character `k` of
/// the preset, or loses its style where that character is a space;
/// components past the preset's end keep their style.
pub open spec fn preset_style(style: Map<int, char>, preset: Seq<char>) -> Map<int, char> {
    Map::new(
        |k: int|
            0 <= k < component_count() && if k < preset.len() {
                preset[k] != ' '
            } else {
                style.contains_key(k)
            },
        |k: int|
            if k < preset.len() {
                preset[k]
            } else {
                style[k]
            },
    )
}

/// The style after applying `modifier`: component `k` takes character `k`
/// of the modifier unless that character is a space.
pub open spec fn modified_style(style: Map<int, char>, modifier: Seq<char>) -> Map<int, char> {
    Map::new(
        |k: int| style.contains_key(k) || (0 <= k < component_count() && k < modifier.len() && modifier[k] != ' '),
        |k: int|
            if 0 <= k < component_count() && k < modifier.len() && modifier[k] != ' ' {
                modifier[k]
            } else {
                style[k]
            },
    )
}

/// The characters of `comfy_table::presets::UTF8_FULL`, one per
/// component.
pub open spec fn utf8_full_preset() -> Seq<char> {
    seq!['\u{2502}', '\u{2502}', '\u{2500}', '\u{2500}', '\u{255e}', '\u{2550}', '\u{256a}', '\u{2561}', '\u{2506}', '\u{254c}', '\u{253c}', '\u{251c}', '\u{2524}', '\u{252c}', '\u{2534}', '\u{250c}', '\u{2510}', '\u{2514}', '\u{2518}']
}

/// The characters of `comfy_table::modifiers::UTF8_ROUND_CORNERS`: the
/// four corners are round, every other component is left alone.
pub open spec fn round_corners_modifier() -> Seq<char> {
    seq![' ', ' ', ' ', ' ', ' ', ' ', ' ', ' ', ' ', ' ', ' ', ' ', ' ', ' ', ' ', '\u{256d}', '\u{256e}', '\u{2570}', '\u{256f}']
}

/// Cell texts of a row.
pub open spec fn cells(row: Vec<String>) -> Seq<Seq<char>> {
    row@.map_values(|s: String| s@)
}

/// `Table::new`: a table with no header and no rows and the default layout
/// settings. Its default style is not stated here.
#[verifier::external_body]
fn table_new() -> (t: Table)
    ensures
        table_header(t) == Seq::<Seq<Seq<char>>>::empty(),
        table_rows(t) == Seq::<Seq<Seq<char>>>::empty(),
        table_default_layout(t),
{
    Table::new()
}

/// `Table::load_preset` with the `UTF8_FULL` preset: restyles the
/// components as `preset_style` describes for that preset, leaving header,
/// rows and layout.
#[verifier::external_body]
fn table_load_utf8_full(t: &mut Table)
    ensures
        table_header(*final(t)) == table_header(*old(t)),
        table_rows(*final(t)) == table_rows(*old(t)),
        table_style(*final(t)) == preset_style(table_style(*old(t)), utf8_full_preset()),
        table_default_layout(*final(t)) == table_default_layout(*old(t)),
{
    t.load_preset(UTF8_FULL);
}

/// `Table::apply_modifier` with the `UTF8_ROUND_CORNERS` modifier:
/// restyles the components as `modified_style` describes for that
/// modifier, leaving header, rows and layout.
#[verifier::external_body]
fn table_apply_round_corners(t: &mut Table)
    ensures
        table_header(*final(t)) == table_header(*old(t)),
        table_rows(*final(t)) == table_rows(*old(t)),
        table_style(*final(t)) == modified_style(table_style(*old(t)), round_corners_modifier()),
        table_default_layout(*final(t)) == table_default_layout(*old(t)),
{
    t.apply_modifier(UTF8_ROUND_CORNERS);
}

/// `Table::set_header`: makes `row` the header, leaving rows, style and
/// layout.
#[verifier::external_body]
fn table_set_header(t: &mut Table, row: Vec<String>)
    ensures
        table_header(*final(t)) == seq![cells(row)],
        table_rows(*final(t)) == table_rows(*old(t)),
        table_style(*final(t)) == table_style(*old(t)),
        table_default_layout(*final(t)) == table_default_layout(*old(t)),
{
    t.set_header(row);
}

/// `Table::add_row`: appends `row`, leaving header, style and layout.
#[verifier::external_body]
fn table_add_row(t: &mut Table, row: Vec<String>)
    ensures
        table_header(*final(t)) == table_header(*old(t)),
        table_rows(*final(t)) == table_rows(*old(t)).push(cells(row)),
        table_style(*final(t)) == table_style(*old(t)),
        table_default_layout(*final(t)) == table_default_layout(*old(t)),
{
    t.add_row(row);
}

/// `Table`'s `Display` (through `to_string`): the rendering of the
/// table's header, rows and style, for a table with default layout.
#[verifier::external_body]
fn table_render(t: &Table) -> (s: String)
    requires
        table_default_layout(*t),
    ensures
        s@ == rendered_table(table_header(*t), table_rows(*t), table_style(*t)),
{
    t.to_string()
}

/// The style of every plan table: full UTF-8 box drawing with round
/// corners.
pub open spec fn plan_style() -> Map<int, char> {
    modified_style(preset_style(Map::empty(), utf8_full_preset()), round_corners_modifier())
}

/// A plan table with the given header and rows.
pub open spec fn plan_table_text(header: Seq<Seq<char>>, rows: Seq<Seq<Seq<char>>>) -> Seq<char> {
    rendered_table(seq![header], rows, plan_style())
}

/// Renders a plan table.
fn plan_table(header: Vec<String>, rows: Vec<Vec<String>>) -> (s: String)
    ensures
        s@ == plan_table_text(cells(header), rows@.map_values(|r: Vec<String>| cells(r))),
{
    let mut t = table_new();
    let ghost initial = table_style(t);
    table_load_utf8_full(&mut t);
    proof {
        assert(preset_style(initial, utf8_full_preset()) =~= preset_style(
            Map::empty(),
            utf8_full_preset(),
        ));
    }
    table_apply_round_corners(&mut t);
    table_set_header(&mut t, header);
    let n = rows.len();
    let mut i: usize = 0;
    while i < n
        invariant
            n == rows@.len(),
            i <= n,
            table_header(t) == seq![cells(header)],
            table_style(t) == plan_style(),
            table_default_layout(t),
            table_rows(t) == rows@.take(i as int).map_values(|r: Vec<String>| cells(r)),
        decreases n - i,
    {
        proof {
            assert(rows@.take(i + 1).map_values(|r: Vec<String>| cells(r)) =~= rows@.take(
                i as int,
            ).map_values(|r: Vec<String>| cells(r)).push(cells(rows@[i as int])));
        }
        table_add_row(&mut t, rows[i].clone());
        i = i + 1;
    }
    proof {
        assert(rows@.take(n as int) =~= rows@);
    }
    table_render(&t)
}

/// The printed forms of the floating-point sizes in a plan: the active
/// memory in MB, and the size in MB of each listed slot, both with two
/// decimals.
#[derive(Debug, Clone)]
pub struct PlanSizeText {
    pub active_memory_mb: String,
    pub slot_sizes_mb: Vec<String>,
}

/// The name of the algorithm of `op` in a plan.
pub open spec fn plan_algorithm(op: PointwiseOp) -> Seq<char> {
    match op {
        PointwiseOp::AdamW { .. } => "AdamW"@,
        PointwiseOp::Lion { .. } => "Lion"@,
        PointwiseOp::SGD { .. } => "SGD"@,
        PointwiseOp::CustomDAG { .. } => "Custom DAG"@,
    }
}

/// Where the kernel parameters of a plan come from.
pub open spec fn profile_source(tuned: bool) -> Seq<char> {
    if tuned {
        "Tuned Profile (~/.cache/tikun/profile.json)"@
    } else {
        "In-Memory Silicon Topology Prober"@
    }
}

/// The rows of the summary table.
pub open spec fn summary_rows(
    op: PointwiseOp,
    tuned: bool,
    layout: LayoutPlan,
    tile_kb: usize,
    unroll: usize,
    prefetch: usize,
    workers: usize,
    active_memory_mb: Seq<char>,
) -> Seq<Seq<Seq<char>>> {
    seq![
        seq!["Algorithm"@, plan_algorithm(op)],
        seq!["Profile Source"@, profile_source(tuned)],
        seq![
            "Active Memory"@,
            active_memory_mb + " MB ("@ + decimal_text(sum_elements(layout.slots@) as nat) + " floats)"@,
        ],
        seq![
            "Cache Alignment"@,
            if layout.cache_aligned {
                "64-Byte Aligned"@
            } else {
                "Unaligned"@
            },
        ],
        seq!["L2 Cache Tile"@, decimal_text(tile_kb as nat) + " KB"@],
        seq![
            "SIMD Unroll"@,
            decimal_text(unroll as nat) + "x ("@ + decimal_text((unroll * 4) as nat) + " floats/cycle)"@,
        ],
        seq!["Prefetch Offset"@, decimal_text(prefetch as nat) + " Bytes"@],
        seq!["Parallel Workers"@, decimal_text(workers as nat) + " Threads"@],
    ]
}

/// The row of a schedule node.
pub open spec fn node_row(node: ScheduleIRNode) -> Seq<Seq<char>> {
    seq![
        role_name(node.role),
        node.name@,
        decimal_text(node.tile_size as nat) + " B"@,
        decimal_text(node.unroll_factor as nat) + "x"@,
        decimal_text(node.vector_width as nat) + " lanes"@,
        decimal_text(node.prefetch_distance as nat) + " B"@,
    ]
}

/// The row of an arena slot whose size prints as `size_mb`.
pub open spec fn slot_row(slot: BufferSlot, size_mb: Seq<char>) -> Seq<Seq<char>> {
    seq![
        padded_digits_text(slot.slot_id as nat, 10, 2),
        "0x"@ + padded_hex_text(slot.byte_offset as nat, 8),
        decimal_text(slot.num_elements as nat),
        size_mb + " MB"@,
        if slot.byte_offset % 64 == 0 {
            "64-B Aligned"@
        } else {
            "Unaligned"@
        },
    ]
}

/// The number of slots the memory table lists.
pub open spec fn listed_slots(n: int) -> int {
    if n < 8 {
        n
    } else {
        8
    }
}

/// The rows of the memory table.
pub open spec fn slot_rows(slots: Seq<BufferSlot>, sizes: Seq<String>) -> Seq<Seq<Seq<char>>> {
    Seq::new(listed_slots(slots.len() as int) as nat, |i: int| slot_row(slots[i], sizes[i]@))
}

/// The note on the slots the memory table leaves out.
pub open spec fn unlisted_note(n: int) -> Seq<char> {
    if n > 8 {
        "\n... and "@ + decimal_text((n - 8) as nat) + " additional parameter slots"@
    } else {
        Seq::empty()
    }
}

/// The summary table opens with the Algorithm row, which names the op's
/// own algorithm (`AdamW`, `Lion`, `SGD`, `Custom DAG`); two ops get the
/// same name exactly when they run the same algorithm. The next rows give
/// the profile source, and the tile, unroll, prefetch and worker rows carry
/// the values they are labelled with.
pub proof fn lemma_plan_summary_rows(
    op: PointwiseOp,
    other: PointwiseOp,
    tuned: bool,
    layout: LayoutPlan,
    tile_kb: usize,
    unroll: usize,
    prefetch: usize,
    workers: usize,
    active_memory_mb: Seq<char>,
)
    ensures
        ({
            let rows = summary_rows(op, tuned, layout, tile_kb, unroll, prefetch, workers, active_memory_mb);
            &&& rows.len() == 8
            &&& rows[0][0] == "Algorithm"@
            &&& op is AdamW ==> rows[0][1] == "AdamW"@
            &&& op is Lion ==> rows[0][1] == "Lion"@
            &&& op is SGD ==> rows[0][1] == "SGD"@
            &&& op is CustomDAG ==> rows[0][1] == "Custom DAG"@
            &&& plan_algorithm(op) == plan_algorithm(other) <==> same_algorithm(op, other)
            &&& rows[1] == seq![
                "Profile Source"@,
                if tuned {
                    "Tuned Profile (~/.cache/tikun/profile.json)"@
                } else {
                    "In-Memory Silicon Topology Prober"@
                },
            ]
            &&& rows[4] == seq!["L2 Cache Tile"@, decimal_text(tile_kb as nat) + " KB"@]
            &&& rows[5][0] == "SIMD Unroll"@
            &&& rows[5][1] == decimal_text(unroll as nat) + "x ("@ + decimal_text((unroll * 4) as nat)
                + " floats/cycle)"@
            &&& rows[6] == seq!["Prefetch Offset"@, decimal_text(prefetch as nat) + " Bytes"@]
            &&& rows[7] == seq!["Parallel Workers"@, decimal_text(workers as nat) + " Threads"@]
        }),
{
    reveal_strlit("AdamW");
    reveal_strlit("Lion");
    reveal_strlit("SGD");
    reveal_strlit("Custom DAG");
    assert("AdamW"@.len() == 5 && "Lion"@.len() == 4 && "SGD"@.len() == 3 && "Custom DAG"@.len() == 10);
    if plan_algorithm(op) == plan_algorithm(other) {
        assert(plan_algorithm(op).len() == plan_algorithm(other).len());
    }
}

/// The text of the plan.
pub open spec fn plan_report_text(
    pipeline: SchedulePipeline,
    layout: LayoutPlan,
    op: PointwiseOp,
    tile_kb: usize,
    unroll: usize,
    prefetch: usize,
    workers: usize,
    tuned: bool,
    sizes: PlanSizeText,
) -> Seq<char> {
    "\n--- Hardware Execution Plan ---\n"@ + plan_table_text(
        seq!["Property"@, "Value"@],
        summary_rows(op, tuned, layout, tile_kb, unroll, prefetch, workers, sizes.active_memory_mb@),
    ) + "\n\nSchedule Nodes:\n"@ + plan_table_text(
        seq!["Role"@, "Op Name"@, "Tile Size"@, "Unroll"@, "Width"@, "Prefetch"@],
        pipeline.nodes@.map_values(|n: ScheduleIRNode| node_row(n)),
    ) + "\n\nMemory Layout:\n"@ + plan_table_text(
        seq!["Slot"@, "Offset"@, "Elements"@, "Size"@, "Alignment"@],
        slot_rows(layout.slots@, sizes.slot_sizes_mb@),
    ) + unlisted_note(layout.slots@.len() as int) + "\n"@
}

fn text(s: &str) -> (r: String)
    ensures
        r@ == s@,
{
    String::from_str(s)
}

fn joined(a: &str, b: &str) -> (r: String)
    ensures
        r@ == a@ + b@,
{
    let mut r = String::from_str(a);
    r.append(b);
    r
}

fn algorithm_name(op: &PointwiseOp) -> (s: &'static str)
    ensures
        s@ == plan_algorithm(*op),
{
    match op {
        PointwiseOp::AdamW { .. } => "AdamW",
        PointwiseOp::Lion { .. } => "Lion",
        PointwiseOp::SGD { .. } => "SGD",
        PointwiseOp::CustomDAG { .. } => "Custom DAG",
    }
}

fn node_cells(node: &ScheduleIRNode) -> (r: Vec<String>)
    ensures
        cells(r) == node_row(*node),
{
    let r = vec![
        role_label(node.role),
        node.name.clone(),
        joined(decimal(node.tile_size as u64).as_str(), " B"),
        joined(decimal(node.unroll_factor as u64).as_str(), "x"),
        joined(decimal(node.vector_width as u64).as_str(), " lanes"),
        joined(decimal(node.prefetch_distance as u64).as_str(), " B"),
    ];
    proof {
        assert(cells(r) =~= node_row(*node));
    }
    r
}

fn slot_cells(slot: &BufferSlot, size_mb: &String) -> (r: Vec<String>)
    ensures
        cells(r) == slot_row(*slot, size_mb@),
{
    let r = vec![
        decimal02(slot.slot_id as u64),
        joined("0x", hex08(slot.byte_offset as u64).as_str()),
        decimal(slot.num_elements as u64),
        joined(size_mb.as_str(), " MB"),
        text(
            if slot.byte_offset % 64 == 0 {
                "64-B Aligned"
            } else {
                "Unaligned"
            },
        ),
    ];
    proof {
        assert(cells(r) =~= slot_row(*slot, size_mb@));
    }
    r
}

/// Builder of human-readable hardware execution plans.
pub struct HardwarePlan;

impl HardwarePlan {
    /// The hardware execution plan: a summary table (algorithm, profile
    /// source, active memory, alignment, tile, unroll, prefetch, workers),
    /// a table of the schedule nodes, and a table of the first eight arena
    /// slots with a count of the others. `profile_is_tuned` tells whether
    /// the kernel parameters come from a tuned profile; `sizes` holds the
    /// printed floating-point sizes.
    pub fn report(
        pipeline: &SchedulePipeline,
        layout: &LayoutPlan,
        op: PointwiseOp,
        tile_kb: usize,
        unroll: usize,
        prefetch: usize,
        workers: usize,
        profile_is_tuned: bool,
        sizes: &PlanSizeText,
    ) -> (out: String)
        requires
            sum_elements(layout.slots@) <= usize::MAX,
            unroll * 4 <= usize::MAX,
            sizes.slot_sizes_mb@.len() >= listed_slots(layout.slots@.len() as int),
        ensures
            out@ == plan_report_text(
                *pipeline,
                *layout,
                op,
                tile_kb,
                unroll,
                prefetch,
                workers,
                profile_is_tuned,
                *sizes,
            ),
    {
        let total = match total_elements(layout) {
            Some(t) => t,
            None => 0,
        };
        let mut memory = joined(sizes.active_memory_mb.as_str(), " MB (");
        memory.append(decimal(total as u64).as_str());
        memory.append(" floats)");
        let mut simd = joined(decimal(unroll as u64).as_str(), "x (");
        simd.append(decimal((unroll * 4) as u64).as_str());
        simd.append(" floats/cycle)");
        let summary: Vec<Vec<String>> = vec![
            vec![text("Algorithm"), text(algorithm_name(&op))],
            vec![
                text("Profile Source"),
                text(
                    if profile_is_tuned {
                        "Tuned Profile (~/.cache/tikun/profile.json)"
                    } else {
                        "In-Memory Silicon Topology Prober"
                    },
                ),
            ],
            vec![text("Active Memory"), memory],
            vec![
                text("Cache Alignment"),
                text(
                    if layout.cache_aligned {
                        "64-Byte Aligned"
                    } else {
                        "Unaligned"
                    },
                ),
            ],
            vec![text("L2 Cache Tile"), joined(decimal(tile_kb as u64).as_str(), " KB")],
            vec![text("SIMD Unroll"), simd],
            vec![text("Prefetch Offset"), joined(decimal(prefetch as u64).as_str(), " Bytes")],
            vec![text("Parallel Workers"), joined(decimal(workers as u64).as_str(), " Threads")],
        ];
        proof {
            let want = summary_rows(
                op,
                profile_is_tuned,
                *layout,
                tile_kb,
                unroll,
                prefetch,
                workers,
                sizes.active_memory_mb@,
            );
            assert(total == sum_elements(layout.slots@));
            assert forall|k: int| 0 <= k < 8 implies cells(#[trigger] summary@[k]) =~= want[k] by {
                if k == 2 {
                    assert(cells(summary@[2]) =~= want[2]);
                }
            }
            assert(summary@.map_values(|r: Vec<String>| cells(r)) =~= want);
        }
        let summary_header = vec![text("Property"), text("Value")];
        proof {
            assert(cells(summary_header) =~= seq!["Property"@, "Value"@]);
        }

        let n = pipeline.nodes.len();
        let mut node_rows: Vec<Vec<String>> = Vec::with_capacity(n);
        let mut i: usize = 0;
        while i < n
            invariant
                n == pipeline.nodes@.len(),
                i <= n,
                node_rows@.len() == i,
                forall|k: int| 0 <= k < i ==> cells(#[trigger] node_rows@[k]) == node_row(pipeline.nodes@[k]),
            decreases n - i,
        {
            node_rows.push(node_cells(&pipeline.nodes[i]));
            i = i + 1;
        }
        proof {
            assert(node_rows@.map_values(|r: Vec<String>| cells(r)) =~= pipeline.nodes@.map_values(
                |nd: ScheduleIRNode| node_row(nd),
            ));
        }
        let node_header = vec![
            text("Role"),
            text("Op Name"),
            text("Tile Size"),
            text("Unroll"),
            text("Width"),
            text("Prefetch"),
        ];
        proof {
            assert(cells(node_header) =~= seq![
                "Role"@,
                "Op Name"@,
                "Tile Size"@,
                "Unroll"@,
                "Width"@,
                "Prefetch"@,
            ]);
        }

        let slot_count = layout.slots.len();
        let listed = if slot_count < 8 {
            slot_count
        } else {
            8
        };
        let mut slot_table: Vec<Vec<String>> = Vec::with_capacity(listed);
        let mut j: usize = 0;
        while j < listed
            invariant
                slot_count == layout.slots@.len(),
                listed == listed_slots(slot_count as int),
                sizes.slot_sizes_mb@.len() >= listed,
                j <= listed,
                slot_table@.len() == j,
                forall|k: int|
                    0 <= k < j ==> cells(#[trigger] slot_table@[k]) == slot_row(
                        layout.slots@[k],
                        sizes.slot_sizes_mb@[k]@,
                    ),
            decreases listed - j,
        {
            slot_table.push(slot_cells(&layout.slots[j], &sizes.slot_sizes_mb[j]));
            j = j + 1;
        }
        proof {
            assert(slot_table@.map_values(|r: Vec<String>| cells(r)) =~= slot_rows(
                layout.slots@,
                sizes.slot_sizes_mb@,
            ));
        }
        let slot_header = vec![
            text("Slot"),
            text("Offset"),
            text("Elements"),
            text("Size"),
            text("Alignment"),
        ];
        proof {
            assert(cells(slot_header) =~= seq!["Slot"@, "Offset"@, "Elements"@, "Size"@, "Alignment"@]);
        }

        let mut out = text("\n--- Hardware Execution Plan ---\n");
        out.append(plan_table(summary_header, summary).as_str());
        out.append("\n\nSchedule Nodes:\n");
        out.append(plan_table(node_header, node_rows).as_str());
        out.append("\n\nMemory Layout:\n");
        out.append(plan_table(slot_header, slot_table).as_str());
        if slot_count > 8 {
            out.append("\n... and ");
            out.append(decimal((slot_count - 8) as u64).as_str());
            out.append(" additional parameter slots");
        }
        out.append("\n");
        out
    }
}

} // verus!
