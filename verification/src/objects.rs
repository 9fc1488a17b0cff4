//! The playbacks response tree: the console's deeply nested executor
//! snapshot, and the flattening that extracts the fader levels in document
//! order.
//!
//! Fader levels stand here as [`Normalized`] fractions; the unverified rim
//! converts them from the wire floats when it parses the frame. Only the
//! fader level of each executor block is consumed by the bridge; the other
//! fields are carried for completeness.

use vstd::prelude::*;

use crate::normalized::Normalized;

verus! {

/// An executor's label: its text and color.
pub struct UnknownType1 {
    pub t: String,
    pub color: String,
}

/// A single-text wrapper appearing at several places of the snapshot.
pub struct UnknownType2 {
    pub t: String,
}

/// The cue list of an executor; its fields are not consumed.
pub struct Cues {}

/// One reported button of an executor block.
pub struct Button {
    pub id: i32,
    pub type_string: String,
    /// The console-side pressed state; parsed but not acted on.
    pub pressed: bool,
    pub text_color: String,
    pub background_color: Option<String>,
}

/// One reported fader of an executor block.
pub struct Fader {
    pub background_color: Option<String>,
    pub tt: Option<String>,
    /// The fader level on the console's normalized scale.
    pub value: Normalized,
    pub value_string: Option<String>,
}

/// The `(button1, button2, button3, fader)` tuple of one executor.
pub struct ExecutorBlock {
    pub button1: Button,
    pub button2: Button,
    pub button3: Button,
    pub fader: Fader,
}

/// One executor of the snapshot.
pub struct Executor {
    pub i: UnknownType1,
    pub o_type: UnknownType2,
    pub o_i: UnknownType2,
    pub tt: UnknownType2,
    pub text_color: String,
    pub background_color: String,
    pub cues: Cues,
    pub combined_executor_blocks: i32,
    pub i_exec: i32,
    pub is_run: i32,
    pub executor_blocks: Vec<ExecutorBlock>,
}

/// One item group: rows of executors.
pub struct ItemGroup {
    pub items_type: i32,
    pub cnt_pages: i32,
    pub items: Vec<Vec<Executor>>,
}

/// The typed playbacks response.
pub struct PlaybacksResponse {
    pub realtime: bool,
    pub response_type: String,
    pub response_sub_type: i32,
    pub i_page: i32,
    pub item_groups: Vec<ItemGroup>,
    pub world_index: Option<i32>,
}

/// The fader levels of a run of executor blocks, in order.
pub open spec fn spec_block_values(blocks: Seq<ExecutorBlock>) -> Seq<Normalized>
    decreases blocks.len(),
{
    if blocks.len() == 0 {
        Seq::empty()
    } else {
        spec_block_values(blocks.drop_last()) + seq![blocks.last().fader.value]
    }
}

/// The fader levels of a row of executors, in order.
pub open spec fn spec_row_values(row: Seq<Executor>) -> Seq<Normalized>
    decreases row.len(),
{
    if row.len() == 0 {
        Seq::empty()
    } else {
        spec_row_values(row.drop_last()) + spec_block_values(row.last().executor_blocks@)
    }
}

/// The fader levels of the rows of one item group, in order.
pub open spec fn spec_rows_values(rows: Seq<Vec<Executor>>) -> Seq<Normalized>
    decreases rows.len(),
{
    if rows.len() == 0 {
        Seq::empty()
    } else {
        spec_rows_values(rows.drop_last()) + spec_row_values(rows.last()@)
    }
}

/// The fader levels of a whole snapshot, in document order.
pub open spec fn spec_group_values(groups: Seq<ItemGroup>) -> Seq<Normalized>
    decreases groups.len(),
{
    if groups.len() == 0 {
        Seq::empty()
    } else {
        spec_group_values(groups.drop_last()) + spec_rows_values(groups.last().items@)
    }
}

/// Flattens a playbacks snapshot to the sequence of its fader levels, in
/// document order: groups, then rows, then executors, then blocks. The
/// level at index `i` belongs to executor index `i` of the polled page.
pub fn flatten_fader_values(response: &PlaybacksResponse) -> (r: Vec<Normalized>)
    ensures
        r@ == spec_group_values(response.item_groups@),
{
    let mut out: Vec<Normalized> = Vec::new();
    let mut g: usize = 0;
    while g < response.item_groups.len()
        invariant
            0 <= g <= response.item_groups@.len(),
            out@ =~= spec_group_values(response.item_groups@.take(g as int)),
        decreases response.item_groups@.len() - g,
    {
        let group = &response.item_groups[g];
        let mut w: usize = 0;
        while w < group.items.len()
            invariant
                0 <= w <= group.items@.len(),
                group == &response.item_groups[g as int],
                g < response.item_groups@.len(),
                out@ =~= spec_group_values(response.item_groups@.take(g as int))
                    + spec_rows_values(group.items@.take(w as int)),
            decreases group.items@.len() - w,
        {
            let row = &group.items[w];
            let mut e: usize = 0;
            while e < row.len()
                invariant
                    0 <= e <= row@.len(),
                    row == &group.items[w as int],
                    group == &response.item_groups[g as int],
                    g < response.item_groups@.len(),
                    w < group.items@.len(),
                    out@ =~= spec_group_values(response.item_groups@.take(g as int))
                        + spec_rows_values(group.items@.take(w as int)) + spec_row_values(
                        row@.take(e as int),
                    ),
                decreases row@.len() - e,
            {
                let executor = &row[e];
                let mut b: usize = 0;
                while b < executor.executor_blocks.len()
                    invariant
                        0 <= b <= executor.executor_blocks@.len(),
                        executor == &row[e as int],
                        row == &group.items[w as int],
                        group == &response.item_groups[g as int],
                        g < response.item_groups@.len(),
                        w < group.items@.len(),
                        e < row@.len(),
                        out@ =~= spec_group_values(response.item_groups@.take(g as int))
                            + spec_rows_values(group.items@.take(w as int)) + spec_row_values(
                            row@.take(e as int),
                        ) + spec_block_values(executor.executor_blocks@.take(b as int)),
                    decreases executor.executor_blocks@.len() - b,
                {
                    out.push(executor.executor_blocks[b].fader.value);
                    proof {
                        let blocks = executor.executor_blocks@;
                        assert(blocks.take(b as int + 1).drop_last() =~= blocks.take(b as int));
                        assert(blocks.take(b as int + 1).last() == blocks[b as int]);
                    }
                    b += 1;
                }
                proof {
                    let blocks = executor.executor_blocks@;
                    assert(blocks.take(blocks.len() as int) =~= blocks);
                    assert(row@.take(e as int + 1).drop_last() =~= row@.take(e as int));
                    assert(row@.take(e as int + 1).last() == row@[e as int]);
                }
                e += 1;
            }
            proof {
                assert(row@.take(row@.len() as int) =~= row@);
                assert(group.items@.take(w as int + 1).drop_last() =~= group.items@.take(w as int));
                assert(group.items@.take(w as int + 1).last() == group.items@[w as int]);
            }
            w += 1;
        }
        proof {
            let groups = response.item_groups@;
            assert(group.items@.take(group.items@.len() as int) =~= group.items@);
            assert(groups.take(g as int + 1).drop_last() =~= groups.take(g as int));
            assert(groups.take(g as int + 1).last() == groups[g as int]);
        }
        g += 1;
    }
    proof {
        let groups = response.item_groups@;
        assert(groups.take(groups.len() as int) =~= groups);
    }
    out
}

} // verus!
