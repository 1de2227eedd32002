//! Fixed-size windows over a byte region.
//!
//! A transfer cuts the range from `start` to `total` into windows of `size` bytes, the last
//! one shorter or empty. Each window carries its own absolute offset, so the windows can be
//! written in any order, and more than once.

use crate::movable_io::write_at;
use vstd::prelude::*;

verus! {

/// A window of a region: `len` bytes at the absolute offset `offset`.
#[derive(Debug, Clone, Copy, PartialEq, Eq, Structural)]
pub struct Window {
    /// Absolute offset of the first byte
    pub offset: u64,
    /// Number of bytes
    pub len: u64,
}

/// The number of windows that the range from `start` to `total` is cut into.
pub open spec fn spec_window_count(start: nat, total: nat, size: nat) -> nat
    recommends
        size > 0,
        start <= total,
{
    (total - start) as nat / size + 1
}

/// The offset of the window at `index`.
pub open spec fn spec_window_offset(start: nat, size: nat, index: nat) -> nat {
    start + index * size
}

/// The length of the window at `index`: a whole window, or what is left before `total`.
pub open spec fn spec_window_len(start: nat, total: nat, size: nat, index: nat) -> nat {
    let offset = spec_window_offset(start, size, index);
    if total <= offset {
        0
    } else if total - offset < size {
        (total - offset) as nat
    } else {
        size
    }
}

/// The bytes of `source` that the window at `index` holds.
pub open spec fn spec_window_bytes(
    source: Seq<u8>,
    start: nat,
    total: nat,
    size: nat,
    index: nat,
) -> Seq<u8> {
    let offset = spec_window_offset(start, size, index);
    source.subrange(offset as int, (offset + spec_window_len(start, total, size, index)) as int)
}

/// The sink after the windows named by `order` have been written into it, one after the
/// other, each at its own offset and with the bytes that `source` holds there.
pub open spec fn spec_apply_windows(
    sink: Seq<u8>,
    source: Seq<u8>,
    start: nat,
    total: nat,
    size: nat,
    order: Seq<nat>,
) -> Seq<u8>
    decreases order.len(),
{
    if order.len() == 0 {
        sink
    } else {
        write_at(
            spec_apply_windows(sink, source, start, total, size, order.drop_last()),
            spec_window_offset(start, size, order.last()) as int,
            spec_window_bytes(source, start, total, size, order.last()),
        )
    }
}

/// Whether `order` names the window at `index`.
pub open spec fn spec_names_window(order: Seq<nat>, index: nat) -> bool {
    exists|k: int| 0 <= k < order.len() && #[trigger] order[k] == index
}

/// Whether `order` names windows of the range only, and each of them that holds a byte at
/// least once.
pub open spec fn spec_covers_all_windows(order: Seq<nat>, start: nat, total: nat, size: nat) -> bool {
    &&& forall|k: int| 0 <= k < order.len() ==> #[trigger] order[k] < spec_window_count(start, total, size)
    &&& forall|index: nat|
        index < spec_window_count(start, total, size) && spec_window_len(start, total, size, index)
            > 0 ==> #[trigger] spec_names_window(order, index)
}

/// The total length of the first `count` windows.
pub open spec fn spec_windows_len(start: nat, total: nat, size: nat, count: nat) -> nat
    decreases count,
{
    if count == 0 {
        0
    } else {
        spec_windows_len(start, total, size, (count - 1) as nat) + spec_window_len(
            start,
            total,
            size,
            (count - 1) as nat,
        )
    }
}

/// Whether the byte at `position` lies in one of the first `count` windows named by `order`.
pub open spec fn spec_written_by(
    order: Seq<nat>,
    count: int,
    start: nat,
    total: nat,
    size: nat,
    position: int,
) -> bool {
    exists|k: int|
        0 <= k < count && spec_window_offset(start, size, #[trigger] order[k]) <= position
            < spec_window_offset(start, size, order[k]) + spec_window_len(
            start,
            total,
            size,
            order[k],
        )
}

/// A window of the range ends at or before `total`, and begins at or after `start`.
pub proof fn lemma_window_inside(start: nat, total: nat, size: nat, index: nat)
    requires
        size > 0,
        start <= total,
        index < spec_window_count(start, total, size),
    ensures
        start <= spec_window_offset(start, size, index) <= total,
        spec_window_offset(start, size, index) + spec_window_len(start, total, size, index)
            <= total,
        spec_window_len(start, total, size, index) <= size,
{
    let span = (total - start) as nat;
    assert(index <= span / size);
    assert(index * size <= span) by (nonlinear_arith)
        requires
            index <= span / size,
            size > 0,
    ;
}

/// Every byte of the range lies in the window that its position names.
pub proof fn lemma_position_window(start: nat, total: nat, size: nat, position: nat)
    requires
        size > 0,
        start <= position < total,
    ensures
        ({
            let index = ((position - start) / size as int) as nat;
            &&& index < spec_window_count(start, total, size)
            &&& spec_window_offset(start, size, index) <= position
            &&& position < spec_window_offset(start, size, index) + spec_window_len(
                start,
                total,
                size,
                index,
            )
        }),
{
    let rel = (position - start) as nat;
    let span = (total - start) as nat;
    let index = rel / size;
    assert(index * size <= rel && rel < index * size + size && index <= span / size)
        by (nonlinear_arith)
        requires
            index == rel / size,
            rel < span,
            size > 0,
    ;
}

/// The first `count` windows hold `count` whole windows, or the whole range.
pub proof fn lemma_windows_len(start: nat, total: nat, size: nat, count: nat)
    requires
        size > 0,
        start <= total,
    ensures
        spec_windows_len(start, total, size, count) == if count * size <= total - start {
            count * size
        } else {
            (total - start) as nat
        },
    decreases count,
{
    if count > 0 {
        let before = (count - 1) as nat;
        lemma_windows_len(start, total, size, before);
        assert(before * size + size == count * size) by (nonlinear_arith)
            requires
                before + 1 == count,
        ;
    } else {
        assert(count * size == 0) by (nonlinear_arith)
            requires
                count == 0,
        ;
    }
}

/// All windows of a range hold, together, exactly the bytes of the range.
pub proof fn lemma_all_windows_len(start: nat, total: nat, size: nat)
    requires
        size > 0,
        start <= total,
    ensures
        spec_windows_len(start, total, size, spec_window_count(start, total, size)) == total
            - start,
{
    let span = (total - start) as nat;
    let count = spec_window_count(start, total, size);
    lemma_windows_len(start, total, size, count);
    assert(count * size > span) by (nonlinear_arith)
        requires
            count == span / size + 1,
            size > 0,
    ;
}

/// What holds of a sink after the first `count` windows named by `order` have been written.
pub open spec fn spec_partly_rebuilt(
    sink: Seq<u8>,
    now: Seq<u8>,
    source: Seq<u8>,
    order: Seq<nat>,
    count: int,
    start: nat,
    total: nat,
    size: nat,
) -> bool {
    &&& sink.len() <= now.len()
    &&& now.len() <= sink.len() || now.len() <= total
    &&& forall|position: int|
        0 <= position < now.len() && spec_written_by(order, count, start, total, size, position)
            ==> #[trigger] now[position] == source[position]
    &&& forall|position: int|
        0 <= position < sink.len() && !spec_written_by(order, count, start, total, size, position)
            ==> #[trigger] now[position] == sink[position]
    &&& forall|position: int|
        spec_written_by(order, count, start, total, size, position) ==> position < now.len()
}

/// Writing windows keeps what earlier windows wrote and what the sink held elsewhere.
pub proof fn lemma_apply_windows_partly(
    sink: Seq<u8>,
    source: Seq<u8>,
    start: nat,
    total: nat,
    size: nat,
    order: Seq<nat>,
    count: int,
)
    requires
        size > 0,
        start <= total,
        source.len() == total,
        0 <= count <= order.len(),
        forall|k: int| 0 <= k < order.len() ==> #[trigger] order[k] < spec_window_count(start, total, size),
    ensures
        spec_partly_rebuilt(
            sink,
            spec_apply_windows(sink, source, start, total, size, order.take(count)),
            source,
            order,
            count,
            start,
            total,
            size,
        ),
    decreases count,
{
    let now = spec_apply_windows(sink, source, start, total, size, order.take(count));
    if count == 0 {
        assert(order.take(0).len() == 0);
        assert(now == sink);
    } else {
        let before_order = order.take(count - 1);
        assert(order.take(count).drop_last() =~= before_order);
        assert(order.take(count).last() == order[count - 1]);
        let before = spec_apply_windows(sink, source, start, total, size, before_order);
        lemma_apply_windows_partly(sink, source, start, total, size, order, count - 1);
        let index = order[count - 1];
        lemma_window_inside(start, total, size, index);
        let offset = spec_window_offset(start, size, index);
        let len = spec_window_len(start, total, size, index);
        let bytes = spec_window_bytes(source, start, total, size, index);
        assert(now == write_at(before, offset as int, bytes));
        assert(bytes.len() == len);
        assert forall|position: int|
            0 <= position < now.len() && spec_written_by(
                order,
                count,
                start,
                total,
                size,
                position,
            ) implies #[trigger] now[position] == source[position] by {
            if offset <= position < offset + len {
                assert(now[position] == bytes[position - offset]);
            } else {
                let k = choose|k: int|
                    0 <= k < count && spec_window_offset(start, size, #[trigger] order[k])
                        <= position < spec_window_offset(start, size, order[k])
                        + spec_window_len(start, total, size, order[k]);
                assert(k < count - 1);
                assert(spec_written_by(order, count - 1, start, total, size, position));
                assert(position < before.len());
                assert(before[position] == source[position]);
            }
        }
        assert forall|position: int|
            0 <= position < sink.len() && !spec_written_by(
                order,
                count,
                start,
                total,
                size,
                position,
            ) implies #[trigger] now[position] == sink[position] by {
            assert(!(offset <= position < offset + len)) by {
                if offset <= position < offset + len {
                    assert(spec_window_offset(start, size, order[count - 1]) <= position);
                    assert(spec_written_by(order, count, start, total, size, position));
                }
            }
            assert(!spec_written_by(order, count - 1, start, total, size, position)) by {
                if spec_written_by(order, count - 1, start, total, size, position) {
                    let k = choose|k: int|
                        0 <= k < count - 1 && spec_window_offset(start, size, #[trigger] order[k])
                            <= position < spec_window_offset(start, size, order[k])
                            + spec_window_len(start, total, size, order[k]);
                    assert(spec_window_offset(start, size, order[k]) <= position);
                    assert(spec_written_by(order, count, start, total, size, position));
                }
            }
            assert(before[position] == sink[position]);
        }
        assert forall|position: int|
            spec_written_by(order, count, start, total, size, position) implies position
            < now.len() by {
            let k = choose|k: int|
                0 <= k < count && spec_window_offset(start, size, #[trigger] order[k])
                    <= position < spec_window_offset(start, size, order[k]) + spec_window_len(
                    start,
                    total,
                    size,
                    order[k],
                );
            if k < count - 1 {
                assert(spec_written_by(order, count - 1, start, total, size, position));
            }
        }
    }
}

/// Written in any order, and any of them more than once, the windows of a range put the
/// bytes of the source into the range, leave the rest of the sink as it was, and leave the
/// sink no longer than the longer of the sink before and the range.
pub proof fn lemma_windows_rebuild_in_any_order(
    sink: Seq<u8>,
    source: Seq<u8>,
    start: nat,
    total: nat,
    size: nat,
    order: Seq<nat>,
)
    requires
        size > 0,
        start <= total,
        source.len() == total,
        spec_covers_all_windows(order, start, total, size),
    ensures
        ({
            let rebuilt = spec_apply_windows(sink, source, start, total, size, order);
            &&& rebuilt.len() >= sink.len()
            &&& rebuilt.len() <= sink.len() || rebuilt.len() <= total
            &&& start < total ==> rebuilt.len() >= total
            &&& forall|position: int|
                start <= position < total ==> position < rebuilt.len() && rebuilt[position]
                    == source[position]
            &&& forall|position: int|
                0 <= position < sink.len() && !(start <= position < total) ==> rebuilt[position]
                    == sink[position]
        }),
{
    let rebuilt = spec_apply_windows(sink, source, start, total, size, order);
    lemma_apply_windows_partly(sink, source, start, total, size, order, order.len() as int);
    assert(order.take(order.len() as int) =~= order);
    assert forall|position: int| start <= position < total implies position < rebuilt.len()
        && rebuilt[position] == source[position] by {
        lemma_position_window(start, total, size, position as nat);
        let index = ((position - start) / size as int) as nat;
        assert(spec_names_window(order, index));
        let k = choose|k: int| 0 <= k < order.len() && #[trigger] order[k] == index;
        assert(spec_window_offset(start, size, order[k]) <= position);
        assert(spec_written_by(order, order.len() as int, start, total, size, position));
    }
    assert forall|position: int|
        0 <= position < sink.len() && !(start <= position < total) implies rebuilt[position]
        == sink[position] by {
        if spec_written_by(order, order.len() as int, start, total, size, position) {
            let k = choose|k: int|
                0 <= k < order.len() && spec_window_offset(start, size, #[trigger] order[k])
                    <= position < spec_window_offset(start, size, order[k]) + spec_window_len(
                    start,
                    total,
                    size,
                    order[k],
                );
            lemma_window_inside(start, total, size, order[k]);
        }
    }
    if start < total {
        lemma_position_window(start, total, size, (total - 1) as nat);
        let index = ((total - 1 - start) / size as int) as nat;
        assert(spec_names_window(order, index));
        let k = choose|k: int| 0 <= k < order.len() && #[trigger] order[k] == index;
        assert(spec_window_offset(start, size, order[k]) <= total - 1);
        assert(spec_written_by(order, order.len() as int, start, total, size, total - 1));
    }
}

/// Fetched in any order into an empty sink, the windows of a region rebuild the region, byte
/// for byte.
pub proof fn lemma_backup_rebuilds_region(source: Seq<u8>, size: nat, order: Seq<nat>)
    requires
        size > 0,
        spec_covers_all_windows(order, 0, source.len(), size),
    ensures
        spec_apply_windows(Seq::empty(), source, 0, source.len(), size, order) == source,
{
    let rebuilt = spec_apply_windows(Seq::empty(), source, 0, source.len(), size, order);
    lemma_windows_rebuild_in_any_order(Seq::empty(), source, 0, source.len(), size, order);
    assert(rebuilt =~= source);
}

} // verus!
