//! Address-to-line lookup over a rendered program.
//!
//! The lookup filters the display lines down to `(position, address)`
//! pairs of instruction lines and binary-searches them by address. It is
//! total: whatever the input, it returns without failing; when the lines
//! are sorted by address — as every rendered program is — it finds a line
//! for exactly the addresses that some instruction line carries.

use vstd::prelude::*;

use crate::program::ProgramLine;
use crate::program::instr_address;
use crate::program::line_has_address;
use crate::program::render_spec;
use crate::program::sorted_by_address;
use crate::program::strictly_sorted_by_address;
use crate::program::positive_instruction_sizes;
use crate::program::items_total_size;
use crate::program::lemma_render_from_monotonic;
use crate::program::lemma_strictly_sorted_implies_sorted;
use crate::program::ProgramItem;

verus! {

/// The `(position, address)` pairs of the instruction lines among the
/// first `n` lines, in line order.
pub open spec fn indexed_prefix(lines: Seq<ProgramLine>, n: int) -> Seq<(usize, usize)>
    decreases n,
{
    if n <= 0 {
        Seq::empty()
    } else {
        let prev = indexed_prefix(lines, n - 1);
        match lines[n - 1] {
            ProgramLine::Instruction { address, .. } => prev.push((((n - 1) as usize), address)),
            ProgramLine::Label(_) => prev,
        }
    }
}

/// Whatever the result names is real: a returned position is a line of
/// the input, an instruction line, and carries the looked-up address.
pub open spec fn lookup_result_valid(
    lines: Seq<ProgramLine>,
    a: usize,
    r: Option<usize>,
) -> bool {
    match r {
        Some(i) => i < lines.len() && line_has_address(lines[i as int], a),
        None => true,
    }
}

/// On lines sorted by address, the lookup misses only addresses that no
/// instruction line carries.
pub open spec fn lookup_complete(lines: Seq<ProgramLine>, a: usize, r: Option<usize>) -> bool {
    (sorted_by_address(lines) && (exists|j: int|
        0 <= j < lines.len() && line_has_address(lines[j], a))) ==> r is Some
}

/// The full contract of the address lookup.
pub open spec fn lookup_ok(lines: Seq<ProgramLine>, a: usize, r: Option<usize>) -> bool {
    &&& lookup_result_valid(lines, a, r)
    &&& lookup_complete(lines, a, r)
}

/// Every pair of `indexed_prefix` points at an instruction line with that
/// address, pair positions grow with the pair index, and every
/// instruction line among the first `n` has its pair.
pub proof fn lemma_indexed_prefix_props(lines: Seq<ProgramLine>, n: int)
    requires
        0 <= n <= lines.len(),
        lines.len() <= usize::MAX as int,
    ensures
        forall|k: int|
            0 <= k < indexed_prefix(lines, n).len() ==> {
                let p = #[trigger] indexed_prefix(lines, n)[k];
                &&& p.0 < n
                &&& lines[p.0 as int] is Instruction
                &&& instr_address(lines[p.0 as int]) == p.1
            },
        forall|k1: int, k2: int|
            0 <= k1 < k2 < indexed_prefix(lines, n).len() ==> (#[trigger] indexed_prefix(
                lines,
                n,
            )[k1]).0 < (#[trigger] indexed_prefix(lines, n)[k2]).0,
        forall|p: int|
            0 <= p < n && (#[trigger] lines[p]) is Instruction ==> exists|k: int|
                0 <= k < indexed_prefix(lines, n).len() && indexed_prefix(lines, n)[k] == (
                (p as usize),
                instr_address(lines[p]),
                ),
    decreases n,
{
    if n > 0 {
        lemma_indexed_prefix_props(lines, n - 1);
        let prev = indexed_prefix(lines, n - 1);
        let cur = indexed_prefix(lines, n);
        if lines[n - 1] is Instruction {
            assert(cur == prev.push((((n - 1) as usize), instr_address(lines[n - 1]))));
            assert(forall|k: int| 0 <= k < prev.len() ==> #[trigger] cur[k] == prev[k]);
            assert(cur[cur.len() - 1] == (((n - 1) as usize), instr_address(lines[n - 1])));
        } else {
            assert(cur == prev);
            assert(forall|k: int| 0 <= k < prev.len() ==> #[trigger] cur[k] == prev[k]);
        }
        assert forall|k: int| 0 <= k < cur.len() implies {
            let p = #[trigger] cur[k];
            &&& p.0 < n
            &&& lines[p.0 as int] is Instruction
            &&& instr_address(lines[p.0 as int]) == p.1
        } by {
            if k < prev.len() {
                assert(cur[k] == prev[k]);
                assert(prev[k] == indexed_prefix(lines, n - 1)[k]);
            } else {
                assert(cur[k] == (((n - 1) as usize), instr_address(lines[n - 1])));
            }
        }
        assert forall|k1: int, k2: int| 0 <= k1 < k2 < cur.len() implies (#[trigger] cur[k1]).0 < (
        #[trigger] cur[k2]).0 by {
            if k2 < prev.len() {
                assert(cur[k1] == prev[k1] && cur[k2] == prev[k2]);
            } else {
                assert(k1 < prev.len());
                assert(cur[k1] == prev[k1]);
                assert(prev[k1].0 < n - 1);
                assert(cur[k2] == (((n - 1) as usize), instr_address(lines[n - 1])));
            }
        }
        assert forall|p: int| 0 <= p < n && (#[trigger] lines[p]) is Instruction implies exists|
            k: int,
        | 0 <= k < cur.len() && cur[k] == ((p as usize), instr_address(lines[p])) by {
            if p < n - 1 {
                let k0 = choose|k: int|
                    0 <= k < prev.len() && prev[k] == ((p as usize), instr_address(lines[p]));
                assert(cur[k0] == ((p as usize), instr_address(lines[p])));
            } else {
                assert(cur[cur.len() - 1] == ((p as usize), instr_address(lines[p])));
            }
        }
    }
}

/// On lines sorted by address, the pair list is sorted by address too.
pub proof fn lemma_indexed_pairs_sorted(lines: Seq<ProgramLine>)
    requires
        sorted_by_address(lines),
        lines.len() <= usize::MAX as int,
    ensures
        forall|k1: int, k2: int|
            0 <= k1 <= k2 < indexed_prefix(lines, lines.len() as int).len() ==> (
            #[trigger] indexed_prefix(lines, lines.len() as int)[k1]).1 <= (
            #[trigger] indexed_prefix(lines, lines.len() as int)[k2]).1,
{
    let pairs = indexed_prefix(lines, lines.len() as int);
    lemma_indexed_prefix_props(lines, lines.len() as int);
    assert forall|k1: int, k2: int| 0 <= k1 <= k2 < pairs.len() implies (#[trigger] pairs[k1]).1
        <= (#[trigger] pairs[k2]).1 by {
        let p1 = pairs[k1].0 as int;
        let p2 = pairs[k2].0 as int;
        assert(lines[p1] is Instruction && lines[p2] is Instruction);
        if k1 < k2 {
            assert(p1 < p2);
        }
    }
}

/// Looks an address up in a sequence of display lines: the position of an
/// instruction line carrying `address_to_find`, if there is one. Label
/// lines carry no address and are never found. The lines are expected to
/// be sorted by address, as every rendered program is; the search never
/// fails whatever the input, and any position it returns is an
/// instruction line with the looked-up address even on unsorted input.
pub fn line_index_of_address(lines: &[ProgramLine], address_to_find: usize) -> (r: Option<usize>)
    ensures
        lookup_ok(lines@, address_to_find, r),
{
    let ghost gl = lines@;
    let mut pairs: Vec<(usize, usize)> = Vec::new();
    let mut i: usize = 0;
    while i < lines.len()
        invariant
            i <= lines.len(),
            pairs@ == indexed_prefix(gl, i as int),
            gl == lines@,
        decreases lines.len() - i,
    {
        match &lines[i] {
            ProgramLine::Instruction { address, .. } => {
                pairs.push((i, *address));
            },
            ProgramLine::Label(_) => {},
        }
        i += 1;
    }
    proof {
        lemma_indexed_prefix_props(gl, gl.len() as int);
        if sorted_by_address(gl) {
            lemma_indexed_pairs_sorted(gl);
        }
    }
    let ghost gp = pairs@;
    let mut lo: usize = 0;
    let mut hi: usize = pairs.len();
    while lo < hi
        invariant
            lo <= hi <= pairs.len(),
            pairs@ == gp,
            gp == indexed_prefix(gl, gl.len() as int),
            gl == lines@,
            forall|k: int|
                0 <= k < gp.len() ==> {
                    let p = #[trigger] gp[k];
                    &&& p.0 < gl.len()
                    &&& gl[p.0 as int] is Instruction
                    &&& instr_address(gl[p.0 as int]) == p.1
                },
            sorted_by_address(gl) ==> forall|k: int|
                0 <= k < lo ==> (#[trigger] gp[k]).1 < address_to_find,
            sorted_by_address(gl) ==> forall|k: int|
                hi <= k < gp.len() ==> (#[trigger] gp[k]).1 > address_to_find,
            sorted_by_address(gl) ==> forall|k1: int, k2: int|
                0 <= k1 <= k2 < gp.len() ==> (#[trigger] gp[k1]).1 <= (#[trigger] gp[k2]).1,
        decreases hi - lo,
    {
        let mid = lo + (hi - lo) / 2;
        let pair = pairs[mid];
        if pair.1 == address_to_find {
            return Some(pair.0);
        } else if pair.1 < address_to_find {
            lo = mid + 1;
        } else {
            hi = mid;
        }
    }
    proof {
        if sorted_by_address(gl) && exists|j: int|
            0 <= j < gl.len() && line_has_address(gl[j], address_to_find) {
            let j = choose|j: int| 0 <= j < gl.len() && line_has_address(gl[j], address_to_find);
            lemma_indexed_prefix_props(gl, gl.len() as int);
            let k = choose|k: int|
                0 <= k < gp.len() && gp[k] == ((j as usize), instr_address(gl[j]));
            assert(gp[k].1 == address_to_find);
            assert(false);
        }
    }
    None
}

/// Looking up any address in an empty line sequence finds nothing.
pub proof fn lemma_lookup_in_empty_finds_nothing(a: usize, r: Option<usize>)
    requires
        lookup_ok(Seq::empty(), a, r),
    ensures
        r is None,
{
}

/// In a line sequence of labels alone, every address lookup finds
/// nothing: label lines carry no address.
pub proof fn lemma_lookup_among_labels_finds_nothing(
    lines: Seq<ProgramLine>,
    a: usize,
    r: Option<usize>,
)
    requires
        forall|k: int| 0 <= k < lines.len() ==> (#[trigger] lines[k]) is Label,
        lookup_ok(lines, a, r),
    ensures
        r is None,
{
}

/// Looking up an address strictly greater than every instruction-line
/// address finds nothing, whatever the line sequence.
pub proof fn lemma_lookup_beyond_max_finds_nothing(
    lines: Seq<ProgramLine>,
    a: usize,
    r: Option<usize>,
)
    requires
        forall|k: int|
            0 <= k < lines.len() && (#[trigger] lines[k]) is Instruction ==> instr_address(
                lines[k],
            ) < a,
        lookup_ok(lines, a, r),
    ensures
        r is None,
{
}

/// The round trip from a rendered program through the address index:
/// when every instruction occupies at least one word, looking up the
/// address of the instruction line at any position finds exactly that
/// position, for it is the one line at its address.
pub proof fn lemma_render_lookup_round_trip(
    items: Seq<ProgramItem>,
    pos: int,
    r: Option<usize>,
)
    requires
        positive_instruction_sizes(items),
        items_total_size(items) <= usize::MAX as int,
        0 <= pos < render_spec(items).len(),
        render_spec(items)[pos] is Instruction,
        lookup_ok(render_spec(items), instr_address(render_spec(items)[pos]), r),
    ensures
        r == Some(pos as usize),
{
    let lines = render_spec(items);
    let a = instr_address(lines[pos]);
    lemma_render_from_monotonic(items, 0, false);
    lemma_strictly_sorted_implies_sorted(lines);
    assert(line_has_address(lines[pos], a));
    assert(r is Some);
    let i = r->0;
    assert(line_has_address(lines[i as int], a));
    if i as int != pos {
        assert(strictly_sorted_by_address(lines));
        if (i as int) < pos {
            assert(instr_address(lines[i as int]) < instr_address(lines[pos]));
        } else {
            assert(instr_address(lines[pos]) < instr_address(lines[i as int]));
        }
        assert(false);
    }
}

} // verus!
