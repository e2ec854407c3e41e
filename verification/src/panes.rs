//! The text of the individual panes: register stack, sponge state, call
//! stack, type hints, input bands and pane titles. Every builder pads
//! its pane from the top with blank rows so the content sits at the
//! bottom, exactly as many rows as the pane has text lines for.

use vstd::prelude::*;
use vstd::string::StringExecFns;

use crate::program::Program;
use crate::program::items_total_size;
use crate::program::label_text_for_address;
use crate::text::dec_rep;
use crate::text::element_rep;
use crate::text::element_to_string;
use crate::text::joined_elements;
use crate::text::join_elements;
use crate::text::pad_left;
use crate::text::padded_left;
use crate::text::u64_to_string;

verus! {

/// `n` blank rows (none when `n` is not positive).
pub open spec fn blank_rows(n: int) -> Seq<Seq<char>> {
    Seq::new(
        if n >= 0 {
            n as nat
        } else {
            0
        },
        |k: int| Seq::<char>::empty(),
    )
}

/// The rows a pane's block leaves for text: its height less the top
/// border, the bottom border and one row of top padding.
pub open spec fn inner_height(h: u16) -> int {
    if h >= 3 {
        h - 3
    } else {
        0
    }
}

/// The rows the pane's block leaves for text, as a count.
pub fn inner_text_height(h: u16) -> (r: usize)
    ensures
        r as int == inner_height(h),
{
    if h >= 3 {
        (h - 3) as usize
    } else {
        0
    }
}

/// One register-stack row: the three-column slot index from the top,
/// two spaces, and the element's value.
pub open spec fn op_stack_row(i: int, v: u64) -> Seq<char> {
    padded_left(dec_rep(i as nat), 3) + "  "@ + element_rep(v)
}

/// The register-stack pane: blank padding, then the stack top first.
pub open spec fn op_stack_rows(stack: Seq<u64>, avail: int) -> Seq<Seq<char>> {
    blank_rows(avail - stack.len()) + Seq::new(
        stack.len(),
        |k: int| op_stack_row(k, stack[stack.len() - 1 - k]),
    )
}

/// The register-stack pane's title with the current stack size.
pub open spec fn op_stack_title_text(size: int) -> Seq<char> {
    " Stack (size: "@ + padded_left(dec_rep(size as nat), 4) + ") "@
}

/// One sponge row: the three-column state index, two spaces, the value.
pub open spec fn sponge_row(i: int, v: u64) -> Seq<char> {
    padded_left(dec_rep(i as nat), 3) + "  "@ + element_rep(v)
}

/// The sponge pane: nothing before the program starts a sponge; blank
/// padding and the state in order afterwards.
pub open spec fn sponge_rows(sponge: Option<Seq<u64>>, avail: int) -> Seq<Seq<char>> {
    match sponge {
        None => Seq::empty(),
        Some(st) => blank_rows(avail - st.len()) + Seq::new(
            st.len(),
            |k: int| sponge_row(k, st[k]),
        ),
    }
}

/// One call-stack row: the return and call addresses, each padded to
/// the program's address width, then the label at the call address.
pub open spec fn call_stack_row(
    items: Seq<crate::program::ProgramItem>,
    ret: u64,
    call: u64,
    width: int,
) -> Seq<char> {
    "("@ + padded_left(dec_rep(ret as nat), width) + ", "@ + padded_left(dec_rep(call as nat), width)
        + ")"@ + "  "@ + label_text_for_address(items, call as int)
}

/// The call-stack pane: blank padding, then the newest call first.
pub open spec fn call_stack_rows(
    items: Seq<crate::program::ProgramItem>,
    jump_stack: Seq<(u64, u64)>,
    avail: int,
    width: int,
) -> Seq<Seq<char>> {
    blank_rows(avail - jump_stack.len()) + Seq::new(
        jump_stack.len(),
        |k: int|
            call_stack_row(
                items,
                jump_stack[jump_stack.len() - 1 - k].0,
                jump_stack[jump_stack.len() - 1 - k].1,
                width,
            ),
    )
}

/// The call-stack pane's title with the current depth.
pub open spec fn call_stack_title_text(depth: int) -> Seq<char> {
    " Calls (depth: "@ + padded_left(dec_rep(depth as nat), 3) + ") "@
}

/// The program pane's title with the current cycle count.
pub open spec fn program_title_text(cycle: int) -> Seq<char> {
    " Program (cycle: "@ + padded_left(dec_rep(cycle as nat), 5) + ") "@
}

/// The text a hint row shows: the hint, or nothing where there is none.
pub open spec fn hint_text(o: Option<Seq<char>>) -> Seq<char> {
    match o {
        Some(t) => t,
        None => Seq::empty(),
    }
}

/// The row for the topmost or bottommost stack slot.
pub open spec fn hint_edge(hints: Seq<Option<Seq<char>>>, idx: int) -> Seq<char> {
    if hints.len() == 0 {
        Seq::empty()
    } else {
        hint_text(hints[idx])
    }
}

/// Whether three neighbouring slots carry one continuous hint, so the
/// middle one collapses to a continuation dot.
pub open spec fn continuous_triple(
    a: Option<Seq<char>>,
    b: Option<Seq<char>>,
    c: Option<Seq<char>>,
) -> bool {
    a is Some && b is Some && c is Some && a == b && b == c
}

/// How many middle rows the hint pane shows: one per window of three
/// neighbouring slots.
pub open spec fn middle_count(len: int) -> nat {
    if len >= 2 {
        (len - 2) as nat
    } else {
        0
    }
}

/// The `k`-th middle row, walking the stack from the top.
pub open spec fn middle_hint_row(hints: Seq<Option<Seq<char>>>, k: int) -> Seq<char> {
    let len = hints.len() as int;
    if continuous_triple(hints[len - 1 - k], hints[len - 2 - k], hints[len - 3 - k]) {
        "\u{22c5}"@
    } else {
        hint_text(hints[len - 2 - k])
    }
}

/// The type-hint pane: blank padding, the top slot's hint, one row per
/// middle slot — collapsed to a dot inside a continuous run — and the
/// bottom slot's hint.
pub open spec fn type_hint_rows(hints: Seq<Option<Seq<char>>>, avail: int) -> Seq<Seq<char>> {
    blank_rows(avail - hints.len()) + seq![hint_edge(hints, hints.len() - 1)] + Seq::new(
        middle_count(hints.len() as int),
        |k: int| middle_hint_row(hints, k),
    ) + seq![hint_edge(hints, 0)]
}

/// The public-input band's line.
pub open spec fn public_input_text(input: Seq<u64>) -> Seq<char> {
    "Public input: ["@ + joined_elements(input) + "]"@
}

/// The secret-input band's line.
pub open spec fn secret_input_text(input: Seq<u64>) -> Seq<char> {
    "Secret input: ["@ + joined_elements(input) + "]"@
}

/// Appends one finished row to a pane.
fn push_row(rows: &mut Vec<String>, row: String)
    ensures
        final(rows).deep_view() == old(rows).deep_view().push(row@),
{
    let ghost before = rows.deep_view();
    rows.push(row);
    proof {
        assert(rows.deep_view() =~= before.push(row@));
    }
}

/// Appends `n` blank rows to a pane.
fn push_blank_rows(rows: &mut Vec<String>, n: usize)
    ensures
        final(rows).deep_view() == old(rows).deep_view() + blank_rows(n as int),
{
    let ghost before = rows.deep_view();
    let mut j: usize = 0;
    while j < n
        invariant
            j <= n,
            rows.deep_view() == before + blank_rows(j as int),
        decreases n - j,
    {
        push_row(rows, String::new());
        proof {
            assert((before + blank_rows(j as int)).push(Seq::<char>::empty()) =~= before
                + blank_rows(j as int + 1));
        }
        j += 1;
    }
    proof {
        assert(before + blank_rows(0) =~= before);
    }
}

/// The register-stack pane's text: padding, then the stack from the top
/// down, each row a slot index and the element's value.
pub fn op_stack_text(op_stack: &Vec<u64>, num_available_lines: usize) -> (rows: Vec<String>)
    ensures
        rows.deep_view() == op_stack_rows(op_stack@, num_available_lines as int),
{
    let stack_size = op_stack.len();
    let num_padding = if num_available_lines >= stack_size {
        num_available_lines - stack_size
    } else {
        0
    };
    let mut rows: Vec<String> = Vec::new();
    push_blank_rows(&mut rows, num_padding);
    proof {
        assert(rows.deep_view() =~= blank_rows(num_padding as int));
    }
    let mut k: usize = 0;
    while k < stack_size
        invariant
            k <= stack_size,
            stack_size == op_stack@.len(),
            rows.deep_view() == blank_rows(num_padding as int) + Seq::new(
                k as nat,
                |t: int| op_stack_row(t, op_stack@[op_stack@.len() - 1 - t]),
            ),
        decreases stack_size - k,
    {
        let idx = u64_to_string(k as u64);
        let mut line = pad_left(idx.as_str(), 3);
        line.append("  ");
        let val = element_to_string(op_stack[stack_size - 1 - k]);
        line.append(val.as_str());
        push_row(&mut rows, line);
        proof {
            assert(rows.deep_view() =~= blank_rows(num_padding as int) + Seq::new(
                (k + 1) as nat,
                |t: int| op_stack_row(t, op_stack@[op_stack@.len() - 1 - t]),
            ));
        }
        k += 1;
    }
    proof {
        assert(rows.deep_view() =~= op_stack_rows(op_stack@, num_available_lines as int));
    }
    rows
}

/// The register-stack pane's title.
pub fn op_stack_title(stack_size: usize) -> (r: String)
    ensures
        r@ == op_stack_title_text(stack_size as int),
{
    let mut s = " Stack (size: ".to_owned();
    let n = u64_to_string(stack_size as u64);
    let padded = pad_left(n.as_str(), 4);
    s.append(padded.as_str());
    s.append(") ");
    s
}

/// The sponge pane's text: nothing before a sponge is started; padding
/// and the sixteen state elements afterwards.
pub fn sponge_text(sponge: &Option<Vec<u64>>, num_available_lines: usize) -> (rows: Vec<String>)
    ensures
        rows.deep_view() == sponge_rows(
            match sponge {
                Some(st) => Some(st@),
                None => None,
            },
            num_available_lines as int,
        ),
{
    let mut rows: Vec<String> = Vec::new();
    let st = match sponge {
        Some(st) => st,
        None => {
            proof {
                assert(rows.deep_view() =~= Seq::<Seq<char>>::empty());
            }
            return rows;
        },
    };
    let len = st.len();
    let num_padding = if num_available_lines >= len {
        num_available_lines - len
    } else {
        0
    };
    push_blank_rows(&mut rows, num_padding);
    proof {
        assert(rows.deep_view() =~= blank_rows(num_padding as int));
    }
    let mut k: usize = 0;
    while k < len
        invariant
            k <= len,
            len == st@.len(),
            rows.deep_view() == blank_rows(num_padding as int) + Seq::new(
                k as nat,
                |t: int| sponge_row(t, st@[t]),
            ),
        decreases len - k,
    {
        let idx = u64_to_string(k as u64);
        let mut line = pad_left(idx.as_str(), 3);
        line.append("  ");
        let val = element_to_string(st[k]);
        line.append(val.as_str());
        push_row(&mut rows, line);
        proof {
            assert(rows.deep_view() =~= blank_rows(num_padding as int) + Seq::new(
                (k + 1) as nat,
                |t: int| sponge_row(t, st@[t]),
            ));
        }
        k += 1;
    }
    proof {
        assert(rows.deep_view() =~= sponge_rows(Some(st@), num_available_lines as int));
    }
    rows
}

/// The call-stack pane's text: padding, then the newest call first,
/// each row the two addresses and the called label.
pub fn call_stack_text(
    program: &Program,
    jump_stack: &Vec<(u64, u64)>,
    num_available_lines: usize,
    address_width: usize,
) -> (rows: Vec<String>)
    requires
        items_total_size(program.items@) <= usize::MAX as int,
    ensures
        rows.deep_view() == call_stack_rows(
            program.items@,
            jump_stack@,
            num_available_lines as int,
            address_width as int,
        ),
{
    let depth = jump_stack.len();
    let num_padding = if num_available_lines >= depth {
        num_available_lines - depth
    } else {
        0
    };
    let mut rows: Vec<String> = Vec::new();
    push_blank_rows(&mut rows, num_padding);
    proof {
        assert(rows.deep_view() =~= blank_rows(num_padding as int));
    }
    let mut k: usize = 0;
    while k < depth
        invariant
            k <= depth,
            depth == jump_stack@.len(),
            items_total_size(program.items@) <= usize::MAX as int,
            rows.deep_view() == blank_rows(num_padding as int) + Seq::new(
                k as nat,
                |t: int|
                    call_stack_row(
                        program.items@,
                        jump_stack@[jump_stack@.len() - 1 - t].0,
                        jump_stack@[jump_stack@.len() - 1 - t].1,
                        address_width as int,
                    ),
            ),
        decreases depth - k,
    {
        let pair = jump_stack[depth - 1 - k];
        let mut line = "(".to_owned();
        let ret = u64_to_string(pair.0);
        let ret_padded = pad_left(ret.as_str(), address_width);
        line.append(ret_padded.as_str());
        line.append(", ");
        let call = u64_to_string(pair.1);
        let call_padded = pad_left(call.as_str(), address_width);
        line.append(call_padded.as_str());
        line.append(")");
        line.append("  ");
        let label = program.label_for_address(pair.1);
        line.append(label.as_str());
        push_row(&mut rows, line);
        proof {
            assert(rows.deep_view() =~= blank_rows(num_padding as int) + Seq::new(
                (k + 1) as nat,
                |t: int|
                    call_stack_row(
                        program.items@,
                        jump_stack@[jump_stack@.len() - 1 - t].0,
                        jump_stack@[jump_stack@.len() - 1 - t].1,
                        address_width as int,
                    ),
            ));
        }
        k += 1;
    }
    proof {
        assert(rows.deep_view() =~= call_stack_rows(
            program.items@,
            jump_stack@,
            num_available_lines as int,
            address_width as int,
        ));
    }
    rows
}

/// The call-stack pane's title.
pub fn call_stack_title(depth: usize) -> (r: String)
    ensures
        r@ == call_stack_title_text(depth as int),
{
    let mut s = " Calls (depth: ".to_owned();
    let n = u64_to_string(depth as u64);
    let padded = pad_left(n.as_str(), 3);
    s.append(padded.as_str());
    s.append(") ");
    s
}

/// The program pane's title.
pub fn program_title(cycle: u32) -> (r: String)
    ensures
        r@ == program_title_text(cycle as int),
{
    let mut s = " Program (cycle: ".to_owned();
    let n = u64_to_string(cycle as u64);
    let padded = pad_left(n.as_str(), 5);
    s.append(padded.as_str());
    s.append(") ");
    s
}

/// The text of one hint slot.
fn hint_row(hint: &Option<String>) -> (r: String)
    ensures
        r@ == hint_text(
            match hint {
                Some(s) => Some(s@),
                None => None,
            },
        ),
{
    match hint {
        Some(s) => s.clone(),
        None => String::new(),
    }
}

/// The type-hint pane's text: padding, the top slot's hint, the middle
/// slots — each collapsed to a continuation dot inside a continuous run
/// — and the bottom slot's hint.
pub fn type_hint_text(hints: &Vec<Option<String>>, num_available_lines: usize) -> (rows: Vec<
    String,
>)
    ensures
        rows.deep_view() == type_hint_rows(hints.deep_view(), num_available_lines as int),
{
    let len = hints.len();
    let num_padding = if num_available_lines >= len {
        num_available_lines - len
    } else {
        0
    };
    let mut rows: Vec<String> = Vec::new();
    push_blank_rows(&mut rows, num_padding);
    proof {
        assert(rows.deep_view() =~= blank_rows(num_padding as int));
    }
    let top = if len == 0 {
        String::new()
    } else {
        hint_row(&hints[len - 1])
    };
    push_row(&mut rows, top);
    let ghost prefix = blank_rows(num_padding as int) + seq![
        hint_edge(hints.deep_view(), hints.deep_view().len() - 1),
    ];
    proof {
        assert(rows.deep_view() =~= prefix);
    }
    let mut k: usize = 0;
    let middles = if len >= 2 {
        len - 2
    } else {
        0
    };
    while k < middles
        invariant
            k <= middles,
            len == hints@.len(),
            middles as nat == middle_count(len as int),
            rows.deep_view() == prefix + Seq::new(
                k as nat,
                |t: int| middle_hint_row(hints.deep_view(), t),
            ),
        decreases middles - k,
    {
        let h0 = &hints[len - 1 - k];
        let h1 = &hints[len - 2 - k];
        let h2 = &hints[len - 3 - k];
        let continuous = match (h0, h1, h2) {
            (Some(a), Some(b), Some(c)) => *a == *b && *b == *c,
            _ => false,
        };
        proof {
            let dv = hints.deep_view();
            let i0 = len - 1 - k as int;
            let i1 = len - 2 - k as int;
            let i2 = len - 3 - k as int;
            assert(dv[i0] == hints@[i0].deep_view());
            assert(dv[i1] == hints@[i1].deep_view());
            assert(dv[i2] == hints@[i2].deep_view());
            assert(continuous == continuous_triple(dv[i0], dv[i1], dv[i2]));
        }
        let row = if continuous {
            "\u{22c5}".to_owned()
        } else {
            hint_row(h1)
        };
        push_row(&mut rows, row);
        proof {
            assert(row@ == middle_hint_row(hints.deep_view(), k as int));
            assert(rows.deep_view() =~= prefix + Seq::new(
                (k + 1) as nat,
                |t: int| middle_hint_row(hints.deep_view(), t),
            ));
        }
        k += 1;
    }
    let bottom = if len == 0 {
        String::new()
    } else {
        hint_row(&hints[0])
    };
    push_row(&mut rows, bottom);
    proof {
        assert(rows.deep_view() =~= type_hint_rows(hints.deep_view(), num_available_lines as int));
    }
    rows
}

/// The public-input band's line, when there is input and the input
/// panes are visible.
pub fn maybe_public_input_line(inputs_visible: bool, public_input: &Vec<u64>) -> (r: Option<
    String,
>)
    ensures
        r is Some <==> (public_input@.len() > 0 && inputs_visible),
        r is Some ==> r->0@ == public_input_text(public_input@),
{
    if public_input.len() == 0 || !inputs_visible {
        return None;
    }
    let mut s = "Public input: [".to_owned();
    let joined = join_elements(public_input);
    s.append(joined.as_str());
    s.append("]");
    Some(s)
}

/// The secret-input band's line, when there are secret tokens and the
/// input panes are visible.
pub fn maybe_secret_input_line(inputs_visible: bool, secret_input: &Vec<u64>) -> (r: Option<
    String,
>)
    ensures
        r is Some <==> (secret_input@.len() > 0 && inputs_visible),
        r is Some ==> r->0@ == secret_input_text(secret_input@),
{
    if secret_input.len() == 0 || !inputs_visible {
        return None;
    }
    let mut s = "Secret input: [".to_owned();
    let joined = join_elements(secret_input);
    s.append(joined.as_str());
    s.append("]");
    Some(s)
}

} // verus!
