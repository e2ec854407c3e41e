//! The monitored program and its translation into display lines.
//!
//! A program is an ordered stream of labels, annotations, breakpoint
//! markers and sized instructions. Rendering walks that stream once,
//! drops pure annotations, attaches a pending breakpoint marker to the
//! next real instruction, and gives every instruction line the running
//! word address.

use vstd::prelude::*;
use vstd::string::StrSliceExecFns;

use crate::text::dec_rep;
use crate::text::u64_to_string;

verus! {

/// One element of a program's labelled-instruction stream, reduced to
/// what the view reads: the kind of the element, a label's name, an
/// instruction's word size and display text.
#[derive(Clone, Debug, PartialEq, Eq)]
pub enum ProgramItem {
    /// A pure annotation, such as a type hint; it produces no display line.
    TypeHint,
    /// A breakpoint marker; it marks the next instruction and produces no
    /// line of its own.
    Breakpoint,
    /// A jump target with its name.
    Label(String),
    /// A concrete instruction: its size in words and its display text.
    Instruction { size: usize, text: String },
}

/// The monitored program: an immutable stream of [`ProgramItem`]s.
#[derive(Clone, Debug, PartialEq, Eq)]
pub struct Program {
    pub items: Vec<ProgramItem>,
}

/// One renderable row of the program pane.
#[derive(Clone, Debug, PartialEq, Eq, Hash)]
pub enum ProgramLine {
    Label(String),
    Instruction { address: usize, has_breakpoint: bool, instruction: String },
}

/// Whether `line` is an instruction line at address `a`.
pub open spec fn line_has_address(line: ProgramLine, a: usize) -> bool {
    match line {
        ProgramLine::Instruction { address, .. } => address == a,
        ProgramLine::Label(_) => false,
    }
}

/// The address of an instruction line (zero for a label line, which
/// carries no address).
pub open spec fn instr_address(line: ProgramLine) -> usize {
    match line {
        ProgramLine::Instruction { address, .. } => address,
        ProgramLine::Label(_) => 0,
    }
}

/// The number of words the instruction in `item` occupies; zero for
/// everything that is not an instruction.
pub open spec fn item_size(item: ProgramItem) -> int {
    match item {
        ProgramItem::Instruction { size, .. } => size as int,
        _ => 0,
    }
}

/// The program's total length in words: the sum of all instruction sizes.
pub open spec fn items_total_size(items: Seq<ProgramItem>) -> int
    decreases items.len(),
{
    if items.len() == 0 {
        0
    } else {
        item_size(items[0]) + items_total_size(items.skip(1))
    }
}

/// The display lines of the item stream `items`, with the running address
/// starting at `addr` and a breakpoint marker pending iff `pending`.
pub open spec fn render_from(items: Seq<ProgramItem>, addr: int, pending: bool) -> Seq<
    ProgramLine,
>
    decreases items.len(),
{
    if items.len() == 0 {
        Seq::empty()
    } else {
        let rest = items.skip(1);
        match items[0] {
            ProgramItem::TypeHint => render_from(rest, addr, pending),
            ProgramItem::Breakpoint => render_from(rest, addr, true),
            ProgramItem::Label(name) => seq![ProgramLine::Label(name)] + render_from(
                rest,
                addr,
                pending,
            ),
            ProgramItem::Instruction { size, text } => seq![
                ProgramLine::Instruction {
                    address: addr as usize,
                    has_breakpoint: pending,
                    instruction: text,
                },
            ] + render_from(rest, addr + size, false),
        }
    }
}

/// The rendered form of a whole program: addresses start at zero and no
/// breakpoint marker is pending.
pub open spec fn render_spec(items: Seq<ProgramItem>) -> Seq<ProgramLine> {
    render_from(items, 0, false)
}

/// Instruction sizes never shrink the sum: the total size of a stream is
/// at least zero.
pub proof fn lemma_total_size_nonneg(items: Seq<ProgramItem>)
    ensures
        items_total_size(items) >= 0,
    decreases items.len(),
{
    if items.len() > 0 {
        lemma_total_size_nonneg(items.skip(1));
    }
}

impl Program {
    /// The program's total length in words.
    pub fn len_bwords(&self) -> (n: usize)
        requires
            items_total_size(self.items@) <= usize::MAX as int,
        ensures
            n == items_total_size(self.items@),
    {
        let mut n: usize = 0;
        let mut i: usize = 0;
        proof {
            assert(self.items@.skip(0) =~= self.items@);
        }
        while i < self.items.len()
            invariant
                i <= self.items.len(),
                items_total_size(self.items@) <= usize::MAX as int,
                n + items_total_size(self.items@.skip(i as int)) == items_total_size(self.items@),
                n >= 0,
            decreases self.items.len() - i,
        {
            proof {
                assert(self.items@.skip(i as int).len() > 0);
                assert(self.items@.skip(i as int)[0] == self.items@[i as int]);
                assert(self.items@.skip(i as int).skip(1) =~= self.items@.skip(i as int + 1));
                lemma_total_size_nonneg(self.items@.skip(i as int + 1));
            }
            match &self.items[i] {
                ProgramItem::Instruction { size, .. } => {
                    n = n + *size;
                },
                _ => {},
            }
            i += 1;
        }
        proof {
            assert(self.items@.skip(i as int) =~= Seq::<ProgramItem>::empty());
        }
        n
    }
}

/// Renders a program into its ordered sequence of display lines: pure
/// annotations vanish, a breakpoint marker attaches to the next real
/// instruction (labels in between neither consume nor drop it), and each
/// instruction line carries the running word address.
pub fn render_program(program: &Program) -> (lines: Vec<ProgramLine>)
    requires
        items_total_size(program.items@) <= usize::MAX as int,
    ensures
        lines@ == render_spec(program.items@),
{
    let mut lines: Vec<ProgramLine> = Vec::new();
    let mut address: usize = 0;
    let mut has_breakpoint = false;
    let mut i: usize = 0;
    proof {
        assert(program.items@.skip(0) =~= program.items@);
        assert(Seq::<ProgramLine>::empty() + render_from(program.items@, 0, false) =~= render_from(
            program.items@,
            0,
            false,
        ));
    }
    while i < program.items.len()
        invariant
            i <= program.items.len(),
            items_total_size(program.items@) <= usize::MAX as int,
            address + items_total_size(program.items@.skip(i as int)) <= items_total_size(
                program.items@,
            ),
            address >= 0,
            render_spec(program.items@) == lines@ + render_from(
                program.items@.skip(i as int),
                address as int,
                has_breakpoint,
            ),
        decreases program.items.len() - i,
    {
        proof {
            assert(program.items@.skip(i as int).len() > 0);
            assert(program.items@.skip(i as int)[0] == program.items@[i as int]);
            assert(program.items@.skip(i as int).skip(1) =~= program.items@.skip(i as int + 1));
            lemma_total_size_nonneg(program.items@.skip(i as int + 1));
        }
        match &program.items[i] {
            ProgramItem::TypeHint => {},
            ProgramItem::Breakpoint => {
                has_breakpoint = true;
            },
            ProgramItem::Label(name) => {
                lines.push(ProgramLine::Label(name.clone()));
            },
            ProgramItem::Instruction { size, text } => {
                let line = ProgramLine::Instruction {
                    address,
                    has_breakpoint,
                    instruction: text.clone(),
                };
                lines.push(line);
                address = address + *size;
                has_breakpoint = false;
            },
        }
        proof {
            assert(render_spec(program.items@) == lines@ + render_from(
                program.items@.skip(i as int + 1),
                address as int,
                has_breakpoint,
            )) by {
                assert(lines@ + render_from(
                    program.items@.skip(i as int + 1),
                    address as int,
                    has_breakpoint,
                ) =~= render_spec(program.items@));
            }
        }
        i += 1;
    }
    proof {
        assert(program.items@.skip(i as int) =~= Seq::<ProgramItem>::empty());
        assert(lines@ + render_from(Seq::empty(), address as int, has_breakpoint) =~= lines@);
    }
    lines
}

/// The name of the last label whose running address (starting the walk
/// at `addr`) equals `target`; nothing when no label sits there. The
/// last label wins, as the engine's own address-to-label table keeps
/// the latest entry per address.
pub open spec fn label_from(items: Seq<ProgramItem>, addr: int, target: int) -> Option<Seq<char>>
    decreases items.len(),
{
    if items.len() == 0 {
        None
    } else {
        let rest = label_from(items.skip(1), addr + item_size(items[0]), target);
        if rest is Some {
            rest
        } else {
            match items[0] {
                ProgramItem::Label(name) => if addr == target {
                    Some(name@)
                } else {
                    None
                },
                _ => None,
            }
        }
    }
}

/// The text shown for an address on the call stack: the label standing
/// at that address, or a deterministic substitute naming the address.
pub open spec fn label_text_for_address(items: Seq<ProgramItem>, target: int) -> Seq<char> {
    match label_from(items, 0, target) {
        Some(l) => l,
        None => "address_"@ + dec_rep(if target >= 0 {
            target as nat
        } else {
            0
        }),
    }
}

/// The preferred of two optional labels: the first when it is there.
pub open spec fn opt_label_or(a: Option<Seq<char>>, b: Option<Seq<char>>) -> Option<Seq<char>> {
    if a is Some {
        a
    } else {
        b
    }
}

/// The deep view of an optional owned label.
pub open spec fn opt_string_view(o: Option<String>) -> Option<Seq<char>> {
    match o {
        Some(s) => Some(s@),
        None => None,
    }
}

impl Program {
    /// The label for the given address, or a deterministic, unique
    /// substitute if no label is found.
    pub fn label_for_address(&self, address: u64) -> (r: String)
        requires
            items_total_size(self.items@) <= usize::MAX as int,
        ensures
            r@ == label_text_for_address(self.items@, address as int),
    {
        let mut found: Option<String> = None;
        let mut addr: usize = 0;
        let mut i: usize = 0;
        proof {
            assert(self.items@.skip(0) =~= self.items@);
        }
        while i < self.items.len()
            invariant
                i <= self.items.len(),
                items_total_size(self.items@) <= usize::MAX as int,
                addr + items_total_size(self.items@.skip(i as int)) <= items_total_size(
                    self.items@,
                ),
                addr >= 0,
                opt_label_or(
                    label_from(self.items@.skip(i as int), addr as int, address as int),
                    opt_string_view(found),
                ) == label_from(self.items@, 0, address as int),
            decreases self.items.len() - i,
        {
            proof {
                assert(self.items@.skip(i as int).len() > 0);
                assert(self.items@.skip(i as int)[0] == self.items@[i as int]);
                assert(self.items@.skip(i as int).skip(1) =~= self.items@.skip(i as int + 1));
                lemma_total_size_nonneg(self.items@.skip(i as int + 1));
            }
            match &self.items[i] {
                ProgramItem::Label(name) => {
                    if addr as u64 == address {
                        found = Some(name.clone());
                    }
                },
                ProgramItem::Instruction { size, .. } => {
                    addr = addr + *size;
                },
                _ => {},
            }
            i += 1;
        }
        proof {
            assert(self.items@.skip(i as int) =~= Seq::<ProgramItem>::empty());
        }
        match found {
            Some(l) => l,
            None => {
                let mut s = "address_".to_owned();
                crate::text::push_decimal(&mut s, address);
                s
            },
        }
    }
}

/// Every instruction line of `lines` has an address of at least `addr`.
pub open spec fn addresses_at_least(lines: Seq<ProgramLine>, addr: int) -> bool {
    forall|k: int|
        0 <= k < lines.len() && (#[trigger] lines[k]) is Instruction ==> addr <= instr_address(
            lines[k],
        )
}

/// Instruction-line addresses grow strictly with the line position.
pub open spec fn strictly_sorted_by_address(lines: Seq<ProgramLine>) -> bool {
    forall|k1: int, k2: int|
        #![trigger lines[k1], lines[k2]]
        0 <= k1 < k2 < lines.len() && lines[k1] is Instruction && lines[k2] is Instruction
            ==> instr_address(lines[k1]) < instr_address(lines[k2])
}

/// Instruction-line addresses never decrease with the line position.
pub open spec fn sorted_by_address(lines: Seq<ProgramLine>) -> bool {
    forall|k1: int, k2: int|
        #![trigger lines[k1], lines[k2]]
        0 <= k1 <= k2 < lines.len() && lines[k1] is Instruction && lines[k2] is Instruction
            ==> instr_address(lines[k1]) <= instr_address(lines[k2])
}

/// Every instruction of `items` occupies at least one word. This is what
/// makes the addresses of a rendered program strictly increasing.
pub open spec fn positive_instruction_sizes(items: Seq<ProgramItem>) -> bool {
    forall|k: int|
        0 <= k < items.len() && (#[trigger] items[k]) is Instruction ==> item_size(items[k]) >= 1
}

/// Rendering from a running address `addr` yields instruction lines whose
/// addresses start at `addr` and grow strictly, since addresses derive
/// from cumulative positive instruction sizes.
pub proof fn lemma_render_from_monotonic(items: Seq<ProgramItem>, addr: int, pending: bool)
    requires
        0 <= addr,
        addr + items_total_size(items) <= usize::MAX as int,
        positive_instruction_sizes(items),
    ensures
        addresses_at_least(render_from(items, addr, pending), addr),
        strictly_sorted_by_address(render_from(items, addr, pending)),
    decreases items.len(),
{
    if items.len() == 0 {
    } else {
        let rest = items.skip(1);
        let lines = render_from(items, addr, pending);
        assert(forall|k: int| 0 <= k < rest.len() ==> rest[k] == items[k + 1]);
        lemma_total_size_nonneg(rest);
        match items[0] {
            ProgramItem::TypeHint => {
                lemma_render_from_monotonic(rest, addr, pending);
            },
            ProgramItem::Breakpoint => {
                lemma_render_from_monotonic(rest, addr, true);
            },
            ProgramItem::Label(name) => {
                lemma_render_from_monotonic(rest, addr, pending);
                let tail = render_from(rest, addr, pending);
                assert(forall|k: int| 1 <= k < lines.len() ==> lines[k] == tail[k - 1]);
            },
            ProgramItem::Instruction { size, text } => {
                lemma_render_from_monotonic(rest, addr + size, false);
                let tail = render_from(rest, addr + size, false);
                assert(forall|k: int| 1 <= k < lines.len() ==> lines[k] == tail[k - 1]);
                assert(lines[0] == ProgramLine::Instruction {
                    address: addr as usize,
                    has_breakpoint: pending,
                    instruction: text,
                });
                assert(instr_address(lines[0]) == addr);
            },
        }
    }
}

/// The display-line invariant: whatever the instruction sizes, the
/// addresses of a rendered program's instruction lines never decrease
/// with the line position — they derive from cumulative sizes. This
/// monotonicity is what makes the binary search of the address index
/// valid.
pub proof fn lemma_render_from_sorted(items: Seq<ProgramItem>, addr: int, pending: bool)
    requires
        0 <= addr,
        addr + items_total_size(items) <= usize::MAX as int,
    ensures
        addresses_at_least(render_from(items, addr, pending), addr),
        sorted_by_address(render_from(items, addr, pending)),
    decreases items.len(),
{
    if items.len() == 0 {
    } else {
        let rest = items.skip(1);
        let lines = render_from(items, addr, pending);
        assert(forall|k: int| 0 <= k < rest.len() ==> rest[k] == items[k + 1]);
        lemma_total_size_nonneg(rest);
        match items[0] {
            ProgramItem::TypeHint => {
                lemma_render_from_sorted(rest, addr, pending);
            },
            ProgramItem::Breakpoint => {
                lemma_render_from_sorted(rest, addr, true);
            },
            ProgramItem::Label(name) => {
                lemma_render_from_sorted(rest, addr, pending);
                let tail = render_from(rest, addr, pending);
                assert(forall|k: int| 1 <= k < lines.len() ==> lines[k] == tail[k - 1]);
            },
            ProgramItem::Instruction { size, text } => {
                lemma_render_from_sorted(rest, addr + size, false);
                let tail = render_from(rest, addr + size, false);
                assert(forall|k: int| 1 <= k < lines.len() ==> lines[k] == tail[k - 1]);
                assert(lines[0] == ProgramLine::Instruction {
                    address: addr as usize,
                    has_breakpoint: pending,
                    instruction: text,
                });
                assert(instr_address(lines[0]) == addr);
            },
        }
    }
}

/// Strictly increasing addresses are in particular never decreasing.
pub proof fn lemma_strictly_sorted_implies_sorted(lines: Seq<ProgramLine>)
    requires
        strictly_sorted_by_address(lines),
    ensures
        sorted_by_address(lines),
{
}

/// Rendering is deterministic and idempotent: it is a pure function of
/// the item stream, so two renderings of the same program are equal.
pub proof fn lemma_render_deterministic(
    items: Seq<ProgramItem>,
    first: Seq<ProgramLine>,
    second: Seq<ProgramLine>,
)
    requires
        first == render_spec(items),
        second == render_spec(items),
    ensures
        first == second,
{
}

/// The number of characters it takes to print any address of the program:
/// the decimal width of its total length in words.
pub fn address_render_width(program: &Program) -> (w: usize)
    requires
        items_total_size(program.items@) <= usize::MAX as int,
    ensures
        w == dec_rep(items_total_size(program.items@) as nat).len(),
{
    let max_address = program.len_bwords();
    let s = u64_to_string(max_address as u64);
    s.as_str().unicode_len()
}

} // verus!
