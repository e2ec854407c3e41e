//! The composite view: the per-pane visibility flags, the lazily
//! rendered program cache, the command handler, and the assembly of one
//! frame's layout and pane text.

use vstd::prelude::*;
use vstd::string::StringExecFns;

use crate::action::Action;
use crate::action::Toggle;
use crate::index::line_index_of_address;
use crate::layout::Rect;
use crate::layout::WidgetAreas;
use crate::layout::distribute_area;
use crate::layout::layout_spec;
use crate::message::message;
use crate::message::message_text;
use crate::panes::call_stack_rows;
use crate::panes::call_stack_text;
use crate::panes::call_stack_title;
use crate::panes::call_stack_title_text;
use crate::panes::inner_height;
use crate::panes::inner_text_height;
use crate::panes::maybe_public_input_line;
use crate::panes::maybe_secret_input_line;
use crate::panes::op_stack_rows;
use crate::panes::op_stack_text;
use crate::panes::op_stack_title;
use crate::panes::op_stack_title_text;
use crate::panes::program_title;
use crate::panes::program_title_text;
use crate::panes::public_input_text;
use crate::panes::secret_input_text;
use crate::panes::sponge_rows;
use crate::panes::sponge_text;
use crate::panes::type_hint_rows;
use crate::panes::type_hint_text;
use crate::program::ProgramLine;
use crate::program::address_render_width;
use crate::program::items_total_size;
use crate::program::line_has_address;
use crate::program::render_program;
use crate::program::render_spec;
use crate::program::sorted_by_address;
use crate::state::DebuggerState;
use crate::text::dec_rep;
use crate::text::pad_left;
use crate::text::padded_left;
use crate::text::push_decimal;
use crate::text::u64_to_string;

verus! {

/// The view's whole mutable state: four independent visibility flags and
/// the lazily pre-rendered program. The cache is absent on construction
/// and after a reset, is filled once on the next draw, and is only ever
/// replaced wholesale.
#[derive(Clone, Debug)]
pub struct Home {
    pub type_hints: bool,
    pub call_stack: bool,
    pub sponge: bool,
    pub inputs: bool,
    /// Lazily pre-rendered program. Reduces rendering time for long
    /// programs.
    pub rendered_program: Option<Vec<ProgramLine>>,
}

/// Whether any of the four panes is currently visible.
pub open spec fn any_widget_visible(h: Home) -> bool {
    h.type_hints || h.call_stack || h.sponge || h.inputs
}

/// `h` with every pane visibility set to `v`, the cache untouched.
pub open spec fn all_visibility_set_to(h: Home, v: bool) -> Home {
    Home { type_hints: v, call_stack: v, sponge: v, inputs: v, ..h }
}

/// The state after one toggle command: an individual toggle flips its
/// own flag alone; the `All` toggle hides every pane when any is shown
/// and shows every pane otherwise; the reserved toggle does nothing.
pub open spec fn toggled(h: Home, t: Toggle) -> Home {
    match t {
        Toggle::All => all_visibility_set_to(h, !any_widget_visible(h)),
        Toggle::TypeHint => Home { type_hints: !h.type_hints, ..h },
        Toggle::CallStack => Home { call_stack: !h.call_stack, ..h },
        Toggle::SpongeState => Home { sponge: !h.sponge, ..h },
        Toggle::Input => Home { inputs: !h.inputs, ..h },
        Toggle::BlockAddress => h,
    }
}

/// The state after one command: a toggle as [`toggled`] says; a reset
/// drops the rendered-program cache and touches nothing else.
pub open spec fn updated(h: Home, a: Action) -> Home {
    match a {
        Action::Toggle(t) => toggled(h, t),
        Action::Reset => Home { rendered_program: None, ..h },
    }
}

impl Default for Home {
    /// A fresh view: type hints, call stack and inputs shown, the sponge
    /// hidden, nothing rendered yet.
    fn default() -> (h: Home)
        ensures
            h.type_hints,
            h.call_stack,
            !h.sponge,
            h.inputs,
            h.rendered_program is None,
    {
        Home {
            type_hints: true,
            call_stack: true,
            sponge: false,
            inputs: true,
            rendered_program: None,
        }
    }
}

impl Home {
    /// Applies one toggle command.
    pub fn toggle_widget(&mut self, toggle: Toggle)
        ensures
            *final(self) == toggled(*old(self), toggle),
    {
        match toggle {
            Toggle::All => self.toggle_all_widgets(),
            Toggle::TypeHint => self.type_hints = !self.type_hints,
            Toggle::CallStack => self.call_stack = !self.call_stack,
            Toggle::SpongeState => self.sponge = !self.sponge,
            Toggle::Input => self.inputs = !self.inputs,
            Toggle::BlockAddress => (),
        }
    }

    /// Hides every pane when any is shown; shows every pane otherwise.
    pub fn toggle_all_widgets(&mut self)
        ensures
            *final(self) == toggled(*old(self), Toggle::All),
    {
        let vs = self.all_widget_visibilities();
        let any_widget_is_shown = vs[0] || vs[1] || vs[2] || vs[3];
        self.set_all_widgets_visibility_to(!any_widget_is_shown);
    }

    /// The four pane visibilities, in a fixed order.
    pub fn all_widget_visibilities(&self) -> (vs: [bool; 4])
        ensures
            vs@ == seq![self.type_hints, self.call_stack, self.sponge, self.inputs],
    {
        let vs = [self.type_hints, self.call_stack, self.sponge, self.inputs];
        proof {
            assert(vs@ =~= seq![self.type_hints, self.call_stack, self.sponge, self.inputs]);
        }
        vs
    }

    /// Sets every pane visibility to `visibility`.
    pub fn set_all_widgets_visibility_to(&mut self, visibility: bool)
        ensures
            *final(self) == all_visibility_set_to(*old(self), visibility),
    {
        self.type_hints = visibility;
        self.call_stack = visibility;
        self.sponge = visibility;
        self.inputs = visibility;
    }

    /// Applies one command between frames: a pure state transition that
    /// never answers with a further command.
    pub fn update(&mut self, action: Action) -> (r: Option<Action>)
        ensures
            *final(self) == updated(*old(self), action),
            r is None,
    {
        match action {
            Action::Toggle(toggle) => self.toggle_widget(toggle),
            Action::Reset => self.rendered_program = None,
        }
        None
    }
}

/// Toggling every pane at once twice in a row restores the flags
/// exactly, whenever the four flags agree beforehand — as they do after
/// any `All` toggle. (From a mixed state, one `All` toggle hides
/// everything and a second shows everything, so agreement is needed.)
pub proof fn lemma_toggle_all_twice_restores(h: Home)
    requires
        h.type_hints == h.call_stack,
        h.call_stack == h.sponge,
        h.sponge == h.inputs,
    ensures
        toggled(toggled(h, Toggle::All), Toggle::All) == h,
{
}

/// What the program pane shows.
#[derive(Clone, Debug)]
pub enum ProgramPane {
    /// The program has not been rendered yet; a placeholder explains so.
    Rendering { text: String },
    /// The instruction pointer resolves to no display line; a
    /// placeholder names the unresolvable address.
    NoInstructionAt { text: String },
    /// A window of the rendered program, scrolled so the current
    /// instruction sits near the middle.
    Window { first_line: usize, rows: Vec<String> },
}

/// The placeholder while the program has not been rendered.
pub open spec fn rendering_placeholder_text() -> Seq<char> {
    "\nRendering program\u{2026}"@
}

/// The placeholder when no line carries the instruction pointer.
pub open spec fn no_instruction_text(ip: usize) -> Seq<char> {
    "\nNo instruction at address "@ + dec_rep(ip as nat) + "!"@
}

/// One row of the program pane: a label as ` name:`; an instruction as
/// the pointer arrow or a space, the breakpoint marker or the address
/// right-aligned to the program's address width, and the instruction
/// text.
pub open spec fn program_row(line: ProgramLine, ip: usize, width: int) -> Seq<char> {
    match line {
        ProgramLine::Label(name) => " "@ + name@ + ":"@,
        ProgramLine::Instruction { address, has_breakpoint, instruction } => (if address == ip {
            "\u{2192}"@
        } else {
            " "@
        }) + (if has_breakpoint {
            padded_left("\u{1f534}"@, width) + "  "@
        } else {
            " "@ + padded_left(dec_rep(address as nat), width) + "  "@
        }) + instruction@,
    }
}

/// The first visible line of the scrolled program window: the line
/// holding the instruction pointer sits near the middle, clamped with
/// saturating arithmetic so the window never starts before the first or
/// after the last line.
pub open spec fn first_visible_line(ip_line: int, pane_height: int, len: int) -> int {
    let target = if ip_line + pane_height / 2 <= len {
        ip_line + pane_height / 2
    } else {
        len
    };
    if target >= pane_height {
        target - pane_height
    } else {
        0
    }
}

/// How many rows the window holds: a full pane, or what remains of the
/// program.
pub open spec fn window_row_count(first: int, pane_height: int, len: int) -> nat {
    if len - first <= pane_height {
        (len - first) as nat
    } else {
        pane_height as nat
    }
}

/// What the program pane must show over a rendered line sequence: a
/// placeholder naming the instruction pointer when (on sorted lines) no
/// line carries it, else a window whose first line centres some line
/// carrying it.
pub open spec fn program_pane_ok(
    lines: Seq<ProgramLine>,
    ip: usize,
    pane_height: int,
    width: int,
    p: ProgramPane,
) -> bool {
    match p {
        ProgramPane::Rendering { .. } => false,
        ProgramPane::NoInstructionAt { text } => {
            &&& text@ == no_instruction_text(ip)
            &&& sorted_by_address(lines) ==> !(exists|j: int|
                0 <= j < lines.len() && line_has_address(lines[j], ip))
        },
        ProgramPane::Window { first_line, rows } => exists|idx: int|
            {
                &&& 0 <= idx < lines.len()
                &&& #[trigger] line_has_address(lines[idx], ip)
                &&& first_line == first_visible_line(idx, pane_height, lines.len() as int)
                &&& rows.deep_view() == Seq::new(
                    window_row_count(first_line as int, pane_height, lines.len() as int),
                    |k: int| program_row(lines[first_line + k], ip, width),
                )
            },
    }
}

/// Whether the public-input band has something to show.
pub open spec fn show_public_input(h: Home, state: DebuggerState) -> bool {
    state.vm_state.public_input@.len() > 0 && h.inputs
}

/// Whether the secret-input band has something to show.
pub open spec fn show_secret_input(h: Home, state: DebuggerState) -> bool {
    state.vm_state.secret_individual_tokens@.len() > 0 && h.inputs
}

/// The sponge state as an optional plain sequence.
pub open spec fn sponge_view(o: Option<Vec<u64>>) -> Option<Seq<u64>> {
    match o {
        Some(st) => Some(st@),
        None => None,
    }
}

impl Home {
    /// Asks the layout allocator for this frame's pane rectangles,
    /// feeding it the current visibility and content-presence flags.
    pub fn distribute_area_for_widgets(&self, state: &DebuggerState, area: Rect) -> (areas:
        WidgetAreas)
        requires
            area.wf(),
        ensures
            areas == layout_spec(
                area,
                self.type_hints,
                self.call_stack,
                self.sponge,
                show_public_input(*self, *state),
                show_secret_input(*self, *state),
            ),
    {
        let show_public = maybe_public_input_line(
            self.inputs,
            &state.vm_state.public_input,
        ).is_some();
        let show_secret = maybe_secret_input_line(
            self.inputs,
            &state.vm_state.secret_individual_tokens,
        ).is_some();
        distribute_area(area, self.type_hints, self.call_stack, self.sponge, show_public, show_secret)
    }

    /// The program pane's content: a placeholder while nothing is
    /// rendered or when the instruction pointer resolves to no line,
    /// else a window of rows scrolled around the current instruction.
    pub fn program_widget_text(&self, state: &DebuggerState, num_lines_to_render: usize) -> (p:
        ProgramPane)
        requires
            state.wf(),
        ensures
            self.rendered_program is None ==> (p matches ProgramPane::Rendering { text } && text@
                == rendering_placeholder_text()),
            self.rendered_program matches Some(lines) ==> program_pane_ok(
                lines@,
                state.vm_state.instruction_pointer,
                num_lines_to_render as int,
                dec_rep(items_total_size(state.program.items@) as nat).len() as int,
                p,
            ),
    {
        let ip = state.vm_state.instruction_pointer;
        let program = match &self.rendered_program {
            None => {
                return ProgramPane::Rendering { text: "\nRendering program\u{2026}".to_owned() };
            },
            Some(program) => program,
        };
        let idx_of_line_with_ip = match line_index_of_address(program.as_slice(), ip) {
            None => {
                let mut text = "\nNo instruction at address ".to_owned();
                push_decimal(&mut text, ip as u64);
                text.append("!");
                return ProgramPane::NoInstructionAt { text };
            },
            Some(idx) => idx,
        };
        let len = program.len();
        let half = num_lines_to_render / 2;
        let summed = if idx_of_line_with_ip <= usize::MAX - half {
            idx_of_line_with_ip + half
        } else {
            usize::MAX
        };
        let target = if summed < len {
            summed
        } else {
            len
        };
        let first_line = if target >= num_lines_to_render {
            target - num_lines_to_render
        } else {
            0
        };
        let count = if len - first_line <= num_lines_to_render {
            len - first_line
        } else {
            num_lines_to_render
        };
        let width = address_render_width(&state.program);
        let ghost lines = program@;
        let mut rows: Vec<String> = Vec::new();
        let mut t: usize = 0;
        while t < count
            invariant
                t <= count,
                first_line + count <= lines.len(),
                lines.len() <= usize::MAX as int,
                ip == state.vm_state.instruction_pointer,
                lines == program@,
                rows.deep_view() == Seq::new(
                    t as nat,
                    |u: int|
                        program_row(
                            lines[first_line + u],
                            state.vm_state.instruction_pointer,
                            width as int,
                        ),
                ),
            decreases count - t,
        {
            let ghost before = rows.deep_view();
            let row = render_program_row(&program[first_line + t], ip, width);
            rows.push(row);
            proof {
                assert(rows.deep_view() =~= before.push(row@));
                assert(rows.deep_view() =~= Seq::new(
                    (t + 1) as nat,
                    |u: int|
                        program_row(
                            lines[first_line + u],
                            state.vm_state.instruction_pointer,
                            width as int,
                        ),
                ));
            }
            t += 1;
        }
        let p = ProgramPane::Window { first_line, rows };
        proof {
            let idx = idx_of_line_with_ip as int;
            assert(line_has_address(lines[idx], ip));
            assert(first_line as int == first_visible_line(
                idx,
                num_lines_to_render as int,
                lines.len() as int,
            ));
            assert(count as nat == window_row_count(
                first_line as int,
                num_lines_to_render as int,
                lines.len() as int,
            ));
        }
        p
    }

    /// Assembles one frame: fills the program cache if it is absent,
    /// partitions the area, and builds every pane's text. The
    /// visibility flags are left untouched; the cache is only ever
    /// filled here, never replaced.
    pub fn draw(&mut self, state: &DebuggerState, area: Rect) -> (frame: FrameModel)
        requires
            state.wf(),
            area.wf(),
        ensures
            final(self).type_hints == old(self).type_hints,
            final(self).call_stack == old(self).call_stack,
            final(self).sponge == old(self).sponge,
            final(self).inputs == old(self).inputs,
            final(self).rendered_program is Some,
            old(self).rendered_program is Some ==> final(self).rendered_program == old(
                self,
            ).rendered_program,
            old(self).rendered_program is None ==> final(self).rendered_program->0@ == render_spec(
                state.program.items@,
            ),
            frame_ok(*final(self), *state, area, frame),
    {
        if self.rendered_program.is_none() {
            self.rendered_program = Some(render_program(&state.program));
        }
        let areas = self.distribute_area_for_widgets(state, area);
        let op_stack_rows_text = op_stack_text(
            &state.vm_state.op_stack,
            inner_text_height(areas.op_stack.height),
        );
        let type_hint_rows_text = type_hint_text(
            &state.type_hints,
            inner_text_height(areas.type_hint.height),
        );
        let program_pane = self.program_widget_text(
            state,
            inner_text_height(areas.program.height),
        );
        let width = address_render_width(&state.program);
        let call_stack_rows_text = call_stack_text(
            &state.program,
            &state.vm_state.jump_stack,
            inner_text_height(areas.call_stack.height),
            width,
        );
        let sponge_rows_text = sponge_text(
            &state.vm_state.sponge,
            inner_text_height(areas.sponge.height),
        );
        FrameModel {
            areas,
            op_stack_title: op_stack_title(state.vm_state.op_stack.len()),
            op_stack_rows: op_stack_rows_text,
            type_hint_rows: type_hint_rows_text,
            program_title: program_title(state.vm_state.cycle_count),
            program_pane,
            call_stack_title: call_stack_title(state.vm_state.jump_stack.len()),
            call_stack_rows: call_stack_rows_text,
            sponge_rows: sponge_rows_text,
            public_input_line: maybe_public_input_line(self.inputs, &state.vm_state.public_input),
            secret_input_line: maybe_secret_input_line(
                self.inputs,
                &state.vm_state.secret_individual_tokens,
            ),
            message: message(state),
            halting: state.vm_state.halting,
            type_hints_visible: self.type_hints,
            call_stack_visible: self.call_stack,
            sponge_visible: self.sponge,
        }
    }
}

/// One row of the program pane, rendered.
fn render_program_row(line: &ProgramLine, ip: usize, width: usize) -> (r: String)
    ensures
        r@ == program_row(*line, ip, width as int),
{
    match line {
        ProgramLine::Label(name) => {
            let mut s = " ".to_owned();
            s.append(name.as_str());
            s.append(":");
            s
        },
        ProgramLine::Instruction { address, has_breakpoint, instruction } => {
            let mut s = if *address == ip {
                "\u{2192}".to_owned()
            } else {
                " ".to_owned()
            };
            if *has_breakpoint {
                let marker = pad_left("\u{1f534}", width);
                s.append(marker.as_str());
                s.append("  ");
            } else {
                s.append(" ");
                let a = u64_to_string(*address as u64);
                let padded = pad_left(a.as_str(), width);
                s.append(padded.as_str());
                s.append("  ");
            }
            s.append(instruction.as_str());
            s
        },
    }
}

/// Everything one frame paints: the pane rectangles, each pane's title
/// and text rows, the input and message lines, and the flags the shell
/// needs to decide which panes to paint at all.
#[derive(Clone, Debug)]
pub struct FrameModel {
    pub areas: WidgetAreas,
    pub op_stack_title: String,
    pub op_stack_rows: Vec<String>,
    pub type_hint_rows: Vec<String>,
    pub program_title: String,
    pub program_pane: ProgramPane,
    pub call_stack_title: String,
    pub call_stack_rows: Vec<String>,
    pub sponge_rows: Vec<String>,
    pub public_input_line: Option<String>,
    pub secret_input_line: Option<String>,
    pub message: String,
    pub halting: bool,
    pub type_hints_visible: bool,
    pub call_stack_visible: bool,
    pub sponge_visible: bool,
}

/// What a drawn frame promises, given the view state `h` after the draw
/// (its program cache is filled): the rectangles come from the layout
/// allocator, every pane's rows equal its builder's text over the
/// snapshot, the input lines appear exactly when owed, and the message
/// line is the one the resolver picks.
pub open spec fn frame_ok(h: Home, state: DebuggerState, area: Rect, frame: FrameModel) -> bool {
    let width = dec_rep(items_total_size(state.program.items@) as nat).len() as int;
    let areas = layout_spec(
        area,
        h.type_hints,
        h.call_stack,
        h.sponge,
        show_public_input(h, state),
        show_secret_input(h, state),
    );
    &&& frame.areas == areas
    &&& frame.op_stack_title@ == op_stack_title_text(state.vm_state.op_stack@.len() as int)
    &&& frame.op_stack_rows.deep_view() == op_stack_rows(
        state.vm_state.op_stack@,
        inner_height(areas.op_stack.height),
    )
    &&& frame.type_hint_rows.deep_view() == type_hint_rows(
        state.type_hints.deep_view(),
        inner_height(areas.type_hint.height),
    )
    &&& frame.program_title@ == program_title_text(state.vm_state.cycle_count as int)
    &&& (h.rendered_program matches Some(lines) ==> program_pane_ok(
        lines@,
        state.vm_state.instruction_pointer,
        inner_height(areas.program.height),
        width,
        frame.program_pane,
    ))
    &&& frame.call_stack_title@ == call_stack_title_text(state.vm_state.jump_stack@.len() as int)
    &&& frame.call_stack_rows.deep_view() == call_stack_rows(
        state.program.items@,
        state.vm_state.jump_stack@,
        inner_height(areas.call_stack.height),
        width,
    )
    &&& frame.sponge_rows.deep_view() == sponge_rows(
        sponge_view(state.vm_state.sponge),
        inner_height(areas.sponge.height),
    )
    &&& (frame.public_input_line is Some <==> show_public_input(h, state))
    &&& (frame.public_input_line matches Some(l) ==> l@ == public_input_text(
        state.vm_state.public_input@,
    ))
    &&& (frame.secret_input_line is Some <==> show_secret_input(h, state))
    &&& (frame.secret_input_line matches Some(l) ==> l@ == secret_input_text(
        state.vm_state.secret_individual_tokens@,
    ))
    &&& frame.message@ == message_text(state)
    &&& frame.halting == state.vm_state.halting
    &&& frame.type_hints_visible == h.type_hints
    &&& frame.call_stack_visible == h.call_stack
    &&& frame.sponge_visible == h.sponge
}

/// An individual pane toggle flips exactly its own flag: the other three
/// flags and the rendered-program cache stay as they were.
pub proof fn lemma_pane_toggle_flips_only_its_flag(h: Home, t: Toggle)
    requires
        t is TypeHint || t is CallStack || t is SpongeState || t is Input,
    ensures
        ({
            let h2 = toggled(h, t);
            &&& (h2.type_hints != h.type_hints) <==> t is TypeHint
            &&& (h2.call_stack != h.call_stack) <==> t is CallStack
            &&& (h2.sponge != h.sponge) <==> t is SpongeState
            &&& (h2.inputs != h.inputs) <==> t is Input
            &&& h2.rendered_program == h.rendered_program
        }),
{
}

} // verus!
