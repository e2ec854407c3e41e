//! View behaviour: visibility toggles, commands, message priority,
//! layout allocation, and the assembled frame.

use triton_tui::action::{Action, Toggle};
use triton_tui::home::{Home, ProgramPane};
use triton_tui::layout::{distribute_area, Rect};
use triton_tui::message::message;
use triton_tui::panes::{
    maybe_public_input_line, maybe_secret_input_line, op_stack_text, op_stack_title, sponge_text,
    type_hint_text,
};
use triton_tui::program::{Program, ProgramItem};
use triton_tui::state::{DebuggerState, VmSnapshot};

fn plain_state() -> DebuggerState {
    DebuggerState {
        program: Program {
            items: vec![
                ProgramItem::Label("main".to_string()),
                ProgramItem::Instruction { size: 1, text: "nop".to_string() },
                ProgramItem::Instruction { size: 1, text: "halt".to_string() },
            ],
        },
        vm_state: VmSnapshot {
            instruction_pointer: 0,
            cycle_count: 0,
            halting: false,
            op_stack: vec![7, 11],
            jump_stack: vec![],
            sponge: None,
            public_input: vec![],
            secret_individual_tokens: vec![],
            public_output: vec![],
        },
        type_hints: vec![],
        error: None,
        warning: None,
    }
}

#[test]
fn individual_toggles_flip_only_their_own_flag() {
    let mut home = Home::default();
    assert!(home.type_hints && home.call_stack && !home.sponge && home.inputs);

    home.toggle_widget(Toggle::SpongeState);
    assert!(home.type_hints && home.call_stack && home.sponge && home.inputs);

    home.toggle_widget(Toggle::TypeHint);
    assert!(!home.type_hints && home.call_stack && home.sponge && home.inputs);

    home.toggle_widget(Toggle::CallStack);
    assert!(!home.type_hints && !home.call_stack && home.sponge && home.inputs);

    home.toggle_widget(Toggle::Input);
    assert!(!home.type_hints && !home.call_stack && home.sponge && !home.inputs);

    home.toggle_widget(Toggle::BlockAddress);
    assert!(!home.type_hints && !home.call_stack && home.sponge && !home.inputs);
}

#[test]
fn toggling_all_hides_everything_then_shows_everything() {
    let mut home = Home::default();
    home.toggle_widget(Toggle::All);
    assert!(!home.type_hints && !home.call_stack && !home.sponge && !home.inputs);
    home.toggle_widget(Toggle::All);
    assert!(home.type_hints && home.call_stack && home.sponge && home.inputs);
    home.toggle_widget(Toggle::All);
    assert!(!home.type_hints && !home.call_stack && !home.sponge && !home.inputs);
}

#[test]
fn toggling_all_twice_restores_agreeing_flags() {
    let mut home = Home::default();
    home.toggle_widget(Toggle::All);
    let hidden = (home.type_hints, home.call_stack, home.sponge, home.inputs);
    home.toggle_widget(Toggle::All);
    home.toggle_widget(Toggle::All);
    assert_eq!(hidden, (home.type_hints, home.call_stack, home.sponge, home.inputs));
}

#[test]
fn reset_drops_the_rendered_program_cache() {
    let mut home = Home::default();
    let state = plain_state();
    let area = Rect { x: 0, y: 0, width: 150, height: 50 };
    home.draw(&state, area);
    assert!(home.rendered_program.is_some());

    let answer = home.update(Action::Reset);
    assert!(answer.is_none());
    assert!(home.rendered_program.is_none());
}

#[test]
fn error_wins_over_output_and_warning_wins_over_output() {
    let mut state = plain_state();
    state.vm_state.public_output = vec![42, 43];
    state.error = Some("stack too shallow".to_string());
    state.warning = Some("deprecated".to_string());
    assert_eq!("ERROR: stack too shallow", message(&state));

    state.error = None;
    assert_eq!("WARNING: deprecated", message(&state));

    state.warning = None;
    assert_eq!("Public output: [42, 43]", message(&state));

    state.vm_state.public_output = vec![];
    assert_eq!("Welcome to the Triton VM TUI! Press `h` for help.", message(&state));
}

#[test]
fn field_elements_print_small_plain_large_padded_and_high_as_negative() {
    let mut state = plain_state();
    state.vm_state.public_output = vec![256, 257, 0xffff_ffff_0000_0000];
    assert_eq!(
        "Public output: [256, 00000000000000000257, -1]",
        message(&state),
    );
}

#[test]
fn zero_height_area_yields_zero_height_panes() {
    let area = Rect { x: 0, y: 0, width: 80, height: 0 };
    let areas = distribute_area(area, true, true, false, true, true);
    assert_eq!(0, areas.op_stack.height);
    assert_eq!(0, areas.type_hint.height);
    assert_eq!(0, areas.program.height);
    assert_eq!(0, areas.call_stack.height);
    assert_eq!(0, areas.sponge.height);
    assert_eq!(0, areas.public_input.height);
    assert_eq!(0, areas.secret_input.height);
    assert_eq!(0, areas.message_box.height);
}

#[test]
fn zero_sized_area_yields_empty_rectangles_without_failing() {
    let area = Rect { x: 0, y: 0, width: 0, height: 0 };
    let areas = distribute_area(area, true, true, true, false, false);
    assert_eq!(0, areas.program.width);
    assert_eq!(0, areas.program.height);
    assert_eq!(0, areas.sponge.width);
}

#[test]
fn layout_gives_the_stack_thirty_cells_and_the_hidden_sponge_one() {
    let area = Rect { x: 0, y: 0, width: 150, height: 50 };
    let areas = distribute_area(area, true, true, false, false, false);

    assert_eq!(30, areas.op_stack.width);
    assert_eq!(1, areas.sponge.width);
    assert_eq!(48, areas.op_stack.height);
    assert_eq!(2, areas.message_box.height);
    assert_eq!(0, areas.public_input.height);
    assert_eq!(0, areas.secret_input.height);

    let middle = 150 - 30 - 1;
    assert_eq!(middle / 3, areas.type_hint.width);
    assert_eq!(middle / 3, areas.call_stack.width);
    assert_eq!(middle - 2 * (middle / 3), areas.program.width);
    assert_eq!(
        150,
        areas.op_stack.width + areas.type_hint.width + areas.program.width
            + areas.call_stack.width + areas.sponge.width
    );
}

#[test]
fn layout_reserves_input_bands_and_a_wide_visible_sponge() {
    let area = Rect { x: 0, y: 0, width: 150, height: 50 };
    let areas = distribute_area(area, false, false, true, true, true);

    assert_eq!(32, areas.sponge.width);
    assert_eq!(0, areas.type_hint.width);
    assert_eq!(0, areas.call_stack.width);
    assert_eq!(150 - 30 - 32, areas.program.width);
    assert_eq!(2, areas.public_input.height);
    assert_eq!(2, areas.secret_input.height);
    assert_eq!(50 - 6, areas.op_stack.height);
    assert_eq!(44, areas.public_input.y);
    assert_eq!(46, areas.secret_input.y);
    assert_eq!(48, areas.message_box.y);
}

#[test]
fn op_stack_pane_pads_to_the_top_and_lists_the_stack_top_first() {
    let rows = op_stack_text(&vec![100, 7], 4);
    assert_eq!(vec!["", "", "  0  7", "  1  100"], rows);
    assert_eq!(" Stack (size:    2) ", op_stack_title(2));
}

#[test]
fn sponge_pane_is_empty_without_a_sponge_and_indexed_with_one() {
    assert!(sponge_text(&None, 5).is_empty());
    let rows = sponge_text(&Some(vec![5, 6]), 3);
    assert_eq!(vec!["", "  0  5", "  1  6"], rows);
}

#[test]
fn type_hint_pane_collapses_continuous_runs() {
    let hints = vec![
        Some("digest".to_string()),
        Some("digest".to_string()),
        Some("digest".to_string()),
        Some("digest".to_string()),
        None,
    ];
    let rows = type_hint_text(&hints, 0);
    assert_eq!(vec!["", "digest", "\u{22c5}", "\u{22c5}", "digest"], rows);
}

#[test]
fn input_lines_show_only_when_present_and_visible() {
    assert_eq!(None, maybe_public_input_line(true, &vec![]));
    assert_eq!(None, maybe_public_input_line(false, &vec![1]));
    assert_eq!(
        Some("Public input: [1, 2, 3]".to_string()),
        maybe_public_input_line(true, &vec![1, 2, 3]),
    );
    assert_eq!(
        Some("Secret input: [9]".to_string()),
        maybe_secret_input_line(true, &vec![9]),
    );
    assert_eq!(None, maybe_secret_input_line(false, &vec![9]));
}

#[test]
fn drawing_renders_the_program_once_and_scrolls_to_the_pointer() {
    let mut home = Home::default();
    let mut state = plain_state();
    state.vm_state.instruction_pointer = 1;
    let area = Rect { x: 0, y: 0, width: 150, height: 50 };

    let frame = home.draw(&state, area);
    assert!(home.rendered_program.is_some());
    assert_eq!(3, home.rendered_program.as_ref().unwrap().len());

    match &frame.program_pane {
        ProgramPane::Window { first_line, rows } => {
            assert_eq!(0, *first_line);
            assert_eq!(vec![" main:", "  0  nop", "\u{2192} 1  halt"], *rows);
        }
        _ => panic!("expected a program window"),
    }
    assert_eq!("Welcome to the Triton VM TUI! Press `h` for help.", frame.message);
    assert!(!frame.halting);
}

#[test]
fn an_unresolvable_instruction_pointer_yields_the_placeholder() {
    let mut home = Home::default();
    let mut state = plain_state();
    state.vm_state.instruction_pointer = 99;
    let area = Rect { x: 0, y: 0, width: 150, height: 50 };

    let frame = home.draw(&state, area);
    match &frame.program_pane {
        ProgramPane::NoInstructionAt { text } => {
            assert_eq!("\nNo instruction at address 99!", text);
        }
        _ => panic!("expected the unresolvable-address placeholder"),
    }
}

#[test]
fn a_breakpoint_line_shows_the_marker_instead_of_the_address() {
    let mut home = Home::default();
    let mut state = plain_state();
    state.program.items.insert(1, ProgramItem::Breakpoint);
    let area = Rect { x: 0, y: 0, width: 150, height: 50 };

    let frame = home.draw(&state, area);
    match &frame.program_pane {
        ProgramPane::Window { rows, .. } => {
            assert_eq!(" main:", rows[0]);
            assert_eq!("\u{2192}\u{1f534}  nop", rows[1]);
            assert_eq!("  1  halt", rows[2]);
        }
        _ => panic!("expected a program window"),
    }
}
