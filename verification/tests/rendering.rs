//! Rendering scenarios: the concrete program with a label in the
//! middle, the breakpoint marker that skips labels, determinism, and
//! the address width.

use triton_tui::index::line_index_of_address;
use triton_tui::program::{address_render_width, render_program, Program, ProgramItem, ProgramLine};

fn sized_instr(size: usize, text: &str) -> ProgramItem {
    ProgramItem::Instruction { size, text: text.to_string() }
}

#[test]
fn rendering_interleaves_labels_and_addresses_as_given() {
    let program = Program {
        items: vec![
            sized_instr(1, "nop"),
            sized_instr(1, "nop"),
            ProgramItem::Label("L".to_string()),
            sized_instr(1, "nop"),
        ],
    };
    let lines = render_program(&program);

    let expected = vec![
        ProgramLine::Instruction { address: 0, has_breakpoint: false, instruction: "nop".to_string() },
        ProgramLine::Instruction { address: 1, has_breakpoint: false, instruction: "nop".to_string() },
        ProgramLine::Label("L".to_string()),
        ProgramLine::Instruction { address: 2, has_breakpoint: false, instruction: "nop".to_string() },
    ];
    assert_eq!(expected, lines);

    assert_eq!(Some(0), line_index_of_address(&lines, 0));
    assert_eq!(Some(1), line_index_of_address(&lines, 1));
    assert_eq!(Some(3), line_index_of_address(&lines, 2));
    assert_eq!(None, line_index_of_address(&lines, 3));
}

#[test]
fn breakpoint_attaches_to_next_instruction_past_any_labels() {
    let program = Program {
        items: vec![
            ProgramItem::Breakpoint,
            ProgramItem::Label("a".to_string()),
            ProgramItem::Label("b".to_string()),
            ProgramItem::Label("c".to_string()),
            ProgramItem::Label("d".to_string()),
            ProgramItem::Label("e".to_string()),
            sized_instr(1, "halt"),
        ],
    };
    let lines = render_program(&program);

    assert_eq!(7 - 1, lines.len());
    for label_line in &lines[..5] {
        assert!(matches!(label_line, ProgramLine::Label(_)));
    }
    let last = &lines[5];
    assert_eq!(
        &ProgramLine::Instruction { address: 0, has_breakpoint: true, instruction: "halt".to_string() },
        last,
    );
}

#[test]
fn breakpoint_is_cleared_after_the_instruction_it_marks() {
    let program = Program {
        items: vec![
            ProgramItem::Breakpoint,
            sized_instr(1, "nop"),
            sized_instr(1, "halt"),
        ],
    };
    let lines = render_program(&program);
    assert_eq!(
        vec![
            ProgramLine::Instruction { address: 0, has_breakpoint: true, instruction: "nop".to_string() },
            ProgramLine::Instruction { address: 1, has_breakpoint: false, instruction: "halt".to_string() },
        ],
        lines,
    );
}

#[test]
fn type_hints_produce_no_display_line() {
    let program = Program {
        items: vec![
            ProgramItem::TypeHint,
            sized_instr(1, "nop"),
            ProgramItem::TypeHint,
        ],
    };
    let lines = render_program(&program);
    assert_eq!(
        vec![ProgramLine::Instruction {
            address: 0,
            has_breakpoint: false,
            instruction: "nop".to_string(),
        }],
        lines,
    );
}

#[test]
fn rendering_twice_yields_equal_sequences() {
    let program = Program {
        items: vec![
            ProgramItem::Label("main".to_string()),
            ProgramItem::Breakpoint,
            sized_instr(2, "push 7"),
            sized_instr(1, "halt"),
        ],
    };
    let first = render_program(&program);
    let second = render_program(&program);
    assert_eq!(first, second);
}

#[test]
fn address_width_is_the_decimal_width_of_the_total_length() {
    let empty = Program { items: vec![] };
    assert_eq!(1, address_render_width(&empty));

    let nine = Program { items: vec![sized_instr(9, "sprawling")] };
    assert_eq!(1, address_render_width(&nine));

    let ten = Program { items: vec![sized_instr(9, "sprawling"), sized_instr(1, "nop")] };
    assert_eq!(2, address_render_width(&ten));

    let hundred = Program {
        items: vec![sized_instr(50, "a"), sized_instr(49, "b"), sized_instr(1, "c")],
    };
    assert_eq!(3, address_render_width(&hundred));
}

#[test]
fn labels_are_found_for_their_addresses_and_made_up_otherwise() {
    let program = Program {
        items: vec![
            ProgramItem::Label("main".to_string()),
            sized_instr(2, "push 7"),
            ProgramItem::Label("loop_head".to_string()),
            sized_instr(1, "nop"),
        ],
    };
    assert_eq!("main", program.label_for_address(0));
    assert_eq!("loop_head", program.label_for_address(2));
    assert_eq!("address_1", program.label_for_address(1));
    assert_eq!("address_99", program.label_for_address(99));
}
