//! The four canonical address-lookup scenarios, plus the round trip
//! from a rendered program back through the index.

use triton_tui::index::line_index_of_address;
use triton_tui::program::Program;
use triton_tui::program::ProgramItem;
use triton_tui::program::ProgramLine;
use triton_tui::program::render_program;

fn instr(address: usize) -> ProgramLine {
    ProgramLine::Instruction {
        address,
        has_breakpoint: false,
        instruction: "nop".to_string(),
    }
}

#[test]
fn line_indices_in_rendered_program_with_only_instructions_can_be_found() {
    let lines = vec![instr(0), instr(1), instr(2), instr(3)];

    assert_eq!(Some(0), line_index_of_address(&lines, 0));
    assert_eq!(Some(1), line_index_of_address(&lines, 1));
    assert_eq!(Some(2), line_index_of_address(&lines, 2));
    assert_eq!(Some(3), line_index_of_address(&lines, 3));
    assert_eq!(None, line_index_of_address(&lines, 4));
    assert_eq!(None, line_index_of_address(&lines, 5));
}

#[test]
fn line_indices_in_rendered_program_starting_and_ending_with_labels_can_be_found() {
    let lines = vec![
        ProgramLine::Label("start".to_string()),
        instr(0),
        instr(1),
        ProgramLine::Label("middle".to_string()),
        instr(2),
        instr(3),
        ProgramLine::Label("end".to_string()),
    ];

    assert_eq!(Some(1), line_index_of_address(&lines, 0));
    assert_eq!(Some(2), line_index_of_address(&lines, 1));
    assert_eq!(Some(4), line_index_of_address(&lines, 2));
    assert_eq!(Some(5), line_index_of_address(&lines, 3));
    assert_eq!(None, line_index_of_address(&lines, 4));
}

#[test]
fn line_indices_in_rendered_program_with_many_labels_can_be_found() {
    let lines = vec![
        instr(0),
        ProgramLine::Label("label".to_string()),
        ProgramLine::Label("label".to_string()),
        ProgramLine::Label("label".to_string()),
        ProgramLine::Label("label".to_string()),
        ProgramLine::Label("label".to_string()),
        ProgramLine::Label("label".to_string()),
        ProgramLine::Label("label".to_string()),
        ProgramLine::Label("label".to_string()),
        instr(2),
    ];

    assert_eq!(Some(0), line_index_of_address(&lines, 0));
    assert_eq!(None, line_index_of_address(&lines, 1));
    assert_eq!(Some(9), line_index_of_address(&lines, 2));
    assert_eq!(None, line_index_of_address(&lines, 3));
}

#[test]
fn line_indices_in_rendered_program_containing_only_labels_can_never_be_found() {
    let lines = vec![
        ProgramLine::Label("start".to_string()),
        ProgramLine::Label("middle".to_string()),
        ProgramLine::Label("end".to_string()),
    ];

    assert_eq!(None, line_index_of_address(&lines, 0));
    assert_eq!(None, line_index_of_address(&lines, 1));
    assert_eq!(None, line_index_of_address(&lines, 2));
}

#[test]
fn line_indices_of_empty_rendered_program_are_never_found() {
    assert_eq!(None, line_index_of_address(&[], 0));
    assert_eq!(None, line_index_of_address(&[], 1));
    assert_eq!(None, line_index_of_address(&[], usize::MAX));
}

#[test]
fn every_rendered_instruction_line_round_trips_through_the_index() {
    let program = Program {
        items: vec![
            ProgramItem::Label("main".to_string()),
            ProgramItem::Instruction { size: 2, text: "push 5".to_string() },
            ProgramItem::Breakpoint,
            ProgramItem::Instruction { size: 1, text: "halt".to_string() },
            ProgramItem::Label("sub".to_string()),
            ProgramItem::Instruction { size: 2, text: "call main".to_string() },
        ],
    };
    let lines = render_program(&program);
    for (position, line) in lines.iter().enumerate() {
        if let ProgramLine::Instruction { address, .. } = line {
            assert_eq!(Some(position), line_index_of_address(&lines, *address));
        }
    }
}
