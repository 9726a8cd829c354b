use rust_boy::gb_asm::{Asm, Condition, Instr, JumpTarget, Operand, Register};
use rust_boy::gb_std::flow::labels::{make_label, LabelRole};
use rust_boy::gb_std::flow::{
    boxed, Call, ComparisonOp, Emittable, Flags, If, IfA, IfCall, IfConst, InstrOps, Landed, Node,
    Op,
};
use rust_boy::gb_std::flow::flags::{find_label_from, follow_jumps};

fn load(reg: Register, value: u8) -> Vec<Instr> {
    vec![Instr::Ld {
        dst: Operand::Reg(reg),
        src: Operand::Imm(value),
    }]
}

fn none() -> Vec<Instr> {
    Vec::new()
}

fn lines(code: &Vec<Instr>) -> Vec<String> {
    code.iter().map(|i| i.to_string()).collect()
}

const OPS: [ComparisonOp; 6] = [
    ComparisonOp::E,
    ComparisonOp::NE,
    ComparisonOp::LT,
    ComparisonOp::GE,
    ComparisonOp::LE,
    ComparisonOp::GT,
];

fn block(op: ComparisonOp, with_else: bool) -> Vec<Instr> {
    let left = load(Register::A, 0);
    let right = load(Register::A, 0);
    let then_body = load(Register::C, 1);
    let made = match op {
        ComparisonOp::E => If::eq(left, right, then_body),
        ComparisonOp::NE => If::ne(left, right, then_body),
        ComparisonOp::LT => If::lt(left, right, then_body),
        ComparisonOp::GE => If::ge(left, right, then_body),
        ComparisonOp::LE => If::le(left, right, then_body),
        ComparisonOp::GT => If::gt(left, right, then_body),
    };
    let mut counter = 0;
    if with_else {
        made.or_else(load(Register::C, 0)).emit(&mut counter)
    } else {
        made.emit(&mut counter)
    }
}

/// The text of the instruction that control reaches after the compare, or
/// `None` when it runs past the end of the block.
fn selected(code: &Vec<Instr>, flags: Flags) -> Option<String> {
    let compare = code
        .iter()
        .position(|i| matches!(i, Instr::Cp { .. }))
        .unwrap();
    match follow_jumps(code, compare + 1, flags) {
        Landed::At(i) if i < code.len() => Some(code[i].to_string()),
        Landed::At(i) => {
            assert_eq!(i, code.len());
            None
        }
        Landed::Leaves(_) => panic!("the block jumps to a label that it does not define"),
    }
}

#[test]
fn every_comparison_selects_its_branch_on_every_pair() {
    for op in OPS {
        let with_else = block(op, true);
        let without = block(op, false);
        for left in 0..=255u8 {
            for right in 0..=255u8 {
                let holds = match op {
                    ComparisonOp::E => left == right,
                    ComparisonOp::NE => left != right,
                    ComparisonOp::LT => left < right,
                    ComparisonOp::GE => left >= right,
                    ComparisonOp::LE => left <= right,
                    ComparisonOp::GT => left > right,
                };
                assert_eq!(op.evaluate(left, right), holds);
                let flags = Flags::compare(left, right);
                let expected = if holds { "ld c, 1" } else { "ld c, 0" };
                assert_eq!(selected(&with_else, flags).as_deref(), Some(expected));
                let expected = if holds { Some("ld c, 1") } else { None };
                assert_eq!(selected(&without, flags).as_deref(), expected);
            }
        }
    }
}

#[test]
fn equal_without_else_lowers_to_one_jump_and_one_label() {
    let then_body = vec![
        Instr::Ld {
            dst: Operand::Reg(Register::A),
            src: Operand::Imm(1),
        },
        Instr::Ld {
            dst: Operand::AddrDef("wFlag".to_string()),
            src: Operand::Reg(Register::A),
        },
    ];
    let mut counter = 0;
    let code = If::eq(load(Register::A, 10), load(Register::A, 10), then_body).emit(&mut counter);
    assert_eq!(
        lines(&code),
        vec![
            "ld a, 10",
            "ld b, a",
            "ld a, 10",
            "cp b",
            "jp nz, .end_if_0",
            "ld a, 1",
            "ld [wFlag], a",
            ".end_if_0:",
        ]
    );
    let compares = code.iter().filter(|i| matches!(i, Instr::Cp { .. })).count();
    assert_eq!(compares, 1);
    let jumps: Vec<&Instr> = code
        .iter()
        .filter(|i| matches!(i, Instr::JpCond { .. }))
        .collect();
    assert_eq!(jumps.len(), 1);
    match jumps[0] {
        Instr::JpCond {
            condition: Condition::NZ,
            target: JumpTarget::Label(label),
        } => assert_eq!(label, ".end_if_0"),
        _ => panic!("expected a jump on not-zero to the end label"),
    }
    let ends = code
        .iter()
        .filter(|i| matches!(i, Instr::Label { name } if name == ".end_if_0"))
        .count();
    assert_eq!(ends, 1);
    let mut a = Asm::new();
    a.emit_all(code);
    assert!(!a.to_asm().contains(".else"));
}

#[test]
fn less_or_equal_on_equal_operands_takes_the_then_branch() {
    let code = block(ComparisonOp::LE, true);
    assert_eq!(
        selected(&code, Flags::compare(5, 5)).as_deref(),
        Some("ld c, 1")
    );
    let flags = Flags::compare(5, 5);
    assert!(flags.zero);
    assert!(!flags.carry);
    assert_eq!(
        selected(&block(ComparisonOp::LE, false), flags).as_deref(),
        Some("ld c, 1")
    );
}

#[test]
fn greater_than_on_a_smaller_left_takes_the_else_branch() {
    let code = block(ComparisonOp::GT, true);
    assert_eq!(
        selected(&code, Flags::compare(5, 10)).as_deref(),
        Some("ld c, 0")
    );
    assert_eq!(
        selected(&code, Flags::compare(5, 5)).as_deref(),
        Some("ld c, 0")
    );
    assert_eq!(
        selected(&code, Flags::compare(10, 5)).as_deref(),
        Some("ld c, 1")
    );
}

#[test]
fn each_comparison_lowers_to_its_jumps() {
    let simple = [
        (ComparisonOp::E, "nz"),
        (ComparisonOp::NE, "z"),
        (ComparisonOp::LT, "nc"),
        (ComparisonOp::GE, "c"),
    ];
    for (op, skip) in simple {
        assert_eq!(
            lines(&block(op, false))[4..],
            [format!("jp {}, .end_if_0", skip), "ld c, 1".into(), ".end_if_0:".into()]
        );
        assert_eq!(
            lines(&block(op, true))[4..],
            [
                format!("jp {}, .else_0", skip),
                "ld c, 1".into(),
                "jp .end_if_0".into(),
                ".else_0:".into(),
                "ld c, 0".into(),
                ".end_if_0:".into(),
            ]
        );
    }
    assert_eq!(
        lines(&block(ComparisonOp::LE, false))[4..],
        ["jp c, .then_0", "jp z, .then_0", "jp .end_if_0", ".then_0:", "ld c, 1", ".end_if_0:"]
    );
    assert_eq!(
        lines(&block(ComparisonOp::LE, true))[4..],
        [
            "jp c, .then_0",
            "jp z, .then_0",
            "jp .else_0",
            ".then_0:",
            "ld c, 1",
            "jp .end_if_0",
            ".else_0:",
            "ld c, 0",
            ".end_if_0:",
        ]
    );
    assert_eq!(
        lines(&block(ComparisonOp::GT, false))[4..],
        ["jp c, .end_if_0", "jp z, .end_if_0", "ld c, 1", ".end_if_0:"]
    );
    assert_eq!(
        lines(&block(ComparisonOp::GT, true))[4..],
        [
            "jp c, .else_0",
            "jp z, .else_0",
            "ld c, 1",
            "jp .end_if_0",
            ".else_0:",
            "ld c, 0",
            ".end_if_0:",
        ]
    );
    for op in OPS {
        assert_eq!(
            lines(&block(op, true))[..4],
            ["ld a, 0", "ld b, a", "ld a, 0", "cp b"]
        );
        let compound = matches!(op, ComparisonOp::LE | ComparisonOp::GT);
        assert_eq!(op.needs_special_handling(), compound);
    }
    assert_eq!(ComparisonOp::E.inverted_asm_condition(), Condition::NZ);
    assert_eq!(ComparisonOp::NE.inverted_asm_condition(), Condition::Z);
    assert_eq!(ComparisonOp::LT.inverted_asm_condition(), Condition::NC);
    assert_eq!(ComparisonOp::GE.inverted_asm_condition(), Condition::C);
}

#[test]
fn nested_blocks_get_their_own_stamps_in_traversal_order() {
    let inner_then = IfA::lt("TEN", load(Register::D, 1));
    let inner_else = IfA::ge("TEN", load(Register::D, 2)).or_else(load(Register::D, 3));
    let outer = IfConst::eq(load(Register::A, 1), "ONE", inner_then).or_else(inner_else);
    let mut counter = 7;
    let code = lines(&outer.emit(&mut counter));
    assert_eq!(counter, 10);
    assert_eq!(
        code,
        vec![
            "ld a, 1",
            "cp ONE",
            "jp nz, .else_7",
            "cp TEN",
            "jp nc, .end_if_8",
            "ld d, 1",
            ".end_if_8:",
            "jp .end_if_7",
            ".else_7:",
            "cp TEN",
            "jp c, .else_9",
            "ld d, 2",
            "jp .end_if_9",
            ".else_9:",
            "ld d, 3",
            ".end_if_9:",
            ".end_if_7:",
        ]
    );
}

#[test]
fn operands_are_stamped_before_the_branches() {
    let left = IfA::eq("L", load(Register::A, 1));
    let right = IfA::eq("R", load(Register::A, 2));
    let then_body = IfA::eq("T", load(Register::A, 3));
    let else_body = IfA::eq("E", load(Register::A, 4));
    let mut counter = 0;
    let code = lines(&If::gt(left, right, then_body).or_else(else_body).emit(&mut counter));
    assert_eq!(counter, 5);
    let position = |text: &str| code.iter().position(|l| l == text).unwrap();
    assert_eq!(code[position("cp L") + 1], "jp nz, .end_if_1");
    assert_eq!(code[position("cp R") + 1], "jp nz, .end_if_2");
    assert_eq!(code[position("cp T") + 1], "jp nz, .end_if_3");
    assert_eq!(code[position("cp E") + 1], "jp nz, .end_if_4");
    assert_eq!(code[position("cp b") + 1], "jp c, .else_0");
    assert_eq!(code.last().unwrap(), ".end_if_0:");
}

#[test]
fn identical_blocks_define_disjoint_labels() {
    let mut counter = 0;
    let mut all: Vec<String> = Vec::new();
    for _ in 0..25 {
        let code = block_from(&mut counter);
        for instr in &code {
            if let Instr::Label { name } = instr {
                assert!(!all.contains(name), "label {} is defined twice", name);
                all.push(name.clone());
            }
        }
    }
    assert_eq!(counter, 25);
    assert_eq!(all.len(), 75);
    assert!(all.contains(&".then_24".to_string()));
    assert!(all.contains(&".else_0".to_string()));
    assert!(all.contains(&".end_if_12".to_string()));
}

fn block_from(counter: &mut usize) -> Vec<Instr> {
    If::le(load(Register::A, 1), load(Register::A, 1), load(Register::C, 1))
        .or_else(load(Register::C, 0))
        .emit(counter)
}

#[test]
fn labels_are_a_prefix_and_the_decimal_stamp() {
    assert_eq!(make_label(LabelRole::End, 0), ".end_if_0");
    assert_eq!(make_label(LabelRole::Else, 10), ".else_10");
    assert_eq!(make_label(LabelRole::Then, 907), ".then_907");
    assert_eq!(
        make_label(LabelRole::End, usize::MAX),
        format!(".end_if_{}", usize::MAX)
    );
}

#[test]
fn collections_thread_the_counter_through_their_members() {
    let members: Vec<Node> = vec![
        boxed(IfConst::eq(load(Register::A, 1), "BRICK", load(Register::B, 1))),
        boxed(load(Register::A, 2)),
        boxed(IfA::eq("WALL", load(Register::B, 2))),
        boxed(Call::new("Bounce")),
    ];
    let mut counter = 3;
    let code = lines(&members.emit(&mut counter));
    assert_eq!(counter, 5);
    assert_eq!(
        code,
        vec![
            "ld a, 1",
            "cp BRICK",
            "jp nz, .end_if_3",
            "ld b, 1",
            ".end_if_3:",
            "ld a, 2",
            "cp WALL",
            "jp nz, .end_if_4",
            "ld b, 2",
            ".end_if_4:",
            "call Bounce",
        ]
    );
    let mut counter = 0;
    assert!(Vec::<Node>::new().emit(&mut counter).is_empty());
    assert_eq!(counter, 0);
}

#[test]
fn sequences_and_calls_leave_the_counter_alone() {
    let mut counter = 42;
    let nested = vec![load(Register::A, 1), Vec::new(), load(Register::B, 2), load(Register::C, 3)];
    assert_eq!(
        lines(&nested.emit(&mut counter)),
        vec!["ld a, 1", "ld b, 2", "ld c, 3"]
    );
    assert!(Vec::<Vec<Instr>>::new().emit(&mut counter).is_empty());
    assert_eq!(
        lines(&Call::with_args("GetTileByPixel", load(Register::B, 8)).emit(&mut counter)),
        vec!["ld b, 8", "call GetTileByPixel"]
    );
    assert_eq!(lines(&Call::new("Delay").emit(&mut counter)), vec!["call Delay"]);
    assert_eq!(
        lines(&load(Register::A, 5).plus(8).emit(&mut counter)),
        vec!["ld a, 5", "add a, 8"]
    );
    assert_eq!(
        lines(&load(Register::A, 5).minus(8).emit(&mut counter)),
        vec!["ld a, 5", "sub a, 8"]
    );
    assert_eq!(lines(&Op(load(Register::A, 1)).emit(&mut counter)), vec!["ld a, 1"]);
    assert_eq!(counter, 42);
}

#[test]
fn call_blocks_skip_on_the_opposite_flag() {
    let cases = [
        (IfCall::is_true("IsWallTile", load(Register::C, 1)), "nz"),
        (IfCall::is_false("IsWallTile", load(Register::C, 1)), "z"),
        (IfCall::is_less("IsWallTile", load(Register::C, 1)), "nc"),
        (IfCall::is_greater_eq("IsWallTile", load(Register::C, 1)), "c"),
    ];
    for (made, skip) in cases {
        assert_eq!(made.inverted_condition().to_string(), skip);
        let mut counter = 2;
        assert_eq!(
            lines(&made.emit(&mut counter)),
            vec![
                "call IsWallTile".to_string(),
                format!("jp {}, .end_if_2", skip),
                "ld c, 1".to_string(),
                ".end_if_2:".to_string(),
            ]
        );
        assert_eq!(counter, 3);
    }
    let mut counter = 0;
    let full = IfCall::is_true("IsWallTile", load(Register::C, 1))
        .with_setup(load(Register::B, 9))
        .or_else(load(Register::C, 0));
    assert_eq!(
        lines(&full.emit(&mut counter)),
        vec![
            "ld b, 9",
            "call IsWallTile",
            "jp nz, .else_0",
            "ld c, 1",
            "jp .end_if_0",
            ".else_0:",
            "ld c, 0",
            ".end_if_0:",
        ]
    );
}

#[test]
fn const_blocks_compare_with_the_label() {
    let mut counter = 0;
    let made = IfConst::le(load(Register::A, 3), "LIMIT", load(Register::C, 1));
    assert_eq!(
        lines(&made.emit(&mut counter)),
        vec![
            "ld a, 3",
            "cp LIMIT",
            "jp c, .then_0",
            "jp z, .then_0",
            "jp .end_if_0",
            ".then_0:",
            "ld c, 1",
            ".end_if_0:",
        ]
    );
    let made = IfA::gt("LIMIT", load(Register::C, 1)).or_else(load(Register::C, 0));
    assert_eq!(
        lines(&made.emit(&mut counter)),
        vec![
            "cp LIMIT",
            "jp c, .else_1",
            "jp z, .else_1",
            "ld c, 1",
            "jp .end_if_1",
            ".else_1:",
            "ld c, 0",
            ".end_if_1:",
        ]
    );
    let others = [
        lines(&IfConst::ne(load(Register::A, 3), "X", none()).emit(&mut counter)),
        lines(&IfConst::lt(load(Register::A, 3), "X", none()).emit(&mut counter)),
        lines(&IfConst::ge(load(Register::A, 3), "X", none()).emit(&mut counter)),
        lines(&IfConst::gt(load(Register::A, 3), "X", none()).emit(&mut counter)),
        lines(&IfA::ne("X", none()).emit(&mut counter)),
        lines(&IfA::le("X", none()).emit(&mut counter)),
    ];
    assert_eq!(others[0][2], "jp z, .end_if_2");
    assert_eq!(others[1][2], "jp nc, .end_if_3");
    assert_eq!(others[2][2], "jp c, .end_if_4");
    assert_eq!(others[3][3], "jp z, .end_if_5");
    assert_eq!(others[4][1], "jp z, .end_if_6");
    assert_eq!(others[5][4], ".then_7:");
    assert_eq!(counter, 8);
}

#[test]
fn jumps_are_followed_forward_only() {
    let mut a = Asm::new();
    a.label("Top")
        .jp_cond(Condition::Z, "Down")
        .jr_cond(Condition::C, "Top")
        .ld_a(1)
        .label("Down")
        .jr("Out")
        .ld_a(2);
    let code = a.get_main_instrs();
    let clear = Flags { zero: false, carry: false };
    let zero = Flags { zero: true, carry: false };
    let carry = Flags { zero: false, carry: true };
    assert!(matches!(follow_jumps(&code, 0, clear), Landed::At(3)));
    assert!(matches!(follow_jumps(&code, 7, clear), Landed::At(7)));
    assert!(matches!(follow_jumps(&code, 9, clear), Landed::At(7)));
    match follow_jumps(&code, 0, zero) {
        Landed::Leaves(JumpTarget::Label(label)) => assert_eq!(label, "Out"),
        _ => panic!("expected control to leave for Out"),
    }
    match follow_jumps(&code, 0, carry) {
        Landed::Leaves(JumpTarget::Label(label)) => assert_eq!(label, "Top"),
        _ => panic!("expected control to leave for Top"),
    }
    assert_eq!(find_label_from(&code, "Down", 0), 4);
    assert_eq!(find_label_from(&code, "Down", 5), 7);
    assert_eq!(find_label_from(&code, "Top", 0), 0);
    assert_eq!(find_label_from(&code, "Top", 1), 7);
    assert!(Flags::compare(1, 2).test(Condition::C));
    assert!(Flags::compare(1, 2).test(Condition::NZ));
    assert!(Flags::compare(2, 2).test(Condition::Z));
    assert!(Flags::compare(3, 2).test(Condition::NC));
    assert!(!Flags::compare(3, 2).test(Condition::Z));
}
