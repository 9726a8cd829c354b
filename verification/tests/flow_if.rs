use rust_boy::gb_asm::{Instr, Operand, Register};
use rust_boy::gb_std::flow::{Emittable, If};

fn load(reg: Register, value: u8) -> Vec<Instr> {
    vec![Instr::Ld {
        dst: Operand::Reg(reg),
        src: Operand::Imm(value),
    }]
}

#[test]
fn test_emittable_vec() {
    let instrs = vec![Instr::Ld {
        dst: Operand::Reg(Register::A),
        src: Operand::Imm(42),
    }];

    let mut counter = 0;
    let result = instrs.emit(&mut counter);

    assert_eq!(result.len(), 1);
    assert_eq!(counter, 0); // Vec doesn't increment counter
}

#[test]
fn test_simple_if_eq() {
    let left = vec![Instr::Ld {
        dst: Operand::Reg(Register::A),
        src: Operand::Imm(10),
    }];
    let right = vec![Instr::Ld {
        dst: Operand::Reg(Register::A),
        src: Operand::Imm(20),
    }];
    let then_body = vec![Instr::Ld {
        dst: Operand::Reg(Register::C),
        src: Operand::Imm(1),
    }];

    let if_stmt = If::eq(left, right, then_body);
    let mut counter = 0;
    let result = if_stmt.emit(&mut counter);

    assert!(result.len() > 0);
    assert_eq!(counter, 1); // If increments counter
}

#[test]
fn test_if_with_else() {
    let left = vec![Instr::Ld {
        dst: Operand::Reg(Register::A),
        src: Operand::Imm(10),
    }];
    let right = vec![Instr::Ld {
        dst: Operand::Reg(Register::A),
        src: Operand::Imm(20),
    }];
    let then_body = vec![Instr::Ld {
        dst: Operand::Reg(Register::C),
        src: Operand::Imm(1),
    }];
    let else_body = vec![Instr::Ld {
        dst: Operand::Reg(Register::C),
        src: Operand::Imm(0),
    }];

    let if_stmt = If::eq(left, right, then_body).or_else(else_body);
    let mut counter = 0;
    let result = if_stmt.emit(&mut counter);

    assert!(result.len() > 0);
    assert_eq!(counter, 1);
}

#[test]
fn test_nested_if() {
    let outer_left = load(Register::A, 1);
    let outer_right = load(Register::A, 1);

    let inner_left = load(Register::A, 2);
    let inner_right = load(Register::A, 2);
    let inner_body = vec![Instr::Ld {
        dst: Operand::Reg(Register::D),
        src: Operand::Imm(99),
    }];

    let inner_if = If::lt(inner_left, inner_right, inner_body);
    let outer_if = If::eq(outer_left, outer_right, inner_if);

    let mut counter = 0;
    let result = outer_if.emit(&mut counter);

    assert!(result.len() > 0);
    assert_eq!(counter, 2); // Both ifs increment counter
}

#[test]
fn test_counter_increments_correctly() {
    let make_if = || {
        If::eq(
            vec![Instr::Ld {
                dst: Operand::Reg(Register::A),
                src: Operand::Imm(1),
            }],
            vec![Instr::Ld {
                dst: Operand::Reg(Register::A),
                src: Operand::Imm(1),
            }],
            vec![Instr::Ld {
                dst: Operand::Reg(Register::A),
                src: Operand::Imm(0),
            }],
        )
    };

    let mut counter = 0;

    let if1 = make_if();
    if1.emit(&mut counter);
    assert_eq!(counter, 1);

    let if2 = make_if();
    if2.emit(&mut counter);
    assert_eq!(counter, 2);

    let if3 = make_if();
    if3.emit(&mut counter);
    assert_eq!(counter, 3);
}
