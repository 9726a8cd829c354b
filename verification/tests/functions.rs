use rust_boy::gb_asm::Instr;
use rust_boy::gb_std::utility::header_section;
use rust_boy::rust_boy::{BuiltinFunction, FunctionRegistry};
use rust_boy::text::{
    decimal_string, dollar_hex2_string, hex4_lower_string, hex4_upper_string,
    signed_decimal_string,
};
use rust_boy::text_order::{insert_sorted, text_le};

fn lines(code: &Vec<Instr>) -> Vec<String> {
    code.iter().map(|i| i.to_string()).collect()
}

const ALL: [BuiltinFunction; 6] = [
    BuiltinFunction::Memcopy,
    BuiltinFunction::WaitVBlank,
    BuiltinFunction::WaitNotVBlank,
    BuiltinFunction::UpdateKeys,
    BuiltinFunction::GetTileByPixel,
    BuiltinFunction::Delay,
];

#[test]
fn builtins_are_found_by_their_labels() {
    for function in ALL {
        assert_eq!(BuiltinFunction::from_name(function.label()), Some(function));
        let code = lines(&function.generate());
        assert!(code.contains(&format!("{}:", function.label())));
        assert_eq!(code.last().unwrap(), "ret");
    }
    assert_eq!(BuiltinFunction::from_name("memcopy"), None);
    assert_eq!(BuiltinFunction::from_name(""), None);
    assert_eq!(BuiltinFunction::from_name("Delay "), None);
    assert_eq!(BuiltinFunction::Memcopy.generate().len(), 13);
    assert_eq!(BuiltinFunction::WaitVBlank.generate().len(), 5);
    assert_eq!(BuiltinFunction::WaitNotVBlank.generate().len(), 5);
    assert_eq!(BuiltinFunction::UpdateKeys.generate().len(), 27);
    assert_eq!(BuiltinFunction::GetTileByPixel.generate().len(), 25);
    assert_eq!(BuiltinFunction::Delay.generate().len(), 8);
    assert_eq!(
        lines(&BuiltinFunction::Delay.generate()),
        vec![
            "; Delay loop using BC as counter",
            "; @param bc: delay counter (higher = longer delay)",
            "Delay:",
            "ld a, b",
            "or a, c",
            "dec bc",
            "jr nz, Delay",
            "ret",
        ]
    );
    let pixel = lines(&BuiltinFunction::GetTileByPixel.generate());
    assert_eq!(pixel[7], "and a, 248");
    assert_eq!(pixel[18], "adc a, h");
    assert_eq!(pixel[21], "ld bc, $9800");
    let keys = lines(&BuiltinFunction::UpdateKeys.generate());
    assert_eq!(keys[10], "ldh [rP1], a");
    assert_eq!(keys[24], "or a, 240");
}

#[test]
fn the_registry_writes_out_what_was_used() {
    let mut registry = FunctionRegistry::new();
    assert!(registry.generate_all().is_empty());
    assert!(!registry.is_used(BuiltinFunction::Delay));
    registry.use_function(BuiltinFunction::Delay);
    registry.use_function(BuiltinFunction::WaitVBlank);
    registry.use_function(BuiltinFunction::Delay);
    assert!(registry.is_used(BuiltinFunction::Delay));
    assert!(!registry.is_used(BuiltinFunction::Memcopy));
    registry.register_user_function("First", header_section());
    registry.register_user_function("Second", Vec::new());
    registry.register_user_function("First", vec![Instr::Ret]);
    let code = lines(&registry.generate_all());
    assert_eq!(code.len(), 8 + 5 + 1);
    assert_eq!(code[2], "Delay:");
    assert_eq!(code[8], "WaitVBlank:");
    assert_eq!(code[13], "ret");
}

#[test]
fn calls_are_checked_against_the_known_routines() {
    let mut registry = FunctionRegistry::new();
    assert!(registry.function_exists("Memcopy"));
    assert!(!registry.function_exists("Mine"));
    assert!(!registry.call_function("Mine"));
    registry.register_user_function("Mine", vec![Instr::Ret]);
    assert!(registry.function_exists("Mine"));
    assert!(registry.call_function("Mine"));
    assert!(registry.call_function("Mine"));
    assert!(!registry.is_used(BuiltinFunction::Memcopy));
    assert!(registry.call_function("Memcopy"));
    assert!(registry.is_used(BuiltinFunction::Memcopy));
    assert!(!registry.call_function("Other"));
    registry.register_user_function("Zeta", Vec::new());
    registry.register_user_function("Alpha", Vec::new());
    registry.register_user_function("Delay2", Vec::new());
    assert_eq!(
        registry.available_functions(),
        vec![
            "Alpha",
            "Delay",
            "Delay2",
            "GetTileByPixel",
            "Memcopy",
            "Mine",
            "UpdateKeys",
            "WaitNotVBlank",
            "WaitVBlank",
            "Zeta",
        ]
    );
}

#[test]
fn texts_are_ordered_as_strings_are() {
    let words = ["", "a", "A", "ab", "b", "B", "Delay", "Delay2", "delay", "é", "z", "~", "aa"];
    for x in words {
        for y in words {
            assert_eq!(text_le(x, y), x <= y, "{:?} and {:?}", x, y);
        }
    }
    let mut list: Vec<String> = Vec::new();
    for word in words {
        insert_sorted(&mut list, word.to_string());
    }
    let mut expected: Vec<String> = words.iter().map(|w| w.to_string()).collect();
    expected.sort();
    assert_eq!(list, expected);
}

#[test]
fn numbers_are_written_as_format_writes_them() {
    for n in [0u64, 1, 9, 10, 11, 99, 100, 255, 256, 65535, 65536, 4294967295, u64::MAX] {
        assert_eq!(decimal_string(n), format!("{}", n));
    }
    for n in [0i32, 1, -1, 127, -128, 255, -255, 300, -300, i32::MAX, i32::MIN] {
        assert_eq!(signed_decimal_string(n), format!("{}", n));
    }
    for n in [0u16, 1, 15, 16, 255, 256, 0x0abc, 0x9800, 0xffff] {
        assert_eq!(hex4_upper_string(n), format!("{:04X}", n));
        assert_eq!(hex4_lower_string(n), format!("{:04x}", n));
    }
    for n in 0..=255u8 {
        assert_eq!(dollar_hex2_string(n), format!("${:02X}", n));
    }
}

#[test]
fn the_header_is_three_lines() {
    assert_eq!(
        lines(&header_section()),
        vec!["SECTION \"Header\", ROM0[$100]", "jp EntryPoint", "ds $150 - @, 0"]
    );
}
