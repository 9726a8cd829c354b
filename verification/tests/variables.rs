use rust_boy::gb_asm::Instr;
use rust_boy::gb_std::variables::{def_const, def_var, VariableSection};
use rust_boy::rust_boy::{VarId, VarType, VariableManager};

fn lines(code: &Vec<Instr>) -> Vec<String> {
    code.iter().map(|i| i.to_string()).collect()
}

#[test]
fn test_u8_variable() {
    let mut vm = VariableManager::new();

    let id = vm.create_u8("wScore", 0).unwrap().id();

    assert_eq!(vm.get_label(id), Some("wScore"));
    assert_eq!(vm.get_address(id), Some(0xC000));
    assert_eq!(vm.get_type(id), Some(VarType::U8));
}

#[test]
fn test_multiple_variables() {
    let mut vm = VariableManager::new();

    let id1 = vm.create_u8("wVar1", 0).unwrap().id();
    let id2 = vm.create_u16("wVar2", 0).unwrap().id();
    let id3 = vm.create_u8("wVar3", 0).unwrap().id();

    assert_eq!(vm.get_address(id1), Some(0xC000));
    assert_eq!(vm.get_address(id2), Some(0xC001)); // After 1 byte
    assert_eq!(vm.get_address(id3), Some(0xC003)); // After 2 bytes
}

#[test]
fn test_i8_variable() {
    let mut vm = VariableManager::new();

    let id = vm.create_i8("wMomentum", -1).unwrap().id();

    assert_eq!(vm.get_label(id), Some("wMomentum"));
    assert_eq!(vm.get_type(id), Some(VarType::I8));
}

#[test]
fn types_have_sizes_and_directives() {
    assert_eq!(VarType::U8.size(), 1);
    assert_eq!(VarType::I8.size(), 1);
    assert_eq!(VarType::U16.size(), 2);
    assert_eq!(VarType::I16.size(), 2);
    assert_eq!(VarType::U8.directive(), "db");
    assert_eq!(VarType::I8.directive(), "db");
    assert_eq!(VarType::U16.directive(), "dw");
    assert_eq!(VarType::I16.directive(), "dw");
}

#[test]
fn handles_set_and_get() {
    let mut vm = VariableManager::new();
    let momentum = vm.create_i8("wBallMomentumY", -1).unwrap();
    assert_eq!(momentum.name(), "wBallMomentumY");
    assert_eq!(momentum.id(), VarId(0));
    assert_eq!(lines(&momentum.set(-1)), vec!["ld a, -1", "ld [wBallMomentumY], a"]);
    assert_eq!(lines(&momentum.set(-128)), vec!["ld a, -128", "ld [wBallMomentumY], a"]);
    assert_eq!(lines(&momentum.set(0)), vec!["ld a, 0", "ld [wBallMomentumY], a"]);
    assert_eq!(lines(&momentum.set(127)), vec!["ld a, 127", "ld [wBallMomentumY], a"]);
    assert_eq!(lines(&momentum.get()), vec!["ld a, [wBallMomentumY]"]);
    assert_eq!(momentum.clone().name(), "wBallMomentumY");
}

#[test]
fn initial_values_are_written_byte_by_byte() {
    let mut vm = VariableManager::new();
    assert!(vm.is_empty());
    vm.create_u8("wA", 200).unwrap();
    vm.create_i8("wB", -5).unwrap();
    vm.create_i8("wC", 5).unwrap();
    vm.create_u16("wD", 0x1234).unwrap();
    vm.create_i16("wE", -2).unwrap();
    vm.create_i16("wF", 0x0180).unwrap();
    vm.create_in_section("wG", VarType::U8, -1, "Other").unwrap();
    vm.create_in_section("wH", VarType::U16, -1, "Variables").unwrap();
    vm.create_in_section("wI", VarType::I8, 300, "Other").unwrap();
    assert!(!vm.is_empty());
    assert_eq!(
        lines(&vm.generate_init_code()),
        vec![
            "ld a, 200",
            "ld [wA], a",
            "ld a, -5",
            "ld [wB], a",
            "ld a, 5",
            "ld [wC], a",
            "ld a, 52",
            "ld [wD], a",
            "ld a, 18",
            "ld [wD+1], a",
            "ld a, -2",
            "ld [wE], a",
            "ld a, -1",
            "ld [wE+1], a",
            "ld a, -128",
            "ld [wF], a",
            "ld a, 1",
            "ld [wF+1], a",
            "ld a, 255",
            "ld [wG], a",
            "ld a, 255",
            "ld [wH], a",
            "ld a, 255",
            "ld [wH+1], a",
            "ld a, 44",
            "ld [wI], a",
        ]
    );
    assert_eq!(
        lines(&vm.generate_sections()),
        vec![
            "SECTION \"Variables\", WRAM0",
            "wA: db",
            "wB: db",
            "wC: db",
            "wD: dw",
            "wE: dw",
            "wF: dw",
            "wH: dw",
            "SECTION \"Other\", WRAM0",
            "wG: db",
            "wI: db",
        ]
    );
    assert_eq!(vm.get_address(VarId(8)), Some(0xC00C));
    assert_eq!(vm.get_address(VarId(9)), None);
    assert_eq!(vm.get_label(VarId(9)), None);
    assert_eq!(vm.get_type(VarId(9)), None);
}

#[test]
fn full_work_memory_refuses_a_variable() {
    let mut vm = VariableManager::new();
    assert_eq!(vm.bytes_remaining(), 0x2000);
    for _ in 0..4095 {
        assert!(vm.create_u16("w", 0).is_some());
    }
    assert_eq!(vm.bytes_remaining(), 2);
    assert!(vm.create_u8("wLast", 0).is_some());
    assert!(vm.create_u16("wTooBig", 0).is_none());
    assert_eq!(vm.bytes_remaining(), 1);
    assert!(!vm.create_all_u8(&vec![("a".to_string(), 1), ("b".to_string(), 2)]));
    assert_eq!(vm.bytes_remaining(), 1);
    assert!(vm.create_all_u8(&vec![("a".to_string(), 1)]));
    assert_eq!(vm.bytes_remaining(), 0);
    assert!(vm.create_u8("wNone", 0).is_none());
    assert!(vm.create_all_u8(&Vec::new()));
}

#[test]
fn sections_declare_each_name_once() {
    assert_eq!(lines(&def_const("LIMIT", 15)), vec!["DEF LIMIT EQU 15"]);
    assert_eq!(lines(&def_var("wScore", "db")), vec!["wScore: db"]);
    let mut section = VariableSection::new("Counter", "WRAM0");
    assert_eq!(lines(&section.generate()), vec!["SECTION \"Counter\", WRAM0"]);
    section.add_data("wFrameCounter", "db");
    section.add_data("wScore", "db");
    section.add_data("wFrameCounter", "dw");
    assert_eq!(
        lines(&section.generate()),
        vec!["SECTION \"Counter\", WRAM0", "wFrameCounter: dw", "wScore: db"]
    );
}
