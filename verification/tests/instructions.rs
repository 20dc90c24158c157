use bytecode_disasm::disassembler::disassembler::Disassembler;
use bytecode_disasm::disassembler::double::DecodedDouble;
use bytecode_disasm::disassembler::error::DisasmError;
use bytecode_disasm::disassembler::instructions::Instructions;
use bytecode_disasm::disassembler::opcodes::OpCodes;

type Formatter = fn(&mut Disassembler) -> Result<(), DisasmError>;

fn decoder(bytes: &[u8]) -> Disassembler {
    Disassembler::from_bytes(bytes.to_vec())
}

/// Runs `formatter` on `operands` and returns the one line it recorded.
fn line_of(formatter: Formatter, operands: &[u8]) -> String {
    let mut disasm = decoder(operands);
    assert_eq!(formatter(&mut disasm), Ok(()));
    assert_eq!(disasm.position(), operands.len());
    assert_eq!(disasm.trace().len(), 1);
    disasm.trace()[0].clone()
}

/// Checks that `formatter` fails on every proper prefix of `operands` and
/// then leaves nothing to read and no line.
fn fails_on_every_prefix(formatter: Formatter, operands: &[u8]) {
    for available in 0..operands.len() {
        let mut disasm = decoder(&operands[..available]);
        assert_eq!(formatter(&mut disasm), Err(DisasmError::OutOfBounds));
        assert_eq!(disasm.position(), available);
        assert!(disasm.trace().is_empty());
    }
}

#[test]
fn dispatch_table_has_the_thirty_eight_opcodes() {
    let table = Instructions::get_instructions();
    let expected = [
        (124u8, OpCodes::InitMemory),
        (23, OpCodes::NewValue),
        (251, OpCodes::GetProperty),
        (215, OpCodes::CallFunction),
        (6, OpCodes::Mul),
        (241, OpCodes::MovImm24),
        (90, OpCodes::CallApply),
        (55, OpCodes::Div),
        (65, OpCodes::Or),
        (230, OpCodes::Sub),
        (88, OpCodes::PushArgs),
        (181, OpCodes::LoadImm24),
        (49, OpCodes::JumpFrame),
        (171, OpCodes::NewFunction),
        (20, OpCodes::LessThan),
        (39, OpCodes::JumpIfFalse),
        (112, OpCodes::LessThan),
        (99, OpCodes::SetProperty),
        (243, OpCodes::Add),
        (93, OpCodes::Jump),
        (166, OpCodes::Halt),
        (53, OpCodes::Shl),
        (17, OpCodes::Ret),
        (78, OpCodes::Equal),
        (117, OpCodes::Xor),
        (51, OpCodes::LoadDouble),
        (40, OpCodes::Ushr),
        (149, OpCodes::Shr),
        (37, OpCodes::And),
        (156, OpCodes::Mod),
        (247, OpCodes::Lte),
        (214, OpCodes::Lte),
        (22, OpCodes::NotEqual),
        (83, OpCodes::JumpIfTrue),
        (115, OpCodes::TryCatch),
        (161, OpCodes::StrictEqual),
        (220, OpCodes::StrictNotEqual),
        (5, OpCodes::Throw),
    ];
    assert_eq!(table.len(), 38);
    for (opcode, kind) in expected {
        assert_eq!(table.get(&opcode), Some(&kind));
    }
    assert_eq!(table.get(&0), None);
    assert_eq!(table.get(&255), None);
}

#[test]
fn mnemonics_and_symbols() {
    assert_eq!(OpCodes::InitMemory.as_str(), "init-memory");
    assert_eq!(OpCodes::NewValue.as_str(), "define-constant");
    assert_eq!(OpCodes::Ret.as_str(), "function-return");
    assert_eq!(OpCodes::LessThan.as_str(), "less-than");
    assert_eq!(OpCodes::StrictNotEqual.as_str(), "strict-notequal");
    assert_eq!(OpCodes::Ushr.symbol(), ">>>");
    assert_eq!(OpCodes::StrictNotEqual.symbol(), "!==");
    assert_eq!(OpCodes::Halt.symbol(), "");
    assert!(OpCodes::Mod.is_binary());
    assert!(!OpCodes::Jump.is_binary());
}

#[test]
fn init_memory_line() {
    assert_eq!(line_of(Instructions::init_memory, &[3, 7]), "init-memory 7 -> reg3");
    fails_on_every_prefix(Instructions::init_memory, &[3, 7]);
}

#[test]
fn new_value_line_and_binding() {
    let operands = [3, 0, 2, 101 ^ 50, 102 ^ 50];
    let mut disasm = decoder(&operands);
    assert_eq!(Instructions::new_value(&mut disasm), Ok(()));
    assert_eq!(disasm.position(), 5);
    assert_eq!(disasm.trace(), &vec![String::from("define-constant 'ef' -> reg3")]);
    assert_eq!(disasm.resolve(3), "ef");
    assert_eq!(disasm.resolve(2), "reg2");
    fails_on_every_prefix(Instructions::new_value, &operands);
}

#[test]
fn new_value_failure_binds_nothing() {
    let mut disasm = decoder(&[3, 0, 9, 1, 2]);
    assert_eq!(Instructions::new_value(&mut disasm), Err(DisasmError::OutOfBounds));
    assert_eq!(disasm.resolve(3), "reg3");
    assert_eq!(disasm.position(), 5);
}

#[test]
fn get_property_line() {
    assert_eq!(line_of(Instructions::get_property, &[7, 3, 4]), "get-property reg3[reg4] -> reg7");
    fails_on_every_prefix(Instructions::get_property, &[7, 3, 4]);
    let mut disasm = decoder(&[7, 3, 4]);
    disasm.define(3, String::from("document"));
    disasm.define(4, String::from("title"));
    disasm.define(7, String::from("unused"));
    assert_eq!(Instructions::get_property(&mut disasm), Ok(()));
    assert_eq!(disasm.trace()[0], "get-property document[title] -> reg7");
}

#[test]
fn call_function_line() {
    assert_eq!(
        line_of(Instructions::call_function, &[1, 2, 3, 10, 11, 12]),
        "call-function reg2(reg10,reg11,reg12) -> reg1"
    );
    assert_eq!(line_of(Instructions::call_function, &[1, 2, 0]), "call-function reg2() -> reg1");
    assert_eq!(line_of(Instructions::call_function, &[1, 2, 1, 9]), "call-function reg2(reg9) -> reg1");
    fails_on_every_prefix(Instructions::call_function, &[1, 2, 3, 10, 11, 12]);
    let mut disasm = decoder(&[1, 2, 2, 2, 5]);
    disasm.define(2, String::from("alert"));
    assert_eq!(Instructions::call_function(&mut disasm), Ok(()));
    assert_eq!(disasm.trace()[0], "call-function alert(reg2,reg5) -> reg1");
}

#[test]
fn call_apply_line() {
    assert_eq!(
        line_of(Instructions::call_apply, &[1, 2, 3, 2, 10, 11]),
        "call-apply reg2.apply(reg3, [reg10,reg11]) -> reg1"
    );
    assert_eq!(line_of(Instructions::call_apply, &[1, 2, 3, 0]), "call-apply reg2.apply(reg3, []) -> reg1");
    fails_on_every_prefix(Instructions::call_apply, &[1, 2, 3, 2, 10, 11]);
    let mut disasm = decoder(&[1, 2, 3, 0]);
    disasm.define(2, String::from("push"));
    disasm.define(3, String::from("self"));
    assert_eq!(Instructions::call_apply(&mut disasm), Ok(()));
    assert_eq!(disasm.trace()[0], "call-apply push.apply(reg3, []) -> reg1");
}

#[test]
fn binary_operator_lines() {
    let cases: [(Formatter, &str); 17] = [
        (Instructions::mul_op, "mul reg2 * reg3 -> reg1"),
        (Instructions::div_op, "div reg2 / reg3 -> reg1"),
        (Instructions::or_op, "or reg2 | reg3 -> reg1"),
        (Instructions::sub_op, "sub reg2 - reg3 -> reg1"),
        (Instructions::add_op, "add reg2 + reg3 -> reg1"),
        (Instructions::shl_op, "shl reg2 << reg3 -> reg1"),
        (Instructions::shr_op, "shr reg2 >> reg3 -> reg1"),
        (Instructions::ushr_op, "ushr reg2 >>> reg3 -> reg1"),
        (Instructions::and_op, "and reg2 & reg3 -> reg1"),
        (Instructions::mod_op, "mod reg2 % reg3 -> reg1"),
        (Instructions::xor_op, "xor reg2 ^ reg3 -> reg1"),
        (Instructions::equal_op, "equal reg2 == reg3 -> reg1"),
        (Instructions::notequal_op, "notequal reg2 != reg3 -> reg1"),
        (Instructions::strict_equal_op, "strict-equal reg2 === reg3 -> reg1"),
        (Instructions::strict_notequal_op, "strict-notequal reg2 !== reg3 -> reg1"),
        (Instructions::less_than, "less-than reg2 < reg3 -> reg1"),
        (Instructions::lte_op, "lte reg2 <= reg3 -> reg1"),
    ];
    for (formatter, expected) in cases {
        assert_eq!(line_of(formatter, &[1, 2, 3]), expected);
        fails_on_every_prefix(formatter, &[1, 2, 3]);
    }
}

#[test]
fn binary_operators_do_not_resolve_their_operands() {
    let mut disasm = decoder(&[1, 2, 3]);
    disasm.define(2, String::from("left"));
    disasm.define(3, String::from("right"));
    assert_eq!(Instructions::add_op(&mut disasm), Ok(()));
    assert_eq!(disasm.trace()[0], "add reg2 + reg3 -> reg1");
}

#[test]
fn mov_imm_reads_four_bytes_and_load_imm_one() {
    assert_eq!(line_of(Instructions::mov_imm24, &[9, 0, 0, 1, 0]), "mov-imm 256 -> reg9");
    assert_eq!(
        line_of(Instructions::mov_imm24, &[9, 0xff, 0xff, 0xff, 0xff]),
        "mov-imm 4294967295 -> reg9"
    );
    fails_on_every_prefix(Instructions::mov_imm24, &[9, 0, 0, 1, 0]);
    assert_eq!(line_of(Instructions::load_imm24, &[9, 200]), "load-imm 200 -> reg9");
    fails_on_every_prefix(Instructions::load_imm24, &[9, 200]);
}

#[test]
fn push_args_line() {
    assert_eq!(line_of(Instructions::push_args, &[4, 2, 8, 9]), "push-args [reg8,reg9] -> reg4");
    assert_eq!(line_of(Instructions::push_args, &[4, 0]), "push-args [] -> reg4");
    fails_on_every_prefix(Instructions::push_args, &[4, 2, 8, 9]);
}

#[test]
fn jump_frame_line() {
    assert_eq!(
        line_of(Instructions::jump_frame, &[0, 0, 2, 0, 7, 2, 1, 2]),
        "jump-frame entry(512), 7, params(reg1,reg2)"
    );
    assert_eq!(
        line_of(Instructions::jump_frame, &[0, 0, 0, 0, 0, 0]),
        "jump-frame entry(0), 0, params()"
    );
    fails_on_every_prefix(Instructions::jump_frame, &[0, 0, 2, 0, 7, 2, 1, 2]);
}

#[test]
fn new_function_line() {
    assert_eq!(
        line_of(Instructions::new_function, &[5, 0, 1, 0, 0, 1, 6]),
        "new-function entry(65536), args(reg6) -> reg5"
    );
    fails_on_every_prefix(Instructions::new_function, &[5, 0, 1, 0, 0, 1, 6]);
}

#[test]
fn conditional_jump_lines() {
    assert_eq!(
        line_of(Instructions::jump_if_false, &[5, 0, 0, 0, 42]),
        "jump-if-false reg5, entry(42)"
    );
    assert_eq!(
        line_of(Instructions::jump_if_true, &[5, 1, 0, 0, 0]),
        "jump-if-true reg5, entry(16777216)"
    );
    fails_on_every_prefix(Instructions::jump_if_false, &[5, 0, 0, 0, 42]);
    fails_on_every_prefix(Instructions::jump_if_true, &[5, 0, 0, 0, 42]);
}

#[test]
fn set_property_line() {
    assert_eq!(line_of(Instructions::set_property, &[1, 2, 3]), "set-property reg1[reg2] = reg3");
    fails_on_every_prefix(Instructions::set_property, &[1, 2, 3]);
    let mut disasm = decoder(&[1, 2, 3]);
    disasm.define(1, String::from("window"));
    disasm.define(2, String::from("name"));
    disasm.define(3, String::from("value"));
    assert_eq!(Instructions::set_property(&mut disasm), Ok(()));
    assert_eq!(disasm.trace()[0], "set-property window[name] = value");
}

#[test]
fn jump_and_halt_and_throw_lines() {
    assert_eq!(line_of(Instructions::jump, &[0, 0, 3, 232]), "jump 1000");
    fails_on_every_prefix(Instructions::jump, &[0, 0, 3, 232]);
    assert_eq!(line_of(Instructions::halt, &[]), "halt");
    assert_eq!(line_of(Instructions::throw_op, &[17]), "throw 17");
    fails_on_every_prefix(Instructions::throw_op, &[17]);
}

#[test]
fn halt_consumes_nothing() {
    let mut disasm = decoder(&[1, 2, 3]);
    assert_eq!(Instructions::halt(&mut disasm), Ok(()));
    assert_eq!(disasm.position(), 0);
    assert_eq!(disasm.trace(), &vec![String::from("halt")]);
}

#[test]
fn function_return_line() {
    assert_eq!(
        line_of(Instructions::function_ret, &[4, 3, 1, 2, 3]),
        "function-return 4 [reg1,reg2,reg3]"
    );
    assert_eq!(line_of(Instructions::function_ret, &[4, 0]), "function-return 4 []");
    fails_on_every_prefix(Instructions::function_ret, &[4, 3, 1, 2, 3]);
}

#[test]
fn load_double_line() {
    assert_eq!(
        line_of(Instructions::load_double, &[2, 0x40, 0x09, 0x21, 0xfb, 0x54, 0x44, 0x2d, 0x18]),
        "load-double 0x1.921fb54442d18p1 -> reg2"
    );
    assert_eq!(line_of(Instructions::load_double, &[2, 0, 0, 0, 0, 0, 0, 0, 0]), "load-double 0 -> reg2");
    fails_on_every_prefix(
        Instructions::load_double,
        &[2, 0x40, 0x09, 0x21, 0xfb, 0x54, 0x44, 0x2d, 0x18],
    );
}

#[test]
fn try_catch_line() {
    assert_eq!(
        line_of(Instructions::try_catch, &[8, 0, 0, 0, 1, 0, 0, 0, 2, 0, 0, 0, 3]),
        "try-catch [1, 2, 3] -> reg8"
    );
    fails_on_every_prefix(Instructions::try_catch, &[8, 0, 0, 0, 1, 0, 0, 0, 2, 0, 0, 0, 3]);
}

#[test]
fn a_list_of_two_hundred_and_fifty_five_registers() {
    let mut operands = vec![0u8, 255];
    operands.extend(0..255u8);
    let line = line_of(Instructions::push_args, &operands);
    let names: Vec<String> = (0..255u8).map(|r| format!("reg{}", r)).collect();
    assert_eq!(line, format!("push-args [{}] -> reg0", names.join(",")));
}

#[test]
fn dispatch_runs_the_formatter_of_the_kind() {
    let mut disasm = decoder(&[1, 2, 3, 4, 5]);
    assert_eq!(Instructions::dispatch(OpCodes::Xor, &mut disasm), Ok(()));
    assert_eq!(Instructions::dispatch(OpCodes::Halt, &mut disasm), Ok(()));
    assert_eq!(Instructions::dispatch(OpCodes::LoadImm24, &mut disasm), Ok(()));
    assert_eq!(Instructions::dispatch(OpCodes::Throw, &mut disasm), Err(DisasmError::OutOfBounds));
    assert_eq!(disasm.failure(), None);
    assert_eq!(
        disasm.trace(),
        &vec![
            String::from("xor reg2 ^ reg3 -> reg1"),
            String::from("halt"),
            String::from("load-imm 5 -> reg4"),
        ]
    );
}

#[test]
fn double_operand_is_the_value_of_a_load_double() {
    let bytes = vec![166, 51, 2, 0x40, 0x09, 0x21, 0xfb, 0x54, 0x44, 0x2d, 0x18, 166];
    assert_eq!(
        Instructions::double_operand(&bytes, 1),
        Some(DecodedDouble { negative: false, significand: 0x1921fb54442d18, exponent: 1 })
    );
    assert_eq!(Instructions::double_operand(&bytes, 0), None);
    assert_eq!(Instructions::double_operand(&bytes, 2), None);
    assert_eq!(Instructions::double_operand(&bytes, 11), None);
    assert_eq!(Instructions::double_operand(&bytes, 12), None);
    assert_eq!(Instructions::double_operand(&bytes, usize::MAX), None);
    assert_eq!(Instructions::double_operand(&bytes[..10].to_vec(), 1), None);
    assert_eq!(
        Instructions::double_operand(&bytes[..11].to_vec(), 1),
        Instructions::double_operand(&bytes, 1)
    );
}
