use bytecode_disasm::bytecode::bytearray::{decode_bytecode, strip_whitespace};
use bytecode_disasm::disassembler::disassembler::Disassembler;
use bytecode_disasm::disassembler::error::{DisasmError, Failure};

fn decoder(bytes: &[u8]) -> Disassembler {
    Disassembler::from_bytes(bytes.to_vec())
}

fn encode(bytes: &[u8]) -> String {
    base64::Engine::encode(&base64::engine::general_purpose::STANDARD, bytes)
}

#[test]
fn a_defined_constant_is_shown_in_place_of_its_register() {
    let mut disasm = decoder(&[23, 3, 0, 2, 101 ^ 50, 102 ^ 50, 251, 7, 3, 4]);
    let lines = disasm.execute().unwrap();
    assert_eq!(
        lines,
        vec![
            String::from("0x6    define-constant 'ef' -> reg3"),
            String::from("0x10    get-property ef[reg4] -> reg7"),
        ]
    );
    assert_eq!(
        disasm.trace(),
        &vec![
            String::from("define-constant 'ef' -> reg3"),
            String::from("get-property ef[reg4] -> reg7"),
        ]
    );
    assert_eq!(disasm.resolve(3), "ef");
    assert_eq!(disasm.position(), 10);
}

#[test]
fn halt_does_not_end_the_run() {
    let mut disasm = decoder(&[166, 243, 1, 2, 3, 166]);
    let lines = disasm.execute().unwrap();
    assert_eq!(
        lines,
        vec![
            String::from("0x1    halt"),
            String::from("0x5    add reg2 + reg3 -> reg1"),
            String::from("0x6    halt"),
        ]
    );
}

#[test]
fn halt_followed_by_an_unknown_opcode_still_fails() {
    let mut disasm = decoder(&[166, 0]);
    assert_eq!(disasm.execute(), Err(DisasmError::UnknownOpcode(0)));
    assert_eq!(disasm.trace(), &vec![String::from("halt")]);
    assert_eq!(
        disasm.failure(),
        Some(Failure { error: DisasmError::UnknownOpcode(0), offset: 1 })
    );
}

#[test]
fn an_empty_buffer_gives_no_lines() {
    let mut disasm = decoder(&[]);
    assert_eq!(disasm.execute(), Ok(Vec::new()));
    assert_eq!(disasm.step(), Ok(None));
    assert!(disasm.trace().is_empty());
    assert_eq!(disasm.failure(), None);
}

#[test]
fn an_unknown_opcode_fails_with_its_byte() {
    let table = bytecode_disasm::disassembler::instructions::Instructions::get_instructions();
    for opcode in 0..=255u8 {
        if table.contains_key(&opcode) {
            continue;
        }
        let mut disasm = decoder(&[opcode, 1, 2, 3]);
        assert_eq!(disasm.execute(), Err(DisasmError::UnknownOpcode(opcode)));
        assert_eq!(disasm.position(), 1);
        assert!(disasm.trace().is_empty());
        assert_eq!(
            disasm.failure(),
            Some(Failure { error: DisasmError::UnknownOpcode(opcode), offset: 0 })
        );
    }
}

#[test]
fn an_unknown_opcode_stops_the_run_at_once() {
    let mut disasm = decoder(&[124, 1, 2, 200, 166, 166]);
    assert_eq!(disasm.execute(), Err(DisasmError::UnknownOpcode(200)));
    assert_eq!(disasm.position(), 4);
    assert_eq!(disasm.trace(), &vec![String::from("init-memory 2 -> reg1")]);
    assert_eq!(
        disasm.failure(),
        Some(Failure { error: DisasmError::UnknownOpcode(200), offset: 3 })
    );
}

#[test]
fn a_failure_is_final() {
    let mut disasm = decoder(&[124, 1, 2, 200, 166, 166]);
    assert_eq!(disasm.execute(), Err(DisasmError::UnknownOpcode(200)));
    let failure = disasm.failure();
    for _ in 0..3 {
        assert_eq!(disasm.step(), Err(DisasmError::UnknownOpcode(200)));
        assert_eq!(disasm.execute(), Err(DisasmError::UnknownOpcode(200)));
        assert_eq!(disasm.position(), 4);
        assert_eq!(disasm.trace().len(), 1);
        assert_eq!(disasm.failure(), failure);
    }

    let mut disasm = decoder(&[166, 93, 0, 0]);
    assert_eq!(disasm.step(), Ok(Some(String::from("0x1    halt"))));
    assert_eq!(disasm.step(), Err(DisasmError::OutOfBounds));
    assert_eq!(disasm.step(), Err(DisasmError::OutOfBounds));
    assert_eq!(disasm.execute(), Err(DisasmError::OutOfBounds));
    assert_eq!(disasm.failure(), Some(Failure { error: DisasmError::OutOfBounds, offset: 1 }));
    assert_eq!(disasm.trace(), &vec![String::from("halt")]);
}

#[test]
fn alias_opcodes_give_the_same_line() {
    for (first, second, line) in [
        (20u8, 112u8, "0x4    less-than reg8 < reg9 -> reg7"),
        (247, 214, "0x4    lte reg8 <= reg9 -> reg7"),
    ] {
        let mut one = decoder(&[first, 7, 8, 9]);
        let mut other = decoder(&[second, 7, 8, 9]);
        assert_eq!(one.execute(), Ok(vec![String::from(line)]));
        assert_eq!(other.execute(), Ok(vec![String::from(line)]));
        assert_eq!(one.trace(), other.trace());
    }
}

#[test]
fn a_truncated_constant_fails_out_of_bounds() {
    let text = b"constant";
    let mut full = vec![23u8, 3, 0, text.len() as u8];
    full.extend(text.iter().map(|b| b ^ 50));
    for available in 0..full.len() {
        let mut disasm = decoder(&full[..available]);
        let expected = if available == 0 { Ok(Vec::new()) } else { Err(DisasmError::OutOfBounds) };
        assert_eq!(disasm.execute(), expected);
        assert!(disasm.trace().is_empty());
        assert_eq!(disasm.resolve(3), "reg3");
        assert_eq!(disasm.position(), available);
        let failure = Failure { error: DisasmError::OutOfBounds, offset: 0 };
        assert_eq!(disasm.failure(), if available == 0 { None } else { Some(failure) });
    }
    let mut disasm = decoder(&full);
    assert_eq!(disasm.execute(), Ok(vec![String::from("0x12    define-constant 'constant' -> reg3")]));
}

#[test]
fn truncated_operands_fail_after_the_lines_before_them() {
    let mut disasm = decoder(&[166, 241, 1, 0, 0]);
    assert_eq!(disasm.execute(), Err(DisasmError::OutOfBounds));
    assert_eq!(disasm.trace(), &vec![String::from("halt")]);
    assert_eq!(disasm.position(), 5);
    assert_eq!(disasm.failure(), Some(Failure { error: DisasmError::OutOfBounds, offset: 1 }));
    assert_eq!(disasm.step(), Err(DisasmError::OutOfBounds));
}

#[test]
fn step_decodes_one_instruction_at_a_time() {
    let mut disasm = decoder(&[5, 9, 93, 0, 0, 0, 1]);
    assert_eq!(disasm.step(), Ok(Some(String::from("0x2    throw 9"))));
    assert_eq!(disasm.position(), 2);
    assert_eq!(disasm.step(), Ok(Some(String::from("0x7    jump 1"))));
    assert_eq!(disasm.position(), 7);
    assert_eq!(disasm.step(), Ok(None));
    assert_eq!(disasm.position(), 7);
    assert_eq!(disasm.trace().len(), 2);
}

#[test]
fn the_offset_marker_is_decimal() {
    let mut bytes = Vec::new();
    for _ in 0..17 {
        bytes.push(166);
    }
    let mut disasm = decoder(&bytes);
    let lines = disasm.execute().unwrap();
    assert_eq!(lines[9], "0x10    halt");
    assert_eq!(lines[15], "0x16    halt");
    assert_eq!(lines[16], "0x17    halt");
}

#[test]
fn a_whole_program() {
    let mut bytes = vec![23u8, 0, 0, 7];
    bytes.extend(b"console".iter().map(|b| b ^ 50));
    bytes.extend([23u8, 1, 0, 3]);
    bytes.extend(b"log".iter().map(|b| b ^ 50));
    bytes.extend([251, 2, 0, 1]);
    bytes.extend([51, 3, 0x3f, 0xf8, 0, 0, 0, 0, 0, 0]);
    bytes.extend([215, 4, 2, 1, 3]);
    bytes.extend([99, 0, 1, 4]);
    bytes.extend([39, 4, 0, 0, 0, 44]);
    bytes.extend([17, 4, 0]);
    bytes.push(166);
    let mut disasm = decoder(&bytes);
    let lines = disasm.execute().unwrap();
    assert_eq!(
        lines,
        vec![
            String::from("0x11    define-constant 'console' -> reg0"),
            String::from("0x18    define-constant 'log' -> reg1"),
            String::from("0x22    get-property console[log] -> reg2"),
            String::from("0x32    load-double 0x1.8000000000000p0 -> reg3"),
            String::from("0x37    call-function reg2(reg3) -> reg4"),
            String::from("0x41    set-property console[log] = reg4"),
            String::from("0x47    jump-if-false reg4, entry(44)"),
            String::from("0x50    function-return 4 []"),
            String::from("0x51    halt"),
        ]
    );
    assert_eq!(disasm.trace().len(), 9);
    assert_eq!(disasm.position(), bytes.len());
}

#[test]
fn decode_bytecode_decodes_base64() {
    assert_eq!(decode_bytecode(String::from("aGVsbG8=")), Ok(b"hello".to_vec()));
    assert_eq!(decode_bytecode(String::new()), Ok(Vec::new()));
    let bytes: Vec<u8> = (0..=255u8).collect();
    assert_eq!(decode_bytecode(encode(&bytes)), Ok(bytes));
}

#[test]
fn decode_bytecode_ignores_whitespace() {
    assert_eq!(decode_bytecode(String::from(" aGVs\n\tbG8=\r\n")), Ok(b"hello".to_vec()));
    assert_eq!(
        decode_bytecode(String::from("aG\u{a0}Vs\u{2003}bG\u{3000}8=\u{85}")),
        Ok(b"hello".to_vec())
    );
    assert_eq!(decode_bytecode(String::from(" \n ")), Ok(Vec::new()));
}

#[test]
fn decode_bytecode_rejects_what_is_not_base64() {
    assert_eq!(decode_bytecode(String::from("aGVsbG8")), Err(DisasmError::InvalidEncoding));
    assert_eq!(decode_bytecode(String::from("aGV*bG8=")), Err(DisasmError::InvalidEncoding));
    assert_eq!(decode_bytecode(String::from("aGVsbG8=x")), Err(DisasmError::InvalidEncoding));
    assert_eq!(decode_bytecode(String::from("aGVs_G8=")), Err(DisasmError::InvalidEncoding));
    assert_eq!(decode_bytecode(String::from("aGVsbG9=")), Err(DisasmError::InvalidEncoding));
}

#[test]
fn strip_whitespace_drops_exactly_the_white_space_code_points() {
    let mut white: Vec<u32> = vec![0x20, 0x85, 0xa0, 0x1680, 0x2028, 0x2029, 0x202f, 0x205f, 0x3000];
    white.extend(0x09..=0x0d);
    white.extend(0x2000..=0x200a);
    assert_eq!(white.len(), 25);
    let all: String = (0..=0x10ffffu32).filter_map(char::from_u32).collect();
    let expected: String = all.chars().filter(|c| !white.contains(&(*c as u32))).collect();
    assert_eq!(all.chars().count() - expected.chars().count(), 25);
    assert!(strip_whitespace(&all) == expected);
}

#[test]
fn strip_whitespace_keeps_the_rest_in_order() {
    assert_eq!(strip_whitespace(" a b\tc\n"), "abc");
    assert_eq!(strip_whitespace("a\u{a0}\u{1680}\u{2028}\u{205f}b"), "ab");
    assert_eq!(strip_whitespace("\u{200b}x\u{feff}"), "\u{200b}x\u{feff}");
    assert_eq!(strip_whitespace(""), "");
}

#[test]
fn a_decoder_from_encoded_text() {
    let text = format!("  {}\n", encode(&[166, 5, 1]));
    let mut disasm = match Disassembler::new(text) {
        Ok(disasm) => disasm,
        Err(e) => panic!("{}", e.message()),
    };
    assert_eq!(disasm.len(), 3);
    assert_eq!(
        disasm.execute(),
        Ok(vec![String::from("0x1    halt"), String::from("0x3    throw 1")])
    );
}

#[test]
fn a_decoder_from_invalid_text_is_refused() {
    assert!(matches!(Disassembler::new(String::from("!!!!")), Err(DisasmError::InvalidEncoding)));
}
