use bytecode_vm::codec::{decode_address, decode_uint};
use bytecode_vm::decoder::load_header;
use bytecode_vm::instr::fetch;
use bytecode_vm::interp::{apply, interpret, run};
use bytecode_vm::{Address, Instr, Registers, Section, VmError, U256, VM};

fn word(v: u8) -> Vec<u8> {
    let mut bytes = vec![0u8; 32];
    bytes[31] = v;
    bytes
}

fn program(uints: &[u8], bools: &[u8], addresses: &[[u8; 20]], code: &[u8]) -> Vec<u8> {
    let mut out = vec![uints.len() as u8];
    for v in uints {
        out.extend(word(*v));
    }
    out.push(bools.len() as u8);
    out.extend_from_slice(bools);
    out.push(addresses.len() as u8);
    for a in addresses {
        out.extend_from_slice(a);
    }
    out.extend_from_slice(code);
    out
}

fn machine() -> VM {
    VM::new(Address::zero(), Address::zero()).unwrap()
}

fn caller() -> Address {
    Address::from_bytes([0xAB; 20])
}

fn exec(input: Vec<u8>) -> Result<U256, Vec<u8>> {
    machine().execute(input, U256::from_u64(250), caller())
}

#[test]
fn add_literal_to_itself_returns_ten() {
    let input = program(&[5], &[], &[], &[0, 0, 0, 1, 4, 1]);
    assert_eq!(exec(input.clone()), Ok(U256::from_u64(10)));
    assert_eq!(interpret(&input, U256::zero(), caller()), Ok(U256::from_u64(10)));
}

#[test]
fn sub_three_minus_two_returns_one() {
    let input = program(&[3, 2], &[], &[], &[32, 0, 1, 0, 4, 0]);
    assert_eq!(exec(input), Ok(U256::from_u64(1)));
}

#[test]
fn sub_two_from_smaller_is_underflow() {
    let input = program(&[2, 5], &[], &[], &[32, 1, 0, 0, 4, 0]);
    assert_eq!(exec(input.clone()), Ok(U256::from_u64(3)));
    let input = program(&[2, 5], &[], &[], &[32, 0, 1, 0, 4, 0]);
    assert_eq!(exec(input.clone()), Err(b"Subtraction underflow".to_vec()));
    assert_eq!(
        interpret(&input, U256::zero(), caller()),
        Err(VmError::ArithmeticUnderflow)
    );
}

#[test]
fn seven_is_not_even() {
    let input = program(&[7], &[], &[], &[2, 0, 0, 8, 0]);
    assert_eq!(exec(input), Ok(U256::zero()));
}

#[test]
fn eight_is_even() {
    let input = program(&[8], &[], &[], &[2, 0, 0, 8, 0]);
    assert_eq!(exec(input), Ok(U256::from_u64(1)));
}

#[test]
fn unknown_opcode_after_empty_header() {
    assert_eq!(exec(vec![0, 0, 0, 99]), Err(b"Invalid opcode".to_vec()));
    assert_eq!(
        interpret(&[0, 0, 0, 99], U256::zero(), caller()),
        Err(VmError::InvalidOpcode)
    );
}

#[test]
fn unknown_opcode_whatever_follows() {
    for opcode in [11u8, 29, 34, 99, 255] {
        assert_eq!(
            interpret(&[0, 0, 0, opcode], U256::zero(), caller()),
            Err(VmError::InvalidOpcode)
        );
        assert_eq!(
            interpret(&[0, 0, 0, opcode, 0, 0, 0, 4, 0], U256::zero(), caller()),
            Err(VmError::InvalidOpcode)
        );
    }
}

#[test]
fn empty_program_returns_zero() {
    assert_eq!(exec(vec![0, 0, 0]), Ok(U256::zero()));
}

#[test]
fn instructions_without_return_give_zero() {
    let input = program(&[5], &[], &[], &[0, 0, 0, 1]);
    assert_eq!(exec(input), Ok(U256::zero()));
}

#[test]
fn nothing_runs_after_a_return() {
    let input = program(&[5], &[], &[], &[4, 0, 99]);
    assert_eq!(exec(input), Ok(U256::from_u64(5)));
}

#[test]
fn mul_div_and_special() {
    let input = program(&[6, 7], &[], &[], &[1, 0, 1, 2, 4, 2]);
    assert_eq!(exec(input), Ok(U256::from_u64(42)));
    let input = program(&[45, 7], &[], &[], &[33, 0, 1, 2, 4, 2]);
    assert_eq!(exec(input), Ok(U256::from_u64(6)));
    let input = program(&[], &[], &[], &[3, 9, 4, 9]);
    assert_eq!(exec(input), Ok(U256::from_u64(69)));
}

#[test]
fn division_by_zero_register() {
    let input = program(&[45], &[], &[], &[33, 0, 1, 2, 4, 2]);
    assert_eq!(exec(input.clone()), Err(b"Division by zero".to_vec()));
    assert_eq!(interpret(&input, U256::zero(), caller()), Err(VmError::DivisionByZero));
}

#[test]
fn comparisons_write_booleans() {
    let input = program(&[3, 2], &[], &[], &[6, 0, 1, 0, 8, 0]);
    assert_eq!(exec(input), Ok(U256::from_u64(1)));
    let input = program(&[3, 2], &[], &[], &[7, 0, 1, 0, 8, 0]);
    assert_eq!(exec(input), Ok(U256::zero()));
    let input = program(&[3, 3], &[], &[], &[5, 0, 1, 0, 8, 0]);
    assert_eq!(exec(input), Ok(U256::from_u64(1)));
    let input = program(&[3, 2], &[], &[], &[5, 0, 1, 0, 8, 0]);
    assert_eq!(exec(input), Ok(U256::zero()));
}

#[test]
fn boolean_literals_are_truthy_bytes() {
    let input = program(&[], &[0, 2, 1], &[], &[8, 0]);
    assert_eq!(exec(input), Ok(U256::zero()));
    let input = program(&[], &[0, 2, 1], &[], &[8, 1]);
    assert_eq!(exec(input), Ok(U256::from_u64(1)));
    let input = program(&[], &[0, 2, 1], &[], &[8, 3]);
    assert_eq!(exec(input), Ok(U256::zero()));
}

#[test]
fn item_price_and_oracle_price() {
    let input = program(&[], &[], &[], &[31, 0, 4, 0]);
    assert_eq!(exec(input), Ok(U256::from_u64(250)));
    let input = program(&[], &[], &[], &[9, 0, 4, 0]);
    assert_eq!(exec(input), Ok(U256::from_u64(1000)));
}

#[test]
fn header_with_every_block() {
    let input = program(&[9, 8], &[1], &[[7; 20], [6; 20]], &[4, 1]);
    assert_eq!(input.len(), 3 + 32 * 2 + 1 + 20 * 2 + 2);
    assert_eq!(exec(input), Ok(U256::from_u64(8)));
}

#[test]
fn header_length_is_three_plus_the_blocks() {
    let input = program(&[9, 8, 7], &[1, 0], &[[7; 20]], &[4, 1]);
    let (regs, pc) = load_header(&input).unwrap();
    assert_eq!(pc, 3 + 32 * 3 + 2 + 20);
    assert_eq!(regs.uint(0), U256::from_u64(9));
    assert_eq!(regs.uint(2), U256::from_u64(7));
    assert_eq!(regs.uint(3), U256::zero());
    assert!(regs.boolean(0));
    assert!(!regs.boolean(1));
    assert!(!regs.boolean(2));
    assert_eq!(regs.address(0), Address::from_bytes([7; 20]));
    assert_eq!(regs.address(1), Address::zero());
    let (_, pc) = load_header(&[0, 0, 0]).unwrap();
    assert_eq!(pc, 3);
}

#[test]
fn full_banks_load() {
    let uints = [1u8; 255];
    let bools = [1u8; 255];
    let addresses = [[3u8; 20]; 255];
    let input = program(&uints, &bools, &addresses, &[4, 254]);
    let (regs, pc) = load_header(&input).unwrap();
    assert_eq!(pc, 3 + 32 * 255 + 255 + 20 * 255);
    assert_eq!(regs.uint(254), U256::from_u64(1));
    assert_eq!(regs.uint(255), U256::zero());
    assert!(regs.boolean(254));
    assert!(!regs.boolean(255));
    assert_eq!(regs.address(254), Address::from_bytes([3; 20]));
    assert_eq!(regs.address(255), Address::zero());
    assert_eq!(exec(input), Ok(U256::from_u64(1)));
}

#[test]
fn empty_input_is_a_truncated_header() {
    assert_eq!(exec(vec![]), Err(b"Input too short for all counts".to_vec()));
    assert_eq!(load_header(&[]).err(), Some(VmError::TruncatedHeader));
}

#[test]
fn missing_count_bytes_are_a_truncated_header() {
    assert_eq!(load_header(&[0]).err(), Some(VmError::TruncatedHeader));
    assert_eq!(load_header(&[0, 0]).err(), Some(VmError::TruncatedHeader));
    assert_eq!(load_header(&[0, 2, 1, 1]).err(), Some(VmError::TruncatedHeader));
    let mut input = vec![1u8];
    input.extend(word(5));
    assert_eq!(load_header(&input).err(), Some(VmError::TruncatedHeader));
}

#[test]
fn short_integer_block() {
    let mut input = vec![2u8];
    input.extend(word(5));
    input.extend(vec![0u8; 31]);
    assert_eq!(
        load_header(&input).err(),
        Some(VmError::InsufficientData(Section::Uint256s))
    );
    assert_eq!(exec(input), Err(b"Not enough bytes for uint256s".to_vec()));
    assert_eq!(
        load_header(&[1]).err(),
        Some(VmError::InsufficientData(Section::Uint256s))
    );
}

#[test]
fn short_boolean_block() {
    assert_eq!(
        load_header(&[0, 3, 1, 1]).err(),
        Some(VmError::InsufficientData(Section::Bools))
    );
    assert_eq!(exec(vec![0, 3, 1, 1]), Err(b"Not enough bytes for bools".to_vec()));
}

#[test]
fn short_address_block() {
    let mut input = vec![0u8, 0, 1];
    input.extend(vec![9u8; 19]);
    assert_eq!(
        load_header(&input).err(),
        Some(VmError::InsufficientData(Section::Addresses))
    );
    assert_eq!(exec(input), Err(b"Not enough bytes for addresses".to_vec()));
}

#[test]
fn short_instructions_name_their_opcode() {
    let cases: [(&[u8], Section, &[u8]); 15] = [
        (&[0, 1, 2], Section::Add, b"Not enough bytes for add instruction"),
        (&[1, 1, 2], Section::Mul, b"Not enough bytes for mul instruction"),
        (&[2, 1], Section::IsEven, b"Not enough bytes for isEven instruction"),
        (&[3], Section::Special, b"Not enough bytes for special instruction"),
        (&[4], Section::ReturnUint, b"Not enough bytes for return instruction"),
        (&[5, 1, 2], Section::Equal, b"Not enough bytes for equal instruction"),
        (&[6, 1, 2], Section::GreaterThan, b"Not enough bytes for greaterThan instruction"),
        (&[7, 1, 2], Section::LessThan, b"Not enough bytes for lessThan instruction"),
        (&[8], Section::ReturnBool, b"Not enough bytes for return bool instruction"),
        (&[9], Section::GetLatestPrice, b"Not enough bytes for getLatestPrice instruction"),
        (
            &[10],
            Section::GetPriceFeedAddress,
            b"Not enough bytes for getPriceFeedAddress instruction",
        ),
        (&[30], Section::CallerAddress, b"Not enough bytes for msg.sender instruction"),
        (&[31], Section::ItemPrice, b"Not enough bytes for itemPrice instruction"),
        (&[32, 1, 2], Section::Sub, b"Not enough bytes for sub instruction"),
        (&[33], Section::Div, b"Not enough bytes for div instruction"),
    ];
    for (code, section, text) in cases {
        let input = program(&[], &[], &[], code);
        assert_eq!(
            interpret(&input, U256::zero(), caller()),
            Err(VmError::InsufficientData(section))
        );
        assert_eq!(exec(input), Err(text.to_vec()));
        assert_eq!(VmError::InsufficientData(section).message(), text.to_vec());
        assert_eq!(section.message(), text.to_vec());
    }
}

#[test]
fn error_texts() {
    assert_eq!(VmError::TruncatedHeader.message(), b"Input too short for all counts".to_vec());
    assert_eq!(VmError::OutOfBounds.message(), b"Out of bounds".to_vec());
    assert_eq!(VmError::ArithmeticUnderflow.message(), b"Subtraction underflow".to_vec());
    assert_eq!(VmError::DivisionByZero.message(), b"Division by zero".to_vec());
    assert_eq!(VmError::InvalidOpcode.message(), b"Invalid opcode".to_vec());
    assert_eq!(Section::Uint256s.message(), b"Not enough bytes for uint256s".to_vec());
    assert_eq!(Section::Bools.message(), b"Not enough bytes for bools".to_vec());
    assert_eq!(Section::Addresses.message(), b"Not enough bytes for addresses".to_vec());
}

#[test]
fn fetch_reads_opcode_and_operands() {
    let code = [0u8, 1, 2, 3, 2, 9, 8, 30, 7];
    assert_eq!(fetch(&code, 0), Ok(Instr::Add { a: 1, b: 2, ret: 3 }));
    assert_eq!(Instr::Add { a: 1, b: 2, ret: 3 }.size(), 4);
    assert_eq!(fetch(&code, 4), Ok(Instr::IsEven { a: 9, ret: 8 }));
    assert_eq!(Instr::IsEven { a: 9, ret: 8 }.size(), 3);
    assert_eq!(fetch(&code, 7), Ok(Instr::CallerAddress { ret: 7 }));
    assert_eq!(Instr::CallerAddress { ret: 7 }.size(), 2);
    assert_eq!(fetch(&code, 8), Err(VmError::InsufficientData(Section::LessThan)));
    assert_eq!(fetch(&[200], 0), Err(VmError::InvalidOpcode));
}

#[test]
fn apply_writes_the_named_register_only() {
    let mut regs = Registers::new();
    regs.set_uint(1, U256::from_u64(20));
    regs.set_uint(2, U256::from_u64(22));
    let price = U256::from_u64(5);
    assert_eq!(apply(&mut regs, Instr::Add { a: 1, b: 2, ret: 3 }, price, caller()), Ok(None));
    assert_eq!(regs.uint(3), U256::from_u64(42));
    assert_eq!(regs.uint(1), U256::from_u64(20));
    assert_eq!(regs.uint(2), U256::from_u64(22));
    assert_eq!(regs.uint(4), U256::zero());
    assert_eq!(apply(&mut regs, Instr::CallerAddress { ret: 9 }, price, caller()), Ok(None));
    assert_eq!(regs.address(9), caller());
    assert_eq!(regs.address(8), Address::zero());
    let feed = Address::from_bytes([1; 20]);
    regs.set_address(8, feed);
    assert_eq!(apply(&mut regs, Instr::GetPriceFeedAddress { ret: 8 }, price, caller()), Ok(None));
    assert_eq!(regs.address(8), Address::zero());
    assert_eq!(apply(&mut regs, Instr::ItemPrice { ret: 0 }, price, caller()), Ok(None));
    assert_eq!(regs.uint(0), price);
    assert_eq!(
        apply(&mut regs, Instr::ReturnUint { ret: 3 }, price, caller()),
        Ok(Some(U256::from_u64(42)))
    );
    assert_eq!(
        apply(&mut regs, Instr::Sub { a: 1, b: 2, ret: 1 }, price, caller()),
        Err(VmError::ArithmeticUnderflow)
    );
    assert_eq!(regs.uint(1), U256::from_u64(20));
}

#[test]
fn run_starts_where_it_is_told() {
    let code = [99u8, 3, 0, 4, 0];
    let price = U256::zero();
    assert_eq!(run(&code, 1, Registers::new(), price, caller()), Ok(U256::from_u64(69)));
    assert_eq!(run(&code, 0, Registers::new(), price, caller()), Err(VmError::InvalidOpcode));
    assert_eq!(run(&code, 5, Registers::new(), price, caller()), Ok(U256::zero()));
    assert_eq!(run(&code, 9, Registers::new(), price, caller()), Ok(U256::zero()));
}

#[test]
fn decode_uint_is_big_endian() {
    let mut buffer = vec![0xEEu8];
    for i in 1..=32u8 {
        buffer.push(i);
    }
    let expected = U256 {
        w3: 0x0102030405060708,
        w2: 0x090A0B0C0D0E0F10,
        w1: 0x1112131415161718,
        w0: 0x191A1B1C1D1E1F20,
    };
    assert_eq!(decode_uint(&buffer, 1), Ok(expected));
    assert_eq!(decode_uint(&buffer, 2), Err(VmError::OutOfBounds));
    assert_eq!(decode_uint(&buffer, usize::MAX), Err(VmError::OutOfBounds));
    assert_eq!(decode_uint(&buffer[..10], 0), Err(VmError::OutOfBounds));
    assert_eq!(decode_uint(&word(5), 0), Ok(U256::from_u64(5)));
}

#[test]
fn decode_address_keeps_byte_order() {
    let buffer: Vec<u8> = (0u8..25).collect();
    let mut expected = [0u8; 20];
    for i in 0..20 {
        expected[i] = (i + 5) as u8;
    }
    assert_eq!(decode_address(&buffer, 5), Ok(Address::from_bytes(expected)));
    assert_eq!(Address::from_bytes(expected).into_bytes(), expected);
    assert_eq!(decode_address(&buffer, 6), Err(VmError::OutOfBounds));
    assert_eq!(decode_address(&buffer, usize::MAX), Err(VmError::OutOfBounds));
}

#[test]
fn large_literal_round_trip() {
    let mut input = vec![2u8];
    input.extend(vec![0xFFu8; 32]);
    input.extend(word(1));
    input.extend_from_slice(&[0, 0]);
    input.extend_from_slice(&[0, 0, 1, 2, 4, 2]);
    assert_eq!(exec(input), Ok(U256::zero()));
}

#[test]
fn execute_leaves_the_machine_as_it_was() {
    let mut vm = VM::new(Address::from_bytes([1; 20]), Address::from_bytes([2; 20])).unwrap();
    let _ = vm.execute(vec![0, 0, 0, 99], U256::zero(), caller());
    assert_eq!(vm.arb_price_consumer(), Address::from_bytes([1; 20]));
    assert_eq!(vm.redot_pay_vault(), Address::from_bytes([2; 20]));
}
