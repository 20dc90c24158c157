//! The instruction kinds, their mnemonics and operator symbols.

use vstd::prelude::*;

verus! {

/// One kind of instruction. Several opcode bytes may select the same kind.
#[derive(Clone, Copy, Debug, PartialEq, Eq, Structural)]
pub enum OpCodes {
    /// `init-memory`: dest-reg, imm (byte)
    InitMemory,
    /// `define-constant`: dest-reg, string
    NewValue,
    /// `get-property`: dest-reg, obj-reg, prop-reg
    GetProperty,
    /// `call-function`: dest-reg, func-reg, argc, args
    CallFunction,
    /// `mul`: dest-reg, left-reg, right-reg; shown with `*`
    Mul,
    /// `mov-imm`: dest-reg, imm (32-bit word)
    MovImm24,
    /// `call-apply`: dest-reg, func-reg, this-reg, argc, args
    CallApply,
    /// `div`: dest-reg, left-reg, right-reg; shown with `/`
    Div,
    /// `or`: dest-reg, left-reg, right-reg; shown with `|`
    Or,
    /// `sub`: dest-reg, left-reg, right-reg; shown with `-`
    Sub,
    /// `push-args`: dest-reg, argc, args
    PushArgs,
    /// `load-imm`: dest-reg, imm (byte)
    LoadImm24,
    /// `jump-frame`: entry (32-bit word), context, paramc, params
    JumpFrame,
    /// `new-function`: dest-reg, entry (32-bit word), argc, args
    NewFunction,
    /// `less-than`: dest-reg, left-reg, right-reg; shown with `<`
    LessThan,
    /// `jump-if-false`: cond-reg, target (32-bit word)
    JumpIfFalse,
    /// `set-property`: obj-reg, prop-reg, val-reg
    SetProperty,
    /// `add`: dest-reg, left-reg, right-reg; shown with `+`
    Add,
    /// `jump`: target (32-bit word)
    Jump,
    /// `halt`: no operands
    Halt,
    /// `shl`: dest-reg, left-reg, right-reg; shown with `<<`
    Shl,
    /// `function-return`: dest-reg, count, regs
    Ret,
    /// `equal`: dest-reg, left-reg, right-reg; shown with `==`
    Equal,
    /// `xor`: dest-reg, left-reg, right-reg; shown with `^`
    Xor,
    /// `load-double`: dest-reg, value (double)
    LoadDouble,
    /// `ushr`: dest-reg, left-reg, right-reg; shown with `>>>`
    Ushr,
    /// `shr`: dest-reg, left-reg, right-reg; shown with `>>`
    Shr,
    /// `and`: dest-reg, left-reg, right-reg; shown with `&`
    And,
    /// `mod`: dest-reg, left-reg, right-reg; shown with `%`
    Mod,
    /// `lte`: dest-reg, left-reg, right-reg; shown with `<=`
    Lte,
    /// `notequal`: dest-reg, left-reg, right-reg; shown with `!=`
    NotEqual,
    /// `jump-if-true`: cond-reg, target (32-bit word)
    JumpIfTrue,
    /// `try-catch`: dest-reg, catch, finally and continue targets (32-bit words)
    TryCatch,
    /// `strict-equal`: dest-reg, left-reg, right-reg; shown with `===`
    StrictEqual,
    /// `strict-notequal`: dest-reg, left-reg, right-reg; shown with `!==`
    StrictNotEqual,
    /// `throw`: reg
    Throw,
}

impl OpCodes {
    /// The mnemonic that opens the trace line of an instruction of this kind.
    pub open spec fn mnemonic(self) -> Seq<char> {
        match self {
            OpCodes::InitMemory => "init-memory"@,
            OpCodes::NewValue => "define-constant"@,
            OpCodes::GetProperty => "get-property"@,
            OpCodes::CallFunction => "call-function"@,
            OpCodes::Mul => "mul"@,
            OpCodes::MovImm24 => "mov-imm"@,
            OpCodes::CallApply => "call-apply"@,
            OpCodes::Div => "div"@,
            OpCodes::Or => "or"@,
            OpCodes::Sub => "sub"@,
            OpCodes::PushArgs => "push-args"@,
            OpCodes::LoadImm24 => "load-imm"@,
            OpCodes::JumpFrame => "jump-frame"@,
            OpCodes::NewFunction => "new-function"@,
            OpCodes::LessThan => "less-than"@,
            OpCodes::JumpIfFalse => "jump-if-false"@,
            OpCodes::SetProperty => "set-property"@,
            OpCodes::Add => "add"@,
            OpCodes::Jump => "jump"@,
            OpCodes::Halt => "halt"@,
            OpCodes::Shl => "shl"@,
            OpCodes::Ret => "function-return"@,
            OpCodes::Equal => "equal"@,
            OpCodes::Xor => "xor"@,
            OpCodes::LoadDouble => "load-double"@,
            OpCodes::Ushr => "ushr"@,
            OpCodes::Shr => "shr"@,
            OpCodes::And => "and"@,
            OpCodes::Mod => "mod"@,
            OpCodes::Lte => "lte"@,
            OpCodes::NotEqual => "notequal"@,
            OpCodes::JumpIfTrue => "jump-if-true"@,
            OpCodes::TryCatch => "try-catch"@,
            OpCodes::StrictEqual => "strict-equal"@,
            OpCodes::StrictNotEqual => "strict-notequal"@,
            OpCodes::Throw => "throw"@,
        }
    }

    /// Whether the kind is one of the seventeen two-operand operators.
    pub open spec fn spec_is_binary(self) -> bool {
        match self {
            OpCodes::Mul
            | OpCodes::Div
            | OpCodes::Or
            | OpCodes::Sub
            | OpCodes::LessThan
            | OpCodes::Add
            | OpCodes::Shl
            | OpCodes::Equal
            | OpCodes::Xor
            | OpCodes::Ushr
            | OpCodes::Shr
            | OpCodes::And
            | OpCodes::Mod
            | OpCodes::Lte
            | OpCodes::NotEqual
            | OpCodes::StrictEqual
            | OpCodes::StrictNotEqual => true,
            _ => false,
        }
    }

    /// The operator symbol of a two-operand operator; empty for other kinds.
    pub open spec fn spec_symbol(self) -> Seq<char> {
        match self {
            OpCodes::Mul => "*"@,
            OpCodes::Div => "/"@,
            OpCodes::Or => "|"@,
            OpCodes::Sub => "-"@,
            OpCodes::LessThan => "<"@,
            OpCodes::Add => "+"@,
            OpCodes::Shl => "<<"@,
            OpCodes::Equal => "=="@,
            OpCodes::Xor => "^"@,
            OpCodes::Ushr => ">>>"@,
            OpCodes::Shr => ">>"@,
            OpCodes::And => "&"@,
            OpCodes::Mod => "%"@,
            OpCodes::Lte => "<="@,
            OpCodes::NotEqual => "!="@,
            OpCodes::StrictEqual => "==="@,
            OpCodes::StrictNotEqual => "!=="@,
            _ => ""@,
        }
    }

    /// The mnemonic of this kind.
    pub fn as_str(&self) -> (name: &'static str)
        ensures
            name@ == self.mnemonic(),
    {
        match self {
            OpCodes::InitMemory => "init-memory",
            OpCodes::NewValue => "define-constant",
            OpCodes::GetProperty => "get-property",
            OpCodes::CallFunction => "call-function",
            OpCodes::Mul => "mul",
            OpCodes::MovImm24 => "mov-imm",
            OpCodes::CallApply => "call-apply",
            OpCodes::Div => "div",
            OpCodes::Or => "or",
            OpCodes::Sub => "sub",
            OpCodes::PushArgs => "push-args",
            OpCodes::LoadImm24 => "load-imm",
            OpCodes::JumpFrame => "jump-frame",
            OpCodes::NewFunction => "new-function",
            OpCodes::LessThan => "less-than",
            OpCodes::JumpIfFalse => "jump-if-false",
            OpCodes::SetProperty => "set-property",
            OpCodes::Add => "add",
            OpCodes::Jump => "jump",
            OpCodes::Halt => "halt",
            OpCodes::Shl => "shl",
            OpCodes::Ret => "function-return",
            OpCodes::Equal => "equal",
            OpCodes::Xor => "xor",
            OpCodes::LoadDouble => "load-double",
            OpCodes::Ushr => "ushr",
            OpCodes::Shr => "shr",
            OpCodes::And => "and",
            OpCodes::Mod => "mod",
            OpCodes::Lte => "lte",
            OpCodes::NotEqual => "notequal",
            OpCodes::JumpIfTrue => "jump-if-true",
            OpCodes::TryCatch => "try-catch",
            OpCodes::StrictEqual => "strict-equal",
            OpCodes::StrictNotEqual => "strict-notequal",
            OpCodes::Throw => "throw",
        }
    }

    /// Whether the kind is a two-operand operator.
    pub fn is_binary(&self) -> (binary: bool)
        ensures
            binary == self.spec_is_binary(),
    {
        match self {
            OpCodes::Mul
            | OpCodes::Div
            | OpCodes::Or
            | OpCodes::Sub
            | OpCodes::LessThan
            | OpCodes::Add
            | OpCodes::Shl
            | OpCodes::Equal
            | OpCodes::Xor
            | OpCodes::Ushr
            | OpCodes::Shr
            | OpCodes::And
            | OpCodes::Mod
            | OpCodes::Lte
            | OpCodes::NotEqual
            | OpCodes::StrictEqual
            | OpCodes::StrictNotEqual => true,
            _ => false,
        }
    }

    /// The operator symbol of this kind; empty unless it is a two-operand
    /// operator.
    pub fn symbol(&self) -> (text: &'static str)
        ensures
            text@ == self.spec_symbol(),
    {
        match self {
            OpCodes::Mul => "*",
            OpCodes::Div => "/",
            OpCodes::Or => "|",
            OpCodes::Sub => "-",
            OpCodes::LessThan => "<",
            OpCodes::Add => "+",
            OpCodes::Shl => "<<",
            OpCodes::Equal => "==",
            OpCodes::Xor => "^",
            OpCodes::Ushr => ">>>",
            OpCodes::Shr => ">>",
            OpCodes::And => "&",
            OpCodes::Mod => "%",
            OpCodes::Lte => "<=",
            OpCodes::NotEqual => "!=",
            OpCodes::StrictEqual => "===",
            OpCodes::StrictNotEqual => "!==",
            _ => "",
        }
    }
}

} // verus!
