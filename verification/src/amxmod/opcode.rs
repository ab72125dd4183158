//! The instructions of the machine: their mnemonics, the operands that
//! follow each in the code segment, and the decoding of one instruction.

use crate::bytes::{read_u32, u32_at};
use crate::error::{Error, Field};
use vstd::prelude::*;

verus! {

/// The mnemonics of the machine, in the order of their numbers in a code
/// segment, and after them one that no code segment holds.
#[allow(non_camel_case_types)]
#[derive(Clone, Copy, Debug, PartialEq, Eq, Structural)]
pub enum OpcodeType {
    /// `none`, number 0.
    OP_NONE,
    /// `load.pri`, number 1.
    OP_LOAD_PRI,
    /// `load.alt`, number 2.
    OP_LOAD_ALT,
    /// `load.s.pri`, number 3.
    OP_LOAD_S_PRI,
    /// `load.s.alt`, number 4.
    OP_LOAD_S_ALT,
    /// `lref.pri`, number 5.
    OP_LREF_PRI,
    /// `lref.alt`, number 6.
    OP_LREF_ALT,
    /// `lref.s.pri`, number 7.
    OP_LREF_S_PRI,
    /// `lref.s.alt`, number 8.
    OP_LREF_S_ALT,
    /// `load.i`, number 9.
    OP_LOAD_I,
    /// `lodb.i`, number 10.
    OP_LODB_I,
    /// `const.pri`, number 11.
    OP_CONST_PRI,
    /// `const.alt`, number 12.
    OP_CONST_ALT,
    /// `addr.pri`, number 13.
    OP_ADDR_PRI,
    /// `addr.alt`, number 14.
    OP_ADDR_ALT,
    /// `stor.pri`, number 15.
    OP_STOR_PRI,
    /// `stor.alt`, number 16.
    OP_STOR_ALT,
    /// `stor.s.pri`, number 17.
    OP_STOR_S_PRI,
    /// `stor.s.alt`, number 18.
    OP_STOR_S_ALT,
    /// `sref.pri`, number 19.
    OP_SREF_PRI,
    /// `sref.alt`, number 20.
    OP_SREF_ALT,
    /// `sref.s.pri`, number 21.
    OP_SREF_S_PRI,
    /// `sref.s.alt`, number 22.
    OP_SREF_S_ALT,
    /// `stor.i`, number 23.
    OP_STOR_I,
    /// `strb.i`, number 24.
    OP_STRB_I,
    /// `lidx`, number 25.
    OP_LIDX,
    /// `lidx.b`, number 26.
    OP_LIDX_B,
    /// `idxaddr`, number 27.
    OP_IDXADDR,
    /// `idxaddr.b`, number 28.
    OP_IDXADDR_B,
    /// `align.pri`, number 29.
    OP_ALIGN_PRI,
    /// `align.alt`, number 30.
    OP_ALIGN_ALT,
    /// `lctrl`, number 31.
    OP_LCTRL,
    /// `sctrl`, number 32.
    OP_SCTRL,
    /// `move.pri`, number 33.
    OP_MOVE_PRI,
    /// `move.alt`, number 34.
    OP_MOVE_ALT,
    /// `xchg`, number 35.
    OP_XCHG,
    /// `push.pri`, number 36.
    OP_PUSH_PRI,
    /// `push.alt`, number 37.
    OP_PUSH_ALT,
    /// `push.r`, number 38.
    OP_PUSH_R,
    /// `push.c`, number 39.
    OP_PUSH_C,
    /// `push`, number 40.
    OP_PUSH,
    /// `push.s`, number 41.
    OP_PUSH_S,
    /// `pop.pri`, number 42.
    OP_POP_PRI,
    /// `pop.alt`, number 43.
    OP_POP_ALT,
    /// `stack`, number 44.
    OP_STACK,
    /// `heap`, number 45.
    OP_HEAP,
    /// `proc`, number 46.
    OP_PROC,
    /// `ret`, number 47.
    OP_RET,
    /// `retn`, number 48.
    OP_RETN,
    /// `call`, number 49.
    OP_CALL,
    /// `call.pri`, number 50.
    OP_CALL_PRI,
    /// `jump`, number 51.
    OP_JUMP,
    /// `jrel`, number 52.
    OP_JREL,
    /// `jzer`, number 53.
    OP_JZER,
    /// `jnz`, number 54.
    OP_JNZ,
    /// `jeq`, number 55.
    OP_JEQ,
    /// `jneq`, number 56.
    OP_JNEQ,
    /// `jless`, number 57.
    OP_JLESS,
    /// `jleq`, number 58.
    OP_JLEQ,
    /// `jgrtr`, number 59.
    OP_JGRTR,
    /// `jgeq`, number 60.
    OP_JGEQ,
    /// `jsless`, number 61.
    OP_JSLESS,
    /// `jsleq`, number 62.
    OP_JSLEQ,
    /// `jsgrtr`, number 63.
    OP_JSGRTR,
    /// `jsgeq`, number 64.
    OP_JSGEQ,
    /// `shl`, number 65.
    OP_SHL,
    /// `shr`, number 66.
    OP_SHR,
    /// `sshr`, number 67.
    OP_SSHR,
    /// `shl.c.pri`, number 68.
    OP_SHL_C_PRI,
    /// `shl.c.alt`, number 69.
    OP_SHL_C_ALT,
    /// `shr.c.pri`, number 70.
    OP_SHR_C_PRI,
    /// `shr.c.alt`, number 71.
    OP_SHR_C_ALT,
    /// `smul`, number 72.
    OP_SMUL,
    /// `sdiv`, number 73.
    OP_SDIV,
    /// `sdiv.alt`, number 74.
    OP_SDIV_ALT,
    /// `umul`, number 75.
    OP_UMUL,
    /// `udiv`, number 76.
    OP_UDIV,
    /// `udiv.alt`, number 77.
    OP_UDIV_ALT,
    /// `add`, number 78.
    OP_ADD,
    /// `sub`, number 79.
    OP_SUB,
    /// `sub.alt`, number 80.
    OP_SUB_ALT,
    /// `and`, number 81.
    OP_AND,
    /// `or`, number 82.
    OP_OR,
    /// `xor`, number 83.
    OP_XOR,
    /// `not`, number 84.
    OP_NOT,
    /// `neg`, number 85.
    OP_NEG,
    /// `invert`, number 86.
    OP_INVERT,
    /// `add.c`, number 87.
    OP_ADD_C,
    /// `smul.c`, number 88.
    OP_SMUL_C,
    /// `zero.pri`, number 89.
    OP_ZERO_PRI,
    /// `zero.alt`, number 90.
    OP_ZERO_ALT,
    /// `zero`, number 91.
    OP_ZERO,
    /// `zero.s`, number 92.
    OP_ZERO_S,
    /// `sign.pri`, number 93.
    OP_SIGN_PRI,
    /// `sign.alt`, number 94.
    OP_SIGN_ALT,
    /// `eq`, number 95.
    OP_EQ,
    /// `neq`, number 96.
    OP_NEQ,
    /// `less`, number 97.
    OP_LESS,
    /// `leq`, number 98.
    OP_LEQ,
    /// `grtr`, number 99.
    OP_GRTR,
    /// `geq`, number 100.
    OP_GEQ,
    /// `sless`, number 101.
    OP_SLESS,
    /// `sleq`, number 102.
    OP_SLEQ,
    /// `sgrtr`, number 103.
    OP_SGRTR,
    /// `sgeq`, number 104.
    OP_SGEQ,
    /// `eq.c.pri`, number 105.
    OP_EQ_C_PRI,
    /// `eq.c.alt`, number 106.
    OP_EQ_C_ALT,
    /// `inc.pri`, number 107.
    OP_INC_PRI,
    /// `inc.alt`, number 108.
    OP_INC_ALT,
    /// `inc`, number 109.
    OP_INC,
    /// `inc.s`, number 110.
    OP_INC_S,
    /// `inc.i`, number 111.
    OP_INC_I,
    /// `dec.pri`, number 112.
    OP_DEC_PRI,
    /// `dec.alt`, number 113.
    OP_DEC_ALT,
    /// `dec`, number 114.
    OP_DEC,
    /// `dec.s`, number 115.
    OP_DEC_S,
    /// `dec.i`, number 116.
    OP_DEC_I,
    /// `movs`, number 117.
    OP_MOVS,
    /// `cmps`, number 118.
    OP_CMPS,
    /// `fill`, number 119.
    OP_FILL,
    /// `halt`, number 120.
    OP_HALT,
    /// `bounds`, number 121.
    OP_BOUNDS,
    /// `sysreq.pri`, number 122.
    OP_SYSREQ_PRI,
    /// `sysreq.c`, number 123.
    OP_SYSREQ_C,
    /// `file`, number 124.
    OP_FILE,
    /// `line`, number 125.
    OP_LINE,
    /// `symbol`, number 126.
    OP_SYMBOL,
    /// `srange`, number 127.
    OP_SRANGE,
    /// `jump.pri`, number 128.
    OP_JUMP_PRI,
    /// `switch`, number 129.
    OP_SWITCH,
    /// `casetbl`, number 130.
    OP_CASETBL,
    /// `swap.pri`, number 131.
    OP_SWAP_PRI,
    /// `swap.alt`, number 132.
    OP_SWAP_ALT,
    /// `pushaddr`, number 133.
    OP_PUSHADDR,
    /// `nop`, number 134.
    OP_NOP,
    /// `sysreq.d`, number 135.
    OP_SYSREQ_D,
    /// `symtag`, number 136.
    OP_SYMTAG,
    /// `break`, number 137.
    OP_BREAK,
    /// One entry of a case table: a value and the address to jump to. It has
    /// no number of its own; decoding a `casetbl` gives one for each entry.
    OP_CASE,
}

/// What follows a mnemonic in the code segment.
#[derive(Clone, Copy, Debug, PartialEq, Eq, Structural)]
pub enum Layout {
    /// Nothing.
    Plain,
    /// One cell.
    Cell,
    /// Two cells.
    Pair,
    /// One cell that holds a size, then that many bytes of debugging text.
    Blob,
    /// One cell that holds the number of entries, one cell for the default
    /// address, then two cells for each entry.
    CaseTable,
}

/// The operand cells that an instruction carries.
#[derive(Clone, Copy, Debug, PartialEq, Eq, Structural)]
pub enum Operands {
    /// No operand.
    Empty,
    /// One operand.
    One(u32),
    /// Two operands.
    Two(u32, u32),
}

/// One decoded instruction.
#[derive(Clone, Copy, Debug, PartialEq, Eq, Structural)]
pub struct Opcode {
    /// The mnemonic.
    pub code: OpcodeType,
    /// Where the instruction starts, in bytes from the start of the code
    /// segment.
    pub address: usize,
    /// The operands.
    pub operands: Operands,
}

impl OpcodeType {
    /// The mnemonic that has the number `tag`, if there is one.
    pub open spec fn with_number(tag: u32) -> Option<OpcodeType> {
        match tag {
            0 => Some(OpcodeType::OP_NONE),
            1 => Some(OpcodeType::OP_LOAD_PRI),
            2 => Some(OpcodeType::OP_LOAD_ALT),
            3 => Some(OpcodeType::OP_LOAD_S_PRI),
            4 => Some(OpcodeType::OP_LOAD_S_ALT),
            5 => Some(OpcodeType::OP_LREF_PRI),
            6 => Some(OpcodeType::OP_LREF_ALT),
            7 => Some(OpcodeType::OP_LREF_S_PRI),
            8 => Some(OpcodeType::OP_LREF_S_ALT),
            9 => Some(OpcodeType::OP_LOAD_I),
            10 => Some(OpcodeType::OP_LODB_I),
            11 => Some(OpcodeType::OP_CONST_PRI),
            12 => Some(OpcodeType::OP_CONST_ALT),
            13 => Some(OpcodeType::OP_ADDR_PRI),
            14 => Some(OpcodeType::OP_ADDR_ALT),
            15 => Some(OpcodeType::OP_STOR_PRI),
            16 => Some(OpcodeType::OP_STOR_ALT),
            17 => Some(OpcodeType::OP_STOR_S_PRI),
            18 => Some(OpcodeType::OP_STOR_S_ALT),
            19 => Some(OpcodeType::OP_SREF_PRI),
            20 => Some(OpcodeType::OP_SREF_ALT),
            21 => Some(OpcodeType::OP_SREF_S_PRI),
            22 => Some(OpcodeType::OP_SREF_S_ALT),
            23 => Some(OpcodeType::OP_STOR_I),
            24 => Some(OpcodeType::OP_STRB_I),
            25 => Some(OpcodeType::OP_LIDX),
            26 => Some(OpcodeType::OP_LIDX_B),
            27 => Some(OpcodeType::OP_IDXADDR),
            28 => Some(OpcodeType::OP_IDXADDR_B),
            29 => Some(OpcodeType::OP_ALIGN_PRI),
            30 => Some(OpcodeType::OP_ALIGN_ALT),
            31 => Some(OpcodeType::OP_LCTRL),
            32 => Some(OpcodeType::OP_SCTRL),
            33 => Some(OpcodeType::OP_MOVE_PRI),
            34 => Some(OpcodeType::OP_MOVE_ALT),
            35 => Some(OpcodeType::OP_XCHG),
            36 => Some(OpcodeType::OP_PUSH_PRI),
            37 => Some(OpcodeType::OP_PUSH_ALT),
            38 => Some(OpcodeType::OP_PUSH_R),
            39 => Some(OpcodeType::OP_PUSH_C),
            40 => Some(OpcodeType::OP_PUSH),
            41 => Some(OpcodeType::OP_PUSH_S),
            42 => Some(OpcodeType::OP_POP_PRI),
            43 => Some(OpcodeType::OP_POP_ALT),
            44 => Some(OpcodeType::OP_STACK),
            45 => Some(OpcodeType::OP_HEAP),
            46 => Some(OpcodeType::OP_PROC),
            47 => Some(OpcodeType::OP_RET),
            48 => Some(OpcodeType::OP_RETN),
            49 => Some(OpcodeType::OP_CALL),
            50 => Some(OpcodeType::OP_CALL_PRI),
            51 => Some(OpcodeType::OP_JUMP),
            52 => Some(OpcodeType::OP_JREL),
            53 => Some(OpcodeType::OP_JZER),
            54 => Some(OpcodeType::OP_JNZ),
            55 => Some(OpcodeType::OP_JEQ),
            56 => Some(OpcodeType::OP_JNEQ),
            57 => Some(OpcodeType::OP_JLESS),
            58 => Some(OpcodeType::OP_JLEQ),
            59 => Some(OpcodeType::OP_JGRTR),
            60 => Some(OpcodeType::OP_JGEQ),
            61 => Some(OpcodeType::OP_JSLESS),
            62 => Some(OpcodeType::OP_JSLEQ),
            63 => Some(OpcodeType::OP_JSGRTR),
            64 => Some(OpcodeType::OP_JSGEQ),
            65 => Some(OpcodeType::OP_SHL),
            66 => Some(OpcodeType::OP_SHR),
            67 => Some(OpcodeType::OP_SSHR),
            68 => Some(OpcodeType::OP_SHL_C_PRI),
            69 => Some(OpcodeType::OP_SHL_C_ALT),
            70 => Some(OpcodeType::OP_SHR_C_PRI),
            71 => Some(OpcodeType::OP_SHR_C_ALT),
            72 => Some(OpcodeType::OP_SMUL),
            73 => Some(OpcodeType::OP_SDIV),
            74 => Some(OpcodeType::OP_SDIV_ALT),
            75 => Some(OpcodeType::OP_UMUL),
            76 => Some(OpcodeType::OP_UDIV),
            77 => Some(OpcodeType::OP_UDIV_ALT),
            78 => Some(OpcodeType::OP_ADD),
            79 => Some(OpcodeType::OP_SUB),
            80 => Some(OpcodeType::OP_SUB_ALT),
            81 => Some(OpcodeType::OP_AND),
            82 => Some(OpcodeType::OP_OR),
            83 => Some(OpcodeType::OP_XOR),
            84 => Some(OpcodeType::OP_NOT),
            85 => Some(OpcodeType::OP_NEG),
            86 => Some(OpcodeType::OP_INVERT),
            87 => Some(OpcodeType::OP_ADD_C),
            88 => Some(OpcodeType::OP_SMUL_C),
            89 => Some(OpcodeType::OP_ZERO_PRI),
            90 => Some(OpcodeType::OP_ZERO_ALT),
            91 => Some(OpcodeType::OP_ZERO),
            92 => Some(OpcodeType::OP_ZERO_S),
            93 => Some(OpcodeType::OP_SIGN_PRI),
            94 => Some(OpcodeType::OP_SIGN_ALT),
            95 => Some(OpcodeType::OP_EQ),
            96 => Some(OpcodeType::OP_NEQ),
            97 => Some(OpcodeType::OP_LESS),
            98 => Some(OpcodeType::OP_LEQ),
            99 => Some(OpcodeType::OP_GRTR),
            100 => Some(OpcodeType::OP_GEQ),
            101 => Some(OpcodeType::OP_SLESS),
            102 => Some(OpcodeType::OP_SLEQ),
            103 => Some(OpcodeType::OP_SGRTR),
            104 => Some(OpcodeType::OP_SGEQ),
            105 => Some(OpcodeType::OP_EQ_C_PRI),
            106 => Some(OpcodeType::OP_EQ_C_ALT),
            107 => Some(OpcodeType::OP_INC_PRI),
            108 => Some(OpcodeType::OP_INC_ALT),
            109 => Some(OpcodeType::OP_INC),
            110 => Some(OpcodeType::OP_INC_S),
            111 => Some(OpcodeType::OP_INC_I),
            112 => Some(OpcodeType::OP_DEC_PRI),
            113 => Some(OpcodeType::OP_DEC_ALT),
            114 => Some(OpcodeType::OP_DEC),
            115 => Some(OpcodeType::OP_DEC_S),
            116 => Some(OpcodeType::OP_DEC_I),
            117 => Some(OpcodeType::OP_MOVS),
            118 => Some(OpcodeType::OP_CMPS),
            119 => Some(OpcodeType::OP_FILL),
            120 => Some(OpcodeType::OP_HALT),
            121 => Some(OpcodeType::OP_BOUNDS),
            122 => Some(OpcodeType::OP_SYSREQ_PRI),
            123 => Some(OpcodeType::OP_SYSREQ_C),
            124 => Some(OpcodeType::OP_FILE),
            125 => Some(OpcodeType::OP_LINE),
            126 => Some(OpcodeType::OP_SYMBOL),
            127 => Some(OpcodeType::OP_SRANGE),
            128 => Some(OpcodeType::OP_JUMP_PRI),
            129 => Some(OpcodeType::OP_SWITCH),
            130 => Some(OpcodeType::OP_CASETBL),
            131 => Some(OpcodeType::OP_SWAP_PRI),
            132 => Some(OpcodeType::OP_SWAP_ALT),
            133 => Some(OpcodeType::OP_PUSHADDR),
            134 => Some(OpcodeType::OP_NOP),
            135 => Some(OpcodeType::OP_SYSREQ_D),
            136 => Some(OpcodeType::OP_SYMTAG),
            137 => Some(OpcodeType::OP_BREAK),
            _ => None,
        }
    }

    /// Looks up the mnemonic that has the number `tag`.
    pub fn from_u32(tag: u32) -> (r: Option<OpcodeType>)
        ensures
            r == OpcodeType::with_number(tag),
    {
        match tag {
            0 => Some(OpcodeType::OP_NONE),
            1 => Some(OpcodeType::OP_LOAD_PRI),
            2 => Some(OpcodeType::OP_LOAD_ALT),
            3 => Some(OpcodeType::OP_LOAD_S_PRI),
            4 => Some(OpcodeType::OP_LOAD_S_ALT),
            5 => Some(OpcodeType::OP_LREF_PRI),
            6 => Some(OpcodeType::OP_LREF_ALT),
            7 => Some(OpcodeType::OP_LREF_S_PRI),
            8 => Some(OpcodeType::OP_LREF_S_ALT),
            9 => Some(OpcodeType::OP_LOAD_I),
            10 => Some(OpcodeType::OP_LODB_I),
            11 => Some(OpcodeType::OP_CONST_PRI),
            12 => Some(OpcodeType::OP_CONST_ALT),
            13 => Some(OpcodeType::OP_ADDR_PRI),
            14 => Some(OpcodeType::OP_ADDR_ALT),
            15 => Some(OpcodeType::OP_STOR_PRI),
            16 => Some(OpcodeType::OP_STOR_ALT),
            17 => Some(OpcodeType::OP_STOR_S_PRI),
            18 => Some(OpcodeType::OP_STOR_S_ALT),
            19 => Some(OpcodeType::OP_SREF_PRI),
            20 => Some(OpcodeType::OP_SREF_ALT),
            21 => Some(OpcodeType::OP_SREF_S_PRI),
            22 => Some(OpcodeType::OP_SREF_S_ALT),
            23 => Some(OpcodeType::OP_STOR_I),
            24 => Some(OpcodeType::OP_STRB_I),
            25 => Some(OpcodeType::OP_LIDX),
            26 => Some(OpcodeType::OP_LIDX_B),
            27 => Some(OpcodeType::OP_IDXADDR),
            28 => Some(OpcodeType::OP_IDXADDR_B),
            29 => Some(OpcodeType::OP_ALIGN_PRI),
            30 => Some(OpcodeType::OP_ALIGN_ALT),
            31 => Some(OpcodeType::OP_LCTRL),
            32 => Some(OpcodeType::OP_SCTRL),
            33 => Some(OpcodeType::OP_MOVE_PRI),
            34 => Some(OpcodeType::OP_MOVE_ALT),
            35 => Some(OpcodeType::OP_XCHG),
            36 => Some(OpcodeType::OP_PUSH_PRI),
            37 => Some(OpcodeType::OP_PUSH_ALT),
            38 => Some(OpcodeType::OP_PUSH_R),
            39 => Some(OpcodeType::OP_PUSH_C),
            40 => Some(OpcodeType::OP_PUSH),
            41 => Some(OpcodeType::OP_PUSH_S),
            42 => Some(OpcodeType::OP_POP_PRI),
            43 => Some(OpcodeType::OP_POP_ALT),
            44 => Some(OpcodeType::OP_STACK),
            45 => Some(OpcodeType::OP_HEAP),
            46 => Some(OpcodeType::OP_PROC),
            47 => Some(OpcodeType::OP_RET),
            48 => Some(OpcodeType::OP_RETN),
            49 => Some(OpcodeType::OP_CALL),
            50 => Some(OpcodeType::OP_CALL_PRI),
            51 => Some(OpcodeType::OP_JUMP),
            52 => Some(OpcodeType::OP_JREL),
            53 => Some(OpcodeType::OP_JZER),
            54 => Some(OpcodeType::OP_JNZ),
            55 => Some(OpcodeType::OP_JEQ),
            56 => Some(OpcodeType::OP_JNEQ),
            57 => Some(OpcodeType::OP_JLESS),
            58 => Some(OpcodeType::OP_JLEQ),
            59 => Some(OpcodeType::OP_JGRTR),
            60 => Some(OpcodeType::OP_JGEQ),
            61 => Some(OpcodeType::OP_JSLESS),
            62 => Some(OpcodeType::OP_JSLEQ),
            63 => Some(OpcodeType::OP_JSGRTR),
            64 => Some(OpcodeType::OP_JSGEQ),
            65 => Some(OpcodeType::OP_SHL),
            66 => Some(OpcodeType::OP_SHR),
            67 => Some(OpcodeType::OP_SSHR),
            68 => Some(OpcodeType::OP_SHL_C_PRI),
            69 => Some(OpcodeType::OP_SHL_C_ALT),
            70 => Some(OpcodeType::OP_SHR_C_PRI),
            71 => Some(OpcodeType::OP_SHR_C_ALT),
            72 => Some(OpcodeType::OP_SMUL),
            73 => Some(OpcodeType::OP_SDIV),
            74 => Some(OpcodeType::OP_SDIV_ALT),
            75 => Some(OpcodeType::OP_UMUL),
            76 => Some(OpcodeType::OP_UDIV),
            77 => Some(OpcodeType::OP_UDIV_ALT),
            78 => Some(OpcodeType::OP_ADD),
            79 => Some(OpcodeType::OP_SUB),
            80 => Some(OpcodeType::OP_SUB_ALT),
            81 => Some(OpcodeType::OP_AND),
            82 => Some(OpcodeType::OP_OR),
            83 => Some(OpcodeType::OP_XOR),
            84 => Some(OpcodeType::OP_NOT),
            85 => Some(OpcodeType::OP_NEG),
            86 => Some(OpcodeType::OP_INVERT),
            87 => Some(OpcodeType::OP_ADD_C),
            88 => Some(OpcodeType::OP_SMUL_C),
            89 => Some(OpcodeType::OP_ZERO_PRI),
            90 => Some(OpcodeType::OP_ZERO_ALT),
            91 => Some(OpcodeType::OP_ZERO),
            92 => Some(OpcodeType::OP_ZERO_S),
            93 => Some(OpcodeType::OP_SIGN_PRI),
            94 => Some(OpcodeType::OP_SIGN_ALT),
            95 => Some(OpcodeType::OP_EQ),
            96 => Some(OpcodeType::OP_NEQ),
            97 => Some(OpcodeType::OP_LESS),
            98 => Some(OpcodeType::OP_LEQ),
            99 => Some(OpcodeType::OP_GRTR),
            100 => Some(OpcodeType::OP_GEQ),
            101 => Some(OpcodeType::OP_SLESS),
            102 => Some(OpcodeType::OP_SLEQ),
            103 => Some(OpcodeType::OP_SGRTR),
            104 => Some(OpcodeType::OP_SGEQ),
            105 => Some(OpcodeType::OP_EQ_C_PRI),
            106 => Some(OpcodeType::OP_EQ_C_ALT),
            107 => Some(OpcodeType::OP_INC_PRI),
            108 => Some(OpcodeType::OP_INC_ALT),
            109 => Some(OpcodeType::OP_INC),
            110 => Some(OpcodeType::OP_INC_S),
            111 => Some(OpcodeType::OP_INC_I),
            112 => Some(OpcodeType::OP_DEC_PRI),
            113 => Some(OpcodeType::OP_DEC_ALT),
            114 => Some(OpcodeType::OP_DEC),
            115 => Some(OpcodeType::OP_DEC_S),
            116 => Some(OpcodeType::OP_DEC_I),
            117 => Some(OpcodeType::OP_MOVS),
            118 => Some(OpcodeType::OP_CMPS),
            119 => Some(OpcodeType::OP_FILL),
            120 => Some(OpcodeType::OP_HALT),
            121 => Some(OpcodeType::OP_BOUNDS),
            122 => Some(OpcodeType::OP_SYSREQ_PRI),
            123 => Some(OpcodeType::OP_SYSREQ_C),
            124 => Some(OpcodeType::OP_FILE),
            125 => Some(OpcodeType::OP_LINE),
            126 => Some(OpcodeType::OP_SYMBOL),
            127 => Some(OpcodeType::OP_SRANGE),
            128 => Some(OpcodeType::OP_JUMP_PRI),
            129 => Some(OpcodeType::OP_SWITCH),
            130 => Some(OpcodeType::OP_CASETBL),
            131 => Some(OpcodeType::OP_SWAP_PRI),
            132 => Some(OpcodeType::OP_SWAP_ALT),
            133 => Some(OpcodeType::OP_PUSHADDR),
            134 => Some(OpcodeType::OP_NOP),
            135 => Some(OpcodeType::OP_SYSREQ_D),
            136 => Some(OpcodeType::OP_SYMTAG),
            137 => Some(OpcodeType::OP_BREAK),
            _ => None,
        }
    }

    /// What follows this mnemonic in the code segment.
    pub open spec fn spec_layout(&self) -> Layout {
        match self {
            OpcodeType::OP_LOAD_PRI
            | OpcodeType::OP_LOAD_ALT
            | OpcodeType::OP_LOAD_S_PRI
            | OpcodeType::OP_LOAD_S_ALT
            | OpcodeType::OP_LREF_PRI
            | OpcodeType::OP_LREF_ALT
            | OpcodeType::OP_LREF_S_PRI
            | OpcodeType::OP_LREF_S_ALT
            | OpcodeType::OP_LODB_I
            | OpcodeType::OP_CONST_PRI
            | OpcodeType::OP_CONST_ALT
            | OpcodeType::OP_ADDR_PRI
            | OpcodeType::OP_ADDR_ALT
            | OpcodeType::OP_STOR_PRI
            | OpcodeType::OP_STOR_ALT
            | OpcodeType::OP_STOR_S_PRI
            | OpcodeType::OP_STOR_S_ALT
            | OpcodeType::OP_SREF_PRI
            | OpcodeType::OP_SREF_ALT
            | OpcodeType::OP_SREF_S_PRI
            | OpcodeType::OP_SREF_S_ALT
            | OpcodeType::OP_STRB_I
            | OpcodeType::OP_LIDX_B
            | OpcodeType::OP_IDXADDR_B
            | OpcodeType::OP_ALIGN_PRI
            | OpcodeType::OP_ALIGN_ALT
            | OpcodeType::OP_LCTRL
            | OpcodeType::OP_SCTRL
            | OpcodeType::OP_PUSH_R
            | OpcodeType::OP_PUSH_C
            | OpcodeType::OP_PUSH
            | OpcodeType::OP_PUSH_S
            | OpcodeType::OP_STACK
            | OpcodeType::OP_HEAP
            | OpcodeType::OP_CALL
            | OpcodeType::OP_JUMP
            | OpcodeType::OP_JREL
            | OpcodeType::OP_JZER
            | OpcodeType::OP_JNZ
            | OpcodeType::OP_JEQ
            | OpcodeType::OP_JNEQ
            | OpcodeType::OP_JLESS
            | OpcodeType::OP_JLEQ
            | OpcodeType::OP_JGRTR
            | OpcodeType::OP_JGEQ
            | OpcodeType::OP_JSLESS
            | OpcodeType::OP_JSLEQ
            | OpcodeType::OP_JSGRTR
            | OpcodeType::OP_JSGEQ
            | OpcodeType::OP_SHL_C_PRI
            | OpcodeType::OP_SHL_C_ALT
            | OpcodeType::OP_SHR_C_PRI
            | OpcodeType::OP_SHR_C_ALT
            | OpcodeType::OP_ADD_C
            | OpcodeType::OP_SMUL_C
            | OpcodeType::OP_ZERO
            | OpcodeType::OP_ZERO_S
            | OpcodeType::OP_EQ_C_PRI
            | OpcodeType::OP_EQ_C_ALT
            | OpcodeType::OP_INC
            | OpcodeType::OP_INC_S
            | OpcodeType::OP_DEC
            | OpcodeType::OP_DEC_S
            | OpcodeType::OP_MOVS
            | OpcodeType::OP_CMPS
            | OpcodeType::OP_FILL
            | OpcodeType::OP_HALT
            | OpcodeType::OP_BOUNDS
            | OpcodeType::OP_SYSREQ_C
            | OpcodeType::OP_SWITCH
            | OpcodeType::OP_PUSHADDR
            | OpcodeType::OP_SYSREQ_D
            | OpcodeType::OP_SYMTAG => Layout::Cell,
            OpcodeType::OP_LINE
            | OpcodeType::OP_SRANGE => Layout::Pair,
            OpcodeType::OP_FILE
            | OpcodeType::OP_SYMBOL => Layout::Blob,
            OpcodeType::OP_CASETBL => Layout::CaseTable,
            _ => Layout::Plain,
        }
    }

    /// What follows this mnemonic in the code segment.
    #[verifier::when_used_as_spec(spec_layout)]
    pub fn layout(&self) -> (r: Layout)
        ensures
            r == self.spec_layout(),
    {
        match self {
            OpcodeType::OP_LOAD_PRI
            | OpcodeType::OP_LOAD_ALT
            | OpcodeType::OP_LOAD_S_PRI
            | OpcodeType::OP_LOAD_S_ALT
            | OpcodeType::OP_LREF_PRI
            | OpcodeType::OP_LREF_ALT
            | OpcodeType::OP_LREF_S_PRI
            | OpcodeType::OP_LREF_S_ALT
            | OpcodeType::OP_LODB_I
            | OpcodeType::OP_CONST_PRI
            | OpcodeType::OP_CONST_ALT
            | OpcodeType::OP_ADDR_PRI
            | OpcodeType::OP_ADDR_ALT
            | OpcodeType::OP_STOR_PRI
            | OpcodeType::OP_STOR_ALT
            | OpcodeType::OP_STOR_S_PRI
            | OpcodeType::OP_STOR_S_ALT
            | OpcodeType::OP_SREF_PRI
            | OpcodeType::OP_SREF_ALT
            | OpcodeType::OP_SREF_S_PRI
            | OpcodeType::OP_SREF_S_ALT
            | OpcodeType::OP_STRB_I
            | OpcodeType::OP_LIDX_B
            | OpcodeType::OP_IDXADDR_B
            | OpcodeType::OP_ALIGN_PRI
            | OpcodeType::OP_ALIGN_ALT
            | OpcodeType::OP_LCTRL
            | OpcodeType::OP_SCTRL
            | OpcodeType::OP_PUSH_R
            | OpcodeType::OP_PUSH_C
            | OpcodeType::OP_PUSH
            | OpcodeType::OP_PUSH_S
            | OpcodeType::OP_STACK
            | OpcodeType::OP_HEAP
            | OpcodeType::OP_CALL
            | OpcodeType::OP_JUMP
            | OpcodeType::OP_JREL
            | OpcodeType::OP_JZER
            | OpcodeType::OP_JNZ
            | OpcodeType::OP_JEQ
            | OpcodeType::OP_JNEQ
            | OpcodeType::OP_JLESS
            | OpcodeType::OP_JLEQ
            | OpcodeType::OP_JGRTR
            | OpcodeType::OP_JGEQ
            | OpcodeType::OP_JSLESS
            | OpcodeType::OP_JSLEQ
            | OpcodeType::OP_JSGRTR
            | OpcodeType::OP_JSGEQ
            | OpcodeType::OP_SHL_C_PRI
            | OpcodeType::OP_SHL_C_ALT
            | OpcodeType::OP_SHR_C_PRI
            | OpcodeType::OP_SHR_C_ALT
            | OpcodeType::OP_ADD_C
            | OpcodeType::OP_SMUL_C
            | OpcodeType::OP_ZERO
            | OpcodeType::OP_ZERO_S
            | OpcodeType::OP_EQ_C_PRI
            | OpcodeType::OP_EQ_C_ALT
            | OpcodeType::OP_INC
            | OpcodeType::OP_INC_S
            | OpcodeType::OP_DEC
            | OpcodeType::OP_DEC_S
            | OpcodeType::OP_MOVS
            | OpcodeType::OP_CMPS
            | OpcodeType::OP_FILL
            | OpcodeType::OP_HALT
            | OpcodeType::OP_BOUNDS
            | OpcodeType::OP_SYSREQ_C
            | OpcodeType::OP_SWITCH
            | OpcodeType::OP_PUSHADDR
            | OpcodeType::OP_SYSREQ_D
            | OpcodeType::OP_SYMTAG => Layout::Cell,
            OpcodeType::OP_LINE
            | OpcodeType::OP_SRANGE => Layout::Pair,
            OpcodeType::OP_FILE
            | OpcodeType::OP_SYMBOL => Layout::Blob,
            OpcodeType::OP_CASETBL => Layout::CaseTable,
            _ => Layout::Plain,
        }
    }

    /// The text of [`OpcodeType::mnemonic`].
    pub open spec fn spec_mnemonic(&self) -> Seq<char> {
        match self {
            OpcodeType::OP_NONE => "none"@,
            OpcodeType::OP_LOAD_PRI => "load.pri"@,
            OpcodeType::OP_LOAD_ALT => "load.alt"@,
            OpcodeType::OP_LOAD_S_PRI => "load.s.pri"@,
            OpcodeType::OP_LOAD_S_ALT => "load.s.alt"@,
            OpcodeType::OP_LREF_PRI => "lref.pri"@,
            OpcodeType::OP_LREF_ALT => "lref.alt"@,
            OpcodeType::OP_LREF_S_PRI => "lref.s.pri"@,
            OpcodeType::OP_LREF_S_ALT => "lref.s.alt"@,
            OpcodeType::OP_LOAD_I => "load.i"@,
            OpcodeType::OP_LODB_I => "lodb.i"@,
            OpcodeType::OP_CONST_PRI => "const.pri"@,
            OpcodeType::OP_CONST_ALT => "const.alt"@,
            OpcodeType::OP_ADDR_PRI => "addr.pri"@,
            OpcodeType::OP_ADDR_ALT => "addr.alt"@,
            OpcodeType::OP_STOR_PRI => "stor.pri"@,
            OpcodeType::OP_STOR_ALT => "stor.alt"@,
            OpcodeType::OP_STOR_S_PRI => "stor.s.pri"@,
            OpcodeType::OP_STOR_S_ALT => "stor.s.alt"@,
            OpcodeType::OP_SREF_PRI => "sref.pri"@,
            OpcodeType::OP_SREF_ALT => "sref.alt"@,
            OpcodeType::OP_SREF_S_PRI => "sref.s.pri"@,
            OpcodeType::OP_SREF_S_ALT => "sref.s.alt"@,
            OpcodeType::OP_STOR_I => "stor.i"@,
            OpcodeType::OP_STRB_I => "strb.i"@,
            OpcodeType::OP_LIDX => "lidx"@,
            OpcodeType::OP_LIDX_B => "lidx.b"@,
            OpcodeType::OP_IDXADDR => "idxaddr"@,
            OpcodeType::OP_IDXADDR_B => "idxaddr.b"@,
            OpcodeType::OP_ALIGN_PRI => "align.pri"@,
            OpcodeType::OP_ALIGN_ALT => "align.alt"@,
            OpcodeType::OP_LCTRL => "lctrl"@,
            OpcodeType::OP_SCTRL => "sctrl"@,
            OpcodeType::OP_MOVE_PRI => "move.pri"@,
            OpcodeType::OP_MOVE_ALT => "move.alt"@,
            OpcodeType::OP_XCHG => "xchg"@,
            OpcodeType::OP_PUSH_PRI => "push.pri"@,
            OpcodeType::OP_PUSH_ALT => "push.alt"@,
            OpcodeType::OP_PUSH_R => "push.r"@,
            OpcodeType::OP_PUSH_C => "push.c"@,
            OpcodeType::OP_PUSH => "push"@,
            OpcodeType::OP_PUSH_S => "push.s"@,
            OpcodeType::OP_POP_PRI => "pop.pri"@,
            OpcodeType::OP_POP_ALT => "pop.alt"@,
            OpcodeType::OP_STACK => "stack"@,
            OpcodeType::OP_HEAP => "heap"@,
            OpcodeType::OP_PROC => "proc"@,
            OpcodeType::OP_RET => "ret"@,
            OpcodeType::OP_RETN => "retn"@,
            OpcodeType::OP_CALL => "call"@,
            OpcodeType::OP_CALL_PRI => "call.pri"@,
            OpcodeType::OP_JUMP => "jump"@,
            OpcodeType::OP_JREL => "jrel"@,
            OpcodeType::OP_JZER => "jzer"@,
            OpcodeType::OP_JNZ => "jnz"@,
            OpcodeType::OP_JEQ => "jeq"@,
            OpcodeType::OP_JNEQ => "jneq"@,
            OpcodeType::OP_JLESS => "jless"@,
            OpcodeType::OP_JLEQ => "jleq"@,
            OpcodeType::OP_JGRTR => "jgrtr"@,
            OpcodeType::OP_JGEQ => "jgeq"@,
            OpcodeType::OP_JSLESS => "jsless"@,
            OpcodeType::OP_JSLEQ => "jsleq"@,
            OpcodeType::OP_JSGRTR => "jsgrtr"@,
            OpcodeType::OP_JSGEQ => "jsgeq"@,
            OpcodeType::OP_SHL => "shl"@,
            OpcodeType::OP_SHR => "shr"@,
            OpcodeType::OP_SSHR => "sshr"@,
            OpcodeType::OP_SHL_C_PRI => "shl.c.pri"@,
            OpcodeType::OP_SHL_C_ALT => "shl.c.alt"@,
            OpcodeType::OP_SHR_C_PRI => "shr.c.pri"@,
            OpcodeType::OP_SHR_C_ALT => "shr.c.alt"@,
            OpcodeType::OP_SMUL => "smul"@,
            OpcodeType::OP_SDIV => "sdiv"@,
            OpcodeType::OP_SDIV_ALT => "sdiv.alt"@,
            OpcodeType::OP_UMUL => "umul"@,
            OpcodeType::OP_UDIV => "udiv"@,
            OpcodeType::OP_UDIV_ALT => "udiv.alt"@,
            OpcodeType::OP_ADD => "add"@,
            OpcodeType::OP_SUB => "sub"@,
            OpcodeType::OP_SUB_ALT => "sub.alt"@,
            OpcodeType::OP_AND => "and"@,
            OpcodeType::OP_OR => "or"@,
            OpcodeType::OP_XOR => "xor"@,
            OpcodeType::OP_NOT => "not"@,
            OpcodeType::OP_NEG => "neg"@,
            OpcodeType::OP_INVERT => "invert"@,
            OpcodeType::OP_ADD_C => "add.c"@,
            OpcodeType::OP_SMUL_C => "smul.c"@,
            OpcodeType::OP_ZERO_PRI => "zero.pri"@,
            OpcodeType::OP_ZERO_ALT => "zero.alt"@,
            OpcodeType::OP_ZERO => "zero"@,
            OpcodeType::OP_ZERO_S => "zero.s"@,
            OpcodeType::OP_SIGN_PRI => "sign.pri"@,
            OpcodeType::OP_SIGN_ALT => "sign.alt"@,
            OpcodeType::OP_EQ => "eq"@,
            OpcodeType::OP_NEQ => "neq"@,
            OpcodeType::OP_LESS => "less"@,
            OpcodeType::OP_LEQ => "leq"@,
            OpcodeType::OP_GRTR => "grtr"@,
            OpcodeType::OP_GEQ => "geq"@,
            OpcodeType::OP_SLESS => "sless"@,
            OpcodeType::OP_SLEQ => "sleq"@,
            OpcodeType::OP_SGRTR => "sgrtr"@,
            OpcodeType::OP_SGEQ => "sgeq"@,
            OpcodeType::OP_EQ_C_PRI => "eq.c.pri"@,
            OpcodeType::OP_EQ_C_ALT => "eq.c.alt"@,
            OpcodeType::OP_INC_PRI => "inc.pri"@,
            OpcodeType::OP_INC_ALT => "inc.alt"@,
            OpcodeType::OP_INC => "inc"@,
            OpcodeType::OP_INC_S => "inc.s"@,
            OpcodeType::OP_INC_I => "inc.i"@,
            OpcodeType::OP_DEC_PRI => "dec.pri"@,
            OpcodeType::OP_DEC_ALT => "dec.alt"@,
            OpcodeType::OP_DEC => "dec"@,
            OpcodeType::OP_DEC_S => "dec.s"@,
            OpcodeType::OP_DEC_I => "dec.i"@,
            OpcodeType::OP_MOVS => "movs"@,
            OpcodeType::OP_CMPS => "cmps"@,
            OpcodeType::OP_FILL => "fill"@,
            OpcodeType::OP_HALT => "halt"@,
            OpcodeType::OP_BOUNDS => "bounds"@,
            OpcodeType::OP_SYSREQ_PRI => "sysreq.pri"@,
            OpcodeType::OP_SYSREQ_C => "sysreq.c"@,
            OpcodeType::OP_FILE => "file"@,
            OpcodeType::OP_LINE => "line"@,
            OpcodeType::OP_SYMBOL => "symbol"@,
            OpcodeType::OP_SRANGE => "srange"@,
            OpcodeType::OP_JUMP_PRI => "jump.pri"@,
            OpcodeType::OP_SWITCH => "switch"@,
            OpcodeType::OP_CASETBL => "casetbl"@,
            OpcodeType::OP_SWAP_PRI => "swap.pri"@,
            OpcodeType::OP_SWAP_ALT => "swap.alt"@,
            OpcodeType::OP_PUSHADDR => "pushaddr"@,
            OpcodeType::OP_NOP => "nop"@,
            OpcodeType::OP_SYSREQ_D => "sysreq.d"@,
            OpcodeType::OP_SYMTAG => "symtag"@,
            OpcodeType::OP_BREAK => "break"@,
            OpcodeType::OP_CASE => "case"@,
        }
    }

    /// The name of this mnemonic as an assembler writes it.
    pub fn mnemonic(&self) -> (s: &'static str)
        ensures
            s@ == self.spec_mnemonic(),
    {
        match self {
            OpcodeType::OP_NONE => "none",
            OpcodeType::OP_LOAD_PRI => "load.pri",
            OpcodeType::OP_LOAD_ALT => "load.alt",
            OpcodeType::OP_LOAD_S_PRI => "load.s.pri",
            OpcodeType::OP_LOAD_S_ALT => "load.s.alt",
            OpcodeType::OP_LREF_PRI => "lref.pri",
            OpcodeType::OP_LREF_ALT => "lref.alt",
            OpcodeType::OP_LREF_S_PRI => "lref.s.pri",
            OpcodeType::OP_LREF_S_ALT => "lref.s.alt",
            OpcodeType::OP_LOAD_I => "load.i",
            OpcodeType::OP_LODB_I => "lodb.i",
            OpcodeType::OP_CONST_PRI => "const.pri",
            OpcodeType::OP_CONST_ALT => "const.alt",
            OpcodeType::OP_ADDR_PRI => "addr.pri",
            OpcodeType::OP_ADDR_ALT => "addr.alt",
            OpcodeType::OP_STOR_PRI => "stor.pri",
            OpcodeType::OP_STOR_ALT => "stor.alt",
            OpcodeType::OP_STOR_S_PRI => "stor.s.pri",
            OpcodeType::OP_STOR_S_ALT => "stor.s.alt",
            OpcodeType::OP_SREF_PRI => "sref.pri",
            OpcodeType::OP_SREF_ALT => "sref.alt",
            OpcodeType::OP_SREF_S_PRI => "sref.s.pri",
            OpcodeType::OP_SREF_S_ALT => "sref.s.alt",
            OpcodeType::OP_STOR_I => "stor.i",
            OpcodeType::OP_STRB_I => "strb.i",
            OpcodeType::OP_LIDX => "lidx",
            OpcodeType::OP_LIDX_B => "lidx.b",
            OpcodeType::OP_IDXADDR => "idxaddr",
            OpcodeType::OP_IDXADDR_B => "idxaddr.b",
            OpcodeType::OP_ALIGN_PRI => "align.pri",
            OpcodeType::OP_ALIGN_ALT => "align.alt",
            OpcodeType::OP_LCTRL => "lctrl",
            OpcodeType::OP_SCTRL => "sctrl",
            OpcodeType::OP_MOVE_PRI => "move.pri",
            OpcodeType::OP_MOVE_ALT => "move.alt",
            OpcodeType::OP_XCHG => "xchg",
            OpcodeType::OP_PUSH_PRI => "push.pri",
            OpcodeType::OP_PUSH_ALT => "push.alt",
            OpcodeType::OP_PUSH_R => "push.r",
            OpcodeType::OP_PUSH_C => "push.c",
            OpcodeType::OP_PUSH => "push",
            OpcodeType::OP_PUSH_S => "push.s",
            OpcodeType::OP_POP_PRI => "pop.pri",
            OpcodeType::OP_POP_ALT => "pop.alt",
            OpcodeType::OP_STACK => "stack",
            OpcodeType::OP_HEAP => "heap",
            OpcodeType::OP_PROC => "proc",
            OpcodeType::OP_RET => "ret",
            OpcodeType::OP_RETN => "retn",
            OpcodeType::OP_CALL => "call",
            OpcodeType::OP_CALL_PRI => "call.pri",
            OpcodeType::OP_JUMP => "jump",
            OpcodeType::OP_JREL => "jrel",
            OpcodeType::OP_JZER => "jzer",
            OpcodeType::OP_JNZ => "jnz",
            OpcodeType::OP_JEQ => "jeq",
            OpcodeType::OP_JNEQ => "jneq",
            OpcodeType::OP_JLESS => "jless",
            OpcodeType::OP_JLEQ => "jleq",
            OpcodeType::OP_JGRTR => "jgrtr",
            OpcodeType::OP_JGEQ => "jgeq",
            OpcodeType::OP_JSLESS => "jsless",
            OpcodeType::OP_JSLEQ => "jsleq",
            OpcodeType::OP_JSGRTR => "jsgrtr",
            OpcodeType::OP_JSGEQ => "jsgeq",
            OpcodeType::OP_SHL => "shl",
            OpcodeType::OP_SHR => "shr",
            OpcodeType::OP_SSHR => "sshr",
            OpcodeType::OP_SHL_C_PRI => "shl.c.pri",
            OpcodeType::OP_SHL_C_ALT => "shl.c.alt",
            OpcodeType::OP_SHR_C_PRI => "shr.c.pri",
            OpcodeType::OP_SHR_C_ALT => "shr.c.alt",
            OpcodeType::OP_SMUL => "smul",
            OpcodeType::OP_SDIV => "sdiv",
            OpcodeType::OP_SDIV_ALT => "sdiv.alt",
            OpcodeType::OP_UMUL => "umul",
            OpcodeType::OP_UDIV => "udiv",
            OpcodeType::OP_UDIV_ALT => "udiv.alt",
            OpcodeType::OP_ADD => "add",
            OpcodeType::OP_SUB => "sub",
            OpcodeType::OP_SUB_ALT => "sub.alt",
            OpcodeType::OP_AND => "and",
            OpcodeType::OP_OR => "or",
            OpcodeType::OP_XOR => "xor",
            OpcodeType::OP_NOT => "not",
            OpcodeType::OP_NEG => "neg",
            OpcodeType::OP_INVERT => "invert",
            OpcodeType::OP_ADD_C => "add.c",
            OpcodeType::OP_SMUL_C => "smul.c",
            OpcodeType::OP_ZERO_PRI => "zero.pri",
            OpcodeType::OP_ZERO_ALT => "zero.alt",
            OpcodeType::OP_ZERO => "zero",
            OpcodeType::OP_ZERO_S => "zero.s",
            OpcodeType::OP_SIGN_PRI => "sign.pri",
            OpcodeType::OP_SIGN_ALT => "sign.alt",
            OpcodeType::OP_EQ => "eq",
            OpcodeType::OP_NEQ => "neq",
            OpcodeType::OP_LESS => "less",
            OpcodeType::OP_LEQ => "leq",
            OpcodeType::OP_GRTR => "grtr",
            OpcodeType::OP_GEQ => "geq",
            OpcodeType::OP_SLESS => "sless",
            OpcodeType::OP_SLEQ => "sleq",
            OpcodeType::OP_SGRTR => "sgrtr",
            OpcodeType::OP_SGEQ => "sgeq",
            OpcodeType::OP_EQ_C_PRI => "eq.c.pri",
            OpcodeType::OP_EQ_C_ALT => "eq.c.alt",
            OpcodeType::OP_INC_PRI => "inc.pri",
            OpcodeType::OP_INC_ALT => "inc.alt",
            OpcodeType::OP_INC => "inc",
            OpcodeType::OP_INC_S => "inc.s",
            OpcodeType::OP_INC_I => "inc.i",
            OpcodeType::OP_DEC_PRI => "dec.pri",
            OpcodeType::OP_DEC_ALT => "dec.alt",
            OpcodeType::OP_DEC => "dec",
            OpcodeType::OP_DEC_S => "dec.s",
            OpcodeType::OP_DEC_I => "dec.i",
            OpcodeType::OP_MOVS => "movs",
            OpcodeType::OP_CMPS => "cmps",
            OpcodeType::OP_FILL => "fill",
            OpcodeType::OP_HALT => "halt",
            OpcodeType::OP_BOUNDS => "bounds",
            OpcodeType::OP_SYSREQ_PRI => "sysreq.pri",
            OpcodeType::OP_SYSREQ_C => "sysreq.c",
            OpcodeType::OP_FILE => "file",
            OpcodeType::OP_LINE => "line",
            OpcodeType::OP_SYMBOL => "symbol",
            OpcodeType::OP_SRANGE => "srange",
            OpcodeType::OP_JUMP_PRI => "jump.pri",
            OpcodeType::OP_SWITCH => "switch",
            OpcodeType::OP_CASETBL => "casetbl",
            OpcodeType::OP_SWAP_PRI => "swap.pri",
            OpcodeType::OP_SWAP_ALT => "swap.alt",
            OpcodeType::OP_PUSHADDR => "pushaddr",
            OpcodeType::OP_NOP => "nop",
            OpcodeType::OP_SYSREQ_D => "sysreq.d",
            OpcodeType::OP_SYMTAG => "symtag",
            OpcodeType::OP_BREAK => "break",
            OpcodeType::OP_CASE => "case",
        }
    }
}


/// What decoding one instruction gives: the instructions that it stands for
/// and the place of the next one.
pub ghost struct Step {
    pub opcodes: Seq<Opcode>,
    pub next: int,
}

/// Entry `index` of the case table whose mnemonic is at `at`.
pub open spec fn case_at(code: Seq<u8>, at: int, index: int) -> Opcode {
    Opcode {
        code: OpcodeType::OP_CASE,
        address: (at + 12 + 8 * index) as usize,
        operands: Operands::Two(
            u32_at(code, at + 12 + 8 * index) as u32,
            u32_at(code, at + 16 + 8 * index) as u32,
        ),
    }
}

/// What decoding the instruction at `at` in the code segment `code` gives.
/// A mnemonic takes one cell. After it come the operands that its layout
/// asks for, and all of them must lie inside the segment. A case table
/// gives one instruction for its head, which carries the number of entries
/// and the default address, and one for each entry.
pub open spec fn step_at(code: Seq<u8>, at: int) -> Result<Step, Error> {
    if at + 4 > code.len() {
        Err(Error::Truncated { field: Field::Mnemonic })
    } else {
        match OpcodeType::with_number(u32_at(code, at) as u32) {
            None => Err(Error::UnknownOpcode { code: u32_at(code, at) as u32 }),
            Some(mnemonic) => {
                let head = |operands: Operands|
                    seq![Opcode { code: mnemonic, address: at as usize, operands }];
                let first = u32_at(code, at + 4) as u32;
                let second = u32_at(code, at + 8) as u32;
                match mnemonic.spec_layout() {
                    Layout::Plain => Ok(Step { opcodes: head(Operands::Empty), next: at + 4 }),
                    Layout::Cell => if at + 8 > code.len() {
                        Err(Error::Truncated { field: Field::Operand })
                    } else {
                        Ok(Step { opcodes: head(Operands::One(first)), next: at + 8 })
                    },
                    Layout::Pair => if at + 12 > code.len() {
                        Err(Error::Truncated { field: Field::Operand })
                    } else {
                        Ok(Step { opcodes: head(Operands::Two(first, second)), next: at + 12 })
                    },
                    Layout::Blob => if at + 8 > code.len() || at + 8 + first > code.len() {
                        Err(Error::Truncated { field: Field::Operand })
                    } else {
                        Ok(Step { opcodes: head(Operands::One(first)), next: at + 8 + first })
                    },
                    Layout::CaseTable => if at + 12 > code.len() || at + 12 + 8 * first
                        > code.len() {
                        Err(Error::Truncated { field: Field::Operand })
                    } else {
                        Ok(
                            Step {
                                opcodes: head(Operands::Two(first, second)) + Seq::new(
                                    first as nat,
                                    |i: int| case_at(code, at, i),
                                ),
                                next: at + 12 + 8 * first,
                            },
                        )
                    },
                }
            },
        }
    }
}

/// The instructions of the code segment `code` from `at` to its end, or the
/// error of the first one that cannot be decoded.
pub open spec fn decode_from(code: Seq<u8>, at: int) -> Result<Seq<Opcode>, Error>
    decreases code.len() - at,
{
    if at >= code.len() {
        Ok(Seq::empty())
    } else {
        match step_at(code, at) {
            Err(e) => Err(e),
            Ok(step) => match decode_from(code, step.next) {
                Err(e) => Err(e),
                Ok(rest) => Ok(step.opcodes + rest),
            },
        }
    }
}

/// The number of bytes at the start of a code segment that the machine
/// keeps for itself: two cells that hold no instruction.
pub const PROLOG_SIZE: usize = 8;

/// The instructions of the whole code segment `code`, which start after the
/// two reserved cells.
pub open spec fn decode(code: Seq<u8>) -> Result<Seq<Opcode>, Error> {
    if code.len() < PROLOG_SIZE {
        Err(Error::Truncated { field: Field::Prolog })
    } else {
        decode_from(code, PROLOG_SIZE as int)
    }
}

/// A step leads forward.
pub proof fn lemma_step_advances(code: Seq<u8>, at: int)
    requires
        step_at(code, at) is Ok,
    ensures
        at + 4 <= step_at(code, at)->Ok_0.next <= code.len(),
        step_at(code, at)->Ok_0.opcodes.len() >= 1,
{
}

impl Opcode {
    /// Decodes the instruction at `at` in the code segment `code`. At the end
    /// of the segment there is none, and the result is `None`; otherwise it is
    /// the instructions that the one at `at` stands for, and the place of the
    /// next.
    pub fn read_from(code: &[u8], at: usize) -> (r: Result<Option<(Vec<Opcode>, usize)>, Error>)
        ensures
            at >= code@.len() ==> r == Ok::<Option<(Vec<Opcode>, usize)>, Error>(None),
            at < code@.len() ==> match step_at(code@, at as int) {
                Err(e) => r == Err::<Option<(Vec<Opcode>, usize)>, Error>(e),
                Ok(step) => {
                    &&& r matches Ok(Some(found))
                    &&& found.0@ == step.opcodes
                    &&& found.1 == step.next
                },
            },
    {
        if at >= code.len() {
            return Ok(None);
        }
        let tag = match read_u32(code, at) {
            Some(v) => v,
            None => return Err(Error::Truncated { field: Field::Mnemonic }),
        };
        let mnemonic = match OpcodeType::from_u32(tag) {
            Some(m) => m,
            None => return Err(Error::UnknownOpcode { code: tag }),
        };
        let mut opcodes: Vec<Opcode> = Vec::new();
        match mnemonic.layout() {
            Layout::Plain => {
                opcodes.push(Opcode { code: mnemonic, address: at, operands: Operands::Empty });
                Ok(Some((opcodes, at + 4)))
            },
            Layout::Cell => {
                let first = match read_u32(code, at + 4) {
                    Some(v) => v,
                    None => return Err(Error::Truncated { field: Field::Operand }),
                };
                opcodes.push(
                    Opcode { code: mnemonic, address: at, operands: Operands::One(first) },
                );
                Ok(Some((opcodes, at + 8)))
            },
            Layout::Pair => {
                let first = match read_u32(code, at + 4) {
                    Some(v) => v,
                    None => return Err(Error::Truncated { field: Field::Operand }),
                };
                let second = match read_u32(code, at + 8) {
                    Some(v) => v,
                    None => return Err(Error::Truncated { field: Field::Operand }),
                };
                opcodes.push(
                    Opcode { code: mnemonic, address: at, operands: Operands::Two(first, second) },
                );
                Ok(Some((opcodes, at + 12)))
            },
            Layout::Blob => {
                let size = match read_u32(code, at + 4) {
                    Some(v) => v,
                    None => return Err(Error::Truncated { field: Field::Operand }),
                };
                if size as usize > code.len() - (at + 8) {
                    return Err(Error::Truncated { field: Field::Operand });
                }
                opcodes.push(Opcode { code: mnemonic, address: at, operands: Operands::One(size) });
                Ok(Some((opcodes, at + 8 + size as usize)))
            },
            Layout::CaseTable => {
                let count = match read_u32(code, at + 4) {
                    Some(v) => v,
                    None => return Err(Error::Truncated { field: Field::Operand }),
                };
                let default = match read_u32(code, at + 8) {
                    Some(v) => v,
                    None => return Err(Error::Truncated { field: Field::Operand }),
                };
                if count as usize > (code.len() - (at + 12)) / 8 {
                    return Err(Error::Truncated { field: Field::Operand });
                }
                opcodes.push(
                    Opcode { code: mnemonic, address: at, operands: Operands::Two(count, default) },
                );
                let mut index: usize = 0;
                while index < count as usize
                    invariant
                        index <= count,
                        at + 12 + 8 * count <= code@.len() <= usize::MAX,
                        opcodes@.len() == 1 + index,
                        opcodes@[0] == (Opcode {
                            code: mnemonic,
                            address: at,
                            operands: Operands::Two(count, default),
                        }),
                        forall|i: int|
                            0 <= i < index ==> #[trigger] opcodes@[1 + i] == case_at(
                                code@,
                                at as int,
                                i,
                            ),
                    decreases count - index,
                {
                    let entry = at + 12 + 8 * index;
                    let value = match read_u32(code, entry) {
                        Some(v) => v,
                        None => return Err(Error::Truncated { field: Field::Operand }),
                    };
                    let target = match read_u32(code, entry + 4) {
                        Some(v) => v,
                        None => return Err(Error::Truncated { field: Field::Operand }),
                    };
                    opcodes.push(
                        Opcode {
                            code: OpcodeType::OP_CASE,
                            address: entry,
                            operands: Operands::Two(value, target),
                        },
                    );
                    index = index + 1;
                }
                proof {
                    let expected = step_at(code@, at as int)->Ok_0.opcodes;
                    assert(expected.len() == 1 + count);
                    assert forall|i: int| 0 <= i < opcodes@.len() implies opcodes@[i]
                        == expected[i] by {
                        if i > 0 {
                            assert(opcodes@[1 + (i - 1)] == case_at(code@, at as int, i - 1));
                        }
                    }
                    assert(opcodes@ =~= expected);
                }
                Ok(Some((opcodes, at + 12 + 8 * count as usize)))
            },
        }
    }

    /// Decodes the whole code segment `code`: skips the two reserved cells,
    /// then decodes one instruction after the other up to the end of the
    /// segment. The first instruction that cannot be decoded ends the call
    /// with its error, and nothing of what came before it is returned.
    pub fn read_all(code: &[u8]) -> (r: Result<Vec<Opcode>, Error>)
        ensures
            match decode(code@) {
                Ok(opcodes) => r matches Ok(v) && v@ == opcodes,
                Err(e) => r == Err::<Vec<Opcode>, Error>(e),
            },
    {
        if code.len() < PROLOG_SIZE {
            return Err(Error::Truncated { field: Field::Prolog });
        }
        let mut opcodes: Vec<Opcode> = Vec::new();
        let mut at: usize = PROLOG_SIZE;
        loop
            invariant
                PROLOG_SIZE <= code@.len(),
                PROLOG_SIZE <= at <= code@.len(),
                decode(code@) == match decode_from(code@, at as int) {
                    Ok(rest) => Ok::<Seq<Opcode>, Error>(opcodes@ + rest),
                    Err(e) => Err::<Seq<Opcode>, Error>(e),
                },
            ensures
                decode(code@) == Ok::<Seq<Opcode>, Error>(opcodes@),
            decreases code@.len() - at,
        {
            match Opcode::read_from(code, at) {
                Ok(Some((mut found, next))) => {
                    proof {
                        lemma_step_advances(code@, at as int);
                        let rest = decode_from(code@, next as int);
                        if rest is Ok {
                            assert(opcodes@ + (found@ + rest->Ok_0) =~= (opcodes@ + found@)
                                + rest->Ok_0);
                        }
                    }
                    opcodes.append(&mut found);
                    at = next;
                },
                Ok(None) => {
                    assert(opcodes@ + Seq::<Opcode>::empty() =~= opcodes@);
                    break ;
                },
                Err(e) => {
                    return Err(e);
                },
            }
        }
        Ok(opcodes)
    }
}

} // verus!
