//! Decoding a Huffman encoding gives the bytes back.
//!
//! The code table is prefix-free: read as binary fractions of 30 bits, the
//! codes cover pairwise disjoint intervals. The decoder therefore meets no
//! complete code before the end of each encoded symbol, and the padding of
//! ones is not a code.
use vstd::prelude::*;
use vstd::arithmetic::power2::{pow2, lemma2_to64, lemma_pow2_adds, lemma_pow2_pos};
use super::huffman::{
    HUFFMAN_CODES, HUFFMAN_LENGTHS, code_of, length_of, lemma_code_table, code_bits, padding_len,
    be_bytes, huffman_encoding, bit_at, find_code, symbol_with_code, decode_bits, huffman_decoding,
};

verus! {

/// `2^(30 - l)`: the weight of the last bit of an `l`-bit code in a 30-bit
/// fraction.
const SCALE: [u32; 31] = [
    0x40000000, 0x20000000, 0x10000000, 0x8000000, 0x4000000, 0x2000000, 0x1000000, 0x800000,
    0x400000, 0x200000, 0x100000, 0x80000, 0x40000, 0x20000, 0x10000, 0x8000,
    0x4000, 0x2000, 0x1000, 0x800, 0x400, 0x200, 0x100, 0x80,
    0x40, 0x20, 0x10, 0x8, 0x4, 0x2, 0x1,
];

/// Where the code of symbol `k` starts, read as a 30-bit fraction.
spec fn lo(k: int) -> nat {
    HUFFMAN_CODES[k] as nat * SCALE[HUFFMAN_LENGTHS[k] as int] as nat
}

/// Where the codes that begin with the code of symbol `k` end.
spec fn hi(k: int) -> nat {
    (HUFFMAN_CODES[k] as nat + 1) * SCALE[HUFFMAN_LENGTHS[k] as int] as nat
}

/// The symbols ordered by their codes read as binary fractions.
const CODE_ORDER: [u16; 257] = [
    48, 49, 50, 97, 99, 101, 105, 111, 115, 116, 32, 37, 45, 46, 47, 51,
    52, 53, 54, 55, 56, 57, 61, 65, 95, 98, 100, 102, 103, 104, 108, 109,
    110, 112, 114, 117, 58, 66, 67, 68, 69, 70, 71, 72, 73, 74, 75, 76,
    77, 78, 79, 80, 81, 82, 83, 84, 85, 86, 87, 89, 106, 107, 113, 118,
    119, 120, 121, 122, 38, 42, 44, 59, 88, 90, 33, 34, 40, 41, 63, 39,
    43, 124, 35, 62, 0, 36, 64, 91, 93, 126, 94, 125, 60, 96, 123, 92,
    195, 208, 128, 130, 131, 162, 184, 194, 224, 226, 153, 161, 167, 172, 176, 177,
    179, 209, 216, 217, 227, 229, 230, 129, 132, 133, 134, 136, 146, 154, 156, 160,
    163, 164, 169, 170, 173, 178, 181, 185, 186, 187, 189, 190, 196, 198, 228, 232,
    233, 1, 135, 137, 138, 139, 140, 141, 143, 147, 149, 150, 151, 152, 155, 157,
    158, 165, 166, 168, 174, 175, 180, 182, 183, 188, 191, 197, 231, 239, 9, 142,
    144, 145, 148, 159, 171, 206, 215, 225, 236, 237, 199, 207, 234, 235, 192, 193,
    200, 201, 202, 205, 210, 213, 218, 219, 238, 240, 242, 243, 255, 203, 204, 211,
    212, 214, 221, 222, 223, 241, 244, 245, 246, 247, 248, 250, 251, 252, 253, 254,
    2, 3, 4, 5, 6, 7, 8, 11, 12, 14, 15, 16, 17, 18, 19, 20,
    21, 23, 24, 25, 26, 27, 28, 29, 30, 31, 127, 220, 249, 10, 13, 22,
    256,
];

/// The place of each symbol in `CODE_ORDER`.
const CODE_RANK: [u16; 257] = [
    84, 145, 224, 225, 226, 227, 228, 229, 230, 174, 253, 231, 232, 254, 233, 234,
    235, 236, 237, 238, 239, 240, 255, 241, 242, 243, 244, 245, 246, 247, 248, 249,
    10, 74, 75, 82, 85, 11, 68, 79, 76, 77, 69, 80, 70, 12, 13, 14,
    0, 1, 2, 15, 16, 17, 18, 19, 20, 21, 36, 71, 92, 22, 83, 78,
    86, 23, 37, 38, 39, 40, 41, 42, 43, 44, 45, 46, 47, 48, 49, 50,
    51, 52, 53, 54, 55, 56, 57, 58, 72, 59, 73, 87, 95, 88, 90, 24,
    93, 3, 25, 4, 26, 5, 27, 28, 29, 6, 60, 61, 30, 31, 32, 7,
    33, 62, 34, 8, 9, 35, 63, 64, 65, 66, 67, 94, 81, 91, 89, 250,
    98, 119, 99, 100, 120, 121, 122, 146, 123, 147, 148, 149, 150, 151, 175, 152,
    176, 177, 124, 153, 178, 154, 155, 156, 157, 106, 125, 158, 126, 159, 160, 179,
    127, 107, 101, 128, 129, 161, 162, 108, 163, 130, 131, 180, 109, 132, 164, 165,
    110, 111, 133, 112, 166, 134, 167, 168, 102, 135, 136, 137, 169, 138, 139, 170,
    190, 191, 103, 96, 140, 171, 141, 186, 192, 193, 194, 205, 206, 195, 181, 187,
    97, 113, 196, 207, 208, 197, 209, 182, 114, 115, 198, 199, 251, 210, 211, 212,
    104, 183, 105, 116, 142, 117, 118, 172, 143, 144, 188, 189, 184, 185, 200, 173,
    201, 213, 202, 203, 214, 215, 216, 217, 218, 252, 219, 220, 221, 222, 223, 204,
    256,
];

proof fn lemma_order_facts_0(i: int)
    requires
        0 <= i < 32,
    ensures
        CODE_ORDER[i] < 257,
        CODE_RANK[CODE_ORDER[i] as int] == i,
        i + 1 < 257 ==> hi(CODE_ORDER[i] as int) <= lo(CODE_ORDER[i + 1] as int),
{
    if i == 0 {
        assert(CODE_ORDER[0] == 48 && CODE_RANK[48] == 0 && HUFFMAN_CODES[48] == 0 && HUFFMAN_LENGTHS[48] == 5 && CODE_ORDER[1] == 49 && HUFFMAN_CODES[49] == 1 && HUFFMAN_LENGTHS[49] == 5 && SCALE[5] == 33554432);
        assert(hi(48) == 33554432) by (nonlinear_arith)
            requires
                HUFFMAN_CODES[48] == 0,
                HUFFMAN_LENGTHS[48] == 5,
                SCALE[5] == 33554432,
        ;
        assert(lo(49) == 33554432) by (nonlinear_arith)
            requires
                HUFFMAN_CODES[49] == 1,
                HUFFMAN_LENGTHS[49] == 5,
                SCALE[5] == 33554432,
        ;
    } else if i == 1 {
        assert(CODE_ORDER[1] == 49 && CODE_RANK[49] == 1 && HUFFMAN_CODES[49] == 1 && HUFFMAN_LENGTHS[49] == 5 && CODE_ORDER[2] == 50 && HUFFMAN_CODES[50] == 2 && HUFFMAN_LENGTHS[50] == 5 && SCALE[5] == 33554432);
        assert(hi(49) == 67108864) by (nonlinear_arith)
            requires
                HUFFMAN_CODES[49] == 1,
                HUFFMAN_LENGTHS[49] == 5,
                SCALE[5] == 33554432,
        ;
        assert(lo(50) == 67108864) by (nonlinear_arith)
            requires
                HUFFMAN_CODES[50] == 2,
                HUFFMAN_LENGTHS[50] == 5,
                SCALE[5] == 33554432,
        ;
    } else if i == 2 {
        assert(CODE_ORDER[2] == 50 && CODE_RANK[50] == 2 && HUFFMAN_CODES[50] == 2 && HUFFMAN_LENGTHS[50] == 5 && CODE_ORDER[3] == 97 && HUFFMAN_CODES[97] == 3 && HUFFMAN_LENGTHS[97] == 5 && SCALE[5] == 33554432);
        assert(hi(50) == 100663296) by (nonlinear_arith)
            requires
                HUFFMAN_CODES[50] == 2,
                HUFFMAN_LENGTHS[50] == 5,
                SCALE[5] == 33554432,
        ;
        assert(lo(97) == 100663296) by (nonlinear_arith)
            requires
                HUFFMAN_CODES[97] == 3,
                HUFFMAN_LENGTHS[97] == 5,
                SCALE[5] == 33554432,
        ;
    } else if i == 3 {
        assert(CODE_ORDER[3] == 97 && CODE_RANK[97] == 3 && HUFFMAN_CODES[97] == 3 && HUFFMAN_LENGTHS[97] == 5 && CODE_ORDER[4] == 99 && HUFFMAN_CODES[99] == 4 && HUFFMAN_LENGTHS[99] == 5 && SCALE[5] == 33554432);
        assert(hi(97) == 134217728) by (nonlinear_arith)
            requires
                HUFFMAN_CODES[97] == 3,
                HUFFMAN_LENGTHS[97] == 5,
                SCALE[5] == 33554432,
        ;
        assert(lo(99) == 134217728) by (nonlinear_arith)
            requires
                HUFFMAN_CODES[99] == 4,
                HUFFMAN_LENGTHS[99] == 5,
                SCALE[5] == 33554432,
        ;
    } else if i == 4 {
        assert(CODE_ORDER[4] == 99 && CODE_RANK[99] == 4 && HUFFMAN_CODES[99] == 4 && HUFFMAN_LENGTHS[99] == 5 && CODE_ORDER[5] == 101 && HUFFMAN_CODES[101] == 5 && HUFFMAN_LENGTHS[101] == 5 && SCALE[5] == 33554432);
        assert(hi(99) == 167772160) by (nonlinear_arith)
            requires
                HUFFMAN_CODES[99] == 4,
                HUFFMAN_LENGTHS[99] == 5,
                SCALE[5] == 33554432,
        ;
        assert(lo(101) == 167772160) by (nonlinear_arith)
            requires
                HUFFMAN_CODES[101] == 5,
                HUFFMAN_LENGTHS[101] == 5,
                SCALE[5] == 33554432,
        ;
    } else if i == 5 {
        assert(CODE_ORDER[5] == 101 && CODE_RANK[101] == 5 && HUFFMAN_CODES[101] == 5 && HUFFMAN_LENGTHS[101] == 5 && CODE_ORDER[6] == 105 && HUFFMAN_CODES[105] == 6 && HUFFMAN_LENGTHS[105] == 5 && SCALE[5] == 33554432);
        assert(hi(101) == 201326592) by (nonlinear_arith)
            requires
                HUFFMAN_CODES[101] == 5,
                HUFFMAN_LENGTHS[101] == 5,
                SCALE[5] == 33554432,
        ;
        assert(lo(105) == 201326592) by (nonlinear_arith)
            requires
                HUFFMAN_CODES[105] == 6,
                HUFFMAN_LENGTHS[105] == 5,
                SCALE[5] == 33554432,
        ;
    } else if i == 6 {
        assert(CODE_ORDER[6] == 105 && CODE_RANK[105] == 6 && HUFFMAN_CODES[105] == 6 && HUFFMAN_LENGTHS[105] == 5 && CODE_ORDER[7] == 111 && HUFFMAN_CODES[111] == 7 && HUFFMAN_LENGTHS[111] == 5 && SCALE[5] == 33554432);
        assert(hi(105) == 234881024) by (nonlinear_arith)
            requires
                HUFFMAN_CODES[105] == 6,
                HUFFMAN_LENGTHS[105] == 5,
                SCALE[5] == 33554432,
        ;
        assert(lo(111) == 234881024) by (nonlinear_arith)
            requires
                HUFFMAN_CODES[111] == 7,
                HUFFMAN_LENGTHS[111] == 5,
                SCALE[5] == 33554432,
        ;
    } else if i == 7 {
        assert(CODE_ORDER[7] == 111 && CODE_RANK[111] == 7 && HUFFMAN_CODES[111] == 7 && HUFFMAN_LENGTHS[111] == 5 && CODE_ORDER[8] == 115 && HUFFMAN_CODES[115] == 8 && HUFFMAN_LENGTHS[115] == 5 && SCALE[5] == 33554432);
        assert(hi(111) == 268435456) by (nonlinear_arith)
            requires
                HUFFMAN_CODES[111] == 7,
                HUFFMAN_LENGTHS[111] == 5,
                SCALE[5] == 33554432,
        ;
        assert(lo(115) == 268435456) by (nonlinear_arith)
            requires
                HUFFMAN_CODES[115] == 8,
                HUFFMAN_LENGTHS[115] == 5,
                SCALE[5] == 33554432,
        ;
    } else if i == 8 {
        assert(CODE_ORDER[8] == 115 && CODE_RANK[115] == 8 && HUFFMAN_CODES[115] == 8 && HUFFMAN_LENGTHS[115] == 5 && CODE_ORDER[9] == 116 && HUFFMAN_CODES[116] == 9 && HUFFMAN_LENGTHS[116] == 5 && SCALE[5] == 33554432);
        assert(hi(115) == 301989888) by (nonlinear_arith)
            requires
                HUFFMAN_CODES[115] == 8,
                HUFFMAN_LENGTHS[115] == 5,
                SCALE[5] == 33554432,
        ;
        assert(lo(116) == 301989888) by (nonlinear_arith)
            requires
                HUFFMAN_CODES[116] == 9,
                HUFFMAN_LENGTHS[116] == 5,
                SCALE[5] == 33554432,
        ;
    } else if i == 9 {
        assert(CODE_ORDER[9] == 116 && CODE_RANK[116] == 9 && HUFFMAN_CODES[116] == 9 && HUFFMAN_LENGTHS[116] == 5 && CODE_ORDER[10] == 32 && HUFFMAN_CODES[32] == 20 && HUFFMAN_LENGTHS[32] == 6 && SCALE[5] == 33554432 && SCALE[6] == 16777216);
        assert(hi(116) == 335544320) by (nonlinear_arith)
            requires
                HUFFMAN_CODES[116] == 9,
                HUFFMAN_LENGTHS[116] == 5,
                SCALE[5] == 33554432,
        ;
        assert(lo(32) == 335544320) by (nonlinear_arith)
            requires
                HUFFMAN_CODES[32] == 20,
                HUFFMAN_LENGTHS[32] == 6,
                SCALE[6] == 16777216,
        ;
    } else if i == 10 {
        assert(CODE_ORDER[10] == 32 && CODE_RANK[32] == 10 && HUFFMAN_CODES[32] == 20 && HUFFMAN_LENGTHS[32] == 6 && CODE_ORDER[11] == 37 && HUFFMAN_CODES[37] == 21 && HUFFMAN_LENGTHS[37] == 6 && SCALE[6] == 16777216);
        assert(hi(32) == 352321536) by (nonlinear_arith)
            requires
                HUFFMAN_CODES[32] == 20,
                HUFFMAN_LENGTHS[32] == 6,
                SCALE[6] == 16777216,
        ;
        assert(lo(37) == 352321536) by (nonlinear_arith)
            requires
                HUFFMAN_CODES[37] == 21,
                HUFFMAN_LENGTHS[37] == 6,
                SCALE[6] == 16777216,
        ;
    } else if i == 11 {
        assert(CODE_ORDER[11] == 37 && CODE_RANK[37] == 11 && HUFFMAN_CODES[37] == 21 && HUFFMAN_LENGTHS[37] == 6 && CODE_ORDER[12] == 45 && HUFFMAN_CODES[45] == 22 && HUFFMAN_LENGTHS[45] == 6 && SCALE[6] == 16777216);
        assert(hi(37) == 369098752) by (nonlinear_arith)
            requires
                HUFFMAN_CODES[37] == 21,
                HUFFMAN_LENGTHS[37] == 6,
                SCALE[6] == 16777216,
        ;
        assert(lo(45) == 369098752) by (nonlinear_arith)
            requires
                HUFFMAN_CODES[45] == 22,
                HUFFMAN_LENGTHS[45] == 6,
                SCALE[6] == 16777216,
        ;
    } else if i == 12 {
        assert(CODE_ORDER[12] == 45 && CODE_RANK[45] == 12 && HUFFMAN_CODES[45] == 22 && HUFFMAN_LENGTHS[45] == 6 && CODE_ORDER[13] == 46 && HUFFMAN_CODES[46] == 23 && HUFFMAN_LENGTHS[46] == 6 && SCALE[6] == 16777216);
        assert(hi(45) == 385875968) by (nonlinear_arith)
            requires
                HUFFMAN_CODES[45] == 22,
                HUFFMAN_LENGTHS[45] == 6,
                SCALE[6] == 16777216,
        ;
        assert(lo(46) == 385875968) by (nonlinear_arith)
            requires
                HUFFMAN_CODES[46] == 23,
                HUFFMAN_LENGTHS[46] == 6,
                SCALE[6] == 16777216,
        ;
    } else if i == 13 {
        assert(CODE_ORDER[13] == 46 && CODE_RANK[46] == 13 && HUFFMAN_CODES[46] == 23 && HUFFMAN_LENGTHS[46] == 6 && CODE_ORDER[14] == 47 && HUFFMAN_CODES[47] == 24 && HUFFMAN_LENGTHS[47] == 6 && SCALE[6] == 16777216);
        assert(hi(46) == 402653184) by (nonlinear_arith)
            requires
                HUFFMAN_CODES[46] == 23,
                HUFFMAN_LENGTHS[46] == 6,
                SCALE[6] == 16777216,
        ;
        assert(lo(47) == 402653184) by (nonlinear_arith)
            requires
                HUFFMAN_CODES[47] == 24,
                HUFFMAN_LENGTHS[47] == 6,
                SCALE[6] == 16777216,
        ;
    } else if i == 14 {
        assert(CODE_ORDER[14] == 47 && CODE_RANK[47] == 14 && HUFFMAN_CODES[47] == 24 && HUFFMAN_LENGTHS[47] == 6 && CODE_ORDER[15] == 51 && HUFFMAN_CODES[51] == 25 && HUFFMAN_LENGTHS[51] == 6 && SCALE[6] == 16777216);
        assert(hi(47) == 419430400) by (nonlinear_arith)
            requires
                HUFFMAN_CODES[47] == 24,
                HUFFMAN_LENGTHS[47] == 6,
                SCALE[6] == 16777216,
        ;
        assert(lo(51) == 419430400) by (nonlinear_arith)
            requires
                HUFFMAN_CODES[51] == 25,
                HUFFMAN_LENGTHS[51] == 6,
                SCALE[6] == 16777216,
        ;
    } else if i == 15 {
        assert(CODE_ORDER[15] == 51 && CODE_RANK[51] == 15 && HUFFMAN_CODES[51] == 25 && HUFFMAN_LENGTHS[51] == 6 && CODE_ORDER[16] == 52 && HUFFMAN_CODES[52] == 26 && HUFFMAN_LENGTHS[52] == 6 && SCALE[6] == 16777216);
        assert(hi(51) == 436207616) by (nonlinear_arith)
            requires
                HUFFMAN_CODES[51] == 25,
                HUFFMAN_LENGTHS[51] == 6,
                SCALE[6] == 16777216,
        ;
        assert(lo(52) == 436207616) by (nonlinear_arith)
            requires
                HUFFMAN_CODES[52] == 26,
                HUFFMAN_LENGTHS[52] == 6,
                SCALE[6] == 16777216,
        ;
    } else if i == 16 {
        assert(CODE_ORDER[16] == 52 && CODE_RANK[52] == 16 && HUFFMAN_CODES[52] == 26 && HUFFMAN_LENGTHS[52] == 6 && CODE_ORDER[17] == 53 && HUFFMAN_CODES[53] == 27 && HUFFMAN_LENGTHS[53] == 6 && SCALE[6] == 16777216);
        assert(hi(52) == 452984832) by (nonlinear_arith)
            requires
                HUFFMAN_CODES[52] == 26,
                HUFFMAN_LENGTHS[52] == 6,
                SCALE[6] == 16777216,
        ;
        assert(lo(53) == 452984832) by (nonlinear_arith)
            requires
                HUFFMAN_CODES[53] == 27,
                HUFFMAN_LENGTHS[53] == 6,
                SCALE[6] == 16777216,
        ;
    } else if i == 17 {
        assert(CODE_ORDER[17] == 53 && CODE_RANK[53] == 17 && HUFFMAN_CODES[53] == 27 && HUFFMAN_LENGTHS[53] == 6 && CODE_ORDER[18] == 54 && HUFFMAN_CODES[54] == 28 && HUFFMAN_LENGTHS[54] == 6 && SCALE[6] == 16777216);
        assert(hi(53) == 469762048) by (nonlinear_arith)
            requires
                HUFFMAN_CODES[53] == 27,
                HUFFMAN_LENGTHS[53] == 6,
                SCALE[6] == 16777216,
        ;
        assert(lo(54) == 469762048) by (nonlinear_arith)
            requires
                HUFFMAN_CODES[54] == 28,
                HUFFMAN_LENGTHS[54] == 6,
                SCALE[6] == 16777216,
        ;
    } else if i == 18 {
        assert(CODE_ORDER[18] == 54 && CODE_RANK[54] == 18 && HUFFMAN_CODES[54] == 28 && HUFFMAN_LENGTHS[54] == 6 && CODE_ORDER[19] == 55 && HUFFMAN_CODES[55] == 29 && HUFFMAN_LENGTHS[55] == 6 && SCALE[6] == 16777216);
        assert(hi(54) == 486539264) by (nonlinear_arith)
            requires
                HUFFMAN_CODES[54] == 28,
                HUFFMAN_LENGTHS[54] == 6,
                SCALE[6] == 16777216,
        ;
        assert(lo(55) == 486539264) by (nonlinear_arith)
            requires
                HUFFMAN_CODES[55] == 29,
                HUFFMAN_LENGTHS[55] == 6,
                SCALE[6] == 16777216,
        ;
    } else if i == 19 {
        assert(CODE_ORDER[19] == 55 && CODE_RANK[55] == 19 && HUFFMAN_CODES[55] == 29 && HUFFMAN_LENGTHS[55] == 6 && CODE_ORDER[20] == 56 && HUFFMAN_CODES[56] == 30 && HUFFMAN_LENGTHS[56] == 6 && SCALE[6] == 16777216);
        assert(hi(55) == 503316480) by (nonlinear_arith)
            requires
                HUFFMAN_CODES[55] == 29,
                HUFFMAN_LENGTHS[55] == 6,
                SCALE[6] == 16777216,
        ;
        assert(lo(56) == 503316480) by (nonlinear_arith)
            requires
                HUFFMAN_CODES[56] == 30,
                HUFFMAN_LENGTHS[56] == 6,
                SCALE[6] == 16777216,
        ;
    } else if i == 20 {
        assert(CODE_ORDER[20] == 56 && CODE_RANK[56] == 20 && HUFFMAN_CODES[56] == 30 && HUFFMAN_LENGTHS[56] == 6 && CODE_ORDER[21] == 57 && HUFFMAN_CODES[57] == 31 && HUFFMAN_LENGTHS[57] == 6 && SCALE[6] == 16777216);
        assert(hi(56) == 520093696) by (nonlinear_arith)
            requires
                HUFFMAN_CODES[56] == 30,
                HUFFMAN_LENGTHS[56] == 6,
                SCALE[6] == 16777216,
        ;
        assert(lo(57) == 520093696) by (nonlinear_arith)
            requires
                HUFFMAN_CODES[57] == 31,
                HUFFMAN_LENGTHS[57] == 6,
                SCALE[6] == 16777216,
        ;
    } else if i == 21 {
        assert(CODE_ORDER[21] == 57 && CODE_RANK[57] == 21 && HUFFMAN_CODES[57] == 31 && HUFFMAN_LENGTHS[57] == 6 && CODE_ORDER[22] == 61 && HUFFMAN_CODES[61] == 32 && HUFFMAN_LENGTHS[61] == 6 && SCALE[6] == 16777216);
        assert(hi(57) == 536870912) by (nonlinear_arith)
            requires
                HUFFMAN_CODES[57] == 31,
                HUFFMAN_LENGTHS[57] == 6,
                SCALE[6] == 16777216,
        ;
        assert(lo(61) == 536870912) by (nonlinear_arith)
            requires
                HUFFMAN_CODES[61] == 32,
                HUFFMAN_LENGTHS[61] == 6,
                SCALE[6] == 16777216,
        ;
    } else if i == 22 {
        assert(CODE_ORDER[22] == 61 && CODE_RANK[61] == 22 && HUFFMAN_CODES[61] == 32 && HUFFMAN_LENGTHS[61] == 6 && CODE_ORDER[23] == 65 && HUFFMAN_CODES[65] == 33 && HUFFMAN_LENGTHS[65] == 6 && SCALE[6] == 16777216);
        assert(hi(61) == 553648128) by (nonlinear_arith)
            requires
                HUFFMAN_CODES[61] == 32,
                HUFFMAN_LENGTHS[61] == 6,
                SCALE[6] == 16777216,
        ;
        assert(lo(65) == 553648128) by (nonlinear_arith)
            requires
                HUFFMAN_CODES[65] == 33,
                HUFFMAN_LENGTHS[65] == 6,
                SCALE[6] == 16777216,
        ;
    } else if i == 23 {
        assert(CODE_ORDER[23] == 65 && CODE_RANK[65] == 23 && HUFFMAN_CODES[65] == 33 && HUFFMAN_LENGTHS[65] == 6 && CODE_ORDER[24] == 95 && HUFFMAN_CODES[95] == 34 && HUFFMAN_LENGTHS[95] == 6 && SCALE[6] == 16777216);
        assert(hi(65) == 570425344) by (nonlinear_arith)
            requires
                HUFFMAN_CODES[65] == 33,
                HUFFMAN_LENGTHS[65] == 6,
                SCALE[6] == 16777216,
        ;
        assert(lo(95) == 570425344) by (nonlinear_arith)
            requires
                HUFFMAN_CODES[95] == 34,
                HUFFMAN_LENGTHS[95] == 6,
                SCALE[6] == 16777216,
        ;
    } else if i == 24 {
        assert(CODE_ORDER[24] == 95 && CODE_RANK[95] == 24 && HUFFMAN_CODES[95] == 34 && HUFFMAN_LENGTHS[95] == 6 && CODE_ORDER[25] == 98 && HUFFMAN_CODES[98] == 35 && HUFFMAN_LENGTHS[98] == 6 && SCALE[6] == 16777216);
        assert(hi(95) == 587202560) by (nonlinear_arith)
            requires
                HUFFMAN_CODES[95] == 34,
                HUFFMAN_LENGTHS[95] == 6,
                SCALE[6] == 16777216,
        ;
        assert(lo(98) == 587202560) by (nonlinear_arith)
            requires
                HUFFMAN_CODES[98] == 35,
                HUFFMAN_LENGTHS[98] == 6,
                SCALE[6] == 16777216,
        ;
    } else if i == 25 {
        assert(CODE_ORDER[25] == 98 && CODE_RANK[98] == 25 && HUFFMAN_CODES[98] == 35 && HUFFMAN_LENGTHS[98] == 6 && CODE_ORDER[26] == 100 && HUFFMAN_CODES[100] == 36 && HUFFMAN_LENGTHS[100] == 6 && SCALE[6] == 16777216);
        assert(hi(98) == 603979776) by (nonlinear_arith)
            requires
                HUFFMAN_CODES[98] == 35,
                HUFFMAN_LENGTHS[98] == 6,
                SCALE[6] == 16777216,
        ;
        assert(lo(100) == 603979776) by (nonlinear_arith)
            requires
                HUFFMAN_CODES[100] == 36,
                HUFFMAN_LENGTHS[100] == 6,
                SCALE[6] == 16777216,
        ;
    } else if i == 26 {
        assert(CODE_ORDER[26] == 100 && CODE_RANK[100] == 26 && HUFFMAN_CODES[100] == 36 && HUFFMAN_LENGTHS[100] == 6 && CODE_ORDER[27] == 102 && HUFFMAN_CODES[102] == 37 && HUFFMAN_LENGTHS[102] == 6 && SCALE[6] == 16777216);
        assert(hi(100) == 620756992) by (nonlinear_arith)
            requires
                HUFFMAN_CODES[100] == 36,
                HUFFMAN_LENGTHS[100] == 6,
                SCALE[6] == 16777216,
        ;
        assert(lo(102) == 620756992) by (nonlinear_arith)
            requires
                HUFFMAN_CODES[102] == 37,
                HUFFMAN_LENGTHS[102] == 6,
                SCALE[6] == 16777216,
        ;
    } else if i == 27 {
        assert(CODE_ORDER[27] == 102 && CODE_RANK[102] == 27 && HUFFMAN_CODES[102] == 37 && HUFFMAN_LENGTHS[102] == 6 && CODE_ORDER[28] == 103 && HUFFMAN_CODES[103] == 38 && HUFFMAN_LENGTHS[103] == 6 && SCALE[6] == 16777216);
        assert(hi(102) == 637534208) by (nonlinear_arith)
            requires
                HUFFMAN_CODES[102] == 37,
                HUFFMAN_LENGTHS[102] == 6,
                SCALE[6] == 16777216,
        ;
        assert(lo(103) == 637534208) by (nonlinear_arith)
            requires
                HUFFMAN_CODES[103] == 38,
                HUFFMAN_LENGTHS[103] == 6,
                SCALE[6] == 16777216,
        ;
    } else if i == 28 {
        assert(CODE_ORDER[28] == 103 && CODE_RANK[103] == 28 && HUFFMAN_CODES[103] == 38 && HUFFMAN_LENGTHS[103] == 6 && CODE_ORDER[29] == 104 && HUFFMAN_CODES[104] == 39 && HUFFMAN_LENGTHS[104] == 6 && SCALE[6] == 16777216);
        assert(hi(103) == 654311424) by (nonlinear_arith)
            requires
                HUFFMAN_CODES[103] == 38,
                HUFFMAN_LENGTHS[103] == 6,
                SCALE[6] == 16777216,
        ;
        assert(lo(104) == 654311424) by (nonlinear_arith)
            requires
                HUFFMAN_CODES[104] == 39,
                HUFFMAN_LENGTHS[104] == 6,
                SCALE[6] == 16777216,
        ;
    } else if i == 29 {
        assert(CODE_ORDER[29] == 104 && CODE_RANK[104] == 29 && HUFFMAN_CODES[104] == 39 && HUFFMAN_LENGTHS[104] == 6 && CODE_ORDER[30] == 108 && HUFFMAN_CODES[108] == 40 && HUFFMAN_LENGTHS[108] == 6 && SCALE[6] == 16777216);
        assert(hi(104) == 671088640) by (nonlinear_arith)
            requires
                HUFFMAN_CODES[104] == 39,
                HUFFMAN_LENGTHS[104] == 6,
                SCALE[6] == 16777216,
        ;
        assert(lo(108) == 671088640) by (nonlinear_arith)
            requires
                HUFFMAN_CODES[108] == 40,
                HUFFMAN_LENGTHS[108] == 6,
                SCALE[6] == 16777216,
        ;
    } else if i == 30 {
        assert(CODE_ORDER[30] == 108 && CODE_RANK[108] == 30 && HUFFMAN_CODES[108] == 40 && HUFFMAN_LENGTHS[108] == 6 && CODE_ORDER[31] == 109 && HUFFMAN_CODES[109] == 41 && HUFFMAN_LENGTHS[109] == 6 && SCALE[6] == 16777216);
        assert(hi(108) == 687865856) by (nonlinear_arith)
            requires
                HUFFMAN_CODES[108] == 40,
                HUFFMAN_LENGTHS[108] == 6,
                SCALE[6] == 16777216,
        ;
        assert(lo(109) == 687865856) by (nonlinear_arith)
            requires
                HUFFMAN_CODES[109] == 41,
                HUFFMAN_LENGTHS[109] == 6,
                SCALE[6] == 16777216,
        ;
    } else if i == 31 {
        assert(CODE_ORDER[31] == 109 && CODE_RANK[109] == 31 && HUFFMAN_CODES[109] == 41 && HUFFMAN_LENGTHS[109] == 6 && CODE_ORDER[32] == 110 && HUFFMAN_CODES[110] == 42 && HUFFMAN_LENGTHS[110] == 6 && SCALE[6] == 16777216);
        assert(hi(109) == 704643072) by (nonlinear_arith)
            requires
                HUFFMAN_CODES[109] == 41,
                HUFFMAN_LENGTHS[109] == 6,
                SCALE[6] == 16777216,
        ;
        assert(lo(110) == 704643072) by (nonlinear_arith)
            requires
                HUFFMAN_CODES[110] == 42,
                HUFFMAN_LENGTHS[110] == 6,
                SCALE[6] == 16777216,
        ;
    }
}

proof fn lemma_order_facts_32(i: int)
    requires
        32 <= i < 64,
    ensures
        CODE_ORDER[i] < 257,
        CODE_RANK[CODE_ORDER[i] as int] == i,
        i + 1 < 257 ==> hi(CODE_ORDER[i] as int) <= lo(CODE_ORDER[i + 1] as int),
{
    if i == 32 {
        assert(CODE_ORDER[32] == 110 && CODE_RANK[110] == 32 && HUFFMAN_CODES[110] == 42 && HUFFMAN_LENGTHS[110] == 6 && CODE_ORDER[33] == 112 && HUFFMAN_CODES[112] == 43 && HUFFMAN_LENGTHS[112] == 6 && SCALE[6] == 16777216);
        assert(hi(110) == 721420288) by (nonlinear_arith)
            requires
                HUFFMAN_CODES[110] == 42,
                HUFFMAN_LENGTHS[110] == 6,
                SCALE[6] == 16777216,
        ;
        assert(lo(112) == 721420288) by (nonlinear_arith)
            requires
                HUFFMAN_CODES[112] == 43,
                HUFFMAN_LENGTHS[112] == 6,
                SCALE[6] == 16777216,
        ;
    } else if i == 33 {
        assert(CODE_ORDER[33] == 112 && CODE_RANK[112] == 33 && HUFFMAN_CODES[112] == 43 && HUFFMAN_LENGTHS[112] == 6 && CODE_ORDER[34] == 114 && HUFFMAN_CODES[114] == 44 && HUFFMAN_LENGTHS[114] == 6 && SCALE[6] == 16777216);
        assert(hi(112) == 738197504) by (nonlinear_arith)
            requires
                HUFFMAN_CODES[112] == 43,
                HUFFMAN_LENGTHS[112] == 6,
                SCALE[6] == 16777216,
        ;
        assert(lo(114) == 738197504) by (nonlinear_arith)
            requires
                HUFFMAN_CODES[114] == 44,
                HUFFMAN_LENGTHS[114] == 6,
                SCALE[6] == 16777216,
        ;
    } else if i == 34 {
        assert(CODE_ORDER[34] == 114 && CODE_RANK[114] == 34 && HUFFMAN_CODES[114] == 44 && HUFFMAN_LENGTHS[114] == 6 && CODE_ORDER[35] == 117 && HUFFMAN_CODES[117] == 45 && HUFFMAN_LENGTHS[117] == 6 && SCALE[6] == 16777216);
        assert(hi(114) == 754974720) by (nonlinear_arith)
            requires
                HUFFMAN_CODES[114] == 44,
                HUFFMAN_LENGTHS[114] == 6,
                SCALE[6] == 16777216,
        ;
        assert(lo(117) == 754974720) by (nonlinear_arith)
            requires
                HUFFMAN_CODES[117] == 45,
                HUFFMAN_LENGTHS[117] == 6,
                SCALE[6] == 16777216,
        ;
    } else if i == 35 {
        assert(CODE_ORDER[35] == 117 && CODE_RANK[117] == 35 && HUFFMAN_CODES[117] == 45 && HUFFMAN_LENGTHS[117] == 6 && CODE_ORDER[36] == 58 && HUFFMAN_CODES[58] == 92 && HUFFMAN_LENGTHS[58] == 7 && SCALE[6] == 16777216 && SCALE[7] == 8388608);
        assert(hi(117) == 771751936) by (nonlinear_arith)
            requires
                HUFFMAN_CODES[117] == 45,
                HUFFMAN_LENGTHS[117] == 6,
                SCALE[6] == 16777216,
        ;
        assert(lo(58) == 771751936) by (nonlinear_arith)
            requires
                HUFFMAN_CODES[58] == 92,
                HUFFMAN_LENGTHS[58] == 7,
                SCALE[7] == 8388608,
        ;
    } else if i == 36 {
        assert(CODE_ORDER[36] == 58 && CODE_RANK[58] == 36 && HUFFMAN_CODES[58] == 92 && HUFFMAN_LENGTHS[58] == 7 && CODE_ORDER[37] == 66 && HUFFMAN_CODES[66] == 93 && HUFFMAN_LENGTHS[66] == 7 && SCALE[7] == 8388608);
        assert(hi(58) == 780140544) by (nonlinear_arith)
            requires
                HUFFMAN_CODES[58] == 92,
                HUFFMAN_LENGTHS[58] == 7,
                SCALE[7] == 8388608,
        ;
        assert(lo(66) == 780140544) by (nonlinear_arith)
            requires
                HUFFMAN_CODES[66] == 93,
                HUFFMAN_LENGTHS[66] == 7,
                SCALE[7] == 8388608,
        ;
    } else if i == 37 {
        assert(CODE_ORDER[37] == 66 && CODE_RANK[66] == 37 && HUFFMAN_CODES[66] == 93 && HUFFMAN_LENGTHS[66] == 7 && CODE_ORDER[38] == 67 && HUFFMAN_CODES[67] == 94 && HUFFMAN_LENGTHS[67] == 7 && SCALE[7] == 8388608);
        assert(hi(66) == 788529152) by (nonlinear_arith)
            requires
                HUFFMAN_CODES[66] == 93,
                HUFFMAN_LENGTHS[66] == 7,
                SCALE[7] == 8388608,
        ;
        assert(lo(67) == 788529152) by (nonlinear_arith)
            requires
                HUFFMAN_CODES[67] == 94,
                HUFFMAN_LENGTHS[67] == 7,
                SCALE[7] == 8388608,
        ;
    } else if i == 38 {
        assert(CODE_ORDER[38] == 67 && CODE_RANK[67] == 38 && HUFFMAN_CODES[67] == 94 && HUFFMAN_LENGTHS[67] == 7 && CODE_ORDER[39] == 68 && HUFFMAN_CODES[68] == 95 && HUFFMAN_LENGTHS[68] == 7 && SCALE[7] == 8388608);
        assert(hi(67) == 796917760) by (nonlinear_arith)
            requires
                HUFFMAN_CODES[67] == 94,
                HUFFMAN_LENGTHS[67] == 7,
                SCALE[7] == 8388608,
        ;
        assert(lo(68) == 796917760) by (nonlinear_arith)
            requires
                HUFFMAN_CODES[68] == 95,
                HUFFMAN_LENGTHS[68] == 7,
                SCALE[7] == 8388608,
        ;
    } else if i == 39 {
        assert(CODE_ORDER[39] == 68 && CODE_RANK[68] == 39 && HUFFMAN_CODES[68] == 95 && HUFFMAN_LENGTHS[68] == 7 && CODE_ORDER[40] == 69 && HUFFMAN_CODES[69] == 96 && HUFFMAN_LENGTHS[69] == 7 && SCALE[7] == 8388608);
        assert(hi(68) == 805306368) by (nonlinear_arith)
            requires
                HUFFMAN_CODES[68] == 95,
                HUFFMAN_LENGTHS[68] == 7,
                SCALE[7] == 8388608,
        ;
        assert(lo(69) == 805306368) by (nonlinear_arith)
            requires
                HUFFMAN_CODES[69] == 96,
                HUFFMAN_LENGTHS[69] == 7,
                SCALE[7] == 8388608,
        ;
    } else if i == 40 {
        assert(CODE_ORDER[40] == 69 && CODE_RANK[69] == 40 && HUFFMAN_CODES[69] == 96 && HUFFMAN_LENGTHS[69] == 7 && CODE_ORDER[41] == 70 && HUFFMAN_CODES[70] == 97 && HUFFMAN_LENGTHS[70] == 7 && SCALE[7] == 8388608);
        assert(hi(69) == 813694976) by (nonlinear_arith)
            requires
                HUFFMAN_CODES[69] == 96,
                HUFFMAN_LENGTHS[69] == 7,
                SCALE[7] == 8388608,
        ;
        assert(lo(70) == 813694976) by (nonlinear_arith)
            requires
                HUFFMAN_CODES[70] == 97,
                HUFFMAN_LENGTHS[70] == 7,
                SCALE[7] == 8388608,
        ;
    } else if i == 41 {
        assert(CODE_ORDER[41] == 70 && CODE_RANK[70] == 41 && HUFFMAN_CODES[70] == 97 && HUFFMAN_LENGTHS[70] == 7 && CODE_ORDER[42] == 71 && HUFFMAN_CODES[71] == 98 && HUFFMAN_LENGTHS[71] == 7 && SCALE[7] == 8388608);
        assert(hi(70) == 822083584) by (nonlinear_arith)
            requires
                HUFFMAN_CODES[70] == 97,
                HUFFMAN_LENGTHS[70] == 7,
                SCALE[7] == 8388608,
        ;
        assert(lo(71) == 822083584) by (nonlinear_arith)
            requires
                HUFFMAN_CODES[71] == 98,
                HUFFMAN_LENGTHS[71] == 7,
                SCALE[7] == 8388608,
        ;
    } else if i == 42 {
        assert(CODE_ORDER[42] == 71 && CODE_RANK[71] == 42 && HUFFMAN_CODES[71] == 98 && HUFFMAN_LENGTHS[71] == 7 && CODE_ORDER[43] == 72 && HUFFMAN_CODES[72] == 99 && HUFFMAN_LENGTHS[72] == 7 && SCALE[7] == 8388608);
        assert(hi(71) == 830472192) by (nonlinear_arith)
            requires
                HUFFMAN_CODES[71] == 98,
                HUFFMAN_LENGTHS[71] == 7,
                SCALE[7] == 8388608,
        ;
        assert(lo(72) == 830472192) by (nonlinear_arith)
            requires
                HUFFMAN_CODES[72] == 99,
                HUFFMAN_LENGTHS[72] == 7,
                SCALE[7] == 8388608,
        ;
    } else if i == 43 {
        assert(CODE_ORDER[43] == 72 && CODE_RANK[72] == 43 && HUFFMAN_CODES[72] == 99 && HUFFMAN_LENGTHS[72] == 7 && CODE_ORDER[44] == 73 && HUFFMAN_CODES[73] == 100 && HUFFMAN_LENGTHS[73] == 7 && SCALE[7] == 8388608);
        assert(hi(72) == 838860800) by (nonlinear_arith)
            requires
                HUFFMAN_CODES[72] == 99,
                HUFFMAN_LENGTHS[72] == 7,
                SCALE[7] == 8388608,
        ;
        assert(lo(73) == 838860800) by (nonlinear_arith)
            requires
                HUFFMAN_CODES[73] == 100,
                HUFFMAN_LENGTHS[73] == 7,
                SCALE[7] == 8388608,
        ;
    } else if i == 44 {
        assert(CODE_ORDER[44] == 73 && CODE_RANK[73] == 44 && HUFFMAN_CODES[73] == 100 && HUFFMAN_LENGTHS[73] == 7 && CODE_ORDER[45] == 74 && HUFFMAN_CODES[74] == 101 && HUFFMAN_LENGTHS[74] == 7 && SCALE[7] == 8388608);
        assert(hi(73) == 847249408) by (nonlinear_arith)
            requires
                HUFFMAN_CODES[73] == 100,
                HUFFMAN_LENGTHS[73] == 7,
                SCALE[7] == 8388608,
        ;
        assert(lo(74) == 847249408) by (nonlinear_arith)
            requires
                HUFFMAN_CODES[74] == 101,
                HUFFMAN_LENGTHS[74] == 7,
                SCALE[7] == 8388608,
        ;
    } else if i == 45 {
        assert(CODE_ORDER[45] == 74 && CODE_RANK[74] == 45 && HUFFMAN_CODES[74] == 101 && HUFFMAN_LENGTHS[74] == 7 && CODE_ORDER[46] == 75 && HUFFMAN_CODES[75] == 102 && HUFFMAN_LENGTHS[75] == 7 && SCALE[7] == 8388608);
        assert(hi(74) == 855638016) by (nonlinear_arith)
            requires
                HUFFMAN_CODES[74] == 101,
                HUFFMAN_LENGTHS[74] == 7,
                SCALE[7] == 8388608,
        ;
        assert(lo(75) == 855638016) by (nonlinear_arith)
            requires
                HUFFMAN_CODES[75] == 102,
                HUFFMAN_LENGTHS[75] == 7,
                SCALE[7] == 8388608,
        ;
    } else if i == 46 {
        assert(CODE_ORDER[46] == 75 && CODE_RANK[75] == 46 && HUFFMAN_CODES[75] == 102 && HUFFMAN_LENGTHS[75] == 7 && CODE_ORDER[47] == 76 && HUFFMAN_CODES[76] == 103 && HUFFMAN_LENGTHS[76] == 7 && SCALE[7] == 8388608);
        assert(hi(75) == 864026624) by (nonlinear_arith)
            requires
                HUFFMAN_CODES[75] == 102,
                HUFFMAN_LENGTHS[75] == 7,
                SCALE[7] == 8388608,
        ;
        assert(lo(76) == 864026624) by (nonlinear_arith)
            requires
                HUFFMAN_CODES[76] == 103,
                HUFFMAN_LENGTHS[76] == 7,
                SCALE[7] == 8388608,
        ;
    } else if i == 47 {
        assert(CODE_ORDER[47] == 76 && CODE_RANK[76] == 47 && HUFFMAN_CODES[76] == 103 && HUFFMAN_LENGTHS[76] == 7 && CODE_ORDER[48] == 77 && HUFFMAN_CODES[77] == 104 && HUFFMAN_LENGTHS[77] == 7 && SCALE[7] == 8388608);
        assert(hi(76) == 872415232) by (nonlinear_arith)
            requires
                HUFFMAN_CODES[76] == 103,
                HUFFMAN_LENGTHS[76] == 7,
                SCALE[7] == 8388608,
        ;
        assert(lo(77) == 872415232) by (nonlinear_arith)
            requires
                HUFFMAN_CODES[77] == 104,
                HUFFMAN_LENGTHS[77] == 7,
                SCALE[7] == 8388608,
        ;
    } else if i == 48 {
        assert(CODE_ORDER[48] == 77 && CODE_RANK[77] == 48 && HUFFMAN_CODES[77] == 104 && HUFFMAN_LENGTHS[77] == 7 && CODE_ORDER[49] == 78 && HUFFMAN_CODES[78] == 105 && HUFFMAN_LENGTHS[78] == 7 && SCALE[7] == 8388608);
        assert(hi(77) == 880803840) by (nonlinear_arith)
            requires
                HUFFMAN_CODES[77] == 104,
                HUFFMAN_LENGTHS[77] == 7,
                SCALE[7] == 8388608,
        ;
        assert(lo(78) == 880803840) by (nonlinear_arith)
            requires
                HUFFMAN_CODES[78] == 105,
                HUFFMAN_LENGTHS[78] == 7,
                SCALE[7] == 8388608,
        ;
    } else if i == 49 {
        assert(CODE_ORDER[49] == 78 && CODE_RANK[78] == 49 && HUFFMAN_CODES[78] == 105 && HUFFMAN_LENGTHS[78] == 7 && CODE_ORDER[50] == 79 && HUFFMAN_CODES[79] == 106 && HUFFMAN_LENGTHS[79] == 7 && SCALE[7] == 8388608);
        assert(hi(78) == 889192448) by (nonlinear_arith)
            requires
                HUFFMAN_CODES[78] == 105,
                HUFFMAN_LENGTHS[78] == 7,
                SCALE[7] == 8388608,
        ;
        assert(lo(79) == 889192448) by (nonlinear_arith)
            requires
                HUFFMAN_CODES[79] == 106,
                HUFFMAN_LENGTHS[79] == 7,
                SCALE[7] == 8388608,
        ;
    } else if i == 50 {
        assert(CODE_ORDER[50] == 79 && CODE_RANK[79] == 50 && HUFFMAN_CODES[79] == 106 && HUFFMAN_LENGTHS[79] == 7 && CODE_ORDER[51] == 80 && HUFFMAN_CODES[80] == 107 && HUFFMAN_LENGTHS[80] == 7 && SCALE[7] == 8388608);
        assert(hi(79) == 897581056) by (nonlinear_arith)
            requires
                HUFFMAN_CODES[79] == 106,
                HUFFMAN_LENGTHS[79] == 7,
                SCALE[7] == 8388608,
        ;
        assert(lo(80) == 897581056) by (nonlinear_arith)
            requires
                HUFFMAN_CODES[80] == 107,
                HUFFMAN_LENGTHS[80] == 7,
                SCALE[7] == 8388608,
        ;
    } else if i == 51 {
        assert(CODE_ORDER[51] == 80 && CODE_RANK[80] == 51 && HUFFMAN_CODES[80] == 107 && HUFFMAN_LENGTHS[80] == 7 && CODE_ORDER[52] == 81 && HUFFMAN_CODES[81] == 108 && HUFFMAN_LENGTHS[81] == 7 && SCALE[7] == 8388608);
        assert(hi(80) == 905969664) by (nonlinear_arith)
            requires
                HUFFMAN_CODES[80] == 107,
                HUFFMAN_LENGTHS[80] == 7,
                SCALE[7] == 8388608,
        ;
        assert(lo(81) == 905969664) by (nonlinear_arith)
            requires
                HUFFMAN_CODES[81] == 108,
                HUFFMAN_LENGTHS[81] == 7,
                SCALE[7] == 8388608,
        ;
    } else if i == 52 {
        assert(CODE_ORDER[52] == 81 && CODE_RANK[81] == 52 && HUFFMAN_CODES[81] == 108 && HUFFMAN_LENGTHS[81] == 7 && CODE_ORDER[53] == 82 && HUFFMAN_CODES[82] == 109 && HUFFMAN_LENGTHS[82] == 7 && SCALE[7] == 8388608);
        assert(hi(81) == 914358272) by (nonlinear_arith)
            requires
                HUFFMAN_CODES[81] == 108,
                HUFFMAN_LENGTHS[81] == 7,
                SCALE[7] == 8388608,
        ;
        assert(lo(82) == 914358272) by (nonlinear_arith)
            requires
                HUFFMAN_CODES[82] == 109,
                HUFFMAN_LENGTHS[82] == 7,
                SCALE[7] == 8388608,
        ;
    } else if i == 53 {
        assert(CODE_ORDER[53] == 82 && CODE_RANK[82] == 53 && HUFFMAN_CODES[82] == 109 && HUFFMAN_LENGTHS[82] == 7 && CODE_ORDER[54] == 83 && HUFFMAN_CODES[83] == 110 && HUFFMAN_LENGTHS[83] == 7 && SCALE[7] == 8388608);
        assert(hi(82) == 922746880) by (nonlinear_arith)
            requires
                HUFFMAN_CODES[82] == 109,
                HUFFMAN_LENGTHS[82] == 7,
                SCALE[7] == 8388608,
        ;
        assert(lo(83) == 922746880) by (nonlinear_arith)
            requires
                HUFFMAN_CODES[83] == 110,
                HUFFMAN_LENGTHS[83] == 7,
                SCALE[7] == 8388608,
        ;
    } else if i == 54 {
        assert(CODE_ORDER[54] == 83 && CODE_RANK[83] == 54 && HUFFMAN_CODES[83] == 110 && HUFFMAN_LENGTHS[83] == 7 && CODE_ORDER[55] == 84 && HUFFMAN_CODES[84] == 111 && HUFFMAN_LENGTHS[84] == 7 && SCALE[7] == 8388608);
        assert(hi(83) == 931135488) by (nonlinear_arith)
            requires
                HUFFMAN_CODES[83] == 110,
                HUFFMAN_LENGTHS[83] == 7,
                SCALE[7] == 8388608,
        ;
        assert(lo(84) == 931135488) by (nonlinear_arith)
            requires
                HUFFMAN_CODES[84] == 111,
                HUFFMAN_LENGTHS[84] == 7,
                SCALE[7] == 8388608,
        ;
    } else if i == 55 {
        assert(CODE_ORDER[55] == 84 && CODE_RANK[84] == 55 && HUFFMAN_CODES[84] == 111 && HUFFMAN_LENGTHS[84] == 7 && CODE_ORDER[56] == 85 && HUFFMAN_CODES[85] == 112 && HUFFMAN_LENGTHS[85] == 7 && SCALE[7] == 8388608);
        assert(hi(84) == 939524096) by (nonlinear_arith)
            requires
                HUFFMAN_CODES[84] == 111,
                HUFFMAN_LENGTHS[84] == 7,
                SCALE[7] == 8388608,
        ;
        assert(lo(85) == 939524096) by (nonlinear_arith)
            requires
                HUFFMAN_CODES[85] == 112,
                HUFFMAN_LENGTHS[85] == 7,
                SCALE[7] == 8388608,
        ;
    } else if i == 56 {
        assert(CODE_ORDER[56] == 85 && CODE_RANK[85] == 56 && HUFFMAN_CODES[85] == 112 && HUFFMAN_LENGTHS[85] == 7 && CODE_ORDER[57] == 86 && HUFFMAN_CODES[86] == 113 && HUFFMAN_LENGTHS[86] == 7 && SCALE[7] == 8388608);
        assert(hi(85) == 947912704) by (nonlinear_arith)
            requires
                HUFFMAN_CODES[85] == 112,
                HUFFMAN_LENGTHS[85] == 7,
                SCALE[7] == 8388608,
        ;
        assert(lo(86) == 947912704) by (nonlinear_arith)
            requires
                HUFFMAN_CODES[86] == 113,
                HUFFMAN_LENGTHS[86] == 7,
                SCALE[7] == 8388608,
        ;
    } else if i == 57 {
        assert(CODE_ORDER[57] == 86 && CODE_RANK[86] == 57 && HUFFMAN_CODES[86] == 113 && HUFFMAN_LENGTHS[86] == 7 && CODE_ORDER[58] == 87 && HUFFMAN_CODES[87] == 114 && HUFFMAN_LENGTHS[87] == 7 && SCALE[7] == 8388608);
        assert(hi(86) == 956301312) by (nonlinear_arith)
            requires
                HUFFMAN_CODES[86] == 113,
                HUFFMAN_LENGTHS[86] == 7,
                SCALE[7] == 8388608,
        ;
        assert(lo(87) == 956301312) by (nonlinear_arith)
            requires
                HUFFMAN_CODES[87] == 114,
                HUFFMAN_LENGTHS[87] == 7,
                SCALE[7] == 8388608,
        ;
    } else if i == 58 {
        assert(CODE_ORDER[58] == 87 && CODE_RANK[87] == 58 && HUFFMAN_CODES[87] == 114 && HUFFMAN_LENGTHS[87] == 7 && CODE_ORDER[59] == 89 && HUFFMAN_CODES[89] == 115 && HUFFMAN_LENGTHS[89] == 7 && SCALE[7] == 8388608);
        assert(hi(87) == 964689920) by (nonlinear_arith)
            requires
                HUFFMAN_CODES[87] == 114,
                HUFFMAN_LENGTHS[87] == 7,
                SCALE[7] == 8388608,
        ;
        assert(lo(89) == 964689920) by (nonlinear_arith)
            requires
                HUFFMAN_CODES[89] == 115,
                HUFFMAN_LENGTHS[89] == 7,
                SCALE[7] == 8388608,
        ;
    } else if i == 59 {
        assert(CODE_ORDER[59] == 89 && CODE_RANK[89] == 59 && HUFFMAN_CODES[89] == 115 && HUFFMAN_LENGTHS[89] == 7 && CODE_ORDER[60] == 106 && HUFFMAN_CODES[106] == 116 && HUFFMAN_LENGTHS[106] == 7 && SCALE[7] == 8388608);
        assert(hi(89) == 973078528) by (nonlinear_arith)
            requires
                HUFFMAN_CODES[89] == 115,
                HUFFMAN_LENGTHS[89] == 7,
                SCALE[7] == 8388608,
        ;
        assert(lo(106) == 973078528) by (nonlinear_arith)
            requires
                HUFFMAN_CODES[106] == 116,
                HUFFMAN_LENGTHS[106] == 7,
                SCALE[7] == 8388608,
        ;
    } else if i == 60 {
        assert(CODE_ORDER[60] == 106 && CODE_RANK[106] == 60 && HUFFMAN_CODES[106] == 116 && HUFFMAN_LENGTHS[106] == 7 && CODE_ORDER[61] == 107 && HUFFMAN_CODES[107] == 117 && HUFFMAN_LENGTHS[107] == 7 && SCALE[7] == 8388608);
        assert(hi(106) == 981467136) by (nonlinear_arith)
            requires
                HUFFMAN_CODES[106] == 116,
                HUFFMAN_LENGTHS[106] == 7,
                SCALE[7] == 8388608,
        ;
        assert(lo(107) == 981467136) by (nonlinear_arith)
            requires
                HUFFMAN_CODES[107] == 117,
                HUFFMAN_LENGTHS[107] == 7,
                SCALE[7] == 8388608,
        ;
    } else if i == 61 {
        assert(CODE_ORDER[61] == 107 && CODE_RANK[107] == 61 && HUFFMAN_CODES[107] == 117 && HUFFMAN_LENGTHS[107] == 7 && CODE_ORDER[62] == 113 && HUFFMAN_CODES[113] == 118 && HUFFMAN_LENGTHS[113] == 7 && SCALE[7] == 8388608);
        assert(hi(107) == 989855744) by (nonlinear_arith)
            requires
                HUFFMAN_CODES[107] == 117,
                HUFFMAN_LENGTHS[107] == 7,
                SCALE[7] == 8388608,
        ;
        assert(lo(113) == 989855744) by (nonlinear_arith)
            requires
                HUFFMAN_CODES[113] == 118,
                HUFFMAN_LENGTHS[113] == 7,
                SCALE[7] == 8388608,
        ;
    } else if i == 62 {
        assert(CODE_ORDER[62] == 113 && CODE_RANK[113] == 62 && HUFFMAN_CODES[113] == 118 && HUFFMAN_LENGTHS[113] == 7 && CODE_ORDER[63] == 118 && HUFFMAN_CODES[118] == 119 && HUFFMAN_LENGTHS[118] == 7 && SCALE[7] == 8388608);
        assert(hi(113) == 998244352) by (nonlinear_arith)
            requires
                HUFFMAN_CODES[113] == 118,
                HUFFMAN_LENGTHS[113] == 7,
                SCALE[7] == 8388608,
        ;
        assert(lo(118) == 998244352) by (nonlinear_arith)
            requires
                HUFFMAN_CODES[118] == 119,
                HUFFMAN_LENGTHS[118] == 7,
                SCALE[7] == 8388608,
        ;
    } else if i == 63 {
        assert(CODE_ORDER[63] == 118 && CODE_RANK[118] == 63 && HUFFMAN_CODES[118] == 119 && HUFFMAN_LENGTHS[118] == 7 && CODE_ORDER[64] == 119 && HUFFMAN_CODES[119] == 120 && HUFFMAN_LENGTHS[119] == 7 && SCALE[7] == 8388608);
        assert(hi(118) == 1006632960) by (nonlinear_arith)
            requires
                HUFFMAN_CODES[118] == 119,
                HUFFMAN_LENGTHS[118] == 7,
                SCALE[7] == 8388608,
        ;
        assert(lo(119) == 1006632960) by (nonlinear_arith)
            requires
                HUFFMAN_CODES[119] == 120,
                HUFFMAN_LENGTHS[119] == 7,
                SCALE[7] == 8388608,
        ;
    }
}

proof fn lemma_order_facts_64(i: int)
    requires
        64 <= i < 96,
    ensures
        CODE_ORDER[i] < 257,
        CODE_RANK[CODE_ORDER[i] as int] == i,
        i + 1 < 257 ==> hi(CODE_ORDER[i] as int) <= lo(CODE_ORDER[i + 1] as int),
{
    if i == 64 {
        assert(CODE_ORDER[64] == 119 && CODE_RANK[119] == 64 && HUFFMAN_CODES[119] == 120 && HUFFMAN_LENGTHS[119] == 7 && CODE_ORDER[65] == 120 && HUFFMAN_CODES[120] == 121 && HUFFMAN_LENGTHS[120] == 7 && SCALE[7] == 8388608);
        assert(hi(119) == 1015021568) by (nonlinear_arith)
            requires
                HUFFMAN_CODES[119] == 120,
                HUFFMAN_LENGTHS[119] == 7,
                SCALE[7] == 8388608,
        ;
        assert(lo(120) == 1015021568) by (nonlinear_arith)
            requires
                HUFFMAN_CODES[120] == 121,
                HUFFMAN_LENGTHS[120] == 7,
                SCALE[7] == 8388608,
        ;
    } else if i == 65 {
        assert(CODE_ORDER[65] == 120 && CODE_RANK[120] == 65 && HUFFMAN_CODES[120] == 121 && HUFFMAN_LENGTHS[120] == 7 && CODE_ORDER[66] == 121 && HUFFMAN_CODES[121] == 122 && HUFFMAN_LENGTHS[121] == 7 && SCALE[7] == 8388608);
        assert(hi(120) == 1023410176) by (nonlinear_arith)
            requires
                HUFFMAN_CODES[120] == 121,
                HUFFMAN_LENGTHS[120] == 7,
                SCALE[7] == 8388608,
        ;
        assert(lo(121) == 1023410176) by (nonlinear_arith)
            requires
                HUFFMAN_CODES[121] == 122,
                HUFFMAN_LENGTHS[121] == 7,
                SCALE[7] == 8388608,
        ;
    } else if i == 66 {
        assert(CODE_ORDER[66] == 121 && CODE_RANK[121] == 66 && HUFFMAN_CODES[121] == 122 && HUFFMAN_LENGTHS[121] == 7 && CODE_ORDER[67] == 122 && HUFFMAN_CODES[122] == 123 && HUFFMAN_LENGTHS[122] == 7 && SCALE[7] == 8388608);
        assert(hi(121) == 1031798784) by (nonlinear_arith)
            requires
                HUFFMAN_CODES[121] == 122,
                HUFFMAN_LENGTHS[121] == 7,
                SCALE[7] == 8388608,
        ;
        assert(lo(122) == 1031798784) by (nonlinear_arith)
            requires
                HUFFMAN_CODES[122] == 123,
                HUFFMAN_LENGTHS[122] == 7,
                SCALE[7] == 8388608,
        ;
    } else if i == 67 {
        assert(CODE_ORDER[67] == 122 && CODE_RANK[122] == 67 && HUFFMAN_CODES[122] == 123 && HUFFMAN_LENGTHS[122] == 7 && CODE_ORDER[68] == 38 && HUFFMAN_CODES[38] == 248 && HUFFMAN_LENGTHS[38] == 8 && SCALE[7] == 8388608 && SCALE[8] == 4194304);
        assert(hi(122) == 1040187392) by (nonlinear_arith)
            requires
                HUFFMAN_CODES[122] == 123,
                HUFFMAN_LENGTHS[122] == 7,
                SCALE[7] == 8388608,
        ;
        assert(lo(38) == 1040187392) by (nonlinear_arith)
            requires
                HUFFMAN_CODES[38] == 248,
                HUFFMAN_LENGTHS[38] == 8,
                SCALE[8] == 4194304,
        ;
    } else if i == 68 {
        assert(CODE_ORDER[68] == 38 && CODE_RANK[38] == 68 && HUFFMAN_CODES[38] == 248 && HUFFMAN_LENGTHS[38] == 8 && CODE_ORDER[69] == 42 && HUFFMAN_CODES[42] == 249 && HUFFMAN_LENGTHS[42] == 8 && SCALE[8] == 4194304);
        assert(hi(38) == 1044381696) by (nonlinear_arith)
            requires
                HUFFMAN_CODES[38] == 248,
                HUFFMAN_LENGTHS[38] == 8,
                SCALE[8] == 4194304,
        ;
        assert(lo(42) == 1044381696) by (nonlinear_arith)
            requires
                HUFFMAN_CODES[42] == 249,
                HUFFMAN_LENGTHS[42] == 8,
                SCALE[8] == 4194304,
        ;
    } else if i == 69 {
        assert(CODE_ORDER[69] == 42 && CODE_RANK[42] == 69 && HUFFMAN_CODES[42] == 249 && HUFFMAN_LENGTHS[42] == 8 && CODE_ORDER[70] == 44 && HUFFMAN_CODES[44] == 250 && HUFFMAN_LENGTHS[44] == 8 && SCALE[8] == 4194304);
        assert(hi(42) == 1048576000) by (nonlinear_arith)
            requires
                HUFFMAN_CODES[42] == 249,
                HUFFMAN_LENGTHS[42] == 8,
                SCALE[8] == 4194304,
        ;
        assert(lo(44) == 1048576000) by (nonlinear_arith)
            requires
                HUFFMAN_CODES[44] == 250,
                HUFFMAN_LENGTHS[44] == 8,
                SCALE[8] == 4194304,
        ;
    } else if i == 70 {
        assert(CODE_ORDER[70] == 44 && CODE_RANK[44] == 70 && HUFFMAN_CODES[44] == 250 && HUFFMAN_LENGTHS[44] == 8 && CODE_ORDER[71] == 59 && HUFFMAN_CODES[59] == 251 && HUFFMAN_LENGTHS[59] == 8 && SCALE[8] == 4194304);
        assert(hi(44) == 1052770304) by (nonlinear_arith)
            requires
                HUFFMAN_CODES[44] == 250,
                HUFFMAN_LENGTHS[44] == 8,
                SCALE[8] == 4194304,
        ;
        assert(lo(59) == 1052770304) by (nonlinear_arith)
            requires
                HUFFMAN_CODES[59] == 251,
                HUFFMAN_LENGTHS[59] == 8,
                SCALE[8] == 4194304,
        ;
    } else if i == 71 {
        assert(CODE_ORDER[71] == 59 && CODE_RANK[59] == 71 && HUFFMAN_CODES[59] == 251 && HUFFMAN_LENGTHS[59] == 8 && CODE_ORDER[72] == 88 && HUFFMAN_CODES[88] == 252 && HUFFMAN_LENGTHS[88] == 8 && SCALE[8] == 4194304);
        assert(hi(59) == 1056964608) by (nonlinear_arith)
            requires
                HUFFMAN_CODES[59] == 251,
                HUFFMAN_LENGTHS[59] == 8,
                SCALE[8] == 4194304,
        ;
        assert(lo(88) == 1056964608) by (nonlinear_arith)
            requires
                HUFFMAN_CODES[88] == 252,
                HUFFMAN_LENGTHS[88] == 8,
                SCALE[8] == 4194304,
        ;
    } else if i == 72 {
        assert(CODE_ORDER[72] == 88 && CODE_RANK[88] == 72 && HUFFMAN_CODES[88] == 252 && HUFFMAN_LENGTHS[88] == 8 && CODE_ORDER[73] == 90 && HUFFMAN_CODES[90] == 253 && HUFFMAN_LENGTHS[90] == 8 && SCALE[8] == 4194304);
        assert(hi(88) == 1061158912) by (nonlinear_arith)
            requires
                HUFFMAN_CODES[88] == 252,
                HUFFMAN_LENGTHS[88] == 8,
                SCALE[8] == 4194304,
        ;
        assert(lo(90) == 1061158912) by (nonlinear_arith)
            requires
                HUFFMAN_CODES[90] == 253,
                HUFFMAN_LENGTHS[90] == 8,
                SCALE[8] == 4194304,
        ;
    } else if i == 73 {
        assert(CODE_ORDER[73] == 90 && CODE_RANK[90] == 73 && HUFFMAN_CODES[90] == 253 && HUFFMAN_LENGTHS[90] == 8 && CODE_ORDER[74] == 33 && HUFFMAN_CODES[33] == 1016 && HUFFMAN_LENGTHS[33] == 10 && SCALE[10] == 1048576 && SCALE[8] == 4194304);
        assert(hi(90) == 1065353216) by (nonlinear_arith)
            requires
                HUFFMAN_CODES[90] == 253,
                HUFFMAN_LENGTHS[90] == 8,
                SCALE[8] == 4194304,
        ;
        assert(lo(33) == 1065353216) by (nonlinear_arith)
            requires
                HUFFMAN_CODES[33] == 1016,
                HUFFMAN_LENGTHS[33] == 10,
                SCALE[10] == 1048576,
        ;
    } else if i == 74 {
        assert(CODE_ORDER[74] == 33 && CODE_RANK[33] == 74 && HUFFMAN_CODES[33] == 1016 && HUFFMAN_LENGTHS[33] == 10 && CODE_ORDER[75] == 34 && HUFFMAN_CODES[34] == 1017 && HUFFMAN_LENGTHS[34] == 10 && SCALE[10] == 1048576);
        assert(hi(33) == 1066401792) by (nonlinear_arith)
            requires
                HUFFMAN_CODES[33] == 1016,
                HUFFMAN_LENGTHS[33] == 10,
                SCALE[10] == 1048576,
        ;
        assert(lo(34) == 1066401792) by (nonlinear_arith)
            requires
                HUFFMAN_CODES[34] == 1017,
                HUFFMAN_LENGTHS[34] == 10,
                SCALE[10] == 1048576,
        ;
    } else if i == 75 {
        assert(CODE_ORDER[75] == 34 && CODE_RANK[34] == 75 && HUFFMAN_CODES[34] == 1017 && HUFFMAN_LENGTHS[34] == 10 && CODE_ORDER[76] == 40 && HUFFMAN_CODES[40] == 1018 && HUFFMAN_LENGTHS[40] == 10 && SCALE[10] == 1048576);
        assert(hi(34) == 1067450368) by (nonlinear_arith)
            requires
                HUFFMAN_CODES[34] == 1017,
                HUFFMAN_LENGTHS[34] == 10,
                SCALE[10] == 1048576,
        ;
        assert(lo(40) == 1067450368) by (nonlinear_arith)
            requires
                HUFFMAN_CODES[40] == 1018,
                HUFFMAN_LENGTHS[40] == 10,
                SCALE[10] == 1048576,
        ;
    } else if i == 76 {
        assert(CODE_ORDER[76] == 40 && CODE_RANK[40] == 76 && HUFFMAN_CODES[40] == 1018 && HUFFMAN_LENGTHS[40] == 10 && CODE_ORDER[77] == 41 && HUFFMAN_CODES[41] == 1019 && HUFFMAN_LENGTHS[41] == 10 && SCALE[10] == 1048576);
        assert(hi(40) == 1068498944) by (nonlinear_arith)
            requires
                HUFFMAN_CODES[40] == 1018,
                HUFFMAN_LENGTHS[40] == 10,
                SCALE[10] == 1048576,
        ;
        assert(lo(41) == 1068498944) by (nonlinear_arith)
            requires
                HUFFMAN_CODES[41] == 1019,
                HUFFMAN_LENGTHS[41] == 10,
                SCALE[10] == 1048576,
        ;
    } else if i == 77 {
        assert(CODE_ORDER[77] == 41 && CODE_RANK[41] == 77 && HUFFMAN_CODES[41] == 1019 && HUFFMAN_LENGTHS[41] == 10 && CODE_ORDER[78] == 63 && HUFFMAN_CODES[63] == 1020 && HUFFMAN_LENGTHS[63] == 10 && SCALE[10] == 1048576);
        assert(hi(41) == 1069547520) by (nonlinear_arith)
            requires
                HUFFMAN_CODES[41] == 1019,
                HUFFMAN_LENGTHS[41] == 10,
                SCALE[10] == 1048576,
        ;
        assert(lo(63) == 1069547520) by (nonlinear_arith)
            requires
                HUFFMAN_CODES[63] == 1020,
                HUFFMAN_LENGTHS[63] == 10,
                SCALE[10] == 1048576,
        ;
    } else if i == 78 {
        assert(CODE_ORDER[78] == 63 && CODE_RANK[63] == 78 && HUFFMAN_CODES[63] == 1020 && HUFFMAN_LENGTHS[63] == 10 && CODE_ORDER[79] == 39 && HUFFMAN_CODES[39] == 2042 && HUFFMAN_LENGTHS[39] == 11 && SCALE[10] == 1048576 && SCALE[11] == 524288);
        assert(hi(63) == 1070596096) by (nonlinear_arith)
            requires
                HUFFMAN_CODES[63] == 1020,
                HUFFMAN_LENGTHS[63] == 10,
                SCALE[10] == 1048576,
        ;
        assert(lo(39) == 1070596096) by (nonlinear_arith)
            requires
                HUFFMAN_CODES[39] == 2042,
                HUFFMAN_LENGTHS[39] == 11,
                SCALE[11] == 524288,
        ;
    } else if i == 79 {
        assert(CODE_ORDER[79] == 39 && CODE_RANK[39] == 79 && HUFFMAN_CODES[39] == 2042 && HUFFMAN_LENGTHS[39] == 11 && CODE_ORDER[80] == 43 && HUFFMAN_CODES[43] == 2043 && HUFFMAN_LENGTHS[43] == 11 && SCALE[11] == 524288);
        assert(hi(39) == 1071120384) by (nonlinear_arith)
            requires
                HUFFMAN_CODES[39] == 2042,
                HUFFMAN_LENGTHS[39] == 11,
                SCALE[11] == 524288,
        ;
        assert(lo(43) == 1071120384) by (nonlinear_arith)
            requires
                HUFFMAN_CODES[43] == 2043,
                HUFFMAN_LENGTHS[43] == 11,
                SCALE[11] == 524288,
        ;
    } else if i == 80 {
        assert(CODE_ORDER[80] == 43 && CODE_RANK[43] == 80 && HUFFMAN_CODES[43] == 2043 && HUFFMAN_LENGTHS[43] == 11 && CODE_ORDER[81] == 124 && HUFFMAN_CODES[124] == 2044 && HUFFMAN_LENGTHS[124] == 11 && SCALE[11] == 524288);
        assert(hi(43) == 1071644672) by (nonlinear_arith)
            requires
                HUFFMAN_CODES[43] == 2043,
                HUFFMAN_LENGTHS[43] == 11,
                SCALE[11] == 524288,
        ;
        assert(lo(124) == 1071644672) by (nonlinear_arith)
            requires
                HUFFMAN_CODES[124] == 2044,
                HUFFMAN_LENGTHS[124] == 11,
                SCALE[11] == 524288,
        ;
    } else if i == 81 {
        assert(CODE_ORDER[81] == 124 && CODE_RANK[124] == 81 && HUFFMAN_CODES[124] == 2044 && HUFFMAN_LENGTHS[124] == 11 && CODE_ORDER[82] == 35 && HUFFMAN_CODES[35] == 4090 && HUFFMAN_LENGTHS[35] == 12 && SCALE[11] == 524288 && SCALE[12] == 262144);
        assert(hi(124) == 1072168960) by (nonlinear_arith)
            requires
                HUFFMAN_CODES[124] == 2044,
                HUFFMAN_LENGTHS[124] == 11,
                SCALE[11] == 524288,
        ;
        assert(lo(35) == 1072168960) by (nonlinear_arith)
            requires
                HUFFMAN_CODES[35] == 4090,
                HUFFMAN_LENGTHS[35] == 12,
                SCALE[12] == 262144,
        ;
    } else if i == 82 {
        assert(CODE_ORDER[82] == 35 && CODE_RANK[35] == 82 && HUFFMAN_CODES[35] == 4090 && HUFFMAN_LENGTHS[35] == 12 && CODE_ORDER[83] == 62 && HUFFMAN_CODES[62] == 4091 && HUFFMAN_LENGTHS[62] == 12 && SCALE[12] == 262144);
        assert(hi(35) == 1072431104) by (nonlinear_arith)
            requires
                HUFFMAN_CODES[35] == 4090,
                HUFFMAN_LENGTHS[35] == 12,
                SCALE[12] == 262144,
        ;
        assert(lo(62) == 1072431104) by (nonlinear_arith)
            requires
                HUFFMAN_CODES[62] == 4091,
                HUFFMAN_LENGTHS[62] == 12,
                SCALE[12] == 262144,
        ;
    } else if i == 83 {
        assert(CODE_ORDER[83] == 62 && CODE_RANK[62] == 83 && HUFFMAN_CODES[62] == 4091 && HUFFMAN_LENGTHS[62] == 12 && CODE_ORDER[84] == 0 && HUFFMAN_CODES[0] == 8184 && HUFFMAN_LENGTHS[0] == 13 && SCALE[12] == 262144 && SCALE[13] == 131072);
        assert(hi(62) == 1072693248) by (nonlinear_arith)
            requires
                HUFFMAN_CODES[62] == 4091,
                HUFFMAN_LENGTHS[62] == 12,
                SCALE[12] == 262144,
        ;
        assert(lo(0) == 1072693248) by (nonlinear_arith)
            requires
                HUFFMAN_CODES[0] == 8184,
                HUFFMAN_LENGTHS[0] == 13,
                SCALE[13] == 131072,
        ;
    } else if i == 84 {
        assert(CODE_ORDER[84] == 0 && CODE_RANK[0] == 84 && HUFFMAN_CODES[0] == 8184 && HUFFMAN_LENGTHS[0] == 13 && CODE_ORDER[85] == 36 && HUFFMAN_CODES[36] == 8185 && HUFFMAN_LENGTHS[36] == 13 && SCALE[13] == 131072);
        assert(hi(0) == 1072824320) by (nonlinear_arith)
            requires
                HUFFMAN_CODES[0] == 8184,
                HUFFMAN_LENGTHS[0] == 13,
                SCALE[13] == 131072,
        ;
        assert(lo(36) == 1072824320) by (nonlinear_arith)
            requires
                HUFFMAN_CODES[36] == 8185,
                HUFFMAN_LENGTHS[36] == 13,
                SCALE[13] == 131072,
        ;
    } else if i == 85 {
        assert(CODE_ORDER[85] == 36 && CODE_RANK[36] == 85 && HUFFMAN_CODES[36] == 8185 && HUFFMAN_LENGTHS[36] == 13 && CODE_ORDER[86] == 64 && HUFFMAN_CODES[64] == 8186 && HUFFMAN_LENGTHS[64] == 13 && SCALE[13] == 131072);
        assert(hi(36) == 1072955392) by (nonlinear_arith)
            requires
                HUFFMAN_CODES[36] == 8185,
                HUFFMAN_LENGTHS[36] == 13,
                SCALE[13] == 131072,
        ;
        assert(lo(64) == 1072955392) by (nonlinear_arith)
            requires
                HUFFMAN_CODES[64] == 8186,
                HUFFMAN_LENGTHS[64] == 13,
                SCALE[13] == 131072,
        ;
    } else if i == 86 {
        assert(CODE_ORDER[86] == 64 && CODE_RANK[64] == 86 && HUFFMAN_CODES[64] == 8186 && HUFFMAN_LENGTHS[64] == 13 && CODE_ORDER[87] == 91 && HUFFMAN_CODES[91] == 8187 && HUFFMAN_LENGTHS[91] == 13 && SCALE[13] == 131072);
        assert(hi(64) == 1073086464) by (nonlinear_arith)
            requires
                HUFFMAN_CODES[64] == 8186,
                HUFFMAN_LENGTHS[64] == 13,
                SCALE[13] == 131072,
        ;
        assert(lo(91) == 1073086464) by (nonlinear_arith)
            requires
                HUFFMAN_CODES[91] == 8187,
                HUFFMAN_LENGTHS[91] == 13,
                SCALE[13] == 131072,
        ;
    } else if i == 87 {
        assert(CODE_ORDER[87] == 91 && CODE_RANK[91] == 87 && HUFFMAN_CODES[91] == 8187 && HUFFMAN_LENGTHS[91] == 13 && CODE_ORDER[88] == 93 && HUFFMAN_CODES[93] == 8188 && HUFFMAN_LENGTHS[93] == 13 && SCALE[13] == 131072);
        assert(hi(91) == 1073217536) by (nonlinear_arith)
            requires
                HUFFMAN_CODES[91] == 8187,
                HUFFMAN_LENGTHS[91] == 13,
                SCALE[13] == 131072,
        ;
        assert(lo(93) == 1073217536) by (nonlinear_arith)
            requires
                HUFFMAN_CODES[93] == 8188,
                HUFFMAN_LENGTHS[93] == 13,
                SCALE[13] == 131072,
        ;
    } else if i == 88 {
        assert(CODE_ORDER[88] == 93 && CODE_RANK[93] == 88 && HUFFMAN_CODES[93] == 8188 && HUFFMAN_LENGTHS[93] == 13 && CODE_ORDER[89] == 126 && HUFFMAN_CODES[126] == 8189 && HUFFMAN_LENGTHS[126] == 13 && SCALE[13] == 131072);
        assert(hi(93) == 1073348608) by (nonlinear_arith)
            requires
                HUFFMAN_CODES[93] == 8188,
                HUFFMAN_LENGTHS[93] == 13,
                SCALE[13] == 131072,
        ;
        assert(lo(126) == 1073348608) by (nonlinear_arith)
            requires
                HUFFMAN_CODES[126] == 8189,
                HUFFMAN_LENGTHS[126] == 13,
                SCALE[13] == 131072,
        ;
    } else if i == 89 {
        assert(CODE_ORDER[89] == 126 && CODE_RANK[126] == 89 && HUFFMAN_CODES[126] == 8189 && HUFFMAN_LENGTHS[126] == 13 && CODE_ORDER[90] == 94 && HUFFMAN_CODES[94] == 16380 && HUFFMAN_LENGTHS[94] == 14 && SCALE[13] == 131072 && SCALE[14] == 65536);
        assert(hi(126) == 1073479680) by (nonlinear_arith)
            requires
                HUFFMAN_CODES[126] == 8189,
                HUFFMAN_LENGTHS[126] == 13,
                SCALE[13] == 131072,
        ;
        assert(lo(94) == 1073479680) by (nonlinear_arith)
            requires
                HUFFMAN_CODES[94] == 16380,
                HUFFMAN_LENGTHS[94] == 14,
                SCALE[14] == 65536,
        ;
    } else if i == 90 {
        assert(CODE_ORDER[90] == 94 && CODE_RANK[94] == 90 && HUFFMAN_CODES[94] == 16380 && HUFFMAN_LENGTHS[94] == 14 && CODE_ORDER[91] == 125 && HUFFMAN_CODES[125] == 16381 && HUFFMAN_LENGTHS[125] == 14 && SCALE[14] == 65536);
        assert(hi(94) == 1073545216) by (nonlinear_arith)
            requires
                HUFFMAN_CODES[94] == 16380,
                HUFFMAN_LENGTHS[94] == 14,
                SCALE[14] == 65536,
        ;
        assert(lo(125) == 1073545216) by (nonlinear_arith)
            requires
                HUFFMAN_CODES[125] == 16381,
                HUFFMAN_LENGTHS[125] == 14,
                SCALE[14] == 65536,
        ;
    } else if i == 91 {
        assert(CODE_ORDER[91] == 125 && CODE_RANK[125] == 91 && HUFFMAN_CODES[125] == 16381 && HUFFMAN_LENGTHS[125] == 14 && CODE_ORDER[92] == 60 && HUFFMAN_CODES[60] == 32764 && HUFFMAN_LENGTHS[60] == 15 && SCALE[14] == 65536 && SCALE[15] == 32768);
        assert(hi(125) == 1073610752) by (nonlinear_arith)
            requires
                HUFFMAN_CODES[125] == 16381,
                HUFFMAN_LENGTHS[125] == 14,
                SCALE[14] == 65536,
        ;
        assert(lo(60) == 1073610752) by (nonlinear_arith)
            requires
                HUFFMAN_CODES[60] == 32764,
                HUFFMAN_LENGTHS[60] == 15,
                SCALE[15] == 32768,
        ;
    } else if i == 92 {
        assert(CODE_ORDER[92] == 60 && CODE_RANK[60] == 92 && HUFFMAN_CODES[60] == 32764 && HUFFMAN_LENGTHS[60] == 15 && CODE_ORDER[93] == 96 && HUFFMAN_CODES[96] == 32765 && HUFFMAN_LENGTHS[96] == 15 && SCALE[15] == 32768);
        assert(hi(60) == 1073643520) by (nonlinear_arith)
            requires
                HUFFMAN_CODES[60] == 32764,
                HUFFMAN_LENGTHS[60] == 15,
                SCALE[15] == 32768,
        ;
        assert(lo(96) == 1073643520) by (nonlinear_arith)
            requires
                HUFFMAN_CODES[96] == 32765,
                HUFFMAN_LENGTHS[96] == 15,
                SCALE[15] == 32768,
        ;
    } else if i == 93 {
        assert(CODE_ORDER[93] == 96 && CODE_RANK[96] == 93 && HUFFMAN_CODES[96] == 32765 && HUFFMAN_LENGTHS[96] == 15 && CODE_ORDER[94] == 123 && HUFFMAN_CODES[123] == 32766 && HUFFMAN_LENGTHS[123] == 15 && SCALE[15] == 32768);
        assert(hi(96) == 1073676288) by (nonlinear_arith)
            requires
                HUFFMAN_CODES[96] == 32765,
                HUFFMAN_LENGTHS[96] == 15,
                SCALE[15] == 32768,
        ;
        assert(lo(123) == 1073676288) by (nonlinear_arith)
            requires
                HUFFMAN_CODES[123] == 32766,
                HUFFMAN_LENGTHS[123] == 15,
                SCALE[15] == 32768,
        ;
    } else if i == 94 {
        assert(CODE_ORDER[94] == 123 && CODE_RANK[123] == 94 && HUFFMAN_CODES[123] == 32766 && HUFFMAN_LENGTHS[123] == 15 && CODE_ORDER[95] == 92 && HUFFMAN_CODES[92] == 524272 && HUFFMAN_LENGTHS[92] == 19 && SCALE[15] == 32768 && SCALE[19] == 2048);
        assert(hi(123) == 1073709056) by (nonlinear_arith)
            requires
                HUFFMAN_CODES[123] == 32766,
                HUFFMAN_LENGTHS[123] == 15,
                SCALE[15] == 32768,
        ;
        assert(lo(92) == 1073709056) by (nonlinear_arith)
            requires
                HUFFMAN_CODES[92] == 524272,
                HUFFMAN_LENGTHS[92] == 19,
                SCALE[19] == 2048,
        ;
    } else if i == 95 {
        assert(CODE_ORDER[95] == 92 && CODE_RANK[92] == 95 && HUFFMAN_CODES[92] == 524272 && HUFFMAN_LENGTHS[92] == 19 && CODE_ORDER[96] == 195 && HUFFMAN_CODES[195] == 524273 && HUFFMAN_LENGTHS[195] == 19 && SCALE[19] == 2048);
        assert(hi(92) == 1073711104) by (nonlinear_arith)
            requires
                HUFFMAN_CODES[92] == 524272,
                HUFFMAN_LENGTHS[92] == 19,
                SCALE[19] == 2048,
        ;
        assert(lo(195) == 1073711104) by (nonlinear_arith)
            requires
                HUFFMAN_CODES[195] == 524273,
                HUFFMAN_LENGTHS[195] == 19,
                SCALE[19] == 2048,
        ;
    }
}

proof fn lemma_order_facts_96(i: int)
    requires
        96 <= i < 128,
    ensures
        CODE_ORDER[i] < 257,
        CODE_RANK[CODE_ORDER[i] as int] == i,
        i + 1 < 257 ==> hi(CODE_ORDER[i] as int) <= lo(CODE_ORDER[i + 1] as int),
{
    if i == 96 {
        assert(CODE_ORDER[96] == 195 && CODE_RANK[195] == 96 && HUFFMAN_CODES[195] == 524273 && HUFFMAN_LENGTHS[195] == 19 && CODE_ORDER[97] == 208 && HUFFMAN_CODES[208] == 524274 && HUFFMAN_LENGTHS[208] == 19 && SCALE[19] == 2048);
        assert(hi(195) == 1073713152) by (nonlinear_arith)
            requires
                HUFFMAN_CODES[195] == 524273,
                HUFFMAN_LENGTHS[195] == 19,
                SCALE[19] == 2048,
        ;
        assert(lo(208) == 1073713152) by (nonlinear_arith)
            requires
                HUFFMAN_CODES[208] == 524274,
                HUFFMAN_LENGTHS[208] == 19,
                SCALE[19] == 2048,
        ;
    } else if i == 97 {
        assert(CODE_ORDER[97] == 208 && CODE_RANK[208] == 97 && HUFFMAN_CODES[208] == 524274 && HUFFMAN_LENGTHS[208] == 19 && CODE_ORDER[98] == 128 && HUFFMAN_CODES[128] == 1048550 && HUFFMAN_LENGTHS[128] == 20 && SCALE[19] == 2048 && SCALE[20] == 1024);
        assert(hi(208) == 1073715200) by (nonlinear_arith)
            requires
                HUFFMAN_CODES[208] == 524274,
                HUFFMAN_LENGTHS[208] == 19,
                SCALE[19] == 2048,
        ;
        assert(lo(128) == 1073715200) by (nonlinear_arith)
            requires
                HUFFMAN_CODES[128] == 1048550,
                HUFFMAN_LENGTHS[128] == 20,
                SCALE[20] == 1024,
        ;
    } else if i == 98 {
        assert(CODE_ORDER[98] == 128 && CODE_RANK[128] == 98 && HUFFMAN_CODES[128] == 1048550 && HUFFMAN_LENGTHS[128] == 20 && CODE_ORDER[99] == 130 && HUFFMAN_CODES[130] == 1048551 && HUFFMAN_LENGTHS[130] == 20 && SCALE[20] == 1024);
        assert(hi(128) == 1073716224) by (nonlinear_arith)
            requires
                HUFFMAN_CODES[128] == 1048550,
                HUFFMAN_LENGTHS[128] == 20,
                SCALE[20] == 1024,
        ;
        assert(lo(130) == 1073716224) by (nonlinear_arith)
            requires
                HUFFMAN_CODES[130] == 1048551,
                HUFFMAN_LENGTHS[130] == 20,
                SCALE[20] == 1024,
        ;
    } else if i == 99 {
        assert(CODE_ORDER[99] == 130 && CODE_RANK[130] == 99 && HUFFMAN_CODES[130] == 1048551 && HUFFMAN_LENGTHS[130] == 20 && CODE_ORDER[100] == 131 && HUFFMAN_CODES[131] == 1048552 && HUFFMAN_LENGTHS[131] == 20 && SCALE[20] == 1024);
        assert(hi(130) == 1073717248) by (nonlinear_arith)
            requires
                HUFFMAN_CODES[130] == 1048551,
                HUFFMAN_LENGTHS[130] == 20,
                SCALE[20] == 1024,
        ;
        assert(lo(131) == 1073717248) by (nonlinear_arith)
            requires
                HUFFMAN_CODES[131] == 1048552,
                HUFFMAN_LENGTHS[131] == 20,
                SCALE[20] == 1024,
        ;
    } else if i == 100 {
        assert(CODE_ORDER[100] == 131 && CODE_RANK[131] == 100 && HUFFMAN_CODES[131] == 1048552 && HUFFMAN_LENGTHS[131] == 20 && CODE_ORDER[101] == 162 && HUFFMAN_CODES[162] == 1048553 && HUFFMAN_LENGTHS[162] == 20 && SCALE[20] == 1024);
        assert(hi(131) == 1073718272) by (nonlinear_arith)
            requires
                HUFFMAN_CODES[131] == 1048552,
                HUFFMAN_LENGTHS[131] == 20,
                SCALE[20] == 1024,
        ;
        assert(lo(162) == 1073718272) by (nonlinear_arith)
            requires
                HUFFMAN_CODES[162] == 1048553,
                HUFFMAN_LENGTHS[162] == 20,
                SCALE[20] == 1024,
        ;
    } else if i == 101 {
        assert(CODE_ORDER[101] == 162 && CODE_RANK[162] == 101 && HUFFMAN_CODES[162] == 1048553 && HUFFMAN_LENGTHS[162] == 20 && CODE_ORDER[102] == 184 && HUFFMAN_CODES[184] == 1048554 && HUFFMAN_LENGTHS[184] == 20 && SCALE[20] == 1024);
        assert(hi(162) == 1073719296) by (nonlinear_arith)
            requires
                HUFFMAN_CODES[162] == 1048553,
                HUFFMAN_LENGTHS[162] == 20,
                SCALE[20] == 1024,
        ;
        assert(lo(184) == 1073719296) by (nonlinear_arith)
            requires
                HUFFMAN_CODES[184] == 1048554,
                HUFFMAN_LENGTHS[184] == 20,
                SCALE[20] == 1024,
        ;
    } else if i == 102 {
        assert(CODE_ORDER[102] == 184 && CODE_RANK[184] == 102 && HUFFMAN_CODES[184] == 1048554 && HUFFMAN_LENGTHS[184] == 20 && CODE_ORDER[103] == 194 && HUFFMAN_CODES[194] == 1048555 && HUFFMAN_LENGTHS[194] == 20 && SCALE[20] == 1024);
        assert(hi(184) == 1073720320) by (nonlinear_arith)
            requires
                HUFFMAN_CODES[184] == 1048554,
                HUFFMAN_LENGTHS[184] == 20,
                SCALE[20] == 1024,
        ;
        assert(lo(194) == 1073720320) by (nonlinear_arith)
            requires
                HUFFMAN_CODES[194] == 1048555,
                HUFFMAN_LENGTHS[194] == 20,
                SCALE[20] == 1024,
        ;
    } else if i == 103 {
        assert(CODE_ORDER[103] == 194 && CODE_RANK[194] == 103 && HUFFMAN_CODES[194] == 1048555 && HUFFMAN_LENGTHS[194] == 20 && CODE_ORDER[104] == 224 && HUFFMAN_CODES[224] == 1048556 && HUFFMAN_LENGTHS[224] == 20 && SCALE[20] == 1024);
        assert(hi(194) == 1073721344) by (nonlinear_arith)
            requires
                HUFFMAN_CODES[194] == 1048555,
                HUFFMAN_LENGTHS[194] == 20,
                SCALE[20] == 1024,
        ;
        assert(lo(224) == 1073721344) by (nonlinear_arith)
            requires
                HUFFMAN_CODES[224] == 1048556,
                HUFFMAN_LENGTHS[224] == 20,
                SCALE[20] == 1024,
        ;
    } else if i == 104 {
        assert(CODE_ORDER[104] == 224 && CODE_RANK[224] == 104 && HUFFMAN_CODES[224] == 1048556 && HUFFMAN_LENGTHS[224] == 20 && CODE_ORDER[105] == 226 && HUFFMAN_CODES[226] == 1048557 && HUFFMAN_LENGTHS[226] == 20 && SCALE[20] == 1024);
        assert(hi(224) == 1073722368) by (nonlinear_arith)
            requires
                HUFFMAN_CODES[224] == 1048556,
                HUFFMAN_LENGTHS[224] == 20,
                SCALE[20] == 1024,
        ;
        assert(lo(226) == 1073722368) by (nonlinear_arith)
            requires
                HUFFMAN_CODES[226] == 1048557,
                HUFFMAN_LENGTHS[226] == 20,
                SCALE[20] == 1024,
        ;
    } else if i == 105 {
        assert(CODE_ORDER[105] == 226 && CODE_RANK[226] == 105 && HUFFMAN_CODES[226] == 1048557 && HUFFMAN_LENGTHS[226] == 20 && CODE_ORDER[106] == 153 && HUFFMAN_CODES[153] == 2097116 && HUFFMAN_LENGTHS[153] == 21 && SCALE[20] == 1024 && SCALE[21] == 512);
        assert(hi(226) == 1073723392) by (nonlinear_arith)
            requires
                HUFFMAN_CODES[226] == 1048557,
                HUFFMAN_LENGTHS[226] == 20,
                SCALE[20] == 1024,
        ;
        assert(lo(153) == 1073723392) by (nonlinear_arith)
            requires
                HUFFMAN_CODES[153] == 2097116,
                HUFFMAN_LENGTHS[153] == 21,
                SCALE[21] == 512,
        ;
    } else if i == 106 {
        assert(CODE_ORDER[106] == 153 && CODE_RANK[153] == 106 && HUFFMAN_CODES[153] == 2097116 && HUFFMAN_LENGTHS[153] == 21 && CODE_ORDER[107] == 161 && HUFFMAN_CODES[161] == 2097117 && HUFFMAN_LENGTHS[161] == 21 && SCALE[21] == 512);
        assert(hi(153) == 1073723904) by (nonlinear_arith)
            requires
                HUFFMAN_CODES[153] == 2097116,
                HUFFMAN_LENGTHS[153] == 21,
                SCALE[21] == 512,
        ;
        assert(lo(161) == 1073723904) by (nonlinear_arith)
            requires
                HUFFMAN_CODES[161] == 2097117,
                HUFFMAN_LENGTHS[161] == 21,
                SCALE[21] == 512,
        ;
    } else if i == 107 {
        assert(CODE_ORDER[107] == 161 && CODE_RANK[161] == 107 && HUFFMAN_CODES[161] == 2097117 && HUFFMAN_LENGTHS[161] == 21 && CODE_ORDER[108] == 167 && HUFFMAN_CODES[167] == 2097118 && HUFFMAN_LENGTHS[167] == 21 && SCALE[21] == 512);
        assert(hi(161) == 1073724416) by (nonlinear_arith)
            requires
                HUFFMAN_CODES[161] == 2097117,
                HUFFMAN_LENGTHS[161] == 21,
                SCALE[21] == 512,
        ;
        assert(lo(167) == 1073724416) by (nonlinear_arith)
            requires
                HUFFMAN_CODES[167] == 2097118,
                HUFFMAN_LENGTHS[167] == 21,
                SCALE[21] == 512,
        ;
    } else if i == 108 {
        assert(CODE_ORDER[108] == 167 && CODE_RANK[167] == 108 && HUFFMAN_CODES[167] == 2097118 && HUFFMAN_LENGTHS[167] == 21 && CODE_ORDER[109] == 172 && HUFFMAN_CODES[172] == 2097119 && HUFFMAN_LENGTHS[172] == 21 && SCALE[21] == 512);
        assert(hi(167) == 1073724928) by (nonlinear_arith)
            requires
                HUFFMAN_CODES[167] == 2097118,
                HUFFMAN_LENGTHS[167] == 21,
                SCALE[21] == 512,
        ;
        assert(lo(172) == 1073724928) by (nonlinear_arith)
            requires
                HUFFMAN_CODES[172] == 2097119,
                HUFFMAN_LENGTHS[172] == 21,
                SCALE[21] == 512,
        ;
    } else if i == 109 {
        assert(CODE_ORDER[109] == 172 && CODE_RANK[172] == 109 && HUFFMAN_CODES[172] == 2097119 && HUFFMAN_LENGTHS[172] == 21 && CODE_ORDER[110] == 176 && HUFFMAN_CODES[176] == 2097120 && HUFFMAN_LENGTHS[176] == 21 && SCALE[21] == 512);
        assert(hi(172) == 1073725440) by (nonlinear_arith)
            requires
                HUFFMAN_CODES[172] == 2097119,
                HUFFMAN_LENGTHS[172] == 21,
                SCALE[21] == 512,
        ;
        assert(lo(176) == 1073725440) by (nonlinear_arith)
            requires
                HUFFMAN_CODES[176] == 2097120,
                HUFFMAN_LENGTHS[176] == 21,
                SCALE[21] == 512,
        ;
    } else if i == 110 {
        assert(CODE_ORDER[110] == 176 && CODE_RANK[176] == 110 && HUFFMAN_CODES[176] == 2097120 && HUFFMAN_LENGTHS[176] == 21 && CODE_ORDER[111] == 177 && HUFFMAN_CODES[177] == 2097121 && HUFFMAN_LENGTHS[177] == 21 && SCALE[21] == 512);
        assert(hi(176) == 1073725952) by (nonlinear_arith)
            requires
                HUFFMAN_CODES[176] == 2097120,
                HUFFMAN_LENGTHS[176] == 21,
                SCALE[21] == 512,
        ;
        assert(lo(177) == 1073725952) by (nonlinear_arith)
            requires
                HUFFMAN_CODES[177] == 2097121,
                HUFFMAN_LENGTHS[177] == 21,
                SCALE[21] == 512,
        ;
    } else if i == 111 {
        assert(CODE_ORDER[111] == 177 && CODE_RANK[177] == 111 && HUFFMAN_CODES[177] == 2097121 && HUFFMAN_LENGTHS[177] == 21 && CODE_ORDER[112] == 179 && HUFFMAN_CODES[179] == 2097122 && HUFFMAN_LENGTHS[179] == 21 && SCALE[21] == 512);
        assert(hi(177) == 1073726464) by (nonlinear_arith)
            requires
                HUFFMAN_CODES[177] == 2097121,
                HUFFMAN_LENGTHS[177] == 21,
                SCALE[21] == 512,
        ;
        assert(lo(179) == 1073726464) by (nonlinear_arith)
            requires
                HUFFMAN_CODES[179] == 2097122,
                HUFFMAN_LENGTHS[179] == 21,
                SCALE[21] == 512,
        ;
    } else if i == 112 {
        assert(CODE_ORDER[112] == 179 && CODE_RANK[179] == 112 && HUFFMAN_CODES[179] == 2097122 && HUFFMAN_LENGTHS[179] == 21 && CODE_ORDER[113] == 209 && HUFFMAN_CODES[209] == 2097123 && HUFFMAN_LENGTHS[209] == 21 && SCALE[21] == 512);
        assert(hi(179) == 1073726976) by (nonlinear_arith)
            requires
                HUFFMAN_CODES[179] == 2097122,
                HUFFMAN_LENGTHS[179] == 21,
                SCALE[21] == 512,
        ;
        assert(lo(209) == 1073726976) by (nonlinear_arith)
            requires
                HUFFMAN_CODES[209] == 2097123,
                HUFFMAN_LENGTHS[209] == 21,
                SCALE[21] == 512,
        ;
    } else if i == 113 {
        assert(CODE_ORDER[113] == 209 && CODE_RANK[209] == 113 && HUFFMAN_CODES[209] == 2097123 && HUFFMAN_LENGTHS[209] == 21 && CODE_ORDER[114] == 216 && HUFFMAN_CODES[216] == 2097124 && HUFFMAN_LENGTHS[216] == 21 && SCALE[21] == 512);
        assert(hi(209) == 1073727488) by (nonlinear_arith)
            requires
                HUFFMAN_CODES[209] == 2097123,
                HUFFMAN_LENGTHS[209] == 21,
                SCALE[21] == 512,
        ;
        assert(lo(216) == 1073727488) by (nonlinear_arith)
            requires
                HUFFMAN_CODES[216] == 2097124,
                HUFFMAN_LENGTHS[216] == 21,
                SCALE[21] == 512,
        ;
    } else if i == 114 {
        assert(CODE_ORDER[114] == 216 && CODE_RANK[216] == 114 && HUFFMAN_CODES[216] == 2097124 && HUFFMAN_LENGTHS[216] == 21 && CODE_ORDER[115] == 217 && HUFFMAN_CODES[217] == 2097125 && HUFFMAN_LENGTHS[217] == 21 && SCALE[21] == 512);
        assert(hi(216) == 1073728000) by (nonlinear_arith)
            requires
                HUFFMAN_CODES[216] == 2097124,
                HUFFMAN_LENGTHS[216] == 21,
                SCALE[21] == 512,
        ;
        assert(lo(217) == 1073728000) by (nonlinear_arith)
            requires
                HUFFMAN_CODES[217] == 2097125,
                HUFFMAN_LENGTHS[217] == 21,
                SCALE[21] == 512,
        ;
    } else if i == 115 {
        assert(CODE_ORDER[115] == 217 && CODE_RANK[217] == 115 && HUFFMAN_CODES[217] == 2097125 && HUFFMAN_LENGTHS[217] == 21 && CODE_ORDER[116] == 227 && HUFFMAN_CODES[227] == 2097126 && HUFFMAN_LENGTHS[227] == 21 && SCALE[21] == 512);
        assert(hi(217) == 1073728512) by (nonlinear_arith)
            requires
                HUFFMAN_CODES[217] == 2097125,
                HUFFMAN_LENGTHS[217] == 21,
                SCALE[21] == 512,
        ;
        assert(lo(227) == 1073728512) by (nonlinear_arith)
            requires
                HUFFMAN_CODES[227] == 2097126,
                HUFFMAN_LENGTHS[227] == 21,
                SCALE[21] == 512,
        ;
    } else if i == 116 {
        assert(CODE_ORDER[116] == 227 && CODE_RANK[227] == 116 && HUFFMAN_CODES[227] == 2097126 && HUFFMAN_LENGTHS[227] == 21 && CODE_ORDER[117] == 229 && HUFFMAN_CODES[229] == 2097127 && HUFFMAN_LENGTHS[229] == 21 && SCALE[21] == 512);
        assert(hi(227) == 1073729024) by (nonlinear_arith)
            requires
                HUFFMAN_CODES[227] == 2097126,
                HUFFMAN_LENGTHS[227] == 21,
                SCALE[21] == 512,
        ;
        assert(lo(229) == 1073729024) by (nonlinear_arith)
            requires
                HUFFMAN_CODES[229] == 2097127,
                HUFFMAN_LENGTHS[229] == 21,
                SCALE[21] == 512,
        ;
    } else if i == 117 {
        assert(CODE_ORDER[117] == 229 && CODE_RANK[229] == 117 && HUFFMAN_CODES[229] == 2097127 && HUFFMAN_LENGTHS[229] == 21 && CODE_ORDER[118] == 230 && HUFFMAN_CODES[230] == 2097128 && HUFFMAN_LENGTHS[230] == 21 && SCALE[21] == 512);
        assert(hi(229) == 1073729536) by (nonlinear_arith)
            requires
                HUFFMAN_CODES[229] == 2097127,
                HUFFMAN_LENGTHS[229] == 21,
                SCALE[21] == 512,
        ;
        assert(lo(230) == 1073729536) by (nonlinear_arith)
            requires
                HUFFMAN_CODES[230] == 2097128,
                HUFFMAN_LENGTHS[230] == 21,
                SCALE[21] == 512,
        ;
    } else if i == 118 {
        assert(CODE_ORDER[118] == 230 && CODE_RANK[230] == 118 && HUFFMAN_CODES[230] == 2097128 && HUFFMAN_LENGTHS[230] == 21 && CODE_ORDER[119] == 129 && HUFFMAN_CODES[129] == 4194258 && HUFFMAN_LENGTHS[129] == 22 && SCALE[21] == 512 && SCALE[22] == 256);
        assert(hi(230) == 1073730048) by (nonlinear_arith)
            requires
                HUFFMAN_CODES[230] == 2097128,
                HUFFMAN_LENGTHS[230] == 21,
                SCALE[21] == 512,
        ;
        assert(lo(129) == 1073730048) by (nonlinear_arith)
            requires
                HUFFMAN_CODES[129] == 4194258,
                HUFFMAN_LENGTHS[129] == 22,
                SCALE[22] == 256,
        ;
    } else if i == 119 {
        assert(CODE_ORDER[119] == 129 && CODE_RANK[129] == 119 && HUFFMAN_CODES[129] == 4194258 && HUFFMAN_LENGTHS[129] == 22 && CODE_ORDER[120] == 132 && HUFFMAN_CODES[132] == 4194259 && HUFFMAN_LENGTHS[132] == 22 && SCALE[22] == 256);
        assert(hi(129) == 1073730304) by (nonlinear_arith)
            requires
                HUFFMAN_CODES[129] == 4194258,
                HUFFMAN_LENGTHS[129] == 22,
                SCALE[22] == 256,
        ;
        assert(lo(132) == 1073730304) by (nonlinear_arith)
            requires
                HUFFMAN_CODES[132] == 4194259,
                HUFFMAN_LENGTHS[132] == 22,
                SCALE[22] == 256,
        ;
    } else if i == 120 {
        assert(CODE_ORDER[120] == 132 && CODE_RANK[132] == 120 && HUFFMAN_CODES[132] == 4194259 && HUFFMAN_LENGTHS[132] == 22 && CODE_ORDER[121] == 133 && HUFFMAN_CODES[133] == 4194260 && HUFFMAN_LENGTHS[133] == 22 && SCALE[22] == 256);
        assert(hi(132) == 1073730560) by (nonlinear_arith)
            requires
                HUFFMAN_CODES[132] == 4194259,
                HUFFMAN_LENGTHS[132] == 22,
                SCALE[22] == 256,
        ;
        assert(lo(133) == 1073730560) by (nonlinear_arith)
            requires
                HUFFMAN_CODES[133] == 4194260,
                HUFFMAN_LENGTHS[133] == 22,
                SCALE[22] == 256,
        ;
    } else if i == 121 {
        assert(CODE_ORDER[121] == 133 && CODE_RANK[133] == 121 && HUFFMAN_CODES[133] == 4194260 && HUFFMAN_LENGTHS[133] == 22 && CODE_ORDER[122] == 134 && HUFFMAN_CODES[134] == 4194261 && HUFFMAN_LENGTHS[134] == 22 && SCALE[22] == 256);
        assert(hi(133) == 1073730816) by (nonlinear_arith)
            requires
                HUFFMAN_CODES[133] == 4194260,
                HUFFMAN_LENGTHS[133] == 22,
                SCALE[22] == 256,
        ;
        assert(lo(134) == 1073730816) by (nonlinear_arith)
            requires
                HUFFMAN_CODES[134] == 4194261,
                HUFFMAN_LENGTHS[134] == 22,
                SCALE[22] == 256,
        ;
    } else if i == 122 {
        assert(CODE_ORDER[122] == 134 && CODE_RANK[134] == 122 && HUFFMAN_CODES[134] == 4194261 && HUFFMAN_LENGTHS[134] == 22 && CODE_ORDER[123] == 136 && HUFFMAN_CODES[136] == 4194262 && HUFFMAN_LENGTHS[136] == 22 && SCALE[22] == 256);
        assert(hi(134) == 1073731072) by (nonlinear_arith)
            requires
                HUFFMAN_CODES[134] == 4194261,
                HUFFMAN_LENGTHS[134] == 22,
                SCALE[22] == 256,
        ;
        assert(lo(136) == 1073731072) by (nonlinear_arith)
            requires
                HUFFMAN_CODES[136] == 4194262,
                HUFFMAN_LENGTHS[136] == 22,
                SCALE[22] == 256,
        ;
    } else if i == 123 {
        assert(CODE_ORDER[123] == 136 && CODE_RANK[136] == 123 && HUFFMAN_CODES[136] == 4194262 && HUFFMAN_LENGTHS[136] == 22 && CODE_ORDER[124] == 146 && HUFFMAN_CODES[146] == 4194263 && HUFFMAN_LENGTHS[146] == 22 && SCALE[22] == 256);
        assert(hi(136) == 1073731328) by (nonlinear_arith)
            requires
                HUFFMAN_CODES[136] == 4194262,
                HUFFMAN_LENGTHS[136] == 22,
                SCALE[22] == 256,
        ;
        assert(lo(146) == 1073731328) by (nonlinear_arith)
            requires
                HUFFMAN_CODES[146] == 4194263,
                HUFFMAN_LENGTHS[146] == 22,
                SCALE[22] == 256,
        ;
    } else if i == 124 {
        assert(CODE_ORDER[124] == 146 && CODE_RANK[146] == 124 && HUFFMAN_CODES[146] == 4194263 && HUFFMAN_LENGTHS[146] == 22 && CODE_ORDER[125] == 154 && HUFFMAN_CODES[154] == 4194264 && HUFFMAN_LENGTHS[154] == 22 && SCALE[22] == 256);
        assert(hi(146) == 1073731584) by (nonlinear_arith)
            requires
                HUFFMAN_CODES[146] == 4194263,
                HUFFMAN_LENGTHS[146] == 22,
                SCALE[22] == 256,
        ;
        assert(lo(154) == 1073731584) by (nonlinear_arith)
            requires
                HUFFMAN_CODES[154] == 4194264,
                HUFFMAN_LENGTHS[154] == 22,
                SCALE[22] == 256,
        ;
    } else if i == 125 {
        assert(CODE_ORDER[125] == 154 && CODE_RANK[154] == 125 && HUFFMAN_CODES[154] == 4194264 && HUFFMAN_LENGTHS[154] == 22 && CODE_ORDER[126] == 156 && HUFFMAN_CODES[156] == 4194265 && HUFFMAN_LENGTHS[156] == 22 && SCALE[22] == 256);
        assert(hi(154) == 1073731840) by (nonlinear_arith)
            requires
                HUFFMAN_CODES[154] == 4194264,
                HUFFMAN_LENGTHS[154] == 22,
                SCALE[22] == 256,
        ;
        assert(lo(156) == 1073731840) by (nonlinear_arith)
            requires
                HUFFMAN_CODES[156] == 4194265,
                HUFFMAN_LENGTHS[156] == 22,
                SCALE[22] == 256,
        ;
    } else if i == 126 {
        assert(CODE_ORDER[126] == 156 && CODE_RANK[156] == 126 && HUFFMAN_CODES[156] == 4194265 && HUFFMAN_LENGTHS[156] == 22 && CODE_ORDER[127] == 160 && HUFFMAN_CODES[160] == 4194266 && HUFFMAN_LENGTHS[160] == 22 && SCALE[22] == 256);
        assert(hi(156) == 1073732096) by (nonlinear_arith)
            requires
                HUFFMAN_CODES[156] == 4194265,
                HUFFMAN_LENGTHS[156] == 22,
                SCALE[22] == 256,
        ;
        assert(lo(160) == 1073732096) by (nonlinear_arith)
            requires
                HUFFMAN_CODES[160] == 4194266,
                HUFFMAN_LENGTHS[160] == 22,
                SCALE[22] == 256,
        ;
    } else if i == 127 {
        assert(CODE_ORDER[127] == 160 && CODE_RANK[160] == 127 && HUFFMAN_CODES[160] == 4194266 && HUFFMAN_LENGTHS[160] == 22 && CODE_ORDER[128] == 163 && HUFFMAN_CODES[163] == 4194267 && HUFFMAN_LENGTHS[163] == 22 && SCALE[22] == 256);
        assert(hi(160) == 1073732352) by (nonlinear_arith)
            requires
                HUFFMAN_CODES[160] == 4194266,
                HUFFMAN_LENGTHS[160] == 22,
                SCALE[22] == 256,
        ;
        assert(lo(163) == 1073732352) by (nonlinear_arith)
            requires
                HUFFMAN_CODES[163] == 4194267,
                HUFFMAN_LENGTHS[163] == 22,
                SCALE[22] == 256,
        ;
    }
}

proof fn lemma_order_facts_128(i: int)
    requires
        128 <= i < 160,
    ensures
        CODE_ORDER[i] < 257,
        CODE_RANK[CODE_ORDER[i] as int] == i,
        i + 1 < 257 ==> hi(CODE_ORDER[i] as int) <= lo(CODE_ORDER[i + 1] as int),
{
    if i == 128 {
        assert(CODE_ORDER[128] == 163 && CODE_RANK[163] == 128 && HUFFMAN_CODES[163] == 4194267 && HUFFMAN_LENGTHS[163] == 22 && CODE_ORDER[129] == 164 && HUFFMAN_CODES[164] == 4194268 && HUFFMAN_LENGTHS[164] == 22 && SCALE[22] == 256);
        assert(hi(163) == 1073732608) by (nonlinear_arith)
            requires
                HUFFMAN_CODES[163] == 4194267,
                HUFFMAN_LENGTHS[163] == 22,
                SCALE[22] == 256,
        ;
        assert(lo(164) == 1073732608) by (nonlinear_arith)
            requires
                HUFFMAN_CODES[164] == 4194268,
                HUFFMAN_LENGTHS[164] == 22,
                SCALE[22] == 256,
        ;
    } else if i == 129 {
        assert(CODE_ORDER[129] == 164 && CODE_RANK[164] == 129 && HUFFMAN_CODES[164] == 4194268 && HUFFMAN_LENGTHS[164] == 22 && CODE_ORDER[130] == 169 && HUFFMAN_CODES[169] == 4194269 && HUFFMAN_LENGTHS[169] == 22 && SCALE[22] == 256);
        assert(hi(164) == 1073732864) by (nonlinear_arith)
            requires
                HUFFMAN_CODES[164] == 4194268,
                HUFFMAN_LENGTHS[164] == 22,
                SCALE[22] == 256,
        ;
        assert(lo(169) == 1073732864) by (nonlinear_arith)
            requires
                HUFFMAN_CODES[169] == 4194269,
                HUFFMAN_LENGTHS[169] == 22,
                SCALE[22] == 256,
        ;
    } else if i == 130 {
        assert(CODE_ORDER[130] == 169 && CODE_RANK[169] == 130 && HUFFMAN_CODES[169] == 4194269 && HUFFMAN_LENGTHS[169] == 22 && CODE_ORDER[131] == 170 && HUFFMAN_CODES[170] == 4194270 && HUFFMAN_LENGTHS[170] == 22 && SCALE[22] == 256);
        assert(hi(169) == 1073733120) by (nonlinear_arith)
            requires
                HUFFMAN_CODES[169] == 4194269,
                HUFFMAN_LENGTHS[169] == 22,
                SCALE[22] == 256,
        ;
        assert(lo(170) == 1073733120) by (nonlinear_arith)
            requires
                HUFFMAN_CODES[170] == 4194270,
                HUFFMAN_LENGTHS[170] == 22,
                SCALE[22] == 256,
        ;
    } else if i == 131 {
        assert(CODE_ORDER[131] == 170 && CODE_RANK[170] == 131 && HUFFMAN_CODES[170] == 4194270 && HUFFMAN_LENGTHS[170] == 22 && CODE_ORDER[132] == 173 && HUFFMAN_CODES[173] == 4194271 && HUFFMAN_LENGTHS[173] == 22 && SCALE[22] == 256);
        assert(hi(170) == 1073733376) by (nonlinear_arith)
            requires
                HUFFMAN_CODES[170] == 4194270,
                HUFFMAN_LENGTHS[170] == 22,
                SCALE[22] == 256,
        ;
        assert(lo(173) == 1073733376) by (nonlinear_arith)
            requires
                HUFFMAN_CODES[173] == 4194271,
                HUFFMAN_LENGTHS[173] == 22,
                SCALE[22] == 256,
        ;
    } else if i == 132 {
        assert(CODE_ORDER[132] == 173 && CODE_RANK[173] == 132 && HUFFMAN_CODES[173] == 4194271 && HUFFMAN_LENGTHS[173] == 22 && CODE_ORDER[133] == 178 && HUFFMAN_CODES[178] == 4194272 && HUFFMAN_LENGTHS[178] == 22 && SCALE[22] == 256);
        assert(hi(173) == 1073733632) by (nonlinear_arith)
            requires
                HUFFMAN_CODES[173] == 4194271,
                HUFFMAN_LENGTHS[173] == 22,
                SCALE[22] == 256,
        ;
        assert(lo(178) == 1073733632) by (nonlinear_arith)
            requires
                HUFFMAN_CODES[178] == 4194272,
                HUFFMAN_LENGTHS[178] == 22,
                SCALE[22] == 256,
        ;
    } else if i == 133 {
        assert(CODE_ORDER[133] == 178 && CODE_RANK[178] == 133 && HUFFMAN_CODES[178] == 4194272 && HUFFMAN_LENGTHS[178] == 22 && CODE_ORDER[134] == 181 && HUFFMAN_CODES[181] == 4194273 && HUFFMAN_LENGTHS[181] == 22 && SCALE[22] == 256);
        assert(hi(178) == 1073733888) by (nonlinear_arith)
            requires
                HUFFMAN_CODES[178] == 4194272,
                HUFFMAN_LENGTHS[178] == 22,
                SCALE[22] == 256,
        ;
        assert(lo(181) == 1073733888) by (nonlinear_arith)
            requires
                HUFFMAN_CODES[181] == 4194273,
                HUFFMAN_LENGTHS[181] == 22,
                SCALE[22] == 256,
        ;
    } else if i == 134 {
        assert(CODE_ORDER[134] == 181 && CODE_RANK[181] == 134 && HUFFMAN_CODES[181] == 4194273 && HUFFMAN_LENGTHS[181] == 22 && CODE_ORDER[135] == 185 && HUFFMAN_CODES[185] == 4194274 && HUFFMAN_LENGTHS[185] == 22 && SCALE[22] == 256);
        assert(hi(181) == 1073734144) by (nonlinear_arith)
            requires
                HUFFMAN_CODES[181] == 4194273,
                HUFFMAN_LENGTHS[181] == 22,
                SCALE[22] == 256,
        ;
        assert(lo(185) == 1073734144) by (nonlinear_arith)
            requires
                HUFFMAN_CODES[185] == 4194274,
                HUFFMAN_LENGTHS[185] == 22,
                SCALE[22] == 256,
        ;
    } else if i == 135 {
        assert(CODE_ORDER[135] == 185 && CODE_RANK[185] == 135 && HUFFMAN_CODES[185] == 4194274 && HUFFMAN_LENGTHS[185] == 22 && CODE_ORDER[136] == 186 && HUFFMAN_CODES[186] == 4194275 && HUFFMAN_LENGTHS[186] == 22 && SCALE[22] == 256);
        assert(hi(185) == 1073734400) by (nonlinear_arith)
            requires
                HUFFMAN_CODES[185] == 4194274,
                HUFFMAN_LENGTHS[185] == 22,
                SCALE[22] == 256,
        ;
        assert(lo(186) == 1073734400) by (nonlinear_arith)
            requires
                HUFFMAN_CODES[186] == 4194275,
                HUFFMAN_LENGTHS[186] == 22,
                SCALE[22] == 256,
        ;
    } else if i == 136 {
        assert(CODE_ORDER[136] == 186 && CODE_RANK[186] == 136 && HUFFMAN_CODES[186] == 4194275 && HUFFMAN_LENGTHS[186] == 22 && CODE_ORDER[137] == 187 && HUFFMAN_CODES[187] == 4194276 && HUFFMAN_LENGTHS[187] == 22 && SCALE[22] == 256);
        assert(hi(186) == 1073734656) by (nonlinear_arith)
            requires
                HUFFMAN_CODES[186] == 4194275,
                HUFFMAN_LENGTHS[186] == 22,
                SCALE[22] == 256,
        ;
        assert(lo(187) == 1073734656) by (nonlinear_arith)
            requires
                HUFFMAN_CODES[187] == 4194276,
                HUFFMAN_LENGTHS[187] == 22,
                SCALE[22] == 256,
        ;
    } else if i == 137 {
        assert(CODE_ORDER[137] == 187 && CODE_RANK[187] == 137 && HUFFMAN_CODES[187] == 4194276 && HUFFMAN_LENGTHS[187] == 22 && CODE_ORDER[138] == 189 && HUFFMAN_CODES[189] == 4194277 && HUFFMAN_LENGTHS[189] == 22 && SCALE[22] == 256);
        assert(hi(187) == 1073734912) by (nonlinear_arith)
            requires
                HUFFMAN_CODES[187] == 4194276,
                HUFFMAN_LENGTHS[187] == 22,
                SCALE[22] == 256,
        ;
        assert(lo(189) == 1073734912) by (nonlinear_arith)
            requires
                HUFFMAN_CODES[189] == 4194277,
                HUFFMAN_LENGTHS[189] == 22,
                SCALE[22] == 256,
        ;
    } else if i == 138 {
        assert(CODE_ORDER[138] == 189 && CODE_RANK[189] == 138 && HUFFMAN_CODES[189] == 4194277 && HUFFMAN_LENGTHS[189] == 22 && CODE_ORDER[139] == 190 && HUFFMAN_CODES[190] == 4194278 && HUFFMAN_LENGTHS[190] == 22 && SCALE[22] == 256);
        assert(hi(189) == 1073735168) by (nonlinear_arith)
            requires
                HUFFMAN_CODES[189] == 4194277,
                HUFFMAN_LENGTHS[189] == 22,
                SCALE[22] == 256,
        ;
        assert(lo(190) == 1073735168) by (nonlinear_arith)
            requires
                HUFFMAN_CODES[190] == 4194278,
                HUFFMAN_LENGTHS[190] == 22,
                SCALE[22] == 256,
        ;
    } else if i == 139 {
        assert(CODE_ORDER[139] == 190 && CODE_RANK[190] == 139 && HUFFMAN_CODES[190] == 4194278 && HUFFMAN_LENGTHS[190] == 22 && CODE_ORDER[140] == 196 && HUFFMAN_CODES[196] == 4194279 && HUFFMAN_LENGTHS[196] == 22 && SCALE[22] == 256);
        assert(hi(190) == 1073735424) by (nonlinear_arith)
            requires
                HUFFMAN_CODES[190] == 4194278,
                HUFFMAN_LENGTHS[190] == 22,
                SCALE[22] == 256,
        ;
        assert(lo(196) == 1073735424) by (nonlinear_arith)
            requires
                HUFFMAN_CODES[196] == 4194279,
                HUFFMAN_LENGTHS[196] == 22,
                SCALE[22] == 256,
        ;
    } else if i == 140 {
        assert(CODE_ORDER[140] == 196 && CODE_RANK[196] == 140 && HUFFMAN_CODES[196] == 4194279 && HUFFMAN_LENGTHS[196] == 22 && CODE_ORDER[141] == 198 && HUFFMAN_CODES[198] == 4194280 && HUFFMAN_LENGTHS[198] == 22 && SCALE[22] == 256);
        assert(hi(196) == 1073735680) by (nonlinear_arith)
            requires
                HUFFMAN_CODES[196] == 4194279,
                HUFFMAN_LENGTHS[196] == 22,
                SCALE[22] == 256,
        ;
        assert(lo(198) == 1073735680) by (nonlinear_arith)
            requires
                HUFFMAN_CODES[198] == 4194280,
                HUFFMAN_LENGTHS[198] == 22,
                SCALE[22] == 256,
        ;
    } else if i == 141 {
        assert(CODE_ORDER[141] == 198 && CODE_RANK[198] == 141 && HUFFMAN_CODES[198] == 4194280 && HUFFMAN_LENGTHS[198] == 22 && CODE_ORDER[142] == 228 && HUFFMAN_CODES[228] == 4194281 && HUFFMAN_LENGTHS[228] == 22 && SCALE[22] == 256);
        assert(hi(198) == 1073735936) by (nonlinear_arith)
            requires
                HUFFMAN_CODES[198] == 4194280,
                HUFFMAN_LENGTHS[198] == 22,
                SCALE[22] == 256,
        ;
        assert(lo(228) == 1073735936) by (nonlinear_arith)
            requires
                HUFFMAN_CODES[228] == 4194281,
                HUFFMAN_LENGTHS[228] == 22,
                SCALE[22] == 256,
        ;
    } else if i == 142 {
        assert(CODE_ORDER[142] == 228 && CODE_RANK[228] == 142 && HUFFMAN_CODES[228] == 4194281 && HUFFMAN_LENGTHS[228] == 22 && CODE_ORDER[143] == 232 && HUFFMAN_CODES[232] == 4194282 && HUFFMAN_LENGTHS[232] == 22 && SCALE[22] == 256);
        assert(hi(228) == 1073736192) by (nonlinear_arith)
            requires
                HUFFMAN_CODES[228] == 4194281,
                HUFFMAN_LENGTHS[228] == 22,
                SCALE[22] == 256,
        ;
        assert(lo(232) == 1073736192) by (nonlinear_arith)
            requires
                HUFFMAN_CODES[232] == 4194282,
                HUFFMAN_LENGTHS[232] == 22,
                SCALE[22] == 256,
        ;
    } else if i == 143 {
        assert(CODE_ORDER[143] == 232 && CODE_RANK[232] == 143 && HUFFMAN_CODES[232] == 4194282 && HUFFMAN_LENGTHS[232] == 22 && CODE_ORDER[144] == 233 && HUFFMAN_CODES[233] == 4194283 && HUFFMAN_LENGTHS[233] == 22 && SCALE[22] == 256);
        assert(hi(232) == 1073736448) by (nonlinear_arith)
            requires
                HUFFMAN_CODES[232] == 4194282,
                HUFFMAN_LENGTHS[232] == 22,
                SCALE[22] == 256,
        ;
        assert(lo(233) == 1073736448) by (nonlinear_arith)
            requires
                HUFFMAN_CODES[233] == 4194283,
                HUFFMAN_LENGTHS[233] == 22,
                SCALE[22] == 256,
        ;
    } else if i == 144 {
        assert(CODE_ORDER[144] == 233 && CODE_RANK[233] == 144 && HUFFMAN_CODES[233] == 4194283 && HUFFMAN_LENGTHS[233] == 22 && CODE_ORDER[145] == 1 && HUFFMAN_CODES[1] == 8388568 && HUFFMAN_LENGTHS[1] == 23 && SCALE[22] == 256 && SCALE[23] == 128);
        assert(hi(233) == 1073736704) by (nonlinear_arith)
            requires
                HUFFMAN_CODES[233] == 4194283,
                HUFFMAN_LENGTHS[233] == 22,
                SCALE[22] == 256,
        ;
        assert(lo(1) == 1073736704) by (nonlinear_arith)
            requires
                HUFFMAN_CODES[1] == 8388568,
                HUFFMAN_LENGTHS[1] == 23,
                SCALE[23] == 128,
        ;
    } else if i == 145 {
        assert(CODE_ORDER[145] == 1 && CODE_RANK[1] == 145 && HUFFMAN_CODES[1] == 8388568 && HUFFMAN_LENGTHS[1] == 23 && CODE_ORDER[146] == 135 && HUFFMAN_CODES[135] == 8388569 && HUFFMAN_LENGTHS[135] == 23 && SCALE[23] == 128);
        assert(hi(1) == 1073736832) by (nonlinear_arith)
            requires
                HUFFMAN_CODES[1] == 8388568,
                HUFFMAN_LENGTHS[1] == 23,
                SCALE[23] == 128,
        ;
        assert(lo(135) == 1073736832) by (nonlinear_arith)
            requires
                HUFFMAN_CODES[135] == 8388569,
                HUFFMAN_LENGTHS[135] == 23,
                SCALE[23] == 128,
        ;
    } else if i == 146 {
        assert(CODE_ORDER[146] == 135 && CODE_RANK[135] == 146 && HUFFMAN_CODES[135] == 8388569 && HUFFMAN_LENGTHS[135] == 23 && CODE_ORDER[147] == 137 && HUFFMAN_CODES[137] == 8388570 && HUFFMAN_LENGTHS[137] == 23 && SCALE[23] == 128);
        assert(hi(135) == 1073736960) by (nonlinear_arith)
            requires
                HUFFMAN_CODES[135] == 8388569,
                HUFFMAN_LENGTHS[135] == 23,
                SCALE[23] == 128,
        ;
        assert(lo(137) == 1073736960) by (nonlinear_arith)
            requires
                HUFFMAN_CODES[137] == 8388570,
                HUFFMAN_LENGTHS[137] == 23,
                SCALE[23] == 128,
        ;
    } else if i == 147 {
        assert(CODE_ORDER[147] == 137 && CODE_RANK[137] == 147 && HUFFMAN_CODES[137] == 8388570 && HUFFMAN_LENGTHS[137] == 23 && CODE_ORDER[148] == 138 && HUFFMAN_CODES[138] == 8388571 && HUFFMAN_LENGTHS[138] == 23 && SCALE[23] == 128);
        assert(hi(137) == 1073737088) by (nonlinear_arith)
            requires
                HUFFMAN_CODES[137] == 8388570,
                HUFFMAN_LENGTHS[137] == 23,
                SCALE[23] == 128,
        ;
        assert(lo(138) == 1073737088) by (nonlinear_arith)
            requires
                HUFFMAN_CODES[138] == 8388571,
                HUFFMAN_LENGTHS[138] == 23,
                SCALE[23] == 128,
        ;
    } else if i == 148 {
        assert(CODE_ORDER[148] == 138 && CODE_RANK[138] == 148 && HUFFMAN_CODES[138] == 8388571 && HUFFMAN_LENGTHS[138] == 23 && CODE_ORDER[149] == 139 && HUFFMAN_CODES[139] == 8388572 && HUFFMAN_LENGTHS[139] == 23 && SCALE[23] == 128);
        assert(hi(138) == 1073737216) by (nonlinear_arith)
            requires
                HUFFMAN_CODES[138] == 8388571,
                HUFFMAN_LENGTHS[138] == 23,
                SCALE[23] == 128,
        ;
        assert(lo(139) == 1073737216) by (nonlinear_arith)
            requires
                HUFFMAN_CODES[139] == 8388572,
                HUFFMAN_LENGTHS[139] == 23,
                SCALE[23] == 128,
        ;
    } else if i == 149 {
        assert(CODE_ORDER[149] == 139 && CODE_RANK[139] == 149 && HUFFMAN_CODES[139] == 8388572 && HUFFMAN_LENGTHS[139] == 23 && CODE_ORDER[150] == 140 && HUFFMAN_CODES[140] == 8388573 && HUFFMAN_LENGTHS[140] == 23 && SCALE[23] == 128);
        assert(hi(139) == 1073737344) by (nonlinear_arith)
            requires
                HUFFMAN_CODES[139] == 8388572,
                HUFFMAN_LENGTHS[139] == 23,
                SCALE[23] == 128,
        ;
        assert(lo(140) == 1073737344) by (nonlinear_arith)
            requires
                HUFFMAN_CODES[140] == 8388573,
                HUFFMAN_LENGTHS[140] == 23,
                SCALE[23] == 128,
        ;
    } else if i == 150 {
        assert(CODE_ORDER[150] == 140 && CODE_RANK[140] == 150 && HUFFMAN_CODES[140] == 8388573 && HUFFMAN_LENGTHS[140] == 23 && CODE_ORDER[151] == 141 && HUFFMAN_CODES[141] == 8388574 && HUFFMAN_LENGTHS[141] == 23 && SCALE[23] == 128);
        assert(hi(140) == 1073737472) by (nonlinear_arith)
            requires
                HUFFMAN_CODES[140] == 8388573,
                HUFFMAN_LENGTHS[140] == 23,
                SCALE[23] == 128,
        ;
        assert(lo(141) == 1073737472) by (nonlinear_arith)
            requires
                HUFFMAN_CODES[141] == 8388574,
                HUFFMAN_LENGTHS[141] == 23,
                SCALE[23] == 128,
        ;
    } else if i == 151 {
        assert(CODE_ORDER[151] == 141 && CODE_RANK[141] == 151 && HUFFMAN_CODES[141] == 8388574 && HUFFMAN_LENGTHS[141] == 23 && CODE_ORDER[152] == 143 && HUFFMAN_CODES[143] == 8388575 && HUFFMAN_LENGTHS[143] == 23 && SCALE[23] == 128);
        assert(hi(141) == 1073737600) by (nonlinear_arith)
            requires
                HUFFMAN_CODES[141] == 8388574,
                HUFFMAN_LENGTHS[141] == 23,
                SCALE[23] == 128,
        ;
        assert(lo(143) == 1073737600) by (nonlinear_arith)
            requires
                HUFFMAN_CODES[143] == 8388575,
                HUFFMAN_LENGTHS[143] == 23,
                SCALE[23] == 128,
        ;
    } else if i == 152 {
        assert(CODE_ORDER[152] == 143 && CODE_RANK[143] == 152 && HUFFMAN_CODES[143] == 8388575 && HUFFMAN_LENGTHS[143] == 23 && CODE_ORDER[153] == 147 && HUFFMAN_CODES[147] == 8388576 && HUFFMAN_LENGTHS[147] == 23 && SCALE[23] == 128);
        assert(hi(143) == 1073737728) by (nonlinear_arith)
            requires
                HUFFMAN_CODES[143] == 8388575,
                HUFFMAN_LENGTHS[143] == 23,
                SCALE[23] == 128,
        ;
        assert(lo(147) == 1073737728) by (nonlinear_arith)
            requires
                HUFFMAN_CODES[147] == 8388576,
                HUFFMAN_LENGTHS[147] == 23,
                SCALE[23] == 128,
        ;
    } else if i == 153 {
        assert(CODE_ORDER[153] == 147 && CODE_RANK[147] == 153 && HUFFMAN_CODES[147] == 8388576 && HUFFMAN_LENGTHS[147] == 23 && CODE_ORDER[154] == 149 && HUFFMAN_CODES[149] == 8388577 && HUFFMAN_LENGTHS[149] == 23 && SCALE[23] == 128);
        assert(hi(147) == 1073737856) by (nonlinear_arith)
            requires
                HUFFMAN_CODES[147] == 8388576,
                HUFFMAN_LENGTHS[147] == 23,
                SCALE[23] == 128,
        ;
        assert(lo(149) == 1073737856) by (nonlinear_arith)
            requires
                HUFFMAN_CODES[149] == 8388577,
                HUFFMAN_LENGTHS[149] == 23,
                SCALE[23] == 128,
        ;
    } else if i == 154 {
        assert(CODE_ORDER[154] == 149 && CODE_RANK[149] == 154 && HUFFMAN_CODES[149] == 8388577 && HUFFMAN_LENGTHS[149] == 23 && CODE_ORDER[155] == 150 && HUFFMAN_CODES[150] == 8388578 && HUFFMAN_LENGTHS[150] == 23 && SCALE[23] == 128);
        assert(hi(149) == 1073737984) by (nonlinear_arith)
            requires
                HUFFMAN_CODES[149] == 8388577,
                HUFFMAN_LENGTHS[149] == 23,
                SCALE[23] == 128,
        ;
        assert(lo(150) == 1073737984) by (nonlinear_arith)
            requires
                HUFFMAN_CODES[150] == 8388578,
                HUFFMAN_LENGTHS[150] == 23,
                SCALE[23] == 128,
        ;
    } else if i == 155 {
        assert(CODE_ORDER[155] == 150 && CODE_RANK[150] == 155 && HUFFMAN_CODES[150] == 8388578 && HUFFMAN_LENGTHS[150] == 23 && CODE_ORDER[156] == 151 && HUFFMAN_CODES[151] == 8388579 && HUFFMAN_LENGTHS[151] == 23 && SCALE[23] == 128);
        assert(hi(150) == 1073738112) by (nonlinear_arith)
            requires
                HUFFMAN_CODES[150] == 8388578,
                HUFFMAN_LENGTHS[150] == 23,
                SCALE[23] == 128,
        ;
        assert(lo(151) == 1073738112) by (nonlinear_arith)
            requires
                HUFFMAN_CODES[151] == 8388579,
                HUFFMAN_LENGTHS[151] == 23,
                SCALE[23] == 128,
        ;
    } else if i == 156 {
        assert(CODE_ORDER[156] == 151 && CODE_RANK[151] == 156 && HUFFMAN_CODES[151] == 8388579 && HUFFMAN_LENGTHS[151] == 23 && CODE_ORDER[157] == 152 && HUFFMAN_CODES[152] == 8388580 && HUFFMAN_LENGTHS[152] == 23 && SCALE[23] == 128);
        assert(hi(151) == 1073738240) by (nonlinear_arith)
            requires
                HUFFMAN_CODES[151] == 8388579,
                HUFFMAN_LENGTHS[151] == 23,
                SCALE[23] == 128,
        ;
        assert(lo(152) == 1073738240) by (nonlinear_arith)
            requires
                HUFFMAN_CODES[152] == 8388580,
                HUFFMAN_LENGTHS[152] == 23,
                SCALE[23] == 128,
        ;
    } else if i == 157 {
        assert(CODE_ORDER[157] == 152 && CODE_RANK[152] == 157 && HUFFMAN_CODES[152] == 8388580 && HUFFMAN_LENGTHS[152] == 23 && CODE_ORDER[158] == 155 && HUFFMAN_CODES[155] == 8388581 && HUFFMAN_LENGTHS[155] == 23 && SCALE[23] == 128);
        assert(hi(152) == 1073738368) by (nonlinear_arith)
            requires
                HUFFMAN_CODES[152] == 8388580,
                HUFFMAN_LENGTHS[152] == 23,
                SCALE[23] == 128,
        ;
        assert(lo(155) == 1073738368) by (nonlinear_arith)
            requires
                HUFFMAN_CODES[155] == 8388581,
                HUFFMAN_LENGTHS[155] == 23,
                SCALE[23] == 128,
        ;
    } else if i == 158 {
        assert(CODE_ORDER[158] == 155 && CODE_RANK[155] == 158 && HUFFMAN_CODES[155] == 8388581 && HUFFMAN_LENGTHS[155] == 23 && CODE_ORDER[159] == 157 && HUFFMAN_CODES[157] == 8388582 && HUFFMAN_LENGTHS[157] == 23 && SCALE[23] == 128);
        assert(hi(155) == 1073738496) by (nonlinear_arith)
            requires
                HUFFMAN_CODES[155] == 8388581,
                HUFFMAN_LENGTHS[155] == 23,
                SCALE[23] == 128,
        ;
        assert(lo(157) == 1073738496) by (nonlinear_arith)
            requires
                HUFFMAN_CODES[157] == 8388582,
                HUFFMAN_LENGTHS[157] == 23,
                SCALE[23] == 128,
        ;
    } else if i == 159 {
        assert(CODE_ORDER[159] == 157 && CODE_RANK[157] == 159 && HUFFMAN_CODES[157] == 8388582 && HUFFMAN_LENGTHS[157] == 23 && CODE_ORDER[160] == 158 && HUFFMAN_CODES[158] == 8388583 && HUFFMAN_LENGTHS[158] == 23 && SCALE[23] == 128);
        assert(hi(157) == 1073738624) by (nonlinear_arith)
            requires
                HUFFMAN_CODES[157] == 8388582,
                HUFFMAN_LENGTHS[157] == 23,
                SCALE[23] == 128,
        ;
        assert(lo(158) == 1073738624) by (nonlinear_arith)
            requires
                HUFFMAN_CODES[158] == 8388583,
                HUFFMAN_LENGTHS[158] == 23,
                SCALE[23] == 128,
        ;
    }
}

proof fn lemma_order_facts_160(i: int)
    requires
        160 <= i < 192,
    ensures
        CODE_ORDER[i] < 257,
        CODE_RANK[CODE_ORDER[i] as int] == i,
        i + 1 < 257 ==> hi(CODE_ORDER[i] as int) <= lo(CODE_ORDER[i + 1] as int),
{
    if i == 160 {
        assert(CODE_ORDER[160] == 158 && CODE_RANK[158] == 160 && HUFFMAN_CODES[158] == 8388583 && HUFFMAN_LENGTHS[158] == 23 && CODE_ORDER[161] == 165 && HUFFMAN_CODES[165] == 8388584 && HUFFMAN_LENGTHS[165] == 23 && SCALE[23] == 128);
        assert(hi(158) == 1073738752) by (nonlinear_arith)
            requires
                HUFFMAN_CODES[158] == 8388583,
                HUFFMAN_LENGTHS[158] == 23,
                SCALE[23] == 128,
        ;
        assert(lo(165) == 1073738752) by (nonlinear_arith)
            requires
                HUFFMAN_CODES[165] == 8388584,
                HUFFMAN_LENGTHS[165] == 23,
                SCALE[23] == 128,
        ;
    } else if i == 161 {
        assert(CODE_ORDER[161] == 165 && CODE_RANK[165] == 161 && HUFFMAN_CODES[165] == 8388584 && HUFFMAN_LENGTHS[165] == 23 && CODE_ORDER[162] == 166 && HUFFMAN_CODES[166] == 8388585 && HUFFMAN_LENGTHS[166] == 23 && SCALE[23] == 128);
        assert(hi(165) == 1073738880) by (nonlinear_arith)
            requires
                HUFFMAN_CODES[165] == 8388584,
                HUFFMAN_LENGTHS[165] == 23,
                SCALE[23] == 128,
        ;
        assert(lo(166) == 1073738880) by (nonlinear_arith)
            requires
                HUFFMAN_CODES[166] == 8388585,
                HUFFMAN_LENGTHS[166] == 23,
                SCALE[23] == 128,
        ;
    } else if i == 162 {
        assert(CODE_ORDER[162] == 166 && CODE_RANK[166] == 162 && HUFFMAN_CODES[166] == 8388585 && HUFFMAN_LENGTHS[166] == 23 && CODE_ORDER[163] == 168 && HUFFMAN_CODES[168] == 8388586 && HUFFMAN_LENGTHS[168] == 23 && SCALE[23] == 128);
        assert(hi(166) == 1073739008) by (nonlinear_arith)
            requires
                HUFFMAN_CODES[166] == 8388585,
                HUFFMAN_LENGTHS[166] == 23,
                SCALE[23] == 128,
        ;
        assert(lo(168) == 1073739008) by (nonlinear_arith)
            requires
                HUFFMAN_CODES[168] == 8388586,
                HUFFMAN_LENGTHS[168] == 23,
                SCALE[23] == 128,
        ;
    } else if i == 163 {
        assert(CODE_ORDER[163] == 168 && CODE_RANK[168] == 163 && HUFFMAN_CODES[168] == 8388586 && HUFFMAN_LENGTHS[168] == 23 && CODE_ORDER[164] == 174 && HUFFMAN_CODES[174] == 8388587 && HUFFMAN_LENGTHS[174] == 23 && SCALE[23] == 128);
        assert(hi(168) == 1073739136) by (nonlinear_arith)
            requires
                HUFFMAN_CODES[168] == 8388586,
                HUFFMAN_LENGTHS[168] == 23,
                SCALE[23] == 128,
        ;
        assert(lo(174) == 1073739136) by (nonlinear_arith)
            requires
                HUFFMAN_CODES[174] == 8388587,
                HUFFMAN_LENGTHS[174] == 23,
                SCALE[23] == 128,
        ;
    } else if i == 164 {
        assert(CODE_ORDER[164] == 174 && CODE_RANK[174] == 164 && HUFFMAN_CODES[174] == 8388587 && HUFFMAN_LENGTHS[174] == 23 && CODE_ORDER[165] == 175 && HUFFMAN_CODES[175] == 8388588 && HUFFMAN_LENGTHS[175] == 23 && SCALE[23] == 128);
        assert(hi(174) == 1073739264) by (nonlinear_arith)
            requires
                HUFFMAN_CODES[174] == 8388587,
                HUFFMAN_LENGTHS[174] == 23,
                SCALE[23] == 128,
        ;
        assert(lo(175) == 1073739264) by (nonlinear_arith)
            requires
                HUFFMAN_CODES[175] == 8388588,
                HUFFMAN_LENGTHS[175] == 23,
                SCALE[23] == 128,
        ;
    } else if i == 165 {
        assert(CODE_ORDER[165] == 175 && CODE_RANK[175] == 165 && HUFFMAN_CODES[175] == 8388588 && HUFFMAN_LENGTHS[175] == 23 && CODE_ORDER[166] == 180 && HUFFMAN_CODES[180] == 8388589 && HUFFMAN_LENGTHS[180] == 23 && SCALE[23] == 128);
        assert(hi(175) == 1073739392) by (nonlinear_arith)
            requires
                HUFFMAN_CODES[175] == 8388588,
                HUFFMAN_LENGTHS[175] == 23,
                SCALE[23] == 128,
        ;
        assert(lo(180) == 1073739392) by (nonlinear_arith)
            requires
                HUFFMAN_CODES[180] == 8388589,
                HUFFMAN_LENGTHS[180] == 23,
                SCALE[23] == 128,
        ;
    } else if i == 166 {
        assert(CODE_ORDER[166] == 180 && CODE_RANK[180] == 166 && HUFFMAN_CODES[180] == 8388589 && HUFFMAN_LENGTHS[180] == 23 && CODE_ORDER[167] == 182 && HUFFMAN_CODES[182] == 8388590 && HUFFMAN_LENGTHS[182] == 23 && SCALE[23] == 128);
        assert(hi(180) == 1073739520) by (nonlinear_arith)
            requires
                HUFFMAN_CODES[180] == 8388589,
                HUFFMAN_LENGTHS[180] == 23,
                SCALE[23] == 128,
        ;
        assert(lo(182) == 1073739520) by (nonlinear_arith)
            requires
                HUFFMAN_CODES[182] == 8388590,
                HUFFMAN_LENGTHS[182] == 23,
                SCALE[23] == 128,
        ;
    } else if i == 167 {
        assert(CODE_ORDER[167] == 182 && CODE_RANK[182] == 167 && HUFFMAN_CODES[182] == 8388590 && HUFFMAN_LENGTHS[182] == 23 && CODE_ORDER[168] == 183 && HUFFMAN_CODES[183] == 8388591 && HUFFMAN_LENGTHS[183] == 23 && SCALE[23] == 128);
        assert(hi(182) == 1073739648) by (nonlinear_arith)
            requires
                HUFFMAN_CODES[182] == 8388590,
                HUFFMAN_LENGTHS[182] == 23,
                SCALE[23] == 128,
        ;
        assert(lo(183) == 1073739648) by (nonlinear_arith)
            requires
                HUFFMAN_CODES[183] == 8388591,
                HUFFMAN_LENGTHS[183] == 23,
                SCALE[23] == 128,
        ;
    } else if i == 168 {
        assert(CODE_ORDER[168] == 183 && CODE_RANK[183] == 168 && HUFFMAN_CODES[183] == 8388591 && HUFFMAN_LENGTHS[183] == 23 && CODE_ORDER[169] == 188 && HUFFMAN_CODES[188] == 8388592 && HUFFMAN_LENGTHS[188] == 23 && SCALE[23] == 128);
        assert(hi(183) == 1073739776) by (nonlinear_arith)
            requires
                HUFFMAN_CODES[183] == 8388591,
                HUFFMAN_LENGTHS[183] == 23,
                SCALE[23] == 128,
        ;
        assert(lo(188) == 1073739776) by (nonlinear_arith)
            requires
                HUFFMAN_CODES[188] == 8388592,
                HUFFMAN_LENGTHS[188] == 23,
                SCALE[23] == 128,
        ;
    } else if i == 169 {
        assert(CODE_ORDER[169] == 188 && CODE_RANK[188] == 169 && HUFFMAN_CODES[188] == 8388592 && HUFFMAN_LENGTHS[188] == 23 && CODE_ORDER[170] == 191 && HUFFMAN_CODES[191] == 8388593 && HUFFMAN_LENGTHS[191] == 23 && SCALE[23] == 128);
        assert(hi(188) == 1073739904) by (nonlinear_arith)
            requires
                HUFFMAN_CODES[188] == 8388592,
                HUFFMAN_LENGTHS[188] == 23,
                SCALE[23] == 128,
        ;
        assert(lo(191) == 1073739904) by (nonlinear_arith)
            requires
                HUFFMAN_CODES[191] == 8388593,
                HUFFMAN_LENGTHS[191] == 23,
                SCALE[23] == 128,
        ;
    } else if i == 170 {
        assert(CODE_ORDER[170] == 191 && CODE_RANK[191] == 170 && HUFFMAN_CODES[191] == 8388593 && HUFFMAN_LENGTHS[191] == 23 && CODE_ORDER[171] == 197 && HUFFMAN_CODES[197] == 8388594 && HUFFMAN_LENGTHS[197] == 23 && SCALE[23] == 128);
        assert(hi(191) == 1073740032) by (nonlinear_arith)
            requires
                HUFFMAN_CODES[191] == 8388593,
                HUFFMAN_LENGTHS[191] == 23,
                SCALE[23] == 128,
        ;
        assert(lo(197) == 1073740032) by (nonlinear_arith)
            requires
                HUFFMAN_CODES[197] == 8388594,
                HUFFMAN_LENGTHS[197] == 23,
                SCALE[23] == 128,
        ;
    } else if i == 171 {
        assert(CODE_ORDER[171] == 197 && CODE_RANK[197] == 171 && HUFFMAN_CODES[197] == 8388594 && HUFFMAN_LENGTHS[197] == 23 && CODE_ORDER[172] == 231 && HUFFMAN_CODES[231] == 8388595 && HUFFMAN_LENGTHS[231] == 23 && SCALE[23] == 128);
        assert(hi(197) == 1073740160) by (nonlinear_arith)
            requires
                HUFFMAN_CODES[197] == 8388594,
                HUFFMAN_LENGTHS[197] == 23,
                SCALE[23] == 128,
        ;
        assert(lo(231) == 1073740160) by (nonlinear_arith)
            requires
                HUFFMAN_CODES[231] == 8388595,
                HUFFMAN_LENGTHS[231] == 23,
                SCALE[23] == 128,
        ;
    } else if i == 172 {
        assert(CODE_ORDER[172] == 231 && CODE_RANK[231] == 172 && HUFFMAN_CODES[231] == 8388595 && HUFFMAN_LENGTHS[231] == 23 && CODE_ORDER[173] == 239 && HUFFMAN_CODES[239] == 8388596 && HUFFMAN_LENGTHS[239] == 23 && SCALE[23] == 128);
        assert(hi(231) == 1073740288) by (nonlinear_arith)
            requires
                HUFFMAN_CODES[231] == 8388595,
                HUFFMAN_LENGTHS[231] == 23,
                SCALE[23] == 128,
        ;
        assert(lo(239) == 1073740288) by (nonlinear_arith)
            requires
                HUFFMAN_CODES[239] == 8388596,
                HUFFMAN_LENGTHS[239] == 23,
                SCALE[23] == 128,
        ;
    } else if i == 173 {
        assert(CODE_ORDER[173] == 239 && CODE_RANK[239] == 173 && HUFFMAN_CODES[239] == 8388596 && HUFFMAN_LENGTHS[239] == 23 && CODE_ORDER[174] == 9 && HUFFMAN_CODES[9] == 16777194 && HUFFMAN_LENGTHS[9] == 24 && SCALE[23] == 128 && SCALE[24] == 64);
        assert(hi(239) == 1073740416) by (nonlinear_arith)
            requires
                HUFFMAN_CODES[239] == 8388596,
                HUFFMAN_LENGTHS[239] == 23,
                SCALE[23] == 128,
        ;
        assert(lo(9) == 1073740416) by (nonlinear_arith)
            requires
                HUFFMAN_CODES[9] == 16777194,
                HUFFMAN_LENGTHS[9] == 24,
                SCALE[24] == 64,
        ;
    } else if i == 174 {
        assert(CODE_ORDER[174] == 9 && CODE_RANK[9] == 174 && HUFFMAN_CODES[9] == 16777194 && HUFFMAN_LENGTHS[9] == 24 && CODE_ORDER[175] == 142 && HUFFMAN_CODES[142] == 16777195 && HUFFMAN_LENGTHS[142] == 24 && SCALE[24] == 64);
        assert(hi(9) == 1073740480) by (nonlinear_arith)
            requires
                HUFFMAN_CODES[9] == 16777194,
                HUFFMAN_LENGTHS[9] == 24,
                SCALE[24] == 64,
        ;
        assert(lo(142) == 1073740480) by (nonlinear_arith)
            requires
                HUFFMAN_CODES[142] == 16777195,
                HUFFMAN_LENGTHS[142] == 24,
                SCALE[24] == 64,
        ;
    } else if i == 175 {
        assert(CODE_ORDER[175] == 142 && CODE_RANK[142] == 175 && HUFFMAN_CODES[142] == 16777195 && HUFFMAN_LENGTHS[142] == 24 && CODE_ORDER[176] == 144 && HUFFMAN_CODES[144] == 16777196 && HUFFMAN_LENGTHS[144] == 24 && SCALE[24] == 64);
        assert(hi(142) == 1073740544) by (nonlinear_arith)
            requires
                HUFFMAN_CODES[142] == 16777195,
                HUFFMAN_LENGTHS[142] == 24,
                SCALE[24] == 64,
        ;
        assert(lo(144) == 1073740544) by (nonlinear_arith)
            requires
                HUFFMAN_CODES[144] == 16777196,
                HUFFMAN_LENGTHS[144] == 24,
                SCALE[24] == 64,
        ;
    } else if i == 176 {
        assert(CODE_ORDER[176] == 144 && CODE_RANK[144] == 176 && HUFFMAN_CODES[144] == 16777196 && HUFFMAN_LENGTHS[144] == 24 && CODE_ORDER[177] == 145 && HUFFMAN_CODES[145] == 16777197 && HUFFMAN_LENGTHS[145] == 24 && SCALE[24] == 64);
        assert(hi(144) == 1073740608) by (nonlinear_arith)
            requires
                HUFFMAN_CODES[144] == 16777196,
                HUFFMAN_LENGTHS[144] == 24,
                SCALE[24] == 64,
        ;
        assert(lo(145) == 1073740608) by (nonlinear_arith)
            requires
                HUFFMAN_CODES[145] == 16777197,
                HUFFMAN_LENGTHS[145] == 24,
                SCALE[24] == 64,
        ;
    } else if i == 177 {
        assert(CODE_ORDER[177] == 145 && CODE_RANK[145] == 177 && HUFFMAN_CODES[145] == 16777197 && HUFFMAN_LENGTHS[145] == 24 && CODE_ORDER[178] == 148 && HUFFMAN_CODES[148] == 16777198 && HUFFMAN_LENGTHS[148] == 24 && SCALE[24] == 64);
        assert(hi(145) == 1073740672) by (nonlinear_arith)
            requires
                HUFFMAN_CODES[145] == 16777197,
                HUFFMAN_LENGTHS[145] == 24,
                SCALE[24] == 64,
        ;
        assert(lo(148) == 1073740672) by (nonlinear_arith)
            requires
                HUFFMAN_CODES[148] == 16777198,
                HUFFMAN_LENGTHS[148] == 24,
                SCALE[24] == 64,
        ;
    } else if i == 178 {
        assert(CODE_ORDER[178] == 148 && CODE_RANK[148] == 178 && HUFFMAN_CODES[148] == 16777198 && HUFFMAN_LENGTHS[148] == 24 && CODE_ORDER[179] == 159 && HUFFMAN_CODES[159] == 16777199 && HUFFMAN_LENGTHS[159] == 24 && SCALE[24] == 64);
        assert(hi(148) == 1073740736) by (nonlinear_arith)
            requires
                HUFFMAN_CODES[148] == 16777198,
                HUFFMAN_LENGTHS[148] == 24,
                SCALE[24] == 64,
        ;
        assert(lo(159) == 1073740736) by (nonlinear_arith)
            requires
                HUFFMAN_CODES[159] == 16777199,
                HUFFMAN_LENGTHS[159] == 24,
                SCALE[24] == 64,
        ;
    } else if i == 179 {
        assert(CODE_ORDER[179] == 159 && CODE_RANK[159] == 179 && HUFFMAN_CODES[159] == 16777199 && HUFFMAN_LENGTHS[159] == 24 && CODE_ORDER[180] == 171 && HUFFMAN_CODES[171] == 16777200 && HUFFMAN_LENGTHS[171] == 24 && SCALE[24] == 64);
        assert(hi(159) == 1073740800) by (nonlinear_arith)
            requires
                HUFFMAN_CODES[159] == 16777199,
                HUFFMAN_LENGTHS[159] == 24,
                SCALE[24] == 64,
        ;
        assert(lo(171) == 1073740800) by (nonlinear_arith)
            requires
                HUFFMAN_CODES[171] == 16777200,
                HUFFMAN_LENGTHS[171] == 24,
                SCALE[24] == 64,
        ;
    } else if i == 180 {
        assert(CODE_ORDER[180] == 171 && CODE_RANK[171] == 180 && HUFFMAN_CODES[171] == 16777200 && HUFFMAN_LENGTHS[171] == 24 && CODE_ORDER[181] == 206 && HUFFMAN_CODES[206] == 16777201 && HUFFMAN_LENGTHS[206] == 24 && SCALE[24] == 64);
        assert(hi(171) == 1073740864) by (nonlinear_arith)
            requires
                HUFFMAN_CODES[171] == 16777200,
                HUFFMAN_LENGTHS[171] == 24,
                SCALE[24] == 64,
        ;
        assert(lo(206) == 1073740864) by (nonlinear_arith)
            requires
                HUFFMAN_CODES[206] == 16777201,
                HUFFMAN_LENGTHS[206] == 24,
                SCALE[24] == 64,
        ;
    } else if i == 181 {
        assert(CODE_ORDER[181] == 206 && CODE_RANK[206] == 181 && HUFFMAN_CODES[206] == 16777201 && HUFFMAN_LENGTHS[206] == 24 && CODE_ORDER[182] == 215 && HUFFMAN_CODES[215] == 16777202 && HUFFMAN_LENGTHS[215] == 24 && SCALE[24] == 64);
        assert(hi(206) == 1073740928) by (nonlinear_arith)
            requires
                HUFFMAN_CODES[206] == 16777201,
                HUFFMAN_LENGTHS[206] == 24,
                SCALE[24] == 64,
        ;
        assert(lo(215) == 1073740928) by (nonlinear_arith)
            requires
                HUFFMAN_CODES[215] == 16777202,
                HUFFMAN_LENGTHS[215] == 24,
                SCALE[24] == 64,
        ;
    } else if i == 182 {
        assert(CODE_ORDER[182] == 215 && CODE_RANK[215] == 182 && HUFFMAN_CODES[215] == 16777202 && HUFFMAN_LENGTHS[215] == 24 && CODE_ORDER[183] == 225 && HUFFMAN_CODES[225] == 16777203 && HUFFMAN_LENGTHS[225] == 24 && SCALE[24] == 64);
        assert(hi(215) == 1073740992) by (nonlinear_arith)
            requires
                HUFFMAN_CODES[215] == 16777202,
                HUFFMAN_LENGTHS[215] == 24,
                SCALE[24] == 64,
        ;
        assert(lo(225) == 1073740992) by (nonlinear_arith)
            requires
                HUFFMAN_CODES[225] == 16777203,
                HUFFMAN_LENGTHS[225] == 24,
                SCALE[24] == 64,
        ;
    } else if i == 183 {
        assert(CODE_ORDER[183] == 225 && CODE_RANK[225] == 183 && HUFFMAN_CODES[225] == 16777203 && HUFFMAN_LENGTHS[225] == 24 && CODE_ORDER[184] == 236 && HUFFMAN_CODES[236] == 16777204 && HUFFMAN_LENGTHS[236] == 24 && SCALE[24] == 64);
        assert(hi(225) == 1073741056) by (nonlinear_arith)
            requires
                HUFFMAN_CODES[225] == 16777203,
                HUFFMAN_LENGTHS[225] == 24,
                SCALE[24] == 64,
        ;
        assert(lo(236) == 1073741056) by (nonlinear_arith)
            requires
                HUFFMAN_CODES[236] == 16777204,
                HUFFMAN_LENGTHS[236] == 24,
                SCALE[24] == 64,
        ;
    } else if i == 184 {
        assert(CODE_ORDER[184] == 236 && CODE_RANK[236] == 184 && HUFFMAN_CODES[236] == 16777204 && HUFFMAN_LENGTHS[236] == 24 && CODE_ORDER[185] == 237 && HUFFMAN_CODES[237] == 16777205 && HUFFMAN_LENGTHS[237] == 24 && SCALE[24] == 64);
        assert(hi(236) == 1073741120) by (nonlinear_arith)
            requires
                HUFFMAN_CODES[236] == 16777204,
                HUFFMAN_LENGTHS[236] == 24,
                SCALE[24] == 64,
        ;
        assert(lo(237) == 1073741120) by (nonlinear_arith)
            requires
                HUFFMAN_CODES[237] == 16777205,
                HUFFMAN_LENGTHS[237] == 24,
                SCALE[24] == 64,
        ;
    } else if i == 185 {
        assert(CODE_ORDER[185] == 237 && CODE_RANK[237] == 185 && HUFFMAN_CODES[237] == 16777205 && HUFFMAN_LENGTHS[237] == 24 && CODE_ORDER[186] == 199 && HUFFMAN_CODES[199] == 33554412 && HUFFMAN_LENGTHS[199] == 25 && SCALE[24] == 64 && SCALE[25] == 32);
        assert(hi(237) == 1073741184) by (nonlinear_arith)
            requires
                HUFFMAN_CODES[237] == 16777205,
                HUFFMAN_LENGTHS[237] == 24,
                SCALE[24] == 64,
        ;
        assert(lo(199) == 1073741184) by (nonlinear_arith)
            requires
                HUFFMAN_CODES[199] == 33554412,
                HUFFMAN_LENGTHS[199] == 25,
                SCALE[25] == 32,
        ;
    } else if i == 186 {
        assert(CODE_ORDER[186] == 199 && CODE_RANK[199] == 186 && HUFFMAN_CODES[199] == 33554412 && HUFFMAN_LENGTHS[199] == 25 && CODE_ORDER[187] == 207 && HUFFMAN_CODES[207] == 33554413 && HUFFMAN_LENGTHS[207] == 25 && SCALE[25] == 32);
        assert(hi(199) == 1073741216) by (nonlinear_arith)
            requires
                HUFFMAN_CODES[199] == 33554412,
                HUFFMAN_LENGTHS[199] == 25,
                SCALE[25] == 32,
        ;
        assert(lo(207) == 1073741216) by (nonlinear_arith)
            requires
                HUFFMAN_CODES[207] == 33554413,
                HUFFMAN_LENGTHS[207] == 25,
                SCALE[25] == 32,
        ;
    } else if i == 187 {
        assert(CODE_ORDER[187] == 207 && CODE_RANK[207] == 187 && HUFFMAN_CODES[207] == 33554413 && HUFFMAN_LENGTHS[207] == 25 && CODE_ORDER[188] == 234 && HUFFMAN_CODES[234] == 33554414 && HUFFMAN_LENGTHS[234] == 25 && SCALE[25] == 32);
        assert(hi(207) == 1073741248) by (nonlinear_arith)
            requires
                HUFFMAN_CODES[207] == 33554413,
                HUFFMAN_LENGTHS[207] == 25,
                SCALE[25] == 32,
        ;
        assert(lo(234) == 1073741248) by (nonlinear_arith)
            requires
                HUFFMAN_CODES[234] == 33554414,
                HUFFMAN_LENGTHS[234] == 25,
                SCALE[25] == 32,
        ;
    } else if i == 188 {
        assert(CODE_ORDER[188] == 234 && CODE_RANK[234] == 188 && HUFFMAN_CODES[234] == 33554414 && HUFFMAN_LENGTHS[234] == 25 && CODE_ORDER[189] == 235 && HUFFMAN_CODES[235] == 33554415 && HUFFMAN_LENGTHS[235] == 25 && SCALE[25] == 32);
        assert(hi(234) == 1073741280) by (nonlinear_arith)
            requires
                HUFFMAN_CODES[234] == 33554414,
                HUFFMAN_LENGTHS[234] == 25,
                SCALE[25] == 32,
        ;
        assert(lo(235) == 1073741280) by (nonlinear_arith)
            requires
                HUFFMAN_CODES[235] == 33554415,
                HUFFMAN_LENGTHS[235] == 25,
                SCALE[25] == 32,
        ;
    } else if i == 189 {
        assert(CODE_ORDER[189] == 235 && CODE_RANK[235] == 189 && HUFFMAN_CODES[235] == 33554415 && HUFFMAN_LENGTHS[235] == 25 && CODE_ORDER[190] == 192 && HUFFMAN_CODES[192] == 67108832 && HUFFMAN_LENGTHS[192] == 26 && SCALE[25] == 32 && SCALE[26] == 16);
        assert(hi(235) == 1073741312) by (nonlinear_arith)
            requires
                HUFFMAN_CODES[235] == 33554415,
                HUFFMAN_LENGTHS[235] == 25,
                SCALE[25] == 32,
        ;
        assert(lo(192) == 1073741312) by (nonlinear_arith)
            requires
                HUFFMAN_CODES[192] == 67108832,
                HUFFMAN_LENGTHS[192] == 26,
                SCALE[26] == 16,
        ;
    } else if i == 190 {
        assert(CODE_ORDER[190] == 192 && CODE_RANK[192] == 190 && HUFFMAN_CODES[192] == 67108832 && HUFFMAN_LENGTHS[192] == 26 && CODE_ORDER[191] == 193 && HUFFMAN_CODES[193] == 67108833 && HUFFMAN_LENGTHS[193] == 26 && SCALE[26] == 16);
        assert(hi(192) == 1073741328) by (nonlinear_arith)
            requires
                HUFFMAN_CODES[192] == 67108832,
                HUFFMAN_LENGTHS[192] == 26,
                SCALE[26] == 16,
        ;
        assert(lo(193) == 1073741328) by (nonlinear_arith)
            requires
                HUFFMAN_CODES[193] == 67108833,
                HUFFMAN_LENGTHS[193] == 26,
                SCALE[26] == 16,
        ;
    } else if i == 191 {
        assert(CODE_ORDER[191] == 193 && CODE_RANK[193] == 191 && HUFFMAN_CODES[193] == 67108833 && HUFFMAN_LENGTHS[193] == 26 && CODE_ORDER[192] == 200 && HUFFMAN_CODES[200] == 67108834 && HUFFMAN_LENGTHS[200] == 26 && SCALE[26] == 16);
        assert(hi(193) == 1073741344) by (nonlinear_arith)
            requires
                HUFFMAN_CODES[193] == 67108833,
                HUFFMAN_LENGTHS[193] == 26,
                SCALE[26] == 16,
        ;
        assert(lo(200) == 1073741344) by (nonlinear_arith)
            requires
                HUFFMAN_CODES[200] == 67108834,
                HUFFMAN_LENGTHS[200] == 26,
                SCALE[26] == 16,
        ;
    }
}

proof fn lemma_order_facts_192(i: int)
    requires
        192 <= i < 224,
    ensures
        CODE_ORDER[i] < 257,
        CODE_RANK[CODE_ORDER[i] as int] == i,
        i + 1 < 257 ==> hi(CODE_ORDER[i] as int) <= lo(CODE_ORDER[i + 1] as int),
{
    if i == 192 {
        assert(CODE_ORDER[192] == 200 && CODE_RANK[200] == 192 && HUFFMAN_CODES[200] == 67108834 && HUFFMAN_LENGTHS[200] == 26 && CODE_ORDER[193] == 201 && HUFFMAN_CODES[201] == 67108835 && HUFFMAN_LENGTHS[201] == 26 && SCALE[26] == 16);
        assert(hi(200) == 1073741360) by (nonlinear_arith)
            requires
                HUFFMAN_CODES[200] == 67108834,
                HUFFMAN_LENGTHS[200] == 26,
                SCALE[26] == 16,
        ;
        assert(lo(201) == 1073741360) by (nonlinear_arith)
            requires
                HUFFMAN_CODES[201] == 67108835,
                HUFFMAN_LENGTHS[201] == 26,
                SCALE[26] == 16,
        ;
    } else if i == 193 {
        assert(CODE_ORDER[193] == 201 && CODE_RANK[201] == 193 && HUFFMAN_CODES[201] == 67108835 && HUFFMAN_LENGTHS[201] == 26 && CODE_ORDER[194] == 202 && HUFFMAN_CODES[202] == 67108836 && HUFFMAN_LENGTHS[202] == 26 && SCALE[26] == 16);
        assert(hi(201) == 1073741376) by (nonlinear_arith)
            requires
                HUFFMAN_CODES[201] == 67108835,
                HUFFMAN_LENGTHS[201] == 26,
                SCALE[26] == 16,
        ;
        assert(lo(202) == 1073741376) by (nonlinear_arith)
            requires
                HUFFMAN_CODES[202] == 67108836,
                HUFFMAN_LENGTHS[202] == 26,
                SCALE[26] == 16,
        ;
    } else if i == 194 {
        assert(CODE_ORDER[194] == 202 && CODE_RANK[202] == 194 && HUFFMAN_CODES[202] == 67108836 && HUFFMAN_LENGTHS[202] == 26 && CODE_ORDER[195] == 205 && HUFFMAN_CODES[205] == 67108837 && HUFFMAN_LENGTHS[205] == 26 && SCALE[26] == 16);
        assert(hi(202) == 1073741392) by (nonlinear_arith)
            requires
                HUFFMAN_CODES[202] == 67108836,
                HUFFMAN_LENGTHS[202] == 26,
                SCALE[26] == 16,
        ;
        assert(lo(205) == 1073741392) by (nonlinear_arith)
            requires
                HUFFMAN_CODES[205] == 67108837,
                HUFFMAN_LENGTHS[205] == 26,
                SCALE[26] == 16,
        ;
    } else if i == 195 {
        assert(CODE_ORDER[195] == 205 && CODE_RANK[205] == 195 && HUFFMAN_CODES[205] == 67108837 && HUFFMAN_LENGTHS[205] == 26 && CODE_ORDER[196] == 210 && HUFFMAN_CODES[210] == 67108838 && HUFFMAN_LENGTHS[210] == 26 && SCALE[26] == 16);
        assert(hi(205) == 1073741408) by (nonlinear_arith)
            requires
                HUFFMAN_CODES[205] == 67108837,
                HUFFMAN_LENGTHS[205] == 26,
                SCALE[26] == 16,
        ;
        assert(lo(210) == 1073741408) by (nonlinear_arith)
            requires
                HUFFMAN_CODES[210] == 67108838,
                HUFFMAN_LENGTHS[210] == 26,
                SCALE[26] == 16,
        ;
    } else if i == 196 {
        assert(CODE_ORDER[196] == 210 && CODE_RANK[210] == 196 && HUFFMAN_CODES[210] == 67108838 && HUFFMAN_LENGTHS[210] == 26 && CODE_ORDER[197] == 213 && HUFFMAN_CODES[213] == 67108839 && HUFFMAN_LENGTHS[213] == 26 && SCALE[26] == 16);
        assert(hi(210) == 1073741424) by (nonlinear_arith)
            requires
                HUFFMAN_CODES[210] == 67108838,
                HUFFMAN_LENGTHS[210] == 26,
                SCALE[26] == 16,
        ;
        assert(lo(213) == 1073741424) by (nonlinear_arith)
            requires
                HUFFMAN_CODES[213] == 67108839,
                HUFFMAN_LENGTHS[213] == 26,
                SCALE[26] == 16,
        ;
    } else if i == 197 {
        assert(CODE_ORDER[197] == 213 && CODE_RANK[213] == 197 && HUFFMAN_CODES[213] == 67108839 && HUFFMAN_LENGTHS[213] == 26 && CODE_ORDER[198] == 218 && HUFFMAN_CODES[218] == 67108840 && HUFFMAN_LENGTHS[218] == 26 && SCALE[26] == 16);
        assert(hi(213) == 1073741440) by (nonlinear_arith)
            requires
                HUFFMAN_CODES[213] == 67108839,
                HUFFMAN_LENGTHS[213] == 26,
                SCALE[26] == 16,
        ;
        assert(lo(218) == 1073741440) by (nonlinear_arith)
            requires
                HUFFMAN_CODES[218] == 67108840,
                HUFFMAN_LENGTHS[218] == 26,
                SCALE[26] == 16,
        ;
    } else if i == 198 {
        assert(CODE_ORDER[198] == 218 && CODE_RANK[218] == 198 && HUFFMAN_CODES[218] == 67108840 && HUFFMAN_LENGTHS[218] == 26 && CODE_ORDER[199] == 219 && HUFFMAN_CODES[219] == 67108841 && HUFFMAN_LENGTHS[219] == 26 && SCALE[26] == 16);
        assert(hi(218) == 1073741456) by (nonlinear_arith)
            requires
                HUFFMAN_CODES[218] == 67108840,
                HUFFMAN_LENGTHS[218] == 26,
                SCALE[26] == 16,
        ;
        assert(lo(219) == 1073741456) by (nonlinear_arith)
            requires
                HUFFMAN_CODES[219] == 67108841,
                HUFFMAN_LENGTHS[219] == 26,
                SCALE[26] == 16,
        ;
    } else if i == 199 {
        assert(CODE_ORDER[199] == 219 && CODE_RANK[219] == 199 && HUFFMAN_CODES[219] == 67108841 && HUFFMAN_LENGTHS[219] == 26 && CODE_ORDER[200] == 238 && HUFFMAN_CODES[238] == 67108842 && HUFFMAN_LENGTHS[238] == 26 && SCALE[26] == 16);
        assert(hi(219) == 1073741472) by (nonlinear_arith)
            requires
                HUFFMAN_CODES[219] == 67108841,
                HUFFMAN_LENGTHS[219] == 26,
                SCALE[26] == 16,
        ;
        assert(lo(238) == 1073741472) by (nonlinear_arith)
            requires
                HUFFMAN_CODES[238] == 67108842,
                HUFFMAN_LENGTHS[238] == 26,
                SCALE[26] == 16,
        ;
    } else if i == 200 {
        assert(CODE_ORDER[200] == 238 && CODE_RANK[238] == 200 && HUFFMAN_CODES[238] == 67108842 && HUFFMAN_LENGTHS[238] == 26 && CODE_ORDER[201] == 240 && HUFFMAN_CODES[240] == 67108843 && HUFFMAN_LENGTHS[240] == 26 && SCALE[26] == 16);
        assert(hi(238) == 1073741488) by (nonlinear_arith)
            requires
                HUFFMAN_CODES[238] == 67108842,
                HUFFMAN_LENGTHS[238] == 26,
                SCALE[26] == 16,
        ;
        assert(lo(240) == 1073741488) by (nonlinear_arith)
            requires
                HUFFMAN_CODES[240] == 67108843,
                HUFFMAN_LENGTHS[240] == 26,
                SCALE[26] == 16,
        ;
    } else if i == 201 {
        assert(CODE_ORDER[201] == 240 && CODE_RANK[240] == 201 && HUFFMAN_CODES[240] == 67108843 && HUFFMAN_LENGTHS[240] == 26 && CODE_ORDER[202] == 242 && HUFFMAN_CODES[242] == 67108844 && HUFFMAN_LENGTHS[242] == 26 && SCALE[26] == 16);
        assert(hi(240) == 1073741504) by (nonlinear_arith)
            requires
                HUFFMAN_CODES[240] == 67108843,
                HUFFMAN_LENGTHS[240] == 26,
                SCALE[26] == 16,
        ;
        assert(lo(242) == 1073741504) by (nonlinear_arith)
            requires
                HUFFMAN_CODES[242] == 67108844,
                HUFFMAN_LENGTHS[242] == 26,
                SCALE[26] == 16,
        ;
    } else if i == 202 {
        assert(CODE_ORDER[202] == 242 && CODE_RANK[242] == 202 && HUFFMAN_CODES[242] == 67108844 && HUFFMAN_LENGTHS[242] == 26 && CODE_ORDER[203] == 243 && HUFFMAN_CODES[243] == 67108845 && HUFFMAN_LENGTHS[243] == 26 && SCALE[26] == 16);
        assert(hi(242) == 1073741520) by (nonlinear_arith)
            requires
                HUFFMAN_CODES[242] == 67108844,
                HUFFMAN_LENGTHS[242] == 26,
                SCALE[26] == 16,
        ;
        assert(lo(243) == 1073741520) by (nonlinear_arith)
            requires
                HUFFMAN_CODES[243] == 67108845,
                HUFFMAN_LENGTHS[243] == 26,
                SCALE[26] == 16,
        ;
    } else if i == 203 {
        assert(CODE_ORDER[203] == 243 && CODE_RANK[243] == 203 && HUFFMAN_CODES[243] == 67108845 && HUFFMAN_LENGTHS[243] == 26 && CODE_ORDER[204] == 255 && HUFFMAN_CODES[255] == 67108846 && HUFFMAN_LENGTHS[255] == 26 && SCALE[26] == 16);
        assert(hi(243) == 1073741536) by (nonlinear_arith)
            requires
                HUFFMAN_CODES[243] == 67108845,
                HUFFMAN_LENGTHS[243] == 26,
                SCALE[26] == 16,
        ;
        assert(lo(255) == 1073741536) by (nonlinear_arith)
            requires
                HUFFMAN_CODES[255] == 67108846,
                HUFFMAN_LENGTHS[255] == 26,
                SCALE[26] == 16,
        ;
    } else if i == 204 {
        assert(CODE_ORDER[204] == 255 && CODE_RANK[255] == 204 && HUFFMAN_CODES[255] == 67108846 && HUFFMAN_LENGTHS[255] == 26 && CODE_ORDER[205] == 203 && HUFFMAN_CODES[203] == 134217694 && HUFFMAN_LENGTHS[203] == 27 && SCALE[26] == 16 && SCALE[27] == 8);
        assert(hi(255) == 1073741552) by (nonlinear_arith)
            requires
                HUFFMAN_CODES[255] == 67108846,
                HUFFMAN_LENGTHS[255] == 26,
                SCALE[26] == 16,
        ;
        assert(lo(203) == 1073741552) by (nonlinear_arith)
            requires
                HUFFMAN_CODES[203] == 134217694,
                HUFFMAN_LENGTHS[203] == 27,
                SCALE[27] == 8,
        ;
    } else if i == 205 {
        assert(CODE_ORDER[205] == 203 && CODE_RANK[203] == 205 && HUFFMAN_CODES[203] == 134217694 && HUFFMAN_LENGTHS[203] == 27 && CODE_ORDER[206] == 204 && HUFFMAN_CODES[204] == 134217695 && HUFFMAN_LENGTHS[204] == 27 && SCALE[27] == 8);
        assert(hi(203) == 1073741560) by (nonlinear_arith)
            requires
                HUFFMAN_CODES[203] == 134217694,
                HUFFMAN_LENGTHS[203] == 27,
                SCALE[27] == 8,
        ;
        assert(lo(204) == 1073741560) by (nonlinear_arith)
            requires
                HUFFMAN_CODES[204] == 134217695,
                HUFFMAN_LENGTHS[204] == 27,
                SCALE[27] == 8,
        ;
    } else if i == 206 {
        assert(CODE_ORDER[206] == 204 && CODE_RANK[204] == 206 && HUFFMAN_CODES[204] == 134217695 && HUFFMAN_LENGTHS[204] == 27 && CODE_ORDER[207] == 211 && HUFFMAN_CODES[211] == 134217696 && HUFFMAN_LENGTHS[211] == 27 && SCALE[27] == 8);
        assert(hi(204) == 1073741568) by (nonlinear_arith)
            requires
                HUFFMAN_CODES[204] == 134217695,
                HUFFMAN_LENGTHS[204] == 27,
                SCALE[27] == 8,
        ;
        assert(lo(211) == 1073741568) by (nonlinear_arith)
            requires
                HUFFMAN_CODES[211] == 134217696,
                HUFFMAN_LENGTHS[211] == 27,
                SCALE[27] == 8,
        ;
    } else if i == 207 {
        assert(CODE_ORDER[207] == 211 && CODE_RANK[211] == 207 && HUFFMAN_CODES[211] == 134217696 && HUFFMAN_LENGTHS[211] == 27 && CODE_ORDER[208] == 212 && HUFFMAN_CODES[212] == 134217697 && HUFFMAN_LENGTHS[212] == 27 && SCALE[27] == 8);
        assert(hi(211) == 1073741576) by (nonlinear_arith)
            requires
                HUFFMAN_CODES[211] == 134217696,
                HUFFMAN_LENGTHS[211] == 27,
                SCALE[27] == 8,
        ;
        assert(lo(212) == 1073741576) by (nonlinear_arith)
            requires
                HUFFMAN_CODES[212] == 134217697,
                HUFFMAN_LENGTHS[212] == 27,
                SCALE[27] == 8,
        ;
    } else if i == 208 {
        assert(CODE_ORDER[208] == 212 && CODE_RANK[212] == 208 && HUFFMAN_CODES[212] == 134217697 && HUFFMAN_LENGTHS[212] == 27 && CODE_ORDER[209] == 214 && HUFFMAN_CODES[214] == 134217698 && HUFFMAN_LENGTHS[214] == 27 && SCALE[27] == 8);
        assert(hi(212) == 1073741584) by (nonlinear_arith)
            requires
                HUFFMAN_CODES[212] == 134217697,
                HUFFMAN_LENGTHS[212] == 27,
                SCALE[27] == 8,
        ;
        assert(lo(214) == 1073741584) by (nonlinear_arith)
            requires
                HUFFMAN_CODES[214] == 134217698,
                HUFFMAN_LENGTHS[214] == 27,
                SCALE[27] == 8,
        ;
    } else if i == 209 {
        assert(CODE_ORDER[209] == 214 && CODE_RANK[214] == 209 && HUFFMAN_CODES[214] == 134217698 && HUFFMAN_LENGTHS[214] == 27 && CODE_ORDER[210] == 221 && HUFFMAN_CODES[221] == 134217699 && HUFFMAN_LENGTHS[221] == 27 && SCALE[27] == 8);
        assert(hi(214) == 1073741592) by (nonlinear_arith)
            requires
                HUFFMAN_CODES[214] == 134217698,
                HUFFMAN_LENGTHS[214] == 27,
                SCALE[27] == 8,
        ;
        assert(lo(221) == 1073741592) by (nonlinear_arith)
            requires
                HUFFMAN_CODES[221] == 134217699,
                HUFFMAN_LENGTHS[221] == 27,
                SCALE[27] == 8,
        ;
    } else if i == 210 {
        assert(CODE_ORDER[210] == 221 && CODE_RANK[221] == 210 && HUFFMAN_CODES[221] == 134217699 && HUFFMAN_LENGTHS[221] == 27 && CODE_ORDER[211] == 222 && HUFFMAN_CODES[222] == 134217700 && HUFFMAN_LENGTHS[222] == 27 && SCALE[27] == 8);
        assert(hi(221) == 1073741600) by (nonlinear_arith)
            requires
                HUFFMAN_CODES[221] == 134217699,
                HUFFMAN_LENGTHS[221] == 27,
                SCALE[27] == 8,
        ;
        assert(lo(222) == 1073741600) by (nonlinear_arith)
            requires
                HUFFMAN_CODES[222] == 134217700,
                HUFFMAN_LENGTHS[222] == 27,
                SCALE[27] == 8,
        ;
    } else if i == 211 {
        assert(CODE_ORDER[211] == 222 && CODE_RANK[222] == 211 && HUFFMAN_CODES[222] == 134217700 && HUFFMAN_LENGTHS[222] == 27 && CODE_ORDER[212] == 223 && HUFFMAN_CODES[223] == 134217701 && HUFFMAN_LENGTHS[223] == 27 && SCALE[27] == 8);
        assert(hi(222) == 1073741608) by (nonlinear_arith)
            requires
                HUFFMAN_CODES[222] == 134217700,
                HUFFMAN_LENGTHS[222] == 27,
                SCALE[27] == 8,
        ;
        assert(lo(223) == 1073741608) by (nonlinear_arith)
            requires
                HUFFMAN_CODES[223] == 134217701,
                HUFFMAN_LENGTHS[223] == 27,
                SCALE[27] == 8,
        ;
    } else if i == 212 {
        assert(CODE_ORDER[212] == 223 && CODE_RANK[223] == 212 && HUFFMAN_CODES[223] == 134217701 && HUFFMAN_LENGTHS[223] == 27 && CODE_ORDER[213] == 241 && HUFFMAN_CODES[241] == 134217702 && HUFFMAN_LENGTHS[241] == 27 && SCALE[27] == 8);
        assert(hi(223) == 1073741616) by (nonlinear_arith)
            requires
                HUFFMAN_CODES[223] == 134217701,
                HUFFMAN_LENGTHS[223] == 27,
                SCALE[27] == 8,
        ;
        assert(lo(241) == 1073741616) by (nonlinear_arith)
            requires
                HUFFMAN_CODES[241] == 134217702,
                HUFFMAN_LENGTHS[241] == 27,
                SCALE[27] == 8,
        ;
    } else if i == 213 {
        assert(CODE_ORDER[213] == 241 && CODE_RANK[241] == 213 && HUFFMAN_CODES[241] == 134217702 && HUFFMAN_LENGTHS[241] == 27 && CODE_ORDER[214] == 244 && HUFFMAN_CODES[244] == 134217703 && HUFFMAN_LENGTHS[244] == 27 && SCALE[27] == 8);
        assert(hi(241) == 1073741624) by (nonlinear_arith)
            requires
                HUFFMAN_CODES[241] == 134217702,
                HUFFMAN_LENGTHS[241] == 27,
                SCALE[27] == 8,
        ;
        assert(lo(244) == 1073741624) by (nonlinear_arith)
            requires
                HUFFMAN_CODES[244] == 134217703,
                HUFFMAN_LENGTHS[244] == 27,
                SCALE[27] == 8,
        ;
    } else if i == 214 {
        assert(CODE_ORDER[214] == 244 && CODE_RANK[244] == 214 && HUFFMAN_CODES[244] == 134217703 && HUFFMAN_LENGTHS[244] == 27 && CODE_ORDER[215] == 245 && HUFFMAN_CODES[245] == 134217704 && HUFFMAN_LENGTHS[245] == 27 && SCALE[27] == 8);
        assert(hi(244) == 1073741632) by (nonlinear_arith)
            requires
                HUFFMAN_CODES[244] == 134217703,
                HUFFMAN_LENGTHS[244] == 27,
                SCALE[27] == 8,
        ;
        assert(lo(245) == 1073741632) by (nonlinear_arith)
            requires
                HUFFMAN_CODES[245] == 134217704,
                HUFFMAN_LENGTHS[245] == 27,
                SCALE[27] == 8,
        ;
    } else if i == 215 {
        assert(CODE_ORDER[215] == 245 && CODE_RANK[245] == 215 && HUFFMAN_CODES[245] == 134217704 && HUFFMAN_LENGTHS[245] == 27 && CODE_ORDER[216] == 246 && HUFFMAN_CODES[246] == 134217705 && HUFFMAN_LENGTHS[246] == 27 && SCALE[27] == 8);
        assert(hi(245) == 1073741640) by (nonlinear_arith)
            requires
                HUFFMAN_CODES[245] == 134217704,
                HUFFMAN_LENGTHS[245] == 27,
                SCALE[27] == 8,
        ;
        assert(lo(246) == 1073741640) by (nonlinear_arith)
            requires
                HUFFMAN_CODES[246] == 134217705,
                HUFFMAN_LENGTHS[246] == 27,
                SCALE[27] == 8,
        ;
    } else if i == 216 {
        assert(CODE_ORDER[216] == 246 && CODE_RANK[246] == 216 && HUFFMAN_CODES[246] == 134217705 && HUFFMAN_LENGTHS[246] == 27 && CODE_ORDER[217] == 247 && HUFFMAN_CODES[247] == 134217706 && HUFFMAN_LENGTHS[247] == 27 && SCALE[27] == 8);
        assert(hi(246) == 1073741648) by (nonlinear_arith)
            requires
                HUFFMAN_CODES[246] == 134217705,
                HUFFMAN_LENGTHS[246] == 27,
                SCALE[27] == 8,
        ;
        assert(lo(247) == 1073741648) by (nonlinear_arith)
            requires
                HUFFMAN_CODES[247] == 134217706,
                HUFFMAN_LENGTHS[247] == 27,
                SCALE[27] == 8,
        ;
    } else if i == 217 {
        assert(CODE_ORDER[217] == 247 && CODE_RANK[247] == 217 && HUFFMAN_CODES[247] == 134217706 && HUFFMAN_LENGTHS[247] == 27 && CODE_ORDER[218] == 248 && HUFFMAN_CODES[248] == 134217707 && HUFFMAN_LENGTHS[248] == 27 && SCALE[27] == 8);
        assert(hi(247) == 1073741656) by (nonlinear_arith)
            requires
                HUFFMAN_CODES[247] == 134217706,
                HUFFMAN_LENGTHS[247] == 27,
                SCALE[27] == 8,
        ;
        assert(lo(248) == 1073741656) by (nonlinear_arith)
            requires
                HUFFMAN_CODES[248] == 134217707,
                HUFFMAN_LENGTHS[248] == 27,
                SCALE[27] == 8,
        ;
    } else if i == 218 {
        assert(CODE_ORDER[218] == 248 && CODE_RANK[248] == 218 && HUFFMAN_CODES[248] == 134217707 && HUFFMAN_LENGTHS[248] == 27 && CODE_ORDER[219] == 250 && HUFFMAN_CODES[250] == 134217708 && HUFFMAN_LENGTHS[250] == 27 && SCALE[27] == 8);
        assert(hi(248) == 1073741664) by (nonlinear_arith)
            requires
                HUFFMAN_CODES[248] == 134217707,
                HUFFMAN_LENGTHS[248] == 27,
                SCALE[27] == 8,
        ;
        assert(lo(250) == 1073741664) by (nonlinear_arith)
            requires
                HUFFMAN_CODES[250] == 134217708,
                HUFFMAN_LENGTHS[250] == 27,
                SCALE[27] == 8,
        ;
    } else if i == 219 {
        assert(CODE_ORDER[219] == 250 && CODE_RANK[250] == 219 && HUFFMAN_CODES[250] == 134217708 && HUFFMAN_LENGTHS[250] == 27 && CODE_ORDER[220] == 251 && HUFFMAN_CODES[251] == 134217709 && HUFFMAN_LENGTHS[251] == 27 && SCALE[27] == 8);
        assert(hi(250) == 1073741672) by (nonlinear_arith)
            requires
                HUFFMAN_CODES[250] == 134217708,
                HUFFMAN_LENGTHS[250] == 27,
                SCALE[27] == 8,
        ;
        assert(lo(251) == 1073741672) by (nonlinear_arith)
            requires
                HUFFMAN_CODES[251] == 134217709,
                HUFFMAN_LENGTHS[251] == 27,
                SCALE[27] == 8,
        ;
    } else if i == 220 {
        assert(CODE_ORDER[220] == 251 && CODE_RANK[251] == 220 && HUFFMAN_CODES[251] == 134217709 && HUFFMAN_LENGTHS[251] == 27 && CODE_ORDER[221] == 252 && HUFFMAN_CODES[252] == 134217710 && HUFFMAN_LENGTHS[252] == 27 && SCALE[27] == 8);
        assert(hi(251) == 1073741680) by (nonlinear_arith)
            requires
                HUFFMAN_CODES[251] == 134217709,
                HUFFMAN_LENGTHS[251] == 27,
                SCALE[27] == 8,
        ;
        assert(lo(252) == 1073741680) by (nonlinear_arith)
            requires
                HUFFMAN_CODES[252] == 134217710,
                HUFFMAN_LENGTHS[252] == 27,
                SCALE[27] == 8,
        ;
    } else if i == 221 {
        assert(CODE_ORDER[221] == 252 && CODE_RANK[252] == 221 && HUFFMAN_CODES[252] == 134217710 && HUFFMAN_LENGTHS[252] == 27 && CODE_ORDER[222] == 253 && HUFFMAN_CODES[253] == 134217711 && HUFFMAN_LENGTHS[253] == 27 && SCALE[27] == 8);
        assert(hi(252) == 1073741688) by (nonlinear_arith)
            requires
                HUFFMAN_CODES[252] == 134217710,
                HUFFMAN_LENGTHS[252] == 27,
                SCALE[27] == 8,
        ;
        assert(lo(253) == 1073741688) by (nonlinear_arith)
            requires
                HUFFMAN_CODES[253] == 134217711,
                HUFFMAN_LENGTHS[253] == 27,
                SCALE[27] == 8,
        ;
    } else if i == 222 {
        assert(CODE_ORDER[222] == 253 && CODE_RANK[253] == 222 && HUFFMAN_CODES[253] == 134217711 && HUFFMAN_LENGTHS[253] == 27 && CODE_ORDER[223] == 254 && HUFFMAN_CODES[254] == 134217712 && HUFFMAN_LENGTHS[254] == 27 && SCALE[27] == 8);
        assert(hi(253) == 1073741696) by (nonlinear_arith)
            requires
                HUFFMAN_CODES[253] == 134217711,
                HUFFMAN_LENGTHS[253] == 27,
                SCALE[27] == 8,
        ;
        assert(lo(254) == 1073741696) by (nonlinear_arith)
            requires
                HUFFMAN_CODES[254] == 134217712,
                HUFFMAN_LENGTHS[254] == 27,
                SCALE[27] == 8,
        ;
    } else if i == 223 {
        assert(CODE_ORDER[223] == 254 && CODE_RANK[254] == 223 && HUFFMAN_CODES[254] == 134217712 && HUFFMAN_LENGTHS[254] == 27 && CODE_ORDER[224] == 2 && HUFFMAN_CODES[2] == 268435426 && HUFFMAN_LENGTHS[2] == 28 && SCALE[27] == 8 && SCALE[28] == 4);
        assert(hi(254) == 1073741704) by (nonlinear_arith)
            requires
                HUFFMAN_CODES[254] == 134217712,
                HUFFMAN_LENGTHS[254] == 27,
                SCALE[27] == 8,
        ;
        assert(lo(2) == 1073741704) by (nonlinear_arith)
            requires
                HUFFMAN_CODES[2] == 268435426,
                HUFFMAN_LENGTHS[2] == 28,
                SCALE[28] == 4,
        ;
    }
}

proof fn lemma_order_facts_224(i: int)
    requires
        224 <= i < 256,
    ensures
        CODE_ORDER[i] < 257,
        CODE_RANK[CODE_ORDER[i] as int] == i,
        i + 1 < 257 ==> hi(CODE_ORDER[i] as int) <= lo(CODE_ORDER[i + 1] as int),
{
    if i == 224 {
        assert(CODE_ORDER[224] == 2 && CODE_RANK[2] == 224 && HUFFMAN_CODES[2] == 268435426 && HUFFMAN_LENGTHS[2] == 28 && CODE_ORDER[225] == 3 && HUFFMAN_CODES[3] == 268435427 && HUFFMAN_LENGTHS[3] == 28 && SCALE[28] == 4);
        assert(hi(2) == 1073741708) by (nonlinear_arith)
            requires
                HUFFMAN_CODES[2] == 268435426,
                HUFFMAN_LENGTHS[2] == 28,
                SCALE[28] == 4,
        ;
        assert(lo(3) == 1073741708) by (nonlinear_arith)
            requires
                HUFFMAN_CODES[3] == 268435427,
                HUFFMAN_LENGTHS[3] == 28,
                SCALE[28] == 4,
        ;
    } else if i == 225 {
        assert(CODE_ORDER[225] == 3 && CODE_RANK[3] == 225 && HUFFMAN_CODES[3] == 268435427 && HUFFMAN_LENGTHS[3] == 28 && CODE_ORDER[226] == 4 && HUFFMAN_CODES[4] == 268435428 && HUFFMAN_LENGTHS[4] == 28 && SCALE[28] == 4);
        assert(hi(3) == 1073741712) by (nonlinear_arith)
            requires
                HUFFMAN_CODES[3] == 268435427,
                HUFFMAN_LENGTHS[3] == 28,
                SCALE[28] == 4,
        ;
        assert(lo(4) == 1073741712) by (nonlinear_arith)
            requires
                HUFFMAN_CODES[4] == 268435428,
                HUFFMAN_LENGTHS[4] == 28,
                SCALE[28] == 4,
        ;
    } else if i == 226 {
        assert(CODE_ORDER[226] == 4 && CODE_RANK[4] == 226 && HUFFMAN_CODES[4] == 268435428 && HUFFMAN_LENGTHS[4] == 28 && CODE_ORDER[227] == 5 && HUFFMAN_CODES[5] == 268435429 && HUFFMAN_LENGTHS[5] == 28 && SCALE[28] == 4);
        assert(hi(4) == 1073741716) by (nonlinear_arith)
            requires
                HUFFMAN_CODES[4] == 268435428,
                HUFFMAN_LENGTHS[4] == 28,
                SCALE[28] == 4,
        ;
        assert(lo(5) == 1073741716) by (nonlinear_arith)
            requires
                HUFFMAN_CODES[5] == 268435429,
                HUFFMAN_LENGTHS[5] == 28,
                SCALE[28] == 4,
        ;
    } else if i == 227 {
        assert(CODE_ORDER[227] == 5 && CODE_RANK[5] == 227 && HUFFMAN_CODES[5] == 268435429 && HUFFMAN_LENGTHS[5] == 28 && CODE_ORDER[228] == 6 && HUFFMAN_CODES[6] == 268435430 && HUFFMAN_LENGTHS[6] == 28 && SCALE[28] == 4);
        assert(hi(5) == 1073741720) by (nonlinear_arith)
            requires
                HUFFMAN_CODES[5] == 268435429,
                HUFFMAN_LENGTHS[5] == 28,
                SCALE[28] == 4,
        ;
        assert(lo(6) == 1073741720) by (nonlinear_arith)
            requires
                HUFFMAN_CODES[6] == 268435430,
                HUFFMAN_LENGTHS[6] == 28,
                SCALE[28] == 4,
        ;
    } else if i == 228 {
        assert(CODE_ORDER[228] == 6 && CODE_RANK[6] == 228 && HUFFMAN_CODES[6] == 268435430 && HUFFMAN_LENGTHS[6] == 28 && CODE_ORDER[229] == 7 && HUFFMAN_CODES[7] == 268435431 && HUFFMAN_LENGTHS[7] == 28 && SCALE[28] == 4);
        assert(hi(6) == 1073741724) by (nonlinear_arith)
            requires
                HUFFMAN_CODES[6] == 268435430,
                HUFFMAN_LENGTHS[6] == 28,
                SCALE[28] == 4,
        ;
        assert(lo(7) == 1073741724) by (nonlinear_arith)
            requires
                HUFFMAN_CODES[7] == 268435431,
                HUFFMAN_LENGTHS[7] == 28,
                SCALE[28] == 4,
        ;
    } else if i == 229 {
        assert(CODE_ORDER[229] == 7 && CODE_RANK[7] == 229 && HUFFMAN_CODES[7] == 268435431 && HUFFMAN_LENGTHS[7] == 28 && CODE_ORDER[230] == 8 && HUFFMAN_CODES[8] == 268435432 && HUFFMAN_LENGTHS[8] == 28 && SCALE[28] == 4);
        assert(hi(7) == 1073741728) by (nonlinear_arith)
            requires
                HUFFMAN_CODES[7] == 268435431,
                HUFFMAN_LENGTHS[7] == 28,
                SCALE[28] == 4,
        ;
        assert(lo(8) == 1073741728) by (nonlinear_arith)
            requires
                HUFFMAN_CODES[8] == 268435432,
                HUFFMAN_LENGTHS[8] == 28,
                SCALE[28] == 4,
        ;
    } else if i == 230 {
        assert(CODE_ORDER[230] == 8 && CODE_RANK[8] == 230 && HUFFMAN_CODES[8] == 268435432 && HUFFMAN_LENGTHS[8] == 28 && CODE_ORDER[231] == 11 && HUFFMAN_CODES[11] == 268435433 && HUFFMAN_LENGTHS[11] == 28 && SCALE[28] == 4);
        assert(hi(8) == 1073741732) by (nonlinear_arith)
            requires
                HUFFMAN_CODES[8] == 268435432,
                HUFFMAN_LENGTHS[8] == 28,
                SCALE[28] == 4,
        ;
        assert(lo(11) == 1073741732) by (nonlinear_arith)
            requires
                HUFFMAN_CODES[11] == 268435433,
                HUFFMAN_LENGTHS[11] == 28,
                SCALE[28] == 4,
        ;
    } else if i == 231 {
        assert(CODE_ORDER[231] == 11 && CODE_RANK[11] == 231 && HUFFMAN_CODES[11] == 268435433 && HUFFMAN_LENGTHS[11] == 28 && CODE_ORDER[232] == 12 && HUFFMAN_CODES[12] == 268435434 && HUFFMAN_LENGTHS[12] == 28 && SCALE[28] == 4);
        assert(hi(11) == 1073741736) by (nonlinear_arith)
            requires
                HUFFMAN_CODES[11] == 268435433,
                HUFFMAN_LENGTHS[11] == 28,
                SCALE[28] == 4,
        ;
        assert(lo(12) == 1073741736) by (nonlinear_arith)
            requires
                HUFFMAN_CODES[12] == 268435434,
                HUFFMAN_LENGTHS[12] == 28,
                SCALE[28] == 4,
        ;
    } else if i == 232 {
        assert(CODE_ORDER[232] == 12 && CODE_RANK[12] == 232 && HUFFMAN_CODES[12] == 268435434 && HUFFMAN_LENGTHS[12] == 28 && CODE_ORDER[233] == 14 && HUFFMAN_CODES[14] == 268435435 && HUFFMAN_LENGTHS[14] == 28 && SCALE[28] == 4);
        assert(hi(12) == 1073741740) by (nonlinear_arith)
            requires
                HUFFMAN_CODES[12] == 268435434,
                HUFFMAN_LENGTHS[12] == 28,
                SCALE[28] == 4,
        ;
        assert(lo(14) == 1073741740) by (nonlinear_arith)
            requires
                HUFFMAN_CODES[14] == 268435435,
                HUFFMAN_LENGTHS[14] == 28,
                SCALE[28] == 4,
        ;
    } else if i == 233 {
        assert(CODE_ORDER[233] == 14 && CODE_RANK[14] == 233 && HUFFMAN_CODES[14] == 268435435 && HUFFMAN_LENGTHS[14] == 28 && CODE_ORDER[234] == 15 && HUFFMAN_CODES[15] == 268435436 && HUFFMAN_LENGTHS[15] == 28 && SCALE[28] == 4);
        assert(hi(14) == 1073741744) by (nonlinear_arith)
            requires
                HUFFMAN_CODES[14] == 268435435,
                HUFFMAN_LENGTHS[14] == 28,
                SCALE[28] == 4,
        ;
        assert(lo(15) == 1073741744) by (nonlinear_arith)
            requires
                HUFFMAN_CODES[15] == 268435436,
                HUFFMAN_LENGTHS[15] == 28,
                SCALE[28] == 4,
        ;
    } else if i == 234 {
        assert(CODE_ORDER[234] == 15 && CODE_RANK[15] == 234 && HUFFMAN_CODES[15] == 268435436 && HUFFMAN_LENGTHS[15] == 28 && CODE_ORDER[235] == 16 && HUFFMAN_CODES[16] == 268435437 && HUFFMAN_LENGTHS[16] == 28 && SCALE[28] == 4);
        assert(hi(15) == 1073741748) by (nonlinear_arith)
            requires
                HUFFMAN_CODES[15] == 268435436,
                HUFFMAN_LENGTHS[15] == 28,
                SCALE[28] == 4,
        ;
        assert(lo(16) == 1073741748) by (nonlinear_arith)
            requires
                HUFFMAN_CODES[16] == 268435437,
                HUFFMAN_LENGTHS[16] == 28,
                SCALE[28] == 4,
        ;
    } else if i == 235 {
        assert(CODE_ORDER[235] == 16 && CODE_RANK[16] == 235 && HUFFMAN_CODES[16] == 268435437 && HUFFMAN_LENGTHS[16] == 28 && CODE_ORDER[236] == 17 && HUFFMAN_CODES[17] == 268435438 && HUFFMAN_LENGTHS[17] == 28 && SCALE[28] == 4);
        assert(hi(16) == 1073741752) by (nonlinear_arith)
            requires
                HUFFMAN_CODES[16] == 268435437,
                HUFFMAN_LENGTHS[16] == 28,
                SCALE[28] == 4,
        ;
        assert(lo(17) == 1073741752) by (nonlinear_arith)
            requires
                HUFFMAN_CODES[17] == 268435438,
                HUFFMAN_LENGTHS[17] == 28,
                SCALE[28] == 4,
        ;
    } else if i == 236 {
        assert(CODE_ORDER[236] == 17 && CODE_RANK[17] == 236 && HUFFMAN_CODES[17] == 268435438 && HUFFMAN_LENGTHS[17] == 28 && CODE_ORDER[237] == 18 && HUFFMAN_CODES[18] == 268435439 && HUFFMAN_LENGTHS[18] == 28 && SCALE[28] == 4);
        assert(hi(17) == 1073741756) by (nonlinear_arith)
            requires
                HUFFMAN_CODES[17] == 268435438,
                HUFFMAN_LENGTHS[17] == 28,
                SCALE[28] == 4,
        ;
        assert(lo(18) == 1073741756) by (nonlinear_arith)
            requires
                HUFFMAN_CODES[18] == 268435439,
                HUFFMAN_LENGTHS[18] == 28,
                SCALE[28] == 4,
        ;
    } else if i == 237 {
        assert(CODE_ORDER[237] == 18 && CODE_RANK[18] == 237 && HUFFMAN_CODES[18] == 268435439 && HUFFMAN_LENGTHS[18] == 28 && CODE_ORDER[238] == 19 && HUFFMAN_CODES[19] == 268435440 && HUFFMAN_LENGTHS[19] == 28 && SCALE[28] == 4);
        assert(hi(18) == 1073741760) by (nonlinear_arith)
            requires
                HUFFMAN_CODES[18] == 268435439,
                HUFFMAN_LENGTHS[18] == 28,
                SCALE[28] == 4,
        ;
        assert(lo(19) == 1073741760) by (nonlinear_arith)
            requires
                HUFFMAN_CODES[19] == 268435440,
                HUFFMAN_LENGTHS[19] == 28,
                SCALE[28] == 4,
        ;
    } else if i == 238 {
        assert(CODE_ORDER[238] == 19 && CODE_RANK[19] == 238 && HUFFMAN_CODES[19] == 268435440 && HUFFMAN_LENGTHS[19] == 28 && CODE_ORDER[239] == 20 && HUFFMAN_CODES[20] == 268435441 && HUFFMAN_LENGTHS[20] == 28 && SCALE[28] == 4);
        assert(hi(19) == 1073741764) by (nonlinear_arith)
            requires
                HUFFMAN_CODES[19] == 268435440,
                HUFFMAN_LENGTHS[19] == 28,
                SCALE[28] == 4,
        ;
        assert(lo(20) == 1073741764) by (nonlinear_arith)
            requires
                HUFFMAN_CODES[20] == 268435441,
                HUFFMAN_LENGTHS[20] == 28,
                SCALE[28] == 4,
        ;
    } else if i == 239 {
        assert(CODE_ORDER[239] == 20 && CODE_RANK[20] == 239 && HUFFMAN_CODES[20] == 268435441 && HUFFMAN_LENGTHS[20] == 28 && CODE_ORDER[240] == 21 && HUFFMAN_CODES[21] == 268435442 && HUFFMAN_LENGTHS[21] == 28 && SCALE[28] == 4);
        assert(hi(20) == 1073741768) by (nonlinear_arith)
            requires
                HUFFMAN_CODES[20] == 268435441,
                HUFFMAN_LENGTHS[20] == 28,
                SCALE[28] == 4,
        ;
        assert(lo(21) == 1073741768) by (nonlinear_arith)
            requires
                HUFFMAN_CODES[21] == 268435442,
                HUFFMAN_LENGTHS[21] == 28,
                SCALE[28] == 4,
        ;
    } else if i == 240 {
        assert(CODE_ORDER[240] == 21 && CODE_RANK[21] == 240 && HUFFMAN_CODES[21] == 268435442 && HUFFMAN_LENGTHS[21] == 28 && CODE_ORDER[241] == 23 && HUFFMAN_CODES[23] == 268435443 && HUFFMAN_LENGTHS[23] == 28 && SCALE[28] == 4);
        assert(hi(21) == 1073741772) by (nonlinear_arith)
            requires
                HUFFMAN_CODES[21] == 268435442,
                HUFFMAN_LENGTHS[21] == 28,
                SCALE[28] == 4,
        ;
        assert(lo(23) == 1073741772) by (nonlinear_arith)
            requires
                HUFFMAN_CODES[23] == 268435443,
                HUFFMAN_LENGTHS[23] == 28,
                SCALE[28] == 4,
        ;
    } else if i == 241 {
        assert(CODE_ORDER[241] == 23 && CODE_RANK[23] == 241 && HUFFMAN_CODES[23] == 268435443 && HUFFMAN_LENGTHS[23] == 28 && CODE_ORDER[242] == 24 && HUFFMAN_CODES[24] == 268435444 && HUFFMAN_LENGTHS[24] == 28 && SCALE[28] == 4);
        assert(hi(23) == 1073741776) by (nonlinear_arith)
            requires
                HUFFMAN_CODES[23] == 268435443,
                HUFFMAN_LENGTHS[23] == 28,
                SCALE[28] == 4,
        ;
        assert(lo(24) == 1073741776) by (nonlinear_arith)
            requires
                HUFFMAN_CODES[24] == 268435444,
                HUFFMAN_LENGTHS[24] == 28,
                SCALE[28] == 4,
        ;
    } else if i == 242 {
        assert(CODE_ORDER[242] == 24 && CODE_RANK[24] == 242 && HUFFMAN_CODES[24] == 268435444 && HUFFMAN_LENGTHS[24] == 28 && CODE_ORDER[243] == 25 && HUFFMAN_CODES[25] == 268435445 && HUFFMAN_LENGTHS[25] == 28 && SCALE[28] == 4);
        assert(hi(24) == 1073741780) by (nonlinear_arith)
            requires
                HUFFMAN_CODES[24] == 268435444,
                HUFFMAN_LENGTHS[24] == 28,
                SCALE[28] == 4,
        ;
        assert(lo(25) == 1073741780) by (nonlinear_arith)
            requires
                HUFFMAN_CODES[25] == 268435445,
                HUFFMAN_LENGTHS[25] == 28,
                SCALE[28] == 4,
        ;
    } else if i == 243 {
        assert(CODE_ORDER[243] == 25 && CODE_RANK[25] == 243 && HUFFMAN_CODES[25] == 268435445 && HUFFMAN_LENGTHS[25] == 28 && CODE_ORDER[244] == 26 && HUFFMAN_CODES[26] == 268435446 && HUFFMAN_LENGTHS[26] == 28 && SCALE[28] == 4);
        assert(hi(25) == 1073741784) by (nonlinear_arith)
            requires
                HUFFMAN_CODES[25] == 268435445,
                HUFFMAN_LENGTHS[25] == 28,
                SCALE[28] == 4,
        ;
        assert(lo(26) == 1073741784) by (nonlinear_arith)
            requires
                HUFFMAN_CODES[26] == 268435446,
                HUFFMAN_LENGTHS[26] == 28,
                SCALE[28] == 4,
        ;
    } else if i == 244 {
        assert(CODE_ORDER[244] == 26 && CODE_RANK[26] == 244 && HUFFMAN_CODES[26] == 268435446 && HUFFMAN_LENGTHS[26] == 28 && CODE_ORDER[245] == 27 && HUFFMAN_CODES[27] == 268435447 && HUFFMAN_LENGTHS[27] == 28 && SCALE[28] == 4);
        assert(hi(26) == 1073741788) by (nonlinear_arith)
            requires
                HUFFMAN_CODES[26] == 268435446,
                HUFFMAN_LENGTHS[26] == 28,
                SCALE[28] == 4,
        ;
        assert(lo(27) == 1073741788) by (nonlinear_arith)
            requires
                HUFFMAN_CODES[27] == 268435447,
                HUFFMAN_LENGTHS[27] == 28,
                SCALE[28] == 4,
        ;
    } else if i == 245 {
        assert(CODE_ORDER[245] == 27 && CODE_RANK[27] == 245 && HUFFMAN_CODES[27] == 268435447 && HUFFMAN_LENGTHS[27] == 28 && CODE_ORDER[246] == 28 && HUFFMAN_CODES[28] == 268435448 && HUFFMAN_LENGTHS[28] == 28 && SCALE[28] == 4);
        assert(hi(27) == 1073741792) by (nonlinear_arith)
            requires
                HUFFMAN_CODES[27] == 268435447,
                HUFFMAN_LENGTHS[27] == 28,
                SCALE[28] == 4,
        ;
        assert(lo(28) == 1073741792) by (nonlinear_arith)
            requires
                HUFFMAN_CODES[28] == 268435448,
                HUFFMAN_LENGTHS[28] == 28,
                SCALE[28] == 4,
        ;
    } else if i == 246 {
        assert(CODE_ORDER[246] == 28 && CODE_RANK[28] == 246 && HUFFMAN_CODES[28] == 268435448 && HUFFMAN_LENGTHS[28] == 28 && CODE_ORDER[247] == 29 && HUFFMAN_CODES[29] == 268435449 && HUFFMAN_LENGTHS[29] == 28 && SCALE[28] == 4);
        assert(hi(28) == 1073741796) by (nonlinear_arith)
            requires
                HUFFMAN_CODES[28] == 268435448,
                HUFFMAN_LENGTHS[28] == 28,
                SCALE[28] == 4,
        ;
        assert(lo(29) == 1073741796) by (nonlinear_arith)
            requires
                HUFFMAN_CODES[29] == 268435449,
                HUFFMAN_LENGTHS[29] == 28,
                SCALE[28] == 4,
        ;
    } else if i == 247 {
        assert(CODE_ORDER[247] == 29 && CODE_RANK[29] == 247 && HUFFMAN_CODES[29] == 268435449 && HUFFMAN_LENGTHS[29] == 28 && CODE_ORDER[248] == 30 && HUFFMAN_CODES[30] == 268435450 && HUFFMAN_LENGTHS[30] == 28 && SCALE[28] == 4);
        assert(hi(29) == 1073741800) by (nonlinear_arith)
            requires
                HUFFMAN_CODES[29] == 268435449,
                HUFFMAN_LENGTHS[29] == 28,
                SCALE[28] == 4,
        ;
        assert(lo(30) == 1073741800) by (nonlinear_arith)
            requires
                HUFFMAN_CODES[30] == 268435450,
                HUFFMAN_LENGTHS[30] == 28,
                SCALE[28] == 4,
        ;
    } else if i == 248 {
        assert(CODE_ORDER[248] == 30 && CODE_RANK[30] == 248 && HUFFMAN_CODES[30] == 268435450 && HUFFMAN_LENGTHS[30] == 28 && CODE_ORDER[249] == 31 && HUFFMAN_CODES[31] == 268435451 && HUFFMAN_LENGTHS[31] == 28 && SCALE[28] == 4);
        assert(hi(30) == 1073741804) by (nonlinear_arith)
            requires
                HUFFMAN_CODES[30] == 268435450,
                HUFFMAN_LENGTHS[30] == 28,
                SCALE[28] == 4,
        ;
        assert(lo(31) == 1073741804) by (nonlinear_arith)
            requires
                HUFFMAN_CODES[31] == 268435451,
                HUFFMAN_LENGTHS[31] == 28,
                SCALE[28] == 4,
        ;
    } else if i == 249 {
        assert(CODE_ORDER[249] == 31 && CODE_RANK[31] == 249 && HUFFMAN_CODES[31] == 268435451 && HUFFMAN_LENGTHS[31] == 28 && CODE_ORDER[250] == 127 && HUFFMAN_CODES[127] == 268435452 && HUFFMAN_LENGTHS[127] == 28 && SCALE[28] == 4);
        assert(hi(31) == 1073741808) by (nonlinear_arith)
            requires
                HUFFMAN_CODES[31] == 268435451,
                HUFFMAN_LENGTHS[31] == 28,
                SCALE[28] == 4,
        ;
        assert(lo(127) == 1073741808) by (nonlinear_arith)
            requires
                HUFFMAN_CODES[127] == 268435452,
                HUFFMAN_LENGTHS[127] == 28,
                SCALE[28] == 4,
        ;
    } else if i == 250 {
        assert(CODE_ORDER[250] == 127 && CODE_RANK[127] == 250 && HUFFMAN_CODES[127] == 268435452 && HUFFMAN_LENGTHS[127] == 28 && CODE_ORDER[251] == 220 && HUFFMAN_CODES[220] == 268435453 && HUFFMAN_LENGTHS[220] == 28 && SCALE[28] == 4);
        assert(hi(127) == 1073741812) by (nonlinear_arith)
            requires
                HUFFMAN_CODES[127] == 268435452,
                HUFFMAN_LENGTHS[127] == 28,
                SCALE[28] == 4,
        ;
        assert(lo(220) == 1073741812) by (nonlinear_arith)
            requires
                HUFFMAN_CODES[220] == 268435453,
                HUFFMAN_LENGTHS[220] == 28,
                SCALE[28] == 4,
        ;
    } else if i == 251 {
        assert(CODE_ORDER[251] == 220 && CODE_RANK[220] == 251 && HUFFMAN_CODES[220] == 268435453 && HUFFMAN_LENGTHS[220] == 28 && CODE_ORDER[252] == 249 && HUFFMAN_CODES[249] == 268435454 && HUFFMAN_LENGTHS[249] == 28 && SCALE[28] == 4);
        assert(hi(220) == 1073741816) by (nonlinear_arith)
            requires
                HUFFMAN_CODES[220] == 268435453,
                HUFFMAN_LENGTHS[220] == 28,
                SCALE[28] == 4,
        ;
        assert(lo(249) == 1073741816) by (nonlinear_arith)
            requires
                HUFFMAN_CODES[249] == 268435454,
                HUFFMAN_LENGTHS[249] == 28,
                SCALE[28] == 4,
        ;
    } else if i == 252 {
        assert(CODE_ORDER[252] == 249 && CODE_RANK[249] == 252 && HUFFMAN_CODES[249] == 268435454 && HUFFMAN_LENGTHS[249] == 28 && CODE_ORDER[253] == 10 && HUFFMAN_CODES[10] == 1073741820 && HUFFMAN_LENGTHS[10] == 30 && SCALE[28] == 4 && SCALE[30] == 1);
        assert(hi(249) == 1073741820) by (nonlinear_arith)
            requires
                HUFFMAN_CODES[249] == 268435454,
                HUFFMAN_LENGTHS[249] == 28,
                SCALE[28] == 4,
        ;
        assert(lo(10) == 1073741820) by (nonlinear_arith)
            requires
                HUFFMAN_CODES[10] == 1073741820,
                HUFFMAN_LENGTHS[10] == 30,
                SCALE[30] == 1,
        ;
    } else if i == 253 {
        assert(CODE_ORDER[253] == 10 && CODE_RANK[10] == 253 && HUFFMAN_CODES[10] == 1073741820 && HUFFMAN_LENGTHS[10] == 30 && CODE_ORDER[254] == 13 && HUFFMAN_CODES[13] == 1073741821 && HUFFMAN_LENGTHS[13] == 30 && SCALE[30] == 1);
        assert(hi(10) == 1073741821) by (nonlinear_arith)
            requires
                HUFFMAN_CODES[10] == 1073741820,
                HUFFMAN_LENGTHS[10] == 30,
                SCALE[30] == 1,
        ;
        assert(lo(13) == 1073741821) by (nonlinear_arith)
            requires
                HUFFMAN_CODES[13] == 1073741821,
                HUFFMAN_LENGTHS[13] == 30,
                SCALE[30] == 1,
        ;
    } else if i == 254 {
        assert(CODE_ORDER[254] == 13 && CODE_RANK[13] == 254 && HUFFMAN_CODES[13] == 1073741821 && HUFFMAN_LENGTHS[13] == 30 && CODE_ORDER[255] == 22 && HUFFMAN_CODES[22] == 1073741822 && HUFFMAN_LENGTHS[22] == 30 && SCALE[30] == 1);
        assert(hi(13) == 1073741822) by (nonlinear_arith)
            requires
                HUFFMAN_CODES[13] == 1073741821,
                HUFFMAN_LENGTHS[13] == 30,
                SCALE[30] == 1,
        ;
        assert(lo(22) == 1073741822) by (nonlinear_arith)
            requires
                HUFFMAN_CODES[22] == 1073741822,
                HUFFMAN_LENGTHS[22] == 30,
                SCALE[30] == 1,
        ;
    } else if i == 255 {
        assert(CODE_ORDER[255] == 22 && CODE_RANK[22] == 255 && HUFFMAN_CODES[22] == 1073741822 && HUFFMAN_LENGTHS[22] == 30 && CODE_ORDER[256] == 256 && HUFFMAN_CODES[256] == 1073741823 && HUFFMAN_LENGTHS[256] == 30 && SCALE[30] == 1);
        assert(hi(22) == 1073741823) by (nonlinear_arith)
            requires
                HUFFMAN_CODES[22] == 1073741822,
                HUFFMAN_LENGTHS[22] == 30,
                SCALE[30] == 1,
        ;
        assert(lo(256) == 1073741823) by (nonlinear_arith)
            requires
                HUFFMAN_CODES[256] == 1073741823,
                HUFFMAN_LENGTHS[256] == 30,
                SCALE[30] == 1,
        ;
    }
}

proof fn lemma_order_facts_256(i: int)
    requires
        256 <= i < 257,
    ensures
        CODE_ORDER[i] < 257,
        CODE_RANK[CODE_ORDER[i] as int] == i,
        i + 1 < 257 ==> hi(CODE_ORDER[i] as int) <= lo(CODE_ORDER[i + 1] as int),
{
    if i == 256 {
        assert(CODE_ORDER[256] == 256 && CODE_RANK[256] == 256 && HUFFMAN_CODES[256] == 1073741823 && HUFFMAN_LENGTHS[256] == 30 && SCALE[30] == 1);
        assert(hi(256) == 1073741824) by (nonlinear_arith)
            requires
                HUFFMAN_CODES[256] == 1073741823,
                HUFFMAN_LENGTHS[256] == 30,
                SCALE[30] == 1,
        ;
    }
}

proof fn lemma_rank_0(k: int)
    requires
        0 <= k < 64,
    ensures
        CODE_RANK[k] < 257,
        CODE_ORDER[CODE_RANK[k] as int] == k,
{
    if k == 0 {
        assert(CODE_RANK[0] == 84 && CODE_ORDER[84] == 0);
    } else if k == 1 {
        assert(CODE_RANK[1] == 145 && CODE_ORDER[145] == 1);
    } else if k == 2 {
        assert(CODE_RANK[2] == 224 && CODE_ORDER[224] == 2);
    } else if k == 3 {
        assert(CODE_RANK[3] == 225 && CODE_ORDER[225] == 3);
    } else if k == 4 {
        assert(CODE_RANK[4] == 226 && CODE_ORDER[226] == 4);
    } else if k == 5 {
        assert(CODE_RANK[5] == 227 && CODE_ORDER[227] == 5);
    } else if k == 6 {
        assert(CODE_RANK[6] == 228 && CODE_ORDER[228] == 6);
    } else if k == 7 {
        assert(CODE_RANK[7] == 229 && CODE_ORDER[229] == 7);
    } else if k == 8 {
        assert(CODE_RANK[8] == 230 && CODE_ORDER[230] == 8);
    } else if k == 9 {
        assert(CODE_RANK[9] == 174 && CODE_ORDER[174] == 9);
    } else if k == 10 {
        assert(CODE_RANK[10] == 253 && CODE_ORDER[253] == 10);
    } else if k == 11 {
        assert(CODE_RANK[11] == 231 && CODE_ORDER[231] == 11);
    } else if k == 12 {
        assert(CODE_RANK[12] == 232 && CODE_ORDER[232] == 12);
    } else if k == 13 {
        assert(CODE_RANK[13] == 254 && CODE_ORDER[254] == 13);
    } else if k == 14 {
        assert(CODE_RANK[14] == 233 && CODE_ORDER[233] == 14);
    } else if k == 15 {
        assert(CODE_RANK[15] == 234 && CODE_ORDER[234] == 15);
    } else if k == 16 {
        assert(CODE_RANK[16] == 235 && CODE_ORDER[235] == 16);
    } else if k == 17 {
        assert(CODE_RANK[17] == 236 && CODE_ORDER[236] == 17);
    } else if k == 18 {
        assert(CODE_RANK[18] == 237 && CODE_ORDER[237] == 18);
    } else if k == 19 {
        assert(CODE_RANK[19] == 238 && CODE_ORDER[238] == 19);
    } else if k == 20 {
        assert(CODE_RANK[20] == 239 && CODE_ORDER[239] == 20);
    } else if k == 21 {
        assert(CODE_RANK[21] == 240 && CODE_ORDER[240] == 21);
    } else if k == 22 {
        assert(CODE_RANK[22] == 255 && CODE_ORDER[255] == 22);
    } else if k == 23 {
        assert(CODE_RANK[23] == 241 && CODE_ORDER[241] == 23);
    } else if k == 24 {
        assert(CODE_RANK[24] == 242 && CODE_ORDER[242] == 24);
    } else if k == 25 {
        assert(CODE_RANK[25] == 243 && CODE_ORDER[243] == 25);
    } else if k == 26 {
        assert(CODE_RANK[26] == 244 && CODE_ORDER[244] == 26);
    } else if k == 27 {
        assert(CODE_RANK[27] == 245 && CODE_ORDER[245] == 27);
    } else if k == 28 {
        assert(CODE_RANK[28] == 246 && CODE_ORDER[246] == 28);
    } else if k == 29 {
        assert(CODE_RANK[29] == 247 && CODE_ORDER[247] == 29);
    } else if k == 30 {
        assert(CODE_RANK[30] == 248 && CODE_ORDER[248] == 30);
    } else if k == 31 {
        assert(CODE_RANK[31] == 249 && CODE_ORDER[249] == 31);
    } else if k == 32 {
        assert(CODE_RANK[32] == 10 && CODE_ORDER[10] == 32);
    } else if k == 33 {
        assert(CODE_RANK[33] == 74 && CODE_ORDER[74] == 33);
    } else if k == 34 {
        assert(CODE_RANK[34] == 75 && CODE_ORDER[75] == 34);
    } else if k == 35 {
        assert(CODE_RANK[35] == 82 && CODE_ORDER[82] == 35);
    } else if k == 36 {
        assert(CODE_RANK[36] == 85 && CODE_ORDER[85] == 36);
    } else if k == 37 {
        assert(CODE_RANK[37] == 11 && CODE_ORDER[11] == 37);
    } else if k == 38 {
        assert(CODE_RANK[38] == 68 && CODE_ORDER[68] == 38);
    } else if k == 39 {
        assert(CODE_RANK[39] == 79 && CODE_ORDER[79] == 39);
    } else if k == 40 {
        assert(CODE_RANK[40] == 76 && CODE_ORDER[76] == 40);
    } else if k == 41 {
        assert(CODE_RANK[41] == 77 && CODE_ORDER[77] == 41);
    } else if k == 42 {
        assert(CODE_RANK[42] == 69 && CODE_ORDER[69] == 42);
    } else if k == 43 {
        assert(CODE_RANK[43] == 80 && CODE_ORDER[80] == 43);
    } else if k == 44 {
        assert(CODE_RANK[44] == 70 && CODE_ORDER[70] == 44);
    } else if k == 45 {
        assert(CODE_RANK[45] == 12 && CODE_ORDER[12] == 45);
    } else if k == 46 {
        assert(CODE_RANK[46] == 13 && CODE_ORDER[13] == 46);
    } else if k == 47 {
        assert(CODE_RANK[47] == 14 && CODE_ORDER[14] == 47);
    } else if k == 48 {
        assert(CODE_RANK[48] == 0 && CODE_ORDER[0] == 48);
    } else if k == 49 {
        assert(CODE_RANK[49] == 1 && CODE_ORDER[1] == 49);
    } else if k == 50 {
        assert(CODE_RANK[50] == 2 && CODE_ORDER[2] == 50);
    } else if k == 51 {
        assert(CODE_RANK[51] == 15 && CODE_ORDER[15] == 51);
    } else if k == 52 {
        assert(CODE_RANK[52] == 16 && CODE_ORDER[16] == 52);
    } else if k == 53 {
        assert(CODE_RANK[53] == 17 && CODE_ORDER[17] == 53);
    } else if k == 54 {
        assert(CODE_RANK[54] == 18 && CODE_ORDER[18] == 54);
    } else if k == 55 {
        assert(CODE_RANK[55] == 19 && CODE_ORDER[19] == 55);
    } else if k == 56 {
        assert(CODE_RANK[56] == 20 && CODE_ORDER[20] == 56);
    } else if k == 57 {
        assert(CODE_RANK[57] == 21 && CODE_ORDER[21] == 57);
    } else if k == 58 {
        assert(CODE_RANK[58] == 36 && CODE_ORDER[36] == 58);
    } else if k == 59 {
        assert(CODE_RANK[59] == 71 && CODE_ORDER[71] == 59);
    } else if k == 60 {
        assert(CODE_RANK[60] == 92 && CODE_ORDER[92] == 60);
    } else if k == 61 {
        assert(CODE_RANK[61] == 22 && CODE_ORDER[22] == 61);
    } else if k == 62 {
        assert(CODE_RANK[62] == 83 && CODE_ORDER[83] == 62);
    } else if k == 63 {
        assert(CODE_RANK[63] == 78 && CODE_ORDER[78] == 63);
    }
}

proof fn lemma_rank_64(k: int)
    requires
        64 <= k < 128,
    ensures
        CODE_RANK[k] < 257,
        CODE_ORDER[CODE_RANK[k] as int] == k,
{
    if k == 64 {
        assert(CODE_RANK[64] == 86 && CODE_ORDER[86] == 64);
    } else if k == 65 {
        assert(CODE_RANK[65] == 23 && CODE_ORDER[23] == 65);
    } else if k == 66 {
        assert(CODE_RANK[66] == 37 && CODE_ORDER[37] == 66);
    } else if k == 67 {
        assert(CODE_RANK[67] == 38 && CODE_ORDER[38] == 67);
    } else if k == 68 {
        assert(CODE_RANK[68] == 39 && CODE_ORDER[39] == 68);
    } else if k == 69 {
        assert(CODE_RANK[69] == 40 && CODE_ORDER[40] == 69);
    } else if k == 70 {
        assert(CODE_RANK[70] == 41 && CODE_ORDER[41] == 70);
    } else if k == 71 {
        assert(CODE_RANK[71] == 42 && CODE_ORDER[42] == 71);
    } else if k == 72 {
        assert(CODE_RANK[72] == 43 && CODE_ORDER[43] == 72);
    } else if k == 73 {
        assert(CODE_RANK[73] == 44 && CODE_ORDER[44] == 73);
    } else if k == 74 {
        assert(CODE_RANK[74] == 45 && CODE_ORDER[45] == 74);
    } else if k == 75 {
        assert(CODE_RANK[75] == 46 && CODE_ORDER[46] == 75);
    } else if k == 76 {
        assert(CODE_RANK[76] == 47 && CODE_ORDER[47] == 76);
    } else if k == 77 {
        assert(CODE_RANK[77] == 48 && CODE_ORDER[48] == 77);
    } else if k == 78 {
        assert(CODE_RANK[78] == 49 && CODE_ORDER[49] == 78);
    } else if k == 79 {
        assert(CODE_RANK[79] == 50 && CODE_ORDER[50] == 79);
    } else if k == 80 {
        assert(CODE_RANK[80] == 51 && CODE_ORDER[51] == 80);
    } else if k == 81 {
        assert(CODE_RANK[81] == 52 && CODE_ORDER[52] == 81);
    } else if k == 82 {
        assert(CODE_RANK[82] == 53 && CODE_ORDER[53] == 82);
    } else if k == 83 {
        assert(CODE_RANK[83] == 54 && CODE_ORDER[54] == 83);
    } else if k == 84 {
        assert(CODE_RANK[84] == 55 && CODE_ORDER[55] == 84);
    } else if k == 85 {
        assert(CODE_RANK[85] == 56 && CODE_ORDER[56] == 85);
    } else if k == 86 {
        assert(CODE_RANK[86] == 57 && CODE_ORDER[57] == 86);
    } else if k == 87 {
        assert(CODE_RANK[87] == 58 && CODE_ORDER[58] == 87);
    } else if k == 88 {
        assert(CODE_RANK[88] == 72 && CODE_ORDER[72] == 88);
    } else if k == 89 {
        assert(CODE_RANK[89] == 59 && CODE_ORDER[59] == 89);
    } else if k == 90 {
        assert(CODE_RANK[90] == 73 && CODE_ORDER[73] == 90);
    } else if k == 91 {
        assert(CODE_RANK[91] == 87 && CODE_ORDER[87] == 91);
    } else if k == 92 {
        assert(CODE_RANK[92] == 95 && CODE_ORDER[95] == 92);
    } else if k == 93 {
        assert(CODE_RANK[93] == 88 && CODE_ORDER[88] == 93);
    } else if k == 94 {
        assert(CODE_RANK[94] == 90 && CODE_ORDER[90] == 94);
    } else if k == 95 {
        assert(CODE_RANK[95] == 24 && CODE_ORDER[24] == 95);
    } else if k == 96 {
        assert(CODE_RANK[96] == 93 && CODE_ORDER[93] == 96);
    } else if k == 97 {
        assert(CODE_RANK[97] == 3 && CODE_ORDER[3] == 97);
    } else if k == 98 {
        assert(CODE_RANK[98] == 25 && CODE_ORDER[25] == 98);
    } else if k == 99 {
        assert(CODE_RANK[99] == 4 && CODE_ORDER[4] == 99);
    } else if k == 100 {
        assert(CODE_RANK[100] == 26 && CODE_ORDER[26] == 100);
    } else if k == 101 {
        assert(CODE_RANK[101] == 5 && CODE_ORDER[5] == 101);
    } else if k == 102 {
        assert(CODE_RANK[102] == 27 && CODE_ORDER[27] == 102);
    } else if k == 103 {
        assert(CODE_RANK[103] == 28 && CODE_ORDER[28] == 103);
    } else if k == 104 {
        assert(CODE_RANK[104] == 29 && CODE_ORDER[29] == 104);
    } else if k == 105 {
        assert(CODE_RANK[105] == 6 && CODE_ORDER[6] == 105);
    } else if k == 106 {
        assert(CODE_RANK[106] == 60 && CODE_ORDER[60] == 106);
    } else if k == 107 {
        assert(CODE_RANK[107] == 61 && CODE_ORDER[61] == 107);
    } else if k == 108 {
        assert(CODE_RANK[108] == 30 && CODE_ORDER[30] == 108);
    } else if k == 109 {
        assert(CODE_RANK[109] == 31 && CODE_ORDER[31] == 109);
    } else if k == 110 {
        assert(CODE_RANK[110] == 32 && CODE_ORDER[32] == 110);
    } else if k == 111 {
        assert(CODE_RANK[111] == 7 && CODE_ORDER[7] == 111);
    } else if k == 112 {
        assert(CODE_RANK[112] == 33 && CODE_ORDER[33] == 112);
    } else if k == 113 {
        assert(CODE_RANK[113] == 62 && CODE_ORDER[62] == 113);
    } else if k == 114 {
        assert(CODE_RANK[114] == 34 && CODE_ORDER[34] == 114);
    } else if k == 115 {
        assert(CODE_RANK[115] == 8 && CODE_ORDER[8] == 115);
    } else if k == 116 {
        assert(CODE_RANK[116] == 9 && CODE_ORDER[9] == 116);
    } else if k == 117 {
        assert(CODE_RANK[117] == 35 && CODE_ORDER[35] == 117);
    } else if k == 118 {
        assert(CODE_RANK[118] == 63 && CODE_ORDER[63] == 118);
    } else if k == 119 {
        assert(CODE_RANK[119] == 64 && CODE_ORDER[64] == 119);
    } else if k == 120 {
        assert(CODE_RANK[120] == 65 && CODE_ORDER[65] == 120);
    } else if k == 121 {
        assert(CODE_RANK[121] == 66 && CODE_ORDER[66] == 121);
    } else if k == 122 {
        assert(CODE_RANK[122] == 67 && CODE_ORDER[67] == 122);
    } else if k == 123 {
        assert(CODE_RANK[123] == 94 && CODE_ORDER[94] == 123);
    } else if k == 124 {
        assert(CODE_RANK[124] == 81 && CODE_ORDER[81] == 124);
    } else if k == 125 {
        assert(CODE_RANK[125] == 91 && CODE_ORDER[91] == 125);
    } else if k == 126 {
        assert(CODE_RANK[126] == 89 && CODE_ORDER[89] == 126);
    } else if k == 127 {
        assert(CODE_RANK[127] == 250 && CODE_ORDER[250] == 127);
    }
}

proof fn lemma_rank_128(k: int)
    requires
        128 <= k < 192,
    ensures
        CODE_RANK[k] < 257,
        CODE_ORDER[CODE_RANK[k] as int] == k,
{
    if k == 128 {
        assert(CODE_RANK[128] == 98 && CODE_ORDER[98] == 128);
    } else if k == 129 {
        assert(CODE_RANK[129] == 119 && CODE_ORDER[119] == 129);
    } else if k == 130 {
        assert(CODE_RANK[130] == 99 && CODE_ORDER[99] == 130);
    } else if k == 131 {
        assert(CODE_RANK[131] == 100 && CODE_ORDER[100] == 131);
    } else if k == 132 {
        assert(CODE_RANK[132] == 120 && CODE_ORDER[120] == 132);
    } else if k == 133 {
        assert(CODE_RANK[133] == 121 && CODE_ORDER[121] == 133);
    } else if k == 134 {
        assert(CODE_RANK[134] == 122 && CODE_ORDER[122] == 134);
    } else if k == 135 {
        assert(CODE_RANK[135] == 146 && CODE_ORDER[146] == 135);
    } else if k == 136 {
        assert(CODE_RANK[136] == 123 && CODE_ORDER[123] == 136);
    } else if k == 137 {
        assert(CODE_RANK[137] == 147 && CODE_ORDER[147] == 137);
    } else if k == 138 {
        assert(CODE_RANK[138] == 148 && CODE_ORDER[148] == 138);
    } else if k == 139 {
        assert(CODE_RANK[139] == 149 && CODE_ORDER[149] == 139);
    } else if k == 140 {
        assert(CODE_RANK[140] == 150 && CODE_ORDER[150] == 140);
    } else if k == 141 {
        assert(CODE_RANK[141] == 151 && CODE_ORDER[151] == 141);
    } else if k == 142 {
        assert(CODE_RANK[142] == 175 && CODE_ORDER[175] == 142);
    } else if k == 143 {
        assert(CODE_RANK[143] == 152 && CODE_ORDER[152] == 143);
    } else if k == 144 {
        assert(CODE_RANK[144] == 176 && CODE_ORDER[176] == 144);
    } else if k == 145 {
        assert(CODE_RANK[145] == 177 && CODE_ORDER[177] == 145);
    } else if k == 146 {
        assert(CODE_RANK[146] == 124 && CODE_ORDER[124] == 146);
    } else if k == 147 {
        assert(CODE_RANK[147] == 153 && CODE_ORDER[153] == 147);
    } else if k == 148 {
        assert(CODE_RANK[148] == 178 && CODE_ORDER[178] == 148);
    } else if k == 149 {
        assert(CODE_RANK[149] == 154 && CODE_ORDER[154] == 149);
    } else if k == 150 {
        assert(CODE_RANK[150] == 155 && CODE_ORDER[155] == 150);
    } else if k == 151 {
        assert(CODE_RANK[151] == 156 && CODE_ORDER[156] == 151);
    } else if k == 152 {
        assert(CODE_RANK[152] == 157 && CODE_ORDER[157] == 152);
    } else if k == 153 {
        assert(CODE_RANK[153] == 106 && CODE_ORDER[106] == 153);
    } else if k == 154 {
        assert(CODE_RANK[154] == 125 && CODE_ORDER[125] == 154);
    } else if k == 155 {
        assert(CODE_RANK[155] == 158 && CODE_ORDER[158] == 155);
    } else if k == 156 {
        assert(CODE_RANK[156] == 126 && CODE_ORDER[126] == 156);
    } else if k == 157 {
        assert(CODE_RANK[157] == 159 && CODE_ORDER[159] == 157);
    } else if k == 158 {
        assert(CODE_RANK[158] == 160 && CODE_ORDER[160] == 158);
    } else if k == 159 {
        assert(CODE_RANK[159] == 179 && CODE_ORDER[179] == 159);
    } else if k == 160 {
        assert(CODE_RANK[160] == 127 && CODE_ORDER[127] == 160);
    } else if k == 161 {
        assert(CODE_RANK[161] == 107 && CODE_ORDER[107] == 161);
    } else if k == 162 {
        assert(CODE_RANK[162] == 101 && CODE_ORDER[101] == 162);
    } else if k == 163 {
        assert(CODE_RANK[163] == 128 && CODE_ORDER[128] == 163);
    } else if k == 164 {
        assert(CODE_RANK[164] == 129 && CODE_ORDER[129] == 164);
    } else if k == 165 {
        assert(CODE_RANK[165] == 161 && CODE_ORDER[161] == 165);
    } else if k == 166 {
        assert(CODE_RANK[166] == 162 && CODE_ORDER[162] == 166);
    } else if k == 167 {
        assert(CODE_RANK[167] == 108 && CODE_ORDER[108] == 167);
    } else if k == 168 {
        assert(CODE_RANK[168] == 163 && CODE_ORDER[163] == 168);
    } else if k == 169 {
        assert(CODE_RANK[169] == 130 && CODE_ORDER[130] == 169);
    } else if k == 170 {
        assert(CODE_RANK[170] == 131 && CODE_ORDER[131] == 170);
    } else if k == 171 {
        assert(CODE_RANK[171] == 180 && CODE_ORDER[180] == 171);
    } else if k == 172 {
        assert(CODE_RANK[172] == 109 && CODE_ORDER[109] == 172);
    } else if k == 173 {
        assert(CODE_RANK[173] == 132 && CODE_ORDER[132] == 173);
    } else if k == 174 {
        assert(CODE_RANK[174] == 164 && CODE_ORDER[164] == 174);
    } else if k == 175 {
        assert(CODE_RANK[175] == 165 && CODE_ORDER[165] == 175);
    } else if k == 176 {
        assert(CODE_RANK[176] == 110 && CODE_ORDER[110] == 176);
    } else if k == 177 {
        assert(CODE_RANK[177] == 111 && CODE_ORDER[111] == 177);
    } else if k == 178 {
        assert(CODE_RANK[178] == 133 && CODE_ORDER[133] == 178);
    } else if k == 179 {
        assert(CODE_RANK[179] == 112 && CODE_ORDER[112] == 179);
    } else if k == 180 {
        assert(CODE_RANK[180] == 166 && CODE_ORDER[166] == 180);
    } else if k == 181 {
        assert(CODE_RANK[181] == 134 && CODE_ORDER[134] == 181);
    } else if k == 182 {
        assert(CODE_RANK[182] == 167 && CODE_ORDER[167] == 182);
    } else if k == 183 {
        assert(CODE_RANK[183] == 168 && CODE_ORDER[168] == 183);
    } else if k == 184 {
        assert(CODE_RANK[184] == 102 && CODE_ORDER[102] == 184);
    } else if k == 185 {
        assert(CODE_RANK[185] == 135 && CODE_ORDER[135] == 185);
    } else if k == 186 {
        assert(CODE_RANK[186] == 136 && CODE_ORDER[136] == 186);
    } else if k == 187 {
        assert(CODE_RANK[187] == 137 && CODE_ORDER[137] == 187);
    } else if k == 188 {
        assert(CODE_RANK[188] == 169 && CODE_ORDER[169] == 188);
    } else if k == 189 {
        assert(CODE_RANK[189] == 138 && CODE_ORDER[138] == 189);
    } else if k == 190 {
        assert(CODE_RANK[190] == 139 && CODE_ORDER[139] == 190);
    } else if k == 191 {
        assert(CODE_RANK[191] == 170 && CODE_ORDER[170] == 191);
    }
}

proof fn lemma_rank_192(k: int)
    requires
        192 <= k < 257,
    ensures
        CODE_RANK[k] < 257,
        CODE_ORDER[CODE_RANK[k] as int] == k,
{
    if k == 192 {
        assert(CODE_RANK[192] == 190 && CODE_ORDER[190] == 192);
    } else if k == 193 {
        assert(CODE_RANK[193] == 191 && CODE_ORDER[191] == 193);
    } else if k == 194 {
        assert(CODE_RANK[194] == 103 && CODE_ORDER[103] == 194);
    } else if k == 195 {
        assert(CODE_RANK[195] == 96 && CODE_ORDER[96] == 195);
    } else if k == 196 {
        assert(CODE_RANK[196] == 140 && CODE_ORDER[140] == 196);
    } else if k == 197 {
        assert(CODE_RANK[197] == 171 && CODE_ORDER[171] == 197);
    } else if k == 198 {
        assert(CODE_RANK[198] == 141 && CODE_ORDER[141] == 198);
    } else if k == 199 {
        assert(CODE_RANK[199] == 186 && CODE_ORDER[186] == 199);
    } else if k == 200 {
        assert(CODE_RANK[200] == 192 && CODE_ORDER[192] == 200);
    } else if k == 201 {
        assert(CODE_RANK[201] == 193 && CODE_ORDER[193] == 201);
    } else if k == 202 {
        assert(CODE_RANK[202] == 194 && CODE_ORDER[194] == 202);
    } else if k == 203 {
        assert(CODE_RANK[203] == 205 && CODE_ORDER[205] == 203);
    } else if k == 204 {
        assert(CODE_RANK[204] == 206 && CODE_ORDER[206] == 204);
    } else if k == 205 {
        assert(CODE_RANK[205] == 195 && CODE_ORDER[195] == 205);
    } else if k == 206 {
        assert(CODE_RANK[206] == 181 && CODE_ORDER[181] == 206);
    } else if k == 207 {
        assert(CODE_RANK[207] == 187 && CODE_ORDER[187] == 207);
    } else if k == 208 {
        assert(CODE_RANK[208] == 97 && CODE_ORDER[97] == 208);
    } else if k == 209 {
        assert(CODE_RANK[209] == 113 && CODE_ORDER[113] == 209);
    } else if k == 210 {
        assert(CODE_RANK[210] == 196 && CODE_ORDER[196] == 210);
    } else if k == 211 {
        assert(CODE_RANK[211] == 207 && CODE_ORDER[207] == 211);
    } else if k == 212 {
        assert(CODE_RANK[212] == 208 && CODE_ORDER[208] == 212);
    } else if k == 213 {
        assert(CODE_RANK[213] == 197 && CODE_ORDER[197] == 213);
    } else if k == 214 {
        assert(CODE_RANK[214] == 209 && CODE_ORDER[209] == 214);
    } else if k == 215 {
        assert(CODE_RANK[215] == 182 && CODE_ORDER[182] == 215);
    } else if k == 216 {
        assert(CODE_RANK[216] == 114 && CODE_ORDER[114] == 216);
    } else if k == 217 {
        assert(CODE_RANK[217] == 115 && CODE_ORDER[115] == 217);
    } else if k == 218 {
        assert(CODE_RANK[218] == 198 && CODE_ORDER[198] == 218);
    } else if k == 219 {
        assert(CODE_RANK[219] == 199 && CODE_ORDER[199] == 219);
    } else if k == 220 {
        assert(CODE_RANK[220] == 251 && CODE_ORDER[251] == 220);
    } else if k == 221 {
        assert(CODE_RANK[221] == 210 && CODE_ORDER[210] == 221);
    } else if k == 222 {
        assert(CODE_RANK[222] == 211 && CODE_ORDER[211] == 222);
    } else if k == 223 {
        assert(CODE_RANK[223] == 212 && CODE_ORDER[212] == 223);
    } else if k == 224 {
        assert(CODE_RANK[224] == 104 && CODE_ORDER[104] == 224);
    } else if k == 225 {
        assert(CODE_RANK[225] == 183 && CODE_ORDER[183] == 225);
    } else if k == 226 {
        assert(CODE_RANK[226] == 105 && CODE_ORDER[105] == 226);
    } else if k == 227 {
        assert(CODE_RANK[227] == 116 && CODE_ORDER[116] == 227);
    } else if k == 228 {
        assert(CODE_RANK[228] == 142 && CODE_ORDER[142] == 228);
    } else if k == 229 {
        assert(CODE_RANK[229] == 117 && CODE_ORDER[117] == 229);
    } else if k == 230 {
        assert(CODE_RANK[230] == 118 && CODE_ORDER[118] == 230);
    } else if k == 231 {
        assert(CODE_RANK[231] == 172 && CODE_ORDER[172] == 231);
    } else if k == 232 {
        assert(CODE_RANK[232] == 143 && CODE_ORDER[143] == 232);
    } else if k == 233 {
        assert(CODE_RANK[233] == 144 && CODE_ORDER[144] == 233);
    } else if k == 234 {
        assert(CODE_RANK[234] == 188 && CODE_ORDER[188] == 234);
    } else if k == 235 {
        assert(CODE_RANK[235] == 189 && CODE_ORDER[189] == 235);
    } else if k == 236 {
        assert(CODE_RANK[236] == 184 && CODE_ORDER[184] == 236);
    } else if k == 237 {
        assert(CODE_RANK[237] == 185 && CODE_ORDER[185] == 237);
    } else if k == 238 {
        assert(CODE_RANK[238] == 200 && CODE_ORDER[200] == 238);
    } else if k == 239 {
        assert(CODE_RANK[239] == 173 && CODE_ORDER[173] == 239);
    } else if k == 240 {
        assert(CODE_RANK[240] == 201 && CODE_ORDER[201] == 240);
    } else if k == 241 {
        assert(CODE_RANK[241] == 213 && CODE_ORDER[213] == 241);
    } else if k == 242 {
        assert(CODE_RANK[242] == 202 && CODE_ORDER[202] == 242);
    } else if k == 243 {
        assert(CODE_RANK[243] == 203 && CODE_ORDER[203] == 243);
    } else if k == 244 {
        assert(CODE_RANK[244] == 214 && CODE_ORDER[214] == 244);
    } else if k == 245 {
        assert(CODE_RANK[245] == 215 && CODE_ORDER[215] == 245);
    } else if k == 246 {
        assert(CODE_RANK[246] == 216 && CODE_ORDER[216] == 246);
    } else if k == 247 {
        assert(CODE_RANK[247] == 217 && CODE_ORDER[217] == 247);
    } else if k == 248 {
        assert(CODE_RANK[248] == 218 && CODE_ORDER[218] == 248);
    } else if k == 249 {
        assert(CODE_RANK[249] == 252 && CODE_ORDER[252] == 249);
    } else if k == 250 {
        assert(CODE_RANK[250] == 219 && CODE_ORDER[219] == 250);
    } else if k == 251 {
        assert(CODE_RANK[251] == 220 && CODE_ORDER[220] == 251);
    } else if k == 252 {
        assert(CODE_RANK[252] == 221 && CODE_ORDER[221] == 252);
    } else if k == 253 {
        assert(CODE_RANK[253] == 222 && CODE_ORDER[222] == 253);
    } else if k == 254 {
        assert(CODE_RANK[254] == 223 && CODE_ORDER[223] == 254);
    } else if k == 255 {
        assert(CODE_RANK[255] == 204 && CODE_ORDER[204] == 255);
    } else if k == 256 {
        assert(CODE_RANK[256] == 256 && CODE_ORDER[256] == 256);
    }
}


/// The weight table holds the powers of two.
proof fn lemma_scale(l: int)
    requires
        0 <= l <= 30,
    ensures
        SCALE[l] as nat == pow2((30 - l) as nat),
        SCALE[l] > 0,
{
    lemma2_to64();
    assert(SCALE[0] == 0x40000000 && SCALE[1] == 0x20000000 && SCALE[2] == 0x10000000
        && SCALE[3] == 0x8000000 && SCALE[4] == 0x4000000 && SCALE[5] == 0x2000000
        && SCALE[6] == 0x1000000 && SCALE[7] == 0x800000 && SCALE[8] == 0x400000
        && SCALE[9] == 0x200000 && SCALE[10] == 0x100000 && SCALE[11] == 0x80000
        && SCALE[12] == 0x40000 && SCALE[13] == 0x20000 && SCALE[14] == 0x10000
        && SCALE[15] == 0x8000 && SCALE[16] == 0x4000 && SCALE[17] == 0x2000
        && SCALE[18] == 0x1000 && SCALE[19] == 0x800 && SCALE[20] == 0x400
        && SCALE[21] == 0x200 && SCALE[22] == 0x100 && SCALE[23] == 0x80 && SCALE[24] == 0x40
        && SCALE[25] == 0x20 && SCALE[26] == 0x10 && SCALE[27] == 0x8 && SCALE[28] == 0x4
        && SCALE[29] == 0x2 && SCALE[30] == 0x1);
}

proof fn lemma_order_facts(i: int)
    requires
        0 <= i < 257,
    ensures
        CODE_ORDER[i] < 257,
        CODE_RANK[CODE_ORDER[i] as int] == i,
        i + 1 < 257 ==> hi(CODE_ORDER[i] as int) <= lo(CODE_ORDER[i + 1] as int),
{
    if i < 32 {
        lemma_order_facts_0(i);
    } else if i < 64 {
        lemma_order_facts_32(i);
    } else if i < 96 {
        lemma_order_facts_64(i);
    } else if i < 128 {
        lemma_order_facts_96(i);
    } else if i < 160 {
        lemma_order_facts_128(i);
    } else if i < 192 {
        lemma_order_facts_160(i);
    } else if i < 224 {
        lemma_order_facts_192(i);
    } else if i < 256 {
        lemma_order_facts_224(i);
    } else {
        lemma_order_facts_256(i);
    }
}

proof fn lemma_rank(k: int)
    requires
        0 <= k < 257,
    ensures
        CODE_RANK[k] < 257,
        CODE_ORDER[CODE_RANK[k] as int] == k,
{
    if k < 64 {
        lemma_rank_0(k);
    } else if k < 128 {
        lemma_rank_64(k);
    } else if k < 192 {
        lemma_rank_128(k);
    } else {
        lemma_rank_192(k);
    }
}

/// Each code covers a non-empty interval.
proof fn lemma_lo_lt_hi(k: int)
    requires
        0 <= k < 257,
    ensures
        lo(k) < hi(k),
        hi(k) == lo(k) + SCALE[HUFFMAN_LENGTHS[k] as int],
{
    lemma_code_table(k);
    lemma_scale(HUFFMAN_LENGTHS[k] as int);
    let c = HUFFMAN_CODES[k] as nat;
    let sc = SCALE[HUFFMAN_LENGTHS[k] as int] as nat;
    assert((c + 1) * sc == c * sc + sc) by (nonlinear_arith);
}

/// Along the order, the intervals come one after the other.
proof fn lemma_order_increasing(i: int, j: int)
    requires
        0 <= i < j < 257,
    ensures
        hi(CODE_ORDER[i] as int) <= lo(CODE_ORDER[j] as int),
    decreases j - i,
{
    lemma_order_facts(i);
    if j > i + 1 {
        lemma_order_increasing(i, j - 1);
        lemma_order_facts(j - 1);
        lemma_lo_lt_hi(CODE_ORDER[j - 1] as int);
    }
}

/// The intervals of two different symbols do not overlap.
#[verifier::rlimit(40)]
proof fn lemma_disjoint(a: int, b: int)
    requires
        0 <= a < 257,
        0 <= b < 257,
        a != b,
    ensures
        hi(a) <= lo(b) || hi(b) <= lo(a),
{
    lemma_rank(a);
    lemma_rank(b);
    let ra = CODE_RANK[a] as int;
    let rb = CODE_RANK[b] as int;
    if ra < rb {
        lemma_order_increasing(ra, rb);
    } else {
        lemma_order_increasing(rb, ra);
    }
}

/// Two symbols with codes of one length have different codes.
proof fn lemma_codes_distinct(a: int, b: int)
    requires
        0 <= a < 257,
        0 <= b < 257,
        a != b,
        HUFFMAN_LENGTHS[a] == HUFFMAN_LENGTHS[b],
    ensures
        HUFFMAN_CODES[a] != HUFFMAN_CODES[b],
{
    lemma_disjoint(a, b);
    lemma_lo_lt_hi(a);
    lemma_lo_lt_hi(b);
}

/// No code is the start of a longer code.
proof fn lemma_prefix_free(a: int, b: int)
    requires
        0 <= a < 257,
        0 <= b < 257,
        HUFFMAN_LENGTHS[a] < HUFFMAN_LENGTHS[b],
    ensures
        HUFFMAN_CODES[b] as nat / pow2((HUFFMAN_LENGTHS[b] - HUFFMAN_LENGTHS[a]) as nat)
            != HUFFMAN_CODES[a] as nat,
{
    let la = HUFFMAN_LENGTHS[a] as nat;
    let lb = HUFFMAN_LENGTHS[b] as nat;
    let d = (lb - la) as nat;
    let ca = HUFFMAN_CODES[a] as nat;
    let cb = HUFFMAN_CODES[b] as nat;
    lemma_code_table(a);
    lemma_code_table(b);
    lemma_scale(la as int);
    lemma_scale(lb as int);
    lemma_pow2_adds(d, (30 - lb) as nat);
    lemma_pow2_pos(d);
    let pd = pow2(d);
    let sa = SCALE[la as int] as nat;
    let sb = SCALE[lb as int] as nat;
    assert(sa == pd * sb);
    if cb / pd == ca {
        let r = cb % pd;
        assert(cb == ca * pd + r && r < pd) by (nonlinear_arith)
            requires
                cb / pd == ca,
                r == cb % pd,
                pd > 0,
        ;
        assert(lo(b) == ca * sa + r * sb) by (nonlinear_arith)
            requires
                lo(b) == cb * sb,
                cb == ca * pd + r,
                sa == pd * sb,
        ;
        assert(r * sb < sa) by (nonlinear_arith)
            requires
                r < pd,
                sa == pd * sb,
                sb > 0,
        ;
        lemma_lo_lt_hi(a);
        lemma_lo_lt_hi(b);
        lemma_disjoint(a, b);
        assert(false);
    }
}

/// No code of at most seven bits is all ones.
proof fn lemma_ones_not_code(a: int)
    requires
        0 <= a < 257,
        HUFFMAN_LENGTHS[a] <= 7,
    ensures
        HUFFMAN_CODES[a] as nat + 1 != pow2(HUFFMAN_LENGTHS[a] as nat),
{
    let la = HUFFMAN_LENGTHS[a] as nat;
    let ca = HUFFMAN_CODES[a] as nat;
    lemma_code_table(a);
    lemma_code_table(256);
    lemma_scale(la as int);
    lemma_scale(30);
    lemma_pow2_adds(la, (30 - la) as nat);
    lemma2_to64();
    if ca + 1 == pow2(la) {
        let sa = SCALE[la as int] as nat;
        assert(hi(a) == pow2(la) * sa) by (nonlinear_arith)
            requires
                hi(a) == (ca + 1) * sa,
                ca + 1 == pow2(la),
        ;
        assert(lo(a) == hi(a) - sa) by (nonlinear_arith)
            requires
                lo(a) == ca * sa,
                hi(a) == (ca + 1) * sa,
        ;
        assert(lo(256) == 0x3fffffff);
        assert(hi(256) == 0x40000000);
        lemma_lo_lt_hi(a);
        lemma_disjoint(a, 256);
        assert(false);
    }
}


/// The search finds nothing where no symbol has the code.
proof fn lemma_find_none(code: nat, len: nat, i: nat)
    requires
        forall|k: int|
            i <= k < 257 ==> !(HUFFMAN_CODES[k] as nat == code && HUFFMAN_LENGTHS[k] as nat == len),
    ensures
        find_code(code, len, i) is None,
    decreases 257 - i,
{
    if i < 257 {
        lemma_find_none(code, len, i + 1);
    }
}

/// The search for the code of `b`, from any earlier symbol on, finds `b`.
proof fn lemma_find_some(b: int, i: nat)
    requires
        0 <= b < 257,
        i <= b,
    ensures
        find_code(HUFFMAN_CODES[b] as nat, HUFFMAN_LENGTHS[b] as nat, i) == Some(b as nat),
    decreases b - i,
{
    if i < b {
        if HUFFMAN_LENGTHS[i as int] == HUFFMAN_LENGTHS[b] {
            lemma_codes_distinct(i as int, b);
        }
        lemma_find_some(b, i + 1);
    }
}

/// The first `j` bits of a longer code are no code.
proof fn lemma_prefix_not_code(b: int, j: nat)
    requires
        0 <= b < 257,
        j < HUFFMAN_LENGTHS[b],
    ensures
        symbol_with_code(
            HUFFMAN_CODES[b] as nat / pow2((HUFFMAN_LENGTHS[b] - j) as nat),
            j,
        ) is None,
{
    let code = HUFFMAN_CODES[b] as nat / pow2((HUFFMAN_LENGTHS[b] - j) as nat);
    assert forall|k: int| 0 <= k < 257 implies !(HUFFMAN_CODES[k] as nat == code
        && HUFFMAN_LENGTHS[k] as nat == j) by {
        if HUFFMAN_LENGTHS[k] as nat == j {
            lemma_prefix_free(k, b);
        }
    }
    lemma_find_none(code, j, 0);
}

/// Up to seven one bits are no code.
proof fn lemma_ones_no_symbol(j: nat)
    requires
        j <= 7,
    ensures
        symbol_with_code((pow2(j) - 1) as nat, j) is None,
{
    lemma_pow2_pos(j);
    assert forall|k: int| 0 <= k < 257 implies !(HUFFMAN_CODES[k] as nat == (pow2(j) - 1) as nat
        && HUFFMAN_LENGTHS[k] as nat == j) by {
        if HUFFMAN_LENGTHS[k] as nat == j {
            lemma_ones_not_code(k);
        }
    }
    lemma_find_none((pow2(j) - 1) as nat, j, 0);
}

/// One bit that completes no code is taken into the pending code.
proof fn lemma_decode_step(s: Seq<u8>, p0: nat, c0: nat, i: nat, out: Seq<u8>)
    requires
        p0 < 8 * s.len(),
        symbol_with_code(c0 * 2 + bit_at(s, p0), i + 1) is None,
        i + 1 < 30,
    ensures
        decode_bits(s, p0, c0, i, out) == decode_bits(s, p0 + 1, c0 * 2 + bit_at(s, p0), i + 1, out),
{
}

/// One bit that completes the code of a byte emits the byte.
proof fn lemma_decode_found(s: Seq<u8>, p0: nat, c0: nat, i: nat, out: Seq<u8>, b: u8)
    requires
        p0 < 8 * s.len(),
        symbol_with_code(c0 * 2 + bit_at(s, p0), i + 1) == Some(b as nat),
    ensures
        decode_bits(s, p0, c0, i, out) == decode_bits(s, p0 + 1, 0, 0, out.push(b)),
{
}

/// Taking one more bit of a number: the top bits extended by the next bit.
proof fn lemma_next_bit(x: nat, k: nat)
    ensures
        (x / pow2(k + 1)) * 2 + (x / pow2(k)) % 2 == x / pow2(k),
{
    lemma_pow2_pos(k);
    lemma_pow2_adds(k, 1);
    lemma2_to64();
    vstd::arithmetic::div_mod::lemma_div_denominator(x as int, pow2(k) as int, 2);
    let y = x / pow2(k);
    assert(x / pow2(k + 1) == y / 2);
}

/// Bits `pos..pos + len` of `s` spell the `len`-bit number `code`.
spec fn spells(s: Seq<u8>, pos: nat, code: nat, len: nat) -> bool {
    &&& pos + len <= 8 * s.len()
    &&& forall|j: nat| j < len ==> #[trigger] bit_at(s, pos + j) == (code / pow2((len - 1 - j) as nat)) % 2
}

/// While the bits of a symbol's code are read, the decoder holds the bits
/// read so far and has found no symbol.
proof fn lemma_decode_partial(s: Seq<u8>, pos: nat, b: u8, out: Seq<u8>, j: nat)
    requires
        spells(s, pos, code_of(b), length_of(b)),
        j < length_of(b),
    ensures
        decode_bits(s, pos, 0, 0, out) == decode_bits(
            s,
            pos + j,
            code_of(b) / pow2((length_of(b) - j) as nat),
            j,
            out,
        ),
    decreases j,
{
    let l = length_of(b);
    let c = code_of(b);
    lemma_code_table(b as int);
    if j == 0 {
        lemma_pow2_pos(l);
        assert(c / pow2(l) == 0) by {
            vstd::arithmetic::div_mod::lemma_basic_div(c as int, pow2(l) as int);
        }
    } else {
        let i = (j - 1) as nat;
        lemma_decode_partial(s, pos, b, out, i);
        let c0 = c / pow2((l - i) as nat);
        assert(bit_at(s, pos + i) == (c / pow2((l - 1 - i) as nat)) % 2);
        lemma_next_bit(c, (l - j) as nat);
        assert((l - j) as nat + 1 == (l - i) as nat);
        let c1 = c0 * 2 + bit_at(s, pos + i);
        assert(c1 == c / pow2((l - j) as nat));
        lemma_prefix_not_code(b as int, j);
        lemma_decode_step(s, pos + i, c0, i, out);
    }
}

/// Reading the bits of a symbol's code decodes the symbol.
proof fn lemma_decode_symbol(s: Seq<u8>, pos: nat, b: u8, out: Seq<u8>)
    requires
        spells(s, pos, code_of(b), length_of(b)),
    ensures
        decode_bits(s, pos, 0, 0, out) == decode_bits(s, pos + length_of(b), 0, 0, out.push(b)),
{
    let l = length_of(b);
    let c = code_of(b);
    lemma_code_table(b as int);
    let i = (l - 1) as nat;
    lemma_decode_partial(s, pos, b, out, i);
    assert(bit_at(s, pos + i) == (c / pow2(0)) % 2);
    lemma_next_bit(c, 0);
    assert(pow2(0) == 1) by {
        lemma2_to64();
    }
    assert((l - i) as nat == 1);
    lemma_find_some(b as int, 0);
    let c0 = c / pow2((l - i) as nat);
    assert(c0 * 2 + bit_at(s, pos + i) == c);
    lemma_decode_found(s, pos + i, c0, i, out, b);
}


/// The codes of two strings one after the other.
proof fn lemma_code_bits_append(a: Seq<u8>, b: Seq<u8>)
    ensures
        code_bits(a + b).0 == code_bits(a).0 * pow2(code_bits(b).1) + code_bits(b).0,
        code_bits(a + b).1 == code_bits(a).1 + code_bits(b).1,
    decreases b.len(),
{
    if b.len() == 0 {
        assert(a + b =~= a);
        assert(pow2(0) == 1) by {
            lemma2_to64();
        }
        let va = code_bits(a).0;
        assert(code_bits(b) == (0nat, 0nat));
        assert(va * pow2(0) == va) by (nonlinear_arith)
            requires
                pow2(0) == 1,
        ;
    } else {
        let b0 = b.drop_last();
        lemma_code_bits_append(a, b0);
        assert((a + b).drop_last() =~= a + b0);
        assert((a + b).last() == b.last());
        let (va, la) = code_bits(a);
        let (v0, l0) = code_bits(b0);
        let l = length_of(b.last());
        let c = code_of(b.last());
        lemma_pow2_adds(l0, l);
        assert((va * pow2(l0) + v0) * pow2(l) + c == va * (pow2(l0) * pow2(l)) + (v0 * pow2(l) + c))
            by (nonlinear_arith);
    }
}

/// The codes of a string fit in their bit length.
proof fn lemma_code_bits_bound(s: Seq<u8>)
    ensures
        code_bits(s).0 < pow2(code_bits(s).1),
    decreases s.len(),
{
    if s.len() == 0 {
        assert(pow2(0) == 1) by {
            lemma2_to64();
        }
    } else {
        lemma_code_bits_bound(s.drop_last());
        let (v0, l0) = code_bits(s.drop_last());
        let l = length_of(s.last());
        let c = code_of(s.last());
        lemma_code_table(s.last() as int);
        lemma_pow2_adds(l0, l);
        assert(v0 * pow2(l) + c < pow2(l0) * pow2(l)) by (nonlinear_arith)
            requires
                v0 < pow2(l0),
                c < pow2(l),
        ;
    }
}

/// Bit `i` of a `t`-bit number, counting from the most significant.
spec fn nbit(n: nat, t: nat, i: nat) -> nat {
    (n / pow2((t - 1 - i) as nat)) % 2
}

/// A bit of the low byte is the same bit of the number.
proof fn lemma_low_byte_bit(x: nat, m: nat)
    requires
        m < 8,
    ensures
        ((x % 256) / pow2(m)) % 2 == (x / pow2(m)) % 2,
{
    lemma2_to64();
    let pm = pow2(m);
    assert(pm == 1 || pm == 2 || pm == 4 || pm == 8 || pm == 16 || pm == 32 || pm == 64 || pm == 128);
    assert(((x % 256) / pm) % 2 == (x / pm) % 2) by (nonlinear_arith)
        requires
            pm == 1 || pm == 2 || pm == 4 || pm == 8 || pm == 16 || pm == 32 || pm == 64 || pm == 128,
    ;
}

/// The bits of the big-endian bytes of a number are the bits of the number.
proof fn lemma_be_bytes_bits(n: nat, k: nat, i: nat)
    requires
        i < 8 * k,
    ensures
        be_bytes(n, k).len() == k,
        bit_at(be_bytes(n, k), i) == nbit(n, 8 * k, i),
    decreases k,
{
    lemma_be_bytes_len(n, k);
    let b = be_bytes(n, k);
    let km1 = (k - 1) as nat;
    if i < 8 * km1 {
        lemma_be_bytes_bits(n / 256, km1, i);
        assert(b[(i / 8) as int] == be_bytes(n / 256, km1)[(i / 8) as int]);
        let e = (8 * km1 - 1 - i) as nat;
        lemma_pow2_adds(8, e);
        lemma2_to64();
        lemma_pow2_pos(e);
        vstd::arithmetic::div_mod::lemma_div_denominator(n as int, 256, pow2(e) as int);
        assert((8 * k - 1 - i) as nat == 8 + e);
    } else {
        assert(i / 8 == km1);
        assert(b[(i / 8) as int] == (n % 256) as u8);
        lemma_low_byte_bit(n, (7 - i % 8) as nat);
        assert((8 * k - 1 - i) as nat == (7 - i % 8) as nat);
    }
}

proof fn lemma_be_bytes_len(n: nat, k: nat)
    ensures
        be_bytes(n, k).len() == k,
    decreases k,
{
    if k > 0 {
        lemma_be_bytes_len(n / 256, (k - 1) as nat);
    }
}


/// The bits of the low `l` bits of a number are those of the low part.
proof fn lemma_bit_below(vm: nat, l: nat, c: nat, e: nat)
    requires
        e < l,
    ensures
        ((vm * pow2(l) + c) / pow2(e)) % 2 == (c / pow2(e)) % 2,
{
    let k = (l - e - 1) as nat;
    lemma_pow2_adds(k, 1);
    lemma_pow2_adds(k + 1, e);
    lemma_pow2_pos(e);
    lemma2_to64();
    assert(k + 1 + e == l);
    let x = vm * pow2(k);
    assert(vm * pow2(l) == (2 * x) * pow2(e)) by (nonlinear_arith)
        requires
            pow2(l) == pow2(k + 1) * pow2(e),
            pow2(k + 1) == pow2(k) * 2,
            x == vm * pow2(k),
    ;
    vstd::arithmetic::div_mod::lemma_hoist_over_denominator(c as int, (2 * x) as int, pow2(e));
    vstd::arithmetic::div_mod::lemma_mod_multiples_vanish(x as int, (c / pow2(e)) as int, 2);
}

/// The bits of the encoding that carry symbol `m` spell its code.
proof fn lemma_symbol_bits(s: Seq<u8>, m: int, j: nat)
    requires
        0 <= m < s.len(),
        j < length_of(s[m]),
    ensures
        ({
            let (v, l) = code_bits(s);
            let p = padding_len(l);
            let n = v * pow2(p) + (pow2(p) - 1);
            let o = code_bits(s.take(m)).1;
            let lm = length_of(s[m]);
            &&& o + lm <= l
            &&& nbit(n as nat, l + p, o + j) == (code_of(s[m]) / pow2((lm - 1 - j) as nat)) % 2
        }),
{
    let (v, l) = code_bits(s);
    let p = padding_len(l);
    lemma_pow2_pos(p);
    let n = (v * pow2(p) + (pow2(p) - 1)) as nat;
    let a = s.take(m + 1);
    let r = s.skip(m + 1);
    assert(s =~= a + r);
    lemma_code_bits_append(a, r);
    assert(a.drop_last() =~= s.take(m));
    assert(a.last() == s[m]);
    let (va, la) = code_bits(a);
    let (vm, om) = code_bits(s.take(m));
    let (vr, lr) = code_bits(r);
    lemma_code_bits_bound(r);
    let lm = length_of(s[m]);
    let c = code_of(s[m]);
    assert(va == vm * pow2(lm) + c && la == om + lm);
    // n = va * 2^(lr + p) + (vr * 2^p + 2^p - 1)
    lemma_pow2_adds(lr, p);
    let rest = vr * pow2(p) + (pow2(p) - 1);
    assert(n == va * pow2(lr + p) + rest && rest < pow2(lr + p)) by (nonlinear_arith)
        requires
            n == v * pow2(p) + (pow2(p) - 1),
            v == va * pow2(lr) + vr,
            vr < pow2(lr),
            pow2(lr + p) == pow2(lr) * pow2(p),
            rest == vr * pow2(p) + (pow2(p) - 1),
            pow2(p) > 0,
    ;
    lemma_pow2_pos(lr + p);
    vstd::arithmetic::div_mod::lemma_fundamental_div_mod_converse_div(
        n as int,
        pow2(lr + p) as int,
        va as int,
        rest as int,
    );
    let e = (lm - 1 - j) as nat;
    assert((l + p - 1 - (om + j)) as nat == lr + p + e);
    lemma_pow2_adds(lr + p, e);
    lemma_pow2_pos(e);
    vstd::arithmetic::div_mod::lemma_div_denominator(n as int, pow2(lr + p) as int, pow2(e) as int);
    lemma_bit_below(vm, lm, c, e);
}

/// The padding bits of the encoding are ones.
proof fn lemma_padding_bits(s: Seq<u8>, i: nat)
    requires
        code_bits(s).1 <= i < code_bits(s).1 + padding_len(code_bits(s).1),
    ensures
        ({
            let (v, l) = code_bits(s);
            let p = padding_len(l);
            nbit((v * pow2(p) + (pow2(p) - 1)) as nat, l + p, i) == 1
        }),
{
    let (v, l) = code_bits(s);
    let p = padding_len(l);
    let t = l + p;
    let e = (t - 1 - i) as nat;
    let q = (p - e) as nat;
    assert(e < p);
    lemma_pow2_pos(p);
    let n = (v * pow2(p) + (pow2(p) - 1)) as nat;
    lemma_pow2_adds(q, e);
    lemma_pow2_pos(e);
    lemma_pow2_pos(q);
    assert(q + e == p);
    let hi_part = v * pow2(q) + (pow2(q) - 1);
    assert(n == hi_part * pow2(e) + (pow2(e) - 1)) by (nonlinear_arith)
        requires
            n == v * pow2(p) + (pow2(p) - 1),
            pow2(p) == pow2(q) * pow2(e),
            hi_part == v * pow2(q) + (pow2(q) - 1),
            pow2(q) > 0,
    ;
    vstd::arithmetic::div_mod::lemma_fundamental_div_mod_converse_div(
        n as int,
        pow2(e) as int,
        hi_part as int,
        (pow2(e) - 1) as int,
    );
    let k = (q - 1) as nat;
    lemma_pow2_adds(k, 1);
    lemma2_to64();
    let y = v * pow2(k) + pow2(k) - 1;
    assert(hi_part == 2 * y + 1) by (nonlinear_arith)
        requires
            hi_part == v * pow2(q) + (pow2(q) - 1),
            pow2(q) == pow2(k) * 2,
            y == v * pow2(k) + pow2(k) - 1,
    ;
    lemma_pow2_pos(k);
    vstd::arithmetic::div_mod::lemma_mod_multiples_vanish(y as int, 1, 2);
}

/// Decoding the bits of the first `m` symbols gives those symbols.
proof fn lemma_decode_prefix(s: Seq<u8>, e: Seq<u8>, m: int)
    requires
        0 <= m <= s.len(),
        ({
            let (v, l) = code_bits(s);
            let p = padding_len(l);
            let n = (v * pow2(p) + (pow2(p) - 1)) as nat;
            &&& 8 * e.len() == l + p
            &&& forall|i: nat| i < l + p ==> #[trigger] bit_at(e, i) == nbit(n, l + p, i)
        }),
    ensures
        decode_bits(e, 0, 0, 0, Seq::empty()) == decode_bits(
            e,
            code_bits(s.take(m)).1,
            0,
            0,
            s.take(m),
        ),
    decreases m,
{
    if m == 0 {
        assert(s.take(0) =~= Seq::<u8>::empty());
    } else {
        let k = m - 1;
        lemma_decode_prefix(s, e, k);
        let (v, l) = code_bits(s);
        let p = padding_len(l);
        lemma_pow2_pos(p);
        let n = (v * pow2(p) + (pow2(p) - 1)) as nat;
        let o = code_bits(s.take(k)).1;
        let b = s[k];
        lemma_code_table(b as int);
        lemma_symbol_bits(s, k, 0);
        assert forall|j: nat| j < length_of(b) implies #[trigger] bit_at(e, o + j) == (code_of(b)
            / pow2((length_of(b) - 1 - j) as nat)) % 2 by {
            lemma_symbol_bits(s, k, j);
        }
        assert(spells(e, o, code_of(b), length_of(b)));
        lemma_decode_symbol(e, o, b, s.take(k));
        assert(s.take(m).drop_last() =~= s.take(k));
        assert(s.take(k).push(b) =~= s.take(m));
    }
}

/// After the last symbol, the padding of ones ends the decoding.
proof fn lemma_decode_padding(s: Seq<u8>, e: Seq<u8>, j: nat)
    requires
        ({
            let (v, l) = code_bits(s);
            let p = padding_len(l);
            let n = (v * pow2(p) + (pow2(p) - 1)) as nat;
            &&& 8 * e.len() == l + p
            &&& forall|i: nat| i < l + p ==> #[trigger] bit_at(e, i) == nbit(n, l + p, i)
            &&& j <= p
        }),
    ensures
        decode_bits(e, code_bits(s).1, 0, 0, s) == decode_bits(
            e,
            code_bits(s).1 + j,
            (pow2(j) - 1) as nat,
            j,
            s,
        ),
    decreases j,
{
    lemma2_to64();
    if j > 0 {
        let i = (j - 1) as nat;
        lemma_decode_padding(s, e, i);
        let l = code_bits(s).1;
        lemma_padding_bits(s, l + i);
        lemma_pow2_adds(i, 1);
        lemma_pow2_pos(i);
        let c0 = (pow2(i) - 1) as nat;
        assert(c0 * 2 + bit_at(e, l + i) == pow2(j) - 1);
        lemma_ones_no_symbol(j);
        lemma_decode_step(e, l + i, c0, i, s);
    }
}

/// Decoding the Huffman encoding of any bytes gives the bytes back.
pub proof fn lemma_huffman_roundtrip(s: Seq<u8>)
    ensures
        huffman_decoding(huffman_encoding(s)) == Ok::<Seq<u8>, super::error::HuffmanError>(s),
{
    let (v, l) = code_bits(s);
    let p = padding_len(l);
    lemma_pow2_pos(p);
    let n = (v * pow2(p) + (pow2(p) - 1)) as nat;
    let t = l + p;
    let e = huffman_encoding(s);
    assert(t % 8 == 0);
    assert(8 * (t / 8) == t);
    lemma_be_bytes_len(n, t / 8);
    assert forall|i: nat| i < t implies #[trigger] bit_at(e, i) == nbit(n, t, i) by {
        lemma_be_bytes_bits(n, t / 8, i);
    }
    lemma_decode_prefix(s, e, s.len() as int);
    assert(s.take(s.len() as int) =~= s);
    lemma_decode_padding(s, e, p);
    lemma2_to64();
}

} // verus!
