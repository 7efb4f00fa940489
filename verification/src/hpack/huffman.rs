//! Huffman coding of string literals (RFC 7541 Section 5.2, Appendix B).
//!
//! Each byte is written as its code from the static code table, most
//! significant bit first; the end is padded to a whole byte with the high
//! bits of the end-of-string code, which are all ones.
use vstd::prelude::*;
use vstd::arithmetic::power2::{pow2, lemma2_to64, lemma_pow2_adds, lemma_pow2_pos};
pub use super::error::HuffmanError;

verus! {

/// The code of each symbol (RFC 7541 Appendix B), right-aligned; symbol 256
/// is the end-of-string symbol.
pub const HUFFMAN_CODES: [u32; 257] = [
    0x1ff8, 0x7fffd8, 0xfffffe2, 0xfffffe3, 0xfffffe4, 0xfffffe5, 0xfffffe6, 0xfffffe7,
    0xfffffe8, 0xffffea, 0x3ffffffc, 0xfffffe9, 0xfffffea, 0x3ffffffd, 0xfffffeb, 0xfffffec,
    0xfffffed, 0xfffffee, 0xfffffef, 0xffffff0, 0xffffff1, 0xffffff2, 0x3ffffffe, 0xffffff3,
    0xffffff4, 0xffffff5, 0xffffff6, 0xffffff7, 0xffffff8, 0xffffff9, 0xffffffa, 0xffffffb,
    0x14, 0x3f8, 0x3f9, 0xffa, 0x1ff9, 0x15, 0xf8, 0x7fa,
    0x3fa, 0x3fb, 0xf9, 0x7fb, 0xfa, 0x16, 0x17, 0x18,
    0x0, 0x1, 0x2, 0x19, 0x1a, 0x1b, 0x1c, 0x1d,
    0x1e, 0x1f, 0x5c, 0xfb, 0x7ffc, 0x20, 0xffb, 0x3fc,
    0x1ffa, 0x21, 0x5d, 0x5e, 0x5f, 0x60, 0x61, 0x62,
    0x63, 0x64, 0x65, 0x66, 0x67, 0x68, 0x69, 0x6a,
    0x6b, 0x6c, 0x6d, 0x6e, 0x6f, 0x70, 0x71, 0x72,
    0xfc, 0x73, 0xfd, 0x1ffb, 0x7fff0, 0x1ffc, 0x3ffc, 0x22,
    0x7ffd, 0x3, 0x23, 0x4, 0x24, 0x5, 0x25, 0x26,
    0x27, 0x6, 0x74, 0x75, 0x28, 0x29, 0x2a, 0x7,
    0x2b, 0x76, 0x2c, 0x8, 0x9, 0x2d, 0x77, 0x78,
    0x79, 0x7a, 0x7b, 0x7ffe, 0x7fc, 0x3ffd, 0x1ffd, 0xffffffc,
    0xfffe6, 0x3fffd2, 0xfffe7, 0xfffe8, 0x3fffd3, 0x3fffd4, 0x3fffd5, 0x7fffd9,
    0x3fffd6, 0x7fffda, 0x7fffdb, 0x7fffdc, 0x7fffdd, 0x7fffde, 0xffffeb, 0x7fffdf,
    0xffffec, 0xffffed, 0x3fffd7, 0x7fffe0, 0xffffee, 0x7fffe1, 0x7fffe2, 0x7fffe3,
    0x7fffe4, 0x1fffdc, 0x3fffd8, 0x7fffe5, 0x3fffd9, 0x7fffe6, 0x7fffe7, 0xffffef,
    0x3fffda, 0x1fffdd, 0xfffe9, 0x3fffdb, 0x3fffdc, 0x7fffe8, 0x7fffe9, 0x1fffde,
    0x7fffea, 0x3fffdd, 0x3fffde, 0xfffff0, 0x1fffdf, 0x3fffdf, 0x7fffeb, 0x7fffec,
    0x1fffe0, 0x1fffe1, 0x3fffe0, 0x1fffe2, 0x7fffed, 0x3fffe1, 0x7fffee, 0x7fffef,
    0xfffea, 0x3fffe2, 0x3fffe3, 0x3fffe4, 0x7ffff0, 0x3fffe5, 0x3fffe6, 0x7ffff1,
    0x3ffffe0, 0x3ffffe1, 0xfffeb, 0x7fff1, 0x3fffe7, 0x7ffff2, 0x3fffe8, 0x1ffffec,
    0x3ffffe2, 0x3ffffe3, 0x3ffffe4, 0x7ffffde, 0x7ffffdf, 0x3ffffe5, 0xfffff1, 0x1ffffed,
    0x7fff2, 0x1fffe3, 0x3ffffe6, 0x7ffffe0, 0x7ffffe1, 0x3ffffe7, 0x7ffffe2, 0xfffff2,
    0x1fffe4, 0x1fffe5, 0x3ffffe8, 0x3ffffe9, 0xffffffd, 0x7ffffe3, 0x7ffffe4, 0x7ffffe5,
    0xfffec, 0xfffff3, 0xfffed, 0x1fffe6, 0x3fffe9, 0x1fffe7, 0x1fffe8, 0x7ffff3,
    0x3fffea, 0x3fffeb, 0x1ffffee, 0x1ffffef, 0xfffff4, 0xfffff5, 0x3ffffea, 0x7ffff4,
    0x3ffffeb, 0x7ffffe6, 0x3ffffec, 0x3ffffed, 0x7ffffe7, 0x7ffffe8, 0x7ffffe9, 0x7ffffea,
    0x7ffffeb, 0xffffffe, 0x7ffffec, 0x7ffffed, 0x7ffffee, 0x7ffffef, 0x7fffff0, 0x3ffffee,
    0x3fffffff,
];

/// The bit length of the code of each symbol.
pub const HUFFMAN_LENGTHS: [u8; 257] = [
    13, 23, 28, 28, 28, 28, 28, 28, 28, 24, 30, 28, 28, 30, 28, 28,
    28, 28, 28, 28, 28, 28, 30, 28, 28, 28, 28, 28, 28, 28, 28, 28,
    6, 10, 10, 12, 13, 6, 8, 11, 10, 10, 8, 11, 8, 6, 6, 6,
    5, 5, 5, 6, 6, 6, 6, 6, 6, 6, 7, 8, 15, 6, 12, 10,
    13, 6, 7, 7, 7, 7, 7, 7, 7, 7, 7, 7, 7, 7, 7, 7,
    7, 7, 7, 7, 7, 7, 7, 7, 8, 7, 8, 13, 19, 13, 14, 6,
    15, 5, 6, 5, 6, 5, 6, 6, 6, 5, 7, 7, 6, 6, 6, 5,
    6, 7, 6, 5, 5, 6, 7, 7, 7, 7, 7, 15, 11, 14, 13, 28,
    20, 22, 20, 20, 22, 22, 22, 23, 22, 23, 23, 23, 23, 23, 24, 23,
    24, 24, 22, 23, 24, 23, 23, 23, 23, 21, 22, 23, 22, 23, 23, 24,
    22, 21, 20, 22, 22, 23, 23, 21, 23, 22, 22, 24, 21, 22, 23, 23,
    21, 21, 22, 21, 23, 22, 23, 23, 20, 22, 22, 22, 23, 22, 22, 23,
    26, 26, 20, 19, 22, 23, 22, 25, 26, 26, 26, 27, 27, 26, 24, 25,
    19, 21, 26, 27, 27, 26, 27, 24, 21, 21, 26, 26, 28, 27, 27, 27,
    20, 24, 20, 21, 22, 21, 21, 23, 22, 22, 25, 25, 24, 24, 26, 23,
    26, 27, 26, 26, 27, 27, 27, 27, 27, 28, 27, 27, 27, 27, 27, 26,
    30,
];

/// The code of byte `b`.
pub open spec fn code_of(b: u8) -> nat {
    HUFFMAN_CODES[b as int] as nat
}

/// The bit length of the code of byte `b`.
pub open spec fn length_of(b: u8) -> nat {
    HUFFMAN_LENGTHS[b as int] as nat
}

/// Every code is 5 to 30 bits long and fits in its length.
pub proof fn lemma_code_table(k: int)
    requires
        0 <= k < 257,
    ensures
        5 <= HUFFMAN_LENGTHS[k] <= 30,
        (HUFFMAN_CODES[k] as nat) < pow2(HUFFMAN_LENGTHS[k] as nat),
{
    lemma2_to64();
    if k == 0 {
        assert(HUFFMAN_LENGTHS[0] == 13 && HUFFMAN_CODES[0] == 0x1ff8);
    } else if k == 1 {
        assert(HUFFMAN_LENGTHS[1] == 23 && HUFFMAN_CODES[1] == 0x7fffd8);
    } else if k == 2 {
        assert(HUFFMAN_LENGTHS[2] == 28 && HUFFMAN_CODES[2] == 0xfffffe2);
    } else if k == 3 {
        assert(HUFFMAN_LENGTHS[3] == 28 && HUFFMAN_CODES[3] == 0xfffffe3);
    } else if k == 4 {
        assert(HUFFMAN_LENGTHS[4] == 28 && HUFFMAN_CODES[4] == 0xfffffe4);
    } else if k == 5 {
        assert(HUFFMAN_LENGTHS[5] == 28 && HUFFMAN_CODES[5] == 0xfffffe5);
    } else if k == 6 {
        assert(HUFFMAN_LENGTHS[6] == 28 && HUFFMAN_CODES[6] == 0xfffffe6);
    } else if k == 7 {
        assert(HUFFMAN_LENGTHS[7] == 28 && HUFFMAN_CODES[7] == 0xfffffe7);
    } else if k == 8 {
        assert(HUFFMAN_LENGTHS[8] == 28 && HUFFMAN_CODES[8] == 0xfffffe8);
    } else if k == 9 {
        assert(HUFFMAN_LENGTHS[9] == 24 && HUFFMAN_CODES[9] == 0xffffea);
    } else if k == 10 {
        assert(HUFFMAN_LENGTHS[10] == 30 && HUFFMAN_CODES[10] == 0x3ffffffc);
    } else if k == 11 {
        assert(HUFFMAN_LENGTHS[11] == 28 && HUFFMAN_CODES[11] == 0xfffffe9);
    } else if k == 12 {
        assert(HUFFMAN_LENGTHS[12] == 28 && HUFFMAN_CODES[12] == 0xfffffea);
    } else if k == 13 {
        assert(HUFFMAN_LENGTHS[13] == 30 && HUFFMAN_CODES[13] == 0x3ffffffd);
    } else if k == 14 {
        assert(HUFFMAN_LENGTHS[14] == 28 && HUFFMAN_CODES[14] == 0xfffffeb);
    } else if k == 15 {
        assert(HUFFMAN_LENGTHS[15] == 28 && HUFFMAN_CODES[15] == 0xfffffec);
    } else if k == 16 {
        assert(HUFFMAN_LENGTHS[16] == 28 && HUFFMAN_CODES[16] == 0xfffffed);
    } else if k == 17 {
        assert(HUFFMAN_LENGTHS[17] == 28 && HUFFMAN_CODES[17] == 0xfffffee);
    } else if k == 18 {
        assert(HUFFMAN_LENGTHS[18] == 28 && HUFFMAN_CODES[18] == 0xfffffef);
    } else if k == 19 {
        assert(HUFFMAN_LENGTHS[19] == 28 && HUFFMAN_CODES[19] == 0xffffff0);
    } else if k == 20 {
        assert(HUFFMAN_LENGTHS[20] == 28 && HUFFMAN_CODES[20] == 0xffffff1);
    } else if k == 21 {
        assert(HUFFMAN_LENGTHS[21] == 28 && HUFFMAN_CODES[21] == 0xffffff2);
    } else if k == 22 {
        assert(HUFFMAN_LENGTHS[22] == 30 && HUFFMAN_CODES[22] == 0x3ffffffe);
    } else if k == 23 {
        assert(HUFFMAN_LENGTHS[23] == 28 && HUFFMAN_CODES[23] == 0xffffff3);
    } else if k == 24 {
        assert(HUFFMAN_LENGTHS[24] == 28 && HUFFMAN_CODES[24] == 0xffffff4);
    } else if k == 25 {
        assert(HUFFMAN_LENGTHS[25] == 28 && HUFFMAN_CODES[25] == 0xffffff5);
    } else if k == 26 {
        assert(HUFFMAN_LENGTHS[26] == 28 && HUFFMAN_CODES[26] == 0xffffff6);
    } else if k == 27 {
        assert(HUFFMAN_LENGTHS[27] == 28 && HUFFMAN_CODES[27] == 0xffffff7);
    } else if k == 28 {
        assert(HUFFMAN_LENGTHS[28] == 28 && HUFFMAN_CODES[28] == 0xffffff8);
    } else if k == 29 {
        assert(HUFFMAN_LENGTHS[29] == 28 && HUFFMAN_CODES[29] == 0xffffff9);
    } else if k == 30 {
        assert(HUFFMAN_LENGTHS[30] == 28 && HUFFMAN_CODES[30] == 0xffffffa);
    } else if k == 31 {
        assert(HUFFMAN_LENGTHS[31] == 28 && HUFFMAN_CODES[31] == 0xffffffb);
    } else if k == 32 {
        assert(HUFFMAN_LENGTHS[32] == 6 && HUFFMAN_CODES[32] == 0x14);
    } else if k == 33 {
        assert(HUFFMAN_LENGTHS[33] == 10 && HUFFMAN_CODES[33] == 0x3f8);
    } else if k == 34 {
        assert(HUFFMAN_LENGTHS[34] == 10 && HUFFMAN_CODES[34] == 0x3f9);
    } else if k == 35 {
        assert(HUFFMAN_LENGTHS[35] == 12 && HUFFMAN_CODES[35] == 0xffa);
    } else if k == 36 {
        assert(HUFFMAN_LENGTHS[36] == 13 && HUFFMAN_CODES[36] == 0x1ff9);
    } else if k == 37 {
        assert(HUFFMAN_LENGTHS[37] == 6 && HUFFMAN_CODES[37] == 0x15);
    } else if k == 38 {
        assert(HUFFMAN_LENGTHS[38] == 8 && HUFFMAN_CODES[38] == 0xf8);
    } else if k == 39 {
        assert(HUFFMAN_LENGTHS[39] == 11 && HUFFMAN_CODES[39] == 0x7fa);
    } else if k == 40 {
        assert(HUFFMAN_LENGTHS[40] == 10 && HUFFMAN_CODES[40] == 0x3fa);
    } else if k == 41 {
        assert(HUFFMAN_LENGTHS[41] == 10 && HUFFMAN_CODES[41] == 0x3fb);
    } else if k == 42 {
        assert(HUFFMAN_LENGTHS[42] == 8 && HUFFMAN_CODES[42] == 0xf9);
    } else if k == 43 {
        assert(HUFFMAN_LENGTHS[43] == 11 && HUFFMAN_CODES[43] == 0x7fb);
    } else if k == 44 {
        assert(HUFFMAN_LENGTHS[44] == 8 && HUFFMAN_CODES[44] == 0xfa);
    } else if k == 45 {
        assert(HUFFMAN_LENGTHS[45] == 6 && HUFFMAN_CODES[45] == 0x16);
    } else if k == 46 {
        assert(HUFFMAN_LENGTHS[46] == 6 && HUFFMAN_CODES[46] == 0x17);
    } else if k == 47 {
        assert(HUFFMAN_LENGTHS[47] == 6 && HUFFMAN_CODES[47] == 0x18);
    } else if k == 48 {
        assert(HUFFMAN_LENGTHS[48] == 5 && HUFFMAN_CODES[48] == 0x0);
    } else if k == 49 {
        assert(HUFFMAN_LENGTHS[49] == 5 && HUFFMAN_CODES[49] == 0x1);
    } else if k == 50 {
        assert(HUFFMAN_LENGTHS[50] == 5 && HUFFMAN_CODES[50] == 0x2);
    } else if k == 51 {
        assert(HUFFMAN_LENGTHS[51] == 6 && HUFFMAN_CODES[51] == 0x19);
    } else if k == 52 {
        assert(HUFFMAN_LENGTHS[52] == 6 && HUFFMAN_CODES[52] == 0x1a);
    } else if k == 53 {
        assert(HUFFMAN_LENGTHS[53] == 6 && HUFFMAN_CODES[53] == 0x1b);
    } else if k == 54 {
        assert(HUFFMAN_LENGTHS[54] == 6 && HUFFMAN_CODES[54] == 0x1c);
    } else if k == 55 {
        assert(HUFFMAN_LENGTHS[55] == 6 && HUFFMAN_CODES[55] == 0x1d);
    } else if k == 56 {
        assert(HUFFMAN_LENGTHS[56] == 6 && HUFFMAN_CODES[56] == 0x1e);
    } else if k == 57 {
        assert(HUFFMAN_LENGTHS[57] == 6 && HUFFMAN_CODES[57] == 0x1f);
    } else if k == 58 {
        assert(HUFFMAN_LENGTHS[58] == 7 && HUFFMAN_CODES[58] == 0x5c);
    } else if k == 59 {
        assert(HUFFMAN_LENGTHS[59] == 8 && HUFFMAN_CODES[59] == 0xfb);
    } else if k == 60 {
        assert(HUFFMAN_LENGTHS[60] == 15 && HUFFMAN_CODES[60] == 0x7ffc);
    } else if k == 61 {
        assert(HUFFMAN_LENGTHS[61] == 6 && HUFFMAN_CODES[61] == 0x20);
    } else if k == 62 {
        assert(HUFFMAN_LENGTHS[62] == 12 && HUFFMAN_CODES[62] == 0xffb);
    } else if k == 63 {
        assert(HUFFMAN_LENGTHS[63] == 10 && HUFFMAN_CODES[63] == 0x3fc);
    } else if k == 64 {
        assert(HUFFMAN_LENGTHS[64] == 13 && HUFFMAN_CODES[64] == 0x1ffa);
    } else if k == 65 {
        assert(HUFFMAN_LENGTHS[65] == 6 && HUFFMAN_CODES[65] == 0x21);
    } else if k == 66 {
        assert(HUFFMAN_LENGTHS[66] == 7 && HUFFMAN_CODES[66] == 0x5d);
    } else if k == 67 {
        assert(HUFFMAN_LENGTHS[67] == 7 && HUFFMAN_CODES[67] == 0x5e);
    } else if k == 68 {
        assert(HUFFMAN_LENGTHS[68] == 7 && HUFFMAN_CODES[68] == 0x5f);
    } else if k == 69 {
        assert(HUFFMAN_LENGTHS[69] == 7 && HUFFMAN_CODES[69] == 0x60);
    } else if k == 70 {
        assert(HUFFMAN_LENGTHS[70] == 7 && HUFFMAN_CODES[70] == 0x61);
    } else if k == 71 {
        assert(HUFFMAN_LENGTHS[71] == 7 && HUFFMAN_CODES[71] == 0x62);
    } else if k == 72 {
        assert(HUFFMAN_LENGTHS[72] == 7 && HUFFMAN_CODES[72] == 0x63);
    } else if k == 73 {
        assert(HUFFMAN_LENGTHS[73] == 7 && HUFFMAN_CODES[73] == 0x64);
    } else if k == 74 {
        assert(HUFFMAN_LENGTHS[74] == 7 && HUFFMAN_CODES[74] == 0x65);
    } else if k == 75 {
        assert(HUFFMAN_LENGTHS[75] == 7 && HUFFMAN_CODES[75] == 0x66);
    } else if k == 76 {
        assert(HUFFMAN_LENGTHS[76] == 7 && HUFFMAN_CODES[76] == 0x67);
    } else if k == 77 {
        assert(HUFFMAN_LENGTHS[77] == 7 && HUFFMAN_CODES[77] == 0x68);
    } else if k == 78 {
        assert(HUFFMAN_LENGTHS[78] == 7 && HUFFMAN_CODES[78] == 0x69);
    } else if k == 79 {
        assert(HUFFMAN_LENGTHS[79] == 7 && HUFFMAN_CODES[79] == 0x6a);
    } else if k == 80 {
        assert(HUFFMAN_LENGTHS[80] == 7 && HUFFMAN_CODES[80] == 0x6b);
    } else if k == 81 {
        assert(HUFFMAN_LENGTHS[81] == 7 && HUFFMAN_CODES[81] == 0x6c);
    } else if k == 82 {
        assert(HUFFMAN_LENGTHS[82] == 7 && HUFFMAN_CODES[82] == 0x6d);
    } else if k == 83 {
        assert(HUFFMAN_LENGTHS[83] == 7 && HUFFMAN_CODES[83] == 0x6e);
    } else if k == 84 {
        assert(HUFFMAN_LENGTHS[84] == 7 && HUFFMAN_CODES[84] == 0x6f);
    } else if k == 85 {
        assert(HUFFMAN_LENGTHS[85] == 7 && HUFFMAN_CODES[85] == 0x70);
    } else if k == 86 {
        assert(HUFFMAN_LENGTHS[86] == 7 && HUFFMAN_CODES[86] == 0x71);
    } else if k == 87 {
        assert(HUFFMAN_LENGTHS[87] == 7 && HUFFMAN_CODES[87] == 0x72);
    } else if k == 88 {
        assert(HUFFMAN_LENGTHS[88] == 8 && HUFFMAN_CODES[88] == 0xfc);
    } else if k == 89 {
        assert(HUFFMAN_LENGTHS[89] == 7 && HUFFMAN_CODES[89] == 0x73);
    } else if k == 90 {
        assert(HUFFMAN_LENGTHS[90] == 8 && HUFFMAN_CODES[90] == 0xfd);
    } else if k == 91 {
        assert(HUFFMAN_LENGTHS[91] == 13 && HUFFMAN_CODES[91] == 0x1ffb);
    } else if k == 92 {
        assert(HUFFMAN_LENGTHS[92] == 19 && HUFFMAN_CODES[92] == 0x7fff0);
    } else if k == 93 {
        assert(HUFFMAN_LENGTHS[93] == 13 && HUFFMAN_CODES[93] == 0x1ffc);
    } else if k == 94 {
        assert(HUFFMAN_LENGTHS[94] == 14 && HUFFMAN_CODES[94] == 0x3ffc);
    } else if k == 95 {
        assert(HUFFMAN_LENGTHS[95] == 6 && HUFFMAN_CODES[95] == 0x22);
    } else if k == 96 {
        assert(HUFFMAN_LENGTHS[96] == 15 && HUFFMAN_CODES[96] == 0x7ffd);
    } else if k == 97 {
        assert(HUFFMAN_LENGTHS[97] == 5 && HUFFMAN_CODES[97] == 0x3);
    } else if k == 98 {
        assert(HUFFMAN_LENGTHS[98] == 6 && HUFFMAN_CODES[98] == 0x23);
    } else if k == 99 {
        assert(HUFFMAN_LENGTHS[99] == 5 && HUFFMAN_CODES[99] == 0x4);
    } else if k == 100 {
        assert(HUFFMAN_LENGTHS[100] == 6 && HUFFMAN_CODES[100] == 0x24);
    } else if k == 101 {
        assert(HUFFMAN_LENGTHS[101] == 5 && HUFFMAN_CODES[101] == 0x5);
    } else if k == 102 {
        assert(HUFFMAN_LENGTHS[102] == 6 && HUFFMAN_CODES[102] == 0x25);
    } else if k == 103 {
        assert(HUFFMAN_LENGTHS[103] == 6 && HUFFMAN_CODES[103] == 0x26);
    } else if k == 104 {
        assert(HUFFMAN_LENGTHS[104] == 6 && HUFFMAN_CODES[104] == 0x27);
    } else if k == 105 {
        assert(HUFFMAN_LENGTHS[105] == 5 && HUFFMAN_CODES[105] == 0x6);
    } else if k == 106 {
        assert(HUFFMAN_LENGTHS[106] == 7 && HUFFMAN_CODES[106] == 0x74);
    } else if k == 107 {
        assert(HUFFMAN_LENGTHS[107] == 7 && HUFFMAN_CODES[107] == 0x75);
    } else if k == 108 {
        assert(HUFFMAN_LENGTHS[108] == 6 && HUFFMAN_CODES[108] == 0x28);
    } else if k == 109 {
        assert(HUFFMAN_LENGTHS[109] == 6 && HUFFMAN_CODES[109] == 0x29);
    } else if k == 110 {
        assert(HUFFMAN_LENGTHS[110] == 6 && HUFFMAN_CODES[110] == 0x2a);
    } else if k == 111 {
        assert(HUFFMAN_LENGTHS[111] == 5 && HUFFMAN_CODES[111] == 0x7);
    } else if k == 112 {
        assert(HUFFMAN_LENGTHS[112] == 6 && HUFFMAN_CODES[112] == 0x2b);
    } else if k == 113 {
        assert(HUFFMAN_LENGTHS[113] == 7 && HUFFMAN_CODES[113] == 0x76);
    } else if k == 114 {
        assert(HUFFMAN_LENGTHS[114] == 6 && HUFFMAN_CODES[114] == 0x2c);
    } else if k == 115 {
        assert(HUFFMAN_LENGTHS[115] == 5 && HUFFMAN_CODES[115] == 0x8);
    } else if k == 116 {
        assert(HUFFMAN_LENGTHS[116] == 5 && HUFFMAN_CODES[116] == 0x9);
    } else if k == 117 {
        assert(HUFFMAN_LENGTHS[117] == 6 && HUFFMAN_CODES[117] == 0x2d);
    } else if k == 118 {
        assert(HUFFMAN_LENGTHS[118] == 7 && HUFFMAN_CODES[118] == 0x77);
    } else if k == 119 {
        assert(HUFFMAN_LENGTHS[119] == 7 && HUFFMAN_CODES[119] == 0x78);
    } else if k == 120 {
        assert(HUFFMAN_LENGTHS[120] == 7 && HUFFMAN_CODES[120] == 0x79);
    } else if k == 121 {
        assert(HUFFMAN_LENGTHS[121] == 7 && HUFFMAN_CODES[121] == 0x7a);
    } else if k == 122 {
        assert(HUFFMAN_LENGTHS[122] == 7 && HUFFMAN_CODES[122] == 0x7b);
    } else if k == 123 {
        assert(HUFFMAN_LENGTHS[123] == 15 && HUFFMAN_CODES[123] == 0x7ffe);
    } else if k == 124 {
        assert(HUFFMAN_LENGTHS[124] == 11 && HUFFMAN_CODES[124] == 0x7fc);
    } else if k == 125 {
        assert(HUFFMAN_LENGTHS[125] == 14 && HUFFMAN_CODES[125] == 0x3ffd);
    } else if k == 126 {
        assert(HUFFMAN_LENGTHS[126] == 13 && HUFFMAN_CODES[126] == 0x1ffd);
    } else if k == 127 {
        assert(HUFFMAN_LENGTHS[127] == 28 && HUFFMAN_CODES[127] == 0xffffffc);
    } else if k == 128 {
        assert(HUFFMAN_LENGTHS[128] == 20 && HUFFMAN_CODES[128] == 0xfffe6);
    } else if k == 129 {
        assert(HUFFMAN_LENGTHS[129] == 22 && HUFFMAN_CODES[129] == 0x3fffd2);
    } else if k == 130 {
        assert(HUFFMAN_LENGTHS[130] == 20 && HUFFMAN_CODES[130] == 0xfffe7);
    } else if k == 131 {
        assert(HUFFMAN_LENGTHS[131] == 20 && HUFFMAN_CODES[131] == 0xfffe8);
    } else if k == 132 {
        assert(HUFFMAN_LENGTHS[132] == 22 && HUFFMAN_CODES[132] == 0x3fffd3);
    } else if k == 133 {
        assert(HUFFMAN_LENGTHS[133] == 22 && HUFFMAN_CODES[133] == 0x3fffd4);
    } else if k == 134 {
        assert(HUFFMAN_LENGTHS[134] == 22 && HUFFMAN_CODES[134] == 0x3fffd5);
    } else if k == 135 {
        assert(HUFFMAN_LENGTHS[135] == 23 && HUFFMAN_CODES[135] == 0x7fffd9);
    } else if k == 136 {
        assert(HUFFMAN_LENGTHS[136] == 22 && HUFFMAN_CODES[136] == 0x3fffd6);
    } else if k == 137 {
        assert(HUFFMAN_LENGTHS[137] == 23 && HUFFMAN_CODES[137] == 0x7fffda);
    } else if k == 138 {
        assert(HUFFMAN_LENGTHS[138] == 23 && HUFFMAN_CODES[138] == 0x7fffdb);
    } else if k == 139 {
        assert(HUFFMAN_LENGTHS[139] == 23 && HUFFMAN_CODES[139] == 0x7fffdc);
    } else if k == 140 {
        assert(HUFFMAN_LENGTHS[140] == 23 && HUFFMAN_CODES[140] == 0x7fffdd);
    } else if k == 141 {
        assert(HUFFMAN_LENGTHS[141] == 23 && HUFFMAN_CODES[141] == 0x7fffde);
    } else if k == 142 {
        assert(HUFFMAN_LENGTHS[142] == 24 && HUFFMAN_CODES[142] == 0xffffeb);
    } else if k == 143 {
        assert(HUFFMAN_LENGTHS[143] == 23 && HUFFMAN_CODES[143] == 0x7fffdf);
    } else if k == 144 {
        assert(HUFFMAN_LENGTHS[144] == 24 && HUFFMAN_CODES[144] == 0xffffec);
    } else if k == 145 {
        assert(HUFFMAN_LENGTHS[145] == 24 && HUFFMAN_CODES[145] == 0xffffed);
    } else if k == 146 {
        assert(HUFFMAN_LENGTHS[146] == 22 && HUFFMAN_CODES[146] == 0x3fffd7);
    } else if k == 147 {
        assert(HUFFMAN_LENGTHS[147] == 23 && HUFFMAN_CODES[147] == 0x7fffe0);
    } else if k == 148 {
        assert(HUFFMAN_LENGTHS[148] == 24 && HUFFMAN_CODES[148] == 0xffffee);
    } else if k == 149 {
        assert(HUFFMAN_LENGTHS[149] == 23 && HUFFMAN_CODES[149] == 0x7fffe1);
    } else if k == 150 {
        assert(HUFFMAN_LENGTHS[150] == 23 && HUFFMAN_CODES[150] == 0x7fffe2);
    } else if k == 151 {
        assert(HUFFMAN_LENGTHS[151] == 23 && HUFFMAN_CODES[151] == 0x7fffe3);
    } else if k == 152 {
        assert(HUFFMAN_LENGTHS[152] == 23 && HUFFMAN_CODES[152] == 0x7fffe4);
    } else if k == 153 {
        assert(HUFFMAN_LENGTHS[153] == 21 && HUFFMAN_CODES[153] == 0x1fffdc);
    } else if k == 154 {
        assert(HUFFMAN_LENGTHS[154] == 22 && HUFFMAN_CODES[154] == 0x3fffd8);
    } else if k == 155 {
        assert(HUFFMAN_LENGTHS[155] == 23 && HUFFMAN_CODES[155] == 0x7fffe5);
    } else if k == 156 {
        assert(HUFFMAN_LENGTHS[156] == 22 && HUFFMAN_CODES[156] == 0x3fffd9);
    } else if k == 157 {
        assert(HUFFMAN_LENGTHS[157] == 23 && HUFFMAN_CODES[157] == 0x7fffe6);
    } else if k == 158 {
        assert(HUFFMAN_LENGTHS[158] == 23 && HUFFMAN_CODES[158] == 0x7fffe7);
    } else if k == 159 {
        assert(HUFFMAN_LENGTHS[159] == 24 && HUFFMAN_CODES[159] == 0xffffef);
    } else if k == 160 {
        assert(HUFFMAN_LENGTHS[160] == 22 && HUFFMAN_CODES[160] == 0x3fffda);
    } else if k == 161 {
        assert(HUFFMAN_LENGTHS[161] == 21 && HUFFMAN_CODES[161] == 0x1fffdd);
    } else if k == 162 {
        assert(HUFFMAN_LENGTHS[162] == 20 && HUFFMAN_CODES[162] == 0xfffe9);
    } else if k == 163 {
        assert(HUFFMAN_LENGTHS[163] == 22 && HUFFMAN_CODES[163] == 0x3fffdb);
    } else if k == 164 {
        assert(HUFFMAN_LENGTHS[164] == 22 && HUFFMAN_CODES[164] == 0x3fffdc);
    } else if k == 165 {
        assert(HUFFMAN_LENGTHS[165] == 23 && HUFFMAN_CODES[165] == 0x7fffe8);
    } else if k == 166 {
        assert(HUFFMAN_LENGTHS[166] == 23 && HUFFMAN_CODES[166] == 0x7fffe9);
    } else if k == 167 {
        assert(HUFFMAN_LENGTHS[167] == 21 && HUFFMAN_CODES[167] == 0x1fffde);
    } else if k == 168 {
        assert(HUFFMAN_LENGTHS[168] == 23 && HUFFMAN_CODES[168] == 0x7fffea);
    } else if k == 169 {
        assert(HUFFMAN_LENGTHS[169] == 22 && HUFFMAN_CODES[169] == 0x3fffdd);
    } else if k == 170 {
        assert(HUFFMAN_LENGTHS[170] == 22 && HUFFMAN_CODES[170] == 0x3fffde);
    } else if k == 171 {
        assert(HUFFMAN_LENGTHS[171] == 24 && HUFFMAN_CODES[171] == 0xfffff0);
    } else if k == 172 {
        assert(HUFFMAN_LENGTHS[172] == 21 && HUFFMAN_CODES[172] == 0x1fffdf);
    } else if k == 173 {
        assert(HUFFMAN_LENGTHS[173] == 22 && HUFFMAN_CODES[173] == 0x3fffdf);
    } else if k == 174 {
        assert(HUFFMAN_LENGTHS[174] == 23 && HUFFMAN_CODES[174] == 0x7fffeb);
    } else if k == 175 {
        assert(HUFFMAN_LENGTHS[175] == 23 && HUFFMAN_CODES[175] == 0x7fffec);
    } else if k == 176 {
        assert(HUFFMAN_LENGTHS[176] == 21 && HUFFMAN_CODES[176] == 0x1fffe0);
    } else if k == 177 {
        assert(HUFFMAN_LENGTHS[177] == 21 && HUFFMAN_CODES[177] == 0x1fffe1);
    } else if k == 178 {
        assert(HUFFMAN_LENGTHS[178] == 22 && HUFFMAN_CODES[178] == 0x3fffe0);
    } else if k == 179 {
        assert(HUFFMAN_LENGTHS[179] == 21 && HUFFMAN_CODES[179] == 0x1fffe2);
    } else if k == 180 {
        assert(HUFFMAN_LENGTHS[180] == 23 && HUFFMAN_CODES[180] == 0x7fffed);
    } else if k == 181 {
        assert(HUFFMAN_LENGTHS[181] == 22 && HUFFMAN_CODES[181] == 0x3fffe1);
    } else if k == 182 {
        assert(HUFFMAN_LENGTHS[182] == 23 && HUFFMAN_CODES[182] == 0x7fffee);
    } else if k == 183 {
        assert(HUFFMAN_LENGTHS[183] == 23 && HUFFMAN_CODES[183] == 0x7fffef);
    } else if k == 184 {
        assert(HUFFMAN_LENGTHS[184] == 20 && HUFFMAN_CODES[184] == 0xfffea);
    } else if k == 185 {
        assert(HUFFMAN_LENGTHS[185] == 22 && HUFFMAN_CODES[185] == 0x3fffe2);
    } else if k == 186 {
        assert(HUFFMAN_LENGTHS[186] == 22 && HUFFMAN_CODES[186] == 0x3fffe3);
    } else if k == 187 {
        assert(HUFFMAN_LENGTHS[187] == 22 && HUFFMAN_CODES[187] == 0x3fffe4);
    } else if k == 188 {
        assert(HUFFMAN_LENGTHS[188] == 23 && HUFFMAN_CODES[188] == 0x7ffff0);
    } else if k == 189 {
        assert(HUFFMAN_LENGTHS[189] == 22 && HUFFMAN_CODES[189] == 0x3fffe5);
    } else if k == 190 {
        assert(HUFFMAN_LENGTHS[190] == 22 && HUFFMAN_CODES[190] == 0x3fffe6);
    } else if k == 191 {
        assert(HUFFMAN_LENGTHS[191] == 23 && HUFFMAN_CODES[191] == 0x7ffff1);
    } else if k == 192 {
        assert(HUFFMAN_LENGTHS[192] == 26 && HUFFMAN_CODES[192] == 0x3ffffe0);
    } else if k == 193 {
        assert(HUFFMAN_LENGTHS[193] == 26 && HUFFMAN_CODES[193] == 0x3ffffe1);
    } else if k == 194 {
        assert(HUFFMAN_LENGTHS[194] == 20 && HUFFMAN_CODES[194] == 0xfffeb);
    } else if k == 195 {
        assert(HUFFMAN_LENGTHS[195] == 19 && HUFFMAN_CODES[195] == 0x7fff1);
    } else if k == 196 {
        assert(HUFFMAN_LENGTHS[196] == 22 && HUFFMAN_CODES[196] == 0x3fffe7);
    } else if k == 197 {
        assert(HUFFMAN_LENGTHS[197] == 23 && HUFFMAN_CODES[197] == 0x7ffff2);
    } else if k == 198 {
        assert(HUFFMAN_LENGTHS[198] == 22 && HUFFMAN_CODES[198] == 0x3fffe8);
    } else if k == 199 {
        assert(HUFFMAN_LENGTHS[199] == 25 && HUFFMAN_CODES[199] == 0x1ffffec);
    } else if k == 200 {
        assert(HUFFMAN_LENGTHS[200] == 26 && HUFFMAN_CODES[200] == 0x3ffffe2);
    } else if k == 201 {
        assert(HUFFMAN_LENGTHS[201] == 26 && HUFFMAN_CODES[201] == 0x3ffffe3);
    } else if k == 202 {
        assert(HUFFMAN_LENGTHS[202] == 26 && HUFFMAN_CODES[202] == 0x3ffffe4);
    } else if k == 203 {
        assert(HUFFMAN_LENGTHS[203] == 27 && HUFFMAN_CODES[203] == 0x7ffffde);
    } else if k == 204 {
        assert(HUFFMAN_LENGTHS[204] == 27 && HUFFMAN_CODES[204] == 0x7ffffdf);
    } else if k == 205 {
        assert(HUFFMAN_LENGTHS[205] == 26 && HUFFMAN_CODES[205] == 0x3ffffe5);
    } else if k == 206 {
        assert(HUFFMAN_LENGTHS[206] == 24 && HUFFMAN_CODES[206] == 0xfffff1);
    } else if k == 207 {
        assert(HUFFMAN_LENGTHS[207] == 25 && HUFFMAN_CODES[207] == 0x1ffffed);
    } else if k == 208 {
        assert(HUFFMAN_LENGTHS[208] == 19 && HUFFMAN_CODES[208] == 0x7fff2);
    } else if k == 209 {
        assert(HUFFMAN_LENGTHS[209] == 21 && HUFFMAN_CODES[209] == 0x1fffe3);
    } else if k == 210 {
        assert(HUFFMAN_LENGTHS[210] == 26 && HUFFMAN_CODES[210] == 0x3ffffe6);
    } else if k == 211 {
        assert(HUFFMAN_LENGTHS[211] == 27 && HUFFMAN_CODES[211] == 0x7ffffe0);
    } else if k == 212 {
        assert(HUFFMAN_LENGTHS[212] == 27 && HUFFMAN_CODES[212] == 0x7ffffe1);
    } else if k == 213 {
        assert(HUFFMAN_LENGTHS[213] == 26 && HUFFMAN_CODES[213] == 0x3ffffe7);
    } else if k == 214 {
        assert(HUFFMAN_LENGTHS[214] == 27 && HUFFMAN_CODES[214] == 0x7ffffe2);
    } else if k == 215 {
        assert(HUFFMAN_LENGTHS[215] == 24 && HUFFMAN_CODES[215] == 0xfffff2);
    } else if k == 216 {
        assert(HUFFMAN_LENGTHS[216] == 21 && HUFFMAN_CODES[216] == 0x1fffe4);
    } else if k == 217 {
        assert(HUFFMAN_LENGTHS[217] == 21 && HUFFMAN_CODES[217] == 0x1fffe5);
    } else if k == 218 {
        assert(HUFFMAN_LENGTHS[218] == 26 && HUFFMAN_CODES[218] == 0x3ffffe8);
    } else if k == 219 {
        assert(HUFFMAN_LENGTHS[219] == 26 && HUFFMAN_CODES[219] == 0x3ffffe9);
    } else if k == 220 {
        assert(HUFFMAN_LENGTHS[220] == 28 && HUFFMAN_CODES[220] == 0xffffffd);
    } else if k == 221 {
        assert(HUFFMAN_LENGTHS[221] == 27 && HUFFMAN_CODES[221] == 0x7ffffe3);
    } else if k == 222 {
        assert(HUFFMAN_LENGTHS[222] == 27 && HUFFMAN_CODES[222] == 0x7ffffe4);
    } else if k == 223 {
        assert(HUFFMAN_LENGTHS[223] == 27 && HUFFMAN_CODES[223] == 0x7ffffe5);
    } else if k == 224 {
        assert(HUFFMAN_LENGTHS[224] == 20 && HUFFMAN_CODES[224] == 0xfffec);
    } else if k == 225 {
        assert(HUFFMAN_LENGTHS[225] == 24 && HUFFMAN_CODES[225] == 0xfffff3);
    } else if k == 226 {
        assert(HUFFMAN_LENGTHS[226] == 20 && HUFFMAN_CODES[226] == 0xfffed);
    } else if k == 227 {
        assert(HUFFMAN_LENGTHS[227] == 21 && HUFFMAN_CODES[227] == 0x1fffe6);
    } else if k == 228 {
        assert(HUFFMAN_LENGTHS[228] == 22 && HUFFMAN_CODES[228] == 0x3fffe9);
    } else if k == 229 {
        assert(HUFFMAN_LENGTHS[229] == 21 && HUFFMAN_CODES[229] == 0x1fffe7);
    } else if k == 230 {
        assert(HUFFMAN_LENGTHS[230] == 21 && HUFFMAN_CODES[230] == 0x1fffe8);
    } else if k == 231 {
        assert(HUFFMAN_LENGTHS[231] == 23 && HUFFMAN_CODES[231] == 0x7ffff3);
    } else if k == 232 {
        assert(HUFFMAN_LENGTHS[232] == 22 && HUFFMAN_CODES[232] == 0x3fffea);
    } else if k == 233 {
        assert(HUFFMAN_LENGTHS[233] == 22 && HUFFMAN_CODES[233] == 0x3fffeb);
    } else if k == 234 {
        assert(HUFFMAN_LENGTHS[234] == 25 && HUFFMAN_CODES[234] == 0x1ffffee);
    } else if k == 235 {
        assert(HUFFMAN_LENGTHS[235] == 25 && HUFFMAN_CODES[235] == 0x1ffffef);
    } else if k == 236 {
        assert(HUFFMAN_LENGTHS[236] == 24 && HUFFMAN_CODES[236] == 0xfffff4);
    } else if k == 237 {
        assert(HUFFMAN_LENGTHS[237] == 24 && HUFFMAN_CODES[237] == 0xfffff5);
    } else if k == 238 {
        assert(HUFFMAN_LENGTHS[238] == 26 && HUFFMAN_CODES[238] == 0x3ffffea);
    } else if k == 239 {
        assert(HUFFMAN_LENGTHS[239] == 23 && HUFFMAN_CODES[239] == 0x7ffff4);
    } else if k == 240 {
        assert(HUFFMAN_LENGTHS[240] == 26 && HUFFMAN_CODES[240] == 0x3ffffeb);
    } else if k == 241 {
        assert(HUFFMAN_LENGTHS[241] == 27 && HUFFMAN_CODES[241] == 0x7ffffe6);
    } else if k == 242 {
        assert(HUFFMAN_LENGTHS[242] == 26 && HUFFMAN_CODES[242] == 0x3ffffec);
    } else if k == 243 {
        assert(HUFFMAN_LENGTHS[243] == 26 && HUFFMAN_CODES[243] == 0x3ffffed);
    } else if k == 244 {
        assert(HUFFMAN_LENGTHS[244] == 27 && HUFFMAN_CODES[244] == 0x7ffffe7);
    } else if k == 245 {
        assert(HUFFMAN_LENGTHS[245] == 27 && HUFFMAN_CODES[245] == 0x7ffffe8);
    } else if k == 246 {
        assert(HUFFMAN_LENGTHS[246] == 27 && HUFFMAN_CODES[246] == 0x7ffffe9);
    } else if k == 247 {
        assert(HUFFMAN_LENGTHS[247] == 27 && HUFFMAN_CODES[247] == 0x7ffffea);
    } else if k == 248 {
        assert(HUFFMAN_LENGTHS[248] == 27 && HUFFMAN_CODES[248] == 0x7ffffeb);
    } else if k == 249 {
        assert(HUFFMAN_LENGTHS[249] == 28 && HUFFMAN_CODES[249] == 0xffffffe);
    } else if k == 250 {
        assert(HUFFMAN_LENGTHS[250] == 27 && HUFFMAN_CODES[250] == 0x7ffffec);
    } else if k == 251 {
        assert(HUFFMAN_LENGTHS[251] == 27 && HUFFMAN_CODES[251] == 0x7ffffed);
    } else if k == 252 {
        assert(HUFFMAN_LENGTHS[252] == 27 && HUFFMAN_CODES[252] == 0x7ffffee);
    } else if k == 253 {
        assert(HUFFMAN_LENGTHS[253] == 27 && HUFFMAN_CODES[253] == 0x7ffffef);
    } else if k == 254 {
        assert(HUFFMAN_LENGTHS[254] == 27 && HUFFMAN_CODES[254] == 0x7fffff0);
    } else if k == 255 {
        assert(HUFFMAN_LENGTHS[255] == 26 && HUFFMAN_CODES[255] == 0x3ffffee);
    } else if k == 256 {
        assert(HUFFMAN_LENGTHS[256] == 30 && HUFFMAN_CODES[256] == 0x3fffffff);
    }
}


/// The concatenated codes of the bytes of `s`, as a number and its bit length.
pub open spec fn code_bits(s: Seq<u8>) -> (nat, nat)
    decreases s.len(),
{
    if s.len() == 0 {
        (0, 0)
    } else {
        let (v, l) = code_bits(s.drop_last());
        (v * pow2(length_of(s.last())) + code_of(s.last()), l + length_of(s.last()))
    }
}

/// The number of padding bits that complete `l` bits to whole bytes.
pub open spec fn padding_len(l: nat) -> nat {
    ((8 - (l % 8)) % 8) as nat
}

/// The `k` low bytes of `n`, most significant first.
pub open spec fn be_bytes(n: nat, k: nat) -> Seq<u8>
    decreases k,
{
    if k == 0 {
        Seq::empty()
    } else {
        be_bytes(n / 256, (k - 1) as nat).push((n % 256) as u8)
    }
}

/// The number that the bytes of `s` spell, most significant first.
pub open spec fn be_value(s: Seq<u8>) -> nat
    decreases s.len(),
{
    if s.len() == 0 {
        0
    } else {
        be_value(s.drop_last()) * 256 + s.last() as nat
    }
}

/// The Huffman encoding of `s`: its codes, padded with one bits to a whole
/// number of bytes.
pub open spec fn huffman_encoding(s: Seq<u8>) -> Seq<u8> {
    let (v, l) = code_bits(s);
    let p = padding_len(l);
    be_bytes(v * pow2(p) + (pow2(p) - 1) as nat, (l + p) / 8)
}

/// The length in bytes of the Huffman encoding of `s`.
pub open spec fn huffman_encoded_len(s: Seq<u8>) -> nat {
    (code_bits(s).1 + 7) / 8
}

/// Bit `i` of `s`, counting from the most significant bit of the first byte.
pub open spec fn bit_at(s: Seq<u8>, i: nat) -> nat {
    ((s[(i / 8) as int] as nat) / pow2((7 - i % 8) as nat)) % 2
}

/// The first symbol from `i` on whose code is `code` with length `len`.
pub open spec fn find_code(code: nat, len: nat, i: nat) -> Option<nat>
    decreases 257 - i,
{
    if i >= 257 {
        None
    } else if HUFFMAN_CODES[i as int] as nat == code && HUFFMAN_LENGTHS[i as int] as nat == len {
        Some(i)
    } else {
        find_code(code, len, i + 1)
    }
}

/// The symbol whose code is `code` with bit length `len`, if any.
pub open spec fn symbol_with_code(code: nat, len: nat) -> Option<nat> {
    find_code(code, len, 0)
}

/// Decodes the bits of `s` from bit `pos` on, where the bits read since the
/// last symbol spell `code` in `len` bits and `out` holds the symbols so far.
/// A code longer than 30 bits, the end-of-string symbol, and a final
/// remainder that is not a padding of at most 7 one bits are errors.
pub open spec fn decode_bits(s: Seq<u8>, pos: nat, code: nat, len: nat, out: Seq<u8>) -> Result<
    Seq<u8>,
    HuffmanError,
>
    decreases 8 * s.len() - pos,
{
    if pos >= 8 * s.len() {
        if len <= 7 && code + 1 == pow2(len) {
            Ok(out)
        } else {
            Err(HuffmanError::InvalidPadding)
        }
    } else {
        let c = code * 2 + bit_at(s, pos);
        let l = len + 1;
        match symbol_with_code(c, l) {
            Some(sym) => if sym == 256 {
                Err(HuffmanError::EndOfStringSymbol)
            } else {
                decode_bits(s, pos + 1, 0, 0, out.push(sym as u8))
            },
            None => if l >= 30 {
                Err(HuffmanError::InvalidCode)
            } else {
                decode_bits(s, pos + 1, c, l, out)
            },
        }
    }
}

/// The bytes that the Huffman-coded `s` spells, or why it spells none.
pub open spec fn huffman_decoding(s: Seq<u8>) -> Result<Seq<u8>, HuffmanError> {
    decode_bits(s, 0, 0, 0, Seq::empty())
}

/// The length of the Huffman encoding of `data`.
pub fn encoded_len(data: &[u8]) -> (r: usize)
    requires
        data@.len() <= usize::MAX / 4,
    ensures
        r == huffman_encoded_len(data@),
{
    let mut bits: u128 = 0;
    let mut i: usize = 0;
    while i < data.len()
        invariant
            i <= data.len(),
            data@.len() <= usize::MAX / 4,
            bits == code_bits(data@.take(i as int)).1,
            bits <= 30 * i,
        decreases data.len() - i,
    {
        proof {
            lemma_code_table(data[i as int] as int);
            assert(data@.take(i + 1).drop_last() =~= data@.take(i as int));
        }
        bits = bits + HUFFMAN_LENGTHS[data[i] as usize] as u128;
        i = i + 1;
    }
    assert(data@.take(i as int) =~= data@);
    ((bits + 7) / 8) as usize
}


fn pow2_u64(n: u64) -> (r: u64)
    requires
        n < 64,
    ensures
        r == pow2(n as nat),
{
    proof {
        vstd::bits::lemma_u64_pow2_no_overflow(n as nat);
        vstd::bits::lemma_u64_shl_is_mul(1, n);
    }
    1u64 << n
}

proof fn lemma_be_roundtrip(s: Seq<u8>)
    ensures
        be_bytes(be_value(s), s.len()) == s,
    decreases s.len(),
{
    if s.len() > 0 {
        let x = be_value(s);
        lemma_be_roundtrip(s.drop_last());
        assert(x / 256 == be_value(s.drop_last()));
        assert(x % 256 == s.last() as nat);
        assert(be_bytes(x, s.len()) =~= s);
    }
}

/// Appends the Huffman encoding of `data` to `buf`.
pub fn encode(data: &[u8], buf: &mut Vec<u8>)
    ensures
        final(buf)@ == old(buf)@ + huffman_encoding(data@),
{
    let ghost start = buf@;
    // The bits not yet written out: `nbits` of them, with value `acc`.
    let mut acc: u64 = 0;
    let mut nbits: u64 = 0;
    let mut i: usize = 0;
    proof {
        lemma_pow2_pos(0);
        assert(pow2(0) == 1) by {
            lemma2_to64();
        }
        assert(buf@.skip(start.len() as int) =~= Seq::<u8>::empty());
        assert(data@.take(0) =~= Seq::<u8>::empty());
    }
    while i < data.len()
        invariant
            i <= data.len(),
            buf@.len() >= start.len(),
            buf@.take(start.len() as int) == start,
            nbits < 8,
            (acc as nat) < pow2(nbits as nat),
            code_bits(data@.take(i as int)).0 == be_value(buf@.skip(start.len() as int)) * pow2(
                nbits as nat,
            ) + acc,
            code_bits(data@.take(i as int)).1 == 8 * buf@.skip(start.len() as int).len() + nbits,
        decreases data.len() - i,
    {
        let sym: usize = data[i] as usize;
        proof {
            lemma_code_table(sym as int);
            assert(data@.take(i + 1).drop_last() =~= data@.take(i as int));
        }
        let len: u64 = HUFFMAN_LENGTHS[sym] as u64;
        let code: u64 = HUFFMAN_CODES[sym] as u64;
        let p: u64 = pow2_u64(len);
        proof {
            let a = acc as nat;
            let pn = pow2(nbits as nat);
            let pl = pow2(len as nat);
            lemma_pow2_adds(nbits as nat, len as nat);
            lemma2_to64();
            assert(pn <= 128) by {
                if nbits < 7 {
                    vstd::arithmetic::power2::lemma_pow2_strictly_increases(nbits as nat, 7);
                }
            }
            assert(pl <= 0x4000_0000) by {
                if len < 30 {
                    vstd::arithmetic::power2::lemma_pow2_strictly_increases(len as nat, 30);
                }
            }
            assert(a * pl + code < pn * pl) by (nonlinear_arith)
                requires
                    a + 1 <= pn,
                    code < pl;
            assert(pn * pl <= 128 * 0x4000_0000) by (nonlinear_arith)
                requires
                    pn <= 128,
                    pl <= 0x4000_0000;
        }
        let ghost a0 = acc as nat;
        let ghost n0 = nbits as nat;
        acc = acc * p + code;
        nbits = nbits + len;
        proof {
            let out = buf@.skip(start.len() as int);
            let v = code_bits(data@.take(i as int)).0;
            let pl = pow2(len as nat);
            let pn = pow2(n0);
            assert(pow2(nbits as nat) == pn * pl);
            assert(code_bits(data@.take(i + 1)).0 == v * pl + code);
            assert(v * pl + code == be_value(out) * (pn * pl) + acc) by (nonlinear_arith)
                requires
                    v == be_value(out) * pn + a0,
                    acc == a0 * pl + code;
        }
        while nbits >= 8
            invariant
                buf@.len() >= start.len(),
                buf@.take(start.len() as int) == start,
                nbits < 38,
                (acc as nat) < pow2(nbits as nat),
                code_bits(data@.take(i + 1)).0 == be_value(buf@.skip(start.len() as int)) * pow2(
                    nbits as nat,
                ) + acc,
                code_bits(data@.take(i + 1)).1 == 8 * buf@.skip(start.len() as int).len()
                    + nbits,
            decreases nbits,
        {
            nbits = nbits - 8;
            let q: u64 = pow2_u64(nbits);
            proof {
                lemma_pow2_adds(nbits as nat, 8);
                lemma2_to64();
                lemma_pow2_pos(nbits as nat);
            }
            let byte: u64 = acc / q;
            let ghost old_out = buf@.skip(start.len() as int);
            proof {
                assert(byte < 256) by (nonlinear_arith)
                    requires
                        acc < q * 256,
                        byte == acc / q,
                        q > 0;
            }
            buf.push(byte as u8);
            proof {
                let out = buf@.skip(start.len() as int);
                assert(out =~= old_out.push(byte as u8));
                assert(out.drop_last() =~= old_out);
                assert(be_value(out) == be_value(old_out) * 256 + byte);
                assert(acc == byte * q + acc % q) by (nonlinear_arith)
                    requires
                        byte == acc / q,
                        q > 0;
                assert(be_value(old_out) * (q * 256) + acc == be_value(out) * q + acc % q) by (
                nonlinear_arith)
                    requires
                        be_value(out) == be_value(old_out) * 256 + byte,
                        acc == byte * q + acc % q;
                assert(buf@.take(start.len() as int) =~= start);
            }
            acc = acc % q;
        }
        i = i + 1;
    }
    let ghost out = buf@.skip(start.len() as int);
    assert(data@.take(i as int) =~= data@);
    proof {
        lemma_be_roundtrip(out);
    }
    if nbits > 0 {
        let pad: u64 = 8 - nbits;
        let pp: u64 = pow2_u64(pad);
        proof {
            lemma_pow2_adds(nbits as nat, pad as nat);
            lemma2_to64();
            lemma_pow2_pos(pad as nat);
            assert(acc * pp + pp - 1 < 256) by (nonlinear_arith)
                requires
                    acc + 1 <= pow2(nbits as nat),
                    pow2(nbits as nat) * pp == 256,
                    pp > 0;
        }
        let last: u64 = acc * pp + (pp - 1);
        buf.push(last as u8);
        proof {
            let v = code_bits(data@).0;
            let l = code_bits(data@).1;
            assert(padding_len(l) == pad);
            let n: nat = (v * pp + (pp - 1)) as nat;
            let pn = pow2(nbits as nat);
            assert(v * pp + pp - 1 == be_value(out) * 256 + last) by (nonlinear_arith)
                requires
                    v == be_value(out) * pn + acc,
                    pn * pp == 256,
                    last == acc * pp + pp - 1;
            assert((l + pad) / 8 == out.len() + 1);
            assert(n / 256 == be_value(out));
            assert(n % 256 == last);
            assert(be_bytes(n, out.len() + 1) == out.push(last as u8));
            assert(buf@ =~= start + out.push(last as u8));
        }
    } else {
        proof {
            let v = code_bits(data@).0;
            let l = code_bits(data@).1;
            assert(padding_len(l) == 0);
            assert(pow2(0) == 1) by {
                lemma2_to64();
            }
            assert(acc == 0);
            assert(v == be_value(out)) by (nonlinear_arith)
                requires
                    v == be_value(out) * pow2(0) + acc,
                    pow2(0) == 1,
                    acc == 0;
            assert(v * pow2(0) + (pow2(0) - 1) as nat == v);
            assert(buf@ =~= start + out);
        }
    }
}


/// The symbol whose code is `code` with bit length `len`, if any.
fn find_symbol(code: u32, len: u32) -> (r: Option<usize>)
    ensures
        match r {
            Some(i) => symbol_with_code(code as nat, len as nat) == Some(i as nat) && i < 257,
            None => symbol_with_code(code as nat, len as nat) is None,
        },
{
    let mut i: usize = 0;
    while i < 257
        invariant
            i <= 257,
            find_code(code as nat, len as nat, 0) == find_code(code as nat, len as nat, i as nat),
        decreases 257 - i,
    {
        if HUFFMAN_CODES[i] == code && HUFFMAN_LENGTHS[i] as u32 == len {
            return Some(i);
        }
        i = i + 1;
    }
    None
}

/// Decodes the Huffman-coded `data` and appends the bytes it spells to
/// `buf`; on an error `buf` is left as it was.
pub fn decode(data: &[u8], buf: &mut Vec<u8>) -> (r: Result<(), HuffmanError>)
    ensures
        match huffman_decoding(data@) {
            Ok(v) => r is Ok && final(buf)@ == old(buf)@ + v,
            Err(e) => r == Err::<(), HuffmanError>(e) && final(buf)@ == old(buf)@,
        },
{
    let mut out: Vec<u8> = Vec::new();
    let mut code: u32 = 0;
    let mut len: u32 = 0;
    let mut i: usize = 0;
    proof {
        lemma2_to64();
    }
    while i < data.len()
        invariant
            i <= data.len(),
            len <= 29,
            (code as nat) < pow2(len as nat),
            huffman_decoding(data@) == decode_bits(data@, 8 * i as nat, code as nat, len as nat, out@),
        decreases data.len() - i,
    {
        let byte: u8 = data[i];
        let mut j: u32 = 0;
        while j < 8
            invariant
                i < data.len(),
                byte == data@[i as int],
                j <= 8,
                len <= 29,
                (code as nat) < pow2(len as nat),
                huffman_decoding(data@) == decode_bits(
                    data@,
                    (8 * i + j) as nat,
                    code as nat,
                    len as nat,
                    out@,
                ),
            decreases 8 - j,
        {
            let b: u32 = ((byte >> (7 - j) as u8) & 1) as u32;
            proof {
                let pos = (8 * i + j) as nat;
                assert(pos / 8 == i && pos % 8 == j);
                let sh = (7 - j) as u8;
                vstd::bits::lemma_u8_shr_is_div(byte, sh);
                let x = byte >> sh;
                assert(x & 1 == x % 2) by (bit_vector);
                assert(b as nat == bit_at(data@, pos));
                lemma_pow2_adds(len as nat, 1);
                lemma2_to64();
                assert(pow2(1) == 2);
                assert(code * 2 + b < pow2(len as nat) * 2) by (nonlinear_arith)
                    requires
                        code < pow2(len as nat),
                        b <= 1;
                if len < 29 {
                    vstd::arithmetic::power2::lemma_pow2_strictly_increases((len + 1) as nat, 30);
                }
            }
            code = code * 2 + b;
            len = len + 1;
            match find_symbol(code, len) {
                Some(sym) => {
                    if sym == 256 {
                        return Err(HuffmanError::EndOfStringSymbol);
                    }
                    out.push(sym as u8);
                    code = 0;
                    len = 0;
                },
                None => {
                    if len >= 30 {
                        return Err(HuffmanError::InvalidCode);
                    }
                },
            }
            j = j + 1;
        }
        i = i + 1;
    }
    if len <= 7 && (code as u64) + 1 == pow2_u64(len as u64) {
        let ghost before = buf@;
        buf.extend_from_slice(out.as_slice());
        assert(buf@ =~= before + out@);
        Ok(())
    } else {
        Err(HuffmanError::InvalidPadding)
    }
}

} // verus!
