//! Rows 0 to 63 of the triangulation table.
use vstd::prelude::*;
use super::row_sound;

verus! {

/// Rows of the triangulation table for configurations 0 to 63.
pub const CONFIGS_0_TO_63: [[i8; 16]; 64] = [
    [-1, -1, -1, -1, -1, -1, -1, -1, -1, -1, -1, -1, -1, -1, -1, -1],
    [0, 8, 3, -1, -1, -1, -1, -1, -1, -1, -1, -1, -1, -1, -1, -1],
    [0, 1, 9, -1, -1, -1, -1, -1, -1, -1, -1, -1, -1, -1, -1, -1],
    [1, 8, 3, 9, 8, 1, -1, -1, -1, -1, -1, -1, -1, -1, -1, -1],
    [1, 2, 10, -1, -1, -1, -1, -1, -1, -1, -1, -1, -1, -1, -1, -1],
    [0, 8, 3, 1, 2, 10, -1, -1, -1, -1, -1, -1, -1, -1, -1, -1],
    [9, 2, 10, 0, 2, 9, -1, -1, -1, -1, -1, -1, -1, -1, -1, -1],
    [2, 8, 3, 2, 10, 8, 10, 9, 8, -1, -1, -1, -1, -1, -1, -1],
    [3, 11, 2, -1, -1, -1, -1, -1, -1, -1, -1, -1, -1, -1, -1, -1],
    [0, 11, 2, 8, 11, 0, -1, -1, -1, -1, -1, -1, -1, -1, -1, -1],
    [1, 9, 0, 2, 3, 11, -1, -1, -1, -1, -1, -1, -1, -1, -1, -1],
    [1, 11, 2, 1, 9, 11, 9, 8, 11, -1, -1, -1, -1, -1, -1, -1],
    [3, 10, 1, 11, 10, 3, -1, -1, -1, -1, -1, -1, -1, -1, -1, -1],
    [0, 10, 1, 0, 8, 10, 8, 11, 10, -1, -1, -1, -1, -1, -1, -1],
    [3, 9, 0, 3, 11, 9, 11, 10, 9, -1, -1, -1, -1, -1, -1, -1],
    [9, 8, 10, 10, 8, 11, -1, -1, -1, -1, -1, -1, -1, -1, -1, -1],
    [4, 7, 8, -1, -1, -1, -1, -1, -1, -1, -1, -1, -1, -1, -1, -1],
    [4, 3, 0, 7, 3, 4, -1, -1, -1, -1, -1, -1, -1, -1, -1, -1],
    [0, 1, 9, 8, 4, 7, -1, -1, -1, -1, -1, -1, -1, -1, -1, -1],
    [4, 1, 9, 4, 7, 1, 7, 3, 1, -1, -1, -1, -1, -1, -1, -1],
    [1, 2, 10, 8, 4, 7, -1, -1, -1, -1, -1, -1, -1, -1, -1, -1],
    [3, 4, 7, 3, 0, 4, 1, 2, 10, -1, -1, -1, -1, -1, -1, -1],
    [9, 2, 10, 9, 0, 2, 8, 4, 7, -1, -1, -1, -1, -1, -1, -1],
    [2, 10, 9, 2, 9, 7, 2, 7, 3, 7, 9, 4, -1, -1, -1, -1],
    [8, 4, 7, 3, 11, 2, -1, -1, -1, -1, -1, -1, -1, -1, -1, -1],
    [11, 4, 7, 11, 2, 4, 2, 0, 4, -1, -1, -1, -1, -1, -1, -1],
    [9, 0, 1, 8, 4, 7, 2, 3, 11, -1, -1, -1, -1, -1, -1, -1],
    [4, 7, 11, 9, 4, 11, 9, 11, 2, 9, 2, 1, -1, -1, -1, -1],
    [3, 10, 1, 3, 11, 10, 7, 8, 4, -1, -1, -1, -1, -1, -1, -1],
    [1, 11, 10, 1, 4, 11, 1, 0, 4, 7, 11, 4, -1, -1, -1, -1],
    [4, 7, 8, 9, 0, 11, 9, 11, 10, 11, 0, 3, -1, -1, -1, -1],
    [4, 7, 11, 4, 11, 9, 9, 11, 10, -1, -1, -1, -1, -1, -1, -1],
    [9, 5, 4, -1, -1, -1, -1, -1, -1, -1, -1, -1, -1, -1, -1, -1],
    [9, 5, 4, 0, 8, 3, -1, -1, -1, -1, -1, -1, -1, -1, -1, -1],
    [0, 5, 4, 1, 5, 0, -1, -1, -1, -1, -1, -1, -1, -1, -1, -1],
    [8, 5, 4, 8, 3, 5, 3, 1, 5, -1, -1, -1, -1, -1, -1, -1],
    [1, 2, 10, 9, 5, 4, -1, -1, -1, -1, -1, -1, -1, -1, -1, -1],
    [3, 0, 8, 1, 2, 10, 4, 9, 5, -1, -1, -1, -1, -1, -1, -1],
    [5, 2, 10, 5, 4, 2, 4, 0, 2, -1, -1, -1, -1, -1, -1, -1],
    [2, 10, 5, 3, 2, 5, 3, 5, 4, 3, 4, 8, -1, -1, -1, -1],
    [9, 5, 4, 2, 3, 11, -1, -1, -1, -1, -1, -1, -1, -1, -1, -1],
    [0, 11, 2, 0, 8, 11, 4, 9, 5, -1, -1, -1, -1, -1, -1, -1],
    [0, 5, 4, 0, 1, 5, 2, 3, 11, -1, -1, -1, -1, -1, -1, -1],
    [2, 1, 5, 2, 5, 8, 2, 8, 11, 4, 8, 5, -1, -1, -1, -1],
    [10, 3, 11, 10, 1, 3, 9, 5, 4, -1, -1, -1, -1, -1, -1, -1],
    [4, 9, 5, 0, 8, 1, 8, 10, 1, 8, 11, 10, -1, -1, -1, -1],
    [5, 4, 0, 5, 0, 11, 5, 11, 10, 11, 0, 3, -1, -1, -1, -1],
    [5, 4, 8, 5, 8, 10, 10, 8, 11, -1, -1, -1, -1, -1, -1, -1],
    [9, 7, 8, 5, 7, 9, -1, -1, -1, -1, -1, -1, -1, -1, -1, -1],
    [9, 3, 0, 9, 5, 3, 5, 7, 3, -1, -1, -1, -1, -1, -1, -1],
    [0, 7, 8, 0, 1, 7, 1, 5, 7, -1, -1, -1, -1, -1, -1, -1],
    [1, 5, 3, 3, 5, 7, -1, -1, -1, -1, -1, -1, -1, -1, -1, -1],
    [9, 7, 8, 9, 5, 7, 10, 1, 2, -1, -1, -1, -1, -1, -1, -1],
    [10, 1, 2, 9, 5, 0, 5, 3, 0, 5, 7, 3, -1, -1, -1, -1],
    [8, 0, 2, 8, 2, 5, 8, 5, 7, 10, 5, 2, -1, -1, -1, -1],
    [2, 10, 5, 2, 5, 3, 3, 5, 7, -1, -1, -1, -1, -1, -1, -1],
    [7, 9, 5, 7, 8, 9, 3, 11, 2, -1, -1, -1, -1, -1, -1, -1],
    [9, 5, 7, 9, 7, 2, 9, 2, 0, 2, 7, 11, -1, -1, -1, -1],
    [2, 3, 11, 0, 1, 8, 1, 7, 8, 1, 5, 7, -1, -1, -1, -1],
    [11, 2, 1, 11, 1, 7, 7, 1, 5, -1, -1, -1, -1, -1, -1, -1],
    [9, 5, 8, 8, 5, 7, 10, 1, 3, 10, 3, 11, -1, -1, -1, -1],
    [5, 7, 0, 5, 0, 9, 7, 11, 0, 1, 0, 10, 11, 10, 0, -1],
    [11, 10, 0, 11, 0, 3, 10, 5, 0, 8, 0, 7, 5, 7, 0, -1],
    [11, 10, 5, 7, 11, 5, -1, -1, -1, -1, -1, -1, -1, -1, -1, -1],
];

/// Each row of this block is sound for its configuration.
pub proof fn lemma_block_0_sound()
    ensures
        forall|i: int| 0 <= i < 64 ==> row_sound(i, #[trigger] CONFIGS_0_TO_63[i]),
{
    assert(row_sound(0, CONFIGS_0_TO_63[0]));
    assert(row_sound(1, CONFIGS_0_TO_63[1]));
    assert(row_sound(2, CONFIGS_0_TO_63[2]));
    assert(row_sound(3, CONFIGS_0_TO_63[3]));
    assert(row_sound(4, CONFIGS_0_TO_63[4]));
    assert(row_sound(5, CONFIGS_0_TO_63[5]));
    assert(row_sound(6, CONFIGS_0_TO_63[6]));
    assert(row_sound(7, CONFIGS_0_TO_63[7]));
    assert(row_sound(8, CONFIGS_0_TO_63[8]));
    assert(row_sound(9, CONFIGS_0_TO_63[9]));
    assert(row_sound(10, CONFIGS_0_TO_63[10]));
    assert(row_sound(11, CONFIGS_0_TO_63[11]));
    assert(row_sound(12, CONFIGS_0_TO_63[12]));
    assert(row_sound(13, CONFIGS_0_TO_63[13]));
    assert(row_sound(14, CONFIGS_0_TO_63[14]));
    assert(row_sound(15, CONFIGS_0_TO_63[15]));
    assert(row_sound(16, CONFIGS_0_TO_63[16]));
    assert(row_sound(17, CONFIGS_0_TO_63[17]));
    assert(row_sound(18, CONFIGS_0_TO_63[18]));
    assert(row_sound(19, CONFIGS_0_TO_63[19]));
    assert(row_sound(20, CONFIGS_0_TO_63[20]));
    assert(row_sound(21, CONFIGS_0_TO_63[21]));
    assert(row_sound(22, CONFIGS_0_TO_63[22]));
    assert(row_sound(23, CONFIGS_0_TO_63[23]));
    assert(row_sound(24, CONFIGS_0_TO_63[24]));
    assert(row_sound(25, CONFIGS_0_TO_63[25]));
    assert(row_sound(26, CONFIGS_0_TO_63[26]));
    assert(row_sound(27, CONFIGS_0_TO_63[27]));
    assert(row_sound(28, CONFIGS_0_TO_63[28]));
    assert(row_sound(29, CONFIGS_0_TO_63[29]));
    assert(row_sound(30, CONFIGS_0_TO_63[30]));
    assert(row_sound(31, CONFIGS_0_TO_63[31]));
    assert(row_sound(32, CONFIGS_0_TO_63[32]));
    assert(row_sound(33, CONFIGS_0_TO_63[33]));
    assert(row_sound(34, CONFIGS_0_TO_63[34]));
    assert(row_sound(35, CONFIGS_0_TO_63[35]));
    assert(row_sound(36, CONFIGS_0_TO_63[36]));
    assert(row_sound(37, CONFIGS_0_TO_63[37]));
    assert(row_sound(38, CONFIGS_0_TO_63[38]));
    assert(row_sound(39, CONFIGS_0_TO_63[39]));
    assert(row_sound(40, CONFIGS_0_TO_63[40]));
    assert(row_sound(41, CONFIGS_0_TO_63[41]));
    assert(row_sound(42, CONFIGS_0_TO_63[42]));
    assert(row_sound(43, CONFIGS_0_TO_63[43]));
    assert(row_sound(44, CONFIGS_0_TO_63[44]));
    assert(row_sound(45, CONFIGS_0_TO_63[45]));
    assert(row_sound(46, CONFIGS_0_TO_63[46]));
    assert(row_sound(47, CONFIGS_0_TO_63[47]));
    assert(row_sound(48, CONFIGS_0_TO_63[48]));
    assert(row_sound(49, CONFIGS_0_TO_63[49]));
    assert(row_sound(50, CONFIGS_0_TO_63[50]));
    assert(row_sound(51, CONFIGS_0_TO_63[51]));
    assert(row_sound(52, CONFIGS_0_TO_63[52]));
    assert(row_sound(53, CONFIGS_0_TO_63[53]));
    assert(row_sound(54, CONFIGS_0_TO_63[54]));
    assert(row_sound(55, CONFIGS_0_TO_63[55]));
    assert(row_sound(56, CONFIGS_0_TO_63[56]));
    assert(row_sound(57, CONFIGS_0_TO_63[57]));
    assert(row_sound(58, CONFIGS_0_TO_63[58]));
    assert(row_sound(59, CONFIGS_0_TO_63[59]));
    assert(row_sound(60, CONFIGS_0_TO_63[60]));
    assert(row_sound(61, CONFIGS_0_TO_63[61]));
    assert(row_sound(62, CONFIGS_0_TO_63[62]));
    assert(row_sound(63, CONFIGS_0_TO_63[63]));
}

} // verus!
