//! Rows 64 to 127 of the triangulation table.
use vstd::prelude::*;
use super::row_sound;

verus! {

/// Rows of the triangulation table for configurations 64 to 127.
pub const CONFIGS_64_TO_127: [[i8; 16]; 64] = [
    [10, 6, 5, -1, -1, -1, -1, -1, -1, -1, -1, -1, -1, -1, -1, -1],
    [0, 8, 3, 5, 10, 6, -1, -1, -1, -1, -1, -1, -1, -1, -1, -1],
    [9, 0, 1, 5, 10, 6, -1, -1, -1, -1, -1, -1, -1, -1, -1, -1],
    [1, 8, 3, 1, 9, 8, 5, 10, 6, -1, -1, -1, -1, -1, -1, -1],
    [1, 6, 5, 2, 6, 1, -1, -1, -1, -1, -1, -1, -1, -1, -1, -1],
    [1, 6, 5, 1, 2, 6, 3, 0, 8, -1, -1, -1, -1, -1, -1, -1],
    [9, 6, 5, 9, 0, 6, 0, 2, 6, -1, -1, -1, -1, -1, -1, -1],
    [5, 9, 8, 5, 8, 2, 5, 2, 6, 3, 2, 8, -1, -1, -1, -1],
    [2, 3, 11, 10, 6, 5, -1, -1, -1, -1, -1, -1, -1, -1, -1, -1],
    [11, 0, 8, 11, 2, 0, 10, 6, 5, -1, -1, -1, -1, -1, -1, -1],
    [0, 1, 9, 2, 3, 11, 5, 10, 6, -1, -1, -1, -1, -1, -1, -1],
    [5, 10, 6, 1, 9, 2, 9, 11, 2, 9, 8, 11, -1, -1, -1, -1],
    [6, 3, 11, 6, 5, 3, 5, 1, 3, -1, -1, -1, -1, -1, -1, -1],
    [0, 8, 11, 0, 11, 5, 0, 5, 1, 5, 11, 6, -1, -1, -1, -1],
    [3, 11, 6, 0, 3, 6, 0, 6, 5, 0, 5, 9, -1, -1, -1, -1],
    [6, 5, 9, 6, 9, 11, 11, 9, 8, -1, -1, -1, -1, -1, -1, -1],
    [5, 10, 6, 4, 7, 8, -1, -1, -1, -1, -1, -1, -1, -1, -1, -1],
    [4, 3, 0, 4, 7, 3, 6, 5, 10, -1, -1, -1, -1, -1, -1, -1],
    [1, 9, 0, 5, 10, 6, 8, 4, 7, -1, -1, -1, -1, -1, -1, -1],
    [10, 6, 5, 1, 9, 7, 1, 7, 3, 7, 9, 4, -1, -1, -1, -1],
    [6, 1, 2, 6, 5, 1, 4, 7, 8, -1, -1, -1, -1, -1, -1, -1],
    [1, 2, 5, 5, 2, 6, 3, 0, 4, 3, 4, 7, -1, -1, -1, -1],
    [8, 4, 7, 9, 0, 5, 0, 6, 5, 0, 2, 6, -1, -1, -1, -1],
    [7, 3, 9, 7, 9, 4, 3, 2, 9, 5, 9, 6, 2, 6, 9, -1],
    [3, 11, 2, 7, 8, 4, 10, 6, 5, -1, -1, -1, -1, -1, -1, -1],
    [5, 10, 6, 4, 7, 2, 4, 2, 0, 2, 7, 11, -1, -1, -1, -1],
    [0, 1, 9, 4, 7, 8, 2, 3, 11, 5, 10, 6, -1, -1, -1, -1],
    [9, 2, 1, 9, 11, 2, 9, 4, 11, 7, 11, 4, 5, 10, 6, -1],
    [8, 4, 7, 3, 11, 5, 3, 5, 1, 5, 11, 6, -1, -1, -1, -1],
    [5, 1, 11, 5, 11, 6, 1, 0, 11, 7, 11, 4, 0, 4, 11, -1],
    [0, 5, 9, 0, 6, 5, 0, 3, 6, 11, 6, 3, 8, 4, 7, -1],
    [6, 5, 9, 6, 9, 11, 4, 7, 9, 7, 11, 9, -1, -1, -1, -1],
    [10, 4, 9, 6, 4, 10, -1, -1, -1, -1, -1, -1, -1, -1, -1, -1],
    [4, 10, 6, 4, 9, 10, 0, 8, 3, -1, -1, -1, -1, -1, -1, -1],
    [10, 0, 1, 10, 6, 0, 6, 4, 0, -1, -1, -1, -1, -1, -1, -1],
    [8, 3, 1, 8, 1, 6, 8, 6, 4, 6, 1, 10, -1, -1, -1, -1],
    [1, 4, 9, 1, 2, 4, 2, 6, 4, -1, -1, -1, -1, -1, -1, -1],
    [3, 0, 8, 1, 2, 9, 2, 4, 9, 2, 6, 4, -1, -1, -1, -1],
    [0, 2, 4, 4, 2, 6, -1, -1, -1, -1, -1, -1, -1, -1, -1, -1],
    [8, 3, 2, 8, 2, 4, 4, 2, 6, -1, -1, -1, -1, -1, -1, -1],
    [10, 4, 9, 10, 6, 4, 11, 2, 3, -1, -1, -1, -1, -1, -1, -1],
    [0, 8, 2, 2, 8, 11, 4, 9, 10, 4, 10, 6, -1, -1, -1, -1],
    [3, 11, 2, 0, 1, 6, 0, 6, 4, 6, 1, 10, -1, -1, -1, -1],
    [6, 4, 1, 6, 1, 10, 4, 8, 1, 2, 1, 11, 8, 11, 1, -1],
    [9, 6, 4, 9, 3, 6, 9, 1, 3, 11, 6, 3, -1, -1, -1, -1],
    [8, 11, 1, 8, 1, 0, 11, 6, 1, 9, 1, 4, 6, 4, 1, -1],
    [3, 11, 6, 3, 6, 0, 0, 6, 4, -1, -1, -1, -1, -1, -1, -1],
    [6, 4, 8, 11, 6, 8, -1, -1, -1, -1, -1, -1, -1, -1, -1, -1],
    [7, 10, 6, 7, 8, 10, 8, 9, 10, -1, -1, -1, -1, -1, -1, -1],
    [0, 7, 3, 0, 10, 7, 0, 9, 10, 6, 7, 10, -1, -1, -1, -1],
    [10, 6, 7, 1, 10, 7, 1, 7, 8, 1, 8, 0, -1, -1, -1, -1],
    [10, 6, 7, 10, 7, 1, 1, 7, 3, -1, -1, -1, -1, -1, -1, -1],
    [1, 2, 6, 1, 6, 8, 1, 8, 9, 8, 6, 7, -1, -1, -1, -1],
    [2, 6, 9, 2, 9, 1, 6, 7, 9, 0, 9, 3, 7, 3, 9, -1],
    [7, 8, 0, 7, 0, 6, 6, 0, 2, -1, -1, -1, -1, -1, -1, -1],
    [7, 3, 2, 6, 7, 2, -1, -1, -1, -1, -1, -1, -1, -1, -1, -1],
    [2, 3, 11, 10, 6, 8, 10, 8, 9, 8, 6, 7, -1, -1, -1, -1],
    [2, 0, 7, 2, 7, 11, 0, 9, 7, 6, 7, 10, 9, 10, 7, -1],
    [1, 8, 0, 1, 7, 8, 1, 10, 7, 6, 7, 10, 2, 3, 11, -1],
    [11, 2, 1, 11, 1, 7, 10, 6, 1, 6, 7, 1, -1, -1, -1, -1],
    [8, 9, 6, 8, 6, 7, 9, 1, 6, 11, 6, 3, 1, 3, 6, -1],
    [0, 9, 1, 11, 6, 7, -1, -1, -1, -1, -1, -1, -1, -1, -1, -1],
    [7, 8, 0, 7, 0, 6, 3, 11, 0, 11, 6, 0, -1, -1, -1, -1],
    [7, 11, 6, -1, -1, -1, -1, -1, -1, -1, -1, -1, -1, -1, -1, -1],
];

/// Each row of this block is sound for its configuration.
pub proof fn lemma_block_1_sound()
    ensures
        forall|i: int| 0 <= i < 64 ==> row_sound(i + 64, #[trigger] CONFIGS_64_TO_127[i]),
{
    assert(row_sound(64, CONFIGS_64_TO_127[0]));
    assert(row_sound(65, CONFIGS_64_TO_127[1]));
    assert(row_sound(66, CONFIGS_64_TO_127[2]));
    assert(row_sound(67, CONFIGS_64_TO_127[3]));
    assert(row_sound(68, CONFIGS_64_TO_127[4]));
    assert(row_sound(69, CONFIGS_64_TO_127[5]));
    assert(row_sound(70, CONFIGS_64_TO_127[6]));
    assert(row_sound(71, CONFIGS_64_TO_127[7]));
    assert(row_sound(72, CONFIGS_64_TO_127[8]));
    assert(row_sound(73, CONFIGS_64_TO_127[9]));
    assert(row_sound(74, CONFIGS_64_TO_127[10]));
    assert(row_sound(75, CONFIGS_64_TO_127[11]));
    assert(row_sound(76, CONFIGS_64_TO_127[12]));
    assert(row_sound(77, CONFIGS_64_TO_127[13]));
    assert(row_sound(78, CONFIGS_64_TO_127[14]));
    assert(row_sound(79, CONFIGS_64_TO_127[15]));
    assert(row_sound(80, CONFIGS_64_TO_127[16]));
    assert(row_sound(81, CONFIGS_64_TO_127[17]));
    assert(row_sound(82, CONFIGS_64_TO_127[18]));
    assert(row_sound(83, CONFIGS_64_TO_127[19]));
    assert(row_sound(84, CONFIGS_64_TO_127[20]));
    assert(row_sound(85, CONFIGS_64_TO_127[21]));
    assert(row_sound(86, CONFIGS_64_TO_127[22]));
    assert(row_sound(87, CONFIGS_64_TO_127[23]));
    assert(row_sound(88, CONFIGS_64_TO_127[24]));
    assert(row_sound(89, CONFIGS_64_TO_127[25]));
    assert(row_sound(90, CONFIGS_64_TO_127[26]));
    assert(row_sound(91, CONFIGS_64_TO_127[27]));
    assert(row_sound(92, CONFIGS_64_TO_127[28]));
    assert(row_sound(93, CONFIGS_64_TO_127[29]));
    assert(row_sound(94, CONFIGS_64_TO_127[30]));
    assert(row_sound(95, CONFIGS_64_TO_127[31]));
    assert(row_sound(96, CONFIGS_64_TO_127[32]));
    assert(row_sound(97, CONFIGS_64_TO_127[33]));
    assert(row_sound(98, CONFIGS_64_TO_127[34]));
    assert(row_sound(99, CONFIGS_64_TO_127[35]));
    assert(row_sound(100, CONFIGS_64_TO_127[36]));
    assert(row_sound(101, CONFIGS_64_TO_127[37]));
    assert(row_sound(102, CONFIGS_64_TO_127[38]));
    assert(row_sound(103, CONFIGS_64_TO_127[39]));
    assert(row_sound(104, CONFIGS_64_TO_127[40]));
    assert(row_sound(105, CONFIGS_64_TO_127[41]));
    assert(row_sound(106, CONFIGS_64_TO_127[42]));
    assert(row_sound(107, CONFIGS_64_TO_127[43]));
    assert(row_sound(108, CONFIGS_64_TO_127[44]));
    assert(row_sound(109, CONFIGS_64_TO_127[45]));
    assert(row_sound(110, CONFIGS_64_TO_127[46]));
    assert(row_sound(111, CONFIGS_64_TO_127[47]));
    assert(row_sound(112, CONFIGS_64_TO_127[48]));
    assert(row_sound(113, CONFIGS_64_TO_127[49]));
    assert(row_sound(114, CONFIGS_64_TO_127[50]));
    assert(row_sound(115, CONFIGS_64_TO_127[51]));
    assert(row_sound(116, CONFIGS_64_TO_127[52]));
    assert(row_sound(117, CONFIGS_64_TO_127[53]));
    assert(row_sound(118, CONFIGS_64_TO_127[54]));
    assert(row_sound(119, CONFIGS_64_TO_127[55]));
    assert(row_sound(120, CONFIGS_64_TO_127[56]));
    assert(row_sound(121, CONFIGS_64_TO_127[57]));
    assert(row_sound(122, CONFIGS_64_TO_127[58]));
    assert(row_sound(123, CONFIGS_64_TO_127[59]));
    assert(row_sound(124, CONFIGS_64_TO_127[60]));
    assert(row_sound(125, CONFIGS_64_TO_127[61]));
    assert(row_sound(126, CONFIGS_64_TO_127[62]));
    assert(row_sound(127, CONFIGS_64_TO_127[63]));
}

} // verus!
