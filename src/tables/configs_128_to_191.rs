//! Rows 128 to 191 of the triangulation table.
use vstd::prelude::*;
use super::row_sound;

verus! {

/// Rows of the triangulation table for configurations 128 to 191.
pub const CONFIGS_128_TO_191: [[i8; 16]; 64] = [
    [7, 6, 11, -1, -1, -1, -1, -1, -1, -1, -1, -1, -1, -1, -1, -1],
    [3, 0, 8, 11, 7, 6, -1, -1, -1, -1, -1, -1, -1, -1, -1, -1],
    [0, 1, 9, 11, 7, 6, -1, -1, -1, -1, -1, -1, -1, -1, -1, -1],
    [8, 1, 9, 8, 3, 1, 11, 7, 6, -1, -1, -1, -1, -1, -1, -1],
    [10, 1, 2, 6, 11, 7, -1, -1, -1, -1, -1, -1, -1, -1, -1, -1],
    [1, 2, 10, 3, 0, 8, 6, 11, 7, -1, -1, -1, -1, -1, -1, -1],
    [2, 9, 0, 2, 10, 9, 6, 11, 7, -1, -1, -1, -1, -1, -1, -1],
    [6, 11, 7, 2, 10, 3, 10, 8, 3, 10, 9, 8, -1, -1, -1, -1],
    [7, 2, 3, 6, 2, 7, -1, -1, -1, -1, -1, -1, -1, -1, -1, -1],
    [7, 0, 8, 7, 6, 0, 6, 2, 0, -1, -1, -1, -1, -1, -1, -1],
    [2, 7, 6, 2, 3, 7, 0, 1, 9, -1, -1, -1, -1, -1, -1, -1],
    [1, 6, 2, 1, 8, 6, 1, 9, 8, 8, 7, 6, -1, -1, -1, -1],
    [10, 7, 6, 10, 1, 7, 1, 3, 7, -1, -1, -1, -1, -1, -1, -1],
    [10, 7, 6, 1, 7, 10, 1, 8, 7, 1, 0, 8, -1, -1, -1, -1],
    [0, 3, 7, 0, 7, 10, 0, 10, 9, 6, 10, 7, -1, -1, -1, -1],
    [7, 6, 10, 7, 10, 8, 8, 10, 9, -1, -1, -1, -1, -1, -1, -1],
    [6, 8, 4, 11, 8, 6, -1, -1, -1, -1, -1, -1, -1, -1, -1, -1],
    [3, 6, 11, 3, 0, 6, 0, 4, 6, -1, -1, -1, -1, -1, -1, -1],
    [8, 6, 11, 8, 4, 6, 9, 0, 1, -1, -1, -1, -1, -1, -1, -1],
    [9, 4, 6, 9, 6, 3, 9, 3, 1, 11, 3, 6, -1, -1, -1, -1],
    [6, 8, 4, 6, 11, 8, 2, 10, 1, -1, -1, -1, -1, -1, -1, -1],
    [1, 2, 10, 3, 0, 11, 0, 6, 11, 0, 4, 6, -1, -1, -1, -1],
    [4, 11, 8, 4, 6, 11, 0, 2, 9, 2, 10, 9, -1, -1, -1, -1],
    [10, 9, 3, 10, 3, 2, 9, 4, 3, 11, 3, 6, 4, 6, 3, -1],
    [8, 2, 3, 8, 4, 2, 4, 6, 2, -1, -1, -1, -1, -1, -1, -1],
    [0, 4, 2, 4, 6, 2, -1, -1, -1, -1, -1, -1, -1, -1, -1, -1],
    [1, 9, 0, 2, 3, 4, 2, 4, 6, 4, 3, 8, -1, -1, -1, -1],
    [1, 9, 4, 1, 4, 2, 2, 4, 6, -1, -1, -1, -1, -1, -1, -1],
    [8, 1, 3, 8, 6, 1, 8, 4, 6, 6, 10, 1, -1, -1, -1, -1],
    [10, 1, 0, 10, 0, 6, 6, 0, 4, -1, -1, -1, -1, -1, -1, -1],
    [4, 6, 3, 4, 3, 8, 6, 10, 3, 0, 3, 9, 10, 9, 3, -1],
    [10, 9, 4, 6, 10, 4, -1, -1, -1, -1, -1, -1, -1, -1, -1, -1],
    [4, 9, 5, 7, 6, 11, -1, -1, -1, -1, -1, -1, -1, -1, -1, -1],
    [0, 8, 3, 4, 9, 5, 11, 7, 6, -1, -1, -1, -1, -1, -1, -1],
    [5, 0, 1, 5, 4, 0, 7, 6, 11, -1, -1, -1, -1, -1, -1, -1],
    [11, 7, 6, 8, 3, 4, 3, 5, 4, 3, 1, 5, -1, -1, -1, -1],
    [9, 5, 4, 10, 1, 2, 7, 6, 11, -1, -1, -1, -1, -1, -1, -1],
    [6, 11, 7, 1, 2, 10, 0, 8, 3, 4, 9, 5, -1, -1, -1, -1],
    [7, 6, 11, 5, 4, 10, 4, 2, 10, 4, 0, 2, -1, -1, -1, -1],
    [3, 4, 8, 3, 5, 4, 3, 2, 5, 10, 5, 2, 11, 7, 6, -1],
    [7, 2, 3, 7, 6, 2, 5, 4, 9, -1, -1, -1, -1, -1, -1, -1],
    [9, 5, 4, 0, 8, 6, 0, 6, 2, 6, 8, 7, -1, -1, -1, -1],
    [3, 6, 2, 3, 7, 6, 1, 5, 0, 5, 4, 0, -1, -1, -1, -1],
    [6, 2, 8, 6, 8, 7, 2, 1, 8, 4, 8, 5, 1, 5, 8, -1],
    [9, 5, 4, 10, 1, 6, 1, 7, 6, 1, 3, 7, -1, -1, -1, -1],
    [1, 6, 10, 1, 7, 6, 1, 0, 7, 8, 7, 0, 9, 5, 4, -1],
    [4, 0, 10, 4, 10, 5, 0, 3, 10, 6, 10, 7, 3, 7, 10, -1],
    [7, 6, 10, 7, 10, 8, 5, 4, 10, 4, 8, 10, -1, -1, -1, -1],
    [6, 9, 5, 6, 11, 9, 11, 8, 9, -1, -1, -1, -1, -1, -1, -1],
    [3, 6, 11, 0, 6, 3, 0, 5, 6, 0, 9, 5, -1, -1, -1, -1],
    [0, 11, 8, 0, 5, 11, 0, 1, 5, 5, 6, 11, -1, -1, -1, -1],
    [6, 11, 3, 6, 3, 5, 5, 3, 1, -1, -1, -1, -1, -1, -1, -1],
    [1, 2, 10, 9, 5, 11, 9, 11, 8, 11, 5, 6, -1, -1, -1, -1],
    [0, 11, 3, 0, 6, 11, 0, 9, 6, 5, 6, 9, 1, 2, 10, -1],
    [11, 8, 5, 11, 5, 6, 8, 0, 5, 10, 5, 2, 0, 2, 5, -1],
    [6, 11, 3, 6, 3, 5, 2, 10, 3, 10, 5, 3, -1, -1, -1, -1],
    [5, 8, 9, 5, 2, 8, 5, 6, 2, 3, 8, 2, -1, -1, -1, -1],
    [9, 5, 6, 9, 6, 0, 0, 6, 2, -1, -1, -1, -1, -1, -1, -1],
    [1, 5, 8, 1, 8, 0, 5, 6, 8, 3, 8, 2, 6, 2, 8, -1],
    [1, 5, 6, 2, 1, 6, -1, -1, -1, -1, -1, -1, -1, -1, -1, -1],
    [1, 3, 6, 1, 6, 10, 3, 8, 6, 5, 6, 9, 8, 9, 6, -1],
    [10, 1, 0, 10, 0, 6, 9, 5, 0, 5, 6, 0, -1, -1, -1, -1],
    [0, 3, 8, 5, 6, 10, -1, -1, -1, -1, -1, -1, -1, -1, -1, -1],
    [10, 5, 6, -1, -1, -1, -1, -1, -1, -1, -1, -1, -1, -1, -1, -1],
];

/// Each row of this block is sound for its configuration.
pub proof fn lemma_block_2_sound()
    ensures
        forall|i: int| 0 <= i < 64 ==> row_sound(i + 128, #[trigger] CONFIGS_128_TO_191[i]),
{
    assert(row_sound(128, CONFIGS_128_TO_191[0]));
    assert(row_sound(129, CONFIGS_128_TO_191[1]));
    assert(row_sound(130, CONFIGS_128_TO_191[2]));
    assert(row_sound(131, CONFIGS_128_TO_191[3]));
    assert(row_sound(132, CONFIGS_128_TO_191[4]));
    assert(row_sound(133, CONFIGS_128_TO_191[5]));
    assert(row_sound(134, CONFIGS_128_TO_191[6]));
    assert(row_sound(135, CONFIGS_128_TO_191[7]));
    assert(row_sound(136, CONFIGS_128_TO_191[8]));
    assert(row_sound(137, CONFIGS_128_TO_191[9]));
    assert(row_sound(138, CONFIGS_128_TO_191[10]));
    assert(row_sound(139, CONFIGS_128_TO_191[11]));
    assert(row_sound(140, CONFIGS_128_TO_191[12]));
    assert(row_sound(141, CONFIGS_128_TO_191[13]));
    assert(row_sound(142, CONFIGS_128_TO_191[14]));
    assert(row_sound(143, CONFIGS_128_TO_191[15]));
    assert(row_sound(144, CONFIGS_128_TO_191[16]));
    assert(row_sound(145, CONFIGS_128_TO_191[17]));
    assert(row_sound(146, CONFIGS_128_TO_191[18]));
    assert(row_sound(147, CONFIGS_128_TO_191[19]));
    assert(row_sound(148, CONFIGS_128_TO_191[20]));
    assert(row_sound(149, CONFIGS_128_TO_191[21]));
    assert(row_sound(150, CONFIGS_128_TO_191[22]));
    assert(row_sound(151, CONFIGS_128_TO_191[23]));
    assert(row_sound(152, CONFIGS_128_TO_191[24]));
    assert(row_sound(153, CONFIGS_128_TO_191[25]));
    assert(row_sound(154, CONFIGS_128_TO_191[26]));
    assert(row_sound(155, CONFIGS_128_TO_191[27]));
    assert(row_sound(156, CONFIGS_128_TO_191[28]));
    assert(row_sound(157, CONFIGS_128_TO_191[29]));
    assert(row_sound(158, CONFIGS_128_TO_191[30]));
    assert(row_sound(159, CONFIGS_128_TO_191[31]));
    assert(row_sound(160, CONFIGS_128_TO_191[32]));
    assert(row_sound(161, CONFIGS_128_TO_191[33]));
    assert(row_sound(162, CONFIGS_128_TO_191[34]));
    assert(row_sound(163, CONFIGS_128_TO_191[35]));
    assert(row_sound(164, CONFIGS_128_TO_191[36]));
    assert(row_sound(165, CONFIGS_128_TO_191[37]));
    assert(row_sound(166, CONFIGS_128_TO_191[38]));
    assert(row_sound(167, CONFIGS_128_TO_191[39]));
    assert(row_sound(168, CONFIGS_128_TO_191[40]));
    assert(row_sound(169, CONFIGS_128_TO_191[41]));
    assert(row_sound(170, CONFIGS_128_TO_191[42]));
    assert(row_sound(171, CONFIGS_128_TO_191[43]));
    assert(row_sound(172, CONFIGS_128_TO_191[44]));
    assert(row_sound(173, CONFIGS_128_TO_191[45]));
    assert(row_sound(174, CONFIGS_128_TO_191[46]));
    assert(row_sound(175, CONFIGS_128_TO_191[47]));
    assert(row_sound(176, CONFIGS_128_TO_191[48]));
    assert(row_sound(177, CONFIGS_128_TO_191[49]));
    assert(row_sound(178, CONFIGS_128_TO_191[50]));
    assert(row_sound(179, CONFIGS_128_TO_191[51]));
    assert(row_sound(180, CONFIGS_128_TO_191[52]));
    assert(row_sound(181, CONFIGS_128_TO_191[53]));
    assert(row_sound(182, CONFIGS_128_TO_191[54]));
    assert(row_sound(183, CONFIGS_128_TO_191[55]));
    assert(row_sound(184, CONFIGS_128_TO_191[56]));
    assert(row_sound(185, CONFIGS_128_TO_191[57]));
    assert(row_sound(186, CONFIGS_128_TO_191[58]));
    assert(row_sound(187, CONFIGS_128_TO_191[59]));
    assert(row_sound(188, CONFIGS_128_TO_191[60]));
    assert(row_sound(189, CONFIGS_128_TO_191[61]));
    assert(row_sound(190, CONFIGS_128_TO_191[62]));
    assert(row_sound(191, CONFIGS_128_TO_191[63]));
}

} // verus!
