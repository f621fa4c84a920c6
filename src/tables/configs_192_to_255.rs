//! Rows 192 to 255 of the triangulation table.
use vstd::prelude::*;
use super::row_sound;

verus! {

/// Rows of the triangulation table for configurations 192 to 255.
pub const CONFIGS_192_TO_255: [[i8; 16]; 64] = [
    [11, 5, 10, 7, 5, 11, -1, -1, -1, -1, -1, -1, -1, -1, -1, -1],
    [11, 5, 10, 11, 7, 5, 8, 3, 0, -1, -1, -1, -1, -1, -1, -1],
    [5, 11, 7, 5, 10, 11, 1, 9, 0, -1, -1, -1, -1, -1, -1, -1],
    [10, 7, 5, 10, 11, 7, 9, 8, 1, 8, 3, 1, -1, -1, -1, -1],
    [11, 1, 2, 11, 7, 1, 7, 5, 1, -1, -1, -1, -1, -1, -1, -1],
    [0, 8, 3, 1, 2, 7, 1, 7, 5, 7, 2, 11, -1, -1, -1, -1],
    [9, 7, 5, 9, 2, 7, 9, 0, 2, 2, 11, 7, -1, -1, -1, -1],
    [7, 5, 2, 7, 2, 11, 5, 9, 2, 3, 2, 8, 9, 8, 2, -1],
    [2, 5, 10, 2, 3, 5, 3, 7, 5, -1, -1, -1, -1, -1, -1, -1],
    [8, 2, 0, 8, 5, 2, 8, 7, 5, 10, 2, 5, -1, -1, -1, -1],
    [9, 0, 1, 5, 10, 3, 5, 3, 7, 3, 10, 2, -1, -1, -1, -1],
    [9, 8, 2, 9, 2, 1, 8, 7, 2, 10, 2, 5, 7, 5, 2, -1],
    [1, 3, 5, 3, 7, 5, -1, -1, -1, -1, -1, -1, -1, -1, -1, -1],
    [0, 8, 7, 0, 7, 1, 1, 7, 5, -1, -1, -1, -1, -1, -1, -1],
    [9, 0, 3, 9, 3, 5, 5, 3, 7, -1, -1, -1, -1, -1, -1, -1],
    [9, 8, 7, 5, 9, 7, -1, -1, -1, -1, -1, -1, -1, -1, -1, -1],
    [5, 8, 4, 5, 10, 8, 10, 11, 8, -1, -1, -1, -1, -1, -1, -1],
    [5, 0, 4, 5, 11, 0, 5, 10, 11, 11, 3, 0, -1, -1, -1, -1],
    [0, 1, 9, 8, 4, 10, 8, 10, 11, 10, 4, 5, -1, -1, -1, -1],
    [10, 11, 4, 10, 4, 5, 11, 3, 4, 9, 4, 1, 3, 1, 4, -1],
    [2, 5, 1, 2, 8, 5, 2, 11, 8, 4, 5, 8, -1, -1, -1, -1],
    [0, 4, 11, 0, 11, 3, 4, 5, 11, 2, 11, 1, 5, 1, 11, -1],
    [0, 2, 5, 0, 5, 9, 2, 11, 5, 4, 5, 8, 11, 8, 5, -1],
    [9, 4, 5, 2, 11, 3, -1, -1, -1, -1, -1, -1, -1, -1, -1, -1],
    [2, 5, 10, 3, 5, 2, 3, 4, 5, 3, 8, 4, -1, -1, -1, -1],
    [5, 10, 2, 5, 2, 4, 4, 2, 0, -1, -1, -1, -1, -1, -1, -1],
    [3, 10, 2, 3, 5, 10, 3, 8, 5, 4, 5, 8, 0, 1, 9, -1],
    [5, 10, 2, 5, 2, 4, 1, 9, 2, 9, 4, 2, -1, -1, -1, -1],
    [8, 4, 5, 8, 5, 3, 3, 5, 1, -1, -1, -1, -1, -1, -1, -1],
    [0, 4, 5, 1, 0, 5, -1, -1, -1, -1, -1, -1, -1, -1, -1, -1],
    [8, 4, 5, 8, 5, 3, 9, 0, 5, 0, 3, 5, -1, -1, -1, -1],
    [9, 4, 5, -1, -1, -1, -1, -1, -1, -1, -1, -1, -1, -1, -1, -1],
    [4, 11, 7, 4, 9, 11, 9, 10, 11, -1, -1, -1, -1, -1, -1, -1],
    [0, 8, 3, 4, 9, 7, 9, 11, 7, 9, 10, 11, -1, -1, -1, -1],
    [1, 10, 11, 1, 11, 4, 1, 4, 0, 7, 4, 11, -1, -1, -1, -1],
    [3, 1, 4, 3, 4, 8, 1, 10, 4, 7, 4, 11, 10, 11, 4, -1],
    [4, 11, 7, 9, 11, 4, 9, 2, 11, 9, 1, 2, -1, -1, -1, -1],
    [9, 7, 4, 9, 11, 7, 9, 1, 11, 2, 11, 1, 0, 8, 3, -1],
    [11, 7, 4, 11, 4, 2, 2, 4, 0, -1, -1, -1, -1, -1, -1, -1],
    [11, 7, 4, 11, 4, 2, 8, 3, 4, 3, 2, 4, -1, -1, -1, -1],
    [2, 9, 10, 2, 7, 9, 2, 3, 7, 7, 4, 9, -1, -1, -1, -1],
    [9, 10, 7, 9, 7, 4, 10, 2, 7, 8, 7, 0, 2, 0, 7, -1],
    [3, 7, 10, 3, 10, 2, 7, 4, 10, 1, 10, 0, 4, 0, 10, -1],
    [1, 10, 2, 8, 7, 4, -1, -1, -1, -1, -1, -1, -1, -1, -1, -1],
    [4, 9, 1, 4, 1, 7, 7, 1, 3, -1, -1, -1, -1, -1, -1, -1],
    [4, 9, 1, 4, 1, 7, 0, 8, 1, 8, 7, 1, -1, -1, -1, -1],
    [4, 0, 3, 7, 4, 3, -1, -1, -1, -1, -1, -1, -1, -1, -1, -1],
    [4, 8, 7, -1, -1, -1, -1, -1, -1, -1, -1, -1, -1, -1, -1, -1],
    [9, 10, 8, 10, 11, 8, -1, -1, -1, -1, -1, -1, -1, -1, -1, -1],
    [3, 0, 9, 3, 9, 11, 11, 9, 10, -1, -1, -1, -1, -1, -1, -1],
    [0, 1, 10, 0, 10, 8, 8, 10, 11, -1, -1, -1, -1, -1, -1, -1],
    [3, 1, 10, 11, 3, 10, -1, -1, -1, -1, -1, -1, -1, -1, -1, -1],
    [1, 2, 11, 1, 11, 9, 9, 11, 8, -1, -1, -1, -1, -1, -1, -1],
    [3, 0, 9, 3, 9, 11, 1, 2, 9, 2, 11, 9, -1, -1, -1, -1],
    [0, 2, 11, 8, 0, 11, -1, -1, -1, -1, -1, -1, -1, -1, -1, -1],
    [3, 2, 11, -1, -1, -1, -1, -1, -1, -1, -1, -1, -1, -1, -1, -1],
    [2, 3, 8, 2, 8, 10, 10, 8, 9, -1, -1, -1, -1, -1, -1, -1],
    [9, 10, 2, 0, 9, 2, -1, -1, -1, -1, -1, -1, -1, -1, -1, -1],
    [2, 3, 8, 2, 8, 10, 0, 1, 8, 1, 10, 8, -1, -1, -1, -1],
    [1, 10, 2, -1, -1, -1, -1, -1, -1, -1, -1, -1, -1, -1, -1, -1],
    [1, 3, 8, 9, 1, 8, -1, -1, -1, -1, -1, -1, -1, -1, -1, -1],
    [0, 9, 1, -1, -1, -1, -1, -1, -1, -1, -1, -1, -1, -1, -1, -1],
    [0, 3, 8, -1, -1, -1, -1, -1, -1, -1, -1, -1, -1, -1, -1, -1],
    [-1, -1, -1, -1, -1, -1, -1, -1, -1, -1, -1, -1, -1, -1, -1, -1],
];

/// Each row of this block is sound for its configuration.
pub proof fn lemma_block_3_sound()
    ensures
        forall|i: int| 0 <= i < 64 ==> row_sound(i + 192, #[trigger] CONFIGS_192_TO_255[i]),
{
    assert(row_sound(192, CONFIGS_192_TO_255[0]));
    assert(row_sound(193, CONFIGS_192_TO_255[1]));
    assert(row_sound(194, CONFIGS_192_TO_255[2]));
    assert(row_sound(195, CONFIGS_192_TO_255[3]));
    assert(row_sound(196, CONFIGS_192_TO_255[4]));
    assert(row_sound(197, CONFIGS_192_TO_255[5]));
    assert(row_sound(198, CONFIGS_192_TO_255[6]));
    assert(row_sound(199, CONFIGS_192_TO_255[7]));
    assert(row_sound(200, CONFIGS_192_TO_255[8]));
    assert(row_sound(201, CONFIGS_192_TO_255[9]));
    assert(row_sound(202, CONFIGS_192_TO_255[10]));
    assert(row_sound(203, CONFIGS_192_TO_255[11]));
    assert(row_sound(204, CONFIGS_192_TO_255[12]));
    assert(row_sound(205, CONFIGS_192_TO_255[13]));
    assert(row_sound(206, CONFIGS_192_TO_255[14]));
    assert(row_sound(207, CONFIGS_192_TO_255[15]));
    assert(row_sound(208, CONFIGS_192_TO_255[16]));
    assert(row_sound(209, CONFIGS_192_TO_255[17]));
    assert(row_sound(210, CONFIGS_192_TO_255[18]));
    assert(row_sound(211, CONFIGS_192_TO_255[19]));
    assert(row_sound(212, CONFIGS_192_TO_255[20]));
    assert(row_sound(213, CONFIGS_192_TO_255[21]));
    assert(row_sound(214, CONFIGS_192_TO_255[22]));
    assert(row_sound(215, CONFIGS_192_TO_255[23]));
    assert(row_sound(216, CONFIGS_192_TO_255[24]));
    assert(row_sound(217, CONFIGS_192_TO_255[25]));
    assert(row_sound(218, CONFIGS_192_TO_255[26]));
    assert(row_sound(219, CONFIGS_192_TO_255[27]));
    assert(row_sound(220, CONFIGS_192_TO_255[28]));
    assert(row_sound(221, CONFIGS_192_TO_255[29]));
    assert(row_sound(222, CONFIGS_192_TO_255[30]));
    assert(row_sound(223, CONFIGS_192_TO_255[31]));
    assert(row_sound(224, CONFIGS_192_TO_255[32]));
    assert(row_sound(225, CONFIGS_192_TO_255[33]));
    assert(row_sound(226, CONFIGS_192_TO_255[34]));
    assert(row_sound(227, CONFIGS_192_TO_255[35]));
    assert(row_sound(228, CONFIGS_192_TO_255[36]));
    assert(row_sound(229, CONFIGS_192_TO_255[37]));
    assert(row_sound(230, CONFIGS_192_TO_255[38]));
    assert(row_sound(231, CONFIGS_192_TO_255[39]));
    assert(row_sound(232, CONFIGS_192_TO_255[40]));
    assert(row_sound(233, CONFIGS_192_TO_255[41]));
    assert(row_sound(234, CONFIGS_192_TO_255[42]));
    assert(row_sound(235, CONFIGS_192_TO_255[43]));
    assert(row_sound(236, CONFIGS_192_TO_255[44]));
    assert(row_sound(237, CONFIGS_192_TO_255[45]));
    assert(row_sound(238, CONFIGS_192_TO_255[46]));
    assert(row_sound(239, CONFIGS_192_TO_255[47]));
    assert(row_sound(240, CONFIGS_192_TO_255[48]));
    assert(row_sound(241, CONFIGS_192_TO_255[49]));
    assert(row_sound(242, CONFIGS_192_TO_255[50]));
    assert(row_sound(243, CONFIGS_192_TO_255[51]));
    assert(row_sound(244, CONFIGS_192_TO_255[52]));
    assert(row_sound(245, CONFIGS_192_TO_255[53]));
    assert(row_sound(246, CONFIGS_192_TO_255[54]));
    assert(row_sound(247, CONFIGS_192_TO_255[55]));
    assert(row_sound(248, CONFIGS_192_TO_255[56]));
    assert(row_sound(249, CONFIGS_192_TO_255[57]));
    assert(row_sound(250, CONFIGS_192_TO_255[58]));
    assert(row_sound(251, CONFIGS_192_TO_255[59]));
    assert(row_sound(252, CONFIGS_192_TO_255[60]));
    assert(row_sound(253, CONFIGS_192_TO_255[61]));
    assert(row_sound(254, CONFIGS_192_TO_255[62]));
    assert(row_sound(255, CONFIGS_192_TO_255[63]));
}

} // verus!
