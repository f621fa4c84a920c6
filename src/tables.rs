//! The fixed lookup data of marching cubes: which cell edges each of the 256
//! corner configurations cuts, grouped into triangles, and which two corners
//! each edge joins.
//!
//! A configuration has bit `k` set when corner `k` of the cell is inside the
//! surface. Its row lists up to five triangles as groups of three edge
//! indices, padded with `-1`; a `-1` at the start of a group ends the list.
//! The rows are those of the standard marching-cubes triangulation. They are
//! kept in four blocks of 64 configurations, read as one table through
//! `table_row` and `triangulation_row`.
use vstd::prelude::*;

mod configs_0_to_63;
mod configs_64_to_127;
mod configs_128_to_191;
mod configs_192_to_255;

use configs_0_to_63::{CONFIGS_0_TO_63, lemma_block_0_sound};
use configs_64_to_127::{CONFIGS_64_TO_127, lemma_block_1_sound};
use configs_128_to_191::{CONFIGS_128_TO_191, lemma_block_2_sound};
use configs_192_to_255::{CONFIGS_192_TO_255, lemma_block_3_sound};

verus! {

/// The two corners joined by each of the twelve cell edges.
pub const CORNER_INDEX: [[u8; 2]; 12] = [
    [0, 1],
    [1, 2],
    [2, 3],
    [3, 0],
    [4, 5],
    [5, 6],
    [6, 7],
    [7, 4],
    [0, 4],
    [1, 5],
    [2, 6],
    [3, 7],
];

/// Row `config` of the triangulation table. Its body stays closed so that
/// the 256 rows enter only the proofs of this module; elsewhere the table is
/// known through `lemma_table_sound` and the lemmas on single rows.
pub closed spec fn table_row(config: int) -> [i8; 16] {
    if config < 64 {
        CONFIGS_0_TO_63[config]
    } else if config < 128 {
        CONFIGS_64_TO_127[config - 64]
    } else if config < 192 {
        CONFIGS_128_TO_191[config - 128]
    } else {
        CONFIGS_192_TO_255[config - 192]
    }
}

/// Reads row `config` of the triangulation table.
pub fn triangulation_row(config: u8) -> (row: [i8; 16])
    ensures
        row == table_row(config as int),
{
    if config < 64 {
        CONFIGS_0_TO_63[config as usize]
    } else if config < 128 {
        CONFIGS_64_TO_127[(config - 64) as usize]
    } else if config < 192 {
        CONFIGS_128_TO_191[(config - 128) as usize]
    } else {
        CONFIGS_192_TO_255[(config - 192) as usize]
    }
}

/// Reads the two corners joined by edge `edge`.
pub fn edge_corners(edge: usize) -> (corners: (usize, usize))
    requires
        edge < 12,
    ensures
        corners.0 == CORNER_INDEX[edge as int][0],
        corners.1 == CORNER_INDEX[edge as int][1],
        corners.0 < 8,
        corners.1 < 8,
{
    proof {
        lemma_corner_index_bounds();
    }
    let pair = CORNER_INDEX[edge];
    (pair[0] as usize, pair[1] as usize)
}

/// Every edge joins two distinct corners among the eight.
pub proof fn lemma_corner_index_bounds()
    ensures
        forall|e: int|
            0 <= e < 12 ==> #[trigger] CORNER_INDEX[e][0] < 8 && CORNER_INDEX[e][1] < 8
                && CORNER_INDEX[e][0] != CORNER_INDEX[e][1],
{
    assert(CORNER_INDEX[0][0] == 0 && CORNER_INDEX[0][1] == 1);
    assert(CORNER_INDEX[1][0] == 1 && CORNER_INDEX[1][1] == 2);
    assert(CORNER_INDEX[2][0] == 2 && CORNER_INDEX[2][1] == 3);
    assert(CORNER_INDEX[3][0] == 3 && CORNER_INDEX[3][1] == 0);
    assert(CORNER_INDEX[4][0] == 4 && CORNER_INDEX[4][1] == 5);
    assert(CORNER_INDEX[5][0] == 5 && CORNER_INDEX[5][1] == 6);
    assert(CORNER_INDEX[6][0] == 6 && CORNER_INDEX[6][1] == 7);
    assert(CORNER_INDEX[7][0] == 7 && CORNER_INDEX[7][1] == 4);
    assert(CORNER_INDEX[8][0] == 0 && CORNER_INDEX[8][1] == 4);
    assert(CORNER_INDEX[9][0] == 1 && CORNER_INDEX[9][1] == 5);
    assert(CORNER_INDEX[10][0] == 2 && CORNER_INDEX[10][1] == 6);
    assert(CORNER_INDEX[11][0] == 3 && CORNER_INDEX[11][1] == 7);
}

/// The value of bit `k` in a configuration: `2^k`, for `k` in `0..8`.
pub open spec fn corner_weight(k: int) -> int {
    if k == 0 {
        1
    } else if k == 1 {
        2
    } else if k == 2 {
        4
    } else if k == 3 {
        8
    } else if k == 4 {
        16
    } else if k == 5 {
        32
    } else if k == 6 {
        64
    } else {
        128
    }
}

/// Whether corner `k` is marked inside in configuration `config`.
pub open spec fn config_has_corner(config: int, k: int) -> bool {
    (config / corner_weight(k)) % 2 == 1
}

/// Edge `e` joins an inside corner to an outside one in `config`.
pub open spec fn edge_crosses(config: int, e: int) -> bool {
    config_has_corner(config, CORNER_INDEX[e][0] as int) != config_has_corner(
        config,
        CORNER_INDEX[e][1] as int,
    )
}

/// Number of triangles that a row lists: the groups before the first one
/// that starts with `-1`.
pub open spec fn triangle_count(row: [i8; 16]) -> int {
    if row[0] == -1 {
        0
    } else if row[3] == -1 {
        1
    } else if row[6] == -1 {
        2
    } else if row[9] == -1 {
        3
    } else if row[12] == -1 {
        4
    } else {
        5
    }
}

/// Slot `j` of `row`, when it belongs to one of the first `count` triangles,
/// names an edge that the surface of `config` crosses.
pub open spec fn slot_sound(config: int, row: [i8; 16], count: int, j: int) -> bool {
    j < 3 * count ==> 0 <= row[j] < 12 && edge_crosses(config, row[j] as int)
}

/// Every listed slot of `row` is sound for `config`, and the row lists no
/// triangle exactly when all corners agree.
pub open spec fn row_sound(config: int, row: [i8; 16]) -> bool {
    let count = triangle_count(row);
    &&& slot_sound(config, row, count, 0)
    &&& slot_sound(config, row, count, 1)
    &&& slot_sound(config, row, count, 2)
    &&& slot_sound(config, row, count, 3)
    &&& slot_sound(config, row, count, 4)
    &&& slot_sound(config, row, count, 5)
    &&& slot_sound(config, row, count, 6)
    &&& slot_sound(config, row, count, 7)
    &&& slot_sound(config, row, count, 8)
    &&& slot_sound(config, row, count, 9)
    &&& slot_sound(config, row, count, 10)
    &&& slot_sound(config, row, count, 11)
    &&& slot_sound(config, row, count, 12)
    &&& slot_sound(config, row, count, 13)
    &&& slot_sound(config, row, count, 14)
    &&& (count == 0 <==> (config == 0 || config == 255))
}

/// Every row of the table is sound for its configuration.
pub proof fn lemma_table_sound()
    ensures
        forall|config: int| 0 <= config < 256 ==> row_sound(config, #[trigger] table_row(config)),
{
    lemma_block_0_sound();
    lemma_block_1_sound();
    lemma_block_2_sound();
    lemma_block_3_sound();
    assert forall|config: int| 0 <= config < 256 implies row_sound(config, #[trigger] table_row(config)) by {
        if config < 64 {
            assert(row_sound(config, CONFIGS_0_TO_63[config]));
        } else if config < 128 {
            assert(row_sound((config - 64) + 64, CONFIGS_64_TO_127[config - 64]));
        } else if config < 192 {
            assert(row_sound((config - 128) + 128, CONFIGS_128_TO_191[config - 128]));
        } else {
            assert(row_sound((config - 192) + 192, CONFIGS_192_TO_255[config - 192]));
        }
    }
}

/// Configuration 1, only corner 0 inside, lists one triangle, on edges 0, 8
/// and 3.
pub proof fn lemma_single_corner_row()
    ensures
        triangle_count(table_row(1)) == 1,
        table_row(1)[0] == 0,
        table_row(1)[1] == 8,
        table_row(1)[2] == 3,
{
    assert(table_row(1) == CONFIGS_0_TO_63[1]);
}

} // verus!
