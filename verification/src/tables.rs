//! The ISO 286 tables: standard tolerances, fundamental deviations and the names that
//! tolerance classes are written with.

use vstd::prelude::*;

verus! {

/// Largest nominal size covered by ISO 286, in millimetres.
pub const MAX_SIZE: i32 = 3150;

/// Number of deviation letters.
pub const NUM_DEVIATIONS: usize = 28;

/// Number of IT grades.
pub const NUM_GRADES: usize = 20;

// Indices of deviation letters. The letters are ordered by fundamental deviation, so the
// groups that share a lookup rule are contiguous ranges.
pub const DEV_B: usize = 1;
pub const DEV_G: usize = 9;
pub const DEV_H: usize = 10;
pub const DEV_JS: usize = 11;
pub const DEV_J: usize = 12;
pub const DEV_K: usize = 13;
pub const DEV_M: usize = 14;
pub const DEV_N: usize = 15;
pub const DEV_P: usize = 16;
pub const DEV_ZC: usize = 27;

/// Standard tolerances: nominal size bracket upper bound (mm), then IT01, IT0, IT1 to IT18
/// in tenths of a micrometre; -1 where the grade is not defined for the bracket.
pub const STANDARD_TOLERANCE_GRADES: [[i32; 21]; 21] = [
    [3, 3, 5, 8, 12, 20, 30, 40, 60, 100, 140, 250, 400, 600, 1000, 1400, 2500, 4000, 6000, 10000, 14000],
    [6, 4, 6, 10, 15, 25, 40, 50, 80, 120, 180, 300, 480, 750, 1200, 1800, 3000, 4800, 7500, 12000, 18000],
    [10, 4, 6, 10, 15, 25, 40, 60, 90, 150, 220, 360, 580, 900, 1500, 2200, 3600, 5800, 9000, 15000, 22000],
    [18, 5, 8, 12, 20, 30, 50, 80, 110, 180, 270, 430, 700, 1100, 1800, 2700, 4300, 7000, 11000, 18000, 27000],
    [30, 6, 10, 15, 25, 40, 60, 90, 130, 210, 330, 520, 840, 1300, 2100, 3300, 5200, 8400, 13000, 21000, 33000],
    [50, 6, 10, 15, 25, 40, 70, 110, 160, 250, 390, 620, 1000, 1600, 2500, 3900, 6200, 10000, 16000, 25000, 39000],
    [80, 8, 12, 20, 30, 50, 80, 130, 190, 300, 460, 740, 1200, 1900, 3000, 4600, 7400, 12000, 19000, 30000, 46000],
    [120, 10, 15, 25, 40, 60, 100, 150, 220, 350, 540, 870, 1400, 2200, 3500, 5400, 8700, 14000, 22000, 35000, 54000],
    [180, 12, 20, 35, 50, 80, 120, 180, 250, 400, 630, 1000, 1600, 2500, 4000, 6300, 10000, 16000, 25000, 40000, 63000],
    [250, 20, 30, 45, 70, 100, 140, 200, 290, 460, 720, 1150, 1850, 2900, 4600, 7200, 11500, 18500, 29000, 46000, 72000],
    [315, 25, 40, 60, 80, 120, 160, 230, 320, 520, 810, 1300, 2100, 3200, 5200, 8100, 13000, 21000, 32000, 52000, 81000],
    [400, 30, 50, 70, 90, 130, 180, 250, 360, 570, 890, 1400, 2300, 3600, 5700, 8900, 14000, 23000, 36000, 57000, 89000],
    [500, 40, 60, 80, 100, 150, 200, 270, 400, 630, 970, 1550, 2500, 4000, 6300, 9700, 15500, 25000, 40000, 63000, 97000],
    [630, -1, -1, 90, 110, 160, 220, 320, 440, 700, 1100, 1750, 2800, 4400, 7000, 11000, 17500, 28000, 44000, 70000, 110000],
    [800, -1, -1, 100, 130, 180, 250, 360, 500, 800, 1250, 2000, 3200, 5000, 8000, 12500, 20000, 32000, 50000, 80000, 125000],
    [1000, -1, -1, 110, 150, 210, 280, 400, 560, 900, 1400, 2300, 3600, 5600, 9000, 14000, 23000, 36000, 56000, 90000, 140000],
    [1250, -1, -1, 130, 180, 240, 330, 470, 660, 1050, 1650, 2600, 4200, 6600, 10500, 16500, 26000, 42000, 66000, 105000, 165000],
    [1600, -1, -1, 150, 210, 290, 390, 550, 780, 1250, 1950, 3100, 5000, 7800, 12500, 19500, 31000, 50000, 78000, 125000, 195000],
    [2000, -1, -1, 180, 250, 350, 460, 650, 920, 1500, 2300, 3700, 6000, 9200, 15000, 23000, 37000, 60000, 92000, 150000, 230000],
    [2500, -1, -1, 220, 300, 410, 550, 780, 1100, 1750, 2800, 4400, 7000, 11000, 17500, 28000, 44000, 70000, 110000, 175000, 280000],
    [3150, -1, -1, 260, 360, 500, 680, 960, 1350, 2100, 3300, 5400, 8600, 13500, 21000, 33000, 54000, 86000, 135000, 210000, 330000],
];

/// Fundamental deviations a to g: bracket upper bound (mm), then the magnitude in micrometres
/// of a, b, c, cd, d, e, ef, f, fg, g; -1 where the letter is not defined for the bracket.
pub const DEVIATIONS_A_G: [[i32; 11]; 41] = [
    [3, 270, 140, 60, 34, 20, 14, 10, 6, 4, 2],
    [6, 270, 140, 70, 46, 30, 20, 14, 10, 6, 4],
    [10, 280, 150, 80, 56, 40, 25, 18, 13, 8, 5],
    [14, 290, 150, 95, 70, 50, 32, 23, 16, 10, 6],
    [18, 290, 150, 95, 70, 50, 32, 23, 16, 10, 6],
    [24, 300, 160, 110, 85, 65, 40, 28, 20, 12, 7],
    [30, 300, 160, 110, 85, 65, 40, 28, 20, 12, 7],
    [40, 310, 170, 120, 100, 80, 50, 35, 25, 15, 9],
    [50, 320, 180, 130, 100, 80, 50, 35, 25, 15, 9],
    [65, 340, 190, 140, -1, 100, 60, -1, 30, -1, 10],
    [80, 360, 200, 150, -1, 100, 60, -1, 30, -1, 10],
    [100, 380, 220, 170, -1, 120, 72, -1, 36, -1, 12],
    [120, 410, 240, 180, -1, 120, 72, -1, 36, -1, 12],
    [140, 460, 260, 200, -1, 145, 85, -1, 43, -1, 14],
    [160, 520, 280, 210, -1, 145, 85, -1, 43, -1, 14],
    [180, 580, 310, 230, -1, 145, 85, -1, 43, -1, 14],
    [200, 660, 340, 240, -1, 170, 100, -1, 50, -1, 15],
    [225, 740, 380, 260, -1, 170, 100, -1, 50, -1, 15],
    [250, 820, 420, 280, -1, 170, 100, -1, 50, -1, 15],
    [280, 920, 480, 300, -1, 190, 110, -1, 56, -1, 17],
    [315, 1050, 540, 330, -1, 190, 110, -1, 56, -1, 17],
    [355, 1200, 600, 360, -1, 210, 125, -1, 62, -1, 18],
    [400, 1350, 680, 400, -1, 210, 125, -1, 62, -1, 18],
    [450, 1500, 760, 440, -1, 230, 135, -1, 68, -1, 20],
    [500, 1650, 840, 480, -1, 230, 135, -1, 68, -1, 20],
    [560, -1, -1, -1, -1, 260, 145, -1, 76, -1, 22],
    [630, -1, -1, -1, -1, 260, 145, -1, 76, -1, 22],
    [710, -1, -1, -1, -1, 290, 160, -1, 80, -1, 24],
    [800, -1, -1, -1, -1, 290, 160, -1, 80, -1, 24],
    [900, -1, -1, -1, -1, 320, 170, -1, 86, -1, 26],
    [1000, -1, -1, -1, -1, 320, 170, -1, 86, -1, 26],
    [1120, -1, -1, -1, -1, 350, 195, -1, 98, -1, 28],
    [1250, -1, -1, -1, -1, 350, 195, -1, 98, -1, 28],
    [1400, -1, -1, -1, -1, 390, 220, -1, 110, -1, 30],
    [1600, -1, -1, -1, -1, 390, 220, -1, 110, -1, 30],
    [1800, -1, -1, -1, -1, 430, 240, -1, 120, -1, 32],
    [2000, -1, -1, -1, -1, 430, 240, -1, 120, -1, 32],
    [2240, -1, -1, -1, -1, 480, 260, -1, 130, -1, 34],
    [2500, -1, -1, -1, -1, 480, 260, -1, 130, -1, 34],
    [2800, -1, -1, -1, -1, 520, 290, -1, 145, -1, 38],
    [3150, -1, -1, -1, -1, 520, 290, -1, 145, -1, 38],
];

/// Fundamental deviations k to zc for shafts: bracket upper bound (mm), then the lower deviation
/// in micrometres of k (for IT4 to IT7), m, n, p, r, s, t, u, v, x, y, z, za, zb, zc;
/// -1 where the letter is not defined for the bracket.
pub const DEVIATIONS_K_ZC: [[i32; 16]; 41] = [
    [3, 0, 2, 4, 6, 10, 14, -1, 18, -1, 20, -1, 26, 32, 40, 60],
    [6, 1, 4, 8, 12, 15, 19, -1, 23, -1, 28, -1, 35, 42, 50, 80],
    [10, 1, 6, 10, 15, 19, 23, -1, 28, -1, 34, -1, 42, 52, 67, 97],
    [14, 1, 7, 12, 18, 23, 28, -1, 33, -1, 40, -1, 50, 64, 90, 130],
    [18, 1, 7, 12, 18, 23, 28, -1, 33, 39, 45, -1, 60, 77, 108, 150],
    [24, 2, 8, 15, 22, 28, 35, -1, 41, 47, 54, 63, 73, 98, 136, 188],
    [30, 2, 8, 15, 22, 28, 35, 41, 48, 55, 64, 75, 88, 118, 160, 218],
    [40, 2, 9, 17, 26, 34, 43, 48, 60, 68, 80, 94, 112, 148, 200, 274],
    [50, 2, 9, 17, 26, 34, 43, 54, 70, 81, 97, 114, 136, 180, 242, 325],
    [65, 2, 11, 20, 32, 41, 53, 66, 87, 102, 122, 144, 172, 226, 300, 405],
    [80, 2, 11, 20, 32, 43, 59, 75, 102, 120, 146, 174, 210, 274, 360, 480],
    [100, 3, 13, 23, 37, 51, 71, 91, 124, 146, 178, 214, 258, 335, 445, 585],
    [120, 3, 13, 23, 37, 54, 79, 104, 144, 172, 210, 254, 310, 400, 525, 690],
    [140, 3, 15, 27, 43, 63, 92, 122, 170, 202, 248, 300, 365, 470, 620, 800],
    [160, 3, 15, 27, 43, 65, 100, 134, 190, 228, 280, 340, 415, 535, 700, 900],
    [180, 3, 15, 27, 43, 68, 108, 146, 210, 252, 310, 380, 465, 600, 780, 1000],
    [200, 4, 17, 31, 50, 77, 122, 166, 236, 284, 350, 425, 520, 670, 880, 1150],
    [225, 4, 17, 31, 50, 80, 130, 180, 258, 310, 385, 470, 575, 740, 960, 1250],
    [250, 4, 17, 31, 50, 84, 140, 196, 284, 340, 425, 520, 640, 820, 1050, 1350],
    [280, 4, 20, 34, 56, 94, 158, 218, 315, 385, 475, 580, 710, 920, 1200, 1550],
    [315, 4, 20, 34, 56, 98, 170, 240, 350, 425, 525, 650, 790, 1000, 1300, 1700],
    [355, 4, 21, 37, 62, 108, 190, 268, 390, 475, 590, 730, 900, 1150, 1500, 1900],
    [400, 4, 21, 37, 62, 114, 208, 294, 435, 530, 660, 820, 1000, 1300, 1650, 2100],
    [450, 5, 23, 40, 68, 126, 232, 330, 490, 595, 740, 920, 1100, 1450, 1850, 2400],
    [500, 5, 23, 40, 68, 132, 252, 360, 540, 660, 820, 1000, 1250, 1600, 2100, 2600],
    [560, 0, 26, 44, 78, 150, 280, 400, 600, -1, -1, -1, -1, -1, -1, -1],
    [630, 0, 26, 44, 78, 155, 310, 450, 660, -1, -1, -1, -1, -1, -1, -1],
    [710, 0, 30, 50, 88, 175, 340, 500, 740, -1, -1, -1, -1, -1, -1, -1],
    [800, 0, 30, 50, 88, 185, 380, 560, 840, -1, -1, -1, -1, -1, -1, -1],
    [900, 0, 34, 56, 100, 210, 430, 620, 940, -1, -1, -1, -1, -1, -1, -1],
    [1000, 0, 34, 56, 100, 220, 470, 680, 1050, -1, -1, -1, -1, -1, -1, -1],
    [1120, 0, 40, 66, 120, 250, 520, 780, 1150, -1, -1, -1, -1, -1, -1, -1],
    [1250, 0, 40, 66, 120, 260, 580, 840, 1300, -1, -1, -1, -1, -1, -1, -1],
    [1400, 0, 48, 78, 140, 300, 640, 960, 1450, -1, -1, -1, -1, -1, -1, -1],
    [1600, 0, 48, 78, 140, 330, 720, 1050, 1600, -1, -1, -1, -1, -1, -1, -1],
    [1800, 0, 58, 92, 170, 370, 820, 1200, 1850, -1, -1, -1, -1, -1, -1, -1],
    [2000, 0, 58, 92, 170, 400, 920, 1350, 2000, -1, -1, -1, -1, -1, -1, -1],
    [2240, 0, 68, 110, 195, 440, 1000, 1500, 2300, -1, -1, -1, -1, -1, -1, -1],
    [2500, 0, 68, 110, 195, 460, 1100, 1650, 2500, -1, -1, -1, -1, -1, -1, -1],
    [2800, 0, 76, 135, 240, 550, 1250, 1900, 2900, -1, -1, -1, -1, -1, -1, -1],
    [3150, 0, 76, 135, 240, 580, 1400, 2100, 3200, -1, -1, -1, -1, -1, -1, -1],
];

/// The increment delta for holes K to ZC: bracket upper bound (mm), then delta for IT3 to IT8
/// in tenths of a micrometre.
pub const DELTA: [[i32; 7]; 13] = [
    [3, 0, 0, 0, 0, 0, 0],
    [6, 10, 15, 10, 30, 40, 60],
    [10, 10, 15, 20, 30, 60, 70],
    [18, 10, 20, 30, 30, 70, 90],
    [30, 15, 20, 30, 40, 80, 120],
    [50, 15, 30, 40, 50, 90, 140],
    [80, 20, 30, 50, 60, 110, 160],
    [120, 20, 40, 50, 70, 130, 190],
    [180, 30, 40, 60, 70, 150, 230],
    [250, 30, 40, 60, 90, 170, 260],
    [315, 40, 40, 70, 90, 200, 290],
    [400, 40, 50, 70, 110, 210, 320],
    [500, 50, 50, 70, 130, 230, 340],
];

/// Upper deviation of holes J6, J7 and J8: bracket upper bound (mm), then micrometres.
pub const UPPER_J: [[i32; 4]; 13] = [
    [3, 2, 4, 6],
    [6, 5, 6, 10],
    [10, 5, 8, 12],
    [18, 6, 10, 15],
    [30, 8, 12, 20],
    [50, 10, 14, 24],
    [80, 13, 18, 28],
    [120, 16, 22, 34],
    [180, 18, 26, 41],
    [250, 22, 30, 47],
    [315, 25, 36, 55],
    [400, 29, 39, 60],
    [500, 33, 43, 66],
];

/// Magnitude of the lower deviation of shafts j5 and j6, j7, and j8: bracket upper bound (mm),
/// then micrometres; -1 where the grade is not defined for the bracket.
pub const LOWER_J: [[i32; 4]; 13] = [
    [3, 2, 4, 6],
    [6, 2, 4, -1],
    [10, 2, 5, -1],
    [18, 3, 6, -1],
    [30, 4, 8, -1],
    [50, 5, 10, -1],
    [80, 7, 12, -1],
    [120, 9, 15, -1],
    [180, 11, 18, -1],
    [250, 13, 21, -1],
    [315, 16, 26, -1],
    [400, 18, 28, -1],
    [500, 20, 32, -1],
];

/// The preferred tolerance classes for holes, as (deviation, grade) table indices:
/// A11, B11, C11, D10, E9, F8, G7, H7, H8, H9, H11, JS7, K7, N7, P7, R7, S7, U7.
pub const HOLE_PREFERRED: [(usize, usize); 18] = [
    (0, 13),
    (1, 13),
    (2, 13),
    (4, 12),
    (5, 11),
    (7, 10),
    (9, 9),
    (10, 9),
    (10, 10),
    (10, 11),
    (10, 13),
    (11, 9),
    (13, 9),
    (15, 9),
    (16, 9),
    (17, 9),
    (18, 9),
    (20, 9),
];

/// The preferred tolerance classes for shafts, as (deviation, grade) table indices:
/// a11, b11, c11, d9, e8, f7, g6, h6, h7, h9, h11, js6, k6, n6, p6, r6, s6, u6.
pub const SHAFT_PREFERRED: [(usize, usize); 18] = [
    (0, 13),
    (1, 13),
    (2, 13),
    (4, 11),
    (5, 10),
    (7, 9),
    (9, 8),
    (10, 8),
    (10, 9),
    (10, 11),
    (10, 13),
    (11, 8),
    (13, 8),
    (15, 8),
    (16, 8),
    (17, 8),
    (18, 8),
    (20, 8),
];

/// Number of preferred classes on each side.
pub const NUM_PREFERRED: usize = 18;

/// The preferred classes for holes or for shafts.
pub open spec fn preferred(hole: bool) -> Seq<(usize, usize)> {
    if hole {
        HOLE_PREFERRED@
    } else {
        SHAFT_PREFERRED@
    }
}

/// Every preferred class names a deviation letter and a grade, and no class is listed twice.
pub proof fn lemma_preferred_valid(hole: bool)
    ensures
        preferred(hole).len() == NUM_PREFERRED,
        forall|p: int|
            0 <= p < NUM_PREFERRED ==> (#[trigger] preferred(hole)[p]).0 < NUM_DEVIATIONS && 1
                <= preferred(hole)[p].1 <= NUM_GRADES,
        forall|p: int, q: int|
            0 <= p < q < NUM_PREFERRED ==> #[trigger] preferred(hole)[p] != #[trigger] preferred(
                hole,
            )[q],
{
}

/// The shaft (lower case) spelling of deviation letter `dev`.
pub open spec fn deviation_letters(dev: int) -> Seq<char> {
    if dev == 0 {
        seq!['a']
    } else if dev == 1 {
        seq!['b']
    } else if dev == 2 {
        seq!['c']
    } else if dev == 3 {
        seq!['c', 'd']
    } else if dev == 4 {
        seq!['d']
    } else if dev == 5 {
        seq!['e']
    } else if dev == 6 {
        seq!['e', 'f']
    } else if dev == 7 {
        seq!['f']
    } else if dev == 8 {
        seq!['f', 'g']
    } else if dev == 9 {
        seq!['g']
    } else if dev == 10 {
        seq!['h']
    } else if dev == 11 {
        seq!['j', 's']
    } else if dev == 12 {
        seq!['j']
    } else if dev == 13 {
        seq!['k']
    } else if dev == 14 {
        seq!['m']
    } else if dev == 15 {
        seq!['n']
    } else if dev == 16 {
        seq!['p']
    } else if dev == 17 {
        seq!['r']
    } else if dev == 18 {
        seq!['s']
    } else if dev == 19 {
        seq!['t']
    } else if dev == 20 {
        seq!['u']
    } else if dev == 21 {
        seq!['v']
    } else if dev == 22 {
        seq!['x']
    } else if dev == 23 {
        seq!['y']
    } else if dev == 24 {
        seq!['z']
    } else if dev == 25 {
        seq!['z', 'a']
    } else if dev == 26 {
        seq!['z', 'b']
    } else {
        seq!['z', 'c']
    }
}

/// The spelling of IT grade `grade`, counted from 1 for IT01.
pub open spec fn grade_name(grade: int) -> Seq<char> {
    if grade == 1 {
        seq!['0', '1']
    } else if grade == 2 {
        seq!['0']
    } else if grade == 3 {
        seq!['1']
    } else if grade == 4 {
        seq!['2']
    } else if grade == 5 {
        seq!['3']
    } else if grade == 6 {
        seq!['4']
    } else if grade == 7 {
        seq!['5']
    } else if grade == 8 {
        seq!['6']
    } else if grade == 9 {
        seq!['7']
    } else if grade == 10 {
        seq!['8']
    } else if grade == 11 {
        seq!['9']
    } else if grade == 12 {
        seq!['1', '0']
    } else if grade == 13 {
        seq!['1', '1']
    } else if grade == 14 {
        seq!['1', '2']
    } else if grade == 15 {
        seq!['1', '3']
    } else if grade == 16 {
        seq!['1', '4']
    } else if grade == 17 {
        seq!['1', '5']
    } else if grade == 18 {
        seq!['1', '6']
    } else if grade == 19 {
        seq!['1', '7']
    } else {
        seq!['1', '8']
    }
}

/// Upper case of an ASCII lower case letter; any other character is left alone.
pub open spec fn ascii_upper(c: char) -> char {
    match c {
        'a' => 'A',
        'b' => 'B',
        'c' => 'C',
        'd' => 'D',
        'e' => 'E',
        'f' => 'F',
        'g' => 'G',
        'h' => 'H',
        'i' => 'I',
        'j' => 'J',
        'k' => 'K',
        'l' => 'L',
        'm' => 'M',
        'n' => 'N',
        'o' => 'O',
        'p' => 'P',
        'q' => 'Q',
        'r' => 'R',
        's' => 'S',
        't' => 'T',
        'u' => 'U',
        'v' => 'V',
        'w' => 'W',
        'x' => 'X',
        'y' => 'Y',
        'z' => 'Z',
        _ => c,
    }
}

/// The hole (upper case) spelling of deviation letter `dev`.
pub open spec fn hole_letters(dev: int) -> Seq<char> {
    deviation_letters(dev).map_values(|c: char| ascii_upper(c))
}

/// Shaft spelling of a deviation letter.
pub fn shaft_letter_str(dev: usize) -> (r: &'static str)
    requires
        dev < NUM_DEVIATIONS,
    ensures
        r@ == deviation_letters(dev as int),
{
    match dev {
        0 => {
            proof {
                reveal_strlit("a");
            }
            "a"
        },
        1 => {
            proof {
                reveal_strlit("b");
            }
            "b"
        },
        2 => {
            proof {
                reveal_strlit("c");
            }
            "c"
        },
        3 => {
            proof {
                reveal_strlit("cd");
            }
            "cd"
        },
        4 => {
            proof {
                reveal_strlit("d");
            }
            "d"
        },
        5 => {
            proof {
                reveal_strlit("e");
            }
            "e"
        },
        6 => {
            proof {
                reveal_strlit("ef");
            }
            "ef"
        },
        7 => {
            proof {
                reveal_strlit("f");
            }
            "f"
        },
        8 => {
            proof {
                reveal_strlit("fg");
            }
            "fg"
        },
        9 => {
            proof {
                reveal_strlit("g");
            }
            "g"
        },
        10 => {
            proof {
                reveal_strlit("h");
            }
            "h"
        },
        11 => {
            proof {
                reveal_strlit("js");
            }
            "js"
        },
        12 => {
            proof {
                reveal_strlit("j");
            }
            "j"
        },
        13 => {
            proof {
                reveal_strlit("k");
            }
            "k"
        },
        14 => {
            proof {
                reveal_strlit("m");
            }
            "m"
        },
        15 => {
            proof {
                reveal_strlit("n");
            }
            "n"
        },
        16 => {
            proof {
                reveal_strlit("p");
            }
            "p"
        },
        17 => {
            proof {
                reveal_strlit("r");
            }
            "r"
        },
        18 => {
            proof {
                reveal_strlit("s");
            }
            "s"
        },
        19 => {
            proof {
                reveal_strlit("t");
            }
            "t"
        },
        20 => {
            proof {
                reveal_strlit("u");
            }
            "u"
        },
        21 => {
            proof {
                reveal_strlit("v");
            }
            "v"
        },
        22 => {
            proof {
                reveal_strlit("x");
            }
            "x"
        },
        23 => {
            proof {
                reveal_strlit("y");
            }
            "y"
        },
        24 => {
            proof {
                reveal_strlit("z");
            }
            "z"
        },
        25 => {
            proof {
                reveal_strlit("za");
            }
            "za"
        },
        26 => {
            proof {
                reveal_strlit("zb");
            }
            "zb"
        },
        _ => {
            proof {
                reveal_strlit("zc");
            }
            "zc"
        },
    }
}

/// Hole spelling of a deviation letter.
pub fn hole_letter_str(dev: usize) -> (r: &'static str)
    requires
        dev < NUM_DEVIATIONS,
    ensures
        r@ == hole_letters(dev as int),
{
    let r = match dev {
        0 => {
            proof {
                reveal_strlit("A");
            }
            "A"
        },
        1 => {
            proof {
                reveal_strlit("B");
            }
            "B"
        },
        2 => {
            proof {
                reveal_strlit("C");
            }
            "C"
        },
        3 => {
            proof {
                reveal_strlit("CD");
            }
            "CD"
        },
        4 => {
            proof {
                reveal_strlit("D");
            }
            "D"
        },
        5 => {
            proof {
                reveal_strlit("E");
            }
            "E"
        },
        6 => {
            proof {
                reveal_strlit("EF");
            }
            "EF"
        },
        7 => {
            proof {
                reveal_strlit("F");
            }
            "F"
        },
        8 => {
            proof {
                reveal_strlit("FG");
            }
            "FG"
        },
        9 => {
            proof {
                reveal_strlit("G");
            }
            "G"
        },
        10 => {
            proof {
                reveal_strlit("H");
            }
            "H"
        },
        11 => {
            proof {
                reveal_strlit("JS");
            }
            "JS"
        },
        12 => {
            proof {
                reveal_strlit("J");
            }
            "J"
        },
        13 => {
            proof {
                reveal_strlit("K");
            }
            "K"
        },
        14 => {
            proof {
                reveal_strlit("M");
            }
            "M"
        },
        15 => {
            proof {
                reveal_strlit("N");
            }
            "N"
        },
        16 => {
            proof {
                reveal_strlit("P");
            }
            "P"
        },
        17 => {
            proof {
                reveal_strlit("R");
            }
            "R"
        },
        18 => {
            proof {
                reveal_strlit("S");
            }
            "S"
        },
        19 => {
            proof {
                reveal_strlit("T");
            }
            "T"
        },
        20 => {
            proof {
                reveal_strlit("U");
            }
            "U"
        },
        21 => {
            proof {
                reveal_strlit("V");
            }
            "V"
        },
        22 => {
            proof {
                reveal_strlit("X");
            }
            "X"
        },
        23 => {
            proof {
                reveal_strlit("Y");
            }
            "Y"
        },
        24 => {
            proof {
                reveal_strlit("Z");
            }
            "Z"
        },
        25 => {
            proof {
                reveal_strlit("ZA");
            }
            "ZA"
        },
        26 => {
            proof {
                reveal_strlit("ZB");
            }
            "ZB"
        },
        _ => {
            proof {
                reveal_strlit("ZC");
            }
            "ZC"
        },
    };
    assert(r@ =~= hole_letters(dev as int));
    r
}

/// Spelling of an IT grade, counted from 1 for IT01.
pub fn grade_str(grade: usize) -> (r: &'static str)
    requires
        1 <= grade <= NUM_GRADES,
    ensures
        r@ == grade_name(grade as int),
{
    match grade {
        1 => {
            proof {
                reveal_strlit("01");
            }
            "01"
        },
        2 => {
            proof {
                reveal_strlit("0");
            }
            "0"
        },
        3 => {
            proof {
                reveal_strlit("1");
            }
            "1"
        },
        4 => {
            proof {
                reveal_strlit("2");
            }
            "2"
        },
        5 => {
            proof {
                reveal_strlit("3");
            }
            "3"
        },
        6 => {
            proof {
                reveal_strlit("4");
            }
            "4"
        },
        7 => {
            proof {
                reveal_strlit("5");
            }
            "5"
        },
        8 => {
            proof {
                reveal_strlit("6");
            }
            "6"
        },
        9 => {
            proof {
                reveal_strlit("7");
            }
            "7"
        },
        10 => {
            proof {
                reveal_strlit("8");
            }
            "8"
        },
        11 => {
            proof {
                reveal_strlit("9");
            }
            "9"
        },
        12 => {
            proof {
                reveal_strlit("10");
            }
            "10"
        },
        13 => {
            proof {
                reveal_strlit("11");
            }
            "11"
        },
        14 => {
            proof {
                reveal_strlit("12");
            }
            "12"
        },
        15 => {
            proof {
                reveal_strlit("13");
            }
            "13"
        },
        16 => {
            proof {
                reveal_strlit("14");
            }
            "14"
        },
        17 => {
            proof {
                reveal_strlit("15");
            }
            "15"
        },
        18 => {
            proof {
                reveal_strlit("16");
            }
            "16"
        },
        19 => {
            proof {
                reveal_strlit("17");
            }
            "17"
        },
        _ => {
            proof {
                reveal_strlit("18");
            }
            "18"
        },
    }
}

/// The ASCII digits, in order.
pub open spec fn digits() -> Seq<char> {
    seq!['0', '1', '2', '3', '4', '5', '6', '7', '8', '9']
}

/// The decimal spelling of a number from 0 to 99, with no leading zero.
pub open spec fn decimal(n: int) -> Seq<char> {
    if n < 10 {
        seq![digits()[n]]
    } else {
        seq![digits()[n / 10], digits()[n % 10]]
    }
}

/// Grade indices follow the grades in increasing order: index 1 is IT01, index 2 is IT0, and
/// from index 3 on, index `g` is the grade whose number is `g - 2`, spelled in decimal.
pub proof fn law_grade_names_count_up(grade: int)
    requires
        1 <= grade <= NUM_GRADES,
    ensures
        grade == 1 ==> grade_name(grade) == seq!['0', '1'],
        grade == 2 ==> grade_name(grade) == seq!['0'],
        grade >= 3 ==> grade_name(grade) == decimal(grade - 2),
{
    if grade == 1 {
    } else if grade == 2 {
    } else if grade == 3 {
        assert(decimal(1) =~= seq!['1']);
    } else if grade == 4 {
        assert(decimal(2) =~= seq!['2']);
    } else if grade == 5 {
        assert(decimal(3) =~= seq!['3']);
    } else if grade == 6 {
        assert(decimal(4) =~= seq!['4']);
    } else if grade == 7 {
        assert(decimal(5) =~= seq!['5']);
    } else if grade == 8 {
        assert(decimal(6) =~= seq!['6']);
    } else if grade == 9 {
        assert(decimal(7) =~= seq!['7']);
    } else if grade == 10 {
        assert(decimal(8) =~= seq!['8']);
    } else if grade == 11 {
        assert(decimal(9) =~= seq!['9']);
    } else if grade == 12 {
        assert(decimal(10) =~= seq!['1', '0']);
    } else if grade == 13 {
        assert(decimal(11) =~= seq!['1', '1']);
    } else if grade == 14 {
        assert(decimal(12) =~= seq!['1', '2']);
    } else if grade == 15 {
        assert(decimal(13) =~= seq!['1', '3']);
    } else if grade == 16 {
        assert(decimal(14) =~= seq!['1', '4']);
    } else if grade == 17 {
        assert(decimal(15) =~= seq!['1', '5']);
    } else if grade == 18 {
        assert(decimal(16) =~= seq!['1', '6']);
    } else if grade == 19 {
        assert(decimal(17) =~= seq!['1', '7']);
    } else if grade == 20 {
        assert(decimal(18) =~= seq!['1', '8']);
    }
}

/// The deviation letters in the order ISO 286 lists them, by fundamental deviation.
pub open spec fn iso_letter_order() -> Seq<Seq<char>> {
    seq![seq!['a'], seq!['b'], seq!['c'], seq!['c', 'd'], seq!['d'], seq!['e'], seq!['e', 'f'], seq!['f'], seq!['f', 'g'], seq!['g'], seq!['h'], seq!['j', 's'], seq!['j'], seq!['k'], seq!['m'], seq!['n'], seq!['p'], seq!['r'], seq!['s'], seq!['t'], seq!['u'], seq!['v'], seq!['x'], seq!['y'], seq!['z'], seq!['z', 'a'], seq!['z', 'b'], seq!['z', 'c']]
}

/// Deviation indices follow the letters in ISO 286 order, for shafts in lower case and for
/// holes in upper case: index 0 is a, index 10 is h, index 11 is js, index 20 is u, index 22
/// is x and index 27 is zc.
pub proof fn law_letters_in_iso_order(dev: int)
    requires
        0 <= dev < NUM_DEVIATIONS,
    ensures
        deviation_letters(dev) == iso_letter_order()[dev],
        hole_letters(dev) == iso_letter_order()[dev].map_values(|c: char| ascii_upper(c)),
{
    if dev == 0 {
        assert(deviation_letters(dev) =~= iso_letter_order()[dev]);
    } else if dev == 1 {
        assert(deviation_letters(dev) =~= iso_letter_order()[dev]);
    } else if dev == 2 {
        assert(deviation_letters(dev) =~= iso_letter_order()[dev]);
    } else if dev == 3 {
        assert(deviation_letters(dev) =~= iso_letter_order()[dev]);
    } else if dev == 4 {
        assert(deviation_letters(dev) =~= iso_letter_order()[dev]);
    } else if dev == 5 {
        assert(deviation_letters(dev) =~= iso_letter_order()[dev]);
    } else if dev == 6 {
        assert(deviation_letters(dev) =~= iso_letter_order()[dev]);
    } else if dev == 7 {
        assert(deviation_letters(dev) =~= iso_letter_order()[dev]);
    } else if dev == 8 {
        assert(deviation_letters(dev) =~= iso_letter_order()[dev]);
    } else if dev == 9 {
        assert(deviation_letters(dev) =~= iso_letter_order()[dev]);
    } else if dev == 10 {
        assert(deviation_letters(dev) =~= iso_letter_order()[dev]);
    } else if dev == 11 {
        assert(deviation_letters(dev) =~= iso_letter_order()[dev]);
    } else if dev == 12 {
        assert(deviation_letters(dev) =~= iso_letter_order()[dev]);
    } else if dev == 13 {
        assert(deviation_letters(dev) =~= iso_letter_order()[dev]);
    } else if dev == 14 {
        assert(deviation_letters(dev) =~= iso_letter_order()[dev]);
    } else if dev == 15 {
        assert(deviation_letters(dev) =~= iso_letter_order()[dev]);
    } else if dev == 16 {
        assert(deviation_letters(dev) =~= iso_letter_order()[dev]);
    } else if dev == 17 {
        assert(deviation_letters(dev) =~= iso_letter_order()[dev]);
    } else if dev == 18 {
        assert(deviation_letters(dev) =~= iso_letter_order()[dev]);
    } else if dev == 19 {
        assert(deviation_letters(dev) =~= iso_letter_order()[dev]);
    } else if dev == 20 {
        assert(deviation_letters(dev) =~= iso_letter_order()[dev]);
    } else if dev == 21 {
        assert(deviation_letters(dev) =~= iso_letter_order()[dev]);
    } else if dev == 22 {
        assert(deviation_letters(dev) =~= iso_letter_order()[dev]);
    } else if dev == 23 {
        assert(deviation_letters(dev) =~= iso_letter_order()[dev]);
    } else if dev == 24 {
        assert(deviation_letters(dev) =~= iso_letter_order()[dev]);
    } else if dev == 25 {
        assert(deviation_letters(dev) =~= iso_letter_order()[dev]);
    } else if dev == 26 {
        assert(deviation_letters(dev) =~= iso_letter_order()[dev]);
    } else if dev == 27 {
        assert(deviation_letters(dev) =~= iso_letter_order()[dev]);
    }
}

} // verus!
