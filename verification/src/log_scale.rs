//! The logarithmic scale behind the volume bonus: ten times the decimal
//! logarithm, rounded down, computed on integers alone.

use vstd::prelude::*;

verus! {

/// `n` to the tenth power.
pub open spec fn tenth_power(n: int) -> int {
    let square = n * n;
    let fourth = square * square;
    fourth * fourth * square
}

/// Ten to the power `k`.
pub open spec fn power_of_ten(k: nat) -> int
    decreases k,
{
    if k == 0 {
        1
    } else {
        10 * power_of_ten((k - 1) as nat)
    }
}

/// Whether `level` is ten times the decimal logarithm of `value`, rounded
/// down and capped at 100: the largest level up to 100 whose power of ten
/// does not exceed the tenth power of `value`.
pub open spec fn is_tenfold_log10(value: u64, level: int) -> bool {
    &&& 0 <= level <= 100
    &&& power_of_ten(level as nat) <= tenth_power(value as int)
    &&& (level < 100 ==> tenth_power(value as int) < power_of_ten((level + 1) as nat))
}

/// Whether `threshold` is the smallest number whose tenth power reaches
/// ten to the power `level`.
pub open spec fn is_threshold(level: nat, threshold: int) -> bool {
    &&& power_of_ten(level) <= tenth_power(threshold)
    &&& tenth_power(threshold - 1) < power_of_ten(level)
}

/// For each level from 0 to 100, the smallest value that reaches it.
pub const LEVEL_THRESHOLDS: [u64; 101] = [
    1, 2, 2, 2, 3,
    4, 4, 6, 7, 8,
    10, 13, 16, 20, 26,
    32, 40, 51, 64, 80,
    100, 126, 159, 200, 252,
    317, 399, 502, 631, 795,
    1_000, 1_259, 1_585, 1_996, 2_512,
    3_163, 3_982, 5_012, 6_310, 7_944,
    10_000, 12_590, 15_849, 19_953, 25_119,
    31_623, 39_811, 50_119, 63_096, 79_433,
    100_000, 125_893, 158_490, 199_527, 251_189,
    316_228, 398_108, 501_188, 630_958, 794_329,
    1_000_000, 1_258_926, 1_584_894, 1_995_263, 2_511_887,
    3_162_278, 3_981_072, 5_011_873, 6_309_574, 7_943_283,
    10_000_000, 12_589_255, 15_848_932, 19_952_624, 25_118_865,
    31_622_777, 39_810_718, 50_118_724, 63_095_735, 79_432_824,
    100_000_000, 125_892_542, 158_489_320, 199_526_232, 251_188_644,
    316_227_767, 398_107_171, 501_187_234, 630_957_345, 794_328_235,
    1_000_000_000, 1_258_925_412, 1_584_893_193, 1_995_262_315, 2_511_886_432,
    3_162_277_661, 3_981_071_706, 5_011_872_337, 6_309_573_445, 7_943_282_348,
    10_000_000_000,
];

/// The tenth power grows with its base.
pub proof fn lemma_tenth_power_monotonic(a: int, b: int)
    requires
        0 <= a <= b,
    ensures
        0 <= tenth_power(a) <= tenth_power(b),
{
    let a2 = a * a;
    let b2 = b * b;
    assert(0 <= a2 <= b2) by (nonlinear_arith)
        requires
            0 <= a <= b,
            a2 == a * a,
            b2 == b * b,
    ;
    let a4 = a2 * a2;
    let b4 = b2 * b2;
    assert(0 <= a4 <= b4) by (nonlinear_arith)
        requires
            0 <= a2 <= b2,
            a4 == a2 * a2,
            b4 == b2 * b2,
    ;
    let a8 = a4 * a4;
    let b8 = b4 * b4;
    assert(0 <= a8 <= b8) by (nonlinear_arith)
        requires
            0 <= a4 <= b4,
            a8 == a4 * a4,
            b8 == b4 * b4,
    ;
    assert(0 <= a8 * a2 <= b8 * b2) by (nonlinear_arith)
        requires
            0 <= a8 <= b8,
            0 <= a2 <= b2,
    ;
}

/// Powers of ten grow with the exponent.
pub proof fn lemma_power_of_ten_monotonic(j: nat, k: nat)
    requires
        j <= k,
    ensures
        0 < power_of_ten(j) <= power_of_ten(k),
    decreases k,
{
    if k == 0 {
    } else if j == k {
        lemma_power_of_ten_monotonic(0, (k - 1) as nat);
    } else {
        lemma_power_of_ten_monotonic(j, (k - 1) as nat);
    }
}

/// A value has one tenfold logarithm.
pub proof fn lemma_tenfold_log10_unique(value: u64, a: int, b: int)
    requires
        is_tenfold_log10(value, a),
        is_tenfold_log10(value, b),
    ensures
        a == b,
{
    if a < b {
        lemma_power_of_ten_monotonic((a + 1) as nat, b as nat);
    } else if b < a {
        lemma_power_of_ten_monotonic((b + 1) as nat, a as nat);
    }
}

proof fn lemma_thresholds_1_to_10()
    ensures
        power_of_ten(10) == 10_000_000_000,
        forall|k: int|
            0 < k <= 10 ==> is_threshold(k as nat, #[trigger] LEVEL_THRESHOLDS[k] as int),
{
    assert(power_of_ten(0) == 1);
    assert(power_of_ten(1) == 10);
    assert(power_of_ten(2) == 100);
    assert(power_of_ten(3) == 1_000);
    assert(power_of_ten(4) == 10_000);
    assert(power_of_ten(5) == 100_000);
    assert(power_of_ten(6) == 1_000_000);
    assert(power_of_ten(7) == 10_000_000);
    assert(power_of_ten(8) == 100_000_000);
    assert(power_of_ten(9) == 1_000_000_000);
    assert(power_of_ten(10) == 10_000_000_000);
    assert(is_threshold(1, 2)) by (nonlinear_arith)
        requires
            power_of_ten(1) == 10,
    ;
    assert(is_threshold(2, 2)) by (nonlinear_arith)
        requires
            power_of_ten(2) == 100,
    ;
    assert(is_threshold(3, 2)) by (nonlinear_arith)
        requires
            power_of_ten(3) == 1_000,
    ;
    assert(is_threshold(4, 3)) by (nonlinear_arith)
        requires
            power_of_ten(4) == 10_000,
    ;
    assert(is_threshold(5, 4)) by (nonlinear_arith)
        requires
            power_of_ten(5) == 100_000,
    ;
    assert(is_threshold(6, 4)) by (nonlinear_arith)
        requires
            power_of_ten(6) == 1_000_000,
    ;
    assert(is_threshold(7, 6)) by (nonlinear_arith)
        requires
            power_of_ten(7) == 10_000_000,
    ;
    assert(is_threshold(8, 7)) by (nonlinear_arith)
        requires
            power_of_ten(8) == 100_000_000,
    ;
    assert(is_threshold(9, 8)) by (nonlinear_arith)
        requires
            power_of_ten(9) == 1_000_000_000,
    ;
    assert(is_threshold(10, 10)) by (nonlinear_arith)
        requires
            power_of_ten(10) == 10_000_000_000,
    ;
    assert forall|k: int| 0 < k <= 10 implies is_threshold(
        k as nat,
        #[trigger] LEVEL_THRESHOLDS[k] as int,
    ) by {
        if k == 1 {
            assert(LEVEL_THRESHOLDS[1] == 2);
        } else if k == 2 {
            assert(LEVEL_THRESHOLDS[2] == 2);
        } else if k == 3 {
            assert(LEVEL_THRESHOLDS[3] == 2);
        } else if k == 4 {
            assert(LEVEL_THRESHOLDS[4] == 3);
        } else if k == 5 {
            assert(LEVEL_THRESHOLDS[5] == 4);
        } else if k == 6 {
            assert(LEVEL_THRESHOLDS[6] == 4);
        } else if k == 7 {
            assert(LEVEL_THRESHOLDS[7] == 6);
        } else if k == 8 {
            assert(LEVEL_THRESHOLDS[8] == 7);
        } else if k == 9 {
            assert(LEVEL_THRESHOLDS[9] == 8);
        } else if k == 10 {
            assert(LEVEL_THRESHOLDS[10] == 10);
        }
    }
}

proof fn lemma_thresholds_11_to_20()
    ensures
        power_of_ten(20) == 100_000_000_000_000_000_000,
        forall|k: int|
            10 < k <= 20 ==> is_threshold(k as nat, #[trigger] LEVEL_THRESHOLDS[k] as int),
{
    lemma_thresholds_1_to_10();
    assert(power_of_ten(11) == 100_000_000_000);
    assert(power_of_ten(12) == 1_000_000_000_000);
    assert(power_of_ten(13) == 10_000_000_000_000);
    assert(power_of_ten(14) == 100_000_000_000_000);
    assert(power_of_ten(15) == 1_000_000_000_000_000);
    assert(power_of_ten(16) == 10_000_000_000_000_000);
    assert(power_of_ten(17) == 100_000_000_000_000_000);
    assert(power_of_ten(18) == 1_000_000_000_000_000_000);
    assert(power_of_ten(19) == 10_000_000_000_000_000_000);
    assert(power_of_ten(20) == 100_000_000_000_000_000_000);
    assert(is_threshold(11, 13)) by (nonlinear_arith)
        requires
            power_of_ten(11) == 100_000_000_000,
    ;
    assert(is_threshold(12, 16)) by (nonlinear_arith)
        requires
            power_of_ten(12) == 1_000_000_000_000,
    ;
    assert(is_threshold(13, 20)) by (nonlinear_arith)
        requires
            power_of_ten(13) == 10_000_000_000_000,
    ;
    assert(is_threshold(14, 26)) by (nonlinear_arith)
        requires
            power_of_ten(14) == 100_000_000_000_000,
    ;
    assert(is_threshold(15, 32)) by (nonlinear_arith)
        requires
            power_of_ten(15) == 1_000_000_000_000_000,
    ;
    assert(is_threshold(16, 40)) by (nonlinear_arith)
        requires
            power_of_ten(16) == 10_000_000_000_000_000,
    ;
    assert(is_threshold(17, 51)) by (nonlinear_arith)
        requires
            power_of_ten(17) == 100_000_000_000_000_000,
    ;
    assert(is_threshold(18, 64)) by (nonlinear_arith)
        requires
            power_of_ten(18) == 1_000_000_000_000_000_000,
    ;
    assert(is_threshold(19, 80)) by (nonlinear_arith)
        requires
            power_of_ten(19) == 10_000_000_000_000_000_000,
    ;
    assert(is_threshold(20, 100)) by (nonlinear_arith)
        requires
            power_of_ten(20) == 100_000_000_000_000_000_000,
    ;
    assert forall|k: int| 10 < k <= 20 implies is_threshold(
        k as nat,
        #[trigger] LEVEL_THRESHOLDS[k] as int,
    ) by {
        if k == 11 {
            assert(LEVEL_THRESHOLDS[11] == 13);
        } else if k == 12 {
            assert(LEVEL_THRESHOLDS[12] == 16);
        } else if k == 13 {
            assert(LEVEL_THRESHOLDS[13] == 20);
        } else if k == 14 {
            assert(LEVEL_THRESHOLDS[14] == 26);
        } else if k == 15 {
            assert(LEVEL_THRESHOLDS[15] == 32);
        } else if k == 16 {
            assert(LEVEL_THRESHOLDS[16] == 40);
        } else if k == 17 {
            assert(LEVEL_THRESHOLDS[17] == 51);
        } else if k == 18 {
            assert(LEVEL_THRESHOLDS[18] == 64);
        } else if k == 19 {
            assert(LEVEL_THRESHOLDS[19] == 80);
        } else if k == 20 {
            assert(LEVEL_THRESHOLDS[20] == 100);
        }
    }
}

proof fn lemma_thresholds_21_to_30()
    ensures
        power_of_ten(30) == 1_000_000_000_000_000_000_000_000_000_000,
        forall|k: int|
            20 < k <= 30 ==> is_threshold(k as nat, #[trigger] LEVEL_THRESHOLDS[k] as int),
{
    lemma_thresholds_11_to_20();
    assert(power_of_ten(21) == 1_000_000_000_000_000_000_000);
    assert(power_of_ten(22) == 10_000_000_000_000_000_000_000);
    assert(power_of_ten(23) == 100_000_000_000_000_000_000_000);
    assert(power_of_ten(24) == 1_000_000_000_000_000_000_000_000);
    assert(power_of_ten(25) == 10_000_000_000_000_000_000_000_000);
    assert(power_of_ten(26) == 100_000_000_000_000_000_000_000_000);
    assert(power_of_ten(27) == 1_000_000_000_000_000_000_000_000_000);
    assert(power_of_ten(28) == 10_000_000_000_000_000_000_000_000_000);
    assert(power_of_ten(29) == 100_000_000_000_000_000_000_000_000_000);
    assert(power_of_ten(30) == 1_000_000_000_000_000_000_000_000_000_000);
    assert(is_threshold(21, 126)) by (nonlinear_arith)
        requires
            power_of_ten(21) == 1_000_000_000_000_000_000_000,
    ;
    assert(is_threshold(22, 159)) by (nonlinear_arith)
        requires
            power_of_ten(22) == 10_000_000_000_000_000_000_000,
    ;
    assert(is_threshold(23, 200)) by (nonlinear_arith)
        requires
            power_of_ten(23) == 100_000_000_000_000_000_000_000,
    ;
    assert(is_threshold(24, 252)) by (nonlinear_arith)
        requires
            power_of_ten(24) == 1_000_000_000_000_000_000_000_000,
    ;
    assert(is_threshold(25, 317)) by (nonlinear_arith)
        requires
            power_of_ten(25) == 10_000_000_000_000_000_000_000_000,
    ;
    assert(is_threshold(26, 399)) by (nonlinear_arith)
        requires
            power_of_ten(26) == 100_000_000_000_000_000_000_000_000,
    ;
    assert(is_threshold(27, 502)) by (nonlinear_arith)
        requires
            power_of_ten(27) == 1_000_000_000_000_000_000_000_000_000,
    ;
    assert(is_threshold(28, 631)) by (nonlinear_arith)
        requires
            power_of_ten(28) == 10_000_000_000_000_000_000_000_000_000,
    ;
    assert(is_threshold(29, 795)) by (nonlinear_arith)
        requires
            power_of_ten(29) == 100_000_000_000_000_000_000_000_000_000,
    ;
    assert(is_threshold(30, 1_000)) by (nonlinear_arith)
        requires
            power_of_ten(30) == 1_000_000_000_000_000_000_000_000_000_000,
    ;
    assert forall|k: int| 20 < k <= 30 implies is_threshold(
        k as nat,
        #[trigger] LEVEL_THRESHOLDS[k] as int,
    ) by {
        if k == 21 {
            assert(LEVEL_THRESHOLDS[21] == 126);
        } else if k == 22 {
            assert(LEVEL_THRESHOLDS[22] == 159);
        } else if k == 23 {
            assert(LEVEL_THRESHOLDS[23] == 200);
        } else if k == 24 {
            assert(LEVEL_THRESHOLDS[24] == 252);
        } else if k == 25 {
            assert(LEVEL_THRESHOLDS[25] == 317);
        } else if k == 26 {
            assert(LEVEL_THRESHOLDS[26] == 399);
        } else if k == 27 {
            assert(LEVEL_THRESHOLDS[27] == 502);
        } else if k == 28 {
            assert(LEVEL_THRESHOLDS[28] == 631);
        } else if k == 29 {
            assert(LEVEL_THRESHOLDS[29] == 795);
        } else if k == 30 {
            assert(LEVEL_THRESHOLDS[30] == 1_000);
        }
    }
}

proof fn lemma_thresholds_31_to_40()
    ensures
        power_of_ten(40) == 10_000_000_000_000_000_000_000_000_000_000_000_000_000,
        forall|k: int|
            30 < k <= 40 ==> is_threshold(k as nat, #[trigger] LEVEL_THRESHOLDS[k] as int),
{
    lemma_thresholds_21_to_30();
    assert(power_of_ten(31) == 10_000_000_000_000_000_000_000_000_000_000);
    assert(power_of_ten(32) == 100_000_000_000_000_000_000_000_000_000_000);
    assert(power_of_ten(33) == 1_000_000_000_000_000_000_000_000_000_000_000);
    assert(power_of_ten(34) == 10_000_000_000_000_000_000_000_000_000_000_000);
    assert(power_of_ten(35) == 100_000_000_000_000_000_000_000_000_000_000_000);
    assert(power_of_ten(36) == 1_000_000_000_000_000_000_000_000_000_000_000_000);
    assert(power_of_ten(37) == 10_000_000_000_000_000_000_000_000_000_000_000_000);
    assert(power_of_ten(38) == 100_000_000_000_000_000_000_000_000_000_000_000_000);
    assert(power_of_ten(39) == 1_000_000_000_000_000_000_000_000_000_000_000_000_000);
    assert(power_of_ten(40) == 10_000_000_000_000_000_000_000_000_000_000_000_000_000);
    assert(is_threshold(31, 1_259)) by (nonlinear_arith)
        requires
            power_of_ten(31) == 10_000_000_000_000_000_000_000_000_000_000,
    ;
    assert(is_threshold(32, 1_585)) by (nonlinear_arith)
        requires
            power_of_ten(32) == 100_000_000_000_000_000_000_000_000_000_000,
    ;
    assert(is_threshold(33, 1_996)) by (nonlinear_arith)
        requires
            power_of_ten(33) == 1_000_000_000_000_000_000_000_000_000_000_000,
    ;
    assert(is_threshold(34, 2_512)) by (nonlinear_arith)
        requires
            power_of_ten(34) == 10_000_000_000_000_000_000_000_000_000_000_000,
    ;
    assert(is_threshold(35, 3_163)) by (nonlinear_arith)
        requires
            power_of_ten(35) == 100_000_000_000_000_000_000_000_000_000_000_000,
    ;
    assert(is_threshold(36, 3_982)) by (nonlinear_arith)
        requires
            power_of_ten(36) == 1_000_000_000_000_000_000_000_000_000_000_000_000,
    ;
    assert(is_threshold(37, 5_012)) by (nonlinear_arith)
        requires
            power_of_ten(37) == 10_000_000_000_000_000_000_000_000_000_000_000_000,
    ;
    assert(is_threshold(38, 6_310)) by (nonlinear_arith)
        requires
            power_of_ten(38) == 100_000_000_000_000_000_000_000_000_000_000_000_000,
    ;
    assert(is_threshold(39, 7_944)) by (nonlinear_arith)
        requires
            power_of_ten(39) == 1_000_000_000_000_000_000_000_000_000_000_000_000_000,
    ;
    assert(is_threshold(40, 10_000)) by (nonlinear_arith)
        requires
            power_of_ten(40) == 10_000_000_000_000_000_000_000_000_000_000_000_000_000,
    ;
    assert forall|k: int| 30 < k <= 40 implies is_threshold(
        k as nat,
        #[trigger] LEVEL_THRESHOLDS[k] as int,
    ) by {
        if k == 31 {
            assert(LEVEL_THRESHOLDS[31] == 1_259);
        } else if k == 32 {
            assert(LEVEL_THRESHOLDS[32] == 1_585);
        } else if k == 33 {
            assert(LEVEL_THRESHOLDS[33] == 1_996);
        } else if k == 34 {
            assert(LEVEL_THRESHOLDS[34] == 2_512);
        } else if k == 35 {
            assert(LEVEL_THRESHOLDS[35] == 3_163);
        } else if k == 36 {
            assert(LEVEL_THRESHOLDS[36] == 3_982);
        } else if k == 37 {
            assert(LEVEL_THRESHOLDS[37] == 5_012);
        } else if k == 38 {
            assert(LEVEL_THRESHOLDS[38] == 6_310);
        } else if k == 39 {
            assert(LEVEL_THRESHOLDS[39] == 7_944);
        } else if k == 40 {
            assert(LEVEL_THRESHOLDS[40] == 10_000);
        }
    }
}

proof fn lemma_thresholds_41_to_50()
    ensures
        power_of_ten(50) == 100_000_000_000_000_000_000_000_000_000_000_000_000_000_000_000_000,
        forall|k: int|
            40 < k <= 50 ==> is_threshold(k as nat, #[trigger] LEVEL_THRESHOLDS[k] as int),
{
    lemma_thresholds_31_to_40();
    assert(power_of_ten(41) == 100_000_000_000_000_000_000_000_000_000_000_000_000_000);
    assert(power_of_ten(42) == 1_000_000_000_000_000_000_000_000_000_000_000_000_000_000);
    assert(power_of_ten(43) == 10_000_000_000_000_000_000_000_000_000_000_000_000_000_000);
    assert(power_of_ten(44) == 100_000_000_000_000_000_000_000_000_000_000_000_000_000_000);
    assert(power_of_ten(45) == 1_000_000_000_000_000_000_000_000_000_000_000_000_000_000_000);
    assert(power_of_ten(46) == 10_000_000_000_000_000_000_000_000_000_000_000_000_000_000_000);
    assert(power_of_ten(47) == 100_000_000_000_000_000_000_000_000_000_000_000_000_000_000_000);
    assert(power_of_ten(48) == 1_000_000_000_000_000_000_000_000_000_000_000_000_000_000_000_000);
    assert(power_of_ten(49) == 10_000_000_000_000_000_000_000_000_000_000_000_000_000_000_000_000);
    assert(power_of_ten(50) == 100_000_000_000_000_000_000_000_000_000_000_000_000_000_000_000_000);
    assert(is_threshold(41, 12_590)) by (nonlinear_arith)
        requires
            power_of_ten(41) == 100_000_000_000_000_000_000_000_000_000_000_000_000_000,
    ;
    assert(is_threshold(42, 15_849)) by (nonlinear_arith)
        requires
            power_of_ten(42) == 1_000_000_000_000_000_000_000_000_000_000_000_000_000_000,
    ;
    assert(is_threshold(43, 19_953)) by (nonlinear_arith)
        requires
            power_of_ten(43) == 10_000_000_000_000_000_000_000_000_000_000_000_000_000_000,
    ;
    assert(is_threshold(44, 25_119)) by (nonlinear_arith)
        requires
            power_of_ten(44) == 100_000_000_000_000_000_000_000_000_000_000_000_000_000_000,
    ;
    assert(is_threshold(45, 31_623)) by (nonlinear_arith)
        requires
            power_of_ten(45) == 1_000_000_000_000_000_000_000_000_000_000_000_000_000_000_000,
    ;
    assert(is_threshold(46, 39_811)) by (nonlinear_arith)
        requires
            power_of_ten(46) == 10_000_000_000_000_000_000_000_000_000_000_000_000_000_000_000,
    ;
    assert(is_threshold(47, 50_119)) by (nonlinear_arith)
        requires
            power_of_ten(47) == 100_000_000_000_000_000_000_000_000_000_000_000_000_000_000_000,
    ;
    assert(is_threshold(48, 63_096)) by (nonlinear_arith)
        requires
            power_of_ten(48) == 1_000_000_000_000_000_000_000_000_000_000_000_000_000_000_000_000,
    ;
    assert(is_threshold(49, 79_433)) by (nonlinear_arith)
        requires
            power_of_ten(49) == 10_000_000_000_000_000_000_000_000_000_000_000_000_000_000_000_000,
    ;
    assert(is_threshold(50, 100_000)) by (nonlinear_arith)
        requires
            power_of_ten(50) == 100_000_000_000_000_000_000_000_000_000_000_000_000_000_000_000_000,
    ;
    assert forall|k: int| 40 < k <= 50 implies is_threshold(
        k as nat,
        #[trigger] LEVEL_THRESHOLDS[k] as int,
    ) by {
        if k == 41 {
            assert(LEVEL_THRESHOLDS[41] == 12_590);
        } else if k == 42 {
            assert(LEVEL_THRESHOLDS[42] == 15_849);
        } else if k == 43 {
            assert(LEVEL_THRESHOLDS[43] == 19_953);
        } else if k == 44 {
            assert(LEVEL_THRESHOLDS[44] == 25_119);
        } else if k == 45 {
            assert(LEVEL_THRESHOLDS[45] == 31_623);
        } else if k == 46 {
            assert(LEVEL_THRESHOLDS[46] == 39_811);
        } else if k == 47 {
            assert(LEVEL_THRESHOLDS[47] == 50_119);
        } else if k == 48 {
            assert(LEVEL_THRESHOLDS[48] == 63_096);
        } else if k == 49 {
            assert(LEVEL_THRESHOLDS[49] == 79_433);
        } else if k == 50 {
            assert(LEVEL_THRESHOLDS[50] == 100_000);
        }
    }
}

proof fn lemma_thresholds_51_to_60()
    ensures
        power_of_ten(60) == 1_000_000_000_000_000_000_000_000_000_000_000_000_000_000_000_000_000_000_000_000,
        forall|k: int|
            50 < k <= 60 ==> is_threshold(k as nat, #[trigger] LEVEL_THRESHOLDS[k] as int),
{
    lemma_thresholds_41_to_50();
    assert(power_of_ten(51) == 1_000_000_000_000_000_000_000_000_000_000_000_000_000_000_000_000_000);
    assert(power_of_ten(52) == 10_000_000_000_000_000_000_000_000_000_000_000_000_000_000_000_000_000);
    assert(power_of_ten(53) == 100_000_000_000_000_000_000_000_000_000_000_000_000_000_000_000_000_000);
    assert(power_of_ten(54) == 1_000_000_000_000_000_000_000_000_000_000_000_000_000_000_000_000_000_000);
    assert(power_of_ten(55) == 10_000_000_000_000_000_000_000_000_000_000_000_000_000_000_000_000_000_000);
    assert(power_of_ten(56) == 100_000_000_000_000_000_000_000_000_000_000_000_000_000_000_000_000_000_000);
    assert(power_of_ten(57) == 1_000_000_000_000_000_000_000_000_000_000_000_000_000_000_000_000_000_000_000);
    assert(power_of_ten(58) == 10_000_000_000_000_000_000_000_000_000_000_000_000_000_000_000_000_000_000_000);
    assert(power_of_ten(59) == 100_000_000_000_000_000_000_000_000_000_000_000_000_000_000_000_000_000_000_000);
    assert(power_of_ten(60) == 1_000_000_000_000_000_000_000_000_000_000_000_000_000_000_000_000_000_000_000_000);
    assert(is_threshold(51, 125_893)) by (nonlinear_arith)
        requires
            power_of_ten(51) == 1_000_000_000_000_000_000_000_000_000_000_000_000_000_000_000_000_000,
    ;
    assert(is_threshold(52, 158_490)) by (nonlinear_arith)
        requires
            power_of_ten(52) == 10_000_000_000_000_000_000_000_000_000_000_000_000_000_000_000_000_000,
    ;
    assert(is_threshold(53, 199_527)) by (nonlinear_arith)
        requires
            power_of_ten(53) == 100_000_000_000_000_000_000_000_000_000_000_000_000_000_000_000_000_000,
    ;
    assert(is_threshold(54, 251_189)) by (nonlinear_arith)
        requires
            power_of_ten(54) == 1_000_000_000_000_000_000_000_000_000_000_000_000_000_000_000_000_000_000,
    ;
    assert(is_threshold(55, 316_228)) by (nonlinear_arith)
        requires
            power_of_ten(55) == 10_000_000_000_000_000_000_000_000_000_000_000_000_000_000_000_000_000_000,
    ;
    assert(is_threshold(56, 398_108)) by (nonlinear_arith)
        requires
            power_of_ten(56) == 100_000_000_000_000_000_000_000_000_000_000_000_000_000_000_000_000_000_000,
    ;
    assert(is_threshold(57, 501_188)) by (nonlinear_arith)
        requires
            power_of_ten(57) == 1_000_000_000_000_000_000_000_000_000_000_000_000_000_000_000_000_000_000_000,
    ;
    assert(is_threshold(58, 630_958)) by (nonlinear_arith)
        requires
            power_of_ten(58) == 10_000_000_000_000_000_000_000_000_000_000_000_000_000_000_000_000_000_000_000,
    ;
    assert(is_threshold(59, 794_329)) by (nonlinear_arith)
        requires
            power_of_ten(59) == 100_000_000_000_000_000_000_000_000_000_000_000_000_000_000_000_000_000_000_000,
    ;
    assert(is_threshold(60, 1_000_000)) by (nonlinear_arith)
        requires
            power_of_ten(60) == 1_000_000_000_000_000_000_000_000_000_000_000_000_000_000_000_000_000_000_000_000,
    ;
    assert forall|k: int| 50 < k <= 60 implies is_threshold(
        k as nat,
        #[trigger] LEVEL_THRESHOLDS[k] as int,
    ) by {
        if k == 51 {
            assert(LEVEL_THRESHOLDS[51] == 125_893);
        } else if k == 52 {
            assert(LEVEL_THRESHOLDS[52] == 158_490);
        } else if k == 53 {
            assert(LEVEL_THRESHOLDS[53] == 199_527);
        } else if k == 54 {
            assert(LEVEL_THRESHOLDS[54] == 251_189);
        } else if k == 55 {
            assert(LEVEL_THRESHOLDS[55] == 316_228);
        } else if k == 56 {
            assert(LEVEL_THRESHOLDS[56] == 398_108);
        } else if k == 57 {
            assert(LEVEL_THRESHOLDS[57] == 501_188);
        } else if k == 58 {
            assert(LEVEL_THRESHOLDS[58] == 630_958);
        } else if k == 59 {
            assert(LEVEL_THRESHOLDS[59] == 794_329);
        } else if k == 60 {
            assert(LEVEL_THRESHOLDS[60] == 1_000_000);
        }
    }
}

proof fn lemma_thresholds_61_to_70()
    ensures
        power_of_ten(70) == 10_000_000_000_000_000_000_000_000_000_000_000_000_000_000_000_000_000_000_000_000_000_000_000,
        forall|k: int|
            60 < k <= 70 ==> is_threshold(k as nat, #[trigger] LEVEL_THRESHOLDS[k] as int),
{
    lemma_thresholds_51_to_60();
    assert(power_of_ten(61) == 10_000_000_000_000_000_000_000_000_000_000_000_000_000_000_000_000_000_000_000_000);
    assert(power_of_ten(62) == 100_000_000_000_000_000_000_000_000_000_000_000_000_000_000_000_000_000_000_000_000);
    assert(power_of_ten(63) == 1_000_000_000_000_000_000_000_000_000_000_000_000_000_000_000_000_000_000_000_000_000);
    assert(power_of_ten(64) == 10_000_000_000_000_000_000_000_000_000_000_000_000_000_000_000_000_000_000_000_000_000);
    assert(power_of_ten(65) == 100_000_000_000_000_000_000_000_000_000_000_000_000_000_000_000_000_000_000_000_000_000);
    assert(power_of_ten(66) == 1_000_000_000_000_000_000_000_000_000_000_000_000_000_000_000_000_000_000_000_000_000_000);
    assert(power_of_ten(67) == 10_000_000_000_000_000_000_000_000_000_000_000_000_000_000_000_000_000_000_000_000_000_000);
    assert(power_of_ten(68) == 100_000_000_000_000_000_000_000_000_000_000_000_000_000_000_000_000_000_000_000_000_000_000);
    assert(power_of_ten(69) == 1_000_000_000_000_000_000_000_000_000_000_000_000_000_000_000_000_000_000_000_000_000_000_000);
    assert(power_of_ten(70) == 10_000_000_000_000_000_000_000_000_000_000_000_000_000_000_000_000_000_000_000_000_000_000_000);
    assert(is_threshold(61, 1_258_926)) by (nonlinear_arith)
        requires
            power_of_ten(61) == 10_000_000_000_000_000_000_000_000_000_000_000_000_000_000_000_000_000_000_000_000,
    ;
    assert(is_threshold(62, 1_584_894)) by (nonlinear_arith)
        requires
            power_of_ten(62) == 100_000_000_000_000_000_000_000_000_000_000_000_000_000_000_000_000_000_000_000_000,
    ;
    assert(is_threshold(63, 1_995_263)) by (nonlinear_arith)
        requires
            power_of_ten(63) == 1_000_000_000_000_000_000_000_000_000_000_000_000_000_000_000_000_000_000_000_000_000,
    ;
    assert(is_threshold(64, 2_511_887)) by (nonlinear_arith)
        requires
            power_of_ten(64) == 10_000_000_000_000_000_000_000_000_000_000_000_000_000_000_000_000_000_000_000_000_000,
    ;
    assert(is_threshold(65, 3_162_278)) by (nonlinear_arith)
        requires
            power_of_ten(65) == 100_000_000_000_000_000_000_000_000_000_000_000_000_000_000_000_000_000_000_000_000_000,
    ;
    assert(is_threshold(66, 3_981_072)) by (nonlinear_arith)
        requires
            power_of_ten(66) == 1_000_000_000_000_000_000_000_000_000_000_000_000_000_000_000_000_000_000_000_000_000_000,
    ;
    assert(is_threshold(67, 5_011_873)) by (nonlinear_arith)
        requires
            power_of_ten(67) == 10_000_000_000_000_000_000_000_000_000_000_000_000_000_000_000_000_000_000_000_000_000_000,
    ;
    assert(is_threshold(68, 6_309_574)) by (nonlinear_arith)
        requires
            power_of_ten(68) == 100_000_000_000_000_000_000_000_000_000_000_000_000_000_000_000_000_000_000_000_000_000_000,
    ;
    assert(is_threshold(69, 7_943_283)) by (nonlinear_arith)
        requires
            power_of_ten(69) == 1_000_000_000_000_000_000_000_000_000_000_000_000_000_000_000_000_000_000_000_000_000_000_000,
    ;
    assert(is_threshold(70, 10_000_000)) by (nonlinear_arith)
        requires
            power_of_ten(70) == 10_000_000_000_000_000_000_000_000_000_000_000_000_000_000_000_000_000_000_000_000_000_000_000,
    ;
    assert forall|k: int| 60 < k <= 70 implies is_threshold(
        k as nat,
        #[trigger] LEVEL_THRESHOLDS[k] as int,
    ) by {
        if k == 61 {
            assert(LEVEL_THRESHOLDS[61] == 1_258_926);
        } else if k == 62 {
            assert(LEVEL_THRESHOLDS[62] == 1_584_894);
        } else if k == 63 {
            assert(LEVEL_THRESHOLDS[63] == 1_995_263);
        } else if k == 64 {
            assert(LEVEL_THRESHOLDS[64] == 2_511_887);
        } else if k == 65 {
            assert(LEVEL_THRESHOLDS[65] == 3_162_278);
        } else if k == 66 {
            assert(LEVEL_THRESHOLDS[66] == 3_981_072);
        } else if k == 67 {
            assert(LEVEL_THRESHOLDS[67] == 5_011_873);
        } else if k == 68 {
            assert(LEVEL_THRESHOLDS[68] == 6_309_574);
        } else if k == 69 {
            assert(LEVEL_THRESHOLDS[69] == 7_943_283);
        } else if k == 70 {
            assert(LEVEL_THRESHOLDS[70] == 10_000_000);
        }
    }
}

proof fn lemma_thresholds_71_to_80()
    ensures
        power_of_ten(80) == 100_000_000_000_000_000_000_000_000_000_000_000_000_000_000_000_000_000_000_000_000_000_000_000_000_000_000,
        forall|k: int|
            70 < k <= 80 ==> is_threshold(k as nat, #[trigger] LEVEL_THRESHOLDS[k] as int),
{
    lemma_thresholds_61_to_70();
    assert(power_of_ten(71) == 100_000_000_000_000_000_000_000_000_000_000_000_000_000_000_000_000_000_000_000_000_000_000_000);
    assert(power_of_ten(72) == 1_000_000_000_000_000_000_000_000_000_000_000_000_000_000_000_000_000_000_000_000_000_000_000_000);
    assert(power_of_ten(73) == 10_000_000_000_000_000_000_000_000_000_000_000_000_000_000_000_000_000_000_000_000_000_000_000_000);
    assert(power_of_ten(74) == 100_000_000_000_000_000_000_000_000_000_000_000_000_000_000_000_000_000_000_000_000_000_000_000_000);
    assert(power_of_ten(75) == 1_000_000_000_000_000_000_000_000_000_000_000_000_000_000_000_000_000_000_000_000_000_000_000_000_000);
    assert(power_of_ten(76) == 10_000_000_000_000_000_000_000_000_000_000_000_000_000_000_000_000_000_000_000_000_000_000_000_000_000);
    assert(power_of_ten(77) == 100_000_000_000_000_000_000_000_000_000_000_000_000_000_000_000_000_000_000_000_000_000_000_000_000_000);
    assert(power_of_ten(78) == 1_000_000_000_000_000_000_000_000_000_000_000_000_000_000_000_000_000_000_000_000_000_000_000_000_000_000);
    assert(power_of_ten(79) == 10_000_000_000_000_000_000_000_000_000_000_000_000_000_000_000_000_000_000_000_000_000_000_000_000_000_000);
    assert(power_of_ten(80) == 100_000_000_000_000_000_000_000_000_000_000_000_000_000_000_000_000_000_000_000_000_000_000_000_000_000_000);
    assert(is_threshold(71, 12_589_255)) by (nonlinear_arith)
        requires
            power_of_ten(71) == 100_000_000_000_000_000_000_000_000_000_000_000_000_000_000_000_000_000_000_000_000_000_000_000,
    ;
    assert(is_threshold(72, 15_848_932)) by (nonlinear_arith)
        requires
            power_of_ten(72) == 1_000_000_000_000_000_000_000_000_000_000_000_000_000_000_000_000_000_000_000_000_000_000_000_000,
    ;
    assert(is_threshold(73, 19_952_624)) by (nonlinear_arith)
        requires
            power_of_ten(73) == 10_000_000_000_000_000_000_000_000_000_000_000_000_000_000_000_000_000_000_000_000_000_000_000_000,
    ;
    assert(is_threshold(74, 25_118_865)) by (nonlinear_arith)
        requires
            power_of_ten(74) == 100_000_000_000_000_000_000_000_000_000_000_000_000_000_000_000_000_000_000_000_000_000_000_000_000,
    ;
    assert(is_threshold(75, 31_622_777)) by (nonlinear_arith)
        requires
            power_of_ten(75) == 1_000_000_000_000_000_000_000_000_000_000_000_000_000_000_000_000_000_000_000_000_000_000_000_000_000,
    ;
    assert(is_threshold(76, 39_810_718)) by (nonlinear_arith)
        requires
            power_of_ten(76) == 10_000_000_000_000_000_000_000_000_000_000_000_000_000_000_000_000_000_000_000_000_000_000_000_000_000,
    ;
    assert(is_threshold(77, 50_118_724)) by (nonlinear_arith)
        requires
            power_of_ten(77) == 100_000_000_000_000_000_000_000_000_000_000_000_000_000_000_000_000_000_000_000_000_000_000_000_000_000,
    ;
    assert(is_threshold(78, 63_095_735)) by (nonlinear_arith)
        requires
            power_of_ten(78) == 1_000_000_000_000_000_000_000_000_000_000_000_000_000_000_000_000_000_000_000_000_000_000_000_000_000_000,
    ;
    assert(is_threshold(79, 79_432_824)) by (nonlinear_arith)
        requires
            power_of_ten(79) == 10_000_000_000_000_000_000_000_000_000_000_000_000_000_000_000_000_000_000_000_000_000_000_000_000_000_000,
    ;
    assert(is_threshold(80, 100_000_000)) by (nonlinear_arith)
        requires
            power_of_ten(80) == 100_000_000_000_000_000_000_000_000_000_000_000_000_000_000_000_000_000_000_000_000_000_000_000_000_000_000,
    ;
    assert forall|k: int| 70 < k <= 80 implies is_threshold(
        k as nat,
        #[trigger] LEVEL_THRESHOLDS[k] as int,
    ) by {
        if k == 71 {
            assert(LEVEL_THRESHOLDS[71] == 12_589_255);
        } else if k == 72 {
            assert(LEVEL_THRESHOLDS[72] == 15_848_932);
        } else if k == 73 {
            assert(LEVEL_THRESHOLDS[73] == 19_952_624);
        } else if k == 74 {
            assert(LEVEL_THRESHOLDS[74] == 25_118_865);
        } else if k == 75 {
            assert(LEVEL_THRESHOLDS[75] == 31_622_777);
        } else if k == 76 {
            assert(LEVEL_THRESHOLDS[76] == 39_810_718);
        } else if k == 77 {
            assert(LEVEL_THRESHOLDS[77] == 50_118_724);
        } else if k == 78 {
            assert(LEVEL_THRESHOLDS[78] == 63_095_735);
        } else if k == 79 {
            assert(LEVEL_THRESHOLDS[79] == 79_432_824);
        } else if k == 80 {
            assert(LEVEL_THRESHOLDS[80] == 100_000_000);
        }
    }
}

proof fn lemma_thresholds_81_to_90()
    ensures
        power_of_ten(90) == 1_000_000_000_000_000_000_000_000_000_000_000_000_000_000_000_000_000_000_000_000_000_000_000_000_000_000_000_000_000_000,
        forall|k: int|
            80 < k <= 90 ==> is_threshold(k as nat, #[trigger] LEVEL_THRESHOLDS[k] as int),
{
    lemma_thresholds_71_to_80();
    assert(power_of_ten(81) == 1_000_000_000_000_000_000_000_000_000_000_000_000_000_000_000_000_000_000_000_000_000_000_000_000_000_000_000);
    assert(power_of_ten(82) == 10_000_000_000_000_000_000_000_000_000_000_000_000_000_000_000_000_000_000_000_000_000_000_000_000_000_000_000);
    assert(power_of_ten(83) == 100_000_000_000_000_000_000_000_000_000_000_000_000_000_000_000_000_000_000_000_000_000_000_000_000_000_000_000);
    assert(power_of_ten(84) == 1_000_000_000_000_000_000_000_000_000_000_000_000_000_000_000_000_000_000_000_000_000_000_000_000_000_000_000_000);
    assert(power_of_ten(85) == 10_000_000_000_000_000_000_000_000_000_000_000_000_000_000_000_000_000_000_000_000_000_000_000_000_000_000_000_000);
    assert(power_of_ten(86) == 100_000_000_000_000_000_000_000_000_000_000_000_000_000_000_000_000_000_000_000_000_000_000_000_000_000_000_000_000);
    assert(power_of_ten(87) == 1_000_000_000_000_000_000_000_000_000_000_000_000_000_000_000_000_000_000_000_000_000_000_000_000_000_000_000_000_000);
    assert(power_of_ten(88) == 10_000_000_000_000_000_000_000_000_000_000_000_000_000_000_000_000_000_000_000_000_000_000_000_000_000_000_000_000_000);
    assert(power_of_ten(89) == 100_000_000_000_000_000_000_000_000_000_000_000_000_000_000_000_000_000_000_000_000_000_000_000_000_000_000_000_000_000);
    assert(power_of_ten(90) == 1_000_000_000_000_000_000_000_000_000_000_000_000_000_000_000_000_000_000_000_000_000_000_000_000_000_000_000_000_000_000);
    assert(is_threshold(81, 125_892_542)) by (nonlinear_arith)
        requires
            power_of_ten(81) == 1_000_000_000_000_000_000_000_000_000_000_000_000_000_000_000_000_000_000_000_000_000_000_000_000_000_000_000,
    ;
    assert(is_threshold(82, 158_489_320)) by (nonlinear_arith)
        requires
            power_of_ten(82) == 10_000_000_000_000_000_000_000_000_000_000_000_000_000_000_000_000_000_000_000_000_000_000_000_000_000_000_000,
    ;
    assert(is_threshold(83, 199_526_232)) by (nonlinear_arith)
        requires
            power_of_ten(83) == 100_000_000_000_000_000_000_000_000_000_000_000_000_000_000_000_000_000_000_000_000_000_000_000_000_000_000_000,
    ;
    assert(is_threshold(84, 251_188_644)) by (nonlinear_arith)
        requires
            power_of_ten(84) == 1_000_000_000_000_000_000_000_000_000_000_000_000_000_000_000_000_000_000_000_000_000_000_000_000_000_000_000_000,
    ;
    assert(is_threshold(85, 316_227_767)) by (nonlinear_arith)
        requires
            power_of_ten(85) == 10_000_000_000_000_000_000_000_000_000_000_000_000_000_000_000_000_000_000_000_000_000_000_000_000_000_000_000_000,
    ;
    assert(is_threshold(86, 398_107_171)) by (nonlinear_arith)
        requires
            power_of_ten(86) == 100_000_000_000_000_000_000_000_000_000_000_000_000_000_000_000_000_000_000_000_000_000_000_000_000_000_000_000_000,
    ;
    assert(is_threshold(87, 501_187_234)) by (nonlinear_arith)
        requires
            power_of_ten(87) == 1_000_000_000_000_000_000_000_000_000_000_000_000_000_000_000_000_000_000_000_000_000_000_000_000_000_000_000_000_000,
    ;
    assert(is_threshold(88, 630_957_345)) by (nonlinear_arith)
        requires
            power_of_ten(88) == 10_000_000_000_000_000_000_000_000_000_000_000_000_000_000_000_000_000_000_000_000_000_000_000_000_000_000_000_000_000,
    ;
    assert(is_threshold(89, 794_328_235)) by (nonlinear_arith)
        requires
            power_of_ten(89) == 100_000_000_000_000_000_000_000_000_000_000_000_000_000_000_000_000_000_000_000_000_000_000_000_000_000_000_000_000_000,
    ;
    assert(is_threshold(90, 1_000_000_000)) by (nonlinear_arith)
        requires
            power_of_ten(90) == 1_000_000_000_000_000_000_000_000_000_000_000_000_000_000_000_000_000_000_000_000_000_000_000_000_000_000_000_000_000_000,
    ;
    assert forall|k: int| 80 < k <= 90 implies is_threshold(
        k as nat,
        #[trigger] LEVEL_THRESHOLDS[k] as int,
    ) by {
        if k == 81 {
            assert(LEVEL_THRESHOLDS[81] == 125_892_542);
        } else if k == 82 {
            assert(LEVEL_THRESHOLDS[82] == 158_489_320);
        } else if k == 83 {
            assert(LEVEL_THRESHOLDS[83] == 199_526_232);
        } else if k == 84 {
            assert(LEVEL_THRESHOLDS[84] == 251_188_644);
        } else if k == 85 {
            assert(LEVEL_THRESHOLDS[85] == 316_227_767);
        } else if k == 86 {
            assert(LEVEL_THRESHOLDS[86] == 398_107_171);
        } else if k == 87 {
            assert(LEVEL_THRESHOLDS[87] == 501_187_234);
        } else if k == 88 {
            assert(LEVEL_THRESHOLDS[88] == 630_957_345);
        } else if k == 89 {
            assert(LEVEL_THRESHOLDS[89] == 794_328_235);
        } else if k == 90 {
            assert(LEVEL_THRESHOLDS[90] == 1_000_000_000);
        }
    }
}

proof fn lemma_thresholds_91_to_100()
    ensures
        power_of_ten(100) == 10_000_000_000_000_000_000_000_000_000_000_000_000_000_000_000_000_000_000_000_000_000_000_000_000_000_000_000_000_000_000_000_000_000,
        forall|k: int|
            90 < k <= 100 ==> is_threshold(k as nat, #[trigger] LEVEL_THRESHOLDS[k] as int),
{
    lemma_thresholds_81_to_90();
    assert(power_of_ten(91) == 10_000_000_000_000_000_000_000_000_000_000_000_000_000_000_000_000_000_000_000_000_000_000_000_000_000_000_000_000_000_000);
    assert(power_of_ten(92) == 100_000_000_000_000_000_000_000_000_000_000_000_000_000_000_000_000_000_000_000_000_000_000_000_000_000_000_000_000_000_000);
    assert(power_of_ten(93) == 1_000_000_000_000_000_000_000_000_000_000_000_000_000_000_000_000_000_000_000_000_000_000_000_000_000_000_000_000_000_000_000);
    assert(power_of_ten(94) == 10_000_000_000_000_000_000_000_000_000_000_000_000_000_000_000_000_000_000_000_000_000_000_000_000_000_000_000_000_000_000_000);
    assert(power_of_ten(95) == 100_000_000_000_000_000_000_000_000_000_000_000_000_000_000_000_000_000_000_000_000_000_000_000_000_000_000_000_000_000_000_000);
    assert(power_of_ten(96) == 1_000_000_000_000_000_000_000_000_000_000_000_000_000_000_000_000_000_000_000_000_000_000_000_000_000_000_000_000_000_000_000_000);
    assert(power_of_ten(97) == 10_000_000_000_000_000_000_000_000_000_000_000_000_000_000_000_000_000_000_000_000_000_000_000_000_000_000_000_000_000_000_000_000);
    assert(power_of_ten(98) == 100_000_000_000_000_000_000_000_000_000_000_000_000_000_000_000_000_000_000_000_000_000_000_000_000_000_000_000_000_000_000_000_000);
    assert(power_of_ten(99) == 1_000_000_000_000_000_000_000_000_000_000_000_000_000_000_000_000_000_000_000_000_000_000_000_000_000_000_000_000_000_000_000_000_000);
    assert(power_of_ten(100) == 10_000_000_000_000_000_000_000_000_000_000_000_000_000_000_000_000_000_000_000_000_000_000_000_000_000_000_000_000_000_000_000_000_000);
    assert(is_threshold(91, 1_258_925_412)) by (nonlinear_arith)
        requires
            power_of_ten(91) == 10_000_000_000_000_000_000_000_000_000_000_000_000_000_000_000_000_000_000_000_000_000_000_000_000_000_000_000_000_000_000,
    ;
    assert(is_threshold(92, 1_584_893_193)) by (nonlinear_arith)
        requires
            power_of_ten(92) == 100_000_000_000_000_000_000_000_000_000_000_000_000_000_000_000_000_000_000_000_000_000_000_000_000_000_000_000_000_000_000,
    ;
    assert(is_threshold(93, 1_995_262_315)) by (nonlinear_arith)
        requires
            power_of_ten(93) == 1_000_000_000_000_000_000_000_000_000_000_000_000_000_000_000_000_000_000_000_000_000_000_000_000_000_000_000_000_000_000_000,
    ;
    assert(is_threshold(94, 2_511_886_432)) by (nonlinear_arith)
        requires
            power_of_ten(94) == 10_000_000_000_000_000_000_000_000_000_000_000_000_000_000_000_000_000_000_000_000_000_000_000_000_000_000_000_000_000_000_000,
    ;
    assert(is_threshold(95, 3_162_277_661)) by (nonlinear_arith)
        requires
            power_of_ten(95) == 100_000_000_000_000_000_000_000_000_000_000_000_000_000_000_000_000_000_000_000_000_000_000_000_000_000_000_000_000_000_000_000,
    ;
    assert(is_threshold(96, 3_981_071_706)) by (nonlinear_arith)
        requires
            power_of_ten(96) == 1_000_000_000_000_000_000_000_000_000_000_000_000_000_000_000_000_000_000_000_000_000_000_000_000_000_000_000_000_000_000_000_000,
    ;
    assert(is_threshold(97, 5_011_872_337)) by (nonlinear_arith)
        requires
            power_of_ten(97) == 10_000_000_000_000_000_000_000_000_000_000_000_000_000_000_000_000_000_000_000_000_000_000_000_000_000_000_000_000_000_000_000_000,
    ;
    assert(is_threshold(98, 6_309_573_445)) by (nonlinear_arith)
        requires
            power_of_ten(98) == 100_000_000_000_000_000_000_000_000_000_000_000_000_000_000_000_000_000_000_000_000_000_000_000_000_000_000_000_000_000_000_000_000,
    ;
    assert(is_threshold(99, 7_943_282_348)) by (nonlinear_arith)
        requires
            power_of_ten(99) == 1_000_000_000_000_000_000_000_000_000_000_000_000_000_000_000_000_000_000_000_000_000_000_000_000_000_000_000_000_000_000_000_000_000,
    ;
    assert(is_threshold(100, 10_000_000_000)) by (nonlinear_arith)
        requires
            power_of_ten(100) == 10_000_000_000_000_000_000_000_000_000_000_000_000_000_000_000_000_000_000_000_000_000_000_000_000_000_000_000_000_000_000_000_000_000,
    ;
    assert forall|k: int| 90 < k <= 100 implies is_threshold(
        k as nat,
        #[trigger] LEVEL_THRESHOLDS[k] as int,
    ) by {
        if k == 91 {
            assert(LEVEL_THRESHOLDS[91] == 1_258_925_412);
        } else if k == 92 {
            assert(LEVEL_THRESHOLDS[92] == 1_584_893_193);
        } else if k == 93 {
            assert(LEVEL_THRESHOLDS[93] == 1_995_262_315);
        } else if k == 94 {
            assert(LEVEL_THRESHOLDS[94] == 2_511_886_432);
        } else if k == 95 {
            assert(LEVEL_THRESHOLDS[95] == 3_162_277_661);
        } else if k == 96 {
            assert(LEVEL_THRESHOLDS[96] == 3_981_071_706);
        } else if k == 97 {
            assert(LEVEL_THRESHOLDS[97] == 5_011_872_337);
        } else if k == 98 {
            assert(LEVEL_THRESHOLDS[98] == 6_309_573_445);
        } else if k == 99 {
            assert(LEVEL_THRESHOLDS[99] == 7_943_282_348);
        } else if k == 100 {
            assert(LEVEL_THRESHOLDS[100] == 10_000_000_000);
        }
    }
}

/// Every entry of the table is the threshold of its level.
pub proof fn lemma_thresholds()
    ensures
        forall|k: int|
            0 <= k <= 100 ==> is_threshold(k as nat, #[trigger] LEVEL_THRESHOLDS[k] as int),
{
    assert(LEVEL_THRESHOLDS[0] == 1);
    assert(is_threshold(0, 1)) by (nonlinear_arith)
        requires
            power_of_ten(0) == 1,
    ;
    lemma_thresholds_1_to_10();
    lemma_thresholds_11_to_20();
    lemma_thresholds_21_to_30();
    lemma_thresholds_31_to_40();
    lemma_thresholds_41_to_50();
    lemma_thresholds_51_to_60();
    lemma_thresholds_61_to_70();
    lemma_thresholds_71_to_80();
    lemma_thresholds_81_to_90();
    lemma_thresholds_91_to_100();
}

/// A level whose threshold `value` reaches, while it stays below the next
/// threshold, is the tenfold logarithm of `value`.
proof fn lemma_level_found(value: u64, level: int)
    requires
        0 <= level <= 100,
        LEVEL_THRESHOLDS[level] <= value,
        level < 100 ==> value < LEVEL_THRESHOLDS[level + 1],
    ensures
        is_tenfold_log10(value, level),
{
    lemma_thresholds();
    assert(is_threshold(level as nat, LEVEL_THRESHOLDS[level] as int));
    lemma_tenth_power_monotonic(LEVEL_THRESHOLDS[level] as int, value as int);
    if level < 100 {
        assert(is_threshold((level + 1) as nat, LEVEL_THRESHOLDS[level + 1] as int));
        lemma_tenth_power_monotonic(value as int, LEVEL_THRESHOLDS[level + 1] as int - 1);
    }
}

/// Ten times the decimal logarithm of `value`, rounded down and capped at
/// 100.
pub fn tenfold_log10(value: u64) -> (level: u16)
    requires
        value > 0,
    ensures
        is_tenfold_log10(value, level as int),
{
    let mut level: usize = 0;
    assert(LEVEL_THRESHOLDS[0] == 1);
    while level < 100 && LEVEL_THRESHOLDS[level + 1] <= value
        invariant
            0 <= level <= 100,
            LEVEL_THRESHOLDS[level as int] <= value,
        decreases 100 - level,
    {
        level += 1;
    }
    proof {
        lemma_level_found(value, level as int);
    }
    level as u16
}

} // verus!
