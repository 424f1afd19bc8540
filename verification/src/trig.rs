//! Fixed-point trigonometry for the first quadrant and a little beyond.
//!
//! Angles are measured in thousandths of a degree, sines and cosines in
//! millionths. Values between whole degrees are interpolated linearly
//! from a table of ninety-one entries.
use vstd::prelude::*;

verus! {

/// Thousandths of a degree in one degree.
pub const MILLI_PER_DEGREE: i64 = 1000;

/// A right angle, in thousandths of a degree.
pub const RIGHT_ANGLE: i64 = 90_000;

/// A straight angle, in thousandths of a degree.
pub const STRAIGHT_ANGLE: i64 = 180_000;

/// A full turn, in thousandths of a degree.
pub const FULL_TURN: i64 = 360_000;

/// The value that stands for a sine of one.
pub const TRIG_ONE: i64 = 1_000_000;

/// The sine of a whole number of degrees, in millionths, rounded to the
/// nearest. Only `0..=90` is meaningful; every other argument gives the
/// entry for ninety.
#[verifier::opaque]
pub open spec fn sine_table(deg: int) -> int {
    if deg == 0 {
        0
    } else if deg == 1 {
        17452
    } else if deg == 2 {
        34899
    } else if deg == 3 {
        52336
    } else if deg == 4 {
        69756
    } else if deg == 5 {
        87156
    } else if deg == 6 {
        104528
    } else if deg == 7 {
        121869
    } else if deg == 8 {
        139173
    } else if deg == 9 {
        156434
    } else if deg == 10 {
        173648
    } else if deg == 11 {
        190809
    } else if deg == 12 {
        207912
    } else if deg == 13 {
        224951
    } else if deg == 14 {
        241922
    } else if deg == 15 {
        258819
    } else if deg == 16 {
        275637
    } else if deg == 17 {
        292372
    } else if deg == 18 {
        309017
    } else if deg == 19 {
        325568
    } else if deg == 20 {
        342020
    } else if deg == 21 {
        358368
    } else if deg == 22 {
        374607
    } else if deg == 23 {
        390731
    } else if deg == 24 {
        406737
    } else if deg == 25 {
        422618
    } else if deg == 26 {
        438371
    } else if deg == 27 {
        453990
    } else if deg == 28 {
        469472
    } else if deg == 29 {
        484810
    } else if deg == 30 {
        500000
    } else if deg == 31 {
        515038
    } else if deg == 32 {
        529919
    } else if deg == 33 {
        544639
    } else if deg == 34 {
        559193
    } else if deg == 35 {
        573576
    } else if deg == 36 {
        587785
    } else if deg == 37 {
        601815
    } else if deg == 38 {
        615661
    } else if deg == 39 {
        629320
    } else if deg == 40 {
        642788
    } else if deg == 41 {
        656059
    } else if deg == 42 {
        669131
    } else if deg == 43 {
        681998
    } else if deg == 44 {
        694658
    } else if deg == 45 {
        707107
    } else if deg == 46 {
        719340
    } else if deg == 47 {
        731354
    } else if deg == 48 {
        743145
    } else if deg == 49 {
        754710
    } else if deg == 50 {
        766044
    } else if deg == 51 {
        777146
    } else if deg == 52 {
        788011
    } else if deg == 53 {
        798636
    } else if deg == 54 {
        809017
    } else if deg == 55 {
        819152
    } else if deg == 56 {
        829038
    } else if deg == 57 {
        838671
    } else if deg == 58 {
        848048
    } else if deg == 59 {
        857167
    } else if deg == 60 {
        866025
    } else if deg == 61 {
        874620
    } else if deg == 62 {
        882948
    } else if deg == 63 {
        891007
    } else if deg == 64 {
        898794
    } else if deg == 65 {
        906308
    } else if deg == 66 {
        913545
    } else if deg == 67 {
        920505
    } else if deg == 68 {
        927184
    } else if deg == 69 {
        933580
    } else if deg == 70 {
        939693
    } else if deg == 71 {
        945519
    } else if deg == 72 {
        951057
    } else if deg == 73 {
        956305
    } else if deg == 74 {
        961262
    } else if deg == 75 {
        965926
    } else if deg == 76 {
        970296
    } else if deg == 77 {
        974370
    } else if deg == 78 {
        978148
    } else if deg == 79 {
        981627
    } else if deg == 80 {
        984808
    } else if deg == 81 {
        987688
    } else if deg == 82 {
        990268
    } else if deg == 83 {
        992546
    } else if deg == 84 {
        994522
    } else if deg == 85 {
        996195
    } else if deg == 86 {
        997564
    } else if deg == 87 {
        998630
    } else if deg == 88 {
        999391
    } else if deg == 89 {
        999848
    } else {
        1000000
    }
}

/// Table lookup; see [`sine_table`].
pub fn sine_entry(deg: i64) -> (r: i64)
    ensures
        r == sine_table(deg as int),
{
    reveal(sine_table);
    if deg == 0 {
        0
    } else if deg == 1 {
        17452
    } else if deg == 2 {
        34899
    } else if deg == 3 {
        52336
    } else if deg == 4 {
        69756
    } else if deg == 5 {
        87156
    } else if deg == 6 {
        104528
    } else if deg == 7 {
        121869
    } else if deg == 8 {
        139173
    } else if deg == 9 {
        156434
    } else if deg == 10 {
        173648
    } else if deg == 11 {
        190809
    } else if deg == 12 {
        207912
    } else if deg == 13 {
        224951
    } else if deg == 14 {
        241922
    } else if deg == 15 {
        258819
    } else if deg == 16 {
        275637
    } else if deg == 17 {
        292372
    } else if deg == 18 {
        309017
    } else if deg == 19 {
        325568
    } else if deg == 20 {
        342020
    } else if deg == 21 {
        358368
    } else if deg == 22 {
        374607
    } else if deg == 23 {
        390731
    } else if deg == 24 {
        406737
    } else if deg == 25 {
        422618
    } else if deg == 26 {
        438371
    } else if deg == 27 {
        453990
    } else if deg == 28 {
        469472
    } else if deg == 29 {
        484810
    } else if deg == 30 {
        500000
    } else if deg == 31 {
        515038
    } else if deg == 32 {
        529919
    } else if deg == 33 {
        544639
    } else if deg == 34 {
        559193
    } else if deg == 35 {
        573576
    } else if deg == 36 {
        587785
    } else if deg == 37 {
        601815
    } else if deg == 38 {
        615661
    } else if deg == 39 {
        629320
    } else if deg == 40 {
        642788
    } else if deg == 41 {
        656059
    } else if deg == 42 {
        669131
    } else if deg == 43 {
        681998
    } else if deg == 44 {
        694658
    } else if deg == 45 {
        707107
    } else if deg == 46 {
        719340
    } else if deg == 47 {
        731354
    } else if deg == 48 {
        743145
    } else if deg == 49 {
        754710
    } else if deg == 50 {
        766044
    } else if deg == 51 {
        777146
    } else if deg == 52 {
        788011
    } else if deg == 53 {
        798636
    } else if deg == 54 {
        809017
    } else if deg == 55 {
        819152
    } else if deg == 56 {
        829038
    } else if deg == 57 {
        838671
    } else if deg == 58 {
        848048
    } else if deg == 59 {
        857167
    } else if deg == 60 {
        866025
    } else if deg == 61 {
        874620
    } else if deg == 62 {
        882948
    } else if deg == 63 {
        891007
    } else if deg == 64 {
        898794
    } else if deg == 65 {
        906308
    } else if deg == 66 {
        913545
    } else if deg == 67 {
        920505
    } else if deg == 68 {
        927184
    } else if deg == 69 {
        933580
    } else if deg == 70 {
        939693
    } else if deg == 71 {
        945519
    } else if deg == 72 {
        951057
    } else if deg == 73 {
        956305
    } else if deg == 74 {
        961262
    } else if deg == 75 {
        965926
    } else if deg == 76 {
        970296
    } else if deg == 77 {
        974370
    } else if deg == 78 {
        978148
    } else if deg == 79 {
        981627
    } else if deg == 80 {
        984808
    } else if deg == 81 {
        987688
    } else if deg == 82 {
        990268
    } else if deg == 83 {
        992546
    } else if deg == 84 {
        994522
    } else if deg == 85 {
        996195
    } else if deg == 86 {
        997564
    } else if deg == 87 {
        998630
    } else if deg == 88 {
        999391
    } else if deg == 89 {
        999848
    } else {
        1000000
    }
}

/// Every entry lies between zero and one, and the table never decreases.
pub proof fn lemma_sine_table_bounds(deg: int)
    requires
        0 <= deg,
    ensures
        0 <= sine_table(deg) <= TRIG_ONE,
        sine_table(deg) <= sine_table(deg + 1),
        deg == 0 ==> sine_table(deg) == 0,
        deg >= 90 ==> sine_table(deg) == TRIG_ONE,
{
    reveal(sine_table);
}

/// The sine of an angle between zero and a right angle, interpolated
/// linearly between the two neighbouring whole degrees.
pub open spec fn quadrant_sine(angle: int) -> int
    recommends
        0 <= angle <= RIGHT_ANGLE,
{
    let deg = angle / 1000;
    let part = angle % 1000;
    sine_table(deg) + (sine_table(deg + 1) - sine_table(deg)) * part / 1000
}

/// The sine of an angle between zero and a straight angle, in millionths.
pub open spec fn sine_spec(angle: int) -> int
    recommends
        0 <= angle <= STRAIGHT_ANGLE,
{
    if angle <= RIGHT_ANGLE {
        quadrant_sine(angle)
    } else {
        quadrant_sine(STRAIGHT_ANGLE - angle)
    }
}

/// The cosine of an angle between zero and a straight angle, in
/// millionths.
pub open spec fn cosine_spec(angle: int) -> int
    recommends
        0 <= angle <= STRAIGHT_ANGLE,
{
    if angle <= RIGHT_ANGLE {
        quadrant_sine(RIGHT_ANGLE - angle)
    } else {
        -quadrant_sine(angle - RIGHT_ANGLE)
    }
}

/// An interpolated sine stays between its two table neighbours, hence
/// between zero and one.
pub proof fn lemma_quadrant_sine_bounds(angle: int)
    requires
        0 <= angle <= RIGHT_ANGLE,
    ensures
        sine_table(angle / 1000) <= quadrant_sine(angle) <= sine_table(angle / 1000 + 1),
        0 <= quadrant_sine(angle) <= TRIG_ONE,
{
    let deg = angle / 1000;
    let part = angle % 1000;
    let rise = sine_table(deg + 1) - sine_table(deg);
    lemma_sine_table_bounds(deg);
    lemma_sine_table_bounds(deg + 1);
    assert(0 <= rise * part <= rise * 1000) by (nonlinear_arith)
        requires
            0 <= rise,
            0 <= part < 1000,
    ;
}

/// Sine and cosine stay within one in magnitude over the half circle.
pub proof fn lemma_trig_bounds(angle: int)
    requires
        0 <= angle <= STRAIGHT_ANGLE,
    ensures
        0 <= sine_spec(angle) <= TRIG_ONE,
        -TRIG_ONE <= cosine_spec(angle) <= TRIG_ONE,
        angle <= RIGHT_ANGLE ==> cosine_spec(angle) >= 0,
        angle >= RIGHT_ANGLE ==> cosine_spec(angle) <= 0,
{
    if angle <= RIGHT_ANGLE {
        lemma_quadrant_sine_bounds(angle);
        lemma_quadrant_sine_bounds(RIGHT_ANGLE - angle);
        if angle == RIGHT_ANGLE {
            assert(sine_table(0) == 0 && sine_table(1) == 17452) by {
                reveal(sine_table);
            }
            assert(0int / 1000 == 0 && 0int % 1000 == 0);
            assert((17452 - 0) * 0 / 1000 == 0);
            assert(quadrant_sine(0) == 0);
        }
    } else {
        lemma_quadrant_sine_bounds(STRAIGHT_ANGLE - angle);
        lemma_quadrant_sine_bounds(angle - RIGHT_ANGLE);
    }
}

fn quadrant_sine_exec(angle: i64) -> (r: i64)
    requires
        0 <= angle <= RIGHT_ANGLE,
    ensures
        r == quadrant_sine(angle as int),
        0 <= r <= TRIG_ONE,
{
    let deg: i64 = angle / 1000;
    let part: i64 = angle % 1000;
    let low: i64 = sine_entry(deg);
    let high: i64 = sine_entry(deg + 1);
    proof {
        lemma_sine_table_bounds(deg as int);
        lemma_sine_table_bounds(deg + 1);
        lemma_quadrant_sine_bounds(angle as int);
        assert(0 <= (high - low) * part <= (high - low) * 1000) by (nonlinear_arith)
            requires
                0 <= high - low,
                0 <= part < 1000,
        ;
    }
    low + (high - low) * part / 1000
}

/// Sine of an angle in thousandths of a degree, in millionths.
pub fn sine(angle: i64) -> (r: i64)
    requires
        0 <= angle <= STRAIGHT_ANGLE,
    ensures
        r == sine_spec(angle as int),
        0 <= r <= TRIG_ONE,
{
    if angle <= RIGHT_ANGLE {
        quadrant_sine_exec(angle)
    } else {
        quadrant_sine_exec(STRAIGHT_ANGLE - angle)
    }
}

/// Cosine of an angle in thousandths of a degree, in millionths.
pub fn cosine(angle: i64) -> (r: i64)
    requires
        0 <= angle <= STRAIGHT_ANGLE,
    ensures
        r == cosine_spec(angle as int),
        -TRIG_ONE <= r <= TRIG_ONE,
{
    if angle <= RIGHT_ANGLE {
        quadrant_sine_exec(RIGHT_ANGLE - angle)
    } else {
        -quadrant_sine_exec(angle - RIGHT_ANGLE)
    }
}

/// The sine of an angle within one full turn, in millionths: the half
/// circle's sine, mirrored below zero over the second half turn.
pub open spec fn wave_spec(angle: int) -> int
    recommends
        0 <= angle < FULL_TURN,
{
    if angle <= STRAIGHT_ANGLE {
        sine_spec(angle)
    } else {
        -sine_spec(angle - STRAIGHT_ANGLE)
    }
}

/// Sine of an angle within one full turn, in millionths.
pub fn wave(angle: i64) -> (r: i64)
    requires
        0 <= angle < FULL_TURN,
    ensures
        r == wave_spec(angle as int),
        -TRIG_ONE <= r <= TRIG_ONE,
{
    if angle <= STRAIGHT_ANGLE {
        sine(angle)
    } else {
        -sine(angle - STRAIGHT_ANGLE)
    }
}

} // verus!
