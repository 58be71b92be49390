//! The action word: three axis bytes packed into the low 24 bits of a
//! 32-bit word, and the thrust direction they stand for.
//!
//! A direction component is a rational number.  On the wire it is a
//! byte `b` that stands for `(b - 128) / 127`.

use vstd::prelude::*;

verus! {

/// The byte that encodes a zero component.
pub const AXIS_CENTER: u8 = 128;

/// The denominator of a decoded component.
pub const AXIS_SCALE: u8 = 127;

/// The action word a bot is taken to have answered when its call was
/// cut short: all three axes at the center, no thrust.
pub const NEUTRAL_ACTION: u32 = 8421504;

/// A decoded thrust direction.  Each field is the numerator of a
/// component whose denominator is [`AXIS_SCALE`].
#[derive(Clone, Copy, Debug, PartialEq, Eq, Structural)]
pub struct ActionVector {
    pub x: i16,
    pub y: i16,
    pub z: i16,
}

/// The byte of `word` that belongs to `axis` (0 = x, 1 = y, 2 = z).
pub open spec fn spec_axis_byte(word: u32, axis: int) -> int {
    if axis == 0 {
        (word as int / 65536) % 256
    } else if axis == 1 {
        (word as int / 256) % 256
    } else {
        word as int % 256
    }
}

/// The word that holds the three axis bytes, top byte zero.
pub open spec fn spec_pack(x: u8, y: u8, z: u8) -> int {
    x as int * 65536 + y as int * 256 + z as int
}

/// The numerator a byte decodes to.
pub open spec fn spec_axis_offset(byte: int) -> int {
    byte - 128
}

/// The direction a word decodes to.
pub open spec fn spec_decode(word: u32) -> ActionVector {
    ActionVector {
        x: spec_axis_offset(spec_axis_byte(word, 0)) as i16,
        y: spec_axis_offset(spec_axis_byte(word, 1)) as i16,
        z: spec_axis_offset(spec_axis_byte(word, 2)) as i16,
    }
}

/// `round(127 * numerator / denominator + 128)`, halves rounded up,
/// clamped to a byte.
pub open spec fn spec_quantize(numerator: int, denominator: int) -> int
    recommends
        denominator > 0,
{
    let rounded = (254 * numerator + 257 * denominator) / (2 * denominator);
    if rounded < 0 {
        0
    } else if rounded > 255 {
        255
    } else {
        rounded
    }
}

/// The same rounding, said without a division: `byte` is what
/// `numerator / denominator` quantises to if
/// `byte <= 127 * numerator / denominator + 128 + 1/2 < byte + 1`,
/// where the lower bound is waived for byte 0 and the upper for 255.
pub open spec fn spec_is_quantum(byte: int, numerator: int, denominator: int) -> bool {
    let scaled = 254 * numerator + 257 * denominator;
    &&& 0 <= byte <= 255
    &&& (byte > 0 ==> 2 * denominator * byte <= scaled)
    &&& (byte < 255 ==> scaled < 2 * denominator * (byte + 1))
}

/// The word that encodes the direction whose components are
/// `x / denominator`, `y / denominator` and `z / denominator`.
pub open spec fn spec_encode(x: int, y: int, z: int, denominator: int) -> int
    recommends
        denominator > 0,
{
    spec_pack(
        spec_quantize(x, denominator) as u8,
        spec_quantize(y, denominator) as u8,
        spec_quantize(z, denominator) as u8,
    )
}

/// Splits an action word into its three axis bytes.  The top byte is
/// ignored.
pub fn unpack_action(word: u32) -> (bytes: (u8, u8, u8))
    ensures
        bytes.0 as int == spec_axis_byte(word, 0),
        bytes.1 as int == spec_axis_byte(word, 1),
        bytes.2 as int == spec_axis_byte(word, 2),
{
    let x: u32 = (word >> 16) & 0xFF;
    let y: u32 = (word >> 8) & 0xFF;
    let z: u32 = word & 0xFF;
    assert(x == (word / 65536) % 256 && y == (word / 256) % 256 && z == word % 256
        && x < 256 && y < 256 && z < 256) by (bit_vector)
        requires
            x == (word >> 16) & 0xFF,
            y == (word >> 8) & 0xFF,
            z == word & 0xFF,
    ;
    (x as u8, y as u8, z as u8)
}

/// Packs three axis bytes into an action word.
pub fn pack_action(x: u8, y: u8, z: u8) -> (word: u32)
    ensures
        word as int == spec_pack(x, y, z),
        spec_axis_byte(word, 0) == x,
        spec_axis_byte(word, 1) == y,
        spec_axis_byte(word, 2) == z,
{
    let word: u32 = ((x as u32) << 16) | ((y as u32) << 8) | (z as u32);
    assert(word == x as u32 * 65536 + y as u32 * 256 + z as u32
        && word < 16777216) by (bit_vector)
        requires
            word == ((x as u32) << 16) | ((y as u32) << 8) | (z as u32),
    ;
    word
}

/// Decodes an action word into the numerators of its direction.
pub fn reconstruct_action(action: u32) -> (direction: ActionVector)
    ensures
        direction == spec_decode(action),
        direction.x as int == spec_axis_byte(action, 0) - 128,
        direction.y as int == spec_axis_byte(action, 1) - 128,
        direction.z as int == spec_axis_byte(action, 2) - 128,
{
    let bytes = unpack_action(action);
    ActionVector {
        x: bytes.0 as i16 - 128,
        y: bytes.1 as i16 - 128,
        z: bytes.2 as i16 - 128,
    }
}

/// Quantises the component `numerator / denominator` to its axis byte.
pub fn quantize_axis(numerator: i32, denominator: i32) -> (byte: u8)
    requires
        denominator > 0,
    ensures
        byte as int == spec_quantize(numerator as int, denominator as int),
        spec_is_quantum(byte as int, numerator as int, denominator as int),
{
    proof {
        lemma_quantize_is_quantum(numerator as int, denominator as int);
    }
    let scaled: i64 = 254 * (numerator as i64) + 257 * (denominator as i64);
    let divisor: i64 = 2 * (denominator as i64);
    if scaled < 0 {
        proof {
            lemma_floor_sign(scaled as int, divisor as int);
        }
        0
    } else {
        let rounded: i64 = scaled / divisor;
        proof {
            lemma_floor_sign(scaled as int, divisor as int);
        }
        if rounded > 255 {
            255
        } else {
            rounded as u8
        }
    }
}

/// Encodes the direction `(x, y, z) / denominator` as an action word.
pub fn encode_action(x: i32, y: i32, z: i32, denominator: i32) -> (word: u32)
    requires
        denominator > 0,
    ensures
        word as int == spec_encode(x as int, y as int, z as int, denominator as int),
        word < 16777216,
        spec_is_quantum(spec_axis_byte(word, 0), x as int, denominator as int),
        spec_is_quantum(spec_axis_byte(word, 1), y as int, denominator as int),
        spec_is_quantum(spec_axis_byte(word, 2), z as int, denominator as int),
{
    pack_action(
        quantize_axis(x, denominator),
        quantize_axis(y, denominator),
        quantize_axis(z, denominator),
    )
}

/// The square of the length of the vector `(x, y, z)`.
pub open spec fn spec_length_squared(x: int, y: int, z: int) -> int {
    x * x + y * y + z * z
}

/// Whether `step / 127` is the multiple of 1/127 nearest to
/// `component / length`, where `length` is the root of
/// `length_squared`, with a component halfway between two multiples
/// taken away from zero.  That is,
/// `(2j - 1) * length <= 254 * m < (2j + 1) * length` for the sizes
/// `j` of the step and `m` of the component, written in squares so
/// that no root is taken.
pub open spec fn spec_is_step(step: int, component: int, length_squared: int) -> bool {
    let m = if component >= 0 {
        component
    } else {
        -component
    };
    let j = if step >= 0 {
        step
    } else {
        -step
    };
    &&& j <= 127
    &&& (step > 0 ==> component > 0)
    &&& (step < 0 ==> component < 0)
    &&& (j > 0 ==> (2 * j - 1) * (2 * j - 1) * length_squared <= (254 * m) * (254 * m))
    &&& (254 * m) * (254 * m) < (2 * j + 1) * (2 * j + 1) * length_squared
}

/// The size of the step nearest to `magnitude / length`.
fn step_size(magnitude: u64, length_squared: u128) -> (size: u8)
    requires
        magnitude <= 2147483648,
        magnitude * magnitude <= length_squared,
        0 < length_squared <= 13835058055282163712,
    ensures
        spec_is_step(size as int, magnitude as int, length_squared as int),
{
    let scaled: u128 = 254 * (magnitude as u128);
    assert(scaled * scaled <= 297558232675799463329792) by (nonlinear_arith)
        requires
            scaled <= 545460846592,
    ;
    let target: u128 = scaled * scaled;
    let mut size: u8 = 0;
    let mut searching = true;
    while searching
        invariant
            size <= 127,
            target == (254 * magnitude) * (254 * magnitude),
            magnitude * magnitude <= length_squared,
            0 < length_squared <= 13835058055282163712,
            size > 0 ==> (2 * size - 1) * (2 * size - 1) * length_squared <= target,
            !searching ==> target < (2 * size + 1) * (2 * size + 1) * length_squared,
        decreases 127 - size + (if searching {
                1int
            } else {
                0int
            }),
    {
        let odd: u128 = 2 * (size as u128) + 1;
        assert(odd * odd <= 65025 && odd * odd * length_squared
            <= 899624650044652694372352000) by (nonlinear_arith)
            requires
                1 <= odd <= 255,
                0 < length_squared <= 13835058055282163712,
        ;
        if size == 127 {
            assert(target < 255 * 255 * length_squared) by (nonlinear_arith)
                requires
                    target == (254 * magnitude) * (254 * magnitude),
                    magnitude * magnitude <= length_squared,
                    0 < length_squared,
            ;
            searching = false;
        } else if odd * odd * length_squared <= target {
            size = size + 1;
        } else {
            searching = false;
        }
    }
    proof {
        if size > 0 {
            assert(magnitude > 0) by (nonlinear_arith)
                requires
                    (2 * size - 1) * (2 * size - 1) * length_squared <= (254 * magnitude) * (254
                        * magnitude),
                    size > 0,
                    length_squared > 0,
                    magnitude >= 0,
            ;
        }
    }
    size
}

/// The byte of one axis of a direction: the step nearest to
/// `component / length`, moved up by the center.
fn direction_byte(component: i32, length_squared: u128) -> (byte: u8)
    requires
        component * component <= length_squared,
        0 < length_squared <= 13835058055282163712,
    ensures
        1 <= byte,
        spec_is_step(byte - 128, component as int, length_squared as int),
{
    if component >= 0 {
        assert(component * component == (component as u64) * (component as u64));
        AXIS_CENTER + step_size(component as u64, length_squared)
    } else {
        let magnitude: u64 = (-(component as i64)) as u64;
        assert(component * component == magnitude * magnitude) by (nonlinear_arith)
            requires
                magnitude == -component,
        ;
        let size = step_size(magnitude, length_squared);
        proof {
            if size > 0 {
                assert(magnitude > 0) by (nonlinear_arith)
                    requires
                        (2 * size - 1) * (2 * size - 1) * length_squared <= (254 * magnitude) * (
                        254 * magnitude),
                        size > 0,
                        length_squared > 0,
                        magnitude >= 0,
                ;
            }
        }
        AXIS_CENTER - size
    }
}

/// Encodes the direction in which the vector `(x, y, z)` points: each
/// component is divided by the vector's length and quantised to the
/// nearest step.  The vector without length encodes as no thrust.
pub fn encode(x: i32, y: i32, z: i32) -> (word: u32)
    ensures
        word < 16777216,
        spec_length_squared(x as int, y as int, z as int) == 0 ==> word == NEUTRAL_ACTION,
        spec_length_squared(x as int, y as int, z as int) > 0 ==> {
            let length_squared = spec_length_squared(x as int, y as int, z as int);
            &&& spec_is_step(spec_axis_byte(word, 0) - 128, x as int, length_squared)
            &&& spec_is_step(spec_axis_byte(word, 1) - 128, y as int, length_squared)
            &&& spec_is_step(spec_axis_byte(word, 2) - 128, z as int, length_squared)
        },
{
    assert(0 <= x * x <= 4611686018427387904 && 0 <= y * y <= 4611686018427387904 && 0 <= z * z
        <= 4611686018427387904) by (nonlinear_arith)
        requires
            -2147483648 <= x <= 2147483647,
            -2147483648 <= y <= 2147483647,
            -2147483648 <= z <= 2147483647,
    ;
    let xx: u128 = ((x as i64) * (x as i64)) as u128;
    let yy: u128 = ((y as i64) * (y as i64)) as u128;
    let zz: u128 = ((z as i64) * (z as i64)) as u128;
    let length_squared: u128 = xx + yy + zz;
    if length_squared == 0 {
        NEUTRAL_ACTION
    } else {
        pack_action(
            direction_byte(x, length_squared),
            direction_byte(y, length_squared),
            direction_byte(z, length_squared),
        )
    }
}

/// The nearest step is one step only: two steps that are both
/// nearest to the same component are equal.
pub proof fn lemma_step_unique(first: int, second: int, component: int, length_squared: int)
    requires
        length_squared > 0,
        spec_is_step(first, component, length_squared),
        spec_is_step(second, component, length_squared),
    ensures
        first == second,
{
    let m = if component >= 0 {
        component
    } else {
        -component
    };
    let j = if first >= 0 {
        first
    } else {
        -first
    };
    let k = if second >= 0 {
        second
    } else {
        -second
    };
    if j < k {
        lemma_odd_squares_grow(j, k, length_squared);
    }
    if k < j {
        lemma_odd_squares_grow(k, j, length_squared);
    }
    assert(j == k);
    if j > 0 {
        assert(m > 0) by (nonlinear_arith)
            requires
                (2 * j - 1) * (2 * j - 1) * length_squared <= (254 * m) * (254 * m),
                j > 0,
                length_squared > 0,
                m >= 0,
        ;
    }
}

/// For sizes `j < k`, `(2j + 1)^2 * s <= (2k - 1)^2 * s`.
proof fn lemma_odd_squares_grow(j: int, k: int, s: int)
    requires
        0 <= j < k,
        s > 0,
    ensures
        (2 * j + 1) * (2 * j + 1) * s <= (2 * k - 1) * (2 * k - 1) * s,
{
    assert((2 * j + 1) * (2 * j + 1) <= (2 * k - 1) * (2 * k - 1)) by (nonlinear_arith)
        requires
            0 <= j < k,
    ;
    assert((2 * j + 1) * (2 * j + 1) * s <= (2 * k - 1) * (2 * k - 1) * s) by (nonlinear_arith)
        requires
            (2 * j + 1) * (2 * j + 1) <= (2 * k - 1) * (2 * k - 1),
            s > 0,
    ;
}

/// A component that is the whole length of its vector is encoded by
/// the last step, 127 or -127, and a component of zero by step 0.
pub proof fn lemma_axis_steps(component: int, length_squared: int)
    requires
        length_squared > 0,
    ensures
        spec_is_step(0, 0, length_squared),
        component > 0 && component * component == length_squared ==> spec_is_step(
            127,
            component,
            length_squared,
        ),
        component < 0 && component * component == length_squared ==> spec_is_step(
            -127,
            component,
            length_squared,
        ),
{
    let m = if component >= 0 {
        component
    } else {
        -component
    };
    assert((254 * 0) * (254 * 0) < (2 * 0 + 1) * (2 * 0 + 1) * length_squared) by (nonlinear_arith)
        requires
            length_squared > 0,
    ;
    if component * component == length_squared {
        assert(m * m == length_squared) by (nonlinear_arith)
            requires
                component * component == length_squared,
                m == component || m == -component,
        ;
        assert(253 * 253 * length_squared <= (254 * m) * (254 * m) && (254 * m) * (254 * m) < 255
            * 255 * length_squared) by (nonlinear_arith)
            requires
                m * m == length_squared,
                length_squared > 0,
        ;
    }
}

/// A quotient by a positive divisor has the sign of its dividend.
proof fn lemma_floor_sign(a: int, d: int)
    requires
        d > 0,
    ensures
        a < 0 ==> a / d < 0,
        a >= 0 ==> a / d >= 0,
{
    assert(a < 0 ==> a / d < 0) by (nonlinear_arith)
        requires
            d > 0,
    ;
    assert(a >= 0 ==> a / d >= 0) by (nonlinear_arith)
        requires
            d > 0,
    ;
}

/// The quotient form and the division-free form of the rounding say
/// the same.
pub proof fn lemma_quantize_is_quantum(numerator: int, denominator: int)
    requires
        denominator > 0,
    ensures
        spec_is_quantum(spec_quantize(numerator, denominator), numerator, denominator),
        forall|byte: int| #[trigger]
            spec_is_quantum(byte, numerator, denominator) ==> byte == spec_quantize(
                numerator,
                denominator,
            ),
{
    let a = 254 * numerator + 257 * denominator;
    let d = 2 * denominator;
    let q = a / d;
    assert(a == d * q + a % d && 0 <= a % d < d) by (nonlinear_arith)
        requires
            d > 0,
            q == a / d,
    ;
    assert(d * (q + 1) == d * q + d) by (nonlinear_arith);
    let quantum = spec_quantize(numerator, denominator);
    assert(quantum > 0 ==> d * quantum <= a) by (nonlinear_arith)
        requires
            d > 0,
            d * q <= a,
            quantum > 0 ==> quantum <= q,
    ;
    assert(quantum < 255 ==> a < d * (quantum + 1)) by (nonlinear_arith)
        requires
            d > 0,
            a < d * (q + 1),
            quantum < 255 ==> quantum >= q,
    ;
    assert forall|byte: int| #[trigger]
        spec_is_quantum(byte, numerator, denominator) implies byte == quantum by {
        assert(byte > quantum ==> d * (quantum + 1) <= d * byte) by (nonlinear_arith)
            requires
                d > 0,
        ;
        assert(byte < quantum ==> d * (byte + 1) <= d * quantum) by (nonlinear_arith)
            requires
                d > 0,
        ;
    }
}

/// Rounding to the nearest byte: for a component between -1 and 1 the
/// byte is never clamped, and it lies within half a step of the scaled
/// component.
pub proof fn lemma_quantize_is_nearest(numerator: int, denominator: int)
    requires
        denominator > 0,
        -denominator <= numerator <= denominator,
    ensures
        1 <= spec_quantize(numerator, denominator) <= 255,
        -denominator <= 2 * ((spec_quantize(numerator, denominator) - 128) * denominator - 127
            * numerator) <= denominator,
{
    let a = 254 * numerator + 257 * denominator;
    let d = 2 * denominator;
    let q = a / d;
    assert(a == d * q + a % d && 0 <= a % d < d) by (nonlinear_arith)
        requires
            d > 0,
            q == a / d,
    ;
    assert(3 * denominator <= a <= 511 * denominator);
    assert(1 <= q <= 255) by (nonlinear_arith)
        requires
            a == d * q + a % d,
            0 <= a % d < d,
            d == 2 * denominator,
            denominator > 0,
            3 * denominator <= a <= 511 * denominator,
    ;
    assert(2 * ((q - 128) * denominator - 127 * numerator) == denominator - a % d)
        by (nonlinear_arith)
        requires
            a == d * q + a % d,
            d == 2 * denominator,
            a == 254 * numerator + 257 * denominator,
    ;
}

/// Codec round trip: decoding the encoding of a direction whose
/// components all lie between -1 and 1 gives, on each axis, a component
/// within 1/254 (and so within 1/127) of the one that was encoded.
pub proof fn lemma_codec_round_trip(x: int, y: int, z: int, denominator: int)
    requires
        denominator > 0,
        -denominator <= x <= denominator,
        -denominator <= y <= denominator,
        -denominator <= z <= denominator,
        spec_encode(x, y, z, denominator) <= u32::MAX,
    ensures
        ({
            let decoded = spec_decode(spec_encode(x, y, z, denominator) as u32);
            &&& -denominator <= 2 * (decoded.x * denominator - 127 * x) <= denominator
            &&& -denominator <= 2 * (decoded.y * denominator - 127 * y) <= denominator
            &&& -denominator <= 2 * (decoded.z * denominator - 127 * z) <= denominator
        }),
{
    lemma_quantize_is_nearest(x, denominator);
    lemma_quantize_is_nearest(y, denominator);
    lemma_quantize_is_nearest(z, denominator);
    let bx = spec_quantize(x, denominator) as u8;
    let by = spec_quantize(y, denominator) as u8;
    let bz = spec_quantize(z, denominator) as u8;
    lemma_unpack_pack(bx, by, bz);
}

/// Unpacking a packed word gives back the three bytes.
pub proof fn lemma_unpack_pack(x: u8, y: u8, z: u8)
    ensures
        0 <= spec_pack(x, y, z) < 16777216,
        spec_axis_byte(spec_pack(x, y, z) as u32, 0) == x,
        spec_axis_byte(spec_pack(x, y, z) as u32, 1) == y,
        spec_axis_byte(spec_pack(x, y, z) as u32, 2) == z,
{
    let word: u32 = (x as u32 * 65536 + y as u32 * 256 + z as u32) as u32;
    assert(word == x as u32 * 65536 + y as u32 * 256 + z as u32 ==> (word / 65536) % 256 == x
        && (word / 256) % 256 == y && word % 256 == z && word < 16777216) by (bit_vector);
}

/// The neutral word decodes to the zero direction.
pub proof fn lemma_neutral_is_zero()
    ensures
        spec_decode(NEUTRAL_ACTION) == (ActionVector { x: 0, y: 0, z: 0 }),
{
}

} // verus!
