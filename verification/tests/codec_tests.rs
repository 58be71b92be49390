use machine::codec::{
    encode, encode_action, pack_action, quantize_axis, reconstruct_action, unpack_action,
    ActionVector, NEUTRAL_ACTION,
};

#[test]
fn unpack_reads_the_three_low_bytes() {
    assert_eq!(unpack_action(0x00_12_34_56), (0x12, 0x34, 0x56));
    assert_eq!(unpack_action(0xFF_12_34_56), (0x12, 0x34, 0x56));
    assert_eq!(unpack_action(0), (0, 0, 0));
    assert_eq!(unpack_action(u32::MAX), (255, 255, 255));
}

#[test]
fn pack_puts_x_in_the_high_byte() {
    assert_eq!(pack_action(0x12, 0x34, 0x56), 0x00_12_34_56);
    assert_eq!(pack_action(255, 255, 255), 0x00_FF_FF_FF);
    assert_eq!(pack_action(128, 128, 128), NEUTRAL_ACTION);
}

#[test]
fn neutral_action_decodes_to_zero() {
    assert_eq!(reconstruct_action(NEUTRAL_ACTION), ActionVector { x: 0, y: 0, z: 0 });
    assert_eq!(reconstruct_action(8421504), ActionVector { x: 0, y: 0, z: 0 });
}

#[test]
fn decode_extremes() {
    assert_eq!(reconstruct_action(0), ActionVector { x: -128, y: -128, z: -128 });
    assert_eq!(reconstruct_action(0x00FF_FFFF), ActionVector { x: 127, y: 127, z: 127 });
    assert_eq!(reconstruct_action(0x0001_80FF), ActionVector { x: -127, y: 0, z: 127 });
}

#[test]
fn quantize_exact_values() {
    assert_eq!(quantize_axis(0, 1), 128);
    assert_eq!(quantize_axis(1, 1), 255);
    assert_eq!(quantize_axis(-1, 1), 1);
    assert_eq!(quantize_axis(1, 2), 192);
    assert_eq!(quantize_axis(-1, 2), 65);
    assert_eq!(quantize_axis(1, 254), 129);
    assert_eq!(quantize_axis(1, 255), 128);
}

#[test]
fn quantize_clamps_out_of_range_components() {
    assert_eq!(quantize_axis(2, 1), 255);
    assert_eq!(quantize_axis(-2, 1), 0);
    assert_eq!(quantize_axis(i32::MAX, 1), 255);
    assert_eq!(quantize_axis(i32::MIN, 1), 0);
    assert_eq!(quantize_axis(i32::MIN, i32::MAX), 1);
}

#[test]
fn north_encodes_to_center_top_center() {
    let north = encode_action(0, 1, 0, 1);
    assert_eq!(north, 0x0080_FF80);
    assert_eq!(reconstruct_action(north), ActionVector { x: 0, y: 127, z: 0 });
}

#[test]
fn round_trip_stays_within_half_a_step() {
    let denominator: i32 = 1000;
    let mut n: i32 = -1000;
    while n <= 1000 {
        let word = encode_action(n, -n, n / 2, denominator);
        let decoded = reconstruct_action(word);
        for (got, sent) in [(decoded.x, n), (decoded.y, -n), (decoded.z, n / 2)] {
            let error = (got as i64) * (denominator as i64) - 127 * (sent as i64);
            assert!(2 * error.abs() <= denominator as i64, "component {} decoded to {}", sent, got);
        }
        n += 1;
    }
}

#[test]
fn round_trip_in_single_precision() {
    let directions: [[f32; 3]; 4] =
        [[0.0, 1.0, 0.0], [0.6, 0.0, -0.8], [-0.26726124, 0.5345225, 0.8017837], [1.0, 0.0, 0.0]];
    for direction in directions {
        let scale: i32 = 1 << 20;
        let fixed: Vec<i32> = direction.iter().map(|v| (v * scale as f32).round() as i32).collect();
        let decoded = reconstruct_action(encode_action(fixed[0], fixed[1], fixed[2], scale));
        let back = [decoded.x as f32 / 127.0, decoded.y as f32 / 127.0, decoded.z as f32 / 127.0];
        for axis in 0..3 {
            assert!((back[axis] - direction[axis]).abs() <= 1.0 / 127.0);
        }
    }
}

#[test]
fn encode_normalises_the_direction() {
    assert_eq!(encode(0, 1, 0), 0x0080_FF80);
    assert_eq!(encode(0, 1_000_000, 0), 0x0080_FF80);
    assert_eq!(encode(0, i32::MAX, 0), 0x0080_FF80);
    assert_eq!(encode(-5, 0, 0), pack_action(1, 128, 128));
    assert_eq!(encode(i32::MIN, 0, 0), pack_action(1, 128, 128));
    assert_eq!(encode(3, 4, 0), pack_action(204, 230, 128));
    assert_eq!(encode(-3, 0, -4), pack_action(52, 128, 26));
    assert_eq!(encode(-1, -1, -1), pack_action(55, 55, 55));
    assert_eq!(encode(i32::MAX, i32::MAX, i32::MAX), pack_action(201, 201, 201));
    assert_eq!(encode(i32::MIN, i32::MIN, i32::MIN), pack_action(55, 55, 55));
    assert_eq!(encode(1, 300, 0), pack_action(128, 255, 128));
    assert_eq!(encode(1, 253, 0), pack_action(129, 255, 128));
}

#[test]
fn vector_without_length_encodes_as_no_thrust() {
    assert_eq!(encode(0, 0, 0), NEUTRAL_ACTION);
    assert_eq!(reconstruct_action(encode(0, 0, 0)), ActionVector { x: 0, y: 0, z: 0 });
}

#[test]
fn encode_agrees_with_rounding_in_double_precision() {
    for x in -12i32..=12 {
        for y in -12i32..=12 {
            for z in -12i32..=12 {
                if (x, y, z) == (0, 0, 0) {
                    continue;
                }
                let length = f64::from(x * x + y * y + z * z).sqrt();
                let byte = |c: i32| (f64::from(c) / length * 127.0 + 128.0).round() as u8;
                assert_eq!(encode(x, y, z), pack_action(byte(x), byte(y), byte(z)), "{:?}", (x, y, z));
            }
        }
    }
}

#[test]
fn decoded_direction_is_within_a_step_of_the_unit_vector() {
    let vectors = [(1, 2, 3), (-7, 0, 24), (1000, -1, 1), (-2147483648, 2147483647, 1), (5, 5, -5)];
    for (x, y, z) in vectors {
        let decoded = reconstruct_action(encode(x, y, z));
        let length = (f64::from(x).powi(2) + f64::from(y).powi(2) + f64::from(z).powi(2)).sqrt();
        for (got, sent) in [(decoded.x, x), (decoded.y, y), (decoded.z, z)] {
            let error = (f64::from(got) / 127.0 - f64::from(sent) / length).abs();
            assert!(error <= 1.0 / 254.0 + 1e-12, "{} of {:?} decoded to {}", sent, (x, y, z), got);
        }
    }
}

#[test]
fn both_encoders_agree_on_unit_vectors() {
    assert_eq!(encode_action(0, 1, 0, 1), encode(0, 1, 0));
    assert_eq!(encode_action(-1, 0, 0, 1), encode(-1, 0, 0));
    assert_eq!(encode_action(3, 4, 0, 5), encode(3, 4, 0));
    assert_eq!(encode_action(-2, 3, 6, 7), encode(-2, 3, 6));
    assert_eq!(encode_action(0, 0, 0, 9), encode(0, 0, 0));
}
