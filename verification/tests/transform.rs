use glc::image::{
    apply_transformation, scaled_height, transform_image, Color, ColorMatrix, ColorTransformation,
    Image, MATRIX_ONE,
};

/// Rotation by +90 degrees around the vertical (green) color axis, exact in
/// fixed point: (x, y, z) -> (z, y, -x) around the cube center.
fn rot_y_plus_90() -> ColorMatrix {
    ColorMatrix {
        xx: 0,
        xy: 0,
        xz: MATRIX_ONE,
        yx: 0,
        yy: MATRIX_ONE,
        yz: 0,
        zx: -MATRIX_ONE,
        zy: 0,
        zz: 0,
    }
}

fn rot_y_minus_90() -> ColorMatrix {
    ColorMatrix {
        xx: 0,
        xy: 0,
        xz: -MATRIX_ONE,
        yx: 0,
        yy: MATRIX_ONE,
        yz: 0,
        zx: MATRIX_ONE,
        zy: 0,
        zz: 0,
    }
}

/// cos(45deg) in 16.16 fixed point, rounded down.
const COS_45: i32 = 46340;

#[test]
fn identity_transformation_returns_input() {
    let id = ColorMatrix::identity();
    for c in [
        Color { r: 0, g: 0, b: 0, a: 0 },
        Color { r: 255, g: 255, b: 255, a: 255 },
        Color { r: 17, g: 99, b: 201, a: 128 },
        Color { r: 127, g: 128, b: 1, a: 7 },
    ] {
        assert_eq!(apply_transformation(&id, c), c);
    }
}

#[test]
fn rotation_round_trip_is_exact_for_quarter_turns() {
    let q = rot_y_plus_90();
    let q_inv = rot_y_minus_90();
    for c in [
        Color { r: 255, g: 0, b: 0, a: 255 },
        Color { r: 3, g: 250, b: 77, a: 9 },
        Color { r: 128, g: 127, b: 126, a: 0 },
    ] {
        let once = apply_transformation(&q, c);
        let back = apply_transformation(&q_inv, once);
        assert_eq!(back, c);
    }
}

#[test]
fn rotation_round_trip_is_close_for_eighth_turns() {
    // 45-degree rotations are inexact in fixed point; the round trip comes
    // back within a small tolerance (clamp effects excluded by the choice of
    // a color near the cube center).
    let q = ColorMatrix {
        xx: COS_45,
        xy: 0,
        xz: COS_45,
        yx: 0,
        yy: MATRIX_ONE,
        yz: 0,
        zx: -COS_45,
        zy: 0,
        zz: COS_45,
    };
    let q_inv = ColorMatrix {
        xx: COS_45,
        xy: 0,
        xz: -COS_45,
        yx: 0,
        yy: MATRIX_ONE,
        yz: 0,
        zx: COS_45,
        zy: 0,
        zz: COS_45,
    };
    let c = Color { r: 140, g: 90, b: 120, a: 33 };
    let back = apply_transformation(&q_inv, apply_transformation(&q, c));
    assert!((back.r as i32 - c.r as i32).abs() <= 2);
    assert!((back.g as i32 - c.g as i32).abs() <= 2);
    assert!((back.b as i32 - c.b as i32).abs() <= 2);
    assert_eq!(back.a, c.a);
}

#[test]
fn ninety_degree_turns_cycle_the_bottom_corners() {
    // Rotating by +90deg around the vertical axis through the cube center
    // cycles the corners of the bottom face: red -> black -> blue -> magenta.
    let q = rot_y_plus_90();
    let red = Color { r: 255, g: 0, b: 0, a: 255 };
    let black = Color { r: 0, g: 0, b: 0, a: 255 };
    let blue = Color { r: 0, g: 0, b: 255, a: 255 };
    let magenta = Color { r: 255, g: 0, b: 255, a: 255 };
    assert_eq!(apply_transformation(&q, red), black);
    assert_eq!(apply_transformation(&q, black), blue);
    assert_eq!(apply_transformation(&q, blue), magenta);
    assert_eq!(apply_transformation(&q, magenta), red);
}

#[test]
fn out_of_gamut_results_clamp() {
    // A 45-degree rotation pushes the magenta corner outside the unit cube;
    // the result clamps to the gamut instead of wrapping.
    let q = ColorMatrix {
        xx: COS_45,
        xy: 0,
        xz: COS_45,
        yx: 0,
        yy: MATRIX_ONE,
        yz: 0,
        zx: -COS_45,
        zy: 0,
        zz: COS_45,
    };
    let c = apply_transformation(&q, Color { r: 255, g: 0, b: 255, a: 255 });
    assert_eq!(c.r, 255);
}

#[test]
fn alpha_is_never_touched() {
    let q = rot_y_plus_90();
    for a in [0u8, 1, 128, 255] {
        let c = apply_transformation(&q, Color { r: 200, g: 10, b: 30, a });
        assert_eq!(c.a, a);
    }
}

#[test]
fn transform_image_overwrites_stale_output() {
    let input = Image {
        width: 2,
        height: 1,
        data: vec![
            Color { r: 255, g: 0, b: 0, a: 255 },
            Color { r: 0, g: 255, b: 0, a: 128 },
        ],
    };
    let xform = ColorTransformation { rotation: rot_y_plus_90() };
    // stale output from a previous, larger input
    let mut output = Image {
        width: 5,
        height: 5,
        data: vec![Color { r: 9, g: 9, b: 9, a: 9 }; 25],
    };
    transform_image(&input, &xform, &mut output);
    assert_eq!((output.width, output.height), (2, 1));
    assert_eq!(output.data.len(), 2);
    assert_eq!(output.data[0], Color { r: 0, g: 0, b: 0, a: 255 });
    assert_eq!(output.data[1], Color { r: 0, g: 255, b: 255, a: 128 });
}

#[test]
fn scaled_height_preserves_aspect_ratio() {
    assert_eq!(scaled_height(200, 100, 400), 200);
    assert_eq!(scaled_height(100, 200, 50), 100);
    assert_eq!(scaled_height(640, 480, 320), 240);
    assert_eq!(scaled_height(3, 2, 100), 66); // rounded down
}
