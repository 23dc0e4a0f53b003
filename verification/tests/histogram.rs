use glc::color_cube::{create_color_cube, create_instance_data, update_color_cube, Ratio};
use glc::image::{Color, Image};

fn image_1x1(c: Color) -> Image {
    Image { width: 1, height: 1, data: vec![c] }
}

#[test]
fn builder_r2_has_8_instances_with_unique_positions() {
    let data = create_instance_data(2);
    assert_eq!(data.len(), 8);
    for (i, inst) in data.iter().enumerate() {
        assert_eq!(inst.occ_num, 1);
        assert_eq!(inst.occ_den, 1);
        let i = i as u32;
        assert_eq!((inst.xi, inst.yi, inst.zi), (i / 4, (i / 2) % 2, i % 2));
    }
    for i in 0..8 {
        for j in 0..8 {
            if i != j {
                let a = &data[i];
                let b = &data[j];
                assert!((a.xi, a.yi, a.zi) != (b.xi, b.yi, b.zi));
            }
        }
    }
}

#[test]
fn builder_r3_flattened_order() {
    let data = create_instance_data(3);
    assert_eq!(data.len(), 27);
    // instance at flattened index xi*9 + yi*3 + zi carries those coordinates
    let inst = &data[1 * 9 + 2 * 3 + 0];
    assert_eq!((inst.xi, inst.yi, inst.zi), (1, 2, 0));
}

#[test]
fn builder_rejects_small_resolution() {
    assert_eq!(
        create_color_cube(1, Ratio { num: 1, den: 1 }).err(),
        Some(glc::GlcError::ResolutionTooSmall)
    );
    assert_eq!(
        create_color_cube(0, Ratio { num: 1, den: 1 }).err(),
        Some(glc::GlcError::ResolutionTooSmall)
    );
    assert_eq!(
        create_color_cube(2, Ratio { num: 0, den: 1 }).err(),
        Some(glc::GlcError::ThresholdNotPositive)
    );
    assert_eq!(
        create_color_cube(2, Ratio { num: 1, den: 0 }).err(),
        Some(glc::GlcError::ThresholdNotPositive)
    );
}

#[test]
fn single_red_pixel_fills_corner_voxel() {
    // resolution 2, threshold 1, one pixel of rgba(1, 0, 0, 1):
    // the voxel at grid (1, 0, 0) reaches full scale, all others stay 0.
    let (cube, mut mesh) = create_color_cube(2, Ratio { num: 1, den: 1 }).unwrap();
    let image = image_1x1(Color { r: 255, g: 0, b: 0, a: 255 });
    update_color_cube(&image, &cube, &mut mesh);
    for (i, inst) in mesh.0.iter().enumerate() {
        if i == 4 {
            // flattened index of (1, 0, 0) at resolution 2
            assert_eq!((inst.xi, inst.yi, inst.zi), (1, 0, 0));
            assert_eq!(inst.occ_num, inst.occ_den); // scale == step == 1.0
        } else {
            assert_eq!(inst.occ_num, 0);
        }
        assert!(inst.occ_den >= 1);
    }
}

#[test]
fn update_is_idempotent() {
    let (cube, mut mesh) = create_color_cube(2, Ratio { num: 1, den: 2 }).unwrap();
    let image = Image {
        width: 2,
        height: 2,
        data: vec![
            Color { r: 255, g: 0, b: 0, a: 255 },
            Color { r: 255, g: 0, b: 0, a: 255 },
            Color { r: 0, g: 255, b: 0, a: 255 },
            Color { r: 10, g: 10, b: 10, a: 255 },
        ],
    };
    update_color_cube(&image, &cube, &mut mesh);
    let once = mesh.0.clone();
    update_color_cube(&image, &cube, &mut mesh);
    assert_eq!(mesh.0, once);
}

#[test]
fn accumulation_sums_to_pixel_count() {
    // threshold 1/1 and four pixels: the denominator is 4 everywhere and the
    // unclamped numerators are the raw bucket counts, which sum to 4.
    let (cube, mut mesh) = create_color_cube(2, Ratio { num: 1, den: 1 }).unwrap();
    let image = Image {
        width: 2,
        height: 2,
        data: vec![
            Color { r: 0, g: 0, b: 0, a: 255 },
            Color { r: 255, g: 255, b: 255, a: 255 },
            Color { r: 255, g: 0, b: 0, a: 255 },
            Color { r: 255, g: 0, b: 0, a: 255 },
        ],
    };
    update_color_cube(&image, &cube, &mut mesh);
    let mut total = 0u128;
    for inst in mesh.0.iter() {
        assert_eq!(inst.occ_den, 4);
        total += inst.occ_num;
    }
    assert_eq!(total, 4);
}

#[test]
fn scales_are_clamped_to_step() {
    // Two pixels in one bucket at threshold 1/2: the raw occupancy would be
    // 2, but it is clamped to 1 (scale == step), and no voxel ever exceeds it.
    let (cube, mut mesh) = create_color_cube(2, Ratio { num: 1, den: 2 }).unwrap();
    let image = Image {
        width: 2,
        height: 1,
        data: vec![
            Color { r: 255, g: 0, b: 0, a: 255 },
            Color { r: 255, g: 0, b: 0, a: 255 },
        ],
    };
    update_color_cube(&image, &cube, &mut mesh);
    for (i, inst) in mesh.0.iter().enumerate() {
        assert!(inst.occ_num <= inst.occ_den);
        if i == 4 {
            assert_eq!(inst.occ_num, inst.occ_den); // clamped to full scale
        } else {
            assert_eq!(inst.occ_num, 0);
        }
    }
}

#[test]
fn zero_pixel_image_yields_all_zero_scales() {
    let (cube, mut mesh) = create_color_cube(3, Ratio { num: 1, den: 1000 }).unwrap();
    let image = Image { width: 0, height: 0, data: vec![] };
    update_color_cube(&image, &cube, &mut mesh);
    for inst in mesh.0.iter() {
        assert_eq!(inst.occ_num, 0);
        assert_eq!(inst.occ_den, 1); // denominator stays 1: no division by zero
    }
}

#[test]
fn zero_width_image_with_data_free_height_yields_zeros() {
    let (cube, mut mesh) = create_color_cube(2, Ratio { num: 1, den: 1 }).unwrap();
    let image = Image { width: 0, height: 7, data: vec![] };
    update_color_cube(&image, &cube, &mut mesh);
    for inst in mesh.0.iter() {
        assert_eq!(inst.occ_num, 0);
    }
}

#[test]
fn channel_boundaries_bucket_as_floor() {
    // resolution 4: channel byte 63 -> floor(63*4/255) = 0, byte 64 -> 1,
    // byte 255 -> clamped to 3.
    let (cube, mut mesh) = create_color_cube(4, Ratio { num: 1, den: 1 }).unwrap();
    let image = image_1x1(Color { r: 64, g: 63, b: 255, a: 255 });
    update_color_cube(&image, &cube, &mut mesh);
    let idx = 1 * 16 + 0 * 4 + 3;
    assert_eq!(mesh.0[idx].occ_num, mesh.0[idx].occ_den);
    for (i, inst) in mesh.0.iter().enumerate() {
        if i != idx {
            assert_eq!(inst.occ_num, 0);
        }
    }
}
