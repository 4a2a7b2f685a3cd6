use screen_log::blob::{pack, unpack};
use screen_log::frame::{bgra_to_rgb, crop_origin, crop_window};
use screen_log::tensor::to_channel_first;
use screen_log::CROP_SIZE;

#[test]
fn pack_is_little_endian() {
    let words = vec![1.0f32.to_bits(), 0x0403_0201];
    assert_eq!(pack(&words), vec![0, 0, 0x80, 0x3f, 1, 2, 3, 4]);
}

#[test]
fn pack_unpack_round_trip() {
    let v: Vec<f32> = vec![0.0, -0.0, 1.5, -3.25, f32::MAX, f32::MIN_POSITIVE, f32::INFINITY, f32::NAN];
    let bits: Vec<u32> = v.iter().map(|f| f.to_bits()).collect();
    let packed = pack(&bits);
    assert_eq!(packed.len(), 4 * v.len());
    let back = unpack(&packed).unwrap();
    assert_eq!(back, bits);
    let floats: Vec<f32> = back.iter().map(|b| f32::from_bits(*b)).collect();
    assert_eq!(floats[2], 1.5);
    assert!(floats[7].is_nan());
}

#[test]
fn pack_empty_vector() {
    assert!(pack(&Vec::new()).is_empty());
    assert_eq!(unpack(&Vec::new()), Some(Vec::new()));
}

#[test]
fn unpack_refuses_ragged_length() {
    assert_eq!(unpack(&vec![1, 2, 3]), None);
    assert_eq!(unpack(&vec![1, 2, 3, 4, 5]), None);
}

#[test]
fn crop_origin_centres_window() {
    assert_eq!(crop_origin(960, 1920, CROP_SIZE), 955);
    assert_eq!(crop_origin(540, 1080, CROP_SIZE), 535);
}

#[test]
fn crop_origin_clamps_at_edges() {
    assert_eq!(crop_origin(0, 1920, 10), 0);
    assert_eq!(crop_origin(3, 1920, 10), 0);
    assert_eq!(crop_origin(-40, 1920, 10), 0);
    assert_eq!(crop_origin(1919, 1920, 10), 1910);
    assert_eq!(crop_origin(i32::MAX, 1920, 10), 1910);
    assert_eq!(crop_origin(i32::MIN, 1920, 10), 0);
    assert_eq!(crop_origin(5, 10, 10), 0);
}

#[test]
fn crop_origin_stays_inside_every_display() {
    for (w, h) in [(10u32, 10u32), (11, 37), (1920, 1080), (640, 480)] {
        for x in 0..w as i32 {
            let gx = crop_origin(x, w, 10);
            assert!(gx <= w - 10);
        }
        for y in 0..h as i32 {
            let gy = crop_origin(y, h, 10);
            assert!(gy <= h - 10);
        }
    }
}

#[test]
fn bgra_swaps_to_rgb() {
    assert_eq!(bgra_to_rgb(&vec![1, 2, 3, 4, 5, 6, 7, 8]), vec![3, 2, 1, 7, 6, 5]);
    assert_eq!(bgra_to_rgb(&vec![1, 2, 3, 4, 9, 9]), vec![3, 2, 1]);
    assert!(bgra_to_rgb(&Vec::new()).is_empty());
}

#[test]
fn channel_first_planes() {
    let rgb = vec![1, 2, 3, 4, 5, 6];
    assert_eq!(to_channel_first(&rgb, 2), vec![1, 4, 2, 5, 3, 6]);
}

#[test]
fn crop_window_copies_rows() {
    // 4x3 frame, pixel (x, y) = [x, y, 9]
    let mut rgb = Vec::new();
    for y in 0..3u8 {
        for x in 0..4u8 {
            rgb.extend_from_slice(&[x, y, 9]);
        }
    }
    let win = crop_window(&rgb, 4, 3, 3, 2, 2, 2).unwrap();
    assert_eq!(win, vec![2, 1, 9, 3, 1, 9, 2, 2, 9, 3, 2, 9]);
    let win = crop_window(&rgb, 4, 3, 0, 0, 2, 2).unwrap();
    assert_eq!(win, vec![0, 0, 9, 1, 0, 9, 0, 1, 9, 1, 1, 9]);
    assert_eq!(crop_window(&rgb[..35].to_vec(), 4, 3, 0, 0, 2, 2), None);
}
