use screen_log::click::prepare_click;
use screen_log::frame::{frame_thumbnail, CaptureError};
use screen_log::tensor::{model_input, DecodeError};
use screen_log::THUMB_SIZE;

fn frame(w: u32, h: u32) -> Vec<u8> {
    let mut v = Vec::with_capacity((w * h * 4) as usize);
    for y in 0..h {
        for x in 0..w {
            v.extend_from_slice(&[(x % 256) as u8, (y % 256) as u8, ((x + y) % 7) as u8, 255]);
        }
    }
    v
}

#[test]
fn thumbnail_decodes_to_fixed_size() {
    for (w, h) in [(40u32, 30u32), (1, 1), (300, 17), (224, 224)] {
        let t = frame_thumbnail(w, h, &frame(w, h)).unwrap();
        let img = image::load_from_memory(&t).unwrap();
        assert_eq!((img.width(), img.height()), (THUMB_SIZE, THUMB_SIZE));
        assert_ne!(t, frame(w, h));
    }
}

#[test]
fn thumbnail_is_jpeg() {
    let t = frame_thumbnail(40, 30, &frame(40, 30)).unwrap();
    assert_eq!(&t[0..2], &[0xff, 0xd8]);
}

#[test]
fn thumbnail_refuses_malformed_frame() {
    assert_eq!(frame_thumbnail(4, 4, &vec![0; 63]), Err(CaptureError::MalformedFrame));
    assert_eq!(frame_thumbnail(0, 4, &Vec::new()), Err(CaptureError::MalformedFrame));
}

#[test]
fn model_input_has_model_layout() {
    let t = frame_thumbnail(64, 48, &frame(64, 48)).unwrap();
    let input = model_input(&t).unwrap();
    assert_eq!(input.len(), 3 * 224 * 224);
    let again = model_input(&t).unwrap();
    assert_eq!(input, again);
}

#[test]
fn model_input_refuses_garbage() {
    assert_eq!(model_input(&vec![1, 2, 3, 4]), Err(DecodeError::Malformed));
    assert_eq!(model_input(&Vec::new()), Err(DecodeError::Malformed));
    assert_eq!(model_input(&b"not a jpeg".to_vec()), Err(DecodeError::Malformed));
    assert_eq!(model_input(&vec![0xff, 0xd8, 0xff, 0, 0, 0]), Err(DecodeError::Malformed));
}

#[test]
fn full_hd_frame_gets_square_thumbnail() {
    let t = frame_thumbnail(1920, 1080, &vec![0u8; 1920 * 1080 * 4]).unwrap();
    let img = image::load_from_memory(&t).unwrap();
    assert_eq!((img.width(), img.height()), (224, 224));
    assert_eq!(frame_thumbnail(1920, 1080, &vec![0u8; 1920 * 1080 * 4]).unwrap(), t);
}

#[test]
fn click_at_screen_centre() {
    let (w, h) = (1920u32, 1080u32);
    let c = prepare_click(960, 540, w, h, &frame(w, h)).unwrap();
    assert_eq!((c.gx, c.gy), (955, 535));
    assert_eq!((c.width, c.height), (w, h));
    assert_eq!(c.x as f32 / c.width as f32, 0.5);
    assert_eq!(c.y as f32 / c.height as f32, 0.5);
    assert_eq!(c.grid.len(), 10 * 10 * 3);
    // first pixel is (955, 535): BGRA (955 % 256, 535 % 256, 1490 % 7, 255)
    assert_eq!(&c.grid[0..3], &[(1490 % 7) as u8, (535 % 256) as u8, (955 % 256) as u8]);
    // last pixel is (964, 544)
    assert_eq!(&c.grid[297..300], &[(1508 % 7) as u8, (544 % 256) as u8, (964 % 256) as u8]);
    let img = image::load_from_memory(&c.thumbnail).unwrap();
    assert_eq!((img.width(), img.height()), (224, 224));
}

#[test]
fn click_near_corner_is_clamped() {
    let c = prepare_click(2, 39, 50, 40, &frame(50, 40)).unwrap();
    assert_eq!((c.gx, c.gy), (0, 30));
    assert_eq!(&c.grid[0..3], &[(30 % 7) as u8, 30, 0]);
}

#[test]
fn click_errors() {
    assert_eq!(prepare_click(1, 1, 20, 20, &vec![0; 10]).err(), Some(CaptureError::MalformedFrame));
    assert_eq!(prepare_click(1, 1, 9, 20, &frame(9, 20)).err(), Some(CaptureError::FrameTooSmall));
    assert_eq!(prepare_click(20, 1, 20, 20, &frame(20, 20)).err(), Some(CaptureError::OffScreen));
    assert_eq!(prepare_click(-1, 1, 20, 20, &frame(20, 20)).err(), Some(CaptureError::OffScreen));
}
