use image::{DynamicImage, GenericImageView};
use objdetect::boxes::{
    denormalize, label_index, scale_to, Annotation, Detections, PixelBox, DEFAULT_THRESHOLD, UNIT,
};
use objdetect::frame::FrameStore;
use objdetect::imaging::{decode_frame, draw_boxes, prepare_frame, prepare_input, Picture};
use objdetect::labels::LabelMap;
use objdetect::shape::{check_input, InputShape, PassError};
use objdetect::signal::{record_capture, Notice};

fn labels_a_b_cat() -> LabelMap {
    LabelMap::from_names(vec!["a".to_string(), "b".to_string(), "cat".to_string()])
}

fn one_detection(score: u32, class: i64) -> Detections {
    Detections {
        count: 1,
        boxes: vec![100000, 100000, 500000, 500000],
        classes: vec![class],
        scores: vec![score],
    }
}

fn encoded(width: u32, height: u32, format: image::ImageOutputFormat) -> Vec<u8> {
    let img = DynamicImage::new_rgb8(width, height);
    let mut out: Vec<u8> = Vec::new();
    img.write_to(&mut out, format).unwrap();
    out
}

fn encoded_jpeg(width: u32, height: u32) -> Vec<u8> {
    encoded(width, height, image::ImageOutputFormat::Jpeg(90))
}

fn picture(width: u32, height: u32) -> Picture {
    decode_frame(&encoded_jpeg(width, height)).unwrap()
}

#[test]
fn cat_box_on_square_image() {
    let labels = labels_a_b_cat();
    let d = one_detection(900000, 2);
    let out = draw_boxes(DEFAULT_THRESHOLD, picture(300, 300), &d, &labels);
    assert_eq!((out.width, out.height), (300, 300));
    assert_eq!(out.image.dimensions(), (300, 300));
    assert_eq!(out.annotations.len(), 1);
    let a = out.annotations[0];
    assert_eq!(a.bbox, PixelBox { x0: 30, y0: 30, x1: 150, y1: 150 });
    assert_eq!(a.label, Some(2));
    assert_eq!(labels.label_text(&a), "cat");
    assert_eq!(out.image.get_pixel(30, 30), image::Rgba([255, 255, 255, 255]));
    assert_eq!(out.image.get_pixel(149, 30), image::Rgba([255, 255, 255, 255]));
    assert_eq!(out.image.get_pixel(30, 149), image::Rgba([255, 255, 255, 255]));
    assert_eq!(out.image.get_pixel(90, 90), image::Rgba([0, 0, 0, 255]));
}

#[test]
fn low_score_leaves_image_identical() {
    let labels = labels_a_b_cat();
    let d = one_detection(200000, 2);
    let pic = picture(300, 300);
    let before = pic.image().to_bytes();
    let out = draw_boxes(DEFAULT_THRESHOLD, pic, &d, &labels);
    assert!(out.annotations.is_empty());
    assert_eq!(out.image.to_bytes(), before);
}

#[test]
fn score_equal_to_threshold_is_not_drawn() {
    let d = one_detection(DEFAULT_THRESHOLD, 0);
    assert!(d.plan_boxes(DEFAULT_THRESHOLD, 300, 300, 3).is_empty());
    let d = one_detection(DEFAULT_THRESHOLD + 1, 0);
    assert_eq!(d.plan_boxes(DEFAULT_THRESHOLD, 300, 300, 3).len(), 1);
}

#[test]
fn only_scores_above_threshold_are_drawn() {
    let d = Detections {
        count: 3,
        boxes: vec![0, 0, UNIT, UNIT, 0, 0, 500000, 500000, 250000, 250000, 750000, 750000],
        classes: vec![0, 1, 2],
        scores: vec![900000, 100000, 500000],
    };
    let plan = d.plan_boxes(DEFAULT_THRESHOLD, 100, 100, 3);
    let idx: Vec<usize> = plan.iter().map(|a| a.index).collect();
    assert_eq!(idx, vec![0, 2]);
    assert_eq!(plan[1].bbox, PixelBox { x0: 25, y0: 25, x1: 75, y1: 75 });
}

#[test]
fn y_scales_by_height_and_x_by_width() {
    let b = denormalize(250000, 500000, 750000, UNIT, 400, 200);
    assert_eq!(b, PixelBox { x0: 200, y0: 50, x1: 400, y1: 150 });
}

#[test]
fn coordinates_clamp_to_image_bounds() {
    assert_eq!(scale_to(2 * UNIT, 300), 300);
    assert_eq!(scale_to(333333, 300), 99);
    assert_eq!(scale_to(0, 300), 0);
    let d = Detections {
        count: 1,
        boxes: vec![0, 0, 1500000, 1500000],
        classes: vec![0],
        scores: vec![UNIT],
    };
    let plan = d.plan_boxes(DEFAULT_THRESHOLD, 100, 50, 1);
    assert_eq!(plan[0].bbox, PixelBox { x0: 0, y0: 0, x1: 100, y1: 50 });
}

#[test]
fn degenerate_box_is_skipped() {
    let d = Detections {
        count: 1,
        boxes: vec![500000, 500000, 500000, 600000],
        classes: vec![0],
        scores: vec![UNIT],
    };
    assert!(d.plan_boxes(DEFAULT_THRESHOLD, 100, 100, 1).is_empty());
}

#[test]
fn class_beyond_label_map_draws_unknown() {
    let labels = labels_a_b_cat();
    let d = one_detection(900000, 7);
    let out = draw_boxes(DEFAULT_THRESHOLD, picture(300, 300), &d, &labels);
    assert_eq!(out.annotations.len(), 1);
    assert_eq!(out.annotations[0].label, None);
    assert_eq!(labels.label_text(&out.annotations[0]), "unknown");
    assert_eq!(label_index(-1, 3), None);
    assert_eq!(label_index(3, 3), None);
    assert_eq!(label_index(2, 3), Some(2));
    assert!(labels.name(7).is_none());
    assert_eq!(labels.name(1).map(|s| s.as_str()), Some("b"));
}

#[test]
fn count_is_clamped_to_array_lengths() {
    let d = Detections {
        count: 10,
        boxes: vec![0, 0, UNIT, UNIT, 0, 0, UNIT, UNIT],
        classes: vec![0, 0, 0],
        scores: vec![UNIT, UNIT, UNIT],
    };
    assert_eq!(d.usable_count(), 2);
    assert_eq!(d.plan_boxes(0, 10, 10, 1).len(), 2);
}

#[test]
fn annotation_label_text_out_of_map() {
    let labels = labels_a_b_cat();
    let a = Annotation { index: 0, bbox: PixelBox { x0: 0, y0: 0, x1: 1, y1: 1 }, label: Some(9) };
    assert_eq!(labels.label_text(&a), "unknown");
}

#[test]
fn second_signal_before_consumption_is_dropped() {
    let (sender, receiver) = crossbeam_channel::bounded::<()>(1);
    let mut store = FrameStore::new();
    assert_eq!(record_capture(&mut store, &sender, vec![1, 2, 3]), Notice::Delivered);
    assert_eq!(record_capture(&mut store, &sender, vec![4, 5]), Notice::Dropped);
    assert_eq!(receiver.len(), 1);
    assert_eq!(store.read(), vec![4, 5]);
    receiver.recv().unwrap();
    assert_eq!(record_capture(&mut store, &sender, vec![6]), Notice::Delivered);
    drop(receiver);
    assert_eq!(record_capture(&mut store, &sender, vec![7]), Notice::Closed);
    assert_eq!(store.read(), vec![7]);
}

#[test]
fn read_returns_whole_last_write() {
    let mut store = FrameStore::new();
    for n in [10usize, 300, 1, 4096] {
        let frame: Vec<u8> = (0..n).map(|i| (i % 251) as u8).collect();
        store.write(frame.clone());
        assert_eq!(store.read(), frame);
    }
}

#[test]
fn latest_before_capture_is_empty() {
    let store = FrameStore::new();
    assert!(store.is_empty());
    assert_eq!(store.read(), Vec::<u8>::new());
}

#[test]
fn input_shape_from_dims() {
    let s = InputShape::from_dims(&vec![1, 300, 200, 3]).unwrap();
    assert_eq!(s, InputShape { height: 300, width: 200 });
    assert_eq!(s.tensor_len(), 180000);
    assert_eq!(InputShape::from_dims(&vec![1, 300, 300]), Err(PassError::BadShape));
    assert_eq!(InputShape::from_dims(&vec![2, 300, 300, 3]), Err(PassError::BadShape));
    assert_eq!(InputShape::from_dims(&vec![1, 0, 300, 3]), Err(PassError::BadShape));
    assert_eq!(InputShape::from_dims(&vec![1, 300, 300, 4]), Err(PassError::BadShape));
    assert_eq!(InputShape::from_dims(&vec![1, 1 << 33, 300, 3]), Err(PassError::BadShape));
}

#[test]
fn input_must_fill_tensor_exactly() {
    let s = InputShape { height: 2, width: 2 };
    assert_eq!(check_input(&s, 12, &vec![0; 12]), Ok(()));
    assert_eq!(check_input(&s, 12, &vec![0; 11]), Err(PassError::SizeMismatch));
    assert_eq!(check_input(&s, 16, &vec![0; 12]), Err(PassError::SizeMismatch));
}

#[test]
fn undecodable_frame_fails_the_pass() {
    assert!(matches!(decode_frame(&[1, 2, 3, 4]), Err(PassError::Decode)));
    assert!(matches!(decode_frame(&[]), Err(PassError::Decode)));
    let png = encoded(8, 8, image::ImageOutputFormat::Png);
    assert!(matches!(decode_frame(&png), Err(PassError::Decode)));
    let s = InputShape { height: 4, width: 4 };
    assert!(matches!(prepare_frame(&[0xff, 0xd8, 0], &s, 48), Err(PassError::Decode)));
}

#[test]
fn frame_is_resized_to_model_input() {
    let jpeg = encoded_jpeg(40, 20);
    let pic = decode_frame(&jpeg).unwrap();
    assert_eq!((pic.width(), pic.height()), (40, 20));
    let s = InputShape { height: 6, width: 4 };
    let (decoded, pixels) = prepare_frame(&jpeg, &s, 72).unwrap();
    assert_eq!((decoded.width(), decoded.height()), (40, 20));
    assert_eq!(pixels.len(), 72);
    let direct = pic.image().resize_to_fill(4, 6, image::imageops::FilterType::Nearest).to_rgb8().into_raw();
    assert_eq!(pixels, direct);
    assert_eq!(prepare_input(&pic, &s, 72).unwrap(), direct);
    assert!(matches!(prepare_frame(&jpeg, &s, 75), Err(PassError::SizeMismatch)));
}

#[test]
fn extreme_aspect_ratio_is_not_resized() {
    let pic = picture(1, 3000);
    let s = InputShape { height: 1, width: 1 << 21 };
    assert!(matches!(prepare_input(&pic, &s, 3 << 21), Err(PassError::Unscalable)));
}

#[test]
fn boxes_scale_to_picture_width_and_height() {
    let labels = LabelMap::from_names(vec!["a".to_string()]);
    let d = Detections {
        count: 1,
        boxes: vec![100000, 200000, 500000, 600000],
        classes: vec![0],
        scores: vec![900000],
    };
    let out = draw_boxes(DEFAULT_THRESHOLD, picture(400, 200), &d, &labels);
    assert_eq!(out.annotations.len(), 1);
    assert_eq!(out.annotations[0].bbox, PixelBox { x0: 80, y0: 20, x1: 240, y1: 100 });
    assert_eq!(labels.label_text(&out.annotations[0]), "a");
    assert_eq!(out.image.dimensions(), (400, 200));
}

#[test]
fn entries_past_count_are_ignored() {
    let a = Detections {
        count: 1,
        boxes: vec![0, 0, UNIT, UNIT, 0, 0, UNIT, UNIT],
        classes: vec![0, 1],
        scores: vec![UNIT, 0],
    };
    let b = Detections {
        count: 1,
        boxes: vec![0, 0, UNIT, UNIT, 1, 1, 2, 2],
        classes: vec![0, 99],
        scores: vec![UNIT, UNIT],
    };
    assert_eq!(a.plan_boxes(DEFAULT_THRESHOLD, 50, 50, 1), b.plan_boxes(DEFAULT_THRESHOLD, 50, 50, 1));
}

#[test]
fn label_map_from_text_lines() {
    let labels = LabelMap::from_text("a\nb\r\ncat\n");
    assert_eq!(labels.len(), 3);
    assert_eq!(labels.name(2).map(|s| s.as_str()), Some("cat"));
    assert_eq!(labels.name(1).map(|s| s.as_str()), Some("b"));
    assert_eq!(LabelMap::from_text("").len(), 0);
    let bare = LabelMap::from_text("a\nb\r");
    assert_eq!(bare.len(), 2);
    assert_eq!(bare.name(1).map(|s| s.as_str()), Some("b\r"));
}
