use cannycam::flags::{Stage, StageFlags};
use cannycam::pipeline::{invert_pixels, output_shape, stages_for, FrameShape};

fn flags_from_bits(bits: u8) -> StageFlags {
    StageFlags {
        greyscale: bits & 1 != 0,
        edges: bits & 2 != 0,
        blur: bits & 4 != 0,
        invert: bits & 8 != 0,
    }
}

#[test]
fn all_stages_run_in_fixed_order() {
    let stages = stages_for(&StageFlags::all_enabled());
    assert_eq!(stages, vec![Stage::Greyscale, Stage::Edges, Stage::Blur, Stage::Invert]);
}

#[test]
fn disabled_stages_are_skipped() {
    let f = StageFlags { greyscale: false, edges: true, blur: false, invert: true };
    assert_eq!(stages_for(&f), vec![Stage::Edges, Stage::Invert]);
    let none = StageFlags { greyscale: false, edges: false, blur: false, invert: false };
    assert!(stages_for(&none).is_empty());
}

#[test]
fn every_combination_keeps_the_extent() {
    let colour = FrameShape { width: 640, height: 480, channels: 3 };
    let empty = FrameShape { width: 0, height: 480, channels: 3 };
    for bits in 0..16u8 {
        let f = flags_from_bits(bits);
        let stages = stages_for(&f);
        assert_eq!(stages.len(), bits.count_ones() as usize);
        let out = output_shape(colour, &f);
        assert_eq!((out.width, out.height), (640, 480));
        let expected_channels = if f.greyscale || f.edges { 1 } else { 3 };
        assert_eq!(out.channels, expected_channels);
        let out_empty = output_shape(empty, &f);
        assert_eq!(out_empty.width, 0);
    }
}

#[test]
fn invert_complements_every_byte() {
    let data = vec![0u8, 1, 127, 128, 200, 255];
    assert_eq!(invert_pixels(&data), vec![255u8, 254, 128, 127, 55, 0]);
    assert!(invert_pixels(&Vec::new()).is_empty());
}

#[test]
fn invert_twice_restores_pixels() {
    let data: Vec<u8> = (0..=255u8).chain([17, 3, 250]).collect();
    let once = invert_pixels(&data);
    assert_ne!(once, data);
    assert_eq!(invert_pixels(&once), data);
}
