use kolor::details::conversion::ColorConversion;
use kolor::spaces::{ACES_CG, ENCODED_SRGB, LINEAR_SRGB, OKLAB};
use kolor::Vec3;
use sienna::ProcessingImage;
use std::sync::atomic::{AtomicUsize, Ordering};

fn bits(p: Vec3) -> [u32; 3] {
    [p.x.to_bits(), p.y.to_bits(), p.z.to_bits()]
}

fn ramp(count: usize) -> Vec<Vec3> {
    (0..count)
        .map(|i| {
            let v = i as f32 / count as f32;
            Vec3::new(v, 1.0 - v, 0.5 * v)
        })
        .collect()
}

#[test]
fn a_new_image_is_in_the_working_space() {
    let image = ProcessingImage::from_pixels(ramp(6), 3, 2, ENCODED_SRGB);
    assert_eq!(image.space(), ACES_CG);
    assert_eq!(image.width(), 3);
    assert_eq!(image.height(), 2);
    assert_eq!(image.pixels().len(), 6);
}

#[test]
fn a_new_image_holds_the_converted_pixels() {
    let source = ramp(6);
    let image = ProcessingImage::from_pixels(source.clone(), 2, 3, ENCODED_SRGB);
    let general = ColorConversion::new(ENCODED_SRGB, ACES_CG);
    for (a, b) in source.iter().zip(image.pixels().iter()) {
        assert_eq!(bits(general.convert(*a)), bits(*b));
    }
    assert_ne!(bits(source[3]), bits(image.pixels()[3]));
}

#[test]
fn pixels_given_in_the_working_space_are_stored_as_they_are() {
    let source = ramp(4);
    let image = ProcessingImage::from_pixels(source.clone(), 4, 1, ACES_CG);
    for (a, b) in source.iter().zip(image.pixels().iter()) {
        assert_eq!(bits(*a), bits(*b));
    }
}

#[test]
fn an_image_without_rows_is_empty() {
    let image = ProcessingImage::from_pixels(Vec::new(), 5, 0, ENCODED_SRGB);
    assert_eq!(image.width(), 5);
    assert_eq!(image.height(), 0);
    assert!(image.pixels().is_empty());
}

#[test]
fn pixels_are_addressed_row_by_row() {
    let source = ramp(6);
    let image = ProcessingImage::from_pixels(source.clone(), 3, 2, ACES_CG);
    for y in 0..2 {
        for x in 0..3 {
            assert_eq!(bits(image.pixel(x, y)), bits(source[y * 3 + x]));
        }
    }
    assert_eq!(bits(image.pixel(2, 0)), bits(source[2]));
    assert_eq!(bits(image.pixel(0, 1)), bits(source[3]));
}

#[test]
fn convert_retags_and_keeps_the_receiver() {
    let source = ramp(6);
    let image = ProcessingImage::from_pixels(source.clone(), 3, 2, ACES_CG);
    let perceptual = image.convert(OKLAB);
    assert_eq!(perceptual.space(), OKLAB);
    assert_eq!(perceptual.width(), 3);
    assert_eq!(perceptual.height(), 2);
    let general = ColorConversion::new(ACES_CG, OKLAB);
    for (a, b) in source.iter().zip(perceptual.pixels().iter()) {
        assert_eq!(bits(general.convert(*a)), bits(*b));
    }
    assert_eq!(image.space(), ACES_CG);
    for (a, b) in source.iter().zip(image.pixels().iter()) {
        assert_eq!(bits(*a), bits(*b));
    }
}

#[test]
fn convert_to_the_same_space_changes_nothing() {
    let source = ramp(6);
    let image = ProcessingImage::from_pixels(source.clone(), 3, 2, ACES_CG);
    let same = image.convert(ACES_CG);
    assert_eq!(same.space(), ACES_CG);
    for (a, b) in source.iter().zip(same.pixels().iter()) {
        assert_eq!(bits(*a), bits(*b));
    }
}

#[test]
fn iter_visits_every_pixel_exactly_once() {
    let source = ramp(12);
    let mut image = ProcessingImage::from_pixels(source.clone(), 4, 3, ACES_CG);
    let visits = AtomicUsize::new(0);
    image.iter(|p| {
        visits.fetch_add(1, Ordering::SeqCst);
        p + Vec3::new(1.0, 1.0, 1.0)
    });
    assert_eq!(visits.load(Ordering::SeqCst), 12);
    assert_eq!(image.space(), ACES_CG);
    assert_eq!(image.width(), 4);
    assert_eq!(image.height(), 3);
    for (a, b) in source.iter().zip(image.pixels().iter()) {
        assert_eq!(bits(*a + Vec3::new(1.0, 1.0, 1.0)), bits(*b));
    }
}

#[test]
fn iter_gives_each_slot_its_own_result() {
    let source = ramp(5);
    let mut image = ProcessingImage::from_pixels(source.clone(), 5, 1, ACES_CG);
    image.iter(|p| Vec3::new(p.x * 2.0, p.y, -p.z));
    for (a, b) in source.iter().zip(image.pixels().iter()) {
        assert_eq!(bits(Vec3::new(a.x * 2.0, a.y, -a.z)), bits(*b));
    }
}

#[test]
fn iter_in_shows_the_other_space_and_comes_back() {
    let source = ramp(6);
    let mut image = ProcessingImage::from_pixels(source.clone(), 3, 2, ACES_CG);
    let there = ColorConversion::new(ACES_CG, OKLAB);
    let back = ColorConversion::new(OKLAB, ACES_CG);
    image.iter_in(OKLAB, |p| Vec3::new(p.x * 0.5, p.y, p.z));
    assert_eq!(image.space(), ACES_CG);
    assert_eq!(image.width(), 3);
    assert_eq!(image.height(), 2);
    for (a, b) in source.iter().zip(image.pixels().iter()) {
        let seen = there.convert(*a);
        let expected = back.convert(Vec3::new(seen.x * 0.5, seen.y, seen.z));
        assert_eq!(bits(expected), bits(*b));
    }
}

#[test]
fn iter_in_restores_the_space_the_image_came_in() {
    let image = ProcessingImage::from_pixels(ramp(4), 2, 2, ACES_CG);
    let mut display = image.convert(LINEAR_SRGB);
    display.iter_in(OKLAB, |p| p);
    assert_eq!(display.space(), LINEAR_SRGB);
    let mut same = image.convert(LINEAR_SRGB);
    same.iter_in(LINEAR_SRGB, |p| p * 2.0);
    assert_eq!(same.space(), LINEAR_SRGB);
    let reference = image.convert(LINEAR_SRGB);
    for (a, b) in reference.pixels().iter().zip(same.pixels().iter()) {
        assert_eq!(bits(*a * 2.0), bits(*b));
    }
}
