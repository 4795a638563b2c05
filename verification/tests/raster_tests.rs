use image::RgbImage;
use julia_set::color::{color_for_intensity, Color};
use julia_set::escape::EscapeTimer;
use julia_set::raster::{assemble, fits, RasterError};
use num::Complex;

fn gray(level: u8) -> Color {
    Color { r: level, g: level, b: level }
}

fn render(width: u32, height: u32, iterations: u32) -> Vec<Vec<Color>> {
    let c = Complex::new(-0.4, 0.6);
    let mut rows = Vec::new();
    for y in 0..height {
        let mut row = Vec::new();
        for x in 0..width {
            let real = x as f64 / width as f64 * 3.0 + -1.5;
            let imag = y as f64 / height as f64 * 3.0 + -1.5;
            let mut z = Complex::new(real, imag);
            let mut timer = EscapeTimer::start(iterations);
            while timer.advance(z.norm() <= 10.0) {
                z = z * z + c;
            }
            row.push(color_for_intensity(timer.intensity()));
        }
        rows.push(row);
    }
    rows
}

#[test]
fn single_pixel_image() {
    let rows = vec![vec![Color { r: 9, g: 8, b: 7 }]];
    assert_eq!(assemble(1, 1, &rows), Ok(vec![9, 8, 7]));
}

#[test]
fn single_pixel_render() {
    let rows = render(1, 1, 256);
    assert_eq!(rows, vec![vec![Color { r: 1, g: 0, b: 0 }]]);
    let samples = assemble(1, 1, &rows).unwrap();
    let image = RgbImage::from_raw(1, 1, samples).unwrap();
    assert_eq!(image.dimensions(), (1, 1));
    assert_eq!(image.get_pixel(0, 0).0, [1, 0, 0]);
}

#[test]
fn samples_run_row_by_row() {
    let rows = vec![
        vec![Color { r: 1, g: 2, b: 3 }, Color { r: 4, g: 5, b: 6 }, Color { r: 7, g: 8, b: 9 }],
        vec![Color { r: 10, g: 11, b: 12 }, Color { r: 13, g: 14, b: 15 }, Color { r: 16, g: 17, b: 18 }],
    ];
    let samples = assemble(3, 2, &rows).unwrap();
    assert_eq!(samples, (1..=18u8).collect::<Vec<u8>>());
}

#[test]
fn every_cell_holds_its_color() {
    let width = 5u32;
    let height = 4u32;
    let mut rows = Vec::new();
    for y in 0..height {
        let mut row = Vec::new();
        for x in 0..width {
            row.push(Color { r: x as u8, g: y as u8, b: (10 * y + x) as u8 });
        }
        rows.push(row);
    }
    let samples = assemble(width, height, &rows).unwrap();
    assert_eq!(samples.len(), 60);
    let image = RgbImage::from_raw(width, height, samples).unwrap();
    assert_eq!(image.width(), width);
    assert_eq!(image.height(), height);
    for y in 0..height {
        for x in 0..width {
            assert_eq!(image.get_pixel(x, y).0, [x as u8, y as u8, (10 * y + x) as u8]);
        }
    }
}

#[test]
fn no_cell_is_left_blank() {
    let rows = vec![vec![gray(200); 7]; 3];
    let samples = assemble(7, 3, &rows).unwrap();
    assert_eq!(samples, vec![200u8; 63]);
}

#[test]
fn black_rows_give_black_image() {
    let rows = vec![vec![gray(0); 2]; 2];
    assert_eq!(assemble(2, 2, &rows), Ok(vec![0u8; 12]));
}

#[test]
fn empty_images() {
    assert_eq!(assemble(0, 0, &Vec::new()), Ok(Vec::new()));
    assert_eq!(assemble(3, 0, &Vec::new()), Ok(Vec::new()));
    assert_eq!(assemble(0, 2, &vec![Vec::new(), Vec::new()]), Ok(Vec::new()));
}

#[test]
fn wrong_number_of_rows_is_rejected() {
    let rows = vec![vec![gray(1); 2]; 3];
    assert_eq!(assemble(2, 2, &rows), Err(RasterError::NotAGrid));
    assert_eq!(assemble(2, 4, &rows), Err(RasterError::NotAGrid));
    assert_eq!(assemble(2, 1, &Vec::new()), Err(RasterError::NotAGrid));
}

#[test]
fn wrong_row_length_is_rejected() {
    let rows = vec![vec![gray(1); 2], vec![gray(1); 3]];
    assert_eq!(assemble(2, 2, &rows), Err(RasterError::NotAGrid));
    let rows = vec![vec![gray(1); 2], vec![gray(1); 1]];
    assert_eq!(assemble(2, 2, &rows), Err(RasterError::NotAGrid));
    let rows = vec![vec![gray(1); 2]; 2];
    assert_eq!(assemble(3, 2, &rows), Err(RasterError::NotAGrid));
}

#[test]
fn oversized_image_is_rejected() {
    assert_eq!(assemble(u32::MAX, u32::MAX, &Vec::new()), Err(RasterError::TooLarge));
    let rows = vec![vec![gray(1); 2]; 2];
    assert_eq!(assemble(u32::MAX, u32::MAX, &rows), Err(RasterError::TooLarge));
}

#[test]
fn fits_follows_the_sample_count() {
    assert!(fits(0, 0));
    assert!(fits(1, 1));
    assert!(fits(800, 800));
    assert!(fits(u32::MAX, 0) == (3 * (u32::MAX as u128) <= usize::MAX as u128));
    assert!(!fits(u32::MAX, u32::MAX));
    let side = 1u32 << 31;
    let samples = 3 * (side as u128) * (side as u128);
    assert_eq!(fits(side, side), samples <= isize::MAX as u128);
    assert_eq!(fits(1 << 30, 1 << 30), 3 * (1u128 << 60) <= isize::MAX as u128);
}

#[test]
fn two_by_two_render() {
    let rows = render(2, 2, 10);
    assert_eq!(
        rows,
        vec![
            vec![Color { r: 51, g: 30, b: 40 }, Color { r: 76, g: 45, b: 60 }],
            vec![Color { r: 76, g: 45, b: 60 }, Color { r: 255, g: 153, b: 204 }],
        ]
    );
    let samples = assemble(2, 2, &rows).unwrap();
    assert_eq!(samples, vec![51, 30, 40, 76, 45, 60, 76, 45, 60, 255, 153, 204]);
    let image = RgbImage::from_raw(2, 2, samples).unwrap();
    assert_eq!(image.get_pixel(0, 0).0, [51, 30, 40]);
    assert_eq!(image.get_pixel(1, 0).0, [76, 45, 60]);
    assert_eq!(image.get_pixel(0, 1).0, [76, 45, 60]);
    assert_eq!(image.get_pixel(1, 1).0, [255, 153, 204]);
}

#[test]
fn four_by_four_render() {
    let rows = render(4, 4, 256);
    let samples = assemble(4, 4, &rows).unwrap();
    let expected: Vec<u8> = vec![
        1, 0, 0, 1, 0, 0, 2, 1, 1, 2, 1, 1,
        1, 0, 0, 2, 1, 1, 37, 22, 29, 5, 3, 4,
        2, 1, 1, 7, 4, 5, 26, 15, 20, 7, 4, 5,
        2, 1, 1, 5, 3, 4, 37, 22, 29, 2, 1, 1,
    ];
    assert_eq!(samples, expected);
}

#[test]
fn renders_are_identical() {
    let first = assemble(16, 12, &render(16, 12, 64)).unwrap();
    let second = assemble(16, 12, &render(16, 12, 64)).unwrap();
    assert_eq!(first, second);
    assert_eq!(first.len(), 3 * 16 * 12);
}

#[test]
fn rows_made_out_of_order_give_the_same_image() {
    let in_order = render(6, 5, 32);
    let mut slots: Vec<Option<Vec<Color>>> = vec![None; 5];
    for y in [3usize, 0, 4, 1, 2] {
        slots[y] = Some(in_order[y].clone());
    }
    let gathered: Vec<Vec<Color>> = slots.into_iter().map(|row| row.unwrap()).collect();
    assert_eq!(assemble(6, 5, &gathered), assemble(6, 5, &in_order));
}
