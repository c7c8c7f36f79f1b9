use julia::encode::{encode_grayscale, EncodeError};
use julia::evaluator::IterationOutcome;
use julia::grid::{centered_offset, row_major_index};
use julia::raster::Raster;

fn raster_of_counts(width: u32, height: u32, outcomes: Vec<IterationOutcome>) -> Raster {
    Raster::from_outcomes(width, height, &outcomes)
}

#[test]
fn png_round_trip_preserves_the_samples() {
    let outcomes = vec![
        IterationOutcome::Escaped(0),
        IterationOutcome::Escaped(1),
        IterationOutcome::Escaped(2),
        IterationOutcome::Escaped(255),
        IterationOutcome::Escaped(256),
        IterationOutcome::DidNotEscape,
    ];
    let raster = raster_of_counts(3, 2, outcomes);
    let expected = vec![255u8, 254, 253, 0, 0, 255];
    assert_eq!(raster.bytes(), &expected);

    let bytes = encode_grayscale(&raster).unwrap();
    assert_eq!(&bytes[..8], &[137u8, 80, 78, 71, 13, 10, 26, 10]);

    let decoder = png::Decoder::new(std::io::Cursor::new(&bytes));
    let mut reader = decoder.read_info().unwrap();
    let mut buf = vec![0u8; reader.output_buffer_size().unwrap()];
    let info = reader.next_frame(&mut buf).unwrap();
    assert_eq!(info.width, 3);
    assert_eq!(info.height, 2);
    assert_eq!(info.color_type, png::ColorType::Grayscale);
    assert_eq!(info.bit_depth, png::BitDepth::Eight);
    assert_eq!(&buf[..info.buffer_size()], &expected[..]);
}

#[test]
fn zero_dimension_raster_is_rejected() {
    let empty = Raster {
        width: 0,
        height: 0,
        data: Vec::new(),
    };
    assert_eq!(encode_grayscale(&empty), Err(EncodeError::ZeroDimension));

    let flat = Raster {
        width: 0,
        height: 4,
        data: Vec::new(),
    };
    assert_eq!(encode_grayscale(&flat), Err(EncodeError::ZeroDimension));
}

#[test]
fn interleaved_buffer_has_width_height_channels_bytes() {
    let outcomes = vec![
        IterationOutcome::Escaped(1),
        IterationOutcome::Escaped(2),
        IterationOutcome::Escaped(3),
        IterationOutcome::Escaped(4),
    ];
    let raster = raster_of_counts(2, 2, outcomes);
    for channels in 1..=4usize {
        let buffer = raster.interleaved(channels);
        assert_eq!(buffer.len(), 2 * 2 * channels);
    }
}

#[test]
fn interleaving_replicates_each_sample() {
    let outcomes = vec![
        IterationOutcome::Escaped(1),
        IterationOutcome::Escaped(2),
        IterationOutcome::Escaped(3),
        IterationOutcome::Escaped(4),
    ];
    let raster = raster_of_counts(2, 2, outcomes);
    let rgb = raster.interleaved(3);
    assert_eq!(
        rgb,
        vec![254u8, 254, 254, 253, 253, 253, 252, 252, 252, 251, 251, 251]
    );
    let gray = raster.interleaved(1);
    assert_eq!(gray, vec![254u8, 253, 252, 251]);
}

#[test]
fn offsets_recenter_the_grid() {
    assert_eq!(centered_offset(0, 1920), -960);
    assert_eq!(centered_offset(960, 1920), 0);
    assert_eq!(centered_offset(1919, 1920), 959);
    assert_eq!(centered_offset(0, 1), 0);
    assert_eq!(centered_offset(0, 0), 0);
    assert_eq!(centered_offset(u32::MAX, u32::MAX), 2147483648);
}

#[test]
fn row_major_positions_walk_rows_first() {
    assert_eq!(row_major_index(0, 0, 3), 0);
    assert_eq!(row_major_index(2, 0, 3), 2);
    assert_eq!(row_major_index(0, 1, 3), 3);
    assert_eq!(row_major_index(2, 1, 3), 5);
}
