use std::io::Cursor;

use tiff::decoder::{Decoder, DecodingResult};
use tiff_export::export::{
    encode_frame, export_volume, frame_range, slice_file_name, Endianness, ProgressMessage,
};
use tiff_export::error::ExportError;
use tiff_export::volume::Volume3D;

fn decode_i16(bytes: &[u8]) -> (u32, u32, Vec<i16>) {
    let mut decoder = Decoder::new(Cursor::new(bytes.to_vec())).expect("not a readable TIFF");
    let (w, h) = decoder.dimensions().expect("no dimensions");
    match decoder.read_image().expect("no image") {
        DecodingResult::I16(v) => (w, h, v),
        other => panic!("decoded to an unexpected sample type: {:?}", other),
    }
}

#[test]
fn file_names_are_zero_padded_to_five_digits() {
    assert_eq!(slice_file_name(0), "slice_00000.tif");
    assert_eq!(slice_file_name(1), "slice_00001.tif");
    assert_eq!(slice_file_name(42), "slice_00042.tif");
    assert_eq!(slice_file_name(99999), "slice_99999.tif");
    assert_eq!(slice_file_name(100000), "slice_100000.tif");
    assert_eq!(slice_file_name(123456), "slice_123456.tif");
}

#[test]
fn frame_range_is_one_indexed_with_a_default_stop() {
    assert_eq!(frame_range(1, None, 5), (0, 5));
    assert_eq!(frame_range(2, Some(3), 5), (1, 3));
    assert_eq!(frame_range(5, Some(5), 5), (4, 5));
}

#[test]
fn frame_names_follow_the_relative_index_not_the_absolute_frame() {
    let data: Vec<i16> = (0..12).map(|v| v as i16).collect();
    let vol = Volume3D::new(&data, 2, 2, 3);
    let frame = encode_frame(&vol, 2, 1, Endianness::Big).unwrap();
    assert_eq!(frame.file_name, "slice_00002.tif");
    let frame = encode_frame(&vol, 2, 2, Endianness::Big).unwrap();
    assert_eq!(frame.file_name, "slice_00001.tif");
}

#[test]
fn encode_frame_out_of_range_is_a_bounds_error() {
    let data: Vec<i16> = (0..12).map(|v| v as i16).collect();
    let vol = Volume3D::new(&data, 2, 2, 3);
    match encode_frame(&vol, 3, 0, Endianness::Big) {
        Err(ExportError::Bounds) => {}
        other => panic!("expected a bounds error, got {:?}", other.map(|f| f.file_name)),
    }
}

#[test]
fn exporting_a_middle_range_numbers_outputs_from_one() {
    // Exporting [start = 1, stop = 3) of a depth-5 volume produces exactly
    // two files, named by the relative index, holding the slices z = 1 and
    // z = 2.
    let data: Vec<i16> = (0..5).map(|v| v as i16).collect();
    let vol = Volume3D::new(&data, 1, 1, 5);
    let (result, _msgs) = export_volume(&vol, 1, 3, Endianness::Big);
    let frames = result.unwrap();
    assert_eq!(frames.len(), 2);
    assert_eq!(frames[0].file_name, "slice_00001.tif");
    assert_eq!(frames[1].file_name, "slice_00002.tif");
    let (_, _, s0) = decode_i16(&frames[0].bytes);
    let (_, _, s1) = decode_i16(&frames[1].bytes);
    assert_eq!(s0, vec![1]);
    assert_eq!(s1, vec![2]);
}

#[test]
fn scenario_two_by_two_stack_exported_from_frame_two() {
    // width = 2, height = 2, depth = 3, samples 0..12 row-major and
    // frame-major; the 1-indexed inclusive frame selection [2, 3] becomes
    // the 0-indexed half-open range [1, 3).
    let data: Vec<i16> = (0..12).map(|v| v as i16).collect();
    let vol = Volume3D::new(&data, 2, 2, 3);
    let (start, stop) = frame_range(2, Some(3), 3);
    assert_eq!((start, stop), (1, 3));
    let (result, _msgs) = export_volume(&vol, start, stop, Endianness::Big);
    let frames = result.unwrap();
    assert_eq!(frames.len(), 2);
    assert_eq!(frames[0].file_name, "slice_00001.tif");
    assert_eq!(frames[1].file_name, "slice_00002.tif");
    let (w0, h0, s0) = decode_i16(&frames[0].bytes);
    let (w1, h1, s1) = decode_i16(&frames[1].bytes);
    assert_eq!((w0, h0), (2, 2));
    assert_eq!((w1, h1), (2, 2));
    assert_eq!(s0, vec![4, 5, 6, 7]);
    assert_eq!(s1, vec![8, 9, 10, 11]);
}

#[test]
fn successful_export_reports_climbing_progress_then_done() {
    let data: Vec<i16> = (0..6).map(|v| v as i16).collect();
    let vol = Volume3D::new(&data, 1, 2, 3);
    let (result, msgs) = export_volume(&vol, 0, 3, Endianness::Big);
    assert!(result.is_ok());
    assert_eq!(msgs.len(), 4);
    let mut last_done = 0;
    for msg in &msgs[..3] {
        match msg {
            ProgressMessage::InProgress { num_done, total } => {
                assert_eq!(*total, 3);
                assert!(*num_done > last_done, "progress went backwards");
                assert!(*num_done <= 3);
                last_done = *num_done;
            }
            other => panic!("expected only progress reports, got {:?}", other),
        }
    }
    assert_eq!(msgs[3], ProgressMessage::Done { total: 3 });
}

#[test]
fn failed_export_ends_with_a_terminal_error_message() {
    // The volume claims three frames but backs only two of them.
    let data: Vec<i16> = (0..8).map(|v| v as i16).collect();
    let vol = Volume3D::new(&data, 2, 2, 3);
    let (result, msgs) = export_volume(&vol, 0, 3, Endianness::Big);
    assert_eq!(result.err(), Some(ExportError::Bounds));
    assert_eq!(msgs.len(), 3);
    assert_eq!(msgs[0], ProgressMessage::InProgress { num_done: 1, total: 3 });
    assert_eq!(msgs[1], ProgressMessage::InProgress { num_done: 2, total: 3 });
    assert_eq!(
        msgs[2],
        ProgressMessage::Error { msg: "slice range outside the volume".to_string() }
    );
}

#[test]
fn empty_image_fails_with_an_encoding_error_and_no_progress() {
    let data: Vec<i16> = Vec::new();
    let vol = Volume3D::new(&data, 0, 4, 2);
    let (result, msgs) = export_volume(&vol, 0, 2, Endianness::Big);
    assert_eq!(result.err(), Some(ExportError::Encoding));
    assert_eq!(msgs.len(), 1);
    match &msgs[0] {
        ProgressMessage::Error { msg } => {
            assert_eq!(msg, "image encoder rejected the slice");
        }
        other => panic!("expected a terminal error, got {:?}", other),
    }
}

#[test]
fn empty_range_succeeds_with_a_single_done_message() {
    let data: Vec<i16> = (0..4).map(|v| v as i16).collect();
    let vol = Volume3D::new(&data, 2, 2, 1);
    let (result, msgs) = export_volume(&vol, 1, 1, Endianness::Big);
    let frames = result.unwrap();
    assert_eq!(frames.len(), 0);
    assert_eq!(msgs, vec![ProgressMessage::Done { total: 0 }]);
}

#[test]
fn native_export_produces_decodable_frames_with_the_same_names() {
    let data: Vec<i16> = vec![-5, 0, 5, i16::MAX];
    let vol = Volume3D::new(&data, 2, 1, 2);
    let (result, msgs) = export_volume(&vol, 0, 2, Endianness::Native);
    let frames = result.unwrap();
    assert_eq!(frames.len(), 2);
    assert_eq!(frames[0].file_name, "slice_00001.tif");
    assert_eq!(frames[1].file_name, "slice_00002.tif");
    let (_, _, s0) = decode_i16(&frames[0].bytes);
    let (_, _, s1) = decode_i16(&frames[1].bytes);
    assert_eq!(s0, vec![-5, 0]);
    assert_eq!(s1, vec![5, i16::MAX]);
    assert_eq!(msgs.last(), Some(&ProgressMessage::Done { total: 2 }));
}
