use gpu_readback::error::GpuError;
use gpu_readback::transfer::{
    copy_texture_to_buffer, create_command_encoder, create_staging_buffer, create_texture,
    read_mapped_range, repeat_texel, row_stride, submit_and_wait, upload_copy_readback,
    write_texture, DataLayout, Extent,
};

fn cyan_4x4() -> Vec<u8> {
    repeat_texel(16, 0x00, 0xFF, 0xFF, 0xFF)
}

fn matching_layout(extent: Extent) -> DataLayout {
    DataLayout {
        offset: 0,
        bytes_per_row: row_stride(extent.width).unwrap(),
        rows_per_image: extent.height,
    }
}

#[test]
fn repeat_texel_exact_bytes() {
    let v = repeat_texel(3, 1, 2, 3, 4);
    assert_eq!(v, vec![1, 2, 3, 4, 1, 2, 3, 4, 1, 2, 3, 4]);
}

#[test]
fn row_stride_is_width_times_texel_size() {
    assert_eq!(row_stride(4), Some(16));
    assert_eq!(row_stride(1), Some(4));
    assert_eq!(row_stride(0), None);
    assert_eq!(row_stride(u32::MAX), None);
    assert_eq!(row_stride(u32::MAX / 4), Some(u32::MAX / 4 * 4));
}

#[test]
fn cyan_round_trip_is_byte_for_byte() {
    let pixels = cyan_4x4();
    let out = upload_copy_readback(4, 4, &pixels).unwrap();
    assert_eq!(out, pixels);
    assert_eq!(out.len(), 64);
    for i in 0..16 {
        assert_eq!(&out[4 * i..4 * i + 4], &[0x00, 0xFF, 0xFF, 0xFF]);
    }
}

#[test]
fn round_trip_through_each_step() {
    let extent = Extent { width: 4, height: 4 };
    let pixels = cyan_4x4();
    let layout = matching_layout(extent);

    let mut texture = create_texture(extent).unwrap();
    write_texture(&mut texture, &pixels, layout, extent).unwrap();

    let mut buffer = create_staging_buffer(64).unwrap();
    let mut encoder = create_command_encoder();
    copy_texture_to_buffer(&mut encoder, &texture, layout, extent, &buffer).unwrap();
    submit_and_wait(encoder, &mut buffer);

    let all = read_mapped_range(&buffer, 0, 64).unwrap();
    assert_eq!(all, pixels);

    // the demo prints the first five bytes of the mapped buffer
    let head = read_mapped_range(&buffer, 0, 5).unwrap();
    assert_eq!(head, vec![0x00, 0xFF, 0xFF, 0xFF, 0x00]);
}

#[test]
fn read_before_submit_is_refused() {
    let buffer = create_staging_buffer(64).unwrap();
    assert_eq!(read_mapped_range(&buffer, 0, 5), Err(GpuError::UnmappedBufferReadAttempted));
}

#[test]
fn read_with_copy_recorded_but_not_submitted_is_refused() {
    let extent = Extent { width: 4, height: 4 };
    let pixels = cyan_4x4();
    let layout = matching_layout(extent);

    let mut texture = create_texture(extent).unwrap();
    write_texture(&mut texture, &pixels, layout, extent).unwrap();
    let buffer = create_staging_buffer(64).unwrap();
    let mut encoder = create_command_encoder();
    copy_texture_to_buffer(&mut encoder, &texture, layout, extent, &buffer).unwrap();

    assert_eq!(read_mapped_range(&buffer, 0, 5), Err(GpuError::UnmappedBufferReadAttempted));
}

#[test]
fn empty_submission_leaves_buffer_unready() {
    let mut buffer = create_staging_buffer(8).unwrap();
    let encoder = create_command_encoder();
    submit_and_wait(encoder, &mut buffer);
    assert_eq!(read_mapped_range(&buffer, 0, 1), Err(GpuError::UnmappedBufferReadAttempted));
}

#[test]
fn upload_stride_mismatch_is_rejected() {
    let extent = Extent { width: 4, height: 4 };
    let pixels = cyan_4x4();
    let mut texture = create_texture(extent).unwrap();
    let zeroed = texture.data.clone();

    let bad = DataLayout { offset: 0, bytes_per_row: 17, rows_per_image: 4 };
    assert_eq!(write_texture(&mut texture, &pixels, bad, extent), Err(GpuError::LayoutMismatch));
    assert_eq!(texture.data, zeroed);

    let offset = DataLayout { offset: 1, bytes_per_row: 16, rows_per_image: 4 };
    assert_eq!(write_texture(&mut texture, &pixels, offset, extent), Err(GpuError::LayoutMismatch));
}

#[test]
fn copy_stride_mismatch_is_rejected_before_recording() {
    let extent = Extent { width: 4, height: 4 };
    let pixels = cyan_4x4();
    let layout = matching_layout(extent);

    let mut texture = create_texture(extent).unwrap();
    write_texture(&mut texture, &pixels, layout, extent).unwrap();
    let mut buffer = create_staging_buffer(64).unwrap();
    let mut encoder = create_command_encoder();

    let bad = DataLayout { offset: 0, bytes_per_row: 12, rows_per_image: 4 };
    assert_eq!(
        copy_texture_to_buffer(&mut encoder, &texture, bad, extent, &buffer),
        Err(GpuError::LayoutMismatch)
    );
    assert!(encoder.pending.is_none());

    // nothing was recorded, so a submission leaves the buffer unready
    submit_and_wait(encoder, &mut buffer);
    assert_eq!(read_mapped_range(&buffer, 0, 1), Err(GpuError::UnmappedBufferReadAttempted));
}

#[test]
fn copy_to_wrongly_sized_buffer_is_rejected() {
    let extent = Extent { width: 4, height: 4 };
    let pixels = cyan_4x4();
    let layout = matching_layout(extent);

    let mut texture = create_texture(extent).unwrap();
    write_texture(&mut texture, &pixels, layout, extent).unwrap();
    let buffer = create_staging_buffer(63).unwrap();
    let mut encoder = create_command_encoder();
    assert_eq!(
        copy_texture_to_buffer(&mut encoder, &texture, layout, extent, &buffer),
        Err(GpuError::LayoutMismatch)
    );
}

#[test]
fn zero_extent_is_rejected() {
    let r = create_texture(Extent { width: 0, height: 4 });
    assert_eq!(r.unwrap_err(), GpuError::InvalidTextureExtent);
    let r = create_texture(Extent { width: 4, height: 0 });
    assert_eq!(r.unwrap_err(), GpuError::InvalidTextureExtent);
    let pixels = cyan_4x4();
    assert_eq!(upload_copy_readback(0, 4, &pixels), Err(GpuError::InvalidTextureExtent));
}

#[test]
fn oversized_extent_is_rejected() {
    let r = create_texture(Extent { width: u32::MAX / 4 + 1, height: 1 });
    assert_eq!(r.unwrap_err(), GpuError::InvalidTextureExtent);
}

#[test]
fn wrong_pixel_buffer_length_is_rejected() {
    let mut pixels = cyan_4x4();
    pixels.pop();
    assert_eq!(upload_copy_readback(4, 4, &pixels), Err(GpuError::LayoutMismatch));
}

#[test]
fn out_of_range_read_is_rejected() {
    let extent = Extent { width: 4, height: 4 };
    let pixels = cyan_4x4();
    let layout = matching_layout(extent);

    let mut texture = create_texture(extent).unwrap();
    write_texture(&mut texture, &pixels, layout, extent).unwrap();
    let mut buffer = create_staging_buffer(64).unwrap();
    let mut encoder = create_command_encoder();
    copy_texture_to_buffer(&mut encoder, &texture, layout, extent, &buffer).unwrap();
    submit_and_wait(encoder, &mut buffer);

    assert_eq!(read_mapped_range(&buffer, 0, 65), Err(GpuError::RangeOutOfBounds));
    assert_eq!(read_mapped_range(&buffer, 5, 2), Err(GpuError::RangeOutOfBounds));
    assert!(read_mapped_range(&buffer, 64, 64).is_ok());
}

#[test]
fn texture_starts_zero_filled() {
    let texture = create_texture(Extent { width: 2, height: 3 }).unwrap();
    assert_eq!(texture.width, 2);
    assert_eq!(texture.height, 3);
    assert_eq!(texture.data, vec![0u8; 24]);
}

#[test]
fn staging_buffer_starts_zero_filled_and_unready() {
    let buffer = create_staging_buffer(16).unwrap();
    assert_eq!(buffer.size, 16);
    assert_eq!(buffer.data, vec![0u8; 16]);
    assert!(!buffer.ready);
}
