use crabgrab::capture_stream::CapturePixelFormat;
use crabgrab::feature::bitmap::{
    buffers_fit_check, get_bitmap, pooled_bitmap_from_buffers, try_get_pooled_bitmap, BitmapPool, FrameBitmap, FrameBitmapPool,
    FramePlaneBuffers, VideoFrameData, VideoFramePlane, VideoRange,
};

fn plane(data: Vec<u8>, width: usize, height: usize, bytes_per_row: usize) -> VideoFramePlane {
    VideoFramePlane { data, width, height, bytes_per_row }
}

#[test]
fn bgra_rows_are_copied_without_padding() {
    // two rows of two pixels, each row padded to 12 bytes
    let data = vec![
        1, 2, 3, 4, 5, 6, 7, 8, 99, 99, 99, 99,
        9, 10, 11, 12, 13, 14, 15, 16, 99, 99, 99, 99,
    ];
    let bitmap = get_bitmap(&VideoFrameData::Bgra8888(plane(data, 2, 2, 12)));
    match bitmap {
        FrameBitmap::BgraUnorm8x4(b) => {
            assert_eq!((b.width, b.height), (2, 2));
            assert_eq!(b.data, vec![[1, 2, 3, 4], [5, 6, 7, 8], [9, 10, 11, 12], [13, 14, 15, 16]]);
        },
        _ => panic!("expected a BGRA bitmap"),
    }
}

#[test]
fn packed_pixels_are_little_endian_words() {
    let data = vec![0x01, 0x02, 0x03, 0xC0, 0xFF, 0xFF, 0xFF, 0xFF];
    let bitmap = get_bitmap(&VideoFrameData::ArgbPacked2101010(plane(data, 1, 2, 4)));
    match bitmap {
        FrameBitmap::ArgbUnormPacked2101010(b) => {
            assert_eq!(b.data, vec![0xC0030201, 0xFFFFFFFF]);
            assert_eq!((b.width, b.height), (1, 2));
        },
        _ => panic!("expected a packed bitmap"),
    }
}

#[test]
fn ycbcr_planes_and_ranges() {
    let luma = plane(vec![10, 11, 0, 12, 13, 0], 2, 2, 3);
    let chroma = plane(vec![100, 101, 7], 1, 1, 3);
    for (data, range) in [
        (VideoFrameData::V420 { luma: plane(luma.data.clone(), 2, 2, 3), chroma: plane(chroma.data.clone(), 1, 1, 3) }, VideoRange::Video),
        (VideoFrameData::F420 { luma, chroma }, VideoRange::Full),
    ] {
        match get_bitmap(&data) {
            FrameBitmap::YCbCr(b) => {
                assert_eq!(b.luma_data, vec![10, 11, 12, 13]);
                assert_eq!((b.luma_width, b.luma_height), (2, 2));
                assert_eq!(b.chroma_data, vec![[100, 101]]);
                assert_eq!((b.chroma_width, b.chroma_height), (1, 1));
                assert_eq!(b.range, range);
            },
            _ => panic!("expected a YCbCr bitmap"),
        }
    }
}

#[test]
fn empty_planes_give_empty_bitmaps() {
    match get_bitmap(&VideoFrameData::Bgra8888(plane(vec![], 0, 0, 0))) {
        FrameBitmap::BgraUnorm8x4(b) => assert!(b.data.is_empty()),
        _ => panic!("expected a BGRA bitmap"),
    }
}

#[test]
fn pool_grants_fresh_buffers_up_to_its_maximum() {
    let mut pool: BitmapPool<u8> = BitmapPool::new(0, 1, (0, 0));
    let first = pool.try_get_bitmap((2, 3)).unwrap();
    assert_eq!(first.len(), 6);
    assert_eq!((first.width, first.height), (2, 3));
    assert!(first.as_ref().iter().all(|v| *v == 0));
    // fresh buffers do not count against the maximum
    assert!(pool.try_get_bitmap((2, 3)).is_some());
}

#[test]
fn returned_buffers_are_reused() {
    let mut pool: BitmapPool<u8> = BitmapPool::new(1, 0, (2, 2));
    let first = pool.try_get_bitmap((2, 2)).unwrap();
    assert_eq!(first.as_ref(), &[0, 0, 0, 0]);
    // the pool is empty and at its maximum of 0
    assert!(pool.try_get_bitmap((2, 2)).is_none());
    pool.release(first);
    let again = pool.try_get_bitmap((3, 3)).unwrap();
    assert_eq!(again.len(), 4);
    assert_eq!((again.width, again.height), (3, 3));
}

#[test]
fn a_buffer_too_large_is_dropped() {
    let mut pool: BitmapPool<u8> = BitmapPool::new(1, 1, (4, 4));
    // the free buffer holds 16 values, more than 2 x 2: it is dropped, and the count falls to 0
    let b = pool.try_get_bitmap((2, 2)).unwrap();
    assert_eq!(b.len(), 4);
    pool.free_pooled();
}

#[test]
fn pooled_bitmaps_copy_frames() {
    let mut pool = FrameBitmapPool::new_with_initial_capacity(1, (2, 1), 1, CapturePixelFormat::Bgra8888);
    let data = VideoFrameData::Bgra8888(plane(vec![1, 2, 3, 4, 5, 6, 7, 8], 2, 1, 8));
    match try_get_pooled_bitmap(&data, &mut pool).unwrap() {
        FrameBitmap::BgraUnorm8x4(b) => {
            assert_eq!(b.data.as_ref(), &[[1, 2, 3, 4], [5, 6, 7, 8]]);
            assert_eq!((b.width, b.height), (2, 1));
        },
        _ => panic!("expected a BGRA bitmap"),
    }
    let mut empty = FrameBitmapPool::new(0);
    assert!(try_get_pooled_bitmap(&data, &mut empty).is_none());
    let ycbcr = VideoFrameData::F420 { luma: plane(vec![1, 2], 2, 1, 2), chroma: plane(vec![3, 4], 1, 1, 2) };
    let mut ycbcr_pool = FrameBitmapPool::new(2);
    match try_get_pooled_bitmap(&ycbcr, &mut ycbcr_pool).unwrap() {
        FrameBitmap::YCbCr(b) => {
            assert_eq!(b.luma_data.as_ref(), &[1, 2]);
            assert_eq!(b.chroma_data.as_ref(), &[[3, 4]]);
            assert_eq!(b.range, VideoRange::Full);
        },
        _ => panic!("expected a YCbCr bitmap"),
    }
    empty.free_pooled();
}

#[test]
fn frames_are_copied_into_given_buffers() {
    let mut quads: BitmapPool<[u8; 4]> = BitmapPool::new(1, 1, (2, 1));
    let data = VideoFrameData::Bgra8888(plane(vec![1, 2, 3, 4, 5, 6, 7, 8, 0, 0], 2, 1, 10));
    let buffers = FramePlaneBuffers::Bgra8888(quads.try_get_bitmap((2, 1)).unwrap());
    assert!(buffers_fit_check(&data, &buffers));
    match pooled_bitmap_from_buffers(&data, buffers) {
        FrameBitmap::BgraUnorm8x4(b) => {
            assert_eq!(b.data.as_ref(), &[[1, 2, 3, 4], [5, 6, 7, 8]]);
            assert_eq!((b.width, b.height), (2, 1));
        },
        _ => panic!("wrong bitmap kind"),
    }

    let mut luma: BitmapPool<u8> = BitmapPool::new(0, 1, (0, 0));
    let mut chroma: BitmapPool<[u8; 2]> = BitmapPool::new(0, 1, (0, 0));
    let ycbcr = VideoFrameData::V420 { luma: plane(vec![1, 2, 9, 7, 8, 9], 2, 2, 3), chroma: plane(vec![3, 4], 1, 1, 2) };
    let wrong = FramePlaneBuffers::YCbCr { luma: luma.try_get_bitmap((2, 1)).unwrap(), chroma: chroma.try_get_bitmap((1, 1)).unwrap() };
    assert!(!buffers_fit_check(&ycbcr, &wrong));
    assert!(!buffers_fit_check(&data, &wrong));
    // a returned buffer with fewer values than pixels is handed out again, but does not fit
    let mut small: BitmapPool<[u8; 4]> = BitmapPool::new(1, 1, (1, 1));
    let short = FramePlaneBuffers::Bgra8888(small.try_get_bitmap((2, 1)).unwrap());
    assert!(!buffers_fit_check(&data, &short));
    let mut luma: BitmapPool<u8> = BitmapPool::new(0, 1, (0, 0));
    let mut chroma: BitmapPool<[u8; 2]> = BitmapPool::new(0, 1, (0, 0));
    let buffers = FramePlaneBuffers::YCbCr { luma: luma.try_get_bitmap((2, 2)).unwrap(), chroma: chroma.try_get_bitmap((1, 1)).unwrap() };
    assert!(buffers_fit_check(&ycbcr, &buffers));
    match pooled_bitmap_from_buffers(&ycbcr, buffers) {
        FrameBitmap::YCbCr(b) => {
            assert_eq!(b.luma_data.as_ref(), &[1, 2, 7, 8]);
            assert_eq!(b.chroma_data.as_ref(), &[[3, 4]]);
            assert_eq!(b.range, VideoRange::Video);
        },
        _ => panic!("wrong bitmap kind"),
    }
}

#[test]
fn pooled_bitmap_holds_what_the_bitmap_holds() {
    let ycbcr = VideoFrameData::F420 { luma: plane(vec![1, 2, 0, 3, 4, 0], 2, 2, 3), chroma: plane(vec![5, 6, 7], 1, 1, 3) };
    let plain = get_bitmap(&ycbcr);
    let mut pool = FrameBitmapPool::new(1);
    let pooled = try_get_pooled_bitmap(&ycbcr, &mut pool).unwrap();
    match (plain, pooled) {
        (FrameBitmap::YCbCr(a), FrameBitmap::YCbCr(b)) => {
            assert_eq!(a.luma_data.as_slice(), b.luma_data.as_ref());
            assert_eq!(a.chroma_data.as_slice(), b.chroma_data.as_ref());
            assert_eq!((a.luma_width, a.luma_height, a.chroma_width, a.chroma_height), (b.luma_width, b.luma_height, b.chroma_width, b.chroma_height));
            assert_eq!(a.range, b.range);
        },
        _ => panic!("wrong bitmap kinds"),
    }
}
