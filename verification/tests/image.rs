use xcb_util::handle::Handle;
use xcb_util::image::shm::{
    self, AttachSegment, CreateImage, Failure, Format, GetSegment, Image, Release, Setup,
};
use xcb_util::image::{get, is_native, to_native};

fn setup() -> Setup {
    Setup {
        pixmap_formats: vec![
            Format { depth: 1, bits_per_pixel: 1, scanline_pad: 32 },
            Format { depth: 24, bits_per_pixel: 32, scanline_pad: 32 },
            Format { depth: 24, bits_per_pixel: 24, scanline_pad: 8 },
            Format { depth: 32, bits_per_pixel: 32, scanline_pad: 32 },
        ],
        bitmap_format_scanline_unit: 32,
        image_byte_order: 0,
        bitmap_format_bit_order: 1,
    }
}

fn header() -> CreateImage {
    CreateImage {
        width: 640,
        height: 480,
        format: 2,
        scanline_pad: 32,
        depth: 24,
        bits_per_pixel: 32,
        unit: 32,
        byte_order: 0,
        bit_order: 1,
    }
}

#[test]
fn null_handle_is_no_object() {
    assert!(Handle::null().is_null());
    assert_eq!(Handle::null().non_null(), None);
    assert_eq!(Handle::null().acquired(), Err(()));
    let handle = Handle { address: 0x1000 };
    assert!(!handle.is_null());
    assert_eq!(handle.non_null(), Some(handle));
    assert_eq!(handle.acquired(), Ok(handle));
}

#[test]
fn fetched_image_must_exist() {
    assert_eq!(get(Handle::null()), Err(()));
    assert_eq!(get(Handle { address: 8 }), Ok(Handle { address: 8 }));
}

#[test]
fn native_image_converts_to_itself() {
    let image = Handle { address: 0x1000 };
    assert!(is_native(image, image));
    assert!(!is_native(image, Handle { address: 0x2000 }));
    assert!(!is_native(image, Handle::null()));
    assert_eq!(to_native(image, image), None);
    assert_eq!(to_native(image, Handle::null()), None);
    assert_eq!(to_native(image, Handle { address: 0x2000 }), Some(Handle { address: 0x2000 }));
}

#[test]
fn first_format_of_the_depth_is_taken() {
    let formats = setup().pixmap_formats;
    assert_eq!(
        shm::find_format(&formats, 24),
        Some(Format { depth: 24, bits_per_pixel: 32, scanline_pad: 32 })
    );
    assert_eq!(shm::find_format(&formats, 8), None);
    assert_eq!(shm::find_format(&[], 24), None);
}

#[test]
fn chain_starts_with_the_header() {
    assert_eq!(shm::create(&setup(), 24, 640, 480), Ok(header()));
    assert_eq!(shm::create(&setup(), 15, 640, 480), Err(()));
}

#[test]
fn failed_header_leaves_nothing_to_release() {
    assert_eq!(
        header().created(None),
        Err(Failure { destroy_image: false, remove_segment: None })
    );
}

#[test]
fn failed_segment_releases_the_header() {
    let second = header().created(Some(1_228_800)).unwrap();
    assert_eq!(second, GetSegment { width: 640, height: 480, size: 1_228_800, mode: 0o666 });
    assert_eq!(second.got(-1), Err(Failure { destroy_image: true, remove_segment: None }));
}

#[test]
fn failed_mapping_releases_header_and_segment() {
    let third = header().created(Some(1_228_800)).unwrap().got(42).unwrap();
    assert_eq!(third, AttachSegment { width: 640, height: 480, id: 42 });
    assert_eq!(
        third.attached(0x40_0001, -1),
        Err(Failure { destroy_image: true, remove_segment: Some(42) })
    );
}

#[test]
fn whole_chain_gives_the_image() {
    let image = shm::create(&setup(), 24, 640, 480)
        .unwrap()
        .created(Some(1_228_800))
        .unwrap()
        .got(42)
        .unwrap()
        .attached(0x40_0001, 0x7f00_0000)
        .unwrap();
    assert_eq!(
        image,
        Image { shmseg: 0x40_0001, shmid: 42, shmaddr: 0x7f00_0000, width: 640, height: 480 }
    );
    assert_eq!(
        image.release(),
        [
            Release::Detach { shmseg: 0x40_0001 },
            Release::Unmap { shmaddr: 0x7f00_0000 },
            Release::Remove { shmid: 42 },
        ]
    );
}

#[test]
fn area_arrives_on_status_one() {
    let image = Image { shmseg: 1, shmid: 2, shmaddr: 3, width: 640, height: 480 };
    assert_eq!(shm::get(&image, 640, 480, 1), Ok(()));
    assert_eq!(shm::get(&image, 1, 1, 0), Err(()));
    assert_eq!(shm::get(&image, 1, 1, 2), Err(()));
    assert_eq!(shm::get(&image, 0, 0, -1), Err(()));
}

#[test]
fn area_is_sent_unless_null_comes_back() {
    assert_eq!(shm::put(Handle { address: 0x1000 }), Ok(()));
    assert_eq!(shm::put(Handle::null()), Err(()));
}
