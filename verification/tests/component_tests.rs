use frame_pipeline::constant_buffer::ConstantBufferRegion;
use frame_pipeline::recorder::{CommandList, GraphicsCommand};
use frame_pipeline::surface::PresentationSurface;
use frame_pipeline::weak_ptr::WeakPtr;

#[test]
fn null_weak_ptr_is_null() {
    let p: WeakPtr<u32> = WeakPtr::null();
    assert!(p.is_null());
    assert_eq!(p.as_ptr(), 0);
    assert_eq!(p.as_mut_ptr(), 0);
}

#[test]
fn weak_ptr_from_raw_keeps_address() {
    let p: WeakPtr<u32> = WeakPtr::from_raw(0xDEAD0);
    assert!(!p.is_null());
    assert_eq!(p.as_ptr(), 0xDEAD0);
    assert_eq!(p.as_mut_ptr(), 0xDEAD0);
}

#[test]
fn weak_ptr_clone_designates_same_object() {
    let p: WeakPtr<u32> = WeakPtr::from_raw(64);
    let q = p.clone();
    assert_eq!(q.as_ptr(), 64);
    let r = p;
    assert_eq!(r.as_ptr(), p.as_ptr());
}

#[test]
fn surface_reports_current_image() {
    let mut s = PresentationSurface::create(3, 2);
    assert_eq!(s.image_count, 3);
    assert_eq!(s.current_image_index(), 2);
    s.present(0);
    assert_eq!(s.current_image_index(), 0);
    s.present(0);
    assert_eq!(s.current_image_index(), 0);
}

#[test]
fn command_list_lifecycle() {
    let mut list = CommandList::create();
    assert!(list.recording);
    list.record(GraphicsCommand::SetRootSignature);
    list.record(GraphicsCommand::SetPrimitiveTopology);
    list.close();
    assert!(!list.recording);
    assert_eq!(list.commands.len(), 2);
    list.reset();
    assert!(list.recording);
    assert_eq!(list.commands.len(), 0);
}

#[test]
fn fresh_constant_buffer_is_zeroed() {
    let region = ConstantBufferRegion::new();
    let bytes = region.read_back();
    assert_eq!(bytes.len(), 256);
    assert!(bytes.iter().all(|b| *b == 0));
}

#[test]
fn constant_buffer_write_is_little_endian() {
    let mut region = ConstantBufferRegion::new();
    let mut words: Vec<u32> = vec![0; 16];
    words[0] = 0x0403_0201;
    words[15] = 0xAABB_CCDD;
    region.write_matrix(&words);
    assert_eq!(region.byte_at(0), 0x01);
    assert_eq!(region.byte_at(1), 0x02);
    assert_eq!(region.byte_at(2), 0x03);
    assert_eq!(region.byte_at(3), 0x04);
    assert_eq!(region.byte_at(60), 0xDD);
    assert_eq!(region.byte_at(61), 0xCC);
    assert_eq!(region.byte_at(62), 0xBB);
    assert_eq!(region.byte_at(63), 0xAA);
    assert_eq!(region.byte_at(64), 0);
}
