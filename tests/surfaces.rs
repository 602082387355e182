use webgpu::actor::{SwapChainError, WGPU};
use webgpu::bridge::MapCompletion;
use webgpu::images::{PresentOutcome, WGPUExternalImages};
use webgpu::presentation::{ImageDescriptor, ImageFormat, ImageKey, ImageSize};

fn desc(width: i32, height: i32) -> ImageDescriptor {
    ImageDescriptor {
        format: ImageFormat::RGBA8,
        size: ImageSize { width, height },
        stride: None,
        offset: 0,
        is_opaque: true,
    }
}

const KEY: ImageKey = ImageKey { namespace: 1, key: 2 };

fn setup(ids: Vec<u64>) -> (WGPU<u32>, WGPUExternalImages) {
    let mut actor: WGPU<u32> = WGPU::new(0);
    let mut images = WGPUExternalImages::new();
    let r = actor.create_swap_chain(&mut images, 5, &ids, 42, KEY, desc(4, 2));
    assert!(matches!(r, Ok(None)));
    (actor, images)
}

#[test]
fn lock_before_present_is_empty() {
    let (_actor, mut images) = setup(vec![1, 2]);
    let (bytes, size) = images.lock(42);
    assert!(bytes.is_empty());
    assert_eq!(size, ImageSize { width: 0, height: 0 });
    let (bytes, size) = images.lock(7);
    assert!(bytes.is_empty());
    assert_eq!(size, ImageSize { width: 0, height: 0 });
    images.unlock(42);
    images.unlock(7);
    assert!(images.locked_ids.is_empty());
}

#[test]
fn present_then_publish_shows_whole_frame() {
    let (mut actor, mut images) = setup(vec![1, 2]);
    let (outcome, registered) = actor.swap_chain_present(&mut images, 42);
    assert!(registered);
    let plan = match outcome {
        PresentOutcome::Copy(plan) => plan,
        other => panic!("unexpected {:?}", other),
    };
    assert_eq!(plan.buffer_id, 2);
    assert!(plan.create_buffer);
    assert_eq!(plan.bytes_per_row, 256);
    assert_eq!(plan.buffer_size, 512);
    assert_eq!((plan.width, plan.height), (4, 2));
    assert_eq!((plan.device_id, plan.queue_id), (5, 5));
    assert_eq!(
        actor.map_completed(2, true),
        MapCompletion::Publish { buffer_id: 2, external_id: 42, size: 512 }
    );
    let frame: Vec<u8> = (0..512u32).map(|i| (i % 251) as u8).collect();
    let update = actor.update_webrender_data(&mut images, 2, 42, frame.clone()).unwrap();
    assert_eq!(update.image_key, KEY);
    assert_eq!(update.external_image_id, 42);
    assert!(!actor.pending.contains(2));
    let (bytes, size) = images.lock(42);
    assert_eq!(bytes, &frame[..]);
    assert_eq!(size, ImageSize { width: 4, height: 2 });
}

#[test]
fn publish_of_wrong_length_is_refused() {
    let (mut actor, mut images) = setup(vec![1]);
    let _ = actor.swap_chain_present(&mut images, 42);
    assert!(actor.update_webrender_data(&mut images, 1, 42, vec![0; 10]).is_none());
    assert!(images.lock(42).0.is_empty());
    assert!(actor.update_webrender_data(&mut images, 1, 43, vec![0; 512]).is_none());
}

#[test]
fn full_queue_drops_the_frame() {
    let ids: Vec<u64> = (1..=10).collect();
    let (mut actor, mut images) = setup(ids);
    let first: Vec<u8> = vec![9; 512];
    let _ = actor.swap_chain_present(&mut images, 42);
    actor.update_webrender_data(&mut images, 10, 42, first.clone()).unwrap();
    let mut created = 0;
    for _ in 0..10 {
        match actor.swap_chain_present(&mut images, 42).0 {
            PresentOutcome::Copy(plan) => {
                if plan.create_buffer {
                    created += 1;
                }
            }
            other => panic!("unexpected {:?}", other),
        }
    }
    assert_eq!(created, 9);
    assert_eq!(actor.swap_chain_present(&mut images, 42), (PresentOutcome::NoStagingBuffer, false));
    assert_eq!(images.lock(42).0, &first[..]);
    assert_eq!(actor.swap_chain_present(&mut images, 41), (PresentOutcome::NotFound, false));
}

#[test]
fn destroy_accounts_for_every_buffer() {
    let ids: Vec<u64> = (1..=10).collect();
    let (mut actor, mut images) = setup(ids);
    for _ in 0..3 {
        let _ = actor.swap_chain_present(&mut images, 42);
    }
    actor.update_webrender_data(&mut images, 10, 42, vec![1; 512]).unwrap();
    let rel = actor.destroy_swap_chain(&mut images, 42).unwrap();
    assert_eq!(rel.unmap_and_destroy, vec![9, 8]);
    assert_eq!(rel.destroy, vec![10]);
    assert_eq!(rel.recycle, vec![1, 2, 3, 4, 5, 6, 7]);
    assert!(!actor.pending.contains(9));
    assert!(!actor.pending.contains(8));
    assert!(images.images.is_empty());
    assert!(actor.destroy_swap_chain(&mut images, 42).is_none());
}

#[test]
fn reconfigure_replaces_surface_and_releases_old_one() {
    let (mut actor, mut images) = setup(vec![1, 2]);
    let _ = actor.swap_chain_present(&mut images, 42);
    let r = actor.create_swap_chain(&mut images, 5, &vec![3, 4], 42, KEY, desc(4, 2));
    let rel = r.unwrap().unwrap();
    assert_eq!(rel.unmap_and_destroy, vec![2]);
    assert_eq!(rel.recycle, vec![1]);
}

#[test]
fn swap_chain_setup_errors() {
    let mut actor: WGPU<u32> = WGPU::new(0);
    let mut images = WGPUExternalImages::new();
    assert_eq!(
        actor.create_swap_chain(&mut images, 5, &vec![1], 42, KEY, desc(-1, 2)).unwrap_err(),
        SwapChainError::BadSize
    );
    assert_eq!(
        actor.create_swap_chain(&mut images, 5, &vec![1, 1], 42, KEY, desc(4, 2)).unwrap_err(),
        SwapChainError::BadBufferIds
    );
    let many: Vec<u64> = (0..11).collect();
    assert_eq!(
        actor.create_swap_chain(&mut images, 5, &many, 42, KEY, desc(4, 2)).unwrap_err(),
        SwapChainError::BadBufferIds
    );
    assert!(images.images.is_empty());
}
