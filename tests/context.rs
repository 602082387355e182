use webgpu::actor::WGPU;
use webgpu::context::{
    image_format, swap_chain_descriptor, swap_chain_usage, GPUCanvasContext, GPUTextureFormat,
    SwapChainTeardown, WebGPUContextId,
};
use webgpu::images::{PresentOutcome, WGPUExternalImages};
use webgpu::presentation::{ImageFormat, ImageKey, ImageSize};

#[test]
fn usage_always_has_lowest_bit() {
    assert_eq!(swap_chain_usage(0), 1);
    assert_eq!(swap_chain_usage(4), 5);
    assert_eq!(swap_chain_usage(5), 5);
    assert_eq!(swap_chain_usage(u32::MAX), u32::MAX);
}

#[test]
fn only_eight_bit_formats_present() {
    assert_eq!(image_format(GPUTextureFormat::Rgba8unorm), Some(ImageFormat::RGBA8));
    assert_eq!(image_format(GPUTextureFormat::Bgra8unorm), Some(ImageFormat::BGRA8));
    assert_eq!(image_format(GPUTextureFormat::Rgba16float), None);
    assert_eq!(swap_chain_descriptor(GPUTextureFormat::Rgba32float, 4, 4), None);
    let d = swap_chain_descriptor(GPUTextureFormat::Bgra8unorm, 100, 30).unwrap();
    assert_eq!(d.size, ImageSize { width: 100, height: 30 });
    assert_eq!(d.stride, Some(512));
    assert_eq!(d.offset, 0);
    assert!(d.is_opaque);
    assert_eq!(swap_chain_descriptor(GPUTextureFormat::Rgba8unorm, 0x2000_0000, 1), None);
}

#[test]
fn configure_tears_down_the_previous_chain() {
    let mut ctx = GPUCanvasContext::new(WebGPUContextId(8), 16, 16);
    assert_eq!(ctx.context_id(), WebGPUContextId(8));
    assert!(ctx.send_swap_chain_present(1).is_none());
    assert!(ctx.configure_swap_chain(3, GPUTextureFormat::Rgba16float, 2).is_none());
    let plan = ctx.configure_swap_chain(3, GPUTextureFormat::Rgba8unorm, 2).unwrap();
    assert_eq!(plan.destroy, None);
    let req = plan.create.unwrap();
    assert_eq!((req.device_id, req.external_id, req.usage), (3, 8, 3));
    let key = ImageKey { namespace: 0, key: 1 };
    ctx.swap_chain_created(key, 55);
    let present = ctx.send_swap_chain_present(6).unwrap();
    assert_eq!((present.external_id, present.texture_id, present.encoder_id), (8, 55, 6));
    let again = ctx.configure_swap_chain(3, GPUTextureFormat::Rgba8unorm, 2).unwrap();
    assert_eq!(again.destroy, Some(SwapChainTeardown { external_id: 8, image_key: key }));
    assert_eq!(again.create.unwrap().image_desc, req.image_desc);
}

#[test]
fn recreate_keeps_format_usage_and_device() {
    let mut ctx = GPUCanvasContext::new(WebGPUContextId(8), 16, 16);
    let plan = ctx.recreate(20, 10).unwrap();
    assert!(plan.destroy.is_none() && plan.create.is_none());
    ctx.configure_swap_chain(3, GPUTextureFormat::Bgra8unorm, 7).unwrap();
    ctx.swap_chain_created(ImageKey { namespace: 0, key: 9 }, 55);
    let plan = ctx.recreate(64, 8).unwrap();
    assert_eq!(plan.destroy.unwrap().image_key, ImageKey { namespace: 0, key: 9 });
    let req = plan.create.unwrap();
    assert_eq!((req.device_id, req.usage, req.format), (3, 7, GPUTextureFormat::Bgra8unorm));
    assert_eq!(req.image_desc.size, ImageSize { width: 64, height: 8 });
    assert_eq!(req.image_desc.stride, Some(512));
    assert_eq!((ctx.width, ctx.height), (64, 8));
    assert!(ctx.texture_id.is_none());
}

#[test]
fn reconfigure_after_present_gives_same_image() {
    let mut ctx = GPUCanvasContext::new(WebGPUContextId(8), 4, 2);
    let mut actor: WGPU<u32> = WGPU::new(0);
    let mut images = WGPUExternalImages::new();
    let key = ImageKey { namespace: 0, key: 1 };
    let first = ctx.configure_swap_chain(3, GPUTextureFormat::Rgba8unorm, 6).unwrap().create.unwrap();
    actor
        .create_swap_chain(&mut images, first.device_id, &vec![1, 2], first.external_id, key, first.image_desc)
        .unwrap();
    ctx.swap_chain_created(key, 70);
    assert!(matches!(actor.swap_chain_present(&mut images, 8).0, PresentOutcome::Copy(_)));
    actor.update_webrender_data(&mut images, 2, 8, vec![3; 512]).unwrap();
    let first_size = images.lock(8).1;
    let second = ctx.configure_swap_chain(3, GPUTextureFormat::Rgba8unorm, 6).unwrap().create.unwrap();
    let key2 = ImageKey { namespace: 0, key: 2 };
    actor
        .create_swap_chain(&mut images, second.device_id, &vec![3, 4], second.external_id, key2, second.image_desc)
        .unwrap()
        .unwrap();
    let s = images.images.get(&8).unwrap();
    assert_eq!(s.size, first_size);
    assert_eq!(s.image_desc, first.image_desc);
    assert_eq!(s.image_desc.format, ImageFormat::RGBA8);
}

#[test]
fn swap_chain_reports_its_configuration() {
    let mut ctx = GPUCanvasContext::new(WebGPUContextId(2), 8, 8);
    ctx.configure_swap_chain(11, GPUTextureFormat::Rgba8unorm, 16).unwrap();
    let chain = ctx.swap_chain.unwrap();
    assert_eq!(chain.format(), GPUTextureFormat::Rgba8unorm);
    assert_eq!(chain.usage(), 17);
    assert_eq!(chain.device(), 11);
    let key = ImageKey { namespace: 3, key: 4 };
    assert_eq!(chain.destroy(2, key), SwapChainTeardown { external_id: 2, image_key: key });
}

#[test]
fn layout_shows_placeholder_until_image_exists() {
    let mut ctx = GPUCanvasContext::new(WebGPUContextId(2), 8, 8);
    assert_eq!(ctx.layout_handle(), ImageKey { namespace: 0, key: 0 });
    ctx.configure_swap_chain(1, GPUTextureFormat::Bgra8unorm, 0).unwrap();
    ctx.swap_chain_created(ImageKey { namespace: 5, key: 6 }, 9);
    assert_eq!(ctx.layout_handle(), ImageKey { namespace: 5, key: 6 });
}
