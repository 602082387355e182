//! The canvas side of a swap chain: what configuring, resizing and presenting a
//! canvas asks of the GPU actor.
use vstd::prelude::*;

use crate::presentation::{padded_stride, stride_of, ImageDescriptor, ImageFormat, ImageKey, ImageSize};

verus! {

/// Identifies a canvas context; it is also the external-image identifier of its surface.
#[derive(Clone, Copy, Debug, PartialEq, Eq, Structural, Hash, PartialOrd, Ord)]
pub struct WebGPUContextId(pub u64);

/// Texture formats a swap chain may be asked for.
#[derive(Clone, Copy, Debug, PartialEq, Eq, Structural)]
pub enum GPUTextureFormat {
    Rgba8unorm,
    Rgba8unormSrgb,
    Bgra8unorm,
    Bgra8unormSrgb,
    Rgba16float,
    Rgba32float,
}

/// The compositor format of a presentable texture format.
pub open spec fn image_format_of(format: GPUTextureFormat) -> Option<ImageFormat> {
    match format {
        GPUTextureFormat::Rgba8unorm => Some(ImageFormat::RGBA8),
        GPUTextureFormat::Bgra8unorm => Some(ImageFormat::BGRA8),
        _ => None,
    }
}

/// The compositor format of `format`; `None` when a swap chain cannot present it.
pub fn image_format(format: GPUTextureFormat) -> (r: Option<ImageFormat>)
    ensures
        r == image_format_of(format),
{
    match format {
        GPUTextureFormat::Rgba8unorm => Some(ImageFormat::RGBA8),
        GPUTextureFormat::Bgra8unorm => Some(ImageFormat::BGRA8),
        _ => None,
    }
}

/// A swap chain's texture usage always includes the lowest usage bit (copy source).
pub open spec fn swap_chain_usage_of(usage: u32) -> u32 {
    if usage % 2 == 0 {
        (usage + 1) as u32
    } else {
        usage
    }
}

pub fn swap_chain_usage(usage: u32) -> (r: u32)
    ensures
        r == swap_chain_usage_of(usage),
        r % 2 == 1,
{
    if usage % 2 == 0 {
        usage + 1
    } else {
        usage
    }
}

/// The image that a swap chain of `format` at `width` x `height` registers with the
/// compositor, when the format can be presented and the sizes fit.
pub open spec fn swap_chain_descriptor_of(format: GPUTextureFormat, width: u32, height: u32) -> Option<
    ImageDescriptor,
> {
    if image_format_of(format).is_some() && width <= 0x1fff_ff00 && height <= 0x7fff_ffff {
        Some(
            ImageDescriptor {
                format: image_format_of(format).unwrap(),
                size: ImageSize { width: width as i32, height: height as i32 },
                stride: Some(stride_of(width as nat) as i32),
                offset: 0,
                is_opaque: true,
            },
        )
    } else {
        None
    }
}

pub fn swap_chain_descriptor(format: GPUTextureFormat, width: u32, height: u32) -> (r: Option<
    ImageDescriptor,
>)
    ensures
        r == swap_chain_descriptor_of(format, width, height),
{
    match image_format(format) {
        None => None,
        Some(image_format) => {
            if width > 0x1fff_ff00 || height > 0x7fff_ffff {
                return None;
            }
            let stride = padded_stride(width);
            Some(
                ImageDescriptor {
                    format: image_format,
                    size: ImageSize { width: width as i32, height: height as i32 },
                    stride: Some(stride as i32),
                    offset: 0,
                    is_opaque: true,
                },
            )
        },
    }
}

/// The swap chain a canvas is configured with.
#[derive(Clone, Copy, Debug, PartialEq, Eq, Structural)]
pub struct GPUSwapChain {
    pub device_id: u64,
    pub format: GPUTextureFormat,
    pub usage: u32,
}

impl GPUSwapChain {
    pub fn format(&self) -> (r: GPUTextureFormat)
        ensures
            r == self.format,
    {
        self.format
    }

    pub fn usage(&self) -> (r: u32)
        ensures
            r == self.usage,
    {
        self.usage
    }

    pub fn device(&self) -> (r: u64)
        ensures
            r == self.device_id,
    {
        self.device_id
    }

    /// What tearing this swap chain's surface down asks of the actor.
    pub fn destroy(&self, external_id: u64, image_key: ImageKey) -> (r: SwapChainTeardown)
        ensures
            r == (SwapChainTeardown { external_id, image_key }),
    {
        SwapChainTeardown { external_id, image_key }
    }
}

/// A swap chain to create: the actor sets up surface `external_id` with
/// `image_desc`, and the canvas creates a texture of `format` and `usage`.
#[derive(Clone, Copy, Debug, PartialEq, Eq, Structural)]
pub struct SwapChainRequest {
    pub device_id: u64,
    pub external_id: u64,
    pub format: GPUTextureFormat,
    pub usage: u32,
    pub image_desc: ImageDescriptor,
}

/// A surface to tear down, and the compositor key of its image.
#[derive(Clone, Copy, Debug, PartialEq, Eq, Structural)]
pub struct SwapChainTeardown {
    pub external_id: u64,
    pub image_key: ImageKey,
}

/// What (re)configuring a canvas asks for: first tear the old surface down, then
/// create the new one.
#[derive(Clone, Copy, Debug, PartialEq, Eq, Structural)]
pub struct SwapChainPlan {
    pub destroy: Option<SwapChainTeardown>,
    pub create: Option<SwapChainRequest>,
}

/// The present request of a canvas.
#[derive(Clone, Copy, Debug, PartialEq, Eq, Structural)]
pub struct SwapChainPresent {
    pub external_id: u64,
    pub texture_id: u64,
    pub encoder_id: u64,
}

pub struct GPUCanvasContext {
    pub context_id: WebGPUContextId,
    pub width: u32,
    pub height: u32,
    pub swap_chain: Option<GPUSwapChain>,
    /// The current texture of the swap chain.
    pub texture_id: Option<u64>,
    pub webrender_image: Option<ImageKey>,
}

impl GPUCanvasContext {
    pub fn new(context_id: WebGPUContextId, width: u32, height: u32) -> (r: Self)
        ensures
            r.context_id == context_id,
            r.width == width,
            r.height == height,
            r.swap_chain.is_none(),
            r.texture_id.is_none(),
            r.webrender_image.is_none(),
    {
        GPUCanvasContext {
            context_id,
            width,
            height,
            swap_chain: None,
            texture_id: None,
            webrender_image: None,
        }
    }

    pub fn context_id(&self) -> (r: WebGPUContextId)
        ensures
            r == self.context_id,
    {
        self.context_id
    }

    /// The surface to tear down before a new one is made: the current one, once
    /// the compositor has given it a key.
    pub open spec fn teardown_of(&self) -> Option<SwapChainTeardown> {
        if self.swap_chain.is_some() && self.webrender_image.is_some() {
            Some(SwapChainTeardown { external_id: self.context_id.0, image_key: self.webrender_image.unwrap() })
        } else {
            None
        }
    }

    fn teardown(&self) -> (r: Option<SwapChainTeardown>)
        ensures
            r == self.teardown_of(),
    {
        match (self.swap_chain, self.webrender_image) {
            (Some(chain), Some(key)) => Some(chain.destroy(self.context_id.0, key)),
            _ => None,
        }
    }

    /// The swap chain that configuring this canvas with `format` and `usage` on
    /// `device_id` creates, when the format can be presented at the canvas's size.
    pub open spec fn configure_request_of(&self, device_id: u64, format: GPUTextureFormat, usage: u32) -> Option<
        SwapChainRequest,
    > {
        match swap_chain_descriptor_of(format, self.width, self.height) {
            Some(image_desc) => Some(
                SwapChainRequest {
                    device_id,
                    external_id: self.context_id.0,
                    format,
                    usage: swap_chain_usage_of(usage),
                    image_desc,
                },
            ),
            None => None,
        }
    }

    /// Configures the canvas's swap chain with `format` and `usage` on `device_id`.
    /// The current one, if any, is torn down first. `None` when the format cannot be
    /// presented or the canvas is too large; nothing changes then.
    pub fn configure_swap_chain(&mut self, device_id: u64, format: GPUTextureFormat, usage: u32) -> (r:
        Option<SwapChainPlan>)
        ensures
            r.is_none() <==> swap_chain_descriptor_of(format, old(self).width, old(self).height).is_none(),
            r.is_none() ==> *final(self) == *old(self),
            r matches Some(plan) ==> {
                &&& plan.destroy == old(self).teardown_of()
                &&& plan.create == old(self).configure_request_of(device_id, format, usage)
                &&& final(self).swap_chain == Some(GPUSwapChain {
                    device_id,
                    format,
                    usage: swap_chain_usage_of(usage),
                })
                &&& final(self).webrender_image.is_none()
                &&& final(self).texture_id.is_none()
                &&& final(self).context_id == old(self).context_id
                &&& final(self).width == old(self).width
                &&& final(self).height == old(self).height
            },
    {
        match swap_chain_descriptor(format, self.width, self.height) {
            None => None,
            Some(image_desc) => {
                let destroy = self.teardown();
                let usage = swap_chain_usage(usage);
                self.swap_chain = Some(GPUSwapChain { device_id, format, usage });
                self.webrender_image = None;
                self.texture_id = None;
                Some(SwapChainPlan {
                    destroy,
                    create: Some(SwapChainRequest {
                        device_id,
                        external_id: self.context_id.0,
                        format,
                        usage,
                        image_desc,
                    }),
                })
            },
        }
    }

    /// Resizes the canvas. A configured swap chain is torn down and made again at
    /// the new size with its format, usage and device. `None` when that new size
    /// cannot be presented; the size is recorded and the swap chain dropped then.
    pub fn recreate(&mut self, width: u32, height: u32) -> (r: Option<SwapChainPlan>)
        ensures
            final(self).width == width,
            final(self).height == height,
            final(self).context_id == old(self).context_id,
            old(self).swap_chain.is_none() ==> r == Some(SwapChainPlan { destroy: None, create: None })
                && final(self).swap_chain.is_none() && final(self).texture_id == old(self).texture_id
                && final(self).webrender_image == old(self).webrender_image,
            old(self).swap_chain matches Some(cfg) ==> {
                let desc = swap_chain_descriptor_of(cfg.format, width, height);
                &&& final(self).webrender_image.is_none()
                &&& final(self).texture_id.is_none()
                &&& (desc.is_none() ==> r.is_none() && final(self).swap_chain.is_none())
                &&& (desc.is_some() ==> r == Some(SwapChainPlan {
                    destroy: old(self).teardown_of(),
                    create: Some(SwapChainRequest {
                        device_id: cfg.device_id,
                        external_id: old(self).context_id.0,
                        format: cfg.format,
                        usage: cfg.usage,
                        image_desc: desc.unwrap(),
                    }),
                }) && final(self).swap_chain == Some(cfg))
            },
    {
        self.width = width;
        self.height = height;
        match self.swap_chain {
            None => Some(SwapChainPlan { destroy: None, create: None }),
            Some(cfg) => {
                let destroy = self.teardown();
                self.webrender_image = None;
                self.texture_id = None;
                match swap_chain_descriptor(cfg.format, width, height) {
                    None => {
                        self.swap_chain = None;
                        None
                    },
                    Some(image_desc) => Some(SwapChainPlan {
                        destroy,
                        create: Some(SwapChainRequest {
                            device_id: cfg.device_id,
                            external_id: self.context_id.0,
                            format: cfg.format,
                            usage: cfg.usage,
                            image_desc,
                        }),
                    }),
                }
            },
        }
    }

    /// The compositor key that layout shows for this canvas: its image's key once
    /// the swap chain has one, else the placeholder key.
    pub fn layout_handle(&self) -> (r: ImageKey)
        ensures
            r == (match self.webrender_image {
                Some(key) => key,
                None => ImageKey { namespace: 0, key: 0 },
            }),
    {
        match self.webrender_image {
            Some(key) => key,
            None => ImageKey { namespace: 0, key: 0 },
        }
    }

    /// The swap chain was created: the compositor's key for its image and the texture
    /// that stands for the current frame.
    pub fn swap_chain_created(&mut self, image_key: ImageKey, texture_id: u64)
        ensures
            final(self).webrender_image == Some(image_key),
            final(self).texture_id == Some(texture_id),
            final(self).swap_chain == old(self).swap_chain,
            final(self).context_id == old(self).context_id,
            final(self).width == old(self).width,
            final(self).height == old(self).height,
    {
        self.webrender_image = Some(image_key);
        self.texture_id = Some(texture_id);
    }

    /// The present request for the current frame, copied with command encoder
    /// `encoder_id`. `None` while the canvas has no swap-chain texture.
    pub fn send_swap_chain_present(&self, encoder_id: u64) -> (r: Option<SwapChainPresent>)
        ensures
            r.is_some() == self.texture_id.is_some(),
            r.is_some() ==> r == Some(SwapChainPresent {
                external_id: self.context_id.0,
                texture_id: self.texture_id.unwrap(),
                encoder_id,
            }),
    {
        match self.texture_id {
            None => None,
            Some(texture_id) => Some(SwapChainPresent { external_id: self.context_id.0, texture_id, encoder_id }),
        }
    }
}

} // verus!
