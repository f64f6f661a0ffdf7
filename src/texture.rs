use vstd::prelude::*;

use crate::device::Command;
use crate::error::SetupError;
use crate::shader::{sampling_policy, ShaderPipe};

verus! {

/// Pixels as the image decoder hands them over.
#[derive(Clone, Debug)]
pub struct DecodedImage {
    pub width: usize,
    pub height: usize,
    /// Channels per pixel.
    pub depth: usize,
    pub data: Vec<u8>,
}

/// What decoding an encoded image gave.
pub enum DecodeOutcome {
    Pixels(DecodedImage),
    /// The decoder's message.
    Failed(String),
    /// A floating-point image, which this library does not upload.
    Float,
}

/// The 8-bit RGB image (width, height, channels, data) that the decoder makes
/// of `encoded`, or `None` where it cannot decode it.
pub uninterp spec fn rgb_decoding(encoded: Seq<u8>) -> Option<(usize, usize, usize, Seq<u8>)>;

/// Relies on `stb_image::image::load_from_memory_with_depth`, asked for three
/// channels with HDR input converted to 8 bits: its result depends on the
/// bytes alone. With HDR converted it never returns a floating-point image.
#[verifier::external_body]
pub(crate) fn decode_rgb(encoded: &Vec<u8>) -> (r: DecodeOutcome)
    ensures
        r !is Float,
        r is Failed <==> rgb_decoding(encoded@) is None,
        r matches DecodeOutcome::Pixels(img) ==> rgb_decoding(encoded@) == Some(
            (img.width, img.height, img.depth, img.data@),
        ),
{
    match stb_image::image::load_from_memory_with_depth(encoded.as_slice(), 3, true) {
        stb_image::image::LoadResult::Error(e) => DecodeOutcome::Failed(e),
        stb_image::image::LoadResult::ImageU8(i) => DecodeOutcome::Pixels(
            DecodedImage { width: i.width, height: i.height, depth: i.depth, data: i.data },
        ),
        stb_image::image::LoadResult::ImageF32(_) => DecodeOutcome::Float,
    }
}

/// Channels in an uploaded pixel: red, green, blue.
pub const RGB_CHANNELS: usize = 3;

/// Largest width or height the device takes.
pub const MAX_EXTENT: usize = 0x7fff_ffff;

/// Decoded pixels the device can take as an RGB texture: three 8-bit channels,
/// data covering the whole image, non-zero dimensions that fit the device.
pub open spec fn uploadable(width: int, height: int, depth: int, data: Seq<u8>) -> bool {
    &&& depth == RGB_CHANNELS
    &&& 0 < width <= MAX_EXTENT
    &&& 0 < height <= MAX_EXTENT
    &&& data.len() == width * height * RGB_CHANNELS
}

/// How a texture of `width` by `height` is uploaded into `handle`: bind it on
/// unit 0, apply the sampling policy, take rows at 1-byte alignment, upload
/// the pixels and build the mipmaps.
pub open spec fn texture_upload_plan(handle: u32, width: u32, height: u32) -> Seq<Command> {
    seq![Command::ActiveTexture { unit: 0 }, Command::BindTexture { texture: handle }] + sampling_policy()
        + seq![
        Command::UnpackAlignment { bytes: 1 },
        Command::UploadPixels { width, height },
        Command::GenerateMipmap,
    ]
}

/// A texture on the device with the RGB pixels it was uploaded from.
#[derive(Debug)]
pub struct Texture {
    width: u32,
    height: u32,
    handle: u32,
    pixels: Vec<u8>,
}

/// What a texture is: its dimensions, device handle and pixels.
pub struct TextureView {
    pub width: u32,
    pub height: u32,
    pub handle: u32,
    pub pixels: Seq<u8>,
}

impl View for Texture {
    type V = TextureView;

    closed spec fn view(&self) -> TextureView {
        TextureView { width: self.width, height: self.height, handle: self.handle, pixels: self.pixels@ }
    }
}

impl Texture {
    #[verifier::type_invariant]
    spec fn wf(&self) -> bool {
        &&& self.handle != 0
        &&& uploadable(self.width as int, self.height as int, RGB_CHANNELS as int, self.pixels@)
    }

    /// Makes a texture of decoded pixels in the device texture `handle`: the
    /// plan uploads them. Refuses a zero handle, then pixels the device cannot
    /// take as they are.
    pub fn load(image: DecodedImage, handle: u32) -> (r: Result<(Texture, Vec<Command>), SetupError>)
        ensures
            handle == 0 ==> r matches Err(SetupError::DeviceAllocation),
            handle != 0 && !uploadable(image.width as int, image.height as int, image.depth as int, image.data@)
                ==> r matches Err(SetupError::ImageSize),
            handle != 0 && uploadable(image.width as int, image.height as int, image.depth as int, image.data@)
                ==> (r matches Ok((t, plan)) && t@.width == image.width && t@.height == image.height
                && t@.handle == handle && t@.pixels == image.data@ && plan@ == texture_upload_plan(
                handle,
                image.width as u32,
                image.height as u32,
            )),
    {
        if handle == 0 {
            return Err(SetupError::DeviceAllocation);
        }
        let DecodedImage { width, height, depth, data } = image;
        if depth != RGB_CHANNELS || width == 0 || width > MAX_EXTENT || height == 0 || height > MAX_EXTENT {
            return Err(SetupError::ImageSize);
        }
        let row = width as u64 * RGB_CHANNELS as u64;
        assert(row * height <= 3 * 0x7fff_ffff * 0x7fff_ffff) by (nonlinear_arith)
            requires row <= 3 * 0x7fff_ffff, height <= 0x7fff_ffff;
        let total = row * height as u64;
        if data.len() as u64 != total {
            proof {
                assert(width * height * RGB_CHANNELS == row * height) by (nonlinear_arith)
                    requires row == width * RGB_CHANNELS;
            }
            return Err(SetupError::ImageSize);
        }
        proof {
            assert(width * height * RGB_CHANNELS == row * height) by (nonlinear_arith)
                requires row == width * RGB_CHANNELS;
        }
        let mut plan = vec![Command::ActiveTexture { unit: 0 }, Command::BindTexture { texture: handle }];
        let mut policy = ShaderPipe::configure_textures();
        plan.append(&mut policy);
        plan.push(Command::UnpackAlignment { bytes: 1 });
        plan.push(Command::UploadPixels { width: width as u32, height: height as u32 });
        plan.push(Command::GenerateMipmap);
        assert(plan@ =~= texture_upload_plan(handle, width as u32, height as u32));
        Ok((Texture { width: width as u32, height: height as u32, handle, pixels: data }, plan))
    }

    pub fn width(&self) -> (r: u32)
        ensures
            r == self@.width,
    {
        self.width
    }

    pub fn height(&self) -> (r: u32)
        ensures
            r == self@.height,
    {
        self.height
    }

    /// The device handle, never zero.
    pub fn handle(&self) -> (r: u32)
        ensures
            r == self@.handle,
            r != 0,
    {
        proof {
            use_type_invariant(self);
        }
        self.handle
    }

    /// The RGB pixels, row by row.
    pub fn pixels(&self) -> (r: &Vec<u8>)
        ensures
            r@ == self@.pixels,
    {
        &self.pixels
    }
}

} // verus!
