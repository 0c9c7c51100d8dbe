//! The piece image: an RGBA pixel buffer and the cache that holds one such
//! buffer together with the size it was rasterized for.
//!
//! Rasterizing the vector drawing is the host's work. It hands the result
//! over as a PNG image; the cache decodes it, checks that it is a square of
//! the requested size and keeps the pixels. There is no image of no pixels:
//! a request for size zero is always refused.

use vstd::prelude::*;

verus! {

/// Side, in pixels, of the image that a cache is created with.
pub const START_SIZE: u32 = 45;

/// Why an encoded image was not taken into the cache.
#[derive(Clone, Copy, Debug, PartialEq, Eq, Structural)]
pub enum CacheError {
    /// An image of size zero was asked for.
    NoPixels,
    /// The bytes are not a PNG image that the decoder accepts.
    Undecodable,
    /// The decoded image is not a square of the requested size.
    WrongDimensions,
    /// The decoded pixel data is not four bytes per pixel.
    WrongLength,
}

#[verifier::ext_equal]
/// An image as a mathematical value: its dimensions and its bytes, four per
/// pixel (red, green, blue, alpha), rows from top to bottom.
pub struct PixelView {
    pub width: nat,
    pub height: nat,
    pub rgba: Seq<u8>,
}

/// An RGBA image that always holds exactly four bytes for each pixel.
#[derive(Debug, PartialEq, Eq)]
pub struct PixelBuffer {
    width: u32,
    height: u32,
    rgba: Vec<u8>,
}

impl View for PixelBuffer {
    type V = PixelView;

    closed spec fn view(&self) -> PixelView {
        PixelView { width: self.width as nat, height: self.height as nat, rgba: self.rgba@ }
    }
}

/// Number of bytes of an RGBA image of `width` by `height` pixels.
pub open spec fn rgba_len(width: nat, height: nat) -> nat {
    4 * width * height
}

/// The dimensions and RGBA bytes that the `image` crate's PNG decoder yields
/// for `data`, or `None` where it reports an error. The format is fixed to
/// PNG and the limits are the crate's defaults, so nothing but `data` enters
/// the result.
pub uninterp spec fn decoded_png(data: Seq<u8>) -> Option<(u32, u32, Seq<u8>)>;

#[verifier::external_type_specification]
#[verifier::external_body]
pub struct ExImageError(image::ImageError);

/// Calls `image::load_from_memory_with_format` with `ImageFormat::Png` and
/// reads the result out as eight-bit RGBA (`DynamicImage::to_rgba8`,
/// `ImageBuffer::dimensions`, `ImageBuffer::into_raw`). With the format given
/// the crate neither guesses it nor asks its registries of foreign decoders.
/// Nothing is claimed of the decoded pixels but that they are what
/// `decoded_png` names, and that an error is returned exactly where
/// `decoded_png` is `None`.
#[verifier::external_body]
fn decode_png(data: &[u8]) -> (out: Result<(u32, u32, Vec<u8>), image::ImageError>)
    ensures
        match out {
            Ok(d) => decoded_png(data@) == Some((d.0, d.1, d.2@)),
            Err(_) => decoded_png(data@) is None,
        },
{
    let rgba = image::load_from_memory_with_format(data, image::ImageFormat::Png)?.to_rgba8();
    let (width, height) = rgba.dimensions();
    Ok((width, height, rgba.into_raw()))
}

/// What becomes of a decoding result when a square image of side `size` was
/// asked for: the image, or the reason for which it is refused. Size zero is
/// refused whatever was decoded.
pub open spec fn checked_image(decoded: Option<(u32, u32, Seq<u8>)>, size: u32) -> Result<
    PixelView,
    CacheError,
> {
    if size == 0 {
        Err(CacheError::NoPixels)
    } else {
        match decoded {
            None => Err(CacheError::Undecodable),
            Some((width, height, rgba)) => {
                if width != size || height != size {
                    Err(CacheError::WrongDimensions)
                } else if rgba.len() != rgba_len(width as nat, height as nat) {
                    Err(CacheError::WrongLength)
                } else {
                    Ok(PixelView { width: width as nat, height: height as nat, rgba })
                }
            },
        }
    }
}

impl PixelBuffer {
    #[verifier::type_invariant]
    spec fn well_formed(self) -> bool {
        self.rgba@.len() == rgba_len(self.width as nat, self.height as nat)
    }

    /// Builds a buffer from raw RGBA bytes, provided there are exactly four
    /// for each pixel.
    pub fn from_raw(width: u32, height: u32, rgba: Vec<u8>) -> (buffer: Option<PixelBuffer>)
        ensures
            buffer is Some <==> rgba@.len() == rgba_len(width as nat, height as nat),
            buffer matches Some(b) ==> b@ == (PixelView {
                width: width as nat,
                height: height as nat,
                rgba: rgba@,
            }),
    {
        assert(width * height <= 0xffff_ffff * 0xffff_ffff) by (nonlinear_arith)
            requires
                width <= 0xffff_ffff,
                height <= 0xffff_ffff,
        ;
        let area: u64 = (width as u64) * (height as u64);
        let needed: u128 = 4u128 * (area as u128);
        assert(needed == rgba_len(width as nat, height as nat)) by (nonlinear_arith)
            requires
                needed == 4 * area,
                area == width * height,
        ;
        if rgba.len() as u128 == needed {
            Some(PixelBuffer { width, height, rgba })
        } else {
            None
        }
    }

    /// Takes decoded pixels as the square image of side `size` that was asked
    /// for, or says why they are not one. No pixels are taken for size zero.
    pub fn square(width: u32, height: u32, rgba: Vec<u8>, size: u32) -> (checked: Result<
        PixelBuffer,
        CacheError,
    >)
        ensures
            match checked_image(Some((width, height, rgba@)), size) {
                Ok(image) => checked matches Ok(b) && b@ == image,
                Err(reason) => checked == Err::<PixelBuffer, CacheError>(reason),
            },
    {
        if size == 0 {
            return Err(CacheError::NoPixels);
        }
        if width != size || height != size {
            return Err(CacheError::WrongDimensions);
        }
        match PixelBuffer::from_raw(width, height, rgba) {
            Some(buffer) => Ok(buffer),
            None => Err(CacheError::WrongLength),
        }
    }

    /// Width in pixels.
    pub fn width(&self) -> (width: u32)
        ensures
            width == self@.width,
    {
        self.width
    }

    /// Height in pixels.
    pub fn height(&self) -> (height: u32)
        ensures
            height == self@.height,
    {
        self.height
    }

    /// Number of bytes from the start of one row to the start of the next.
    pub fn rowstride(&self) -> (stride: u64)
        ensures
            stride == 4 * self@.width,
    {
        4 * (self.width as u64)
    }

    /// The pixel bytes, which are exactly four per pixel.
    pub fn pixels(&self) -> (bytes: &[u8])
        ensures
            bytes@ == self@.rgba,
            bytes@.len() == rgba_len(self@.width, self@.height),
    {
        proof {
            use_type_invariant(self);
        }
        self.rgba.as_slice()
    }

    /// Gives up the buffer for its pixel bytes.
    pub fn into_raw(self) -> (bytes: Vec<u8>)
        ensures
            bytes@ == self@.rgba,
            bytes@.len() == rgba_len(self@.width, self@.height),
    {
        proof {
            use_type_invariant(&self);
        }
        self.rgba
    }

}

impl Clone for PixelBuffer {
    /// A copy of the image with the same dimensions and bytes.
    fn clone(&self) -> (copy: PixelBuffer)
        ensures
            copy@ == self@,
    {
        proof {
            use_type_invariant(self);
        }
        PixelBuffer { width: self.width, height: self.height, rgba: self.rgba.clone() }
    }
}

/// A cache as a mathematical value: the image and the size it was made for.
#[verifier::ext_equal]
pub struct ImageView {
    pub size: u32,
    pub image: PixelView,
}

impl ImageView {
    /// The cache after an image decoded as `decoded` was offered for `size`.
    /// A request for the size that is already held changes nothing; otherwise
    /// the offered image replaces the held one if it passes `checked_image`.
    /// An offer for size zero never changes the cache.
    pub open spec fn updated(self, size: u32, decoded: Option<(u32, u32, Seq<u8>)>) -> ImageView {
        if size == 0 || size == self.size {
            self
        } else {
            match checked_image(decoded, size) {
                Ok(image) => ImageView { size, image },
                Err(_) => self,
            }
        }
    }

    /// What the offer of `updated` reports: a refusal for size zero, success
    /// where the size was held already or the image was taken, else the
    /// reason for the refusal.
    pub open spec fn update_outcome(self, size: u32, decoded: Option<(u32, u32, Seq<u8>)>) -> Result<
        (),
        CacheError,
    > {
        if size == 0 {
            Err(CacheError::NoPixels)
        } else if size == self.size {
            Ok(())
        } else {
            match checked_image(decoded, size) {
                Ok(_) => Ok(()),
                Err(reason) => Err(reason),
            }
        }
    }

    /// The held image is a square of the recorded size, which is not zero,
    /// with four bytes per pixel.
    pub open spec fn is_square(self) -> bool {
        &&& self.size >= 1
        &&& self.image.width == self.size
        &&& self.image.height == self.size
        &&& self.image.rgba.len() == rgba_len(self.size as nat, self.size as nat)
    }
}

/// An offer keeps the cache a square of its recorded size. It reports success
/// exactly where the cache holds the requested size afterwards, a refused
/// offer leaves the cache as it was, and an offer for size zero is refused.
pub proof fn lemma_offer_outcome(cache: ImageView, size: u32, decoded: Option<(u32, u32, Seq<u8>)>)
    requires
        cache.is_square(),
    ensures
        cache.updated(size, decoded).is_square(),
        cache.update_outcome(size, decoded) is Ok <==> cache.updated(size, decoded).size == size,
        cache.update_outcome(size, decoded) is Err ==> cache.updated(size, decoded) == cache,
        size == 0 ==> cache.update_outcome(size, decoded) == Err::<(), CacheError>(
            CacheError::NoPixels,
        ),
{
}

/// Holds one rasterized piece image and the size it was rasterized for.
#[derive(Debug, PartialEq, Eq)]
pub struct ImageManager {
    image: PixelBuffer,
    size: u32,
}

impl View for ImageManager {
    type V = ImageView;

    closed spec fn view(&self) -> ImageView {
        ImageView { size: self.size, image: self.image@ }
    }
}

impl ImageManager {
    #[verifier::type_invariant]
    spec fn well_formed(self) -> bool {
        &&& self.size >= 1
        &&& self.image.width == self.size
        &&& self.image.height == self.size
        &&& self.image.well_formed()
    }

    /// Creates a cache for `size` from the PNG image rasterized at that size:
    /// the image is decoded and has to be a square of side `size`. There is
    /// no cache for size zero.
    pub fn from_encoded(size: u32, encoded: &[u8]) -> (made: Result<ImageManager, CacheError>)
        ensures
            match checked_image(decoded_png(encoded@), size) {
                Ok(image) => made matches Ok(m) && m@ == (ImageView { size, image }),
                Err(reason) => made matches Err(e) && e == reason,
            },
    {
        if size == 0 {
            return Err(CacheError::NoPixels);
        }
        match decode_png(encoded) {
            Ok(decoded) => match PixelBuffer::square(decoded.0, decoded.1, decoded.2, size) {
                Ok(image) => {
                    proof {
                        use_type_invariant(&image);
                    }
                    Ok(ImageManager { image, size })
                },
                Err(reason) => Err(reason),
            },
            Err(_) => Err(CacheError::Undecodable),
        }
    }

    /// Creates the cache from the PNG image rasterized at `START_SIZE`.
    pub fn new(encoded: &[u8]) -> (made: Result<ImageManager, CacheError>)
        ensures
            match checked_image(decoded_png(encoded@), START_SIZE) {
                Ok(image) => made matches Ok(m) && m@ == (ImageView { size: START_SIZE, image }),
                Err(reason) => made matches Err(e) && e == reason,
            },
    {
        ImageManager::from_encoded(START_SIZE, encoded)
    }

    /// The size the held image was rasterized for.
    pub fn size(&self) -> (size: u32)
        ensures
            size == self@.size,
            self@.is_square(),
    {
        proof {
            use_type_invariant(self);
            use_type_invariant(&self.image);
        }
        self.size
    }

    /// Whether the held image was rasterized for `size`, so that no new one
    /// is needed.
    pub fn is_current(&self, size: u32) -> (current: bool)
        ensures
            current == (size == self@.size),
    {
        self.size == size
    }

    /// The held image if it was rasterized for `size`, and `None` if an image
    /// of that size has to be rasterized first.
    pub fn get(&self, size: u32) -> (image: Option<&PixelBuffer>)
        ensures
            image is Some <==> size == self@.size,
            image matches Some(b) ==> b@ == self@.image,
    {
        if self.size == size {
            Some(&self.image)
        } else {
            None
        }
    }

    /// A copy of the held image, whatever size it has.
    pub fn get_image_clone(&self) -> (image: PixelBuffer)
        ensures
            image@ == self@.image,
    {
        self.image.clone()
    }

    /// Offers the PNG image rasterized for `size`. An offer for size zero is
    /// refused. If the cache already holds that size it stays as it is;
    /// otherwise the image is decoded, checked and, if it is a square of side
    /// `size`, put in place of the held one. A refused image leaves the cache
    /// unchanged.
    pub fn update_image_size(&mut self, size: u32, encoded: &[u8]) -> (outcome: Result<
        (),
        CacheError,
    >)
        ensures
            final(self)@ == old(self)@.updated(size, decoded_png(encoded@)),
            outcome == old(self)@.update_outcome(size, decoded_png(encoded@)),
    {
        if size == 0 {
            return Err(CacheError::NoPixels);
        }
        if self.size == size {
            return Ok(());
        }
        match ImageManager::from_encoded(size, encoded) {
            Ok(cache) => {
                *self = cache;
                Ok(())
            },
            Err(reason) => Err(reason),
        }
    }
}

impl Clone for ImageManager {
    /// A cache that holds a copy of the same image for the same size.
    fn clone(&self) -> (copy: ImageManager)
        ensures
            copy@ == self@,
    {
        proof {
            use_type_invariant(self);
        }
        let image = self.image.clone();
        proof {
            use_type_invariant(&image);
        }
        ImageManager { image, size: self.size }
    }
}

} // verus!
