use vstd::prelude::*;

verus! {

/// Why a set of render settings is refused.
#[derive(Clone, Copy, Debug, PartialEq, Eq, Structural)]
pub enum SettingsError {
    /// The image would have no columns.
    ZeroImageWidth,
    /// A pixel would be averaged over no samples.
    ZeroSamplesPerPixel,
    /// The image has more pixels than memory can index.
    ImageTooLarge,
}

/// The integer part of a camera's configuration: the size of the output grid,
/// the number of samples averaged per pixel, and the bounce budget of each path.
#[derive(Clone, Copy, Debug, PartialEq, Eq, Structural)]
pub struct RenderSettings {
    pub image_width: u64,
    pub image_height: u64,
    pub samples_per_pixel: u64,
    pub max_ray_bounces: u64,
}

/// The image height for a width divided by the aspect ratio and floored:
/// at least one row.
pub open spec fn fitted_height(floored: nat) -> nat {
    if floored < 1 {
        1
    } else {
        floored
    }
}

/// The image height for a width divided by the aspect ratio and floored:
/// at least one row.
pub fn image_height_for(floored: u64) -> (h: u64)
    ensures
        h == fitted_height(floored as nat),
{
    if floored < 1 {
        1
    } else {
        floored
    }
}

impl RenderSettings {
    /// Usable settings: a non-empty grid that memory can index, and at least
    /// one sample per pixel.
    pub open spec fn wf(&self) -> bool {
        &&& self.image_width >= 1
        &&& self.image_height >= 1
        &&& self.samples_per_pixel >= 1
        &&& self.image_width * self.image_height <= usize::MAX
    }

    /// Settings for an image `image_width` wide whose width over the aspect
    /// ratio, floored, is `floored_height`.
    pub fn new(
        image_width: u64,
        floored_height: u64,
        samples_per_pixel: u64,
        max_ray_bounces: u64,
    ) -> (r: Result<RenderSettings, SettingsError>)
        ensures
            image_width == 0 ==> r == Err::<RenderSettings, SettingsError>(
                SettingsError::ZeroImageWidth,
            ),
            image_width > 0 && samples_per_pixel == 0 ==> r == Err::<RenderSettings, SettingsError>(
                SettingsError::ZeroSamplesPerPixel,
            ),
            image_width > 0 && samples_per_pixel > 0 && image_width * fitted_height(
                floored_height as nat,
            ) > usize::MAX ==> r == Err::<RenderSettings, SettingsError>(
                SettingsError::ImageTooLarge,
            ),
            r is Ok <==> image_width > 0 && samples_per_pixel > 0 && image_width * fitted_height(
                floored_height as nat,
            ) <= usize::MAX,
            r matches Ok(s) ==> s.wf() && s == (RenderSettings {
                image_width,
                image_height: fitted_height(floored_height as nat) as u64,
                samples_per_pixel,
                max_ray_bounces,
            }),
    {
        if image_width == 0 {
            return Err(SettingsError::ZeroImageWidth);
        }
        if samples_per_pixel == 0 {
            return Err(SettingsError::ZeroSamplesPerPixel);
        }
        let image_height = image_height_for(floored_height);
        match image_width.checked_mul(image_height) {
            Some(n) if n as u128 <= usize::MAX as u128 => Ok(
                RenderSettings { image_width, image_height, samples_per_pixel, max_ray_bounces },
            ),
            _ => Err(SettingsError::ImageTooLarge),
        }
    }

    /// The number of pixels of the image.
    pub fn pixel_count(&self) -> (n: usize)
        requires
            self.wf(),
        ensures
            n == self.image_width * self.image_height,
    {
        (self.image_width * self.image_height) as usize
    }
}

} // verus!
