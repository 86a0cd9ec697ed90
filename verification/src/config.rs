//! What a render is asked to do, and why a request may be refused.

use vstd::prelude::*;

verus! {

/// Why a scene or a render cannot be set up as asked.
#[derive(Clone, Copy, Debug, PartialEq, Eq, Structural)]
pub enum ConfigError {
    /// The image has no column or no row.
    EmptyImage,
    /// The bytes of the image cannot be counted in an `i32`.
    ImageTooLarge,
    /// No sample is asked for, so there is nothing to average.
    NoSamples,
    /// The greatest depth of a path is below zero.
    NegativeDepth,
    /// The radius of a sphere is zero.
    ZeroRadius,
}

impl ConfigError {
    /// The words that tell a user what was wrong.
    pub open spec fn text(self) -> Seq<char> {
        match self {
            ConfigError::EmptyImage => "image width and height must both be at least 1"@,
            ConfigError::ImageTooLarge => "image is too large: width * height * 3 must not exceed 2147483647"@,
            ConfigError::NoSamples => "samples per pixel must be at least 1"@,
            ConfigError::NegativeDepth => "maximum depth must not be negative"@,
            ConfigError::ZeroRadius => "sphere radius must not be zero"@,
        }
    }

    /// The words that tell a user what was wrong.
    pub fn message(&self) -> (s: String)
        ensures
            s@ == self.text(),
    {
        match self {
            ConfigError::EmptyImage => "image width and height must both be at least 1".to_owned(),
            ConfigError::ImageTooLarge => "image is too large: width * height * 3 must not exceed 2147483647".to_owned(),
            ConfigError::NoSamples => "samples per pixel must be at least 1".to_owned(),
            ConfigError::NegativeDepth => "maximum depth must not be negative".to_owned(),
            ConfigError::ZeroRadius => "sphere radius must not be zero".to_owned(),
        }
    }
}

/// What is wrong with an image of `width` columns and `height` rows, if
/// anything: it needs a column and a row, and three bytes for each pixel must
/// be countable in an `i32`.
pub open spec fn image_fault(width: int, height: int) -> Option<ConfigError> {
    if width <= 0 || height <= 0 {
        Some(ConfigError::EmptyImage)
    } else if width * height * 3 > i32::MAX {
        Some(ConfigError::ImageTooLarge)
    } else {
        None
    }
}

/// Tells what is wrong with an image of the given size, if anything.
pub fn check_image(width: i32, height: i32) -> (fault: Option<ConfigError>)
    ensures
        fault == image_fault(width as int, height as int),
{
    if width <= 0 || height <= 0 {
        return Some(ConfigError::EmptyImage);
    }
    assert(0 < width * height <= 0x7fff_ffff * 0x7fff_ffff) by (nonlinear_arith)
        requires
            0 < width <= 0x7fff_ffff,
            0 < height <= 0x7fff_ffff,
    ;
    let pixels: i64 = (width as i64) * (height as i64);
    if pixels > (i32::MAX / 3) as i64 {
        Some(ConfigError::ImageTooLarge)
    } else {
        None
    }
}

/// The settings of one render: the size of the image in pixels, the number of
/// samples that are averaged for each pixel, and the depth at which a path is
/// cut off.
#[derive(Clone, Copy, Debug)]
pub struct RenderConfig {
    width: i32,
    height: i32,
    samples_per_pixel: i32,
    max_depth: i32,
}

impl RenderConfig {
    #[verifier::type_invariant]
    closed spec fn valid(self) -> bool {
        RenderConfig::fault(
            self.width as int,
            self.height as int,
            self.samples_per_pixel as int,
            self.max_depth as int,
        ).is_none()
    }

    /// What is wrong with the given settings, if anything. The image is
    /// looked at first, then the samples, then the depth.
    pub open spec fn fault(width: int, height: int, samples_per_pixel: int, max_depth: int) -> Option<
        ConfigError,
    > {
        if image_fault(width, height).is_some() {
            image_fault(width, height)
        } else if samples_per_pixel < 1 {
            Some(ConfigError::NoSamples)
        } else if max_depth < 0 {
            Some(ConfigError::NegativeDepth)
        } else {
            None
        }
    }

    /// The number of columns.
    pub closed spec fn spec_width(&self) -> i32 {
        self.width
    }

    /// The number of rows.
    pub closed spec fn spec_height(&self) -> i32 {
        self.height
    }

    /// The number of samples for each pixel.
    pub closed spec fn spec_samples_per_pixel(&self) -> i32 {
        self.samples_per_pixel
    }

    /// The depth at which a path is cut off.
    pub closed spec fn spec_max_depth(&self) -> i32 {
        self.max_depth
    }

    /// The settings as given, or what is wrong with them.
    pub fn new(width: i32, height: i32, samples_per_pixel: i32, max_depth: i32) -> (out: Result<
        RenderConfig,
        ConfigError,
    >)
        ensures
            match out {
                Ok(config) => {
                    &&& RenderConfig::fault(
                        width as int,
                        height as int,
                        samples_per_pixel as int,
                        max_depth as int,
                    ).is_none()
                    &&& config.width() == width
                    &&& config.height() == height
                    &&& config.samples_per_pixel() == samples_per_pixel
                    &&& config.max_depth() == max_depth
                },
                Err(e) => RenderConfig::fault(
                    width as int,
                    height as int,
                    samples_per_pixel as int,
                    max_depth as int,
                ) == Some(e),
            },
            samples_per_pixel == 0 ==> out.is_err(),
    {
        match check_image(width, height) {
            Some(e) => {
                return Err(e);
            },
            None => {},
        }
        if samples_per_pixel < 1 {
            return Err(ConfigError::NoSamples);
        }
        if max_depth < 0 {
            return Err(ConfigError::NegativeDepth);
        }
        Ok(RenderConfig { width, height, samples_per_pixel, max_depth })
    }

    /// The number of columns.
    #[verifier::when_used_as_spec(spec_width)]
    pub fn width(&self) -> (n: i32)
        ensures
            n == self.width(),
            n >= 1,
    {
        proof {
            use_type_invariant(self);
        }
        self.width
    }

    /// The number of rows.
    #[verifier::when_used_as_spec(spec_height)]
    pub fn height(&self) -> (n: i32)
        ensures
            n == self.height(),
            n >= 1,
    {
        proof {
            use_type_invariant(self);
        }
        self.height
    }

    /// The number of samples for each pixel.
    #[verifier::when_used_as_spec(spec_samples_per_pixel)]
    pub fn samples_per_pixel(&self) -> (n: i32)
        ensures
            n == self.samples_per_pixel(),
            n >= 1,
    {
        proof {
            use_type_invariant(self);
        }
        self.samples_per_pixel
    }

    /// The depth at which a path is cut off.
    #[verifier::when_used_as_spec(spec_max_depth)]
    pub fn max_depth(&self) -> (n: i32)
        ensures
            n == self.max_depth(),
            n >= 0,
    {
        proof {
            use_type_invariant(self);
        }
        self.max_depth
    }
}

} // verus!
