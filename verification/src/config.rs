//! The parameters of a run.

use vstd::prelude::*;

verus! {

/// Border ratios are counted in millionths of the canvas side.
pub const RATIO_SCALE: u32 = 1_000_000;

/// The smallest ratio that is no longer a border: one half.  Two such borders
/// on one axis leave nothing between them.
pub const RATIO_LIMIT: u32 = 500_000;

/// The fraction of a canvas side that is kept white on each side of the
/// image, in millionths.
#[derive(Clone, Copy, Debug, PartialEq, Eq, Structural)]
pub struct BorderRatio {
    pub ppm: u32,
}

impl BorderRatio {
    /// A border leaves room between itself and its opposite: it is below one half.
    pub open spec fn is_border(self) -> bool {
        self.ppm < RATIO_LIMIT
    }

    pub fn from_ppm(ppm: u32) -> (r: BorderRatio)
        ensures
            r.ppm == ppm,
    {
        BorderRatio { ppm }
    }
}

/// Where the processed images are written.
#[derive(Clone, Copy, Debug, PartialEq, Eq, Structural)]
pub enum OutputMode {
    /// Beside the sources, in the input directory itself.
    InPlace,
    /// In a directory of their own below the input directory.
    Subfolder,
}

/// What is wrong with a set of parameters.
#[derive(Clone, Copy, Debug, PartialEq, Eq, Structural)]
pub enum ConfigError {
    /// The target width or height is zero.
    EmptyTarget,
    /// A border ratio is one half or more.
    RatioOutOfRange,
    /// The encode quality is outside 1..=100.
    QualityOutOfRange,
}

/// The parameters of a run: made once, never changed, read by every image.
#[derive(Clone, Copy, Debug, PartialEq, Eq, Structural)]
pub struct Config {
    pub target_width: u32,
    pub target_height: u32,
    pub landscape_vert_ratio: BorderRatio,
    pub landscape_horiz_ratio: BorderRatio,
    pub portrait_vert_ratio: BorderRatio,
    pub portrait_horiz_ratio: BorderRatio,
    /// Quality of lossy output, 1 to 100.
    pub encode_quality: u8,
    pub output_mode: OutputMode,
}

impl Config {
    /// The first thing that is wrong with these parameters, if anything is:
    /// the target size is looked at first, then the four ratios, then the
    /// quality.
    pub open spec fn defect(self) -> Option<ConfigError> {
        if self.target_width == 0 || self.target_height == 0 {
            Some(ConfigError::EmptyTarget)
        } else if !self.landscape_vert_ratio.is_border() || !self.landscape_horiz_ratio.is_border()
            || !self.portrait_vert_ratio.is_border() || !self.portrait_horiz_ratio.is_border() {
            Some(ConfigError::RatioOutOfRange)
        } else if self.encode_quality < 1 || self.encode_quality > 100 {
            Some(ConfigError::QualityOutOfRange)
        } else {
            None
        }
    }

    /// Positive target size, every ratio below one half, quality in 1..=100.
    pub open spec fn is_valid(self) -> bool {
        self.defect() is None
    }

    /// The parameters used where none are given: a 1080 x 1080 canvas, borders
    /// of 5 % and 3 % (landscape, vertical and horizontal) and of 0.5 % and
    /// 18 % (portrait), quality 100, output into a directory of its own.
    pub open spec fn standard() -> Config {
        Config {
            target_width: 1080,
            target_height: 1080,
            landscape_vert_ratio: BorderRatio { ppm: 50_000 },
            landscape_horiz_ratio: BorderRatio { ppm: 30_000 },
            portrait_vert_ratio: BorderRatio { ppm: 5_000 },
            portrait_horiz_ratio: BorderRatio { ppm: 180_000 },
            encode_quality: 100,
            output_mode: OutputMode::Subfolder,
        }
    }

    /// Checks the parameters of a run.
    pub fn validate(&self) -> (r: Result<(), ConfigError>)
        ensures
            r == match self.defect() {
                Some(e) => Err::<(), ConfigError>(e),
                None => Ok(()),
            },
    {
        if self.target_width == 0 || self.target_height == 0 {
            Err(ConfigError::EmptyTarget)
        } else if self.landscape_vert_ratio.ppm >= RATIO_LIMIT || self.landscape_horiz_ratio.ppm
            >= RATIO_LIMIT || self.portrait_vert_ratio.ppm >= RATIO_LIMIT
            || self.portrait_horiz_ratio.ppm >= RATIO_LIMIT {
            Err(ConfigError::RatioOutOfRange)
        } else if self.encode_quality < 1 || self.encode_quality > 100 {
            Err(ConfigError::QualityOutOfRange)
        } else {
            Ok(())
        }
    }

    /// Makes the parameters of a run from its eight values, or says what is
    /// wrong with them.
    pub fn new(
        target_width: u32,
        target_height: u32,
        landscape_vert_ratio: BorderRatio,
        landscape_horiz_ratio: BorderRatio,
        portrait_vert_ratio: BorderRatio,
        portrait_horiz_ratio: BorderRatio,
        encode_quality: u8,
        output_mode: OutputMode,
    ) -> (r: Result<Config, ConfigError>)
        ensures
            ({
                let c = Config {
                    target_width,
                    target_height,
                    landscape_vert_ratio,
                    landscape_horiz_ratio,
                    portrait_vert_ratio,
                    portrait_horiz_ratio,
                    encode_quality,
                    output_mode,
                };
                r == match c.defect() {
                    Some(e) => Err::<Config, ConfigError>(e),
                    None => Ok(c),
                }
            }),
    {
        let c = Config {
            target_width,
            target_height,
            landscape_vert_ratio,
            landscape_horiz_ratio,
            portrait_vert_ratio,
            portrait_horiz_ratio,
            encode_quality,
            output_mode,
        };
        match c.validate() {
            Ok(()) => Ok(c),
            Err(e) => Err(e),
        }
    }
}

impl Default for Config {
    fn default() -> (c: Config)
        ensures
            c == Config::standard(),
            c.is_valid(),
    {
        Config {
            target_width: 1080,
            target_height: 1080,
            landscape_vert_ratio: BorderRatio { ppm: 50_000 },
            landscape_horiz_ratio: BorderRatio { ppm: 30_000 },
            portrait_vert_ratio: BorderRatio { ppm: 5_000 },
            portrait_horiz_ratio: BorderRatio { ppm: 180_000 },
            encode_quality: 100,
            output_mode: OutputMode::Subfolder,
        }
    }
}

} // verus!
