use vstd::prelude::*;

verus! {

/// What every output configuration exposes to the size and sharpen resolver.
pub trait ImageConfig {
    /// The requested width; `0` means the source width.
    spec fn spec_width(&self) -> u16;

    /// The requested height; `0` means the source height.
    spec fn spec_height(&self) -> u16;

    /// The sharpen strength in thousandths; a negative value means automatic.
    spec fn spec_sharpen(&self) -> i32;

    /// Whether the image may only be made smaller.
    spec fn spec_shrink_only(&self) -> bool;

    fn get_width(&self) -> (r: u16)
        ensures
            r == self.spec_width(),
    ;

    fn get_height(&self) -> (r: u16)
        ensures
            r == self.spec_height(),
    ;

    fn get_sharpen(&self) -> (r: i32)
        ensures
            r == self.spec_sharpen(),
    ;

    fn is_shrink_only(&self) -> (r: bool)
        ensures
            r == self.spec_shrink_only(),
    ;
}

/// The output configuration of a BMP image.
#[derive(Debug, Clone)]
pub struct BMPConfig {
    /// The width of the output image. `0` means the original width.
    pub width: u16,
    /// The height of the output image. `0` means the original height.
    pub height: u16,
    /// Only shrink the image, never enlarge it.
    pub shrink_only: bool,
    /// The sharpen strength in thousandths of a unit; the higher the sharper.
    /// A negative value means automatic adjustment from the scale ratio.
    pub sharpen: i32,
    /// The named color onto which the alpha channel is flattened, if any.
    pub background_color: Option<String>,
}

/// The configuration that `BMPConfig::new` and `default` give.
pub open spec fn is_default_config(c: BMPConfig) -> bool {
    &&& c.width == 0
    &&& c.height == 0
    &&& c.shrink_only
    &&& c.sharpen == -1000
    &&& c.background_color is None
}

impl BMPConfig {
    /// A configuration that keeps the source size, never enlarges, sharpens
    /// automatically and keeps the background as it is.
    pub fn new() -> (r: BMPConfig)
        ensures
            is_default_config(r),
    {
        BMPConfig { width: 0, height: 0, shrink_only: true, sharpen: -1000, background_color: None }
    }
}

impl Default for BMPConfig {
    fn default() -> (r: Self)
        ensures
            is_default_config(r),
    {
        BMPConfig::new()
    }
}

impl ImageConfig for BMPConfig {
    open spec fn spec_width(&self) -> u16 {
        self.width
    }

    open spec fn spec_height(&self) -> u16 {
        self.height
    }

    open spec fn spec_sharpen(&self) -> i32 {
        self.sharpen
    }

    open spec fn spec_shrink_only(&self) -> bool {
        self.shrink_only
    }

    fn get_width(&self) -> (r: u16) {
        self.width
    }

    fn get_height(&self) -> (r: u16) {
        self.height
    }

    fn get_sharpen(&self) -> (r: i32) {
        self.sharpen
    }

    fn is_shrink_only(&self) -> (r: bool) {
        self.shrink_only
    }
}

} // verus!
