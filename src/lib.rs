//! Encoding of images to BMP: the decisions of the transcoding pipeline.
//!
//! The imaging engine itself (decoding, resampling, convolution, encoding)
//! lives outside this crate. What is here decides what the engine is asked to
//! do: the output size and sharpen strength, the sequence of engine
//! operations, and where the encoded result goes.
pub mod config;
pub mod encode;
pub mod output;
pub mod resolve;

pub use config::{BMPConfig, ImageConfig};
pub use encode::{bmp_operations, EngineOp, SourceImage, BMP_QUALITY};
pub use output::{append_encoded, is_bmp_path, output_action, BmpError, ImageResource, OutputAction};
pub use resolve::{compute_output_size, compute_output_size_sharpen, AUTO_SHARPEN_MAX};
