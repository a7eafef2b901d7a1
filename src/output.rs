//! Where an encoded image goes, and how the choice is made.
use vstd::prelude::*;
use vstd::string::StringSliceAdditionalSpecFns;
use vstd::utf8::encode_utf8;

verus! {

/// An image resource: where an image comes from or where it goes.
#[derive(Debug)]
pub enum ImageResource<H> {
    /// A file at this path.
    Path(String),
    /// Bytes in memory; an output is appended to them.
    Data(Vec<u8>),
    /// An engine handle, replaced by the processed image.
    MagickWand(H),
}

/// Why a conversion failed.
#[derive(Debug, Clone, PartialEq, Eq)]
pub enum BmpError {
    /// The input could not be decoded; the engine's message.
    Load(String),
    /// The background color could not be resolved; the engine's message.
    ColorResolution(String),
    /// An engine operation failed; the engine's message.
    EngineOperation(String),
    /// The output path does not end in the BMP extension.
    ExtensionMismatch,
}

/// What the engine does with the processed image at the end.
#[derive(Debug, PartialEq, Eq, Structural)]
pub enum OutputAction {
    /// Encode it into the file at the output path.
    WriteFile,
    /// Encode it into bytes and append them to the output data.
    AppendBlob,
    /// Hand the image itself over in place of the output handle.
    ReplaceHandle,
}

/// The extension that a BMP output path ends with, in lower case.
pub open spec fn bmp_extension() -> Seq<u8> {
    seq![0x2eu8, 0x62u8, 0x6du8, 0x70u8]
}

/// An ASCII letter in lower case; any other byte unchanged.
pub open spec fn ascii_lower(b: u8) -> u8 {
    if 0x41 <= b <= 0x5a {
        (b + 0x20) as u8
    } else {
        b
    }
}

/// Whether `path` ends with `.bmp`, ASCII letters compared without case.
pub open spec fn has_bmp_extension(path: Seq<u8>) -> bool {
    let n = bmp_extension().len();
    &&& path.len() >= n
    &&& forall|i: int|
        0 <= i < n ==> #[trigger] ascii_lower(path[path.len() - n + i]) == bmp_extension()[i]
}

/// The end of a conversion for an output resource: an error for a path with
/// another extension, else the action that fits the resource.
pub open spec fn output_action_of<H>(output: ImageResource<H>) -> Result<OutputAction, BmpError> {
    match output {
        ImageResource::Path(p) => if has_bmp_extension(encode_utf8(p@)) {
            Ok(OutputAction::WriteFile)
        } else {
            Err(BmpError::ExtensionMismatch)
        },
        ImageResource::Data(_) => Ok(OutputAction::AppendBlob),
        ImageResource::MagickWand(_) => Ok(OutputAction::ReplaceHandle),
    }
}

fn lower_byte(b: u8) -> (r: u8)
    ensures
        r == ascii_lower(b),
{
    if 0x41 <= b && b <= 0x5a {
        b + 0x20
    } else {
        b
    }
}

/// Whether the path ends with `.bmp`, in any case.
pub fn is_bmp_path(path: &str) -> (r: bool)
    ensures
        r == has_bmp_extension(path.spec_bytes()),
{
    let bytes = path.as_bytes();
    let ext: [u8; 4] = [0x2eu8, 0x62u8, 0x6du8, 0x70u8];
    assert(ext@ == bmp_extension());
    if bytes.len() < 4 {
        return false;
    }
    let start: usize = bytes.len() - 4;
    let mut i: usize = 0;
    while i < 4
        invariant
            bytes@ == path.spec_bytes(),
            ext@ == bmp_extension(),
            bytes@.len() >= 4,
            start == bytes@.len() - 4,
            start + 4 == bytes.len(),
            i <= 4,
            forall|j: int| 0 <= j < i ==> #[trigger] ascii_lower(bytes@[start + j]) == ext@[j],
        decreases 4 - i,
    {
        if lower_byte(bytes[start + i]) != ext[i] {
            return false;
        }
        i = i + 1;
    }
    true
}

/// Decides how the processed image reaches `output`; a path that does not
/// end with `.bmp` is refused before anything is written.
pub fn output_action<H>(output: &ImageResource<H>) -> (r: Result<OutputAction, BmpError>)
    ensures
        r == output_action_of(*output),
{
    match output {
        ImageResource::Path(p) => {
            if is_bmp_path(p.as_str()) {
                Ok(OutputAction::WriteFile)
            } else {
                Err(BmpError::ExtensionMismatch)
            }
        },
        ImageResource::Data(_) => Ok(OutputAction::AppendBlob),
        ImageResource::MagickWand(_) => Ok(OutputAction::ReplaceHandle),
    }
}

/// Appends encoded bytes to an output buffer, keeping what it held.
pub fn append_encoded(buffer: &mut Vec<u8>, encoded: Vec<u8>)
    ensures
        final(buffer)@ == old(buffer)@ + encoded@,
        final(buffer)@.subrange(0, old(buffer)@.len() as int) == old(buffer)@,
{
    let mut encoded = encoded;
    buffer.append(&mut encoded);
    assert(final(buffer)@.subrange(0, old(buffer)@.len() as int) =~= old(buffer)@);
}

/// A path that does not end with `.bmp` is refused with `ExtensionMismatch`:
/// the action that writes a file is never chosen for it.
pub proof fn lemma_mismatched_path_refused<H>(p: String)
    requires
        !has_bmp_extension(encode_utf8(p@)),
    ensures
        output_action_of(ImageResource::<H>::Path(p)) == Err::<OutputAction, BmpError>(
            BmpError::ExtensionMismatch,
        ),
{
}

} // verus!
