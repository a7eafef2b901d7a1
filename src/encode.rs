//! The operations that turn a loaded image into a BMP image.
use vstd::prelude::*;

use crate::config::BMPConfig;
use crate::resolve::{compute_output_size_sharpen, output_size, resolved_sharpen};

verus! {

/// The encode quality set on every BMP image: the maximum.
pub const BMP_QUALITY: u8 = 100;

/// What the engine reported of a loaded image.
#[derive(Debug, Clone, Copy, PartialEq, Eq, Structural)]
pub struct SourceImage {
    /// The width in pixels.
    pub width: u32,
    /// The height in pixels.
    pub height: u32,
    /// Whether the image is a vector image, which has no fixed pixel grid.
    pub vector: bool,
}

/// A loaded source image is well formed when a raster image has pixels.
pub open spec fn valid_source(source: SourceImage) -> bool {
    !source.vector ==> source.width > 0 && source.height > 0
}

/// One operation that the engine performs on a loaded image.
#[derive(Debug, PartialEq, Eq)]
pub enum EngineOp {
    /// Resolve the named color and make it the image background.
    SetBackgroundColor(String),
    /// Flatten the alpha channel onto the background and remove it.
    RemoveAlphaChannel,
    /// Resample to this size with a Lanczos filter.
    Resize { width: u64, height: u64 },
    /// Sharpen with this sigma, in thousandths, and an automatic radius.
    Sharpen { sigma: i32 },
    /// Remove every embedded profile.
    StripProfiles,
    /// Set the encode quality.
    SetCompressionQuality(u8),
    /// Set the line interlace scheme.
    SetLineInterlace,
    /// Mark the image to be encoded as BMP.
    SetBmpFormat,
}

/// The operations for the background color, if one is configured.
pub open spec fn background_ops(config: BMPConfig) -> Seq<EngineOp> {
    match config.background_color {
        Some(c) => seq![EngineOp::SetBackgroundColor(c), EngineOp::RemoveAlphaChannel],
        None => seq![],
    }
}

/// The resize and sharpen of a raster image; nothing for a vector image.
pub open spec fn resize_ops(config: BMPConfig, source: SourceImage) -> Seq<EngineOp> {
    if source.vector {
        seq![]
    } else {
        let (w, h) = output_size(
            config.shrink_only,
            source.width as nat,
            source.height as nat,
            config.width as nat,
            config.height as nat,
        );
        let s = resolved_sharpen(
            config.sharpen as int,
            source.width as nat,
            source.height as nat,
            w,
            h,
        );
        seq![EngineOp::Resize { width: w as u64, height: h as u64 }, EngineOp::Sharpen { sigma: s as i32 }]
    }
}

/// The operations that every BMP image goes through before it is written.
pub open spec fn finishing_ops() -> Seq<EngineOp> {
    seq![
        EngineOp::StripProfiles,
        EngineOp::SetCompressionQuality(BMP_QUALITY),
        EngineOp::SetLineInterlace,
        EngineOp::SetBmpFormat,
    ]
}

/// All operations on a loaded image, in order.
pub open spec fn bmp_ops(config: BMPConfig, source: SourceImage) -> Seq<EngineOp> {
    background_ops(config) + resize_ops(config, source) + finishing_ops()
}

/// The size of the image after a sequence of operations on a source of size
/// `(w, h)`: that of the last resize, if any.
pub open spec fn size_after(ops: Seq<EngineOp>, w: nat, h: nat) -> (nat, nat)
    decreases ops.len(),
{
    if ops.len() == 0 {
        (w, h)
    } else {
        match ops.last() {
            EngineOp::Resize { width, height } => (width as nat, height as nat),
            _ => size_after(ops.drop_last(), w, h),
        }
    }
}

/// The operations that the engine performs, in order, on a loaded image to
/// make it a BMP image; the first one that fails ends the conversion.
pub fn bmp_operations(config: &BMPConfig, source: SourceImage) -> (ops: Vec<EngineOp>)
    requires
        valid_source(source),
    ensures
        ops@ == bmp_ops(*config, source),
{
    let mut ops: Vec<EngineOp> = Vec::new();
    match &config.background_color {
        Some(c) => {
            ops.push(EngineOp::SetBackgroundColor(c.clone()));
            ops.push(EngineOp::RemoveAlphaChannel);
        },
        None => {},
    }
    assert(ops@ == background_ops(*config));
    if !source.vector {
        let (width, height, sigma) = compute_output_size_sharpen(config, source.width, source.height);
        ops.push(EngineOp::Resize { width, height });
        ops.push(EngineOp::Sharpen { sigma });
    }
    assert(ops@ == background_ops(*config) + resize_ops(*config, source));
    ops.push(EngineOp::StripProfiles);
    ops.push(EngineOp::SetCompressionQuality(BMP_QUALITY));
    ops.push(EngineOp::SetLineInterlace);
    ops.push(EngineOp::SetBmpFormat);
    assert(ops@ == bmp_ops(*config, source));
    ops
}

/// Whether a sequence of operations holds a resize or a sharpen.
pub open spec fn resamples(ops: Seq<EngineOp>) -> bool {
    exists|i: int| 0 <= i < ops.len() && (ops[i] is Resize || ops[i] is Sharpen)
}

/// Operations without a resize after others leave the size as the others did.
proof fn lemma_size_after_tail(a: Seq<EngineOp>, b: Seq<EngineOp>, w: nat, h: nat)
    requires
        !resamples(b),
    ensures
        size_after(a + b, w, h) == size_after(a, w, h),
    decreases b.len(),
{
    if b.len() > 0 {
        let c = b.drop_last();
        assert((a + b).drop_last() =~= a + c);
        assert((a + b).last() == b.last());
        assert(!resamples(c)) by {
            if resamples(c) {
                let i = choose|i: int| 0 <= i < c.len() && (c[i] is Resize || c[i] is Sharpen);
                assert(b[i] == c[i]);
            }
        }
        assert(!(b[b.len() - 1] is Resize));
        lemma_size_after_tail(a, c, w, h);
    } else {
        assert(a + b =~= a);
    }
}

/// A vector image is neither resized nor sharpened, whatever the
/// configuration: its size after all operations is the source size.
pub proof fn lemma_vector_not_resampled(config: BMPConfig, source: SourceImage)
    requires
        source.vector,
    ensures
        !resamples(bmp_ops(config, source)),
        size_after(bmp_ops(config, source), source.width as nat, source.height as nat) == (
            source.width as nat,
            source.height as nat,
        ),
{
    let ops = bmp_ops(config, source);
    assert(!resamples(ops)) by {
        if resamples(ops) {
            let i = choose|i: int| 0 <= i < ops.len() && (ops[i] is Resize || ops[i] is Sharpen);
            if i < background_ops(config).len() {
                assert(ops[i] == background_ops(config)[i]);
            } else {
                assert(ops[i] == finishing_ops()[i - background_ops(config).len()]);
            }
        }
    }
    lemma_size_after_tail(Seq::empty(), ops, source.width as nat, source.height as nat);
    assert(Seq::<EngineOp>::empty() + ops =~= ops);
}

/// A raster image ends at the size that the resolver gives.
pub proof fn lemma_raster_resampled(config: BMPConfig, source: SourceImage)
    requires
        !source.vector,
        valid_source(source),
    ensures
        size_after(bmp_ops(config, source), source.width as nat, source.height as nat)
            == output_size(
            config.shrink_only,
            source.width as nat,
            source.height as nat,
            config.width as nat,
            config.height as nat,
        ),
{
    let (w, h) = output_size(
        config.shrink_only,
        source.width as nat,
        source.height as nat,
        config.width as nat,
        config.height as nat,
    );
    assert(w <= u64::MAX && h <= u64::MAX) by {
        crate::resolve::lemma_output_size_bound(
            config.shrink_only,
            source.width as nat,
            source.height as nat,
            config.width as nat,
            config.height as nat,
        );
    }
    let head = background_ops(config) + resize_ops(config, source);
    let fin = finishing_ops();
    assert(!resamples(fin)) by {
        if resamples(fin) {
            let i = choose|i: int| 0 <= i < fin.len() && (fin[i] is Resize || fin[i] is Sharpen);
            assert(0 <= i < 4);
        }
    }
    lemma_size_after_tail(head, fin, source.width as nat, source.height as nat);
    assert(head.last() is Sharpen);
    assert(head.drop_last().last() == EngineOp::Resize { width: w as u64, height: h as u64 });
    let sw = source.width as nat;
    let sh = source.height as nat;
    assert(head.len() > 0);
    assert(size_after(head, sw, sh) == size_after(head.drop_last(), sw, sh));
    assert(head.drop_last().len() > 0);
    assert(size_after(head.drop_last(), sw, sh) == (w, h));
}

} // verus!
