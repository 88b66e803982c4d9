//! What the preprocessing plugins are handed.

use vstd::prelude::*;

verus! {

/// How a tokenizer works.
#[derive(Debug, Clone, Copy)]
pub struct TokenizerConfig {
    /// The most tokens of a sequence.
    pub max_length: u32,
    /// Whether short sequences are padded.
    pub padding: bool,
    /// Whether long sequences are cut.
    pub truncation: bool,
    /// Whether the special tokens are added.
    pub add_special_tokens: bool,
}

impl Default for TokenizerConfig {
    fn default() -> (c: TokenizerConfig)
        ensures
            c.max_length == 512,
            c.padding,
            c.truncation,
            c.add_special_tokens,
    {
        TokenizerConfig { max_length: 512, padding: true, truncation: true, add_special_tokens: true }
    }
}

/// An image as a plugin sees it.
#[derive(Debug, Clone)]
pub struct ImageData {
    /// Width in pixels.
    pub width: u32,
    /// Height in pixels.
    pub height: u32,
    /// Channels of a pixel.
    pub channels: u32,
    /// The pixels, row by row.
    pub data: Vec<u8>,
}

/// How an image is resized.
#[derive(Debug, Clone, Copy)]
pub struct ResizeConfig {
    /// Width to reach.
    pub target_width: u32,
    /// Height to reach.
    pub target_height: u32,
    /// 0 for the nearest pixel, 1 for a blend of the nearest four.
    pub interpolation: u32,
}

} // verus!
