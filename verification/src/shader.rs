//! Shader binaries as the loader hands them over.
//!
//! A binary is opaque to this crate. All that is asked of it is that it is a
//! whole number of 4-byte words; anything else about its validity is the
//! loader's business.

use vstd::prelude::*;

verus! {

/// Size in bytes of one word of the shader intermediate representation.
pub const WORD_BYTES: usize = 4;

/// The pipeline stage a shader binary is written for.
#[derive(Clone, Copy, PartialEq, Eq, Debug, Structural)]
pub enum ShaderStage {
    Vertex,
    Fragment,
    Compute,
}

/// Whether a blob of `len` bytes is a whole number of words.
pub open spec fn word_aligned(len: nat) -> bool {
    len % 4 == 0
}

/// Tells whether `bytes` is a whole number of words.
pub fn is_word_aligned(bytes: &[u8]) -> (aligned: bool)
    ensures
        aligned == word_aligned(bytes@.len()),
{
    bytes.len() % WORD_BYTES == 0
}

/// What the crate keeps of a shader binary: its stage and its size.
#[derive(Clone, Copy, PartialEq, Eq, Debug, Structural)]
pub struct ShaderBinary {
    pub stage: ShaderStage,
    pub byte_len: usize,
}

impl ShaderBinary {
    /// A binary can be handed to the device only if it is word aligned.
    pub open spec fn valid(self) -> bool {
        word_aligned(self.byte_len as nat)
    }

    /// Describes the blob `bytes`, meant for `stage`.
    pub fn describe(stage: ShaderStage, bytes: &[u8]) -> (binary: ShaderBinary)
        ensures
            binary.stage == stage,
            binary.byte_len == bytes@.len(),
            binary.valid() == word_aligned(bytes@.len()),
    {
        ShaderBinary { stage, byte_len: bytes.len() }
    }

    /// Tells whether the binary is word aligned.
    pub fn is_valid(&self) -> (ok: bool)
        ensures
            ok == self.valid(),
    {
        self.byte_len % WORD_BYTES == 0
    }
}

} // verus!
