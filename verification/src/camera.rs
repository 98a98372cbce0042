//! The camera as the vertex stage reads it: two 4x4 matrices of 32-bit
//! floats, the projection first and the transform after it.
//!
//! The matrices are held as the bit patterns of their components, in the
//! order in which the shader expects them. How they are computed from field
//! of view, aspect ratio and pointer input is not decided here.

use vstd::prelude::*;
use crate::bytes::{memory_image, words_to_bytes};
use crate::layout::{CAMERA_UNIFORM_SIZE, CAMERA_UNIFORM_WORDS};

verus! {

/// Words in one 4x4 matrix.
pub const MATRIX_WORDS: usize = 16;

/// Projection and transform of the camera, each a 4x4 matrix given by the
/// bit patterns of its sixteen components.
#[derive(Clone, Copy, Debug, PartialEq, Eq)]
pub struct Camera {
    pub projection: [u32; 16],
    pub transform: [u32; 16],
}

impl Camera {
    /// The words of the camera uniform block: the projection, then the
    /// transform.
    pub open spec fn uniform_words(&self) -> Seq<u32> {
        self.projection@ + self.transform@
    }

    /// A camera of the two given matrices.
    pub fn new(projection: [u32; 16], transform: [u32; 16]) -> (camera: Camera)
        ensures
            camera.projection == projection,
            camera.transform == transform,
    {
        Camera { projection, transform }
    }

    /// The words of the camera uniform block.
    pub fn words(&self) -> (words: Vec<u32>)
        ensures
            words@ == self.uniform_words(),
            words@.len() == CAMERA_UNIFORM_WORDS,
    {
        let mut words: Vec<u32> = Vec::new();
        let mut i: usize = 0;
        while i < 16
            invariant
                i <= 16,
                words@ == self.projection@.subrange(0, i as int),
            decreases 16 - i,
        {
            words.push(self.projection[i]);
            assert(words@ =~= self.projection@.subrange(0, i + 1));
            i += 1;
        }
        assert(words@ =~= self.projection@);
        let mut j: usize = 0;
        while j < 16
            invariant
                j <= 16,
                words@ == self.projection@ + self.transform@.subrange(0, j as int),
            decreases 16 - j,
        {
            words.push(self.transform[j]);
            assert(words@ =~= self.projection@ + self.transform@.subrange(0, j + 1));
            j += 1;
        }
        assert(words@ =~= self.uniform_words());
        words
    }

    /// The bytes of the camera uniform block as they are written to the
    /// device: 128 bytes, the projection in the first 64.
    pub fn uniform_bytes(&self) -> (bytes: Vec<u8>)
        ensures
            bytes@ == memory_image(self.uniform_words()),
            bytes@.len() == CAMERA_UNIFORM_SIZE,
    {
        let words = self.words();
        words_to_bytes(&words)
    }
}

} // verus!
