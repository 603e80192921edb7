//! The parameter block that the shader reads each frame.
//!
//! Every number of the block is held as the 32-bit word that is written to
//! the buffer: a coordinate as the bit pattern of its IEEE 754 single, the
//! mode as an integer. The order of the fields is the order of the words.

use vstd::prelude::*;

use crate::mode::Mode;

verus! {

/// The bit pattern of the single-precision number 1.55.
pub const DOMAIN_HALF_EXTENT: u32 = 0x3FC6_6666;

/// The bit pattern of the single-precision number -1.55.
pub const DOMAIN_HALF_EXTENT_NEGATED: u32 = 0xBFC6_6666;

/// The bit pattern of the single-precision number -0.75.
pub const JULIA_PARAMETER_REAL: u32 = 0xBF40_0000;

/// The bit pattern of the single-precision number 0.025: the share of the
/// rectangle that one zoom step takes away or adds.
pub const ZOOM_FACTOR: u32 = 0x3CCC_CCCD;

/// The bit pattern of the single-precision number 0.00001: once the smaller
/// side of the rectangle is no longer than this, it is not zoomed in further.
pub const PRECISION_FLOOR: u32 = 0x3727_C5AC;

/// The bit pattern of the single-precision number 20: once the larger side of
/// the rectangle is at least this long, it is not zoomed out further.
pub const EXTENT_LIMIT: u32 = 0x41A0_0000;

/// The bit pattern of the single-precision number 0.6: how far the rectangle
/// is shifted to frame the Mandelbrot set.
pub const MANDELBROT_SHIFT: u32 = 0x3F19_999A;

/// The number of 32-bit words in the block.
pub const BLOCK_WORDS: usize = 12;

/// The number of bytes in the block.
pub const BLOCK_BYTES: usize = 48;

/// The visible rectangle, the pointer, the parameter, the clock and the mode,
/// in the order in which the shader expects them.
#[derive(Clone, Copy, Debug)]
pub struct Uniform {
    /// The horizontal and the vertical interval of the plane that is shown,
    /// each as minimum and maximum.
    pub domain: [[u32; 2]; 2],
    /// The pointer position, each coordinate between zero and one.
    pub mouse: [u32; 2],
    /// The Julia parameter, real part first.
    pub c: [u32; 2],
    /// Seconds since the start of the session.
    pub time: u32,
    /// Zero for the Julia set, one for the Mandelbrot set.
    pub mandelbrot: i32,
    /// Two words that fill the block up to a multiple of sixteen bytes.
    pub _padding: [u32; 2],
}

/// The rectangle shown at start and after a reset: from -1.55 to 1.55 on both
/// axes.
pub open spec fn default_domain() -> [[u32; 2]; 2] {
    [
        [DOMAIN_HALF_EXTENT_NEGATED, DOMAIN_HALF_EXTENT],
        [DOMAIN_HALF_EXTENT_NEGATED, DOMAIN_HALF_EXTENT],
    ]
}

/// The Julia parameter chosen at start: -0.75 + 0i.
pub open spec fn default_parameter() -> [u32; 2] {
    [JULIA_PARAMETER_REAL, 0u32]
}

impl Uniform {
    /// The block of a fresh session.
    pub open spec fn initial() -> Uniform {
        Uniform {
            domain: default_domain(),
            mouse: [0u32, 0u32],
            c: default_parameter(),
            time: 0,
            mandelbrot: 0,
            _padding: [0u32, 0u32],
        }
    }

    /// The mode that the block's flag selects.
    pub open spec fn mode_of(self) -> Mode {
        Mode::of_flag(self.mandelbrot)
    }

    /// Returns the block of a fresh session: the default rectangle, the
    /// pointer at the origin, the default Julia parameter, the clock at zero
    /// and the Julia set selected.
    pub fn default() -> (r: Uniform)
        ensures
            r == Uniform::initial(),
    {
        let mouse: [u32; 2] = [0, 0];
        let time: u32 = 0;
        let domain: [[u32; 2]; 2] = [
            [DOMAIN_HALF_EXTENT_NEGATED, DOMAIN_HALF_EXTENT],
            [DOMAIN_HALF_EXTENT_NEGATED, DOMAIN_HALF_EXTENT],
        ];
        let c: [u32; 2] = [JULIA_PARAMETER_REAL, 0];
        let mandelbrot: i32 = 0;
        Uniform { mouse, time, domain, c, mandelbrot, _padding: [0, 0] }
    }

    /// Returns the mode that the block's flag selects.
    pub fn mode(&self) -> (r: Mode)
        ensures
            r == self.mode_of(),
    {
        Mode::from_flag(self.mandelbrot)
    }

    /// The block after a zoom step: the zoomed rectangle unless the step is
    /// refused, all else as before.
    pub open spec fn zoomed(self, refused: bool, zoomed: [[u32; 2]; 2]) -> Uniform {
        if refused {
            self
        } else {
            Uniform { domain: zoomed, ..self }
        }
    }

    /// The words of the block in the order in which they are written: the
    /// rectangle, the pointer, the parameter, the clock, the mode flag and
    /// the padding.
    pub open spec fn words_of(self) -> Seq<u32> {
        seq![
            self.domain[0][0],
            self.domain[0][1],
            self.domain[1][0],
            self.domain[1][1],
            self.mouse[0],
            self.mouse[1],
            self.c[0],
            self.c[1],
            self.time,
            self.mandelbrot as u32,
            self._padding[0],
            self._padding[1],
        ]
    }

    /// Takes the rectangle of one zoom step towards the pointer. At the
    /// precision floor the step is refused and the block stays as it is.
    pub fn zoom_in(&mut self, at_floor: bool, zoomed: [[u32; 2]; 2])
        ensures
            *final(self) == old(self).zoomed(at_floor, zoomed),
    {
        self.zoom(at_floor, zoomed);
    }

    /// Takes the rectangle of one zoom step away from the pointer. At the
    /// upper bound the step is refused and the block stays as it is.
    pub fn zoom_out(&mut self, at_limit: bool, zoomed: [[u32; 2]; 2])
        ensures
            *final(self) == old(self).zoomed(at_limit, zoomed),
    {
        self.zoom(at_limit, zoomed);
    }

    fn zoom(&mut self, refused: bool, zoomed: [[u32; 2]; 2])
        ensures
            *final(self) == old(self).zoomed(refused, zoomed),
    {
        if refused {
            return;
        }
        self.domain = zoomed;
    }

    /// Returns the twelve words of the block in the order in which they are
    /// written.
    pub fn to_words(&self) -> (r: [u32; 12])
        ensures
            r@ == self.words_of(),
    {
        let flag: u32 = #[verifier::truncate]
        (self.mandelbrot as u32);
        let r: [u32; 12] = [
            self.domain[0][0],
            self.domain[0][1],
            self.domain[1][0],
            self.domain[1][1],
            self.mouse[0],
            self.mouse[1],
            self.c[0],
            self.c[1],
            self.time,
            flag,
            self._padding[0],
            self._padding[1],
        ];
        assert(r@ =~= self.words_of());
        r
    }

    /// Returns the forty-eight bytes of the block as they lie in memory: word
    /// after word, each in the byte order of the machine.
    pub fn to_bytes(&self) -> (r: Vec<u8>)
        ensures
            r@ == little_endian(self.words_of()) || r@ == big_endian(self.words_of()),
            r@.len() == BLOCK_BYTES,
    {
        let words = self.to_words();
        words_in_memory(words.as_slice())
    }
}

/// Byte `k` of a word, counted from the least significant one.
pub open spec fn word_byte(word: u32, k: int) -> u8 {
    if k == 0 {
        (word % 0x100) as u8
    } else if k == 1 {
        (word / 0x100 % 0x100) as u8
    } else if k == 2 {
        (word / 0x1_0000 % 0x100) as u8
    } else {
        (word / 0x100_0000 % 0x100) as u8
    }
}

/// The bytes of a run of words, the least significant byte of each word
/// first.
pub open spec fn little_endian(words: Seq<u32>) -> Seq<u8> {
    Seq::new(4 * words.len(), |i: int| word_byte(words[i / 4], i % 4))
}

/// The bytes of a run of words, the most significant byte of each word
/// first.
pub open spec fn big_endian(words: Seq<u32>) -> Seq<u8> {
    Seq::new(4 * words.len(), |i: int| word_byte(words[i / 4], 3 - i % 4))
}

/// `bytemuck::cast_slice` from words to bytes, copied into a vector. The cast
/// hands out the memory of the words as it is: four bytes for each word, in
/// the byte order of the machine, which is the same for all of them.
#[verifier::external_body]
fn words_in_memory(words: &[u32]) -> (r: Vec<u8>)
    ensures
        r@ == little_endian(words@) || r@ == big_endian(words@),
{
    bytemuck::cast_slice::<u32, u8>(words).to_vec()
}

/// A zoom step that is refused leaves the block as it is, however often it is
/// asked for.
pub proof fn refused_zoom_is_idle(block: Uniform, first: [[u32; 2]; 2], second: [[u32; 2]; 2])
    ensures
        block.zoomed(true, first) == block,
        block.zoomed(true, first).zoomed(true, second) == block,
{
}

} // verus!
