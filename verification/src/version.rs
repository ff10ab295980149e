//! Firmware version numbers, as devices report them in one 32-bit word.

use vstd::prelude::*;

verus! {

/// A firmware version: major, minor, patch and build number, in that order.
#[derive(Copy, Clone, Debug, PartialEq, Eq, Structural)]
pub struct VersionNumber(pub u32, pub u32, pub u32, pub u32);

impl VersionNumber {
    /// Whether each part fits the width it has in a version word: four bits for
    /// major and for minor, eight for patch, sixteen for build.
    pub open spec fn is_valid(self) -> bool {
        self.0 <= 0xf && self.1 <= 0xf && self.2 <= 0xff && self.3 <= 0xffff
    }

    /// The version word of a version: the parts side by side, major in the top
    /// four bits, then minor, patch, and build in the low sixteen.
    pub open spec fn word(self) -> int {
        self.0 * 0x1000_0000 + self.1 * 0x100_0000 + self.2 * 0x1_0000 + self.3
    }

    /// The version that a version word stands for.
    pub open spec fn of_word(word: u32) -> VersionNumber {
        VersionNumber(
            word / 0x1000_0000,
            (word / 0x100_0000) % 0x10,
            (word / 0x1_0000) % 0x100,
            word % 0x1_0000,
        )
    }

    /// Takes a version word apart.
    pub fn from_word(word: u32) -> (version: VersionNumber)
        ensures
            version == Self::of_word(word),
            version.is_valid(),
            version.word() == word,
    {
        let major: u32 = word >> 0x1c;
        let minor: u32 = (word >> 0x18) & 0xf;
        let patch: u32 = (word >> 0x10) & 0xff;
        let build: u32 = word & 0xffff;
        assert(word >> 0x1c == word / 0x1000_0000) by (bit_vector);
        assert((word >> 0x18) & 0xf == (word / 0x100_0000) % 0x10) by (bit_vector);
        assert((word >> 0x10) & 0xff == (word / 0x1_0000) % 0x100) by (bit_vector);
        assert(word & 0xffff == word % 0x1_0000) by (bit_vector);
        proof {
            Self::lemma_word_of_word(word);
        }
        VersionNumber(major, minor, patch, build)
    }

    /// Taking a word apart loses nothing: the parts fit their widths and put
    /// together give the word again.
    pub proof fn lemma_word_of_word(word: u32)
        ensures
            Self::of_word(word).is_valid(),
            Self::of_word(word).word() == word,
    {
        let w = word as int;
        assert(w == 0x1000_0000 * (w / 0x1000_0000) + w % 0x1000_0000);
        assert(w / 0x100_0000 == 0x10 * (w / 0x1000_0000) + (w / 0x100_0000) % 0x10);
        assert(w / 0x1_0000 == 0x100 * (w / 0x100_0000) + (w / 0x1_0000) % 0x100);
        assert(w == 0x1_0000 * (w / 0x1_0000) + w % 0x1_0000);
    }

    /// A valid version is the only one with its word: taking the word apart
    /// gives the version back.
    pub proof fn lemma_of_word_of_valid(version: VersionNumber)
        requires
            version.is_valid(),
        ensures
            0 <= version.word() <= u32::MAX,
            Self::of_word(version.word() as u32) == version,
    {
        let (a, b, c, d) = (version.0, version.1, version.2, version.3);
        let w: u32 = (a << 28 | b << 24 | c << 16 | d);
        assert(a <= 0xf && b <= 0xf && c <= 0xff && d <= 0xffff ==> {
            &&& (a << 28 | b << 24 | c << 16 | d) == a * 0x1000_0000 + b * 0x100_0000 + c * 0x1_0000
                + d
            &&& (a << 28 | b << 24 | c << 16 | d) / 0x1000_0000 == a
            &&& ((a << 28 | b << 24 | c << 16 | d) / 0x100_0000) % 0x10 == b
            &&& ((a << 28 | b << 24 | c << 16 | d) / 0x1_0000) % 0x100 == c
            &&& (a << 28 | b << 24 | c << 16 | d) % 0x1_0000 == d
        }) by (bit_vector);
        assert(w == version.word());
    }
}

} // verus!
