//! A color derived from a name, the way the `cha` crate derives it: the
//! first three bytes of the SHA-256 digest of the name.
use crate::text::{hex, push_char, push_hex};
use sha2::Digest;
use vstd::prelude::*;

verus! {

/// What `sha2::Sha256::digest` gives of `data`.
pub uninterp spec fn sha256(data: Seq<u8>) -> Seq<u8>;

/// `sha2::Sha256::digest`. Claimed: the digest is `sha256` of the bytes,
/// and, as every SHA-256 digest, 32 bytes long.
#[verifier::external_body]
fn sha256_digest(data: &[u8]) -> (digest: Vec<u8>)
    ensures
        digest@ == sha256(data@),
        digest@.len() == 32,
{
    sha2::Sha256::digest(data).to_vec()
}

/// A red, green, blue color.
pub struct Color(u8, u8, u8);

/// The color of the text `input`: the first three bytes of the SHA-256
/// digest of its UTF-8 encoding.
pub open spec fn color_of(input: Seq<char>) -> (u8, u8, u8) {
    let digest = sha256(vstd::utf8::encode_utf8(input));
    (digest[0], digest[1], digest[2])
}

/// One thousand times the square of the HSP brightness
/// (`sqrt(0.299 r² + 0.587 g² + 0.114 b²)`) of a color.
pub open spec fn brightness_milli(r: u8, g: u8, b: u8) -> int {
    299 * (r * r) + 587 * (g * g) + 114 * (b * b)
}

/// The threshold under which a color is dark: one thousand times the square
/// of 127.5.
pub open spec fn dark_threshold() -> int {
    16_256_250
}

/// The `#RRGGBB` notation of a color, in upper-case hexadecimal.
pub open spec fn color_notation(r: u8, g: u8, b: u8) -> Seq<char> {
    seq!['#'] + hex(r as nat, 2, true) + hex(g as nat, 2, true) + hex(b as nat, 2, true)
}

impl Color {
    /// The three components of the color.
    pub closed spec fn rgb(&self) -> (u8, u8, u8) {
        (self.0, self.1, self.2)
    }

    /// The color of `input`.
    pub fn from(input: &str) -> (color: Color)
        ensures
            color.rgb() == color_of(input@),
    {
        let mut color = Color(0, 0, 0);
        color.update(input);
        color
    }

    /// Replaces the color with the color of `input`.
    pub fn update(&mut self, input: &str) -> (color: &Color)
        ensures
            final(self).rgb() == color_of(input@),
            color.rgb() == color_of(input@),
    {
        let raw = sha256_digest(input.as_bytes());

        self.0 = raw[0];
        self.1 = raw[1];
        self.2 = raw[2];
        self
    }

    /// The `#RRGGBB` notation of the color.
    pub fn to_color_string(&self) -> (notation: String)
        ensures
            notation@ == color_notation(self.rgb().0, self.rgb().1, self.rgb().2),
    {
        let mut notation = String::new();
        push_char(&mut notation, '#');
        push_hex(&mut notation, self.0 as u128, 2, true);
        push_hex(&mut notation, self.1 as u128, 2, true);
        push_hex(&mut notation, self.2 as u128, 2, true);
        notation
    }

    /// Whether the color is dark: its HSP brightness is under 127.5. The
    /// comparison is made on the square of the brightness, in integers.
    pub fn is_dark(&self) -> (dark: bool)
        ensures
            dark == (brightness_milli(self.rgb().0, self.rgb().1, self.rgb().2) < dark_threshold()),
    {
        self.hsp_milli() < 16_256_250
    }

    /// One thousand times the square of the HSP brightness of the color.
    fn hsp_milli(&self) -> (hsp: u64)
        ensures
            hsp == brightness_milli(self.0, self.1, self.2),
    {
        let r = self.0 as u64;
        let g = self.1 as u64;
        let b = self.2 as u64;

        assert(r * r <= 255 * 255 && g * g <= 255 * 255 && b * b <= 255 * 255) by (nonlinear_arith)
            requires
                r <= 255,
                g <= 255,
                b <= 255,
        ;
        299 * (r * r) + 587 * (g * g) + 114 * (b * b)
    }
}

} // verus!

verus! {

/// The notation of a color is `#` and six upper-case hexadecimal digits.
pub proof fn lemma_notation_shape(r: u8, g: u8, b: u8)
    ensures
        color_notation(r, g, b).len() == 7,
        color_notation(r, g, b)[0] == '#',
{
    crate::text::lemma_hex_len(r as nat, 2, true);
    crate::text::lemma_hex_len(g as nat, 2, true);
    crate::text::lemma_hex_len(b as nat, 2, true);
}

/// The darkness of a color is decided by its brightness alone: of two
/// colors, the darker one is dark whenever the brighter one is.
pub proof fn lemma_darker_is_dark(a: (u8, u8, u8), b: (u8, u8, u8))
    requires
        brightness_milli(a.0, a.1, a.2) <= brightness_milli(b.0, b.1, b.2),
        brightness_milli(b.0, b.1, b.2) < dark_threshold(),
    ensures
        brightness_milli(a.0, a.1, a.2) < dark_threshold(),
{
}

} // verus!
