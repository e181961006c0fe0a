//! Names of the image files of a run.
//!
//! Frame `n` is written to `output/` under its index in decimal, filled with
//! zeros on the left to five digits, with the extension of the image format.

use vstd::prelude::*;
use vstd::string::StringExecFns;

verus! {

/// Digits that every frame index is filled up to.
pub const INDEX_WIDTH: usize = 5;

/// The encoding of the image files.
#[derive(Clone, Copy, Debug, PartialEq, Eq, Structural)]
pub enum ImageFormat {
    /// Lossy; the pixels that a decoder returns are close to those written.
    Jpeg,
    /// Lossless; a decoder returns the pixels that were written.
    Png,
}

/// The character of the decimal digit `d`.
pub open spec fn digit_char(d: int) -> char {
    if d == 0 {
        '0'
    } else if d == 1 {
        '1'
    } else if d == 2 {
        '2'
    } else if d == 3 {
        '3'
    } else if d == 4 {
        '4'
    } else if d == 5 {
        '5'
    } else if d == 6 {
        '6'
    } else if d == 7 {
        '7'
    } else if d == 8 {
        '8'
    } else {
        '9'
    }
}

/// `n` in decimal, without leading zeros.
pub open spec fn decimal(n: nat) -> Seq<char>
    decreases n,
{
    if n < 10 {
        seq![digit_char(n as int)]
    } else {
        decimal(n / 10).push(digit_char((n % 10) as int))
    }
}

/// `count` zeros.
pub open spec fn zeros(count: nat) -> Seq<char> {
    Seq::new(count, |i: int| '0')
}

/// `n` in decimal, filled with zeros on the left to at least `width` digits.
pub open spec fn zero_padded(n: nat, width: nat) -> Seq<char> {
    let digits = decimal(n);
    if digits.len() >= width {
        digits
    } else {
        zeros((width - digits.len()) as nat) + digits
    }
}

/// The part of a frame's file name that says which frame it is.
pub open spec fn frame_stem(index: nat) -> Seq<char> {
    zero_padded(index, INDEX_WIDTH as nat)
}

/// The extension of the files of a format.
pub open spec fn extension_of(format: ImageFormat) -> Seq<char> {
    match format {
        ImageFormat::Jpeg => "jpeg"@,
        ImageFormat::Png => "png"@,
    }
}

/// The path of the file of frame `index`.
pub open spec fn frame_path(index: nat, format: ImageFormat) -> Seq<char> {
    "output/"@ + frame_stem(index) + "."@ + extension_of(format)
}

/// Every number has a digit, the numbers below ten have one, and every
/// other number has one digit more than its tenth.
pub proof fn lemma_decimal_len(n: nat)
    ensures
        decimal(n).len() >= 1,
        n < 10 <==> decimal(n).len() == 1,
        n >= 10 ==> decimal(n).len() == decimal(n / 10).len() + 1,
    decreases n,
{
    if n >= 10 {
        lemma_decimal_len(n / 10);
    }
}

/// A frame's stem has five characters while the index has at most five
/// digits, and is the bare index beyond that.
pub proof fn lemma_frame_stem_len(index: nat)
    ensures
        index < 100_000 ==> frame_stem(index).len() == 5,
        index >= 100_000 ==> frame_stem(index) == decimal(index),
        frame_stem(index).len() >= 5,
{
    lemma_decimal_len(index);
    lemma_decimal_len(index / 10);
    lemma_decimal_len(index / 10 / 10);
    lemma_decimal_len(index / 10 / 10 / 10);
    lemma_decimal_len(index / 10 / 10 / 10 / 10);
    lemma_decimal_len(index / 10 / 10 / 10 / 10 / 10);
}

impl ImageFormat {
    /// The extension of the files of the format, without the dot.
    pub fn extension(&self) -> (ext: &'static str)
        ensures
            ext@ == extension_of(*self),
    {
        match self {
            ImageFormat::Jpeg => "jpeg",
            ImageFormat::Png => "png",
        }
    }

    /// Whether decoding a file gives back exactly the pixels written to it.
    pub fn is_lossless(&self) -> (lossless: bool)
        ensures
            lossless == (*self == ImageFormat::Png),
    {
        match self {
            ImageFormat::Jpeg => false,
            ImageFormat::Png => true,
        }
    }
}

/// The text of one decimal digit.
fn digit_text(d: u32) -> (text: &'static str)
    requires
        d < 10,
    ensures
        text@ == seq![digit_char(d as int)],
{
    proof {
        reveal_strlit("0");
        reveal_strlit("1");
        reveal_strlit("2");
        reveal_strlit("3");
        reveal_strlit("4");
        reveal_strlit("5");
        reveal_strlit("6");
        reveal_strlit("7");
        reveal_strlit("8");
        reveal_strlit("9");
    }
    let text: &'static str = if d == 0 {
        "0"
    } else if d == 1 {
        "1"
    } else if d == 2 {
        "2"
    } else if d == 3 {
        "3"
    } else if d == 4 {
        "4"
    } else if d == 5 {
        "5"
    } else if d == 6 {
        "6"
    } else if d == 7 {
        "7"
    } else if d == 8 {
        "8"
    } else {
        "9"
    };
    assert(text@ =~= seq![digit_char(d as int)]);
    text
}

/// How many digits `n` has in decimal.
fn decimal_digits(n: u32) -> (count: usize)
    ensures
        count == decimal(n as nat).len(),
        1 <= count <= 10,
    decreases n,
{
    proof {
        lemma_decimal_len(n as nat);
    }
    if n < 10 {
        1
    } else {
        let rest: usize = decimal_digits(n / 10);
        proof {
            if rest == 10 {
                lemma_decimal_len(n as nat / 10);
                lemma_decimal_len(n as nat / 10 / 10);
                lemma_decimal_len(n as nat / 10 / 10 / 10);
                lemma_decimal_len(n as nat / 10 / 10 / 10 / 10);
                lemma_decimal_len(n as nat / 10 / 10 / 10 / 10 / 10);
                lemma_decimal_len(n as nat / 10 / 10 / 10 / 10 / 10 / 10);
                lemma_decimal_len(n as nat / 10 / 10 / 10 / 10 / 10 / 10 / 10);
                lemma_decimal_len(n as nat / 10 / 10 / 10 / 10 / 10 / 10 / 10 / 10);
                lemma_decimal_len(n as nat / 10 / 10 / 10 / 10 / 10 / 10 / 10 / 10 / 10);
                lemma_decimal_len(n as nat / 10 / 10 / 10 / 10 / 10 / 10 / 10 / 10 / 10 / 10);
            }
        }
        rest + 1
    }
}

/// Appends `n` in decimal to `text`.
fn push_decimal(text: &mut String, n: u32)
    ensures
        final(text)@ == old(text)@ + decimal(n as nat),
    decreases n,
{
    if n >= 10 {
        push_decimal(text, n / 10);
    }
    text.append(digit_text(n % 10));
    assert(text@ =~= old(text)@ + decimal(n as nat));
}

/// The index of a frame as it stands in the frame's file name: in decimal,
/// filled with zeros on the left to five digits.
pub fn frame_index_text(index: u32) -> (stem: String)
    ensures
        stem@ == frame_stem(index as nat),
{
    let digits: usize = decimal_digits(index);
    let mut stem: String = String::new();
    let mut filled: usize = digits;
    while filled < INDEX_WIDTH
        invariant
            digits <= filled,
            digits < INDEX_WIDTH ==> filled <= INDEX_WIDTH,
            digits >= INDEX_WIDTH ==> filled == digits,
            stem@ == zeros((filled - digits) as nat),
        decreases INDEX_WIDTH - filled,
    {
        proof {
            reveal_strlit("0");
        }
        stem.append("0");
        filled += 1;
        assert(stem@ =~= zeros((filled - digits) as nat));
    }
    push_decimal(&mut stem, index);
    assert(stem@ =~= frame_stem(index as nat));
    stem
}

/// The path of the image file of frame `index`.
pub fn frame_file_name(index: u32, format: ImageFormat) -> (path: String)
    ensures
        path@ == frame_path(index as nat, format),
{
    let mut path: String = String::from_str("output/");
    let stem: String = frame_index_text(index);
    path.append(stem.as_str());
    path.append(".");
    path.append(format.extension());
    path
}

} // verus!
