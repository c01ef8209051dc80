//! What comes back from parsing. The parser is the `usvg` crate, and the
//! program around this library calls it; this module turns the parser's
//! errors into the library's own and reads the extent of a parsed drawing.

use vstd::prelude::*;
use vstd::string::*;
use crate::single::is_positive_finite;

verus! {

/// A parsed drawing. Nothing of its inside is known here.
#[verifier::external_type_specification]
#[verifier::external_body]
pub struct ExTree(usvg::Tree);

/// The parser's error.
#[verifier::external_type_specification]
#[verifier::external_body]
pub struct ExError(usvg::Error);

/// Why data could not be taken as a drawing.
#[derive(Debug, PartialEq, Eq)]
pub enum ParseFault {
    /// The data is not UTF-8 text.
    NotUtf8,
    /// The data starts like compressed data and cannot be decompressed.
    MalformedGzip,
    /// The drawing has more elements than the parser accepts.
    TooManyElements,
    /// The drawing has no width and height above zero.
    InvalidSize,
    /// The text is not well-formed; the parser's own words say where.
    Malformed(String),
    /// The drawing has no bitmap: at the resolution asked for it would have
    /// no pixels, or more than a bitmap can hold.
    Unrenderable,
    /// There is no data at all: the file that was read is empty.
    Empty,
}

impl ParseFault {
    /// The fault in words.
    pub open spec fn text(self) -> Seq<char> {
        match self {
            ParseFault::NotUtf8 => "provided data has not an UTF-8 encoding"@,
            ParseFault::MalformedGzip => "provided data has a malformed GZip content"@,
            ParseFault::TooManyElements => "the maximum number of SVG elements has been reached"@,
            ParseFault::InvalidSize => "SVG has an invalid size"@,
            ParseFault::Malformed(detail) => "SVG data parsing failed cause "@ + detail@,
            ParseFault::Unrenderable => "Failed to create pixmap"@,
            ParseFault::Empty => "SVG data is empty"@,
        }
    }

    /// The fault in words.
    pub fn message(&self) -> (r: String)
        ensures
            r@ == self.text(),
    {
        match self {
            ParseFault::NotUtf8 => String::from_str("provided data has not an UTF-8 encoding"),
            ParseFault::MalformedGzip => String::from_str(
                "provided data has a malformed GZip content",
            ),
            ParseFault::TooManyElements => String::from_str(
                "the maximum number of SVG elements has been reached",
            ),
            ParseFault::InvalidSize => String::from_str("SVG has an invalid size"),
            ParseFault::Malformed(detail) => String::from_str(
                "SVG data parsing failed cause ",
            ).concat(detail.as_str()),
            ParseFault::Unrenderable => String::from_str("Failed to create pixmap"),
            ParseFault::Empty => String::from_str("SVG data is empty"),
        }
    }
}

/// The fault that a parser's error stands for. [`fault_of`] computes it.
pub uninterp spec fn fault_kind(error: usvg::Error) -> ParseFault;

/// Tells the variants of `usvg::Error` apart. Of a text that is not
/// well-formed it keeps the XML parser's message.
#[verifier::external_body]
fn fault_of(error: &usvg::Error) -> (r: ParseFault)
    ensures
        r == fault_kind(*error),
{
    match error {
        usvg::Error::NotAnUtf8Str => ParseFault::NotUtf8,
        usvg::Error::MalformedGZip => ParseFault::MalformedGzip,
        usvg::Error::ElementsLimitReached => ParseFault::TooManyElements,
        usvg::Error::InvalidSize => ParseFault::InvalidSize,
        usvg::Error::ParsingFailed(e) => ParseFault::Malformed(e.to_string()),
    }
}

/// The bit patterns of the width and the height of a parsed drawing.
pub uninterp spec fn tree_extent(tree: usvg::Tree) -> (u32, u32);

/// `usvg::Tree::size`, as the bit patterns of width and height. It reads
/// what the drawing holds, and the crate keeps both above zero and finite.
#[verifier::external_body]
pub(crate) fn size_bits(tree: &usvg::Tree) -> (r: (u32, u32))
    ensures
        r == tree_extent(*tree),
        is_positive_finite(r.0),
        is_positive_finite(r.1),
{
    let size = tree.size();
    (size.width().to_bits(), size.height().to_bits())
}

/// What parsing returns for what the parser returned: the drawing, or the
/// fault that the parser's error stands for.
pub fn parsed(outcome: Result<usvg::Tree, usvg::Error>) -> (r: Result<usvg::Tree, ParseFault>)
    ensures
        match outcome {
            Ok(tree) => r == Ok::<usvg::Tree, ParseFault>(tree),
            Err(error) => r == Err::<usvg::Tree, ParseFault>(fault_kind(error)),
        },
{
    match outcome {
        Ok(tree) => Ok(tree),
        Err(error) => Err(fault_of(&error)),
    }
}

} // verus!
