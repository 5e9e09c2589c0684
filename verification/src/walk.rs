//! Which entries of a directory are taken in.

use crate::lexer::spells;
use vstd::prelude::*;
use vstd::string::StringSliceAdditionalSpecFns;
use vstd::utf8::encode_utf8_decode_utf8;

verus! {

/// What to do with an entry of a directory.
#[derive(Clone, Copy, Debug, PartialEq, Eq, Structural)]
pub enum Visit {
    /// A source file: parse it.
    Parse,
    /// A directory: go through its entries in turn.
    Descend,
    /// Anything else: pass it by.
    Skip,
}

/// The extension that the names of source files have.
pub open spec fn source_extension() -> Seq<char> {
    "c"@
}

/// What is done with an entry: a file whose name has the extension of
/// source files is parsed, a directory is gone through, and the rest is
/// passed by.
pub open spec fn plan(is_file: bool, extension: Option<Seq<char>>, is_dir: bool) -> Visit {
    if is_file && extension == Some(source_extension()) {
        Visit::Parse
    } else if is_dir {
        Visit::Descend
    } else {
        Visit::Skip
    }
}

/// Tells whether the extension of a file's name is that of source files.
pub fn is_source_extension(extension: &str) -> (r: bool)
    ensures
        r == (extension@ == source_extension()),
{
    let bytes = extension.as_bytes();
    let r = spells(bytes, 0, bytes.len(), "c");
    proof {
        assert(bytes@.subrange(0, bytes@.len() as int) =~= bytes@);
        encode_utf8_decode_utf8(extension@);
        encode_utf8_decode_utf8("c"@);
    }
    r
}

/// Decides what to do with an entry of a directory, from what the file
/// system says of it: whether it is a file, the extension of its name if
/// it has one, and whether it is a directory.
pub fn visit(is_file: bool, extension: Option<&str>, is_dir: bool) -> (r: Visit)
    ensures
        r == plan(
            is_file,
            match extension {
                Some(e) => Some(e@),
                None => None,
            },
            is_dir,
        ),
{
    let source = match extension {
        Some(e) => is_source_extension(e),
        None => false,
    };
    if is_file && source {
        Visit::Parse
    } else if is_dir {
        Visit::Descend
    } else {
        Visit::Skip
    }
}

} // verus!
