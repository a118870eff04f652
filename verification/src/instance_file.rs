//! Which files the engine is asked to read an instance from.
//!
//! The engine reads two formats and tells them apart by the end of the file's
//! name: `.lp` and `.mps`. A name with another end never reaches the engine,
//! and neither does the name of a file that is not there.

use vstd::prelude::*;
use vstd::string::*;

verus! {

/// Why a file is not handed to the engine.
#[derive(Debug, Clone, Copy, PartialEq, Eq, Structural)]
pub enum ReadFileError {
    /// There is no file of that name.
    FileNotFound,
    /// The name ends neither in `.lp` nor in `.mps`.
    UnsupportedFormat,
}

/// The bytes of `.lp`.
pub open spec fn lp_extension() -> Seq<u8> {
    seq![0x2eu8, 0x6cu8, 0x70u8]
}

/// The bytes of `.mps`.
pub open spec fn mps_extension() -> Seq<u8> {
    seq![0x2eu8, 0x6du8, 0x70u8, 0x73u8]
}

/// Whether a file name, given by its bytes, ends as one of the two formats
/// asks.
pub open spec fn has_known_extension(name: Seq<u8>) -> bool {
    lp_extension().is_suffix_of(name) || mps_extension().is_suffix_of(name)
}

/// What becomes of a request to read the file `name`, where `exists` says
/// whether there is such a file: a missing file is reported first, then a
/// name that ends as no format does.
pub open spec fn check(name: Seq<u8>, exists: bool) -> Result<(), ReadFileError> {
    if !exists {
        Err(ReadFileError::FileNotFound)
    } else if !has_known_extension(name) {
        Err(ReadFileError::UnsupportedFormat)
    } else {
        Ok(())
    }
}

/// The two extensions are the bytes of the strings `.lp` and `.mps`.
pub proof fn lemma_extensions()
    ensures
        ".lp".spec_bytes() == lp_extension(),
        ".mps".spec_bytes() == mps_extension(),
{
    reveal_strlit(".lp");
    reveal_strlit(".mps");
    is_ascii_spec_bytes(".lp");
    is_ascii_spec_bytes(".mps");
    assert(".lp".spec_bytes() =~= lp_extension());
    assert(".mps".spec_bytes() =~= mps_extension());
}

/// Tells whether `name` ends with `suffix`.
pub fn ends_with(name: &[u8], suffix: &[u8]) -> (found: bool)
    ensures
        found == suffix@.is_suffix_of(name@),
{
    if suffix.len() > name.len() {
        return false;
    }
    let start: usize = name.len() - suffix.len();
    let mut i: usize = 0;
    while i < suffix.len()
        invariant
            start + suffix.len() == name.len(),
            i <= suffix.len(),
            forall|j: int| 0 <= j < i ==> suffix@[j] == name@[start + j],
        decreases suffix.len() - i,
    {
        if suffix[i] != name[start + i] {
            assert(name@.subrange(start as int, name.len() as int)[i as int] != suffix@[i as int]);
            return false;
        }
        i = i + 1;
    }
    assert(suffix@ =~= name@.subrange(start as int, name.len() as int));
    true
}

/// Decides whether the file `filename` is handed to the engine; `exists` says
/// whether there is such a file.
pub fn check_instance_file(filename: &str, exists: bool) -> (verdict: Result<(), ReadFileError>)
    ensures
        verdict == check(filename.spec_bytes(), exists),
{
    proof {
        lemma_extensions();
    }
    if !exists {
        return Err(ReadFileError::FileNotFound);
    }
    let name = filename.as_bytes();
    if !ends_with(name, ".lp".as_bytes()) && !ends_with(name, ".mps".as_bytes()) {
        return Err(ReadFileError::UnsupportedFormat);
    }
    Ok(())
}

} // verus!
