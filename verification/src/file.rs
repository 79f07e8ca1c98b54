//! Paths below the working directory.

use vstd::prelude::*;

verus! {

/// The name of the directory that tests work in.
pub const TEST_DIR: &'static str = ".test";

/// The path that `std::path::Path::join` makes of `base` and `append`,
/// by the path rules of the platform that the crate is built for.
pub uninterp spec fn joined_path(base: Seq<char>, append: Seq<char>) -> Seq<char>;

/// `std::path::Path::join`, from text to text: `append` adjoined to
/// `base`.
#[verifier::external_body]
fn path_join(base: &str, append: &str) -> (r: String)
    ensures
        r@ == joined_path(base@, append@),
{
    std::path::Path::new(base).join(append).to_string_lossy().into_owned()
}

/// The path `append` below the working directory `base`.
pub fn cd_with(base: &str, append: &str) -> (r: String)
    ensures
        r@ == joined_path(base@, append@),
{
    path_join(base, append)
}

/// The directory that tests work in, below the working directory `base`.
pub fn cd_test(base: &str) -> (r: String)
    ensures
        r@ == joined_path(base@, TEST_DIR@),
{
    cd_with(base, TEST_DIR)
}

} // verus!
