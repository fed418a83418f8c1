use vstd::prelude::*;
use vstd::string::*;

verus! {

/// The lower-case form of a text, as the standard library computes it from the
/// Unicode character database.
pub uninterp spec fn lowercased(text: Seq<char>) -> Seq<char>;

/// Lower-cases `text` with `str::to_lowercase`.
#[verifier::external_body]
fn lowercase(text: &str) -> (lower: String)
    ensures
        lower@ == lowercased(text@),
{
    text.to_lowercase()
}

/// The first space of `text` is at `at`.
pub open spec fn splits_at(text: Seq<char>, at: int) -> bool {
    &&& 0 <= at < text.len()
    &&& text[at] == ' '
    &&& forall|j: int| 0 <= j < at ==> text[j] != ' '
}

/// Where the first space of `text` is, if it has one.
pub fn first_space(text: &str) -> (at: Option<usize>)
    ensures
        match at {
            Some(i) => splits_at(text@, i as int),
            None => !text@.contains(' '),
        },
{
    let n = text.unicode_len();
    let mut i: usize = 0;
    while i < n
        invariant
            n == text@.len(),
            i <= n,
            forall|j: int| 0 <= j < i ==> text@[j] != ' ',
        decreases n - i,
    {
        if text.get_char(i) == ' ' {
            return Some(i);
        }
        i += 1;
    }
    None
}

/// Joins a package name and a version into a user agent: the name, a slash,
/// the version.
pub fn user_agent_from_parts(package_name: String, full_version: &str) -> (header: String)
    ensures
        header@ == package_name@ + "/"@ + full_version@,
{
    package_name.concat("/").concat(full_version)
}

/// Builds the user agent from the runtime's version text, which reads as a
/// package name, a space and a version: the name in lower case, a slash, and
/// the version as it stands.
pub fn create_user_agent_header(version_global: &str) -> (header: String)
    requires
        version_global@.contains(' '),
    ensures
        exists|at: int|
            splits_at(version_global@, at) && header@ == lowercased(
                version_global@.subrange(0, at),
            ) + "/"@ + version_global@.subrange(at + 1, version_global@.len() as int),
{
    let n = version_global.unicode_len();
    match first_space(version_global) {
        Some(at) => {
            let package_name = version_global.substring_char(0, at);
            let full_version = version_global.substring_char(at + 1, n);
            let header = user_agent_from_parts(lowercase(package_name), full_version);
            header
        },
        None => unreached(),
    }
}

} // verus!
