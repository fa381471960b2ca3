//! The glob matching that the privacy policy relies on, from `globset`.
//!
//! A `GlobSetBuilder` and a `GlobSet` are modelled by the glob patterns they
//! hold, in the order they were added.

use globset::{GlobSet, GlobSetBuilder};
use vstd::prelude::*;

verus! {

#[verifier::external_type_specification]
#[verifier::external_body]
pub struct ExGlobSet(GlobSet);

#[verifier::external_type_specification]
#[verifier::external_body]
pub struct ExGlobSetBuilder(GlobSetBuilder);

#[verifier::external_type_specification]
#[verifier::external_body]
pub struct ExGlobError(globset::Error);

/// `globset::Glob::new` accepts the pattern (default options).
pub uninterp spec fn glob_is_valid(pattern: Seq<char>) -> bool;

/// The patterns held by a builder, in the order they were added.
pub uninterp spec fn glob_builder_patterns(builder: GlobSetBuilder) -> Seq<Seq<char>>;

/// `globset::GlobSet::new` builds a set from these (valid) patterns.
pub uninterp spec fn glob_set_builds(patterns: Seq<Seq<char>>) -> bool;

/// The patterns a set was built from.
pub uninterp spec fn glob_set_patterns(set: GlobSet) -> Seq<Seq<char>>;

/// The glob `pattern` (default options) matches the path `path`, written
/// with `/` separators.
pub uninterp spec fn glob_matches(pattern: Seq<char>, path: Seq<char>) -> bool;

/// The text holds a `\`, which is a path separator on some platforms.
pub open spec fn has_backslash(s: Seq<char>) -> bool {
    s.contains('\\')
}

/// Some pattern of the list matches the path.
pub open spec fn any_glob_matches(patterns: Seq<Seq<char>>, path: Seq<char>) -> bool {
    exists|i: int| 0 <= i < patterns.len() && glob_matches(patterns[i], path)
}

/// `GlobSetBuilder::new`: a builder with no patterns.
#[verifier::external_body]
pub(crate) fn new_glob_set_builder() -> (res: GlobSetBuilder)
    ensures
        glob_builder_patterns(res) == Seq::<Seq<char>>::empty(),
{
    GlobSetBuilder::new()
}

/// `Glob::new(pattern)` followed by `GlobSetBuilder::add`: the pattern is
/// compiled with default options and, when that succeeds, appended to the
/// builder; on failure the builder is left as it was.
#[verifier::external_body]
pub(crate) fn add_glob(builder: &mut GlobSetBuilder, pattern: &str) -> (res: Result<
    (),
    globset::Error,
>)
    ensures
        res is Ok <==> glob_is_valid(pattern@),
        res is Ok ==> glob_builder_patterns(*final(builder)) == glob_builder_patterns(
            *old(builder),
        ).push(pattern@),
        res is Err ==> glob_builder_patterns(*final(builder)) == glob_builder_patterns(
            *old(builder),
        ),
{
    let glob = globset::Glob::new(pattern)?;
    builder.add(glob);
    Ok(())
}

/// `GlobSetBuilder::build`: a set of the builder's patterns, unless
/// `GlobSet::new` fails on them.
#[verifier::external_body]
pub(crate) fn build_glob_set(builder: &GlobSetBuilder) -> (res: Result<GlobSet, globset::Error>)
    ensures
        res is Ok <==> glob_set_builds(glob_builder_patterns(*builder)),
        res matches Ok(set) ==> glob_set_patterns(set) == glob_builder_patterns(*builder),
{
    builder.build()
}

/// `GlobSet::is_match`: some pattern of the set matches the path. Paths are
/// taken as they are only where `\` is not a separator, so the contract
/// speaks of paths without `\`.
#[verifier::external_body]
pub(crate) fn glob_set_is_match(set: &GlobSet, path: &str) -> (res: bool)
    ensures
        res || has_backslash(path@) || forall|i: int|
            0 <= i < glob_set_patterns(*set).len() ==> !glob_matches(
                glob_set_patterns(*set)[i],
                path@,
            ),
        !res || has_backslash(path@) || exists|i: int|
            0 <= i < glob_set_patterns(*set).len() && glob_matches(
                glob_set_patterns(*set)[i],
                path@,
            ),
{
    set.is_match(path)
}

/// The `Display` text of a `globset::Error`. Nothing is stated of it: the
/// error's contents are not modelled.
#[verifier::external_body]
pub(crate) fn glob_error_text(error: &globset::Error) -> String {
    error.to_string()
}

} // verus!
