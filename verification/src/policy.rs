//! The broker's privacy policy: excluded document paths and a byte limit on
//! the context sent to a remote provider.

use crate::debug_text::{debug_quoted, debug_str};
use crate::file_uri::{path_file_name, path_text, url_file_path, url_scheme, url_scheme_of};
use crate::globs::{
    add_glob, any_glob_matches, build_glob_set, glob_builder_patterns, glob_error_text,
    glob_is_valid, glob_set_builds, glob_set_is_match, glob_set_patterns, new_glob_set_builder,
};
use crate::protocol::{AutocompleteRequest, ErrorCode};
use crate::text::{byte_len, decimal, decimal_string, string_views, utf8_len};
use globset::GlobSet;
use vstd::prelude::*;
use vstd::string::*;

verus! {

/// Why the addons refused a request or could not be set up.
#[derive(Debug)]
pub enum AddonError {
    InvalidGlob { pattern: String, source: globset::Error },
    GlobBuild(globset::Error),
    ExcludedPath { uri: String },
    RemoteContextTooLarge { limit: usize, actual: u128 },
}

impl AddonError {
    pub fn error_code(&self) -> (code: ErrorCode)
        ensures
            code == match *self {
                AddonError::RemoteContextTooLarge { .. } => ErrorCode::ContextTooLarge,
                AddonError::InvalidGlob { .. } => ErrorCode::InternalError,
                AddonError::GlobBuild(_) => ErrorCode::InternalError,
                AddonError::ExcludedPath { .. } => ErrorCode::InvalidRequest,
            },
    {
        match self {
            AddonError::RemoteContextTooLarge { .. } => ErrorCode::ContextTooLarge,
            AddonError::InvalidGlob { .. } => ErrorCode::InternalError,
            AddonError::GlobBuild(_) => ErrorCode::InternalError,
            AddonError::ExcludedPath { .. } => ErrorCode::InvalidRequest,
        }
    }

    /// The text this error displays. For the glob errors it ends with the
    /// text of the `globset` error.
    pub fn message(&self) -> (res: String)
        ensures
            self matches AddonError::ExcludedPath { uri } ==> res@
                == "document path is excluded by broker privacy policy: "@ + uri@,
            self matches AddonError::RemoteContextTooLarge { limit, actual } ==> res@
                == "request context is "@ + decimal(actual as nat)
                + " bytes after broker context processing, exceeding remote limit "@ + decimal(
                limit as nat,
            ),
            self matches AddonError::InvalidGlob { pattern, .. } ==> ("invalid exclusion glob "@
                + debug_str(pattern@) + ": "@).is_prefix_of(res@),
            self is GlobBuild ==> "failed to build exclusion glob set: "@.is_prefix_of(res@),
    {
        match self {
            AddonError::InvalidGlob { pattern, source } => {
                let mut m = String::from_str("invalid exclusion glob ");
                let q = debug_quoted(pattern.as_str());
                m.append(q.as_str());
                m.append(": ");
                let ghost head = m@;
                let e = glob_error_text(source);
                m.append(e.as_str());
                assert(head.is_prefix_of(m@)) by {
                    assert(m@.subrange(0, head.len() as int) =~= head);
                }
                m
            },
            AddonError::GlobBuild(source) => {
                let mut m = String::from_str("failed to build exclusion glob set: ");
                let ghost head = m@;
                let e = glob_error_text(source);
                m.append(e.as_str());
                assert(head.is_prefix_of(m@)) by {
                    assert(m@.subrange(0, head.len() as int) =~= head);
                }
                m
            },
            AddonError::ExcludedPath { uri } => {
                let mut m = String::from_str("document path is excluded by broker privacy policy: ");
                m.append(uri.as_str());
                m
            },
            AddonError::RemoteContextTooLarge { limit, actual } => {
                let mut m = String::from_str("request context is ");
                let a = decimal_string(*actual);
                m.append(a.as_str());
                m.append(" bytes after broker context processing, exceeding remote limit ");
                let l = decimal_string(*limit as u128);
                m.append(l.as_str());
                m
            },
        }
    }
}

/// The index of the first pattern that is not a valid glob, if any.
pub open spec fn first_invalid_glob(patterns: Seq<Seq<char>>, i: int) -> bool {
    &&& 0 <= i < patterns.len()
    &&& !glob_is_valid(patterns[i])
    &&& forall|j: int| 0 <= j < i ==> glob_is_valid(#[trigger] patterns[j])
}

pub open spec fn all_globs_valid(patterns: Seq<Seq<char>>) -> bool {
    forall|j: int| 0 <= j < patterns.len() ==> glob_is_valid(#[trigger] patterns[j])
}

// ---------------------------------------------------------------------------
// Paths of a document URI

/// What the platform made of a `file:` URI: the path as text, and the file
/// name when it has one.
pub type FilePathInfo = (Seq<char>, Option<Seq<char>>);

/// `fp` can come from this URI: there is no path unless the URI has the
/// `file` scheme.
pub open spec fn path_info_fits(uri: Seq<char>, fp: Option<FilePathInfo>) -> bool {
    fp is Some ==> url_scheme_of(uri) == Some("file"@)
}

pub open spec fn starts_with_slash(s: Seq<char>) -> bool {
    s.len() > 0 && s[0] == '/'
}

/// The path, the path without its leading `/`, and the file name, where
/// there are such.
pub open spec fn path_candidates(path: Seq<char>, name: Option<Seq<char>>) -> Seq<Seq<char>> {
    seq![path] + (if starts_with_slash(path) {
        seq![path.drop_first()]
    } else {
        Seq::empty()
    }) + match name {
        Some(n) => seq![n],
        None => Seq::empty(),
    }
}

/// The URI, then the candidates of its path where it has one.
pub open spec fn direct_candidates(uri: Seq<char>, fp: Option<FilePathInfo>) -> Seq<Seq<char>> {
    seq![uri] + match fp {
        Some((path, name)) => path_candidates(path, name),
        None => Seq::empty(),
    }
}

/// The texts of `d`, and each of them that starts with `/` without that `/`.
pub open spec fn with_stripped(d: Seq<Seq<char>>) -> Set<Seq<char>> {
    Set::new(
        |x: Seq<char>|
            d.contains(x) || exists|i: int|
                0 <= i < d.len() && starts_with_slash(d[i]) && x == d[i].drop_first(),
    )
}

/// The texts matched against the excluded globs: the direct candidates, and
/// each of them that starts with `/` without that `/`.
pub open spec fn uri_candidates(uri: Seq<char>, fp: Option<FilePathInfo>) -> Set<Seq<char>> {
    with_stripped(direct_candidates(uri, fp))
}

/// The exclusion decision fits the globs for the URI with this path
/// information: excluded when a candidate matches, kept when none does (the
/// globs are not stated for candidates holding `\`).
pub open spec fn exclusion_fits(
    patterns: Seq<Seq<char>>,
    uri: Seq<char>,
    fp: Option<FilePathInfo>,
    excluded: bool,
) -> bool {
    &&& excluded ==> exists|c: Seq<char>|
        uri_candidates(uri, fp).contains(c) && (c.contains('\\') || any_glob_matches(patterns, c))
    &&& !excluded ==> forall|c: Seq<char>|
        uri_candidates(uri, fp).contains(c) ==> (c.contains('\\') || !any_glob_matches(
            patterns,
            c,
        ))
}

/// The exclusion decision fits the globs for the path information the
/// platform gave the URI: none unless the URI has the `file` scheme.
pub open spec fn exclusion_consistent(
    patterns: Seq<Seq<char>>,
    uri: Seq<char>,
    excluded: bool,
) -> bool {
    exists|fp: Option<FilePathInfo>|
        path_info_fits(uri, fp) && #[trigger] exclusion_fits(patterns, uri, fp, excluded)
}

pub open spec fn candidates_view(v: Seq<String>) -> Set<Seq<char>> {
    string_views(v).to_set()
}

fn push_string(v: &mut Vec<String>, s: String)
    ensures
        string_views(final(v)@) == string_views(old(v)@).push(s@),
{
    v.push(s);
    assert(string_views(v@) =~= string_views(old(v)@).push(s@));
}

fn chars_start_with_slash(s: &str) -> (b: bool)
    ensures
        b == starts_with_slash(s@),
{
    let c = crate::text::chars_of(s);
    c.len() > 0 && c[0] == '/'
}

fn without_first_char(s: &str) -> (res: String)
    requires
        s@.len() > 0,
    ensures
        res@ == s@.drop_first(),
{
    let c = crate::text::chars_of(s);
    let rest = crate::text::slice_from(c.as_slice(), 1);
    crate::text::string_from_chars(rest.as_slice())
}

pub open spec fn path_view(path: Option<(String, Option<String>)>) -> Option<FilePathInfo> {
    match path {
        Some((p, n)) => Some((p@, crate::file_uri::option_view(n))),
        None => None,
    }
}

/// Adds the candidates of a file path: the path, the path without its
/// leading `/`, and the file name.
pub fn add_path_candidates(candidates: &mut Vec<String>, path: String, file_name: Option<String>)
    ensures
        string_views(final(candidates)@) == string_views(old(candidates)@) + path_candidates(
            path@,
            crate::file_uri::option_view(file_name),
        ),
{
    let ghost before = string_views(candidates@);
    let slash = chars_start_with_slash(path.as_str());
    let stripped = if slash {
        Some(without_first_char(path.as_str()))
    } else {
        None
    };
    let ghost p = path@;
    push_string(candidates, path);
    match stripped {
        Some(s) => push_string(candidates, s),
        None => {},
    }
    match file_name {
        Some(n) => push_string(candidates, n),
        None => {},
    }
    assert(string_views(candidates@) =~= before + path_candidates(
        p,
        crate::file_uri::option_view(file_name),
    ));
}

/// Adds, for each candidate that starts with `/`, the candidate without it.
pub fn add_stripped_leading_slash_candidates(candidates: &mut Vec<String>)
    ensures
        candidates_view(final(candidates)@) == with_stripped(string_views(old(candidates)@)),
{
    let ghost d = string_views(candidates@);
    let ghost mut extra: Seq<Seq<char>> = Seq::empty();
    let n = candidates.len();
    assert(string_views(candidates@) =~= d + extra);
    for i in 0..n
        invariant
            n == d.len(),
            string_views(candidates@) == d + extra,
            forall|x: Seq<char>|
                extra.contains(x) <==> exists|j: int|
                    0 <= j < i && starts_with_slash(d[j]) && x == d[j].drop_first(),
    {
        assert(string_views(candidates@).len() == candidates@.len());
        assert((d + extra)[i as int] == d[i as int]);
        assert(candidates@[i as int]@ == d[i as int]);
        if chars_start_with_slash(candidates[i].as_str()) {
            let s = without_first_char(candidates[i].as_str());
            push_string(candidates, s);
            proof {
                let x0 = d[i as int].drop_first();
                let old_extra = extra;
                extra = extra.push(x0);
                assert forall|x: Seq<char>|
                    extra.contains(x) <==> exists|j: int|
                        0 <= j < i + 1 && starts_with_slash(d[j]) && x == d[j].drop_first() by {
                    if extra.contains(x) {
                        let k = choose|k: int| 0 <= k < extra.len() && extra[k] == x;
                        if k < old_extra.len() {
                            assert(old_extra[k] == x);
                            assert(old_extra.contains(x));
                        }
                    }
                    if exists|j: int|
                        0 <= j < i + 1 && starts_with_slash(d[j]) && x == d[j].drop_first() {
                        let j = choose|j: int|
                            0 <= j < i + 1 && starts_with_slash(d[j]) && x == d[j].drop_first();
                        if j < i {
                            assert(old_extra.contains(x));
                            let k = choose|k: int| 0 <= k < old_extra.len() && old_extra[k] == x;
                            assert(extra[k] == x);
                        } else {
                            assert(extra[old_extra.len() as int] == x);
                        }
                    }
                }
                assert(string_views(candidates@) =~= d + extra);
            }
        } else {
            proof {
                assert forall|x: Seq<char>|
                    extra.contains(x) <==> exists|j: int|
                        0 <= j < i + 1 && starts_with_slash(d[j]) && x == d[j].drop_first() by {
                    if exists|j: int|
                        0 <= j < i + 1 && starts_with_slash(d[j]) && x == d[j].drop_first() {
                        let j = choose|j: int|
                            0 <= j < i + 1 && starts_with_slash(d[j]) && x == d[j].drop_first();
                        assert(j != i);
                    }
                }
            }
        }
    }
    let ghost v = string_views(candidates@);
    assert forall|x: Seq<char>| v.to_set().contains(x) <==> with_stripped(d).contains(x) by {
        if v.contains(x) {
            let k = choose|k: int| 0 <= k < v.len() && v[k] == x;
            if k < d.len() {
                assert(d[k] == x);
                assert(d.contains(x));
            } else {
                assert(extra[k - d.len()] == x);
                assert(extra.contains(x));
            }
        }
        if with_stripped(d).contains(x) {
            if d.contains(x) {
                let k = choose|k: int| 0 <= k < d.len() && d[k] == x;
                assert(v[k] == x);
                assert(v.contains(x));
            } else {
                assert(extra.contains(x));
                let k = choose|k: int| 0 <= k < extra.len() && extra[k] == x;
                assert(v[d.len() + k] == x);
                assert(v.contains(x));
            }
        }
    }
    assert(v.to_set() =~= with_stripped(d));
}

/// The candidates for a URI given what the platform made of its path.
pub fn match_candidates(uri: &str, path: Option<(String, Option<String>)>) -> (res: Vec<String>)
    ensures
        candidates_view(res@) == uri_candidates(uri@, path_view(path)),
{
    let ghost fp: Option<FilePathInfo> = path_view(path);
    let mut candidates: Vec<String> = Vec::new();
    push_string(&mut candidates, String::from_str(uri));
    match path {
        Some((p, name)) => add_path_candidates(&mut candidates, p, name),
        None => {},
    }
    assert(string_views(candidates@) =~= direct_candidates(uri@, fp));
    add_stripped_leading_slash_candidates(&mut candidates);
    candidates
}

} // verus!

verus! {

/// Enforces the privacy policy on requests bound for a remote provider.
#[derive(Debug)]
pub struct PolicyEngine {
    remote_context_byte_limit: usize,
    excluded_globs: Vec<String>,
    excluded_set: GlobSet,
}

/// Total bytes of context a request would send.
pub open spec fn context_bytes(request: AutocompleteRequest) -> nat {
    utf8_len(request.context.prefix@) + utf8_len(request.context.suffix@) + utf8_len(
        request.context.selected_text@,
    )
}

impl PolicyEngine {
    #[verifier::type_invariant]
    spec fn set_holds_globs(self) -> bool {
        glob_set_patterns(self.excluded_set) == string_views(self.excluded_globs@)
    }

    pub closed spec fn limit(self) -> usize {
        self.remote_context_byte_limit
    }

    pub closed spec fn patterns(self) -> Seq<Seq<char>> {
        string_views(self.excluded_globs@)
    }

    /// A policy with the given byte limit and excluded globs. Fails on the
    /// first pattern that is not a valid glob, or when the set cannot be
    /// built.
    pub fn new(remote_context_byte_limit: usize, excluded_globs: Vec<String>) -> (res: Result<
        Self,
        AddonError,
    >)
        ensures
            res is Ok <==> all_globs_valid(string_views(excluded_globs@)) && glob_set_builds(
                string_views(excluded_globs@),
            ),
            res matches Ok(p) ==> p.limit() == remote_context_byte_limit && p.patterns()
                == string_views(excluded_globs@),
            res matches Err(AddonError::InvalidGlob { pattern, .. }) ==> exists|i: int|
                first_invalid_glob(string_views(excluded_globs@), i) && pattern@ == string_views(
                    excluded_globs@,
                )[i],
            res matches Err(AddonError::GlobBuild(_)) ==> all_globs_valid(
                string_views(excluded_globs@),
            ) && !glob_set_builds(string_views(excluded_globs@)),
            !(res matches Err(AddonError::ExcludedPath { .. })),
            !(res matches Err(AddonError::RemoteContextTooLarge { .. })),
    {
        let ghost pats = string_views(excluded_globs@);
        let mut builder = new_glob_set_builder();
        let n = excluded_globs.len();
        for i in 0..n
            invariant
                n == excluded_globs@.len(),
                pats == string_views(excluded_globs@),
                glob_builder_patterns(builder) == pats.take(i as int),
                forall|j: int| 0 <= j < i ==> glob_is_valid(#[trigger] pats[j]),
        {
            let pattern = &excluded_globs[i];
            match add_glob(&mut builder, pattern.as_str()) {
                Ok(()) => {
                    assert(pats.take(i + 1) =~= pats.take(i as int).push(pats[i as int]));
                },
                Err(source) => {
                    assert(first_invalid_glob(pats, i as int));
                    return Err(AddonError::InvalidGlob { pattern: pattern.clone(), source });
                },
            }
        }
        assert(pats.take(n as int) =~= pats);
        match build_glob_set(&builder) {
            Ok(excluded_set) => Ok(
                PolicyEngine { remote_context_byte_limit, excluded_globs, excluded_set },
            ),
            Err(source) => Err(AddonError::GlobBuild(source)),
        }
    }

    pub fn remote_context_byte_limit(&self) -> (res: usize)
        ensures
            res == self.limit(),
    {
        self.remote_context_byte_limit
    }

    pub fn excluded_globs(&self) -> (res: &[String])
        ensures
            string_views(res@) == self.patterns(),
    {
        self.excluded_globs.as_slice()
    }

    /// What the platform makes of a `file:` URI's path: its text and file
    /// name; `None` for other schemes and for URIs that are not file paths.
    fn uri_file_path(uri: &str) -> (res: Option<(String, Option<String>)>)
        ensures
            path_info_fits(uri@, path_view(res)),
    {
        let scheme = url_scheme(uri);
        let is_file = match &scheme {
            Some(s) => {
                let c = crate::text::chars_of(s.as_str());
                crate::text::equals_literal(&c, "file")
            },
            None => false,
        };
        if is_file {
            match url_file_path(uri) {
                Some(p) => Some((path_text(&p), path_file_name(&p))),
                None => None,
            }
        } else {
            None
        }
    }

    /// Some candidate of the URI, with the given path and file name, matches
    /// an excluded glob.
    pub fn path_is_excluded(&self, uri: &str, path: Option<(String, Option<String>)>) -> (res:
        bool)
        ensures
            exclusion_fits(self.patterns(), uri@, path_view(path), res),
    {
        proof {
            use_type_invariant(self);
        }
        let ghost fp = path_view(path);
        let candidates = match_candidates(uri, path);
        let ghost pats = self.patterns();
        let n = candidates.len();
        for i in 0..n
            invariant
                n == candidates@.len(),
                pats == self.patterns(),
                candidates_view(candidates@) == uri_candidates(uri@, fp),
                glob_set_patterns(self.excluded_set) == pats,
                fp == path_view(path),
                forall|j: int|
                    0 <= j < i ==> has_backslash_or_no_match(pats, #[trigger] candidates@[j]@),
        {
            if glob_set_is_match(&self.excluded_set, candidates[i].as_str()) {
                proof {
                    let c = candidates@[i as int]@;
                    assert(string_views(candidates@)[i as int] == c);
                    assert(string_views(candidates@).contains(c));
                    assert(candidates_view(candidates@).contains(c));
                    assert(uri_candidates(uri@, fp).contains(c));
                    if !crate::globs::has_backslash(c) {
                        let k = choose|k: int|
                            0 <= k < pats.len() && crate::globs::glob_matches(pats[k], c);
                        assert(any_glob_matches(pats, c));
                    }
                    assert(uri_candidates(uri@, fp).contains(c) && (c.contains('\\')
                        || any_glob_matches(pats, c)));
                }
                return true;
            }
        }
        proof {
            assert forall|c: Seq<char>| uri_candidates(uri@, fp).contains(c) implies (c.contains(
                '\\',
            ) || !any_glob_matches(pats, c)) by {
                assert(string_views(candidates@).to_set().contains(c));
                let k = choose|k: int|
                    0 <= k < string_views(candidates@).len() && string_views(candidates@)[k] == c;
                assert(candidates@[k]@ == c);
                assert(has_backslash_or_no_match(pats, candidates@[k]@));
            }
        }
        false
    }

    /// Some candidate of the URI, with the path the platform gives it,
    /// matches an excluded glob.
    fn uri_is_excluded(&self, uri: &str) -> (res: bool)
        ensures
            exclusion_consistent(self.patterns(), uri@, res),
    {
        let path = PolicyEngine::uri_file_path(uri);
        let ghost fp = path_view(path);
        let res = self.path_is_excluded(uri, path);
        assert(path_info_fits(uri@, fp) && exclusion_fits(self.patterns(), uri@, fp, res));
        res
    }

    /// `enforce` for a document whose URI has the given path information:
    /// refused when a candidate is excluded, else when the context is over
    /// the remote byte limit.
    pub fn enforce_with_path(
        &self,
        request: &AutocompleteRequest,
        path: Option<(String, Option<String>)>,
    ) -> (res: Result<(), AddonError>)
        ensures
            res matches Err(AddonError::ExcludedPath { uri }) ==> uri@ == request.document.uri@
                && exclusion_fits(self.patterns(), request.document.uri@, path_view(path), true),
            !(res matches Err(AddonError::ExcludedPath { .. })) ==> {
                &&& exclusion_fits(self.patterns(), request.document.uri@, path_view(path), false)
                &&& res is Ok <==> context_bytes(*request) <= self.limit()
                &&& res matches Err(e) ==> e matches AddonError::RemoteContextTooLarge {
                    limit,
                    actual,
                } && limit == self.limit() && actual == context_bytes(*request)
            },
    {
        if self.path_is_excluded(request.document.uri.as_str(), path) {
            return Err(AddonError::ExcludedPath { uri: request.document.uri.clone() });
        }
        self.enforce_limit(request)
    }

    fn enforce_limit(&self, request: &AutocompleteRequest) -> (res: Result<(), AddonError>)
        ensures
            res is Ok <==> context_bytes(*request) <= self.limit(),
            res matches Err(e) ==> e matches AddonError::RemoteContextTooLarge { limit, actual }
                && limit == self.limit() && actual == context_bytes(*request),
    {
        let bytes: u128 = byte_len(request.context.prefix.as_str()) as u128 + byte_len(
            request.context.suffix.as_str(),
        ) as u128 + byte_len(request.context.selected_text.as_str()) as u128;
        if bytes > self.remote_context_byte_limit as u128 {
            return Err(
                AddonError::RemoteContextTooLarge {
                    limit: self.remote_context_byte_limit,
                    actual: bytes,
                },
            );
        }
        Ok(())
    }

    /// Refuses a request whose document is excluded, or whose context is
    /// over the remote byte limit.
    pub fn enforce(&self, request: &AutocompleteRequest) -> (res: Result<(), AddonError>)
        ensures
            res matches Err(AddonError::ExcludedPath { uri }) ==> uri@ == request.document.uri@
                && exclusion_consistent(self.patterns(), request.document.uri@, true),
            !(res matches Err(AddonError::ExcludedPath { .. })) ==> {
                &&& exclusion_consistent(self.patterns(), request.document.uri@, false)
                &&& res is Ok <==> context_bytes(*request) <= self.limit()
                &&& res matches Err(e) ==> e matches AddonError::RemoteContextTooLarge {
                    limit,
                    actual,
                } && limit == self.limit() && actual == context_bytes(*request)
            },
    {
        let path = PolicyEngine::uri_file_path(request.document.uri.as_str());
        let ghost fp = path_view(path);
        let res = self.enforce_with_path(request, path);
        proof {
            let u = request.document.uri@;
            if res matches Err(AddonError::ExcludedPath { .. }) {
                assert(path_info_fits(u, fp) && exclusion_fits(self.patterns(), u, fp, true));
            } else {
                assert(path_info_fits(u, fp) && exclusion_fits(self.patterns(), u, fp, false));
            }
        }
        res
    }
}

/// The candidate holds a `\`, or no pattern matches it.
pub open spec fn has_backslash_or_no_match(patterns: Seq<Seq<char>>, c: Seq<char>) -> bool {
    c.contains('\\') || !any_glob_matches(patterns, c)
}

} // verus!
