//! Postprocessing of provider output into insertable text.

use crate::protocol::AutocompleteRequest;
use crate::text::{
    ascii_lower, byte_len, char_utf8_width, chars_of, contains, contains_seq, is_blank,
    is_blank_chars, join_line_range, join_lines, lemma_trim_start_blank, lemma_utf8_len_concat,
    lines, lines_scan, slice_from, slice_range, split_lines, starts_with, string_from_chars,
    strip_cr, to_ascii_lower, trim, trim_start, trim_start_index, trimmed, utf8_len, views_of,
};
use vstd::prelude::*;
use vstd::string::*;

verus! {

/// Why postprocessing produced no insertable text.
#[derive(Debug, Clone, PartialEq, Eq)]
pub enum PostprocessError {
    Empty,
    Rejected { reason: String },
}

/// The model of a `PostprocessError`.
pub enum PostprocessFault {
    Empty,
    Rejected(Seq<char>),
}

impl View for PostprocessError {
    type V = PostprocessFault;

    open spec fn view(&self) -> PostprocessFault {
        match self {
            PostprocessError::Empty => PostprocessFault::Empty,
            PostprocessError::Rejected { reason } => PostprocessFault::Rejected(reason@),
        }
    }
}

/// The model of a postprocessing result.
pub open spec fn outcome_view(r: Result<String, PostprocessError>) -> Result<
    Seq<char>,
    PostprocessFault,
> {
    match r {
        Ok(s) => Ok(s@),
        Err(e) => Err(e@),
    }
}

/// The text a postprocessing error displays.
pub open spec fn fault_text(f: PostprocessFault) -> Seq<char> {
    match f {
        PostprocessFault::Empty => "completion was empty after postprocessing"@,
        PostprocessFault::Rejected(reason) => "completion rejected: "@ + reason,
    }
}

impl PostprocessError {
    pub fn rejected(reason: &str) -> (res: Self)
        ensures
            res@ == PostprocessFault::Rejected(reason@),
    {
        PostprocessError::Rejected { reason: String::from_str(reason) }
    }

    /// The text this error displays.
    pub fn message(&self) -> (res: String)
        ensures
            res@ == fault_text(self@),
    {
        match self {
            PostprocessError::Empty => String::from_str("completion was empty after postprocessing"),
            PostprocessError::Rejected { reason } => {
                let mut m = String::from_str("completion rejected: ");
                m.append(reason.as_str());
                m
            },
        }
    }
}

/// What a postprocessor may read besides the text.
pub struct PostprocessContext<'a> {
    pub request: &'a AutocompleteRequest,
}

/// A stage of completion postprocessing.
pub trait Postprocessor {
    fn process(&self, context: &PostprocessContext<'_>, insert_text: String) -> Result<
        String,
        PostprocessError,
    >;
}

// ---------------------------------------------------------------------------
// Newline normalization

/// `s.replace("\r\n", "\n")`.
pub open spec fn crlf_to_lf(s: Seq<char>) -> Seq<char>
    decreases s.len(),
{
    if s.len() == 0 {
        s
    } else if s.len() >= 2 && s[0] == '\r' && s[1] == '\n' {
        seq!['\n'] + crlf_to_lf(s.skip(2))
    } else {
        seq![s[0]] + crlf_to_lf(s.drop_first())
    }
}

/// `s.replace('\r', "\n")`.
pub open spec fn cr_to_lf(s: Seq<char>) -> Seq<char> {
    s.map_values(|c: char| if c == '\r' { '\n' } else { c })
}

/// `s.replace("\r\n", "\n").replace('\r', "\n")`.
pub open spec fn normalize_newlines(s: Seq<char>) -> Seq<char> {
    cr_to_lf(crlf_to_lf(s))
}

pub fn normalize_newline_chars(s: &[char]) -> (res: Vec<char>)
    ensures
        res@ == normalize_newlines(s@),
{
    let mut res: Vec<char> = Vec::new();
    let n = s.len();
    let mut i: usize = 0;
    assert(s@.skip(0) =~= s@);
    while i < n
        invariant
            n == s@.len(),
            i <= n,
            normalize_newlines(s@) == res@ + normalize_newlines(s@.skip(i as int)),
        decreases n - i,
    {
        let ghost rest = s@.skip(i as int);
        if i + 1 < n && s[i] == '\r' && s[i + 1] == '\n' {
            assert(rest.skip(2) =~= s@.skip(i + 2));
            assert(crlf_to_lf(rest) == seq!['\n'] + crlf_to_lf(rest.skip(2)));
            assert(cr_to_lf(seq!['\n'] + crlf_to_lf(rest.skip(2))) =~= seq!['\n'] + cr_to_lf(
                crlf_to_lf(rest.skip(2)),
            ));
            res.push('\n');
            i = i + 2;
        } else {
            let c = s[i];
            assert(rest.drop_first() =~= s@.skip(i + 1));
            assert(crlf_to_lf(rest) == seq![c] + crlf_to_lf(rest.drop_first()));
            let d = if c == '\r' {
                '\n'
            } else {
                c
            };
            assert(cr_to_lf(seq![c] + crlf_to_lf(rest.drop_first())) =~= seq![d] + cr_to_lf(
                crlf_to_lf(rest.drop_first()),
            ));
            res.push(d);
            i = i + 1;
        }
    }
    assert(s@.skip(n as int) =~= Seq::<char>::empty());
    assert(res@ + normalize_newlines(Seq::<char>::empty()) =~= res@);
    res
}

#[derive(Debug, Clone, Copy, Default)]
pub struct NormalizeNewlines;

impl Postprocessor for NormalizeNewlines {
    fn process(&self, _context: &PostprocessContext<'_>, insert_text: String) -> (res: Result<
        String,
        PostprocessError,
    >)
        ensures
            outcome_view(res) == Ok::<Seq<char>, PostprocessFault>(
                normalize_newlines(insert_text@),
            ),
    {
        let chars = chars_of(insert_text.as_str());
        let out = normalize_newline_chars(chars.as_slice());
        Ok(string_from_chars(out.as_slice()))
    }
}

// ---------------------------------------------------------------------------
// Markdown fences

/// The text is wrapped in a fenced block: after trimming it has at least two
/// lines, and the first and last start (after leading white space) with
/// three backticks. The result is then the lines between them, joined.
pub open spec fn fenced(s: Seq<char>) -> bool {
    let ls = lines(trim(s));
    &&& ls.len() >= 2
    &&& "```"@.is_prefix_of(trim_start(ls[0]))
    &&& "```"@.is_prefix_of(trim_start(ls.last()))
}

pub open spec fn strip_markdown_fences(s: Seq<char>) -> Seq<char> {
    if fenced(s) {
        let ls = lines(trim(s));
        join_lines(ls.subrange(1, ls.len() - 1))
    } else {
        s
    }
}

proof fn lemma_scan_without_newline(s: Seq<char>, t: Seq<char>)
    requires
        !t.contains('\n'),
    ensures
        lines_scan(s + t) == (lines_scan(s).0, lines_scan(s).1 + t),
    decreases t.len(),
{
    if t.len() == 0 {
        assert(s + t =~= s);
        assert(lines_scan(s).1 + t =~= lines_scan(s).1);
    } else {
        let u = t.drop_last();
        assert(!u.contains('\n')) by {
            if u.contains('\n') {
                let k = choose|k: int| 0 <= k < u.len() && u[k] == '\n';
                assert(t[k] == '\n');
            }
        }
        lemma_scan_without_newline(s, u);
        assert((s + t).drop_last() =~= s + u);
        assert((s + t).last() == t.last());
        assert(t.last() != '\n') by {
            if t.last() == '\n' {
                assert(t.contains('\n')) by {
                    assert(t[t.len() - 1] == '\n');
                }
            }
        }
        assert((lines_scan(s).1 + u).push(t.last()) =~= lines_scan(s).1 + t);
    }
}

/// A single line wrapped in a markdown fence (an opening line that starts
/// with three backticks, possibly naming a language, and a closing line of
/// three backticks) comes back exactly: indentation and all, nothing else.
pub proof fn law_fenced_line_is_unwrapped(open: Seq<char>, l: Seq<char>)
    requires
        "```"@.is_prefix_of(open),
        !open.contains('\n'),
        !l.contains('\n'),
        l.len() == 0 || l.last() != '\r',
    ensures
        strip_markdown_fences(open + seq!['\n'] + l + seq!['\n'] + "```"@) == l,
{
    reveal_strlit("```");
    let f = "```"@;
    let s = open + seq!['\n'] + l + seq!['\n'] + f;
    assert(f.len() == 3 && f[0] == '`' && f[1] == '`' && f[2] == '`');
    assert(open.subrange(0, 3) == f);
    assert(open.subrange(0, 3)[0] == open[0]);
    assert(open[0] == '`');
    assert(s[0] == '`');
    assert(s.last() == '`');
    assert(trim_start(s) == s);
    assert(crate::text::trim_end(s) == s);
    assert(trim(s) == s);
    assert(!f.contains('\n')) by {
        if f.contains('\n') {
            let k = choose|k: int| 0 <= k < f.len() && f[k] == '\n';
        }
    }
    let e = Seq::<char>::empty();
    lemma_scan_without_newline(e, open);
    assert(e + open =~= open);
    assert(lines_scan(e) == (Seq::<Seq<char>>::empty(), Seq::<char>::empty()));
    assert(Seq::<char>::empty() + open =~= open);
    let so = strip_cr(open);
    let a = open + seq!['\n'];
    assert(a.drop_last() =~= open);
    assert(lines_scan(a) == (seq![so], Seq::<char>::empty()));
    lemma_scan_without_newline(a, l);
    assert(Seq::<char>::empty() + l =~= l);
    let b = a + l + seq!['\n'];
    assert(b.drop_last() =~= a + l);
    assert(strip_cr(l) == l);
    assert(seq![so].push(l) =~= seq![so, l]);
    assert(lines_scan(b) == (seq![so, l], Seq::<char>::empty()));
    lemma_scan_without_newline(b, f);
    assert(b + f =~= s);
    let ls = seq![so, l, f];
    assert(seq![so, l].push(f) =~= ls);
    assert(lines(s) == ls);
    assert(so[0] == '`');
    assert(trim_start(so) == so);
    assert(f.subrange(0, 3) =~= f);
    assert(so.subrange(0, 3) =~= open.subrange(0, 3));
    assert(trim_start(f) == f);
    assert(fenced(s));
    assert(ls.subrange(1, 2) =~= seq![l]);
}

/// The lines are plain: none holds a line break or ends with `\r`.
pub open spec fn plain_lines(ls: Seq<Seq<char>>) -> bool {
    forall|i: int|
        0 <= i < ls.len() ==> !(#[trigger] ls[i]).contains('\n') && (ls[i].len() == 0
            || ls[i].last() != '\r')
}

proof fn lemma_scan_joined(a: Seq<char>, ls: Seq<Seq<char>>)
    requires
        ls.len() >= 1,
        plain_lines(ls),
        lines_scan(a).1.len() == 0,
    ensures
        lines_scan(a + join_lines(ls)) == (lines_scan(a).0 + ls.drop_last(), ls.last()),
    decreases ls.len(),
{
    if ls.len() == 1 {
        assert(join_lines(ls) == ls[0]);
        lemma_scan_without_newline(a, ls[0]);
        assert(lines_scan(a).0 + ls.drop_last() =~= lines_scan(a).0);
        assert(lines_scan(a).1 + ls[0] =~= ls[0]);
    } else {
        let init = ls.drop_last();
        assert(plain_lines(init)) by {
            assert forall|i: int| 0 <= i < init.len() implies !(#[trigger] init[i]).contains('\n')
                && (init[i].len() == 0 || init[i].last() != '\r') by {
                assert(init[i] == ls[i]);
            }
        }
        lemma_scan_joined(a, init);
        let b = a + join_lines(init);
        let c = b + seq!['\n'];
        assert(c.drop_last() =~= b);
        assert(strip_cr(init.last()) == init.last()) by {
            assert(init.last() == ls[ls.len() - 2]);
        }
        assert(lines_scan(c) == ((lines_scan(a).0 + init.drop_last()).push(init.last()), Seq::<
            char,
        >::empty()));
        assert((lines_scan(a).0 + init.drop_last()).push(init.last()) =~= lines_scan(a).0 + init);
        assert(!ls.last().contains('\n')) by {
            assert(ls.last() == ls[ls.len() - 1]);
        }
        lemma_scan_without_newline(c, ls.last());
        assert(a + join_lines(ls) =~= c + ls.last());
        assert(Seq::<char>::empty() + ls.last() =~= ls.last());
    }
}

/// Lines wrapped in a markdown fence (an opening line that starts with
/// three backticks, possibly naming a language, and a closing line of three
/// backticks) come back exactly, joined with `\n`: every line, in order,
/// indentation and all.
pub proof fn law_fenced_lines_are_unwrapped(open: Seq<char>, ls: Seq<Seq<char>>)
    requires
        "```"@.is_prefix_of(open),
        !open.contains('\n'),
        ls.len() >= 1,
        plain_lines(ls),
    ensures
        strip_markdown_fences(open + seq!['\n'] + join_lines(ls) + seq!['\n'] + "```"@)
            == join_lines(ls),
{
    reveal_strlit("```");
    let f = "```"@;
    let inner = join_lines(ls);
    let s = open + seq!['\n'] + inner + seq!['\n'] + f;
    assert(f.len() == 3 && f[0] == '`' && f[1] == '`' && f[2] == '`');
    assert(open.subrange(0, 3) == f);
    assert(open.subrange(0, 3)[0] == open[0]);
    assert(s[0] == '`');
    assert(s.last() == '`');
    assert(trim_start(s) == s);
    assert(crate::text::trim_end(s) == s);
    assert(!f.contains('\n')) by {
        if f.contains('\n') {
            let k = choose|k: int| 0 <= k < f.len() && f[k] == '\n';
        }
    }
    let e = Seq::<char>::empty();
    lemma_scan_without_newline(e, open);
    assert(e + open =~= open);
    assert(Seq::<char>::empty() + open =~= open);
    let so = strip_cr(open);
    let a = open + seq!['\n'];
    assert(a.drop_last() =~= open);
    assert(lines_scan(a) == (seq![so], Seq::<char>::empty()));
    lemma_scan_joined(a, ls);
    let b = a + inner + seq!['\n'];
    assert(b.drop_last() =~= a + inner);
    assert(strip_cr(ls.last()) == ls.last()) by {
        assert(ls.last() == ls[ls.len() - 1]);
    }
    let done = (seq![so] + ls.drop_last()).push(ls.last());
    assert(done =~= seq![so] + ls);
    assert(lines_scan(b) == (done, Seq::<char>::empty()));
    lemma_scan_without_newline(b, f);
    assert(b + f =~= s);
    assert(Seq::<char>::empty() + f =~= f);
    let lns = done.push(f);
    assert(lines(s) == lns);
    assert(lns.len() == ls.len() + 2);
    assert(lns[0] == so);
    assert(so[0] == '`');
    assert(trim_start(so) == so);
    assert(so.subrange(0, 3) =~= open.subrange(0, 3));
    assert(lns.last() == f);
    assert(trim_start(f) == f);
    assert(f.subrange(0, 3) =~= f);
    assert(fenced(s));
    assert(lns.subrange(1, lns.len() - 1) =~= ls);
}

fn line_opens_fence(line: &Vec<char>) -> (b: bool)
    ensures
        b == "```"@.is_prefix_of(trim_start(line@)),
{
    let k = trim_start_index(line.as_slice());
    let rest = slice_from(line.as_slice(), k);
    let fence = chars_of("```");
    starts_with(rest.as_slice(), fence.as_slice())
}

#[derive(Debug, Clone, Copy, Default)]
pub struct StripMarkdownFences;

impl Postprocessor for StripMarkdownFences {
    fn process(&self, _context: &PostprocessContext<'_>, insert_text: String) -> (res: Result<
        String,
        PostprocessError,
    >)
        ensures
            outcome_view(res) == Ok::<Seq<char>, PostprocessFault>(
                strip_markdown_fences(insert_text@),
            ),
    {
        let chars = chars_of(insert_text.as_str());
        let t = trimmed(chars.as_slice());
        let ls = split_lines(t.as_slice());
        let n = ls.len();
        if n >= 2 {
            assert(views_of(ls@)[0] == ls@[0]@);
            assert(views_of(ls@).last() == ls@[n - 1]@);
            if line_opens_fence(&ls[0]) && line_opens_fence(&ls[n - 1]) {
                let inner = join_line_range(&ls, 1, n - 1);
                return Ok(string_from_chars(inner.as_slice()));
            }
        }
        Ok(insert_text)
    }
}

// ---------------------------------------------------------------------------
// Prose rejection

/// The lowercased text opens like prose addressed to the user.
pub open spec fn opens_with_prose(lower: Seq<char>) -> bool {
    ||| "here is"@.is_prefix_of(lower)
    ||| "here's"@.is_prefix_of(lower)
    ||| "sure"@.is_prefix_of(lower)
    ||| "certainly"@.is_prefix_of(lower)
    ||| "explanation:"@.is_prefix_of(lower)
    ||| "the completion"@.is_prefix_of(lower)
    ||| "i would"@.is_prefix_of(lower)
    ||| "you can"@.is_prefix_of(lower)
}

/// The lowercased text holds an explanation section or a markdown fence.
pub open spec fn holds_explanation(lower: Seq<char>) -> bool {
    ||| contains_seq(lower, "\nexplanation:"@)
    ||| contains_seq(lower, "\nreasoning:"@)
    ||| contains_seq(lower, "\nnote:"@)
    ||| contains_seq(lower, "```"@)
}

pub open spec fn reject_explanations(s: Seq<char>) -> Result<Seq<char>, PostprocessFault> {
    let lower = ascii_lower(trim_start(s));
    if is_blank(s) {
        Err(PostprocessFault::Empty)
    } else if opens_with_prose(lower) {
        Err(PostprocessFault::Rejected("provider returned prose instead of insertable text"@))
    } else if holds_explanation(lower) {
        Err(
            PostprocessFault::Rejected(
                "provider returned explanation or markdown outside the completion"@,
            ),
        )
    } else {
        Ok(s)
    }
}

/// Non-blank text that opens, after leading white space and in any ASCII
/// case, with "here is", "here's", "sure", "certainly", "explanation:",
/// "the completion", "i would" or "you can" is rejected as prose; blank text
/// is rejected as empty; text that opens otherwise and holds no explanation
/// section or fence comes back unchanged.
pub proof fn law_prose_is_rejected(s: Seq<char>)
    ensures
        is_blank(s) ==> reject_explanations(s) == Err::<Seq<char>, PostprocessFault>(
            PostprocessFault::Empty,
        ),
        ({
            let lower = ascii_lower(trim_start(s));
            &&& !is_blank(s)
            &&& {
                ||| "here is"@.is_prefix_of(lower)
                ||| "here's"@.is_prefix_of(lower)
                ||| "sure"@.is_prefix_of(lower)
                ||| "certainly"@.is_prefix_of(lower)
                ||| "explanation:"@.is_prefix_of(lower)
                ||| "the completion"@.is_prefix_of(lower)
                ||| "i would"@.is_prefix_of(lower)
                ||| "you can"@.is_prefix_of(lower)
            }
        }) ==> reject_explanations(s) == Err::<Seq<char>, PostprocessFault>(
            PostprocessFault::Rejected("provider returned prose instead of insertable text"@),
        ),
        reject_explanations(s) is Ok ==> reject_explanations(s) == Ok::<
            Seq<char>,
            PostprocessFault,
        >(s) && !is_blank(s),
{
}

fn opens_with(lower: &Vec<char>, p: &str) -> (b: bool)
    ensures
        b == p@.is_prefix_of(lower@),
{
    let pc = chars_of(p);
    starts_with(lower.as_slice(), pc.as_slice())
}

fn holds(lower: &Vec<char>, p: &str) -> (b: bool)
    ensures
        b == contains_seq(lower@, p@),
{
    let pc = chars_of(p);
    contains(lower.as_slice(), pc.as_slice())
}

#[derive(Debug, Clone, Copy, Default)]
pub struct RejectExplanations;

impl Postprocessor for RejectExplanations {
    fn process(&self, _context: &PostprocessContext<'_>, insert_text: String) -> (res: Result<
        String,
        PostprocessError,
    >)
        ensures
            outcome_view(res) == reject_explanations(insert_text@),
    {
        let chars = chars_of(insert_text.as_str());
        let k = trim_start_index(chars.as_slice());
        let rest = slice_from(chars.as_slice(), k);
        proof {
            lemma_trim_start_blank(chars@);
            lemma_trim_start_blank(rest@);
        }
        if is_blank_chars(rest.as_slice()) {
            return Err(PostprocessError::Empty);
        }
        let lower = to_ascii_lower(rest.as_slice());
        if opens_with(&lower, "here is") || opens_with(&lower, "here's") || opens_with(
            &lower,
            "sure",
        ) || opens_with(&lower, "certainly") || opens_with(&lower, "explanation:") || opens_with(
            &lower,
            "the completion",
        ) || opens_with(&lower, "i would") || opens_with(&lower, "you can") {
            return Err(
                PostprocessError::rejected("provider returned prose instead of insertable text"),
            );
        }
        if holds(&lower, "\nexplanation:") || holds(&lower, "\nreasoning:") || holds(
            &lower,
            "\nnote:",
        ) || holds(&lower, "```") {
            return Err(
                PostprocessError::rejected(
                    "provider returned explanation or markdown outside the completion",
                ),
            );
        }
        Ok(insert_text)
    }
}

// ---------------------------------------------------------------------------
// Maximum length

/// The first `max` characters.
pub open spec fn enforce_max_chars(max: nat, s: Seq<char>) -> Seq<char> {
    if s.len() <= max {
        s
    } else {
        s.take(max as int)
    }
}

#[derive(Debug, Clone, Copy, Default)]
pub struct EnforceMaxChars;

impl Postprocessor for EnforceMaxChars {
    fn process(&self, context: &PostprocessContext<'_>, insert_text: String) -> (res: Result<
        String,
        PostprocessError,
    >)
        ensures
            outcome_view(res) == Ok::<Seq<char>, PostprocessFault>(
                enforce_max_chars(context.request.options.max_chars as nat, insert_text@),
            ),
    {
        let max_chars = context.request.options.max_chars as usize;
        let chars = chars_of(insert_text.as_str());
        if chars.len() <= max_chars {
            return Ok(insert_text);
        }
        let kept = slice_range(chars.as_slice(), 0, max_chars);
        Ok(string_from_chars(kept.as_slice()))
    }
}

} // verus!

verus! {

// ---------------------------------------------------------------------------
// Repeated prefix

/// The last `k` characters of `p`.
pub open spec fn tail(p: Seq<char>, k: int) -> Seq<char> {
    p.subrange(p.len() - k, p.len() as int)
}

/// The completion `c` starts by repeating the last `k` characters of the
/// prefix `p`, and that repetition counts: it is at least 3 bytes long, or it
/// is the whole prefix.
pub open spec fn repeats_tail(p: Seq<char>, c: Seq<char>, k: int) -> bool {
    &&& 1 <= k <= p.len()
    &&& k <= c.len()
    &&& utf8_len(tail(p, k)) >= 3 || k == p.len()
    &&& c.take(k) == tail(p, k)
}

/// `k` is the shortest repetition that counts.
pub open spec fn shortest_repeat(p: Seq<char>, c: Seq<char>, k: int) -> bool {
    &&& repeats_tail(p, c, k)
    &&& forall|j: int| 1 <= j < k ==> !repeats_tail(p, c, j)
}

/// Number of characters of the completion that repeat the end of the prefix
/// and are dropped: the shortest repetition that counts, or none.
pub open spec fn repeated_chars(p: Seq<char>, c: Seq<char>) -> int {
    if exists|k: int| repeats_tail(p, c, k) {
        choose|k: int| shortest_repeat(p, c, k)
    } else {
        0
    }
}

pub proof fn lemma_repeated_chars(p: Seq<char>, c: Seq<char>, k: int)
    requires
        shortest_repeat(p, c, k),
    ensures
        repeated_chars(p, c) == k,
{
    let k2 = choose|k: int| shortest_repeat(p, c, k);
    assert(shortest_repeat(p, c, k2));
    if k2 < k {
        assert(!repeats_tail(p, c, k2));
    }
    if k < k2 {
        assert(!repeats_tail(p, c, k));
    }
}

pub proof fn lemma_no_repeat(p: Seq<char>, c: Seq<char>)
    requires
        forall|k: int| !repeats_tail(p, c, k),
    ensures
        repeated_chars(p, c) == 0,
{
}

fn utf8_width(c: char) -> (w: usize)
    ensures
        w == char_utf8_width(c),
{
    let u = c as u32;
    if u < 0x80 {
        1
    } else if u < 0x800 {
        2
    } else if u < 0x10000 {
        3
    } else {
        4
    }
}

proof fn lemma_tail_step(p: Seq<char>, k: int)
    requires
        1 <= k <= p.len(),
    ensures
        utf8_len(tail(p, k)) == char_utf8_width(p[p.len() - k]) + utf8_len(tail(p, k - 1)),
        utf8_len(tail(p, k)) <= utf8_len(p),
{
    assert(tail(p, k).drop_first() =~= tail(p, k - 1));
    assert(tail(p, k)[0] == p[p.len() - k]);
    lemma_utf8_len_concat(p.subrange(0, p.len() - k), tail(p, k));
    assert(p.subrange(0, p.len() - k) + tail(p, k) =~= p);
}

/// The shortest repetition that counts, in characters, and its byte length.
pub fn repeated_prefix_len(p: &[char], c: &[char], p_bytes: usize) -> (res: (usize, usize))
    requires
        p_bytes == utf8_len(p@),
    ensures
        res.0 == repeated_chars(p@, c@),
        res.0 == 0 || repeats_tail(p@, c@, res.0 as int),
        res.1 == utf8_len(tail(p@, res.0 as int)),
{
    let n = p.len();
    let m = c.len();
    let lim = if n < m {
        n
    } else {
        m
    };
    let mut k: usize = 0;
    let mut bytes: usize = 0;
    assert(tail(p@, 0) =~= Seq::<char>::empty());
    while k < lim
        invariant
            n == p@.len(),
            m == c@.len(),
            lim <= n,
            lim <= m,
            k <= lim,
            p_bytes == utf8_len(p@),
            bytes == utf8_len(tail(p@, k as int)),
            forall|j: int| 1 <= j <= k ==> !repeats_tail(p@, c@, j),
        decreases lim - k,
    {
        let len = k + 1;
        proof {
            lemma_tail_step(p@, len as int);
        }
        bytes = bytes + utf8_width(p[n - len]);
        if bytes >= 3 || len == n {
            // Does c start with the last `len` characters of p?
            let mut i: usize = 0;
            let mut same = true;
            while i < len
                invariant
                    n == p@.len(),
                    m == c@.len(),
                    1 <= len <= n,
                    len <= m,
                    i <= len,
                    same ==> forall|j: int| 0 <= j < i ==> c@[j] == p@[n - len + j],
                    !same ==> c@.take(len as int) != tail(p@, len as int),
                decreases len - i,
            {
                if same && c[i] != p[n - len + i] {
                    assert(c@.take(len as int)[i as int] != tail(p@, len as int)[i as int]);
                    same = false;
                }
                i = i + 1;
            }
            if same {
                assert(c@.take(len as int) =~= tail(p@, len as int));
                proof {
                    lemma_repeated_chars(p@, c@, len as int);
                }
                return (len, bytes);
            }
        }
        k = len;
    }
    assert forall|j: int| !repeats_tail(p@, c@, j) by {
        if 1 <= j && j <= n && j <= m {
            assert(j <= k);
        }
    }
    proof {
        lemma_no_repeat(p@, c@);
    }
    (0, 0)
}

/// Byte length of the end of `prefix` that `candidate` repeats at its start:
/// the shortest such repetition of at least 3 bytes, or of the whole prefix;
/// 0 when there is none.
pub fn longest_prefix_suffix_overlap(prefix: &str, candidate: &str) -> (n: usize)
    ensures
        n == utf8_len(tail(prefix@, repeated_chars(prefix@, candidate@))),
{
    let p = chars_of(prefix);
    let c = chars_of(candidate);
    let p_bytes = byte_len(prefix);
    let (_, bytes) = repeated_prefix_len(p.as_slice(), c.as_slice(), p_bytes);
    bytes
}

/// The completion without the characters that repeat the prefix.
pub open spec fn remove_repeated_prefix(prefix: Seq<char>, s: Seq<char>) -> Seq<char> {
    s.skip(repeated_chars(prefix, s))
}

#[derive(Debug, Clone, Copy, Default)]
pub struct RemoveRepeatedPrefix;

impl Postprocessor for RemoveRepeatedPrefix {
    fn process(&self, context: &PostprocessContext<'_>, insert_text: String) -> (res: Result<
        String,
        PostprocessError,
    >)
        ensures
            outcome_view(res) == Ok::<Seq<char>, PostprocessFault>(
                remove_repeated_prefix(context.request.context.prefix@, insert_text@),
            ),
    {
        let prefix = context.request.context.prefix.as_str();
        let p = chars_of(prefix);
        let c = chars_of(insert_text.as_str());
        let p_bytes = byte_len(prefix);
        let (k, _) = repeated_prefix_len(p.as_slice(), c.as_slice(), p_bytes);
        if k == 0 {
            assert(insert_text@.skip(0) =~= insert_text@);
            Ok(insert_text)
        } else {
            let rest = slice_from(c.as_slice(), k);
            Ok(string_from_chars(rest.as_slice()))
        }
    }
}

} // verus!

verus! {

// ---------------------------------------------------------------------------
// Pipeline

/// The built-in postprocessors a pipeline is made of.
#[derive(Debug, Clone, Copy, PartialEq, Eq, Structural)]
pub enum PostprocessStep {
    NormalizeNewlines,
    StripMarkdownFences,
    RejectExplanations,
    RemoveRepeatedPrefix,
    EnforceMaxChars,
}

/// What one step makes of the text.
pub open spec fn step_result(step: PostprocessStep, request: AutocompleteRequest, s: Seq<char>) -> Result<
    Seq<char>,
    PostprocessFault,
> {
    match step {
        PostprocessStep::NormalizeNewlines => Ok(normalize_newlines(s)),
        PostprocessStep::StripMarkdownFences => Ok(strip_markdown_fences(s)),
        PostprocessStep::RejectExplanations => reject_explanations(s),
        PostprocessStep::RemoveRepeatedPrefix => Ok(
            remove_repeated_prefix(request.context.prefix@, s),
        ),
        PostprocessStep::EnforceMaxChars => Ok(
            enforce_max_chars(request.options.max_chars as nat, s),
        ),
    }
}

/// The steps applied in order; the first failure stops the run.
pub open spec fn run_steps(
    steps: Seq<PostprocessStep>,
    request: AutocompleteRequest,
    s: Seq<char>,
) -> Result<Seq<char>, PostprocessFault>
    decreases steps.len(),
{
    if steps.len() == 0 {
        Ok(s)
    } else {
        match run_steps(steps.drop_last(), request, s) {
            Ok(t) => step_result(steps.last(), request, t),
            Err(e) => Err(e),
        }
    }
}

/// A pipeline run: the steps, then a text that is only white space is no
/// suggestion.
pub open spec fn pipeline_result(
    steps: Seq<PostprocessStep>,
    request: AutocompleteRequest,
    s: Seq<char>,
) -> Result<Seq<char>, PostprocessFault> {
    match run_steps(steps, request, s) {
        Ok(t) => if is_blank(t) {
            Err(PostprocessFault::Empty)
        } else {
            Ok(t)
        },
        Err(e) => Err(e),
    }
}

/// The standard order: newlines, fences, prose, repeated prefix, length.
pub open spec fn default_steps() -> Seq<PostprocessStep> {
    seq![
        PostprocessStep::NormalizeNewlines,
        PostprocessStep::StripMarkdownFences,
        PostprocessStep::RejectExplanations,
        PostprocessStep::RemoveRepeatedPrefix,
        PostprocessStep::EnforceMaxChars,
    ]
}

impl PostprocessStep {
    pub fn apply(&self, context: &PostprocessContext<'_>, insert_text: String) -> (res: Result<
        String,
        PostprocessError,
    >)
        ensures
            outcome_view(res) == step_result(*self, *context.request, insert_text@),
    {
        match self {
            PostprocessStep::NormalizeNewlines => NormalizeNewlines.process(context, insert_text),
            PostprocessStep::StripMarkdownFences => StripMarkdownFences.process(
                context,
                insert_text,
            ),
            PostprocessStep::RejectExplanations => RejectExplanations.process(
                context,
                insert_text,
            ),
            PostprocessStep::RemoveRepeatedPrefix => RemoveRepeatedPrefix.process(
                context,
                insert_text,
            ),
            PostprocessStep::EnforceMaxChars => EnforceMaxChars.process(context, insert_text),
        }
    }
}

/// An ordered list of postprocessing steps.
#[derive(Debug, Clone)]
pub struct PostprocessorPipeline {
    processors: Vec<PostprocessStep>,
}

impl PostprocessorPipeline {
    pub closed spec fn steps(&self) -> Seq<PostprocessStep> {
        self.processors@
    }

    pub fn new(processors: Vec<PostprocessStep>) -> (res: Self)
        ensures
            res.steps() == processors@,
    {
        PostprocessorPipeline { processors }
    }

    pub fn empty() -> (res: Self)
        ensures
            res.steps() == Seq::<PostprocessStep>::empty(),
    {
        PostprocessorPipeline { processors: Vec::new() }
    }

    /// Runs every step in order, stopping at the first failure; a result that
    /// is only white space is `Empty`.
    pub fn process(&self, request: &AutocompleteRequest, insert_text: String) -> (res: Result<
        String,
        PostprocessError,
    >)
        ensures
            outcome_view(res) == pipeline_result(self.steps(), *request, insert_text@),
    {
        let context = PostprocessContext { request };
        let mut text = insert_text;
        let n = self.processors.len();
        for i in 0..n
            invariant
                n == self.processors@.len(),
                context.request == request,
                run_steps(self.processors@.take(i as int), *request, insert_text@) == Ok::<
                    Seq<char>,
                    PostprocessFault,
                >(text@),
        {
            let step = self.processors[i];
            assert(self.processors@.take(i + 1).drop_last() =~= self.processors@.take(i as int));
            match step.apply(&context, text) {
                Ok(t) => {
                    text = t;
                },
                Err(e) => {
                    proof {
                        lemma_run_steps_stops(
                            self.processors@,
                            *request,
                            insert_text@,
                            i + 1,
                            e@,
                        );
                    }
                    return Err(e);
                },
            }
        }
        assert(self.processors@.take(n as int) =~= self.processors@);
        let chars = chars_of(text.as_str());
        if is_blank_chars(chars.as_slice()) {
            return Err(PostprocessError::Empty);
        }
        Ok(text)
    }
}

proof fn lemma_run_steps_stops(
    steps: Seq<PostprocessStep>,
    request: AutocompleteRequest,
    s: Seq<char>,
    i: int,
    e: PostprocessFault,
)
    requires
        0 <= i <= steps.len(),
        run_steps(steps.take(i), request, s) == Err::<Seq<char>, PostprocessFault>(e),
    ensures
        run_steps(steps, request, s) == Err::<Seq<char>, PostprocessFault>(e),
    decreases steps.len() - i,
{
    if i < steps.len() {
        assert(steps.take(i + 1).drop_last() =~= steps.take(i));
        lemma_run_steps_stops(steps, request, s, i + 1, e);
    } else {
        assert(steps.take(i) =~= steps);
    }
}

impl Default for PostprocessorPipeline {
    fn default() -> (res: Self)
        ensures
            res.steps() == default_steps(),
    {
        let mut processors: Vec<PostprocessStep> = Vec::new();
        processors.push(PostprocessStep::NormalizeNewlines);
        processors.push(PostprocessStep::StripMarkdownFences);
        processors.push(PostprocessStep::RejectExplanations);
        processors.push(PostprocessStep::RemoveRepeatedPrefix);
        processors.push(PostprocessStep::EnforceMaxChars);
        assert(processors@ =~= default_steps());
        PostprocessorPipeline { processors }
    }
}

} // verus!

verus! {

/// No carriage return in the text.
pub open spec fn free_of_cr(s: Seq<char>) -> bool {
    forall|i: int| 0 <= i < s.len() ==> s[i] != '\r'
}

pub proof fn lemma_normalized_free_of_cr(s: Seq<char>)
    ensures
        free_of_cr(normalize_newlines(s)),
{
}

proof fn lemma_trim_free_of_cr(s: Seq<char>)
    requires
        free_of_cr(s),
    ensures
        free_of_cr(trim_start(s)),
        free_of_cr(crate::text::trim_end(s)),
        free_of_cr(trim(s)),
    decreases s.len(),
{
    if s.len() > 0 {
        assert(free_of_cr(s.drop_first()));
        assert(free_of_cr(s.drop_last()));
        lemma_trim_free_of_cr(s.drop_first());
        lemma_trim_free_of_cr(s.drop_last());
        lemma_trim_end_of_free(trim_start(s));
    }
}

proof fn lemma_trim_end_of_free(s: Seq<char>)
    requires
        free_of_cr(s),
    ensures
        free_of_cr(crate::text::trim_end(s)),
    decreases s.len(),
{
    if s.len() > 0 {
        assert(free_of_cr(s.drop_last()));
        lemma_trim_end_of_free(s.drop_last());
    }
}

pub open spec fn all_free_of_cr(ls: Seq<Seq<char>>) -> bool {
    forall|i: int| 0 <= i < ls.len() ==> free_of_cr(#[trigger] ls[i])
}

proof fn lemma_lines_free_of_cr(s: Seq<char>)
    requires
        free_of_cr(s),
    ensures
        all_free_of_cr(lines_scan_done(s)),
        free_of_cr(lines_scan_cur(s)),
        all_free_of_cr(lines(s)),
    decreases s.len(),
{
    if s.len() > 0 {
        let t = s.drop_last();
        assert(free_of_cr(t));
        lemma_lines_free_of_cr(t);
        let (done, cur) = crate::text::lines_scan(t);
        if s.last() == '\n' {
            let l = crate::text::strip_cr(cur);
            assert(free_of_cr(l));
            assert forall|i: int| 0 <= i < done.push(l).len() implies free_of_cr(#[trigger] done.push(l)[i]) by {
                if i < done.len() {
                    assert(done.push(l)[i] == done[i]);
                }
            }
        } else {
            assert(free_of_cr(cur.push(s.last())));
        }
    }
    let (done, cur) = crate::text::lines_scan(s);
    if cur.len() > 0 {
        assert forall|i: int| 0 <= i < done.push(cur).len() implies free_of_cr(#[trigger] done.push(cur)[i]) by {
            if i < done.len() {
                assert(done.push(cur)[i] == done[i]);
            }
        }
    }
}

pub open spec fn lines_scan_done(s: Seq<char>) -> Seq<Seq<char>> {
    crate::text::lines_scan(s).0
}

pub open spec fn lines_scan_cur(s: Seq<char>) -> Seq<char> {
    crate::text::lines_scan(s).1
}

proof fn lemma_join_free_of_cr(ls: Seq<Seq<char>>)
    requires
        all_free_of_cr(ls),
    ensures
        free_of_cr(join_lines(ls)),
    decreases ls.len(),
{
    if ls.len() > 1 {
        let init = ls.drop_last();
        assert(all_free_of_cr(init)) by {
            assert forall|i: int| 0 <= i < init.len() implies free_of_cr(#[trigger] init[i]) by {
                assert(init[i] == ls[i]);
            }
        }
        lemma_join_free_of_cr(init);
        assert(free_of_cr(ls.last()));
        let j = join_lines(init) + seq!['\n'] + ls.last();
        assert forall|i: int| 0 <= i < j.len() implies j[i] != '\r' by {
            if i < join_lines(init).len() {
            } else if i == join_lines(init).len() {
            } else {
                assert(j[i] == ls.last()[i - join_lines(init).len() - 1]);
            }
        }
    } else if ls.len() == 1 {
        assert(free_of_cr(ls[0]));
    }
}

proof fn lemma_steps_keep_free_of_cr(step: PostprocessStep, request: AutocompleteRequest, s: Seq<char>)
    requires
        free_of_cr(s),
    ensures
        step_result(step, request, s) matches Ok(t) ==> free_of_cr(t),
{
    match step {
        PostprocessStep::NormalizeNewlines => {},
        PostprocessStep::StripMarkdownFences => {
            if fenced(s) {
                lemma_trim_free_of_cr(s);
                let ls = lines(trim(s));
                lemma_lines_free_of_cr(trim(s));
                let inner = ls.subrange(1, ls.len() - 1);
                assert forall|i: int| 0 <= i < inner.len() implies free_of_cr(#[trigger] inner[i]) by {
                    assert(inner[i] == ls[i + 1]);
                }
                lemma_join_free_of_cr(inner);
            }
        },
        PostprocessStep::RejectExplanations => {},
        PostprocessStep::RemoveRepeatedPrefix => {
            let k = repeated_chars(request.context.prefix@, s);
            let t = s.skip(k);
            if 0 <= k <= s.len() {
                assert forall|i: int| 0 <= i < t.len() implies t[i] != '\r' by {
                    assert(t[i] == s[i + k]);
                }
            } else {
                if exists|j: int| repeats_tail(request.context.prefix@, s, j) {
                    let j = choose|j: int| repeats_tail(request.context.prefix@, s, j);
                    assert(shortest_repeat(request.context.prefix@, s, k)) by {
                        lemma_shortest_exists(request.context.prefix@, s, j);
                    }
                }
            }
        },
        PostprocessStep::EnforceMaxChars => {},
    }
}

proof fn lemma_shortest_exists(p: Seq<char>, c: Seq<char>, j: int)
    requires
        repeats_tail(p, c, j),
    ensures
        exists|k: int| shortest_repeat(p, c, k),
    decreases j,
{
    if forall|i: int| 1 <= i < j ==> !repeats_tail(p, c, i) {
        assert(shortest_repeat(p, c, j));
    } else {
        let i = choose|i: int| 1 <= i < j && repeats_tail(p, c, i);
        lemma_shortest_exists(p, c, i);
    }
}

proof fn lemma_run_steps_free_of_cr(steps: Seq<PostprocessStep>, request: AutocompleteRequest, s: Seq<char>)
    requires
        steps.len() > 0,
        steps[0] == PostprocessStep::NormalizeNewlines,
    ensures
        run_steps(steps, request, s) matches Ok(t) ==> free_of_cr(t),
    decreases steps.len(),
{
    if steps.len() == 1 {
        assert(steps.drop_last() =~= Seq::<PostprocessStep>::empty());
        lemma_normalized_free_of_cr(s);
    } else {
        let init = steps.drop_last();
        lemma_run_steps_free_of_cr(init, request, s);
        if let Ok(t) = run_steps(init, request, s) {
            lemma_steps_keep_free_of_cr(steps.last(), request, t);
        }
    }
}

/// A pipeline that starts by normalizing newlines never yields a carriage
/// return, whatever the later steps are.
pub proof fn law_normalized_pipeline_has_no_cr(
    steps: Seq<PostprocessStep>,
    request: AutocompleteRequest,
    s: Seq<char>,
)
    requires
        steps.len() > 0,
        steps[0] == PostprocessStep::NormalizeNewlines,
    ensures
        pipeline_result(steps, request, s) matches Ok(t) ==> free_of_cr(t),
{
    lemma_run_steps_free_of_cr(steps, request, s);
}

} // verus!
