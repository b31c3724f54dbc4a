//! Character-level building blocks of the annotation grammar.
//!
//! Annotation text is handled as a sequence of `char`s. Everything here is
//! stated over `Seq<char>`; the executable functions work on `&[char]` and
//! hand out sub-slices of their input.

use vstd::prelude::*;
use vstd::slice::slice_subrange;

verus! {

/// `String::push` appends one character to the end of the string.
pub assume_specification[ String::push ](s: &mut String, c: char)
    ensures
        final(s)@ == old(s)@.push(c),
;

/// The characters that `trim` removes from both ends of a piece of text.
pub open spec fn is_space(c: char) -> bool {
    c == ' ' || c == '\t' || c == '\n' || c == '\r'
}

/// The characters an identifier is made of.
pub open spec fn is_word_char(c: char) -> bool {
    ('a' <= c && c <= 'z') || ('A' <= c && c <= 'Z') || ('0' <= c && c <= '9') || c == '_'
}

/// `s` without its leading white space.
pub open spec fn trim_start(s: Seq<char>) -> Seq<char>
    decreases s.len(),
{
    if s.len() > 0 && is_space(s[0]) {
        trim_start(s.drop_first())
    } else {
        s
    }
}

/// `s` without its trailing white space.
pub open spec fn trim_end(s: Seq<char>) -> Seq<char>
    decreases s.len(),
{
    if s.len() > 0 && is_space(s.last()) {
        trim_end(s.drop_last())
    } else {
        s
    }
}

/// `s` without white space at either end.
pub open spec fn trim(s: Seq<char>) -> Seq<char> {
    trim_end(trim_start(s))
}

/// The number of identifier characters `s` starts with.
pub open spec fn word_len(s: Seq<char>) -> nat
    decreases s.len(),
{
    if s.len() > 0 && is_word_char(s[0]) {
        1 + word_len(s.drop_first())
    } else {
        0
    }
}

/// What is between the quotes, where `s` is one double-quoted literal.
pub open spec fn unquote(s: Seq<char>) -> Option<Seq<char>> {
    if s.len() >= 2 && s[0] == '"' && s.last() == '"' {
        Some(s.subrange(1, s.len() - 1))
    } else {
        None
    }
}

/// The value a piece of text stands for: a quoted literal stands for its
/// content, anything else for itself.
pub open spec fn literal_value(s: Seq<char>) -> Seq<char> {
    match unquote(s) {
        Some(inner) => inner,
        None => s,
    }
}

/// `s` with a `/` put in front unless it starts with one.
pub open spec fn with_leading_slash(s: Seq<char>) -> Seq<char> {
    if s.len() > 0 && s[0] == '/' {
        s
    } else {
        seq!['/'] + s
    }
}

/// Where a scan of annotation text stands: how many parentheses are open,
/// whether it is inside a quoted literal, and whether the last character of
/// that literal was a backslash.
pub struct ScanState {
    pub depth: nat,
    pub quoted: bool,
    pub escaped: bool,
}

pub open spec fn scan_start() -> ScanState {
    ScanState { depth: 0, quoted: false, escaped: false }
}

/// The scan state after one more character.
pub open spec fn scan_step(st: ScanState, c: char) -> ScanState {
    if st.quoted {
        if st.escaped {
            ScanState { escaped: false, ..st }
        } else if c == '\\' {
            ScanState { escaped: true, ..st }
        } else if c == '"' {
            ScanState { quoted: false, ..st }
        } else {
            st
        }
    } else if c == '"' {
        ScanState { quoted: true, ..st }
    } else if c == '(' {
        ScanState { depth: st.depth + 1, ..st }
    } else if c == ')' && st.depth > 0 {
        ScanState { depth: (st.depth - 1) as nat, ..st }
    } else {
        st
    }
}

/// The scan state in front of position `i` of `s`.
pub open spec fn scan_state(s: Seq<char>, i: int) -> ScanState
    decreases i,
{
    if i <= 0 {
        scan_start()
    } else {
        scan_step(scan_state(s, i - 1), s[i - 1])
    }
}

/// Position `i` of `s` holds `sep`, outside every parenthesis and literal.
pub open spec fn is_separator(s: Seq<char>, sep: char, i: int) -> bool {
    &&& 0 <= i < s.len()
    &&& s[i] == sep
    &&& scan_state(s, i).depth == 0
    &&& !scan_state(s, i).quoted
}

/// The pieces of `s` from position `i` on, the first of which began at
/// `start`, cut at each top-level `sep`.
pub open spec fn pieces(s: Seq<char>, sep: char, start: int, i: int) -> Seq<Seq<char>>
    decreases s.len() - i,
{
    if i >= s.len() {
        seq![s.subrange(start, s.len() as int)]
    } else if is_separator(s, sep, i) {
        seq![s.subrange(start, i)] + pieces(s, sep, i + 1, i + 1)
    } else {
        pieces(s, sep, start, i + 1)
    }
}

/// `s` cut at every `sep` that stands outside parentheses and quoted
/// literals. There is always at least one piece.
pub open spec fn split_top_level(s: Seq<char>, sep: char) -> Seq<Seq<char>> {
    pieces(s, sep, 0, 0)
}

/// The pieces of `s` from position `i` on, the first of which began at
/// `start`, cut at each `sep`.
pub open spec fn plain_pieces(s: Seq<char>, sep: char, start: int, i: int) -> Seq<Seq<char>>
    decreases s.len() - i,
{
    if i >= s.len() {
        seq![s.subrange(start, s.len() as int)]
    } else if s[i] == sep {
        seq![s.subrange(start, i)] + plain_pieces(s, sep, i + 1, i + 1)
    } else {
        plain_pieces(s, sep, start, i + 1)
    }
}

/// `s` cut at every `sep`. There is always at least one piece.
pub open spec fn split(s: Seq<char>, sep: char) -> Seq<Seq<char>> {
    plain_pieces(s, sep, 0, 0)
}

/// The contents of a sequence of slices.
pub open spec fn slice_views(v: Seq<&[char]>) -> Seq<Seq<char>> {
    v.map_values(|p: &[char]| p@)
}

/// The grammatical shape of one argument of an annotation.
pub enum ArgumentForm {
    /// Nothing but white space.
    Empty,
    /// A quoted literal, with its content.
    Literal(Seq<char>),
    /// `name ( body )`.
    Call { name: Seq<char>, body: Seq<char> },
    /// `name (` with no closing parenthesis at the end.
    Unclosed { name: Seq<char> },
    /// `name = value`.
    Assign { name: Seq<char>, value: Seq<char> },
    /// A lone identifier.
    Word(Seq<char>),
    /// Anything else.
    Other,
}

/// The shape of the argument `raw`.
pub open spec fn classify(raw: Seq<char>) -> ArgumentForm {
    let s = trim(raw);
    let n = word_len(s) as int;
    let rest = trim_start(s.subrange(n, s.len() as int));
    if s.len() == 0 {
        ArgumentForm::Empty
    } else if unquote(s) is Some {
        ArgumentForm::Literal(unquote(s)->0)
    } else if n == 0 {
        ArgumentForm::Other
    } else if rest.len() == 0 {
        ArgumentForm::Word(s.subrange(0, n))
    } else if rest[0] == '(' {
        if rest.len() >= 2 && rest.last() == ')' {
            ArgumentForm::Call { name: s.subrange(0, n), body: rest.subrange(1, rest.len() - 1) }
        } else {
            ArgumentForm::Unclosed { name: s.subrange(0, n) }
        }
    } else if rest[0] == '=' {
        ArgumentForm::Assign { name: s.subrange(0, n), value: trim(rest.subrange(1, rest.len() as int)) }
    } else {
        ArgumentForm::Other
    }
}

/// An argument of an annotation, as slices of the annotation text.
#[derive(Clone, Copy, Debug, PartialEq, Eq)]
pub enum Argument<'a> {
    Empty,
    Literal(&'a [char]),
    Call { name: &'a [char], body: &'a [char] },
    Unclosed { name: &'a [char] },
    Assign { name: &'a [char], value: &'a [char] },
    Word(&'a [char]),
    Other,
}

impl<'a> DeepView for Argument<'a> {
    type V = ArgumentForm;

    open spec fn deep_view(&self) -> ArgumentForm {
        self.view()
    }
}

impl<'a> View for Argument<'a> {
    type V = ArgumentForm;

    open spec fn view(&self) -> ArgumentForm {
        match *self {
            Argument::Empty => ArgumentForm::Empty,
            Argument::Literal(v) => ArgumentForm::Literal(v@),
            Argument::Call { name, body } => ArgumentForm::Call { name: name@, body: body@ },
            Argument::Unclosed { name } => ArgumentForm::Unclosed { name: name@ },
            Argument::Assign { name, value } => ArgumentForm::Assign { name: name@, value: value@ },
            Argument::Word(w) => ArgumentForm::Word(w@),
            Argument::Other => ArgumentForm::Other,
        }
    }
}

/// The characters of `s`, in order.
pub fn chars_of(s: &str) -> (v: Vec<char>)
    ensures
        v@ == s@,
{
    let mut v: Vec<char> = Vec::new();
    for c in it: s.chars()
        invariant
            v@ == it.seq().take(it.index() as int),
            it.seq() == s@,
    {
        v.push(c);
    }
    v
}

/// A string made of the characters of `cs`.
pub fn string_of(cs: &[char]) -> (s: String)
    ensures
        s@ == cs@,
{
    let mut s = String::new();
    let mut i: usize = 0;
    while i < cs.len()
        invariant
            i <= cs.len(),
            s@ == cs@.take(i as int),
        decreases cs.len() - i,
    {
        s.push(cs[i]);
        i += 1;
        assert(cs@.take(i as int) =~= cs@.take(i as int - 1).push(cs@[i as int - 1]));
    }
    assert(cs@.take(cs.len() as int) =~= cs@);
    s
}

/// Whether two pieces of text hold the same characters.
pub fn same_text(a: &[char], b: &[char]) -> (eq: bool)
    ensures
        eq == (a@ == b@),
{
    if a.len() != b.len() {
        return false;
    }
    let mut i: usize = 0;
    while i < a.len()
        invariant
            i <= a.len(),
            a.len() == b.len(),
            forall|j: int| 0 <= j < i ==> a@[j] == b@[j],
        decreases a.len() - i,
    {
        if a[i] != b[i] {
            return false;
        }
        i += 1;
    }
    assert(a@ =~= b@);
    true
}

/// Whether `cs` spells the keyword `word`.
pub fn is_keyword(cs: &[char], word: &str) -> (eq: bool)
    ensures
        eq == (cs@ == word@),
{
    let w = chars_of(word);
    same_text(cs, w.as_slice())
}

pub fn is_space_char(c: char) -> (b: bool)
    ensures
        b == is_space(c),
{
    c == ' ' || c == '\t' || c == '\n' || c == '\r'
}

pub fn is_word_character(c: char) -> (b: bool)
    ensures
        b == is_word_char(c),
{
    ('a' <= c && c <= 'z') || ('A' <= c && c <= 'Z') || ('0' <= c && c <= '9') || c == '_'
}

/// Dropping `k` leading white-space characters does not change what
/// `trim_start` gives.
pub proof fn lemma_trim_start_skips(s: Seq<char>, k: int)
    requires
        0 <= k <= s.len(),
        forall|j: int| 0 <= j < k ==> is_space(s[j]),
    ensures
        trim_start(s) == trim_start(s.subrange(k, s.len() as int)),
    decreases k,
{
    if k == 0 {
        assert(s.subrange(0, s.len() as int) =~= s);
    } else {
        let t = s.drop_first();
        lemma_trim_start_skips(t, k - 1);
        assert(t.subrange(k - 1, t.len() as int) =~= s.subrange(k, s.len() as int));
    }
}

/// Dropping trailing white space down to length `k` does not change what
/// `trim_end` gives.
pub proof fn lemma_trim_end_skips(s: Seq<char>, k: int)
    requires
        0 <= k <= s.len(),
        forall|j: int| k <= j < s.len() ==> is_space(s[j]),
    ensures
        trim_end(s) == trim_end(s.subrange(0, k)),
    decreases s.len() - k,
{
    if k == s.len() {
        assert(s.subrange(0, k) =~= s);
    } else {
        let t = s.drop_last();
        lemma_trim_end_skips(t, k);
        assert(t.subrange(0, k) =~= s.subrange(0, k));
    }
}

/// `word_len` counts exactly the leading run of identifier characters.
pub proof fn lemma_word_len_is(s: Seq<char>, k: int)
    requires
        0 <= k <= s.len(),
        forall|j: int| 0 <= j < k ==> is_word_char(s[j]),
        k < s.len() ==> !is_word_char(s[k]),
    ensures
        word_len(s) == k,
    decreases k,
{
    if k > 0 {
        lemma_word_len_is(s.drop_first(), k - 1);
    }
}

/// The text of `s` without its leading white space.
pub fn trimmed_start<'a>(s: &'a [char]) -> (r: &'a [char])
    ensures
        r@ == trim_start(s@),
{
    let mut lo: usize = 0;
    while lo < s.len() && is_space_char(s[lo])
        invariant
            lo <= s.len(),
            forall|j: int| 0 <= j < lo ==> is_space(s@[j]),
        decreases s.len() - lo,
    {
        lo += 1;
    }
    proof {
        lemma_trim_start_skips(s@, lo as int);
    }
    slice_subrange(s, lo, s.len())
}

/// The text of `s` without white space at either end.
pub fn trimmed<'a>(s: &'a [char]) -> (r: &'a [char])
    ensures
        r@ == trim(s@),
{
    let t = trimmed_start(s);
    let mut hi: usize = t.len();
    while hi > 0 && is_space_char(t[hi - 1])
        invariant
            hi <= t.len(),
            forall|j: int| hi <= j < t.len() ==> is_space(t@[j]),
        decreases hi,
    {
        hi -= 1;
    }
    proof {
        lemma_trim_end_skips(t@, hi as int);
    }
    slice_subrange(t, 0, hi)
}

/// The content of `s` where it is a quoted literal.
pub fn unquoted<'a>(s: &'a [char]) -> (r: Option<&'a [char]>)
    ensures
        match r {
            Some(inner) => unquote(s@) == Some(inner@),
            None => unquote(s@) is None,
        },
{
    let n = s.len();
    if n >= 2 && s[0] == '"' && s[n - 1] == '"' {
        Some(slice_subrange(s, 1, n - 1))
    } else {
        None
    }
}

/// The value that `s` stands for.
pub fn value_of<'a>(s: &'a [char]) -> (r: &'a [char])
    ensures
        r@ == literal_value(s@),
{
    match unquoted(s) {
        Some(inner) => inner,
        None => s,
    }
}

/// `s` as a string that starts with `/`.
pub fn slash_prefixed(s: &[char]) -> (r: String)
    ensures
        r@ == with_leading_slash(s@),
{
    if s.len() > 0 && s[0] == '/' {
        string_of(s)
    } else {
        let mut out = String::new();
        out.push('/');
        let mut i: usize = 0;
        while i < s.len()
            invariant
                i <= s.len(),
                out@ == seq!['/'] + s@.take(i as int),
            decreases s.len() - i,
        {
            out.push(s[i]);
            i += 1;
            assert(s@.take(i as int) =~= s@.take(i as int - 1).push(s@[i as int - 1]));
            assert(out@ =~= seq!['/'] + s@.take(i as int));
        }
        assert(s@.take(s.len() as int) =~= s@);
        out
    }
}

/// Cuts `s` at every top-level `sep`.
pub fn split_at_top_level<'a>(s: &'a [char], sep: char) -> (out: Vec<&'a [char]>)
    ensures
        slice_views(out@) == split_top_level(s@, sep),
        out.len() >= 1,
{
    let mut out: Vec<&'a [char]> = Vec::new();
    let mut start: usize = 0;
    let mut i: usize = 0;
    let mut depth: usize = 0;
    let mut quoted = false;
    let mut escaped = false;
    while i < s.len()
        invariant
            start <= i <= s.len(),
            depth <= i,
            scan_state(s@, i as int) == (ScanState { depth: depth as nat, quoted, escaped }),
            slice_views(out@) + pieces(s@, sep, start as int, i as int) == split_top_level(
                s@,
                sep,
            ),
        decreases s.len() - i,
    {
        let c = s[i];
        let ghost before = out@;
        if c == sep && depth == 0 && !quoted {
            let piece = slice_subrange(s, start, i);
            out.push(piece);
            start = i + 1;
            assert(slice_views(out@) =~= slice_views(before).push(piece@));
            assert(slice_views(out@) + pieces(s@, sep, i + 1, i + 1) =~= slice_views(before) + (
                seq![piece@] + pieces(s@, sep, i + 1, i + 1)));
        }
        if quoted {
            if escaped {
                escaped = false;
            } else if c == '\\' {
                escaped = true;
            } else if c == '"' {
                quoted = false;
            }
        } else if c == '"' {
            quoted = true;
        } else if c == '(' {
            depth += 1;
        } else if c == ')' && depth > 0 {
            depth -= 1;
        }
        i += 1;
    }
    let ghost before = out@;
    let last = slice_subrange(s, start, s.len());
    out.push(last);
    assert(slice_views(out@) =~= slice_views(before).push(last@));
    assert(slice_views(out@) =~= slice_views(before) + pieces(s@, sep, start as int, i as int));
    out
}

/// Cuts `s` at every `sep`.
pub fn split_at<'a>(s: &'a [char], sep: char) -> (out: Vec<&'a [char]>)
    ensures
        slice_views(out@) == split(s@, sep),
        out.len() >= 1,
{
    let mut out: Vec<&'a [char]> = Vec::new();
    let mut start: usize = 0;
    let mut i: usize = 0;
    while i < s.len()
        invariant
            start <= i <= s.len(),
            slice_views(out@) + plain_pieces(s@, sep, start as int, i as int) == split(s@, sep),
        decreases s.len() - i,
    {
        let ghost before = out@;
        if s[i] == sep {
            let piece = slice_subrange(s, start, i);
            out.push(piece);
            start = i + 1;
            assert(slice_views(out@) =~= slice_views(before).push(piece@));
            assert(slice_views(out@) + plain_pieces(s@, sep, i + 1, i + 1) =~= slice_views(before)
                + (seq![piece@] + plain_pieces(s@, sep, i + 1, i + 1)));
        }
        i += 1;
    }
    let ghost before = out@;
    let last = slice_subrange(s, start, s.len());
    out.push(last);
    assert(slice_views(out@) =~= slice_views(before).push(last@));
    assert(slice_views(out@) =~= slice_views(before) + plain_pieces(s@, sep, start as int, i as int));
    out
}

/// The shape of the argument `raw`, with its parts as slices of `raw`.
pub fn classify_argument<'a>(raw: &'a [char]) -> (arg: Argument<'a>)
    ensures
        arg@ == classify(raw@),
{
    let s = trimmed(raw);
    if s.len() == 0 {
        return Argument::Empty;
    }
    match unquoted(s) {
        Some(inner) => {
            return Argument::Literal(inner);
        },
        None => {},
    }
    let mut n: usize = 0;
    while n < s.len() && is_word_character(s[n])
        invariant
            n <= s.len(),
            forall|j: int| 0 <= j < n ==> is_word_char(s@[j]),
        decreases s.len() - n,
    {
        n += 1;
    }
    proof {
        lemma_word_len_is(s@, n as int);
    }
    if n == 0 {
        return Argument::Other;
    }
    let name = slice_subrange(s, 0, n);
    let rest = trimmed_start(slice_subrange(s, n, s.len()));
    if rest.len() == 0 {
        Argument::Word(name)
    } else if rest[0] == '(' {
        if rest.len() >= 2 && rest[rest.len() - 1] == ')' {
            Argument::Call { name, body: slice_subrange(rest, 1, rest.len() - 1) }
        } else {
            Argument::Unclosed { name }
        }
    } else if rest[0] == '=' {
        Argument::Assign { name, value: trimmed(slice_subrange(rest, 1, rest.len())) }
    } else {
        Argument::Other
    }
}

} // verus!
