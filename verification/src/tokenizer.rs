//! Splitting one raw input line into word tokens.
//!
//! A scan runs left to right over the characters. Single and double quotes
//! are structural: they toggle a grouping flag and never reach the output.
//! Space and tab outside any quote group end the current word; all other
//! characters, and whitespace under a quote flag, are kept verbatim. Empty
//! words are never emitted. An unterminated quote is not an error: its flag
//! simply stays set for the rest of the line.

use vstd::prelude::*;

verus! {

/// Relies on alloc's String::push: appends exactly the given character
/// to the end of the string.
pub assume_specification[ String::push ](s: &mut String, ch: char)
    ensures
        final(s)@ == old(s)@.push(ch),
;

/// The scanner's full state after some prefix of the line: the two quote
/// flags, the word being accumulated, and the words already emitted.
pub struct ScanState {
    pub in_single: bool,
    pub in_double: bool,
    pub cur: Seq<char>,
    pub toks: Seq<Seq<char>>,
}

/// Word separators outside quotes: space and tab.
pub open spec fn is_blank(c: char) -> bool {
    c == ' ' || c == '\t'
}

/// One scanner step: how a single character transforms the state.
pub open spec fn scan_step(st: ScanState, c: char) -> ScanState {
    if c == '\'' && !st.in_double {
        ScanState { in_single: !st.in_single, in_double: st.in_double, cur: st.cur, toks: st.toks }
    } else if c == '"' && !st.in_single {
        ScanState { in_single: st.in_single, in_double: !st.in_double, cur: st.cur, toks: st.toks }
    } else if is_blank(c) && !st.in_single && !st.in_double {
        if st.cur.len() > 0 {
            ScanState {
                in_single: st.in_single,
                in_double: st.in_double,
                cur: Seq::empty(),
                toks: st.toks.push(st.cur),
            }
        } else {
            st
        }
    } else {
        ScanState {
            in_single: st.in_single,
            in_double: st.in_double,
            cur: st.cur.push(c),
            toks: st.toks,
        }
    }
}

/// The scanner's state after the first `n` characters of `s`.
pub open spec fn scan_prefix(s: Seq<char>, n: int) -> ScanState
    decreases n,
{
    if n <= 0 {
        ScanState { in_single: false, in_double: false, cur: Seq::empty(), toks: Seq::empty() }
    } else {
        scan_step(scan_prefix(s, n - 1), s[n - 1])
    }
}

/// Law: the two quote flags are mutually exclusive throughout the scan. A
/// quote character can set one flag only while the other is clear, so no
/// prefix of any line drives the scanner into both groups at once.
pub proof fn lemma_quote_flags_exclusive(s: Seq<char>, n: int)
    ensures
        !(scan_prefix(s, n).in_single && scan_prefix(s, n).in_double),
    decreases n,
{
    if n > 0 {
        lemma_quote_flags_exclusive(s, n - 1);
    }
}

/// The tokens of a whole line: run the scanner over every character, then
/// emit the accumulated word, if any, as the final token.
pub open spec fn spec_tokenize(s: Seq<char>) -> Seq<Seq<char>> {
    let st = scan_prefix(s, s.len() as int);
    if st.cur.len() > 0 {
        st.toks.push(st.cur)
    } else {
        st.toks
    }
}

/// Splits a line into word tokens under the quoting rules above.
pub fn tokenize(input: &str) -> (tokens: Vec<String>)
    ensures
        tokens.deep_view() == spec_tokenize(input@),
{
    let n = input.unicode_len();
    let mut tokens: Vec<String> = Vec::new();
    let mut current: String = String::new();
    let mut in_single = false;
    let mut in_double = false;
    let mut i: usize = 0;
    while i < n
        invariant
            n == input@.len(),
            i <= n,
            in_single == scan_prefix(input@, i as int).in_single,
            in_double == scan_prefix(input@, i as int).in_double,
            current@ == scan_prefix(input@, i as int).cur,
            tokens.deep_view() == scan_prefix(input@, i as int).toks,
        decreases n - i,
    {
        let c = input.get_char(i);
        if c == '\'' && !in_double {
            in_single = !in_single;
        } else if c == '"' && !in_single {
            in_double = !in_double;
        } else if (c == ' ' || c == '\t') && !in_single && !in_double {
            if !current.as_str().is_empty() {
                let ghost old_toks = tokens.deep_view();
                let ghost word = current@;
                tokens.push(current);
                current = String::new();
                assert(tokens.deep_view() =~= old_toks.push(word));
            }
        } else {
            current.push(c);
        }
        i = i + 1;
    }
    if !current.as_str().is_empty() {
        let ghost old_toks = tokens.deep_view();
        let ghost word = current@;
        tokens.push(current);
        assert(tokens.deep_view() =~= old_toks.push(word));
    }
    tokens
}

/// Whitespace stripped from the ends of a raw line before tokenizing:
/// the blanks the tokenizer separates on, plus the line terminators that
/// a line reader leaves behind.
pub open spec fn is_line_ws(c: char) -> bool {
    c == ' ' || c == '\t' || c == '\n' || c == '\r'
}

/// `s` without its leading whitespace.
pub open spec fn drop_leading_ws(s: Seq<char>) -> Seq<char>
    decreases s.len(),
{
    if s.len() > 0 && is_line_ws(s[0]) {
        drop_leading_ws(s.drop_first())
    } else {
        s
    }
}

/// `s` without its trailing whitespace.
pub open spec fn drop_trailing_ws(s: Seq<char>) -> Seq<char>
    decreases s.len(),
{
    if s.len() > 0 && is_line_ws(s[s.len() - 1]) {
        drop_trailing_ws(s.drop_last())
    } else {
        s
    }
}

/// `s` without leading and trailing whitespace.
pub open spec fn spec_trim(s: Seq<char>) -> Seq<char> {
    drop_trailing_ws(drop_leading_ws(s))
}

proof fn lemma_drop_leading_ws(s: Seq<char>, i: int)
    requires
        0 <= i <= s.len(),
        forall|j: int| 0 <= j < i ==> is_line_ws(s[j]),
        i == s.len() || !is_line_ws(s[i]),
    ensures
        drop_leading_ws(s) == s.subrange(i, s.len() as int),
    decreases i,
{
    if i == 0 {
        assert(s.subrange(0, s.len() as int) =~= s);
    } else {
        lemma_drop_leading_ws(s.drop_first(), i - 1);
        assert(s.drop_first().subrange(i - 1, s.drop_first().len() as int) =~= s.subrange(
            i,
            s.len() as int,
        ));
    }
}

proof fn lemma_drop_trailing_ws(s: Seq<char>, e: int)
    requires
        0 <= e <= s.len(),
        forall|j: int| e <= j < s.len() ==> is_line_ws(s[j]),
        e == 0 || !is_line_ws(s[e - 1]),
    ensures
        drop_trailing_ws(s) == s.subrange(0, e),
    decreases s.len(),
{
    if e == s.len() {
        assert(s.subrange(0, e) =~= s);
    } else {
        lemma_drop_trailing_ws(s.drop_last(), e);
        assert(s.drop_last().subrange(0, e) =~= s.subrange(0, e));
    }
}

fn is_line_ws_exec(c: char) -> (r: bool)
    ensures
        r == is_line_ws(c),
{
    c == ' ' || c == '\t' || c == '\n' || c == '\r'
}

/// Strips leading and trailing whitespace from a raw line.
pub fn trim(input: &str) -> (r: &str)
    ensures
        r@ == spec_trim(input@),
{
    let n = input.unicode_len();
    let mut start: usize = 0;
    while start < n && is_line_ws_exec(input.get_char(start))
        invariant
            n == input@.len(),
            start <= n,
            forall|j: int| 0 <= j < start ==> is_line_ws(input@[j]),
        decreases n - start,
    {
        start = start + 1;
    }
    let mut end: usize = n;
    while end > start && is_line_ws_exec(input.get_char(end - 1))
        invariant
            n == input@.len(),
            start <= end <= n,
            forall|j: int| end <= j < n ==> is_line_ws(input@[j]),
        decreases end,
    {
        end = end - 1;
    }
    let r = input.substring_char(start, end);
    proof {
        lemma_drop_leading_ws(input@, start as int);
        let t = input@.subrange(start as int, n as int);
        lemma_drop_trailing_ws(t, end - start);
        assert(t.subrange(0, end - start) =~= input@.subrange(start as int, end as int));
    }
    r
}

} // verus!
