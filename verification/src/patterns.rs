//! Primitive text matchers the tokenizer is built from: character classes,
//! maximal runs, and literal matching at a position.
use vstd::prelude::*;
use vstd::string::StrSliceExecFns;

verus! {

/// The character classes that appear in the token patterns.
#[derive(Clone, Copy, Debug, PartialEq, Eq, Structural)]
pub enum CharClass {
    /// `0`-`9`
    Digit,
    /// A space or a tab.
    SpaceTab,
    /// Any character but a newline.
    NotNewline,
    /// Any character but a double quote.
    NotQuote,
    /// A character allowed inside a class descriptor.
    ClassChar,
    /// A character allowed inside a method name.
    NameChar,
    /// A character allowed inside a field name.
    FieldChar,
    /// A character allowed inside a template placeholder.
    MacroChar,
}

pub open spec fn is_alnum(c: char) -> bool {
    ('a' <= c && c <= 'z') || ('A' <= c && c <= 'Z') || ('0' <= c && c <= '9')
}

pub open spec fn class_pred(cls: CharClass, c: char) -> bool {
    match cls {
        CharClass::Digit => '0' <= c && c <= '9',
        CharClass::SpaceTab => c == ' ' || c == '\t',
        CharClass::NotNewline => c != '\n',
        CharClass::NotQuote => c != '"',
        CharClass::ClassChar => is_alnum(c) || c == '$' || c == '_' || c == '-' || c == '.' || c
            == '/',
        CharClass::NameChar => is_alnum(c) || c == '$' || c == '<' || c == '>',
        CharClass::FieldChar => is_alnum(c) || c == '$',
        CharClass::MacroChar => is_alnum(c) || c == '/' || c == '_',
    }
}

pub fn class_check(cls: CharClass, c: char) -> (r: bool)
    ensures
        r == class_pred(cls, c),
{
    match cls {
        CharClass::Digit => '0' <= c && c <= '9',
        CharClass::SpaceTab => c == ' ' || c == '\t',
        CharClass::NotNewline => c != '\n',
        CharClass::NotQuote => c != '"',
        CharClass::ClassChar => ('a' <= c && c <= 'z') || ('A' <= c && c <= 'Z') || ('0' <= c && c
            <= '9') || c == '$' || c == '_' || c == '-' || c == '.' || c == '/',
        CharClass::NameChar => ('a' <= c && c <= 'z') || ('A' <= c && c <= 'Z') || ('0' <= c && c
            <= '9') || c == '$' || c == '<' || c == '>',
        CharClass::FieldChar => ('a' <= c && c <= 'z') || ('A' <= c && c <= 'Z') || ('0' <= c && c
            <= '9') || c == '$',
        CharClass::MacroChar => ('a' <= c && c <= 'z') || ('A' <= c && c <= 'Z') || ('0' <= c && c
            <= '9') || c == '/' || c == '_',
    }
}

/// The length of the maximal run of characters of class `cls` starting at `i`.
pub open spec fn run_len(s: Seq<char>, i: int, cls: CharClass) -> int
    decreases s.len() - i when i >= 0
{
    if 0 <= i < s.len() && class_pred(cls, s[i]) {
        1 + run_len(s, i + 1, cls)
    } else {
        0
    }
}

pub proof fn lemma_run_len_bounds(s: Seq<char>, i: int, cls: CharClass)
    requires
        0 <= i,
    ensures
        0 <= run_len(s, i, cls),
        i + run_len(s, i, cls) <= s.len() || run_len(s, i, cls) == 0,
    decreases s.len() - i,
{
    if 0 <= i < s.len() && class_pred(cls, s[i]) {
        lemma_run_len_bounds(s, i + 1, cls);
    }
}

/// The character just past a maximal run is not of the run's class.
pub proof fn lemma_run_len_stop(s: Seq<char>, i: int, cls: CharClass)
    requires
        0 <= i <= s.len(),
    ensures
        i + run_len(s, i, cls) <= s.len(),
        i + run_len(s, i, cls) < s.len() ==> !class_pred(cls, s[i + run_len(s, i, cls)]),
        forall|k: int| i <= k < i + run_len(s, i, cls) ==> class_pred(cls, s[k]),
    decreases s.len() - i,
{
    if 0 <= i < s.len() && class_pred(cls, s[i]) {
        lemma_run_len_stop(s, i + 1, cls);
    }
}

/// Scan the maximal run of class `cls` starting at `i`.
pub fn run_scan(s: &str, sl: usize, i: usize, cls: CharClass) -> (n: usize)
    requires
        sl == s@.len(),
        i <= sl,
    ensures
        n as int == run_len(s@, i as int, cls),
        i + n <= sl,
{
    let mut j: usize = i;
    while j < sl && class_check(cls, s.get_char(j))
        invariant
            i <= j <= sl,
            sl == s@.len(),
            run_len(s@, i as int, cls) == (j - i) + run_len(s@, j as int, cls),
        decreases sl - j,
    {
        j = j + 1;
    }
    j - i
}

/// The word `w` occurs in `s` at position `i`.
pub open spec fn lit_at(s: Seq<char>, i: int, w: Seq<char>) -> bool {
    0 <= i && i + w.len() <= s.len() && s.subrange(i, i + w.len()) == w
}

/// Check whether the word `w` occurs in `s` at position `i`.
pub fn lit_here(s: &str, sl: usize, i: usize, w: &str) -> (r: bool)
    requires
        sl == s@.len(),
        i <= sl,
    ensures
        r == lit_at(s@, i as int, w@),
{
    let n = w.unicode_len();
    if n > sl - i {
        return false;
    }
    let mut j: usize = 0;
    while j < n
        invariant
            sl == s@.len(),
            i + n <= sl,
            n == w@.len(),
            j <= n,
            forall|k: int| 0 <= k < j ==> s@[i + k] == w@[k],
        decreases n - j,
    {
        if s.get_char(i + j) != w.get_char(j) {
            assert(s@.subrange(i as int, i + n as int)[j as int] != w@[j as int]);
            return false;
        }
        j = j + 1;
    }
    assert(s@.subrange(i as int, i + n as int) =~= w@);
    true
}

} // verus!
