//! The line assembler's trimming step: leading whitespace is dropped from a
//! buffered line, and interior whitespace survives only when both flanked by
//! non-space tokens.
use vstd::prelude::*;

use crate::lexer::{token_views, Token, TokenModel, TokenType};

verus! {

impl Clone for Token {
    fn clone(&self) -> (r: Self)
        ensures
            r == *self,
    {
        Token {
            range: self.range,
            content: self.content.clone(),
            token_type: self.token_type,
        }
    }
}

/// Relies on `String::push_str`: it appends the given string slice onto the
/// end of the string.
pub assume_specification[ std::string::String::push_str ](s: &mut std::string::String, other: &str)
    ensures
        final(s)@ == old(s)@ + other@,
;

/// The view of an optional token.
pub open spec fn opt_tok_view(o: Option<Token>) -> Option<TokenModel> {
    match o {
        Some(t) => Some(t@),
        None => None,
    }
}

/// The view of an optional token line.
pub open spec fn opt_line_view(o: Option<Vec<Token>>) -> Option<Seq<TokenModel>> {
    match o {
        Some(ts) => Some(token_views(ts@)),
        None => None,
    }
}

/// Compare a string with a literal.
pub fn string_eq(a: &String, b: &str) -> (r: bool)
    ensures
        r == (a@ == b@),
{
    let bo = b.to_owned();
    *a == bo
}

/// Whether a token's text equals the given word.
pub fn token_content_is(t: &Token, w: &str) -> (r: bool)
    ensures
        r == (t@.content == w@),
{
    string_eq(&t.content, w)
}

/// Copy a borrowed line of tokens into an owned one.
pub fn clone_tokens(line: &[Token]) -> (r: Vec<Token>)
    ensures
        token_views(r@) == token_views(line@),
{
    let mut out: Vec<Token> = Vec::new();
    let mut idx: usize = 0;
    while idx < line.len()
        invariant
            idx <= line@.len(),
            out@.len() == idx,
            forall|j: int| 0 <= j < idx ==> out@[j]@ == line@[j]@,
        decreases line@.len() - idx,
    {
        out.push(line[idx].clone());
        idx = idx + 1;
    }
    proof {
        assert(token_views(out@) =~= token_views(line@));
    }
    out
}

/// The state of the trimming fold after the first `n` tokens: the kept
/// tokens, and the run of spaces awaiting a following non-space token.
pub open spec fn trim_acc(ts: Seq<TokenModel>, n: int) -> (Seq<TokenModel>, Seq<TokenModel>)
    decreases n,
{
    if n <= 0 {
        (Seq::empty(), Seq::empty())
    } else {
        let prev = trim_acc(ts, n - 1);
        let t = ts[n - 1];
        if t.token_type == TokenType::Space {
            if prev.0.len() > 0 {
                (prev.0, prev.1.push(t))
            } else {
                prev
            }
        } else {
            (prev.0 + prev.1 + seq![t], Seq::empty())
        }
    }
}

/// A token sequence with leading spaces dropped and interior space runs kept
/// only when a non-space token follows them.
pub open spec fn trim_spec(ts: Seq<TokenModel>) -> Seq<TokenModel> {
    trim_acc(ts, ts.len() as int).0
}

/// Drop leading spaces, keep interior spaces only between non-space tokens.
pub fn trim_space_tokens(tokens: Vec<Token>) -> (r: Vec<Token>)
    ensures
        token_views(r@) == trim_spec(token_views(tokens@)),
{
    let ghost gts = token_views(tokens@);
    let mut output: Vec<Token> = Vec::new();
    let mut space_buffer: Vec<Token> = Vec::new();
    let mut idx: usize = 0;
    while idx < tokens.len()
        invariant
            idx <= tokens@.len(),
            gts == token_views(tokens@),
            token_views(output@) =~= trim_acc(gts, idx as int).0,
            token_views(space_buffer@) =~= trim_acc(gts, idx as int).1,
        decreases tokens@.len() - idx,
    {
        let token = tokens[idx].clone();
        proof {
            assert(token@ == gts[idx as int]);
        }
        let ghost old_out = output@;
        let ghost old_buf = space_buffer@;
        if token.token_type == TokenType::Space {
            if !output.is_empty() {
                space_buffer.push(token);
                proof {
                    assert(token_views(space_buffer@) =~= token_views(old_buf).push(gts[idx as int]));
                }
            }
        } else {
            output.append(&mut space_buffer);
            output.push(token);
            space_buffer.clear();
            proof {
                assert(token_views(output@) =~= token_views(old_out) + token_views(old_buf)
                    + seq![gts[idx as int]]);
                assert(token_views(space_buffer@) =~= Seq::<TokenModel>::empty());
            }
        }
        idx = idx + 1;
    }
    proof {
        assert(idx as int == gts.len());
    }
    output
}

} // verus!
