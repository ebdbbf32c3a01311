//! The entry point: tokenize the document, assemble logical lines, stream
//! both through the validators, and return every diagnostic they produced.
use vstd::prelude::*;

use crate::diagnostics::{diag_views, DiagModel, Diagnostic};
use crate::directives::{
    dir_end_diags, dir_init, dir_line_step, dir_token_step, dir_wf, DirModel, DirectivesValidator,
};
use crate::helper::{trim_spec, trim_space_tokens};
use crate::lexer::{lex_str, models_from, token_views, TokenModel, TokenType};

verus! {

/// The streaming state: the validators' state and the tokens of the line
/// being assembled.
pub ghost struct PipeState {
    pub dir: DirModel,
    pub cur_line: Seq<TokenModel>,
}

pub open spec fn pipe_init() -> PipeState {
    PipeState { dir: dir_init(), cur_line: Seq::empty() }
}

/// One token advances the stream: a newline closes the buffered line, which
/// is trimmed and, if anything remains, validated; any other token joins the
/// buffer. Every token also reaches the per-token callbacks, after the line
/// it closes.
pub open spec fn pipe_step(st: PipeState, t: TokenModel) -> (PipeState, Seq<DiagModel>)
    recommends
        dir_wf(st.dir),
{
    let ld = if t.token_type == TokenType::NewLine {
        let line = trim_spec(st.cur_line);
        if line.len() > 0 {
            let r = dir_line_step(st.dir, line);
            (PipeState { dir: r.0, cur_line: Seq::empty() }, r.1)
        } else {
            (PipeState { dir: st.dir, cur_line: Seq::empty() }, Seq::empty())
        }
    } else {
        (PipeState { dir: st.dir, cur_line: st.cur_line.push(t) }, Seq::empty())
    };
    let td = dir_token_step(ld.0.dir, t);
    (PipeState { dir: td.0, cur_line: ld.0.cur_line }, ld.1 + td.1)
}

/// The stream state and accumulated diagnostics after the first `n` tokens.
pub open spec fn pipe_run(ts: Seq<TokenModel>, n: int) -> (PipeState, Seq<DiagModel>)
    decreases n,
{
    if n <= 0 {
        (pipe_init(), Seq::empty())
    } else {
        let prev = pipe_run(ts, n - 1);
        let s = pipe_step(prev.0, ts[n - 1]);
        (s.0, prev.1 + s.1)
    }
}

/// The diagnostics of a whole document: stream every token, then the
/// end-of-stream reports. A trailing line without a newline never reaches
/// the line callbacks.
pub open spec fn validate_spec(s: Seq<char>) -> Seq<DiagModel> {
    let ts = models_from(s, 0);
    let run = pipe_run(ts, ts.len() as int);
    run.1 + dir_end_diags(run.0.dir)
}

/// A trimmed line is empty or starts with a non-space token, so the line
/// validators' preconditions hold; and validator well-formedness survives
/// every step of the stream.
pub proof fn lemma_pipe_run_wf(ts: Seq<TokenModel>, n: int)
    requires
        0 <= n <= ts.len(),
    ensures
        dir_wf(pipe_run(ts, n).0.dir),
    decreases n,
{
    if n > 0 {
        lemma_pipe_run_wf(ts, n - 1);
    }
}

/// Validate a whole document: its diagnostics are exactly `validate_spec` of
/// its text, and validation never fails.
pub fn validate(content: String) -> (r: Result<Vec<Diagnostic>, String>)
    requires
        content@.len() <= u32::MAX,
    ensures
        r is Ok,
        diag_views(r->Ok_0@) == validate_spec(content@),
{
    let ghost ts = models_from(content@, 0);
    let tokens = lex_str(content.as_str());
    let mut diags: Vec<Diagnostic> = Vec::new();
    let mut directives_validator = DirectivesValidator::default();
    let mut current_line: Vec<crate::lexer::Token> = Vec::new();
    let mut idx: usize = 0;
    while idx < tokens.len()
        invariant
            tokens@.len() == ts.len(),
            forall|j: int| 0 <= j < ts.len() ==> tokens@[j]@ == ts[j],
            idx <= ts.len(),
            dir_wf(directives_validator@),
            directives_validator@ == pipe_run(ts, idx as int).0.dir,
            token_views(current_line@) == pipe_run(ts, idx as int).0.cur_line,
            diag_views(diags@) == pipe_run(ts, idx as int).1,
        decreases ts.len() - idx,
    {
        let token = &tokens[idx];
        let ghost prev_run = pipe_run(ts, idx as int);
        let ghost step = pipe_step(prev_run.0, ts[idx as int]);
        if token.token_type == TokenType::NewLine {
            let line = trim_space_tokens(current_line);
            if !line.is_empty() {
                let mut ds = directives_validator.validate_line(line.as_slice());
                diags.append(&mut ds);
            }
            current_line = Vec::new();
        } else {
            current_line.push(token.clone());
            proof {
                assert(token_views(current_line@) =~= prev_run.0.cur_line.push(ts[idx as int]));
            }
        }
        let mut ds2 = directives_validator.validate_token(token);
        diags.append(&mut ds2);
        idx = idx + 1;
        proof {
            assert(token_views(Seq::<crate::lexer::Token>::empty()) =~= Seq::<
                TokenModel,
            >::empty());
            assert(diag_views(diags@) =~= pipe_run(ts, idx as int).1);
        }
    }
    let mut de = directives_validator.validate_end();
    proof {
        lemma_pipe_run_wf(ts, ts.len() as int);
    }
    diags.append(&mut de);
    proof {
        assert(diag_views(diags@) =~= validate_spec(content@));
    }
    Ok(diags)
}

} // verus!
