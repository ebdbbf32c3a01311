//! The validation engine: fans each token and each assembled line out to the
//! header and method validators in order and concatenates their reports.
use vstd::prelude::*;

use crate::diagnostics::{diag_views, DiagModel, Diagnostic};
use crate::header::{
    header_end_diags, header_init, header_line_step, header_token_step, header_wf, HeaderModel,
    HeaderValidator,
};
use crate::lexer::{token_views, Token, TokenModel};
use crate::method::{
    method_init, method_line_step, method_token_step, method_wf, MethodVModel, MethodValidator,
};

verus! {

/// The fixed set of validators, run in registration order.
pub struct DirectivesValidator {
    pub header_validator: HeaderValidator,
    pub method_validator: MethodValidator,
}

/// Mathematical image of a `DirectivesValidator`.
pub ghost struct DirModel {
    pub header: HeaderModel,
    pub method: MethodVModel,
}

impl View for DirectivesValidator {
    type V = DirModel;

    open spec fn view(&self) -> DirModel {
        DirModel { header: self.header_validator@, method: self.method_validator@ }
    }
}

pub open spec fn dir_wf(st: DirModel) -> bool {
    header_wf(st.header) && method_wf(st.method)
}

pub open spec fn dir_init() -> DirModel {
    DirModel { header: header_init(), method: method_init() }
}

/// One token reaches both validators; only the method validator can report.
pub open spec fn dir_token_step(st: DirModel, t: TokenModel) -> (DirModel, Seq<DiagModel>)
    recommends
        dir_wf(st),
{
    let h = header_token_step(st.header, t);
    let m = method_token_step(st.method, t);
    (DirModel { header: h, method: m.0 }, m.1)
}

/// One assembled line reaches both validators; their reports concatenate in
/// registration order.
pub open spec fn dir_line_step(st: DirModel, line: Seq<TokenModel>) -> (DirModel, Seq<DiagModel>)
    recommends
        dir_wf(st),
        line.len() > 0,
{
    let h = header_line_step(st.header, line);
    let m = method_line_step(st.method, line);
    (DirModel { header: h.0, method: m.0 }, h.1 + m.1)
}

/// End-of-stream reports; only the header validator has any.
pub open spec fn dir_end_diags(st: DirModel) -> Seq<DiagModel>
    recommends
        dir_wf(st),
{
    header_end_diags(st.header)
}

impl Default for DirectivesValidator {
    fn default() -> (r: Self)
        ensures
            r@ == dir_init(),
            dir_wf(r@),
    {
        Self {
            header_validator: HeaderValidator::default(),
            method_validator: MethodValidator::default(),
        }
    }
}

impl DirectivesValidator {
    pub fn validate_token(&mut self, token: &Token) -> (d: Vec<Diagnostic>)
        requires
            dir_wf(old(self)@),
        ensures
            dir_wf(final(self)@),
            final(self)@ == dir_token_step(old(self)@, token@).0,
            diag_views(d@) == dir_token_step(old(self)@, token@).1,
    {
        let mut diags = self.header_validator.validate_token(token);
        let mut md = self.method_validator.validate_token(token);
        diags.append(&mut md);
        proof {
            assert(diag_views(diags@) =~= dir_token_step(old(self)@, token@).1);
        }
        diags
    }

    pub fn validate_line(&mut self, line: &[Token]) -> (d: Vec<Diagnostic>)
        requires
            dir_wf(old(self)@),
            line@.len() > 0,
        ensures
            dir_wf(final(self)@),
            final(self)@ == dir_line_step(old(self)@, token_views(line@)).0,
            diag_views(d@) == dir_line_step(old(self)@, token_views(line@)).1,
    {
        let mut diags = self.header_validator.validate_line(line);
        let mut md = self.method_validator.validate_line(line);
        diags.append(&mut md);
        proof {
            assert(diag_views(diags@) =~= dir_line_step(old(self)@, token_views(line@)).1);
        }
        diags
    }

    pub fn validate_end(&self) -> (d: Vec<Diagnostic>)
        requires
            dir_wf(self@),
        ensures
            diag_views(d@) == dir_end_diags(self@),
    {
        let mut diags = self.header_validator.validate_end();
        let mut md = self.method_validator.validate_end();
        diags.append(&mut md);
        proof {
            assert(diag_views(diags@) =~= dir_end_diags(self@));
        }
        diags
    }
}

} // verus!
