//! A parsed program: the ordered statements one parse produced.

use vstd::prelude::*;

use crate::stmt::Stmt;
use crate::stmt::StmtView;
use crate::stmt::stmts_view;

verus! {

/// A whole program, as the ordered sequence of its statements.
pub struct Program {
    pub statements: Vec<Stmt>,
}

impl View for Program {
    type V = Seq<StmtView>;

    open spec fn view(&self) -> Seq<StmtView> {
        stmts_view(self.statements@)
    }
}

impl Program {
    pub fn new(program: Vec<Stmt>) -> (p: Program)
        ensures
            p@ == stmts_view(program@),
    {
        Program { statements: program }
    }
}

} // verus!
