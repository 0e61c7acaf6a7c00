//! `Statement` represents an SQL statement,
//! which can be later sent to a database.
use vstd::prelude::*;

use crate::proto::values_view;
use crate::value::{Value, ValueView};

verus! {

/// SQL statement, possibly with bound positional parameters.
pub struct Statement {
    pub sql: String,
    pub args: Vec<Value>,
}

pub struct StatementView {
    pub sql: Seq<char>,
    pub args: Seq<ValueView>,
}

impl View for Statement {
    type V = StatementView;

    open spec fn view(&self) -> StatementView {
        StatementView { sql: self.sql@, args: values_view(self.args@) }
    }
}

impl Statement {
    /// Creates a new simple statement without bound parameters.
    pub fn new(q: &str) -> (r: Statement)
        ensures
            r@ == (StatementView { sql: q@, args: Seq::empty() }),
    {
        let r = Statement { sql: q.to_string(), args: Vec::new() };
        assert(r@.args =~= Seq::<ValueView>::empty());
        r
    }

    /// Creates a statement with bound positional parameters.
    pub fn with_args(q: &str, params: &[Value]) -> (r: Statement)
        ensures
            r@ == (StatementView { sql: q@, args: values_view(params@) }),
    {
        let mut args: Vec<Value> = Vec::new();
        let mut i: usize = 0;
        while i < params.len()
            invariant
                i <= params@.len(),
                args@.len() == i,
                forall|k: int| 0 <= k < i ==> #[trigger] args@[k]@ == params@[k]@,
            decreases params@.len() - i,
        {
            args.push(params[i].clone());
            i = i + 1;
        }
        let r = Statement { sql: q.to_string(), args };
        assert(r@.args =~= values_view(params@));
        r
    }
}

} // verus!
