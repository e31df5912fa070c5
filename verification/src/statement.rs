//! A SQL statement together with the text values bound to its placeholders.

use vstd::prelude::*;

verus! {

/// One statement for the datastore: its text, and the values for its `?`
/// placeholders in the order in which they occur.
#[derive(Clone, Debug, PartialEq, Eq)]
pub struct Statement {
    pub sql: &'static str,
    pub params: Vec<String>,
}

/// What a [`Statement`] stands for: the characters of its text and of each
/// bound value.
pub struct StatementView {
    pub sql: Seq<char>,
    pub params: Seq<Seq<char>>,
}

/// Where the placeholders of a statement's text are: the positions of its
/// question marks. No statement of this library holds a question mark
/// inside a quoted literal or a comment.
pub open spec fn placeholders(sql: Seq<char>) -> Set<int> {
    Set::new(|i: int| 0 <= i < sql.len() && sql[i] == '?')
}

impl StatementView {
    /// Whether the statement binds one value to each of its placeholders,
    /// and none beyond them.
    pub open spec fn well_formed(self) -> bool {
        &&& placeholders(self.sql).finite()
        &&& placeholders(self.sql).len() == self.params.len()
    }
}

/// The characters of each string of `values`, in the same order.
pub open spec fn texts(values: Seq<String>) -> Seq<Seq<char>> {
    Seq::new(values.len(), |i: int| values[i]@)
}

impl View for Statement {
    type V = StatementView;

    open spec fn view(&self) -> StatementView {
        StatementView { sql: self.sql@, params: texts(self.params@) }
    }
}

impl Statement {
    /// A statement that binds nothing.
    pub fn plain(sql: &'static str) -> (s: Statement)
        ensures
            s@ == (StatementView { sql: sql@, params: Seq::empty() }),
    {
        let s = Statement { sql, params: Vec::new() };
        assert(texts(s.params@) =~= Seq::empty());
        s
    }

    /// A statement that binds `value` and nothing else.
    pub fn with_text(sql: &'static str, value: String) -> (s: Statement)
        ensures
            s@ == (StatementView { sql: sql@, params: seq![value@] }),
    {
        let s = Statement { sql, params: vec![value] };
        assert(texts(s.params@) =~= seq![value@]);
        s
    }
}

} // verus!
