//! The chart of an Earley parse: one column per position in the tokens, each holding the
//! states that reach it, each state once.
use vstd::prelude::*;

use crate::token::Token;

verus! {

/// A state of an Earley parse: a production of a rule, how much of it is matched (`dot`), and
/// the columns it spans.
#[derive(Debug, Clone, Copy, PartialEq, Eq, Structural, Hash)]
pub struct State {
    /// The rule.
    pub rule_id: usize,
    /// The production of the rule.
    pub production_index: usize,
    /// How many terms of the production are matched.
    pub dot: usize,
    /// The column where the state starts.
    pub start_col: usize,
    /// The column where the state stops.
    pub stop_col: usize,
}

impl State {
    /// Creates a state.
    pub fn new(rule_id: usize, production_index: usize, dot: usize, start_col: usize, stop_col: usize) -> (r: State)
        ensures
            r == (State { rule_id, production_index, dot, start_col, stop_col }),
    {
        State { rule_id, production_index, dot, start_col, stop_col }
    }

    /// The columns the state spans, `(start, stop)`.
    pub fn range(&self) -> (r: (usize, usize))
        ensures
            r == (self.start_col, self.stop_col),
    {
        (self.start_col, self.stop_col)
    }
}

/// The states of one position of the chart, in the order they were added, each once.
#[derive(Debug, Clone)]
pub struct Column {
    /// The position of the column: 0 before the first token, `i` after token `i - 1`.
    pub index: usize,
    /// The token the column follows, if any.
    pub token: Option<usize>,
    /// The states, in the order they were added; [`Column::append`] keeps each once.
    pub states: Vec<State>,
}

impl Column {
    /// The states of the column, in order.
    pub open spec fn states(&self) -> Seq<State> {
        self.states@
    }

    /// The column holds each state once.
    pub open spec fn wf(&self) -> bool {
        self.states().no_duplicates()
    }

    /// An empty column.
    pub fn new(index: usize, token: Option<usize>) -> (r: Column)
        ensures
            r.index == index,
            r.token == token,
            r.states() == Seq::<State>::empty(),
            r.wf(),
    {
        Column { index, token, states: Vec::new() }
    }

    /// `true` for the column before the first token.
    pub fn first(&self) -> (r: bool)
        ensures
            r == (self.index == 0),
    {
        self.index == 0
    }

    /// The states of the column, in order.
    pub fn iter(&self) -> (r: &[State])
        ensures
            r@ == self.states(),
    {
        self.states.as_slice()
    }

    /// The number of states.
    pub fn len(&self) -> (r: usize)
        ensures
            r == self.states().len(),
    {
        self.states.len()
    }

    /// The state at `idx`, if there is one.
    pub fn get(&self, idx: usize) -> (r: Option<&State>)
        ensures
            match r {
                Some(s) => idx < self.states().len() && *s == self.states()[idx as int],
                None => idx >= self.states().len(),
            },
    {
        if idx < self.states.len() {
            Some(&self.states[idx])
        } else {
            None
        }
    }

    /// Adds a state unless the column already holds it.
    pub fn append(&mut self, state: State)
        ensures
            final(self).index == old(self).index,
            final(self).token == old(self).token,
            final(self).states() == if old(self).states().contains(state) {
                old(self).states()
            } else {
                old(self).states().push(state)
            },
            old(self).wf() ==> final(self).wf(),
    {
        let mut i: usize = 0;
        while i < self.states.len()
            invariant
                i <= self.states@.len(),
                forall|j: int| 0 <= j < i ==> self.states@[j] != state,
            decreases self.states@.len() - i,
        {
            if self.states[i] == state {
                proof { assert(self.states@.contains(state)); }
                return;
            }
            i += 1;
        }
        let ghost before = self.states@;
        self.states.push(state);
        proof {
            assert(!before.contains(state));
            assert forall|a: int, b: int| 0 <= a < b < self.states@.len() && old(self).wf() implies self.states@[a] != self.states@[b] by {
                if b == before.len() {
                    assert(self.states@[a] == before[a]);
                }
            }
        }
    }
}

/// The chart of a parse of `tokens`: a column before the first token and one after each.
#[derive(Debug, Clone)]
pub struct Chart {
    /// The tokens.
    pub tokens: Vec<Token>,
    /// The columns, in order.
    pub columns: Vec<Column>,
}

/// The columns of a chart over `n` tokens, each empty, column `i` after token `i - 1`.
pub open spec fn fresh_columns(columns: Seq<Column>, n: int) -> bool {
    &&& columns.len() == n + 1
    &&& forall|i: int| 0 <= i < columns.len() ==> {
        &&& (#[trigger] columns[i]).index == i
        &&& columns[i].token == if i == 0 { None::<usize> } else { Some((i - 1) as usize) }
        &&& columns[i].states().len() == 0
    }
}

impl Chart {
    /// The chart over the tokens, with its columns empty.
    pub fn new(tokens: Vec<Token>) -> (r: Chart)
        requires
            tokens@.len() < usize::MAX,
        ensures
            r.tokens@ == tokens@,
            fresh_columns(r.columns@, tokens@.len() as int),
    {
        let n = tokens.len();
        let mut columns: Vec<Column> = Vec::new();
        columns.push(Column::new(0, None));
        let mut i: usize = 0;
        while i < n
            invariant
                i <= n,
                n < usize::MAX,
                columns@.len() == i + 1,
                forall|j: int| 0 <= j < columns@.len() ==> {
                    &&& (#[trigger] columns@[j]).index == j
                    &&& columns@[j].token == if j == 0 { None::<usize> } else { Some((j - 1) as usize) }
                    &&& columns@[j].states().len() == 0
                },
            decreases n - i,
        {
            columns.push(Column::new(i + 1, Some(i)));
            i += 1;
        }
        Chart { tokens, columns }
    }

    /// The chart over a copy of the tokens, with its columns empty.
    pub fn from_slice(tokens: &[Token]) -> (r: Chart)
        requires
            tokens@.len() < usize::MAX,
        ensures
            r.tokens@.len() == tokens@.len(),
            forall|i: int| 0 <= i < tokens@.len() ==> (#[trigger] r.tokens@[i]).value@ == tokens@[i].value@
                && r.tokens@[i].span == tokens@[i].span && r.tokens@[i].token_type == tokens@[i].token_type,
            fresh_columns(r.columns@, tokens@.len() as int),
    {
        let mut copy: Vec<Token> = Vec::new();
        let mut i: usize = 0;
        while i < tokens.len()
            invariant
                i <= tokens@.len(),
                copy@.len() == i,
                forall|j: int| 0 <= j < i ==> (#[trigger] copy@[j]).value@ == tokens@[j].value@
                    && copy@[j].span == tokens@[j].span && copy@[j].token_type == tokens@[j].token_type,
            decreases tokens@.len() - i,
        {
            copy.push(tokens[i].copy());
            i += 1;
        }
        Chart::new(copy)
    }

    /// The number of columns.
    pub fn len(&self) -> (r: usize)
        ensures
            r == self.columns@.len(),
    {
        self.columns.len()
    }

    /// `true` when the chart has no column.
    pub fn is_empty(&self) -> (r: bool)
        ensures
            r == (self.columns@.len() == 0),
    {
        self.columns.len() == 0
    }

    /// The last column.
    pub fn last_column(&self) -> (r: &Column)
        requires
            self.columns@.len() > 0,
        ensures
            *r == self.columns@.last(),
    {
        &self.columns[self.columns.len() - 1]
    }

    /// The last column, to change.
    pub fn last_column_mut(&mut self) -> (r: &mut Column)
        requires
            old(self).columns@.len() > 0,
        ensures
            *r == old(self).columns@.last(),
            final(self).tokens == old(self).tokens,
            final(self).columns@ == old(self).columns@.update(old(self).columns@.len() - 1, *final(r)),
    {
        let n = self.columns.len();
        &mut self.columns[n - 1]
    }

    /// The column at `index`, to change, if there is one.
    pub fn get_mut(&mut self, index: usize) -> (r: Option<&mut Column>)
        ensures
            index >= old(self).columns@.len() ==> r is None && *final(self) == *old(self),
            index < old(self).columns@.len() ==> r is Some && *r->0 == old(self).columns@[index as int]
                && final(self).tokens == old(self).tokens
                && final(self).columns@ == old(self).columns@.update(index as int, *final(r->0)),
    {
        if index < self.columns.len() {
            Some(&mut self.columns[index])
        } else {
            None
        }
    }

    /// The column at `index`, if there is one.
    pub fn get(&self, index: usize) -> (r: Option<&Column>)
        ensures
            match r {
                Some(c) => index < self.columns@.len() && *c == self.columns@[index as int],
                None => index >= self.columns@.len(),
            },
    {
        if index < self.columns.len() {
            Some(&self.columns[index])
        } else {
            None
        }
    }

    /// The token the column at `column_index` follows, if any.
    pub fn token_at(&self, column_index: usize) -> (r: Option<&Token>)
        ensures
            match r {
                Some(t) => column_index < self.columns@.len()
                    && self.columns@[column_index as int].token is Some
                    && (self.columns@[column_index as int].token->0 as int) < self.tokens@.len()
                    && *t == self.tokens@[self.columns@[column_index as int].token->0 as int],
                None => column_index >= self.columns@.len()
                    || self.columns@[column_index as int].token is None
                    || self.columns@[column_index as int].token->0 >= self.tokens@.len(),
            },
    {
        if column_index >= self.columns.len() {
            return None;
        }
        match self.columns[column_index].token {
            Some(t) => if t < self.tokens.len() {
                Some(&self.tokens[t])
            } else {
                None
            },
            None => None,
        }
    }

    /// Each column index with the index of the next column, if there is one.
    pub fn iter_indices(&self) -> (r: Vec<(usize, Option<usize>)>)
        ensures
            r@.len() == self.columns@.len(),
            forall|i: int| 0 <= i < r@.len() ==> #[trigger] r@[i] == (
                i as usize,
                if i + 1 < r@.len() { Some((i + 1) as usize) } else { None::<usize> },
            ),
    {
        let n = self.columns.len();
        let mut out: Vec<(usize, Option<usize>)> = Vec::new();
        let mut i: usize = 0;
        while i < n
            invariant
                i <= n,
                n == self.columns@.len(),
                out@.len() == i,
                forall|j: int| 0 <= j < i ==> #[trigger] out@[j] == (
                    j as usize,
                    if j + 1 < n { Some((j + 1) as usize) } else { None::<usize> },
                ),
            decreases n - i,
        {
            let next = if i + 1 < n { Some(i + 1) } else { None };
            out.push((i, next));
            i += 1;
        }
        out
    }
}

} // verus!
