//! An Earley recognizer: rules made of productions, productions made of terms, and the chart
//! that a parse of a sequence of tokens builds with `predict`, `scan` and `complete`.
use vstd::prelude::*;

use crate::parser::chart::{Chart, Column, State};
use crate::parser::match_result::{greedy_result, law_resolved_ranges_do_not_overlap, ranges_sorted, resolve_spans};
use crate::text::str_eq;
use crate::token::{is_tokenization, Token, Tokenizer};

verus! {

/// A term of a production: another rule, or a word that the value of a token must equal.
#[derive(Debug, Clone)]
pub enum Term {
    /// The rule with this id.
    Rule(usize),
    /// A token whose value is this word.
    Word(String),
}

/// A production: the terms that must follow one another.
#[derive(Debug, Clone)]
pub struct Production {
    /// The terms, in order.
    pub terms: Vec<Term>,
}

/// A rule: its productions, each of which it matches.
#[derive(Debug, Clone)]
pub struct Rule {
    /// The productions, in order.
    pub productions: Vec<Production>,
}

/// The rules of a grammar; a rule's id is its position.
#[derive(Debug, Clone)]
pub struct RuleRegistry {
    /// The rules, by id.
    pub rules: Vec<Rule>,
}

/// The state that begins production `p` of rule `r` at column `c`.
pub open spec fn start_state(r: int, p: int, c: int) -> State {
    State { rule_id: r as usize, production_index: p as usize, dot: 0, start_col: c as usize, stop_col: c as usize }
}

/// The state `s` with one more term matched, stopping at column `c`.
pub open spec fn advanced(s: State, c: int) -> State {
    State {
        rule_id: s.rule_id,
        production_index: s.production_index,
        dot: (s.dot + 1) as usize,
        start_col: s.start_col,
        stop_col: c as usize,
    }
}

/// The state that `s` advanced from: one term less matched, stopping at column `k`.
pub open spec fn retreated(s: State, k: int) -> State {
    State {
        rule_id: s.rule_id,
        production_index: s.production_index,
        dot: (s.dot - 1) as usize,
        start_col: s.start_col,
        stop_col: k as usize,
    }
}

/// `s` begins a production of rule `r` at column `c`.
pub open spec fn begins(s: State, r: int, c: int) -> bool {
    &&& s.rule_id == r
    &&& s.dot == 0
    &&& s.start_col == c
    &&& s.stop_col == c
}

/// The states of each column of a chart.
pub open spec fn chart_states(chart: Chart) -> Seq<Seq<State>> {
    Seq::new(chart.columns@.len(), |i: int| chart.columns@[i].states@)
}

/// `after` is `before` with states added at the end of column `k` alone.
pub open spec fn extends_at(before: Seq<Seq<State>>, after: Seq<Seq<State>>, k: int) -> bool {
    &&& after.len() == before.len()
    &&& forall|i: int| 0 <= i < before.len() && i != k ==> after[i] == before[i]
    &&& after[k].len() >= before[k].len()
    &&& forall|j: int| 0 <= j < before[k].len() ==> after[k][j] == #[trigger] before[k][j]
}

/// The columns of `chart` keep the position and token they were made with.
pub open spec fn columns_placed(chart: Chart, n: int) -> bool {
    &&& chart.columns@.len() == n + 1
    &&& forall|i: int| 0 <= i < chart.columns@.len() ==> {
        &&& (#[trigger] chart.columns@[i]).index == i
        &&& chart.columns@[i].token == if i == 0 { None::<usize> } else { Some((i - 1) as usize) }
    }
}

impl RuleRegistry {
    /// A registry without rules.
    pub fn new() -> (r: RuleRegistry)
        ensures
            r.rules@.len() == 0,
    {
        RuleRegistry { rules: Vec::new() }
    }

    /// The id the next added rule gets.
    pub fn next_id(&self) -> (r: usize)
        ensures
            r == self.rules@.len(),
    {
        self.rules.len()
    }

    /// Adds a rule and returns its id.
    pub fn add(&mut self, rule: Rule) -> (id: usize)
        ensures
            id == old(self).rules@.len(),
            final(self).rules@ == old(self).rules@.push(rule),
    {
        let id = self.rules.len();
        self.rules.push(rule);
        id
    }

    /// The number of productions of rule `r`.
    pub open spec fn prod_count(&self, r: int) -> int {
        self.rules@[r].productions@.len() as int
    }

    /// The terms of production `p` of rule `r`.
    pub open spec fn terms(&self, r: int, p: int) -> Seq<Term> {
        self.rules@[r].productions@[p].terms@
    }

    /// A production has a term and names only rules of the registry.
    pub open spec fn production_wf(&self, t: Seq<Term>) -> bool {
        &&& t.len() > 0
        &&& forall|i: int| 0 <= i < t.len() ==> match #[trigger] t[i] {
            Term::Rule(q) => q < self.rules@.len(),
            Term::Word(_) => true,
        }
    }

    /// Every production has a term and names only rules of the registry.
    pub open spec fn wf(&self) -> bool {
        forall|r: int, p: int| 0 <= r < self.rules@.len() && 0 <= p < self.prod_count(r) ==> self.production_wf(
            #[trigger] self.terms(r, p),
        )
    }

    /// The terms of the production of `s`.
    pub open spec fn state_terms(&self, s: State) -> Seq<Term> {
        self.terms(s.rule_id as int, s.production_index as int)
    }

    /// `s` names a production of the registry, stops at column `c`, and has matched a term
    /// only where it spans a token.
    pub open spec fn valid_state(&self, s: State, c: int) -> bool {
        &&& s.rule_id < self.rules@.len()
        &&& s.production_index < self.prod_count(s.rule_id as int)
        &&& s.dot <= self.state_terms(s).len()
        &&& s.start_col <= c
        &&& s.stop_col == c
        &&& s.dot > 0 ==> s.start_col < c
    }

    /// All terms of the production of `s` are matched.
    pub open spec fn is_complete(&self, s: State) -> bool {
        s.dot >= self.state_terms(s).len()
    }

    /// The next term of `s` is rule `r`.
    pub open spec fn waits_for(&self, s: State, r: int) -> bool {
        &&& s.dot < self.state_terms(s).len()
        &&& self.state_terms(s)[s.dot as int] == Term::Rule(r as usize)
    }

    /// `s`, at column `c`, is a state of `origin` (column `k`) that waited for rule `r`, past
    /// that rule.
    pub open spec fn completes(&self, s: State, origin: Seq<State>, k: int, r: int, c: int) -> bool {
        &&& s.dot > 0
        &&& s.stop_col == c
        &&& origin.contains(retreated(s, k))
        &&& self.waits_for(retreated(s, k), r)
    }

    /// Each production of rule `r` begins at column `c` in `col`.
    pub open spec fn predicted_in(&self, col: Seq<State>, r: int, c: int) -> bool {
        forall|p: int| 0 <= p < self.prod_count(r) ==> col.contains(#[trigger] start_state(r, p, c))
    }

    /// What `s`, at column `c`, brings into the chart is there: the productions of the rule it
    /// waits for (predict), itself past the word that the next token holds (scan), or, once
    /// complete, each state that waited for its rule where it began, past that rule
    /// (complete).
    pub open spec fn closed_at(&self, cols: Seq<Seq<State>>, toks: Seq<Token>, c: int, s: State) -> bool {
        let t = self.state_terms(s);
        if s.dot < t.len() {
            match t[s.dot as int] {
                Term::Rule(r) => self.predicted_in(cols[c], r as int, c),
                Term::Word(w) => (c < toks.len() && toks[c].value@ == w@) ==> cols[c + 1].contains(
                    advanced(s, c + 1),
                ),
            }
        } else {
            forall|j: int|
                0 <= j < cols[s.start_col as int].len() && self.waits_for(
                    #[trigger] cols[s.start_col as int][j],
                    s.rule_id as int,
                ) ==> cols[c].contains(advanced(cols[s.start_col as int][j], c))
        }
    }

    /// The chart has a column before each token and one after the last, each state once,
    /// each state valid at its column.
    pub open spec fn chart_wf(&self, cols: Seq<Seq<State>>, toks: Seq<Token>) -> bool {
        &&& cols.len() == toks.len() + 1
        &&& forall|c: int| 0 <= c < cols.len() ==> (#[trigger] cols[c]).no_duplicates()
        &&& forall|c: int, j: int|
            0 <= c < cols.len() && 0 <= j < cols[c].len() ==> self.valid_state(#[trigger] cols[c][j], c)
    }

    /// The chart holds the productions of `root` at column 0 (at every column when `all`), and
    /// what each of its states brings in.
    pub open spec fn chart_closed(&self, cols: Seq<Seq<State>>, toks: Seq<Token>, root: int, all: bool) -> bool {
        &&& forall|c: int| 0 <= c < cols.len() && (c == 0 || all) ==> self.predicted_in(#[trigger] cols[c], root, c)
        &&& forall|c: int, j: int|
            0 <= c < cols.len() && 0 <= j < cols[c].len() ==> self.closed_at(cols, toks, c, #[trigger] cols[c][j])
    }

    /// Some state of `col` before index `j` waits for rule `r`.
    pub open spec fn predicted_by(&self, col: Seq<State>, j: int, r: int) -> bool {
        exists|i: int| 0 <= i < j && #[trigger] self.waits_for(col[i], r)
    }

    /// `s`, at column `c`, is a state of column `c - 1` past the word that token `c - 1`
    /// holds.
    pub open spec fn scanned(&self, cols: Seq<Seq<State>>, toks: Seq<Token>, c: int, s: State) -> bool {
        &&& 0 < c
        &&& s.dot > 0
        &&& cols[c - 1].contains(retreated(s, c - 1))
        &&& match self.state_terms(s)[s.dot - 1] {
            Term::Word(w) => toks[c - 1].value@ == w@,
            Term::Rule(_) => false,
        }
    }

    /// `s`, at column `c`, is a state that waited for the rule of the complete state `done`
    /// of column `c`, where `done` began, past that rule.
    pub open spec fn completed_via(&self, cols: Seq<Seq<State>>, c: int, done: State, s: State) -> bool {
        &&& self.is_complete(done)
        &&& done.stop_col == c
        &&& s.dot > 0
        &&& s.stop_col == c
        &&& cols[done.start_col as int].contains(retreated(s, done.start_col as int))
        &&& self.waits_for(retreated(s, done.start_col as int), done.rule_id as int)
    }

    /// The state at index `j` of column `c` is there for a reason that lies before it: it
    /// begins the root at a column where parses start, or begins a rule that a state before
    /// it in its column waits for (predict), or comes from column `c - 1` past a word
    /// (scan), or from a state that waited for the rule of a complete state before it in its
    /// column (complete).
    pub open spec fn justified(&self, cols: Seq<Seq<State>>, toks: Seq<Token>, root: int, all: bool, c: int, j: int) -> bool {
        let s = cols[c][j];
        ||| (c == 0 || all) && begins(s, root, c)
        ||| s.dot == 0 && s.start_col == c && self.predicted_by(cols[c], j, s.rule_id as int)
        ||| self.scanned(cols, toks, c, s)
        ||| exists|i: int| 0 <= i < j && #[trigger] self.completed_via(cols, c, cols[c][i], s)
    }

    /// Every state of the chart is justified (see [`RuleRegistry::justified`]).
    pub open spec fn chart_sound(&self, cols: Seq<Seq<State>>, toks: Seq<Token>, root: int, all: bool) -> bool {
        forall|c: int, j: int| 0 <= c < cols.len() && 0 <= j < cols[c].len() ==> #[trigger] self.justified(cols, toks, root, all, c, j)
    }

    /// A bound on the number of distinct valid states at column `c`.
    spec fn state_bound(&self, c: int) -> int {
        self.rules@.len() * most_productions(self.rules@) * (longest_production(self.rules@) + 1) * (c + 1)
    }

    /// `s` names a rule of the registry and one of its productions.
    pub open spec fn names_production(&self, s: State) -> bool {
        &&& s.rule_id < self.rules@.len()
        &&& s.production_index < self.prod_count(s.rule_id as int)
    }

    /// The next term of `s`: none where `s` names no production of the registry or has
    /// matched all its terms.
    pub open spec fn next_term_of(&self, s: State) -> Option<Term> {
        if self.names_production(s) && s.dot < self.state_terms(s).len() {
            Some(self.state_terms(s)[s.dot as int])
        } else {
            None
        }
    }

    /// The states of rule `r` that have matched all their terms.
    pub open spec fn finished(&self, r: int) -> spec_fn(State) -> bool {
        |s: State| s.rule_id == r && self.is_complete(s)
    }

    /// The states that wait for rule `r`.
    pub open spec fn waiting(&self, r: int) -> spec_fn(State) -> bool {
        |s: State| self.next_term_of(s) == Some(Term::Rule(r as usize))
    }

    /// The complete states of rule `root` in each column, column after column.
    pub open spec fn found_in_all(&self, cols: Seq<Seq<State>>, root: int) -> Seq<State> {
        Seq::new(cols.len(), |c: int| cols[c].filter(self.finished(root))).flatten()
    }

    /// The complete states of `root` that a parse found: those of every column when `all`,
    /// else those of the last column.
    pub open spec fn found(&self, cols: Seq<Seq<State>>, root: int, all: bool) -> Seq<State> {
        if all {
            self.found_in_all(cols, root)
        } else {
            cols.last().filter(self.finished(root))
        }
    }
}

proof fn lemma_filter_step(s: Seq<State>, i: int, f: spec_fn(State) -> bool)
    requires
        0 <= i < s.len(),
    ensures
        s.take(i + 1).filter(f) == if f(s[i]) {
            s.take(i).filter(f).push(s[i])
        } else {
            s.take(i).filter(f)
        },
{
    reveal(Seq::filter);
    assert(s.take(i + 1).drop_last() =~= s.take(i));
    assert(s.take(i + 1).last() == s[i]);
}

impl State {
    /// The next term of the state: `None` where the registry has no such rule or
    /// production, or all its terms are matched.
    pub fn next_term<'g>(&self, registry: &'g RuleRegistry) -> (r: Option<&'g Term>)
        ensures
            match r {
                Some(t) => registry.next_term_of(*self) == Some(*t),
                None => registry.next_term_of(*self) is None,
            },
    {
        if self.rule_id >= registry.rules.len() {
            return None;
        }
        let rule = &registry.rules[self.rule_id];
        if self.production_index >= rule.productions.len() {
            return None;
        }
        let terms = &rule.productions[self.production_index].terms;
        if self.dot < terms.len() {
            Some(&terms[self.dot])
        } else {
            None
        }
    }

    /// Whether the state has matched all terms of its production.
    pub fn completed(&self, registry: &RuleRegistry) -> (r: bool)
        requires
            registry.names_production(*self),
        ensures
            r == registry.is_complete(*self),
    {
        self.dot >= registry.rules[self.rule_id].productions[self.production_index].terms.len()
    }
}

impl Column {
    /// The states of the column that wait for rule `rule_id`, in order.
    pub fn parents(&self, rule_id: usize, registry: &RuleRegistry) -> (r: Vec<State>)
        ensures
            r@ == self.states@.filter(registry.waiting(rule_id as int)),
    {
        let mut out: Vec<State> = Vec::new();
        let mut i: usize = 0;
        while i < self.states.len()
            invariant
                i <= self.states@.len(),
                out@ == self.states@.take(i as int).filter(registry.waiting(rule_id as int)),
            decreases self.states@.len() - i,
        {
            let s = self.states[i];
            proof {
                lemma_filter_step(self.states@, i as int, registry.waiting(rule_id as int));
            }
            match s.next_term(registry) {
                Some(Term::Rule(q)) => {
                    if *q == rule_id {
                        out.push(s);
                    }
                },
                _ => {},
            }
            i += 1;
        }
        assert(self.states@.take(self.states@.len() as int) =~= self.states@);
        out
    }

    /// The states of rule `rule_id` that have matched all their terms, in order.
    pub fn matches(&self, rule_id: usize, registry: &RuleRegistry) -> (r: Vec<State>)
        requires
            forall|j: int| 0 <= j < self.states@.len() && (#[trigger] self.states@[j]).rule_id == rule_id
                ==> registry.names_production(self.states@[j]),
        ensures
            r@ == self.states@.filter(registry.finished(rule_id as int)),
    {
        let mut out: Vec<State> = Vec::new();
        let mut i: usize = 0;
        while i < self.states.len()
            invariant
                i <= self.states@.len(),
                forall|j: int| 0 <= j < self.states@.len() && (#[trigger] self.states@[j]).rule_id == rule_id
                    ==> registry.names_production(self.states@[j]),
                out@ == self.states@.take(i as int).filter(registry.finished(rule_id as int)),
            decreases self.states@.len() - i,
        {
            let s = self.states[i];
            proof {
                lemma_filter_step(self.states@, i as int, registry.finished(rule_id as int));
            }
            if s.rule_id == rule_id && s.completed(registry) {
                out.push(s);
            }
            i += 1;
        }
        assert(self.states@.take(self.states@.len() as int) =~= self.states@);
        out
    }
}

impl Chart {
    /// The states of rule `rule_id` that have matched all their terms, column after column.
    pub fn matches(&self, rule_id: usize, registry: &RuleRegistry) -> (r: Vec<State>)
        requires
            forall|c: int, j: int|
                0 <= c < self.columns@.len() && 0 <= j < self.columns@[c].states@.len()
                    && (#[trigger] self.columns@[c].states@[j]).rule_id == rule_id ==> registry.names_production(
                    self.columns@[c].states@[j],
                ),
        ensures
            r@ == registry.found_in_all(chart_states(*self), rule_id as int),
    {
        let ghost cols = chart_states(*self);
        let ghost f = registry.finished(rule_id as int);
        let mut out: Vec<State> = Vec::new();
        let mut c: usize = 0;
        while c < self.columns.len()
            invariant
                c <= self.columns@.len(),
                cols == chart_states(*self),
                f == registry.finished(rule_id as int),
                forall|x: int, j: int|
                    0 <= x < self.columns@.len() && 0 <= j < self.columns@[x].states@.len()
                        && (#[trigger] self.columns@[x].states@[j]).rule_id == rule_id ==> registry.names_production(
                        self.columns@[x].states@[j],
                    ),
                out@ == Seq::new(c as nat, |x: int| cols[x].filter(f)).flatten(),
            decreases self.columns@.len() - c,
        {
            let found = self.columns[c].matches(rule_id, registry);
            proof {
                let g = |x: int| cols[x].filter(f);
                assert(Seq::new((c + 1) as nat, g) =~= Seq::new(c as nat, g).push(g(c as int)));
                Seq::new(c as nat, g).lemma_flatten_push(g(c as int));
            }
            let mut k: usize = 0;
            let ghost start = out@;
            while k < found.len()
                invariant
                    k <= found@.len(),
                    out@ == start + found@.take(k as int),
                decreases found@.len() - k,
            {
                out.push(found[k]);
                k += 1;
                assert(start + found@.take(k as int) =~= (start + found@.take((k - 1) as int)).push(found@[k - 1]));
            }
            assert(found@.take(found@.len() as int) =~= found@);
            c += 1;
        }
        assert(Seq::new(cols.len(), |x: int| cols[x].filter(f)) =~= Seq::new(c as nat, |x: int| cols[x].filter(f)));
        out
    }
}

/// The largest number of productions of a rule.
spec fn most_productions(rules: Seq<Rule>) -> int
    decreases rules.len(),
{
    if rules.len() == 0 {
        0
    } else {
        let rest = most_productions(rules.drop_last());
        let here = rules.last().productions@.len() as int;
        if here > rest { here } else { rest }
    }
}

/// The largest number of terms of a production.
spec fn longest_in(prods: Seq<Production>) -> int
    decreases prods.len(),
{
    if prods.len() == 0 {
        0
    } else {
        let rest = longest_in(prods.drop_last());
        let here = prods.last().terms@.len() as int;
        if here > rest { here } else { rest }
    }
}

/// The largest number of terms of a production of a rule.
spec fn longest_production(rules: Seq<Rule>) -> int
    decreases rules.len(),
{
    if rules.len() == 0 {
        0
    } else {
        let rest = longest_production(rules.drop_last());
        let here = longest_in(rules.last().productions@);
        if here > rest { here } else { rest }
    }
}

proof fn lemma_most_productions(rules: Seq<Rule>, r: int)
    requires
        0 <= r < rules.len(),
    ensures
        rules[r].productions@.len() <= most_productions(rules),
        most_productions(rules) >= 0,
    decreases rules.len(),
{
    if r < rules.len() - 1 {
        assert(rules.drop_last()[r] == rules[r]);
        lemma_most_productions(rules.drop_last(), r);
    }
}

proof fn lemma_longest_in(prods: Seq<Production>, p: int)
    requires
        0 <= p < prods.len(),
    ensures
        prods[p].terms@.len() <= longest_in(prods),
    decreases prods.len(),
{
    if p < prods.len() - 1 {
        assert(prods.drop_last()[p] == prods[p]);
        lemma_longest_in(prods.drop_last(), p);
    }
}

proof fn lemma_longest_production(rules: Seq<Rule>, r: int, p: int)
    requires
        0 <= r < rules.len(),
        0 <= p < rules[r].productions@.len(),
    ensures
        rules[r].productions@[p].terms@.len() <= longest_production(rules),
    decreases rules.len(),
{
    if r < rules.len() - 1 {
        assert(rules.drop_last()[r] == rules[r]);
        lemma_longest_production(rules.drop_last(), r, p);
    } else {
        lemma_longest_in(rules[r].productions@, p);
    }
}

proof fn lemma_mix_bound(x: int, xb: int, y: int, yb: int)
    by (nonlinear_arith)
    requires
        0 <= x < xb,
        0 <= y < yb,
    ensures
        0 <= x * yb + y < xb * yb,
{
}

proof fn lemma_mix_inj(x1: int, y1: int, x2: int, y2: int, yb: int)
    requires
        0 <= y1 < yb,
        0 <= y2 < yb,
        x1 * yb + y1 == x2 * yb + y2,
    ensures
        x1 == x2,
        y1 == y2,
{
    let v = x1 * yb + y1;
    vstd::arithmetic::div_mod::lemma_fundamental_div_mod_converse(v, yb, x1, y1);
    vstd::arithmetic::div_mod::lemma_fundamental_div_mod_converse(v, yb, x2, y2);
}

/// A number for each valid state of a column, distinct for distinct states.
spec fn state_code(s: State, pm: int, dm: int, cm: int) -> int {
    ((s.rule_id * pm + s.production_index) * dm + s.dot) * cm + s.start_col
}

/// A column of distinct valid states holds no more than the bound.
proof fn lemma_column_bound(reg: RuleRegistry, col: Seq<State>, c: int)
    requires
        0 <= c,
        col.no_duplicates(),
        forall|j: int| 0 <= j < col.len() ==> reg.valid_state(#[trigger] col[j], c),
    ensures
        col.len() <= reg.state_bound(c),
{
    let rb = reg.rules@.len() as int;
    let pm = most_productions(reg.rules@);
    let dm = longest_production(reg.rules@) + 1;
    let cm = c + 1;
    let n = rb * pm * dm * cm;
    let codes = col.map_values(|s: State| state_code(s, pm, dm, cm));
    assert forall|j: int| 0 <= j < col.len() implies 0 <= #[trigger] codes[j] < n by {
        let s = col[j];
        lemma_most_productions(reg.rules@, s.rule_id as int);
        lemma_longest_production(reg.rules@, s.rule_id as int, s.production_index as int);
        lemma_mix_bound(s.rule_id as int, rb, s.production_index as int, pm);
        lemma_mix_bound(s.rule_id * pm + s.production_index, rb * pm, s.dot as int, dm);
        lemma_mix_bound((s.rule_id * pm + s.production_index) * dm + s.dot, rb * pm * dm, s.start_col as int, cm);
    }
    assert forall|a: int, b: int| 0 <= a < b < codes.len() implies codes[a] != codes[b] by {
        let s = col[a];
        let t = col[b];
        if codes[a] == codes[b] {
            lemma_most_productions(reg.rules@, s.rule_id as int);
            lemma_most_productions(reg.rules@, t.rule_id as int);
            lemma_longest_production(reg.rules@, s.rule_id as int, s.production_index as int);
            lemma_longest_production(reg.rules@, t.rule_id as int, t.production_index as int);
            lemma_mix_inj(
                (s.rule_id * pm + s.production_index) * dm + s.dot,
                s.start_col as int,
                (t.rule_id * pm + t.production_index) * dm + t.dot,
                t.start_col as int,
                cm,
            );
            lemma_mix_inj(s.rule_id * pm + s.production_index, s.dot as int, t.rule_id * pm + t.production_index, t.dot as int, dm);
            lemma_mix_inj(s.rule_id as int, s.production_index as int, t.rule_id as int, t.production_index as int, pm);
            assert(s == t);
        }
    }
    codes.unique_seq_to_set();
    assert forall|x: int| codes.to_set().contains(x) implies vstd::set_lib::set_int_range(0, n).contains(x) by {
        assert(codes.contains(x));
        let j = choose|j: int| 0 <= j < codes.len() && codes[j] == x;
        assert(0 <= codes[j] < n);
    }
    if codes.len() > 0 {
        assert(0 <= codes[0] < n);
    }
    vstd::set_lib::lemma_int_range(0, if n >= 0 { n } else { 0 });
    vstd::set_lib::lemma_len_subset(codes.to_set(), vstd::set_lib::set_int_range(0, n));
}

/// Adds `s` to column `k` of the chart unless the column holds it.
fn add_state(chart: &mut Chart, registry: &RuleRegistry, toks: Ghost<Seq<Token>>, k: usize, s: State)
    requires
        registry.chart_wf(chart_states(*old(chart)), toks@),
        k < old(chart).columns@.len(),
        registry.valid_state(s, k as int),
    ensures
        final(chart).tokens == old(chart).tokens,
        forall|i: int| 0 <= i < final(chart).columns@.len() ==> {
            &&& (#[trigger] final(chart).columns@[i]).index == old(chart).columns@[i].index
            &&& final(chart).columns@[i].token == old(chart).columns@[i].token
        },
        registry.chart_wf(chart_states(*final(chart)), toks@),
        extends_at(chart_states(*old(chart)), chart_states(*final(chart)), k as int),
        chart_states(*final(chart))[k as int] == if chart_states(*old(chart))[k as int].contains(s) {
            chart_states(*old(chart))[k as int]
        } else {
            chart_states(*old(chart))[k as int].push(s)
        },
{
    let ghost before = chart_states(*chart);
    chart.columns[k].append(s);
    let ghost after = chart_states(*chart);
    proof {
        assert forall|i: int| 0 <= i < before.len() && i != k implies after[i] == before[i] by {}
        assert(after[k as int] == if before[k as int].contains(s) { before[k as int] } else { before[k as int].push(s) });
        assert forall|c: int, j: int| 0 <= c < after.len() && 0 <= j < after[c].len() implies registry.valid_state(
            #[trigger] after[c][j],
            c,
        ) by {
            if c == k && j >= before[c].len() {
                assert(after[c][j] == s);
            } else {
                assert(after[c][j] == before[c][j]);
            }
        }
        assert forall|c: int| 0 <= c < after.len() implies (#[trigger] after[c]).no_duplicates() by {
            if c == k {
                assert(chart.columns@[c].wf());
            } else {
                assert(after[c] == before[c]);
            }
        }
    }
}


/// `after` is `before` with states added at the end of columns `c` and `c + 1` alone.
pub open spec fn grows_from(before: Seq<Seq<State>>, after: Seq<Seq<State>>, c: int) -> bool {
    &&& after.len() == before.len()
    &&& forall|i: int| 0 <= i < before.len() && i != c && i != c + 1 ==> after[i] == before[i]
    &&& forall|i: int| 0 <= i < before.len() && (i == c || i == c + 1) ==> after[i].len() >= before[i].len()
    &&& forall|i: int, j: int|
        0 <= i < before.len() && (i == c || i == c + 1) && 0 <= j < before[i].len() ==> after[i][j]
            == #[trigger] before[i][j]
}

/// The chart keeps its tokens and the place of each column.
pub open spec fn same_frame(before: Chart, after: Chart) -> bool {
    &&& after.tokens == before.tokens
    &&& after.columns@.len() == before.columns@.len()
    &&& forall|i: int| 0 <= i < after.columns@.len() ==> {
        &&& (#[trigger] after.columns@[i]).index == before.columns@[i].index
        &&& after.columns@[i].token == before.columns@[i].token
    }
}

proof fn lemma_extends_grows(a: Seq<Seq<State>>, b: Seq<Seq<State>>, k: int, c: int)
    requires
        extends_at(a, b, k),
        k == c || k == c + 1,
        0 <= k < a.len(),
    ensures
        grows_from(a, b, c),
{
}

proof fn lemma_extends_trans(a: Seq<Seq<State>>, b: Seq<Seq<State>>, d: Seq<Seq<State>>, k: int)
    requires
        extends_at(a, b, k),
        extends_at(b, d, k),
        0 <= k < a.len(),
    ensures
        extends_at(a, d, k),
{
    assert forall|j: int| 0 <= j < a[k].len() implies d[k][j] == #[trigger] a[k][j] by {
        assert(b[k][j] == a[k][j]);
    }
}

proof fn lemma_contains_kept(a: Seq<Seq<State>>, b: Seq<Seq<State>>, c: int, i: int, x: State)
    requires
        grows_from(a, b, c),
        0 <= i < a.len(),
        a[i].contains(x),
    ensures
        b[i].contains(x),
{
    let j = choose|j: int| 0 <= j < a[i].len() && a[i][j] == x;
    if i == c || i == c + 1 {
        assert(b[i][j] == a[i][j]);
    }
}

proof fn lemma_complete_starts_before(reg: RuleRegistry, s: State, c: int)
    requires
        reg.wf(),
        reg.valid_state(s, c),
        reg.is_complete(s),
    ensures
        s.start_col < c,
{
    assert(reg.production_wf(reg.terms(s.rule_id as int, s.production_index as int)));
}

/// What a state brings into the chart stays there while states are added to columns `k` and
/// `k + 1`, so long as the column it began at is not one of them.
proof fn lemma_closed_kept(
    reg: RuleRegistry,
    toks: Seq<Token>,
    a: Seq<Seq<State>>,
    b: Seq<Seq<State>>,
    k: int,
    c: int,
    s: State,
)
    requires
        grows_from(a, b, k),
        a.len() == toks.len() + 1,
        0 <= c < a.len(),
        reg.closed_at(a, toks, c, s),
        reg.is_complete(s) ==> 0 <= s.start_col < a.len() && s.start_col != k && s.start_col != k + 1,
    ensures
        reg.closed_at(b, toks, c, s),
{
    let t = reg.state_terms(s);
    if s.dot < t.len() {
        match t[s.dot as int] {
            Term::Rule(r) => {
                assert forall|p: int| 0 <= p < reg.prod_count(r as int) implies b[c].contains(
                    #[trigger] start_state(r as int, p, c),
                ) by {
                    lemma_contains_kept(a, b, k, c, start_state(r as int, p, c));
                }
            },
            Term::Word(w) => {
                if c < toks.len() && toks[c].value@ == w@ {
                    lemma_contains_kept(a, b, k, c + 1, advanced(s, c + 1));
                }
            },
        }
    } else {
        let st = s.start_col as int;
        assert(b[st] == a[st]);
        assert forall|j: int| 0 <= j < b[st].len() && reg.waits_for(#[trigger] b[st][j], s.rule_id as int) implies b[c].contains(
            advanced(b[st][j], c),
        ) by {
            lemma_contains_kept(a, b, k, c, advanced(a[st][j], c));
        }
    }
}

/// A state keeps its reason while states are added to columns `k` and `k + 1`.
proof fn lemma_justified_kept(
    reg: RuleRegistry,
    toks: Seq<Token>,
    root: int,
    all: bool,
    a: Seq<Seq<State>>,
    b: Seq<Seq<State>>,
    k: int,
    c: int,
    j: int,
)
    requires
        grows_from(a, b, k),
        reg.chart_wf(a, toks),
        0 <= c < a.len(),
        0 <= j < a[c].len(),
        reg.justified(a, toks, root, all, c, j),
    ensures
        reg.justified(b, toks, root, all, c, j),
{
    let s = a[c][j];
    assert(b[c][j] == s) by {
        if c == k || c == k + 1 {
            assert(b[c][j] == a[c][j]);
        }
    }
    if (c == 0 || all) && begins(s, root, c) {
    } else if s.dot == 0 && s.start_col == c && reg.predicted_by(a[c], j, s.rule_id as int) {
        let i = choose|i: int| 0 <= i < j && #[trigger] reg.waits_for(a[c][i], s.rule_id as int);
        if c == k || c == k + 1 {
            assert(b[c][i] == a[c][i]);
        }
        assert(reg.waits_for(b[c][i], s.rule_id as int));
    } else if reg.scanned(a, toks, c, s) {
        lemma_contains_kept(a, b, k, c - 1, retreated(s, c - 1));
    } else {
        let i = choose|i: int| 0 <= i < j && #[trigger] reg.completed_via(a, c, a[c][i], s);
        let done = a[c][i];
        if c == k || c == k + 1 {
            assert(b[c][i] == a[c][i]);
        }
        assert(reg.valid_state(a[c][i], c));
        lemma_contains_kept(a, b, k, done.start_col as int, retreated(s, done.start_col as int));
        assert(reg.completed_via(b, c, b[c][i], s));
    }
}

/// Every state keeps its reason while states are added to columns `k` and `k + 1`.
proof fn lemma_sound_kept(
    reg: RuleRegistry,
    toks: Seq<Token>,
    root: int,
    all: bool,
    a: Seq<Seq<State>>,
    b: Seq<Seq<State>>,
    k: int,
)
    requires
        grows_from(a, b, k),
        reg.chart_wf(a, toks),
        reg.chart_sound(a, toks, root, all),
    ensures
        forall|x: int, j: int| 0 <= x < a.len() && 0 <= j < a[x].len() ==> #[trigger] reg.justified(b, toks, root, all, x, j),
{
    assert forall|x: int, j: int| 0 <= x < a.len() && 0 <= j < a[x].len() implies #[trigger] reg.justified(b, toks, root, all, x, j) by {
        assert(reg.justified(a, toks, root, all, x, j));
        lemma_justified_kept(reg, toks, root, all, a, b, k, x, j);
    }
}

/// Predict: adds the beginning of each production of rule `r` at column `c`.
fn predict(chart: &mut Chart, registry: &RuleRegistry, toks: Ghost<Seq<Token>>, c: usize, r: usize)
    requires
        registry.chart_wf(chart_states(*old(chart)), toks@),
        c < old(chart).columns@.len(),
        r < registry.rules@.len(),
    ensures
        same_frame(*old(chart), *final(chart)),
        registry.chart_wf(chart_states(*final(chart)), toks@),
        extends_at(chart_states(*old(chart)), chart_states(*final(chart)), c as int),
        registry.predicted_in(chart_states(*final(chart))[c as int], r as int, c as int),
        forall|j: int|
            chart_states(*old(chart))[c as int].len() <= j < chart_states(*final(chart))[c as int].len() ==> begins(
                #[trigger] chart_states(*final(chart))[c as int][j],
                r as int,
                c as int,
            ),
{
    let ghost start = chart_states(*chart);
    let ghost frame = *chart;
    let n = registry.rules[r].productions.len();
    let mut p: usize = 0;
    while p < n
        invariant
            n == registry.prod_count(r as int),
            r < registry.rules@.len(),
            p <= n,
            c < chart.columns@.len(),
            same_frame(frame, *chart),
            registry.chart_wf(chart_states(*chart), toks@),
            extends_at(start, chart_states(*chart), c as int),
            forall|q: int| 0 <= q < p ==> chart_states(*chart)[c as int].contains(#[trigger] start_state(r as int, q, c as int)),
            forall|j: int|
                start[c as int].len() <= j < chart_states(*chart)[c as int].len() ==> begins(
                    #[trigger] chart_states(*chart)[c as int][j],
                    r as int,
                    c as int,
                ),
        decreases n - p,
    {
        let ghost before = chart_states(*chart);
        let st = State::new(r, p, 0, c, c);
        assert(st == start_state(r as int, p as int, c as int));
        add_state(chart, registry, toks, c, st);
        proof {
            let after = chart_states(*chart);
            lemma_extends_trans(start, before, after, c as int);
            assert forall|q: int| 0 <= q < p + 1 implies after[c as int].contains(#[trigger] start_state(r as int, q, c as int)) by {
                if q < p {
                    lemma_extends_grows(before, after, c as int, c as int);
                    lemma_contains_kept(before, after, c as int, c as int, start_state(r as int, q, c as int));
                } else {
                    if !before[c as int].contains(st) {
                        assert(after[c as int][before[c as int].len() as int] == st);
                    }
                }
            }
            assert forall|j: int| start[c as int].len() <= j < after[c as int].len() implies begins(
                #[trigger] after[c as int][j],
                r as int,
                c as int,
            ) by {
                if j < before[c as int].len() {
                    assert(after[c as int][j] == before[c as int][j]);
                } else {
                    assert(after[c as int][j] == st);
                }
            }
        }
        p += 1;
    }
}

/// Complete: for the complete state `s` at column `c`, adds at column `c` each state that
/// waited for its rule at the column where `s` began, past that rule.
fn complete(chart: &mut Chart, registry: &RuleRegistry, toks: Ghost<Seq<Token>>, c: usize, s: &State)
    requires
        registry.wf(),
        registry.chart_wf(chart_states(*old(chart)), toks@),
        c < old(chart).columns@.len(),
        registry.valid_state(*s, c as int),
        registry.is_complete(*s),
    ensures
        same_frame(*old(chart), *final(chart)),
        registry.chart_wf(chart_states(*final(chart)), toks@),
        extends_at(chart_states(*old(chart)), chart_states(*final(chart)), c as int),
        forall|j: int|
            0 <= j < chart_states(*old(chart))[s.start_col as int].len() && registry.waits_for(
                #[trigger] chart_states(*old(chart))[s.start_col as int][j],
                s.rule_id as int,
            ) ==> chart_states(*final(chart))[c as int].contains(advanced(chart_states(*old(chart))[s.start_col as int][j], c as int)),
        forall|j: int|
            chart_states(*old(chart))[c as int].len() <= j < chart_states(*final(chart))[c as int].len() ==> registry.completes(
                #[trigger] chart_states(*final(chart))[c as int][j],
                chart_states(*old(chart))[s.start_col as int],
                s.start_col as int,
                s.rule_id as int,
                c as int,
            ),
{
    proof {
        lemma_complete_starts_before(*registry, *s, c as int);
    }
    let ghost start = chart_states(*chart);
    let ghost frame = *chart;
    let k = s.start_col;
    let ghost origin = start[k as int];
    let m = chart.columns[k].states.len();
    let mut j: usize = 0;
    while j < m
        invariant
            registry.wf(),
            k < c,
            c < chart.columns@.len(),
            m == origin.len(),
            j <= m,
            same_frame(frame, *chart),
            registry.chart_wf(chart_states(*chart), toks@),
            extends_at(start, chart_states(*chart), c as int),
            origin == start[k as int],
            forall|i: int|
                0 <= i < j && registry.waits_for(#[trigger] origin[i], s.rule_id as int) ==> chart_states(
                    *chart,
                )[c as int].contains(advanced(origin[i], c as int)),
            forall|x: int|
                start[c as int].len() <= x < chart_states(*chart)[c as int].len() ==> registry.completes(
                    #[trigger] chart_states(*chart)[c as int][x],
                    origin,
                    k as int,
                    s.rule_id as int,
                    c as int,
                ),
        decreases m - j,
    {
        let ghost before = chart_states(*chart);
        assert(before[k as int] == origin);
        let ps = chart.columns[k].states[j];
        assert(ps == origin[j as int]);
        assert(registry.valid_state(ps, k as int));
        let t = &registry.rules[ps.rule_id].productions[ps.production_index].terms;
        if ps.dot < t.len() {
            match &t[ps.dot] {
                Term::Rule(q) => {
                    if *q == s.rule_id {
                        let next = State::new(ps.rule_id, ps.production_index, ps.dot + 1, ps.start_col, c);
                        assert(next == advanced(ps, c as int));
                        assert(registry.waits_for(ps, s.rule_id as int));
                        add_state(chart, registry, toks, c, next);
                        proof {
                            let after = chart_states(*chart);
                            lemma_extends_trans(start, before, after, c as int);
                            lemma_extends_grows(before, after, c as int, c as int);
                            assert forall|i: int|
                                0 <= i < j + 1 && registry.waits_for(#[trigger] origin[i], s.rule_id as int) implies after[c as int].contains(
                                advanced(origin[i], c as int),
                            ) by {
                                if i < j {
                                    lemma_contains_kept(before, after, c as int, c as int, advanced(origin[i], c as int));
                                } else if !before[c as int].contains(next) {
                                    assert(after[c as int][before[c as int].len() as int] == next);
                                }
                            }
                            assert forall|x: int| start[c as int].len() <= x < after[c as int].len() implies registry.completes(
                                #[trigger] after[c as int][x],
                                origin,
                                k as int,
                                s.rule_id as int,
                                c as int,
                            ) by {
                                if x < before[c as int].len() {
                                    assert(after[c as int][x] == before[c as int][x]);
                                } else {
                                    assert(after[c as int][x] == next);
                                    assert(origin[j as int] == ps);
                                    assert(retreated(next, k as int) == ps);
                                    assert(origin.contains(ps));
                                }
                            }
                        }
                    }
                },
                Term::Word(_) => {},
            }
        }
        j += 1;
    }
}


/// One Earley step for the state `s` at column `c`: predict when it waits for a rule, scan
/// when it waits for a word, complete when it is complete.
fn step(
    chart: &mut Chart,
    registry: &RuleRegistry,
    tokens: &[Token],
    c: usize,
    s: State,
    i: Ghost<int>,
    root: Ghost<int>,
    all: Ghost<bool>,
)
    requires
        registry.wf(),
        registry.chart_wf(chart_states(*old(chart)), tokens@),
        c < old(chart).columns@.len(),
        0 <= i@ < chart_states(*old(chart))[c as int].len(),
        chart_states(*old(chart))[c as int][i@] == s,
    ensures
        same_frame(*old(chart), *final(chart)),
        registry.chart_wf(chart_states(*final(chart)), tokens@),
        grows_from(chart_states(*old(chart)), chart_states(*final(chart)), c as int),
        registry.closed_at(chart_states(*final(chart)), tokens@, c as int, s),
        forall|x: int, j: int|
            (x == c || x == c + 1) && 0 <= x < chart_states(*final(chart)).len() && chart_states(*old(chart))[x].len() <= j
                < chart_states(*final(chart))[x].len() ==> #[trigger] registry.justified(
                chart_states(*final(chart)),
                tokens@,
                root@,
                all@,
                x,
                j,
            ),
{
    proof {
        assert(registry.valid_state(chart_states(*chart)[c as int][i@], c as int));
    }
    let ghost before = chart_states(*chart);
    let t = &registry.rules[s.rule_id].productions[s.production_index].terms;
    assert(t@ == registry.state_terms(s));
    if s.dot < t.len() {
        match &t[s.dot] {
            Term::Rule(r2) => {
                assert(registry.production_wf(registry.terms(s.rule_id as int, s.production_index as int)));
                assert(match t@[s.dot as int] {
                    Term::Rule(q) => q < registry.rules@.len(),
                    Term::Word(_) => true,
                });
                predict(chart, registry, Ghost(tokens@), c, *r2);
                proof {
                    let after = chart_states(*chart);
                    lemma_extends_grows(before, after, c as int, c as int);
                    assert(after[c as int][i@] == s);
                    assert(registry.waits_for(s, *r2 as int));
                    assert forall|x: int, j: int|
                        (x == c || x == c + 1) && 0 <= x < after.len() && before[x].len() <= j < after[x].len() implies #[trigger] registry.justified(
                        after,
                        tokens@,
                        root@,
                        all@,
                        x,
                        j,
                    ) by {
                        if x == c {
                            assert(begins(after[x][j], *r2 as int, c as int));
                            assert(registry.waits_for(after[c as int][i@], *r2 as int));
                            assert(registry.predicted_by(after[x], j, after[x][j].rule_id as int));
                        } else {
                            assert(after[x] == before[x]);
                        }
                    }
                }
            },
            Term::Word(w) => {
                if c < tokens.len() && str_eq(tokens[c].value.as_str(), w.as_str()) {
                    let next = State::new(s.rule_id, s.production_index, s.dot + 1, s.start_col, c + 1);
                    assert(next == advanced(s, c + 1));
                    add_state(chart, registry, Ghost(tokens@), c + 1, next);
                    proof {
                        let after = chart_states(*chart);
                        lemma_extends_grows(before, after, c + 1, c as int);
                        if !before[c + 1].contains(next) {
                            assert(after[c + 1][before[c + 1].len() as int] == next);
                        }
                        assert(retreated(next, c as int) == s);
                        assert(after[c as int] == before[c as int]);
                        assert(after[c as int][i@] == s);
                        assert forall|x: int, j: int|
                            (x == c || x == c + 1) && 0 <= x < after.len() && before[x].len() <= j < after[x].len() implies #[trigger] registry.justified(
                            after,
                            tokens@,
                            root@,
                            all@,
                            x,
                            j,
                        ) by {
                            if x == c + 1 {
                                assert(after[x][j] == next);
                                assert(registry.state_terms(next) == registry.state_terms(s));
                                assert(registry.scanned(after, tokens@, x, next));
                            }
                        }
                    }
                } else {
                    proof {
                        assert(chart_states(*chart) == before);
                    }
                }
            },
        }
    } else {
        complete(chart, registry, Ghost(tokens@), c, &s);
        proof {
            lemma_complete_starts_before(*registry, s, c as int);
            let after = chart_states(*chart);
            lemma_extends_grows(before, after, c as int, c as int);
            let st = s.start_col as int;
            assert(after[st] == before[st]);
            assert(after[c as int][i@] == s);
            assert forall|x: int, j: int|
                (x == c || x == c + 1) && 0 <= x < after.len() && before[x].len() <= j < after[x].len() implies #[trigger] registry.justified(
                after,
                tokens@,
                root@,
                all@,
                x,
                j,
            ) by {
                if x == c {
                    let y = after[x][j];
                    assert(registry.completes(y, before[st], st, s.rule_id as int, c as int));
                    assert(registry.completed_via(after, c as int, after[c as int][i@], y));
                } else {
                    assert(after[x] == before[x]);
                }
            }
            assert forall|j: int| 0 <= j < after[st].len() && registry.waits_for(#[trigger] after[st][j], s.rule_id as int) implies after[c as int].contains(
                advanced(after[st][j], c as int),
            ) by {
                assert(after[st][j] == before[st][j]);
            }
        }
    }
}

/// Builds the Earley chart of `tokens` for rule `root`: each state once at its column, each
/// valid, closed under predict, scan and complete, and each there for a reason that lies
/// before it. Parses start at column 0, or at every column when `all`.
pub fn build_chart(registry: &RuleRegistry, root: usize, tokens: &[Token], all: bool) -> (chart: Chart)
    requires
        registry.wf(),
        root < registry.rules@.len(),
        tokens@.len() < usize::MAX,
    ensures
        chart.tokens@.len() == tokens@.len(),
        forall|i: int| 0 <= i < tokens@.len() ==> (#[trigger] chart.tokens@[i]).value@ == tokens@[i].value@
            && chart.tokens@[i].span == tokens@[i].span && chart.tokens@[i].token_type == tokens@[i].token_type,
        columns_placed(chart, tokens@.len() as int),
        registry.chart_wf(chart_states(chart), tokens@),
        registry.chart_closed(chart_states(chart), tokens@, root as int, all),
        registry.chart_sound(chart_states(chart), tokens@, root as int, all),
{
    let mut chart = Chart::from_slice(tokens);
    let ghost frame = chart;
    let ghost toks = tokens@;
    let n = chart.columns.len();
    proof {
        let cols = chart_states(chart);
        assert forall|x: int| 0 <= x < cols.len() implies (#[trigger] cols[x]).no_duplicates() by {
            assert(cols[x].len() == 0);
        }
    }
    let mut c: usize = 0;
    while c < n
        invariant
            registry.wf(),
            root < registry.rules@.len(),
            n == toks.len() + 1,
            toks == tokens@,
            c <= n,
            same_frame(frame, chart),
            registry.chart_wf(chart_states(chart), toks),
            registry.chart_sound(chart_states(chart), toks, root as int, all),
            forall|x: int| c < x < n ==> (#[trigger] chart_states(chart)[x]).len() == 0,
            forall|x: int| 0 <= x < c && (x == 0 || all) ==> registry.predicted_in(#[trigger] chart_states(chart)[x], root as int, x),
            forall|x: int, j: int|
                0 <= x < c && 0 <= j < chart_states(chart)[x].len() ==> registry.closed_at(
                    chart_states(chart),
                    toks,
                    x,
                    #[trigger] chart_states(chart)[x][j],
                ),
        decreases n - c,
    {
        if c == 0 || all {
            let ghost before = chart_states(chart);
            predict(&mut chart, registry, Ghost(toks), c, root);
            proof {
                let after = chart_states(chart);
                lemma_extends_grows(before, after, c as int, c as int);
                keep_closure(*registry, toks, before, after, c as int, 0);
                lemma_sound_kept(*registry, toks, root as int, all, before, after, c as int);
                assert forall|x: int, j: int| 0 <= x < after.len() && 0 <= j < after[x].len() implies #[trigger] registry.justified(
                    after,
                    toks,
                    root as int,
                    all,
                    x,
                    j,
                ) by {
                    if j >= before[x].len() {
                        assert(x == c);
                        assert(begins(after[x][j], root as int, c as int));
                    }
                }
            }
        }
        let mut i: usize = 0;
        while i < chart.columns[c].states.len()
            invariant
                registry.wf(),
                root < registry.rules@.len(),
                n == toks.len() + 1,
                toks == tokens@,
                c < n,
                same_frame(frame, chart),
                registry.chart_wf(chart_states(chart), toks),
                registry.chart_sound(chart_states(chart), toks, root as int, all),
                forall|x: int| c + 1 < x < n ==> (#[trigger] chart_states(chart)[x]).len() == 0,
                (c == 0 || all) ==> registry.predicted_in(chart_states(chart)[c as int], root as int, c as int),
                forall|x: int| 0 <= x < c && (x == 0 || all) ==> registry.predicted_in(#[trigger] chart_states(chart)[x], root as int, x),
                forall|x: int, j: int|
                    0 <= x < c && 0 <= j < chart_states(chart)[x].len() ==> registry.closed_at(
                        chart_states(chart),
                        toks,
                        x,
                        #[trigger] chart_states(chart)[x][j],
                    ),
                i <= chart_states(chart)[c as int].len(),
                forall|j: int| 0 <= j < i ==> registry.closed_at(chart_states(chart), toks, c as int, #[trigger] chart_states(chart)[c as int][j]),
            decreases registry.state_bound(c as int) - i,
        {
            let ghost before = chart_states(chart);
            let s = chart.columns[c].states[i];
            assert(s == before[c as int][i as int]);
            step(&mut chart, registry, tokens, c, s, Ghost(i as int), Ghost(root as int), Ghost(all));
            proof {
                let after = chart_states(chart);
                keep_closure(*registry, toks, before, after, c as int, i as int);
                lemma_sound_kept(*registry, toks, root as int, all, before, after, c as int);
                assert forall|x: int, j: int| 0 <= x < after.len() && 0 <= j < after[x].len() implies #[trigger] registry.justified(
                    after,
                    toks,
                    root as int,
                    all,
                    x,
                    j,
                ) by {
                    if j >= before[x].len() && x != c && x != c + 1 {
                        assert(after[x] == before[x]);
                    }
                }
                assert(after[c as int][i as int] == s);
                assert forall|x: int| c + 1 < x < n implies (#[trigger] after[x]).len() == 0 by {
                    assert(after[x] == before[x]);
                }
                if c == 0 || all {
                    assert forall|p: int| 0 <= p < registry.prod_count(root as int) implies after[c as int].contains(
                        #[trigger] start_state(root as int, p, c as int),
                    ) by {
                        lemma_contains_kept(before, after, c as int, c as int, start_state(root as int, p, c as int));
                    }
                }
                lemma_column_bound(*registry, after[c as int], c as int);
            }
            i += 1;
        }
        c += 1;
    }
    chart
}

/// After states are added to columns `c` and `c + 1`, what the states of the columns before
/// `c`, and the first `i` states of column `c`, bring in is still there, as are the
/// productions of the root begun at the columns before `c`.
proof fn keep_closure(reg: RuleRegistry, toks: Seq<Token>, a: Seq<Seq<State>>, b: Seq<Seq<State>>, c: int, i: int)
    requires
        reg.wf(),
        grows_from(a, b, c),
        a.len() == toks.len() + 1,
        0 <= c < a.len(),
        0 <= i <= a[c].len(),
        reg.chart_wf(a, toks),
        forall|x: int, j: int| 0 <= x < c && 0 <= j < a[x].len() ==> reg.closed_at(a, toks, x, #[trigger] a[x][j]),
        forall|j: int| 0 <= j < i ==> reg.closed_at(a, toks, c, #[trigger] a[c][j]),
    ensures
        forall|x: int, j: int| 0 <= x < c && 0 <= j < b[x].len() ==> reg.closed_at(b, toks, x, #[trigger] b[x][j]),
        forall|j: int| 0 <= j < i ==> reg.closed_at(b, toks, c, #[trigger] b[c][j]),
        forall|x: int, r: int| 0 <= x < c && reg.predicted_in(a[x], r, x) ==> #[trigger] reg.predicted_in(b[x], r, x),
{
    assert forall|x: int, j: int| 0 <= x < c && 0 <= j < b[x].len() implies reg.closed_at(b, toks, x, #[trigger] b[x][j]) by {
        assert(b[x] == a[x]);
        let s = a[x][j];
        if reg.is_complete(s) {
            lemma_complete_starts_before(reg, s, x);
        }
        lemma_closed_kept(reg, toks, a, b, c, x, s);
    }
    assert forall|j: int| 0 <= j < i implies reg.closed_at(b, toks, c, #[trigger] b[c][j]) by {
        let s = a[c][j];
        assert(b[c][j] == s);
        if reg.is_complete(s) {
            lemma_complete_starts_before(reg, s, c);
        }
        lemma_closed_kept(reg, toks, a, b, c, c, s);
    }
    assert forall|x: int, r: int| 0 <= x < c && reg.predicted_in(a[x], r, x) implies #[trigger] reg.predicted_in(b[x], r, x) by {
        assert(b[x] == a[x]);
    }
}


/// The `(start, stop)` columns of each state.
pub open spec fn ranges_of(states: Seq<State>) -> Seq<(usize, usize)> {
    states.map_values(|s: State| (s.start_col, s.stop_col))
}

/// The values of the tokens from `range.0` up to `range.1`.
pub open spec fn values_in(toks: Seq<Token>, range: (usize, usize)) -> Seq<Seq<char>> {
    toks.subrange(range.0 as int, range.1 as int).map_values(|t: Token| t.value@)
}

/// The characters of each string.
pub open spec fn strings_of(v: Seq<String>) -> Seq<Seq<char>> {
    v.map_values(|x: String| x@)
}

impl RuleRegistry {
    /// `ranges` are the matches of `root` in `toks` that a parse from every column finds, with
    /// overlaps resolved: sorted by start (the longer first), each kept until one starts at
    /// or after its stop, replaced by one that starts inside it and stops later.
    pub open spec fn resolved(&self, toks: Seq<Token>, root: int, ranges: Seq<(usize, usize)>) -> bool {
        exists|cols: Seq<Seq<State>>, sorted: Seq<(usize, usize)>|
            #![trigger self.chart_closed(cols, toks, root, true), ranges_sorted(sorted)]
            {
                &&& self.chart_wf(cols, toks)
                &&& self.chart_closed(cols, toks, root, true)
                &&& self.chart_sound(cols, toks, root, true)
                &&& ranges_sorted(sorted)
                &&& sorted.to_multiset() == ranges_of(self.found(cols, root, true)).to_multiset()
                &&& ranges == greedy_result(sorted)
            }
    }
}

/// The strings of each vector.
pub open spec fn values_of(v: Seq<Vec<String>>) -> Seq<Seq<Seq<char>>> {
    v.map_values(|x: Vec<String>| strings_of(x@))
}

impl RuleRegistry {
    /// `values` are those of the tokens of each match of `root` in `toks`, the tokens of
    /// `text`, found from every position with overlaps resolved, at `ranges`; none where
    /// the tokens are too many to parse.
    pub open spec fn text_found(
        &self,
        text: Seq<char>,
        root: int,
        toks: Seq<Token>,
        ranges: Seq<(usize, usize)>,
        values: Seq<Seq<Seq<char>>>,
    ) -> bool {
        &&& is_tokenization(text, toks)
        &&& toks.len() < usize::MAX ==> {
            &&& self.resolved(toks, root, ranges)
            &&& values.len() == ranges.len()
            &&& forall|i: int| 0 <= i < ranges.len() ==> #[trigger] values[i] == values_in(toks, ranges[i])
        }
        &&& toks.len() >= usize::MAX ==> values.len() == 0
    }

    /// `r` is the range of the first complete state of `root` that spans all of `toks`, the
    /// tokens of `text`, in the closed chart `cols`; none where the tokens are too many to
    /// parse.
    pub open spec fn whole_found(&self, text: Seq<char>, root: int, toks: Seq<Token>, cols: Seq<Seq<State>>, r: Option<(usize, usize)>) -> bool {
        &&& is_tokenization(text, toks)
        &&& toks.len() < usize::MAX ==> {
            &&& self.chart_wf(cols, toks)
            &&& self.chart_closed(cols, toks, root, false)
            &&& self.chart_sound(cols, toks, root, false)
            &&& r == if self.found(cols, root, false).len() > 0 {
                Some(ranges_of(self.found(cols, root, false))[0])
            } else {
                None::<(usize, usize)>
            }
        }
        &&& toks.len() >= usize::MAX ==> r is None
    }
}

proof fn lemma_flatten_member(g: spec_fn(int) -> Seq<State>, k: nat, x: State)
    requires
        Seq::new(k, g).flatten().contains(x),
    ensures
        exists|c: int| 0 <= c < k && (#[trigger] g(c)).contains(x),
    decreases k,
{
    if k == 0 {
        assert(Seq::new(0, g).flatten() =~= Seq::<State>::empty());
    } else {
        let prev = Seq::new((k - 1) as nat, g);
        assert(Seq::new(k, g) =~= prev.push(g(k - 1)));
        prev.lemma_flatten_push(g(k - 1));
        let f = prev.flatten();
        if f.contains(x) {
            lemma_flatten_member(g, (k - 1) as nat, x);
        } else {
            let all = f + g(k - 1);
            let j = choose|j: int| 0 <= j < all.len() && all[j] == x;
            assert(g(k - 1)[j - f.len()] == x);
            assert(g(k - 1).contains(x));
        }
    }
}

/// Every state a parse found is a valid state of its column.
proof fn lemma_found_valid(reg: RuleRegistry, cols: Seq<Seq<State>>, toks: Seq<Token>, root: int, all: bool, x: State)
    requires
        reg.chart_wf(cols, toks),
        reg.found(cols, root, all).contains(x),
    ensures
        exists|c: int| 0 <= c < cols.len() && reg.valid_state(x, c),
{
    let f = reg.finished(root);
    if all {
        let g = |c: int| cols[c].filter(f);
        assert(reg.found(cols, root, all) == Seq::new(cols.len(), g).flatten());
        lemma_flatten_member(g, cols.len(), x);
        let c = choose|c: int| 0 <= c < cols.len() && (#[trigger] g(c)).contains(x);
        cols[c].lemma_filter_contains_rev(f, x);
        let j = choose|j: int| 0 <= j < cols[c].len() && cols[c][j] == x;
        assert(reg.valid_state(cols[c][j], c));
    } else {
        let c = cols.len() - 1;
        assert(cols.last() == cols[c]);
        cols[c].lemma_filter_contains_rev(f, x);
        let j = choose|j: int| 0 <= j < cols[c].len() && cols[c][j] == x;
        assert(reg.valid_state(cols[c][j], c));
    }
}

/// A parser of one rule of a registry.
pub struct Parser<'r> {
    registry: &'r RuleRegistry,
    root_id: usize,
}

impl<'r> Parser<'r> {
    /// The registry of rules.
    pub closed spec fn rules(&self) -> RuleRegistry {
        *self.registry
    }

    /// The rule parsed.
    pub closed spec fn root(&self) -> int {
        self.root_id as int
    }

    /// The registry is well formed and holds the rule parsed.
    pub open spec fn wf(&self) -> bool {
        &&& self.rules().wf()
        &&& 0 <= self.root() < self.rules().rules@.len()
    }

    /// A parser of rule `root_id` of `registry`.
    pub fn new(registry: &'r RuleRegistry, root_id: usize) -> (r: Parser<'r>)
        ensures
            r.rules() == *registry,
            r.root() == root_id as int,
    {
        Parser { registry, root_id }
    }

    /// The Earley chart of `tokens` (see [`build_chart`]).
    pub fn chart(&self, tokens: &[Token], all: bool) -> (r: Chart)
        requires
            self.wf(),
            tokens@.len() < usize::MAX,
        ensures
            r.tokens@.len() == tokens@.len(),
            forall|i: int| 0 <= i < tokens@.len() ==> (#[trigger] r.tokens@[i]).value@ == tokens@[i].value@,
            columns_placed(r, tokens@.len() as int),
            self.rules().chart_wf(chart_states(r), tokens@),
            self.rules().chart_closed(chart_states(r), tokens@, self.root(), all),
            self.rules().chart_sound(chart_states(r), tokens@, self.root(), all),
    {
        build_chart(self.registry, self.root_id, tokens, all)
    }

    /// The complete states of the rule in a chart: those of every column when `all`, else
    /// those of the last column.
    pub fn collect_states(&self, chart: &Chart, all: bool) -> (r: Vec<State>)
        requires
            self.wf(),
            chart.columns@.len() > 0,
            forall|c: int, j: int|
                0 <= c < chart_states(*chart).len() && 0 <= j < chart_states(*chart)[c].len() ==> self.rules().valid_state(
                    #[trigger] chart_states(*chart)[c][j],
                    c,
                ),
        ensures
            r@ == self.rules().found(chart_states(*chart), self.root(), all),
    {
        let ghost cols = chart_states(*chart);
        assert forall|c: int, j: int|
            0 <= c < chart.columns@.len() && 0 <= j < chart.columns@[c].states@.len()
                && (#[trigger] chart.columns@[c].states@[j]).rule_id == self.root_id implies self.registry.names_production(
            chart.columns@[c].states@[j],
        ) by {
            assert(cols[c][j] == chart.columns@[c].states@[j]);
        }
        if all {
            chart.matches(self.root_id, self.registry)
        } else {
            let last = chart.last_column();
            assert(last.states@ == cols.last());
            last.matches(self.root_id, self.registry)
        }
    }

    /// The complete states of the rule that a parse of `tokens` finds: those of every column
    /// when `all`, else those that span all tokens.
    pub fn matches(&self, tokens: &[Token], all: bool) -> (r: Vec<State>)
        requires
            self.wf(),
            tokens@.len() < usize::MAX,
        ensures
            exists|cols: Seq<Seq<State>>|
                #![trigger self.rules().chart_closed(cols, tokens@, self.root(), all)]
                {
                    &&& self.rules().chart_wf(cols, tokens@)
                    &&& self.rules().chart_closed(cols, tokens@, self.root(), all)
                    &&& self.rules().chart_sound(cols, tokens@, self.root(), all)
                    &&& r@ == self.rules().found(cols, self.root(), all)
                },
    {
        let chart = self.chart(tokens, all);
        let r = self.collect_states(&chart, all);
        assert(self.rules().chart_closed(chart_states(chart), tokens@, self.root(), all));
        r
    }

    /// The `(start, stop)` token ranges of the matches found from every column, with
    /// overlaps resolved (see [`RuleRegistry::resolved`]).
    pub fn findall_ranges(&self, tokens: &[Token]) -> (r: Vec<(usize, usize)>)
        requires
            self.wf(),
            tokens@.len() < usize::MAX,
        ensures
            self.rules().resolved(tokens@, self.root(), r@),
            forall|i: int| 0 <= i < r@.len() ==> (#[trigger] r@[i]).0 <= r@[i].1 <= tokens@.len(),
    {
        let chart = self.chart(tokens, true);
        let ghost cols = chart_states(chart);
        let states = self.collect_states(&chart, true);
        let mut spans: Vec<(usize, usize)> = Vec::new();
        let mut i: usize = 0;
        while i < states.len()
            invariant
                i <= states@.len(),
                spans@ == ranges_of(states@.take(i as int)),
                forall|k: int| 0 <= k < spans@.len() ==> (#[trigger] spans@[k]).0 <= spans@[k].1 <= tokens@.len(),
                states@ == self.rules().found(cols, self.root(), true),
                self.rules().chart_wf(cols, tokens@),
            decreases states@.len() - i,
        {
            let st = states[i];
            proof {
                assert(states@.contains(st));
                lemma_found_valid(self.rules(), cols, tokens@, self.root(), true, st);
            }
            spans.push((st.start_col, st.stop_col));
            i += 1;
            assert(ranges_of(states@.take(i as int)) =~= ranges_of(states@.take((i - 1) as int)).push((st.start_col, st.stop_col)));
        }
        assert(states@.take(states@.len() as int) =~= states@);
        let ghost all_spans = spans@;
        let r = resolve_spans(spans);
        proof {
            let sorted = choose|sorted: Seq<(usize, usize)>| {
                &&& ranges_sorted(sorted)
                &&& sorted.to_multiset() == all_spans.to_multiset()
                &&& r@ == greedy_result(sorted)
            };
            assert(self.rules().chart_closed(cols, tokens@, self.root(), true) && ranges_sorted(sorted));
            crate::parser::match_result::lemma_greedy_from(sorted);
            assert forall|i: int| 0 <= i < r@.len() implies (#[trigger] r@[i]).0 <= r@[i].1 <= tokens@.len() by {
                let x = r@[i];
                assert(sorted.contains(x));
                vstd::seq_lib::to_multiset_contains(sorted, x);
                vstd::seq_lib::to_multiset_contains(all_spans, x);
                let k = choose|k: int| 0 <= k < all_spans.len() && all_spans[k] == x;
                assert(all_spans[k].0 <= all_spans[k].1 <= tokens@.len());
            }
        }
        r
    }

    /// The values of the tokens of each match of the rule in `text`, found from every
    /// position, with overlaps resolved.
    pub fn findall_text(&self, text: &str) -> (r: Vec<Vec<String>>)
        requires
            self.wf(),
        ensures
            exists|toks: Seq<Token>, ranges: Seq<(usize, usize)>| #[trigger] self.rules().text_found(
                text@,
                self.root(),
                toks,
                ranges,
                values_of(r@),
            ),
    {
        let tokens = Tokenizer::new().tokenize(text);
        let mut out: Vec<Vec<String>> = Vec::new();
        if tokens.len() == usize::MAX {
            proof {
                assert(values_of(out@) =~= Seq::empty());
                assert(self.rules().text_found(text@, self.root(), tokens@, Seq::empty(), values_of(out@)));
            }
            return out;
        }
        let ranges = self.findall_ranges(tokens.as_slice());
        let mut i: usize = 0;
        while i < ranges.len()
            invariant
                i <= ranges@.len(),
                out@.len() == i,
                forall|k: int| 0 <= k < ranges@.len() ==> (#[trigger] ranges@[k]).0 <= ranges@[k].1 <= tokens@.len(),
                forall|k: int| 0 <= k < i ==> strings_of((#[trigger] out@[k])@) == values_in(tokens@, ranges@[k]),
            decreases ranges@.len() - i,
        {
            let (a, b) = ranges[i];
            let mut values: Vec<String> = Vec::new();
            let mut k: usize = a;
            while k < b
                invariant
                    a <= k <= b,
                    b <= tokens@.len(),
                    strings_of(values@) == values_in(tokens@, (a, k)),
                decreases b - k,
            {
                values.push(String::from_str(tokens[k].value.as_str()));
                k += 1;
                assert(values_in(tokens@, (a, k)) =~= values_in(tokens@, (a, (k - 1) as usize)).push(tokens@[k - 1].value@));
                assert(strings_of(values@) =~= strings_of(values@.drop_last()).push(values@.last()@));
            }
            out.push(values);
            i += 1;
        }
        proof {
            assert forall|k: int| 0 <= k < ranges@.len() implies #[trigger] values_of(out@)[k] == values_in(tokens@, ranges@[k]) by {
                assert(values_of(out@)[k] == strings_of(out@[k]@));
            }
            assert(self.rules().text_found(text@, self.root(), tokens@, ranges@, values_of(out@)));
        }
        out
    }

    /// The values of the tokens of the first match of the rule in `text` (see
    /// [`Parser::findall_text`]).
    pub fn find_text(&self, text: &str) -> (r: Option<Vec<String>>)
        requires
            self.wf(),
        ensures
            exists|toks: Seq<Token>, ranges: Seq<(usize, usize)>, all: Seq<Seq<Seq<char>>>|
                #![trigger self.rules().text_found(text@, self.root(), toks, ranges, all)]
                {
                    &&& self.rules().text_found(text@, self.root(), toks, ranges, all)
                    &&& (r is Some <==> all.len() > 0)
                    &&& r is Some ==> strings_of(r->0@) == all[0]
                },
    {
        let mut all = self.findall_text(text);
        let ghost found = all@;
        proof {
            let (toks, ranges) = choose|toks: Seq<Token>, ranges: Seq<(usize, usize)>| #[trigger] self.rules().text_found(
                text@,
                self.root(),
                toks,
                ranges,
                values_of(found),
            );
            assert(self.rules().text_found(text@, self.root(), toks, ranges, values_of(found)));
        }
        if all.len() > 0 {
            let first = all.remove(0);
            assert(strings_of(first@) == values_of(found)[0]);
            Some(first)
        } else {
            None
        }
    }

    /// The range of the first match of the rule that spans all tokens of `text`, if any.
    pub fn whole_match(&self, text: &str) -> (r: Option<(usize, usize)>)
        requires
            self.wf(),
        ensures
            exists|toks: Seq<Token>, cols: Seq<Seq<State>>| #[trigger] self.rules().whole_found(text@, self.root(), toks, cols, r),
    {
        let tokens = Tokenizer::new().tokenize(text);
        if tokens.len() == usize::MAX {
            proof {
                assert(self.rules().whole_found(text@, self.root(), tokens@, Seq::empty(), None));
            }
            return None;
        }
        let chart = self.chart(tokens.as_slice(), false);
        let states = self.collect_states(&chart, false);
        let r = if states.len() > 0 {
            Some((states[0].start_col, states[0].stop_col))
        } else {
            None
        };
        proof {
            assert(self.rules().whole_found(text@, self.root(), tokens@, chart_states(chart), r));
        }
        r
    }
}


/// The matches that a parse from every position finds, with overlaps resolved, do not
/// overlap and come in order: each stops at or before the start of the next.
pub proof fn law_resolved_matches_disjoint(reg: RuleRegistry, toks: Seq<Token>, root: int, ranges: Seq<(usize, usize)>)
    requires
        reg.resolved(toks, root, ranges),
    ensures
        forall|i: int| 0 <= i < ranges.len() - 1 ==> #[trigger] ranges[i].1 <= ranges[i + 1].0,
{
    let (cols, sorted) = choose|cols: Seq<Seq<State>>, sorted: Seq<(usize, usize)>| {
        &&& reg.chart_wf(cols, toks)
        &&& reg.chart_closed(cols, toks, root, true)
        &&& reg.chart_sound(cols, toks, root, true)
        &&& ranges_sorted(sorted)
        &&& sorted.to_multiset() == ranges_of(reg.found(cols, root, true)).to_multiset()
        &&& ranges == greedy_result(sorted)
    };
    law_resolved_ranges_do_not_overlap(sorted);
}

} // verus!
