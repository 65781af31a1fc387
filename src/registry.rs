//! The breakpoint registry: for each file, the statement spans that pause execution.

use vstd::prelude::*;
use crate::model::{Span, StatementStart};

verus! {

/// The span of the statement that starts on 0-based `line`; where several do,
/// the last of them in `stmts`.
pub open spec fn span_at_line(stmts: Seq<StatementStart>, line: int) -> Option<Span>
    decreases stmts.len(),
{
    if stmts.len() == 0 {
        None
    } else if stmts.last().line == line {
        Some(stmts.last().span)
    } else {
        span_at_line(stmts.drop_last(), line)
    }
}

/// The span that a requested 1-based line selects, if a statement starts there.
pub open spec fn requested_span(stmts: Seq<StatementStart>, requested: i64) -> Option<Span> {
    span_at_line(stmts, requested - 1)
}

/// The spans selected by any of the requested lines.
pub open spec fn matched_spans(stmts: Seq<StatementStart>, lines: Seq<i64>) -> Set<Span> {
    Set::new(|s: Span| exists|k: int| 0 <= k < lines.len() && requested_span(stmts, lines[k]) == Some(s))
}

/// One verified flag per requested line: whether the line selects a statement.
/// Where the file did not parse (`None`), no line is verified.
pub open spec fn verified_flags(stmts: Option<Seq<StatementStart>>, lines: Seq<i64>) -> Seq<bool> {
    match stmts {
        Some(st) => lines.map_values(|l: i64| requested_span(st, l) is Some),
        None => lines.map_values(|l: i64| false),
    }
}

/// The registry after a request for `file`: an empty request or a file that did
/// not parse removes the file's entry; otherwise the entry becomes the matched spans.
pub open spec fn after_request(
    m: Map<Seq<char>, Set<Span>>,
    file: Seq<char>,
    stmts: Option<Seq<StatementStart>>,
    lines: Seq<i64>,
) -> Map<Seq<char>, Set<Span>> {
    match stmts {
        Some(st) if lines.len() > 0 => m.insert(file, matched_spans(st, lines)),
        _ => m.remove(file),
    }
}

/// Whether execution pauses before the statement at `span` of `file`.
pub open spec fn breaks_at(m: Map<Seq<char>, Set<Span>>, file: Seq<char>, span: Span) -> bool {
    m.contains_key(file) && m[file].contains(span)
}

/// The statement starts of a file, as the backend hands them on, if it parsed.
pub open spec fn statements_view(stmts: Option<Vec<StatementStart>>) -> Option<Seq<StatementStart>> {
    match stmts {
        Some(v) => Some(v@),
        None => None,
    }
}

/// The spans of one file.
pub struct FileBreakpoints {
    pub file: String,
    pub spans: Vec<Span>,
}

/// For each file with breakpoints, the set of statement spans that pause execution.
pub struct Registry {
    entries: Vec<FileBreakpoints>,
    model: Ghost<Map<Seq<char>, Set<Span>>>,
}

impl View for Registry {
    type V = Map<Seq<char>, Set<Span>>;

    closed spec fn view(&self) -> Self::V {
        self.model@
    }
}

impl Registry {
    /// Each file has one entry, and the entries are what the view says.
    pub closed spec fn wf(&self) -> bool {
        &&& forall|i: int, j: int|
            0 <= i < j < self.entries.len() ==> self.entries[i].file@ != self.entries[j].file@
        &&& forall|i: int|
            0 <= i < self.entries.len() ==> {
                &&& #[trigger] self.model@.contains_key(self.entries[i].file@)
                &&& self.model@[self.entries[i].file@] == self.entries[i].spans@.to_set()
            }
        &&& forall|f: Seq<char>|
            #[trigger] self.model@.contains_key(f) ==> exists|i: int|
                0 <= i < self.entries.len() && self.entries[i].file@ == f
    }

    /// A registry with no breakpoints.
    pub fn new() -> (r: Registry)
        ensures
            r.wf(),
            r@ == Map::<Seq<char>, Set<Span>>::empty(),
    {
        Registry { entries: Vec::new(), model: Ghost(Map::empty()) }
    }

    fn find(&self, file: &String) -> (r: Option<usize>)
        ensures
            match r {
                Some(i) => i < self.entries.len() && self.entries[i as int].file@ == file@,
                None => forall|i: int| 0 <= i < self.entries.len() ==> self.entries[i].file@ != file@,
            },
    {
        let mut i: usize = 0;
        while i < self.entries.len()
            invariant
                i <= self.entries.len(),
                forall|j: int| 0 <= j < i ==> self.entries[j].file@ != file@,
            decreases self.entries.len() - i,
        {
            if self.entries[i].file == *file {
                return Some(i);
            }
            i = i + 1;
        }
        None
    }

    /// Removes every breakpoint of `file`.
    pub fn clear_file(&mut self, file: &String)
        requires
            old(self).wf(),
        ensures
            final(self).wf(),
            final(self)@ == old(self)@.remove(file@),
    {
        match self.find(file) {
            Some(i) => {
                let ghost pre = self.entries@;
                self.entries.remove(i);
                self.model = Ghost(self.model@.remove(file@));
                assert forall|a: int, b: int|
                    0 <= a < b < self.entries.len() implies self.entries[a].file@
                        != self.entries[b].file@ by {
                    let pa = if a < i { a } else { a + 1 };
                    let pb = if b < i { b } else { b + 1 };
                    assert(self.entries[a] == pre[pa]);
                    assert(self.entries[b] == pre[pb]);
                }
                assert forall|a: int| 0 <= a < self.entries.len() implies {
                    &&& #[trigger] self.model@.contains_key(self.entries[a].file@)
                    &&& self.model@[self.entries[a].file@] == self.entries[a].spans@.to_set()
                } by {
                    let pa = if a < i { a } else { a + 1 };
                    assert(self.entries[a] == pre[pa]);
                    assert(old(self).model@.contains_key(old(self).entries[pa].file@));
                    if pa < i {
                        assert(pre[pa].file@ != pre[i as int].file@);
                    } else {
                        assert(pre[i as int].file@ != pre[pa].file@);
                    }
                }
                assert forall|f: Seq<char>| #[trigger] self.model@.contains_key(f) implies exists|a: int|
                    0 <= a < self.entries.len() && self.entries[a].file@ == f by {
                    let pa = choose|p: int| 0 <= p < pre.len() && pre[p].file@ == f;
                    let a = if pa < i { pa } else { pa - 1 };
                    assert(self.entries[a] == pre[pa]);
                }
            },
            None => {
                self.model = Ghost(self.model@.remove(file@));
                assert(self.model@ =~= old(self)@.remove(file@));
            },
        }
    }

    /// Makes `spans` the breakpoints of `file`, in place of any it had.
    pub fn replace_file(&mut self, file: String, spans: Vec<Span>)
        requires
            old(self).wf(),
        ensures
            final(self).wf(),
            final(self)@ == old(self)@.insert(file@, spans@.to_set()),
    {
        let ghost key = file@;
        let ghost set = spans@.to_set();
        match self.find(&file) {
            Some(i) => {
                let ghost pre = self.entries@;
                self.entries.set(i, FileBreakpoints { file, spans });
                self.model = Ghost(self.model@.insert(key, set));
                assert forall|a: int, b: int|
                    0 <= a < b < self.entries.len() implies self.entries[a].file@
                        != self.entries[b].file@ by {
                    assert(pre[a].file@ != pre[b].file@);
                    if a != i {
                        assert(self.entries[a] == pre[a]);
                    }
                    if b != i {
                        assert(self.entries[b] == pre[b]);
                    }
                }
                assert forall|a: int| 0 <= a < self.entries.len() implies {
                    &&& #[trigger] self.model@.contains_key(self.entries[a].file@)
                    &&& self.model@[self.entries[a].file@] == self.entries[a].spans@.to_set()
                } by {
                    if a != i {
                        assert(self.entries[a] == pre[a]);
                        if a < i {
                            assert(pre[a].file@ != pre[i as int].file@);
                        } else {
                            assert(pre[i as int].file@ != pre[a].file@);
                        }
                    }
                }
                assert forall|f: Seq<char>| #[trigger] self.model@.contains_key(f) implies exists|a: int|
                    0 <= a < self.entries.len() && self.entries[a].file@ == f by {
                    if f != key {
                        let pa = choose|p: int| 0 <= p < pre.len() && pre[p].file@ == f;
                        assert(self.entries[pa] == pre[pa]);
                    } else {
                        assert(self.entries[i as int].file@ == f);
                    }
                }
            },
            None => {
                let ghost pre = self.entries@;
                self.entries.push(FileBreakpoints { file, spans });
                self.model = Ghost(self.model@.insert(key, set));
                assert forall|a: int| 0 <= a < self.entries.len() implies {
                    &&& #[trigger] self.model@.contains_key(self.entries[a].file@)
                    &&& self.model@[self.entries[a].file@] == self.entries[a].spans@.to_set()
                } by {
                    if a < pre.len() {
                        assert(self.entries[a] == pre[a]);
                    }
                }
                assert forall|f: Seq<char>| #[trigger] self.model@.contains_key(f) implies exists|a: int|
                    0 <= a < self.entries.len() && self.entries[a].file@ == f by {
                    if f != key {
                        let pa = choose|p: int| 0 <= p < pre.len() && pre[p].file@ == f;
                        assert(self.entries[pa] == pre[pa]);
                    } else {
                        assert(self.entries[pre.len() as int].file@ == f);
                    }
                }
            },
        }
    }

    /// Whether execution pauses before the statement at `span` of `file`.
    pub fn should_break(&self, file: &String, span: &Span) -> (r: bool)
        requires
            self.wf(),
        ensures
            r == breaks_at(self@, file@, *span),
    {
        match self.find(file) {
            Some(i) => {
                let spans = &self.entries[i].spans;
                assert(self.model@.contains_key(self.entries[i as int].file@));
                let mut k: usize = 0;
                while k < spans.len()
                    invariant
                        k <= spans.len(),
                        self@.contains_key(file@),
                        self@[file@] == spans@.to_set(),
                        forall|j: int| 0 <= j < k ==> spans[j] != *span,
                    decreases spans.len() - k,
                {
                    if spans[k] == *span {
                        assert(spans@.to_set().contains(*span)) by {
                            assert(spans@.contains(*span));
                        }
                        return true;
                    }
                    k = k + 1;
                }
                assert(!spans@.to_set().contains(*span));
                false
            },
            None => {
                assert(!self@.contains_key(file@)) by {
                    if self@.contains_key(file@) {
                        let a = choose|a: int| 0 <= a < self.entries.len() && self.entries[a].file@ == file@;
                    }
                }
                false
            },
        }
    }
}

/// The span that a requested 1-based line selects: the statement starting on
/// the line before it, the last one where several start there.
pub fn span_for_request(stmts: &Vec<StatementStart>, requested: i64) -> (r: Option<Span>)
    ensures
        r == requested_span(stmts@, requested),
{
    let mut found: Option<Span> = None;
    let mut j: usize = 0;
    while j < stmts.len()
        invariant
            j <= stmts.len(),
            found == span_at_line(stmts@.take(j as int), requested - 1),
        decreases stmts.len() - j,
    {
        assert(stmts@.take(j + 1).drop_last() == stmts@.take(j as int));
        if requested >= 1 && stmts[j].line as u64 == (requested - 1) as u64 {
            found = Some(stmts[j].span);
        }
        j = j + 1;
    }
    assert(stmts@.take(stmts.len() as int) == stmts@);
    found
}

impl Registry {
    /// Handles a breakpoint request for `file`: `lines` are the requested 1-based
    /// lines and `stmts` the statement starts of the freshly parsed file, `None`
    /// where it did not parse. Returns one verified flag per requested line, in
    /// order, and replaces the file's breakpoints with the matched spans.
    pub fn set_breakpoints(
        &mut self,
        file: String,
        lines: &Vec<i64>,
        stmts: &Option<Vec<StatementStart>>,
    ) -> (r: Vec<bool>)
        requires
            old(self).wf(),
        ensures
            final(self).wf(),
            final(self)@ == after_request(old(self)@, file@, statements_view(*stmts), lines@),
            r@ == verified_flags(statements_view(*stmts), lines@),
    {
        let mut flags: Vec<bool> = Vec::new();
        if lines.len() == 0 {
            self.clear_file(&file);
            assert(flags@ =~= verified_flags(statements_view(*stmts), lines@));
            return flags;
        }
        match stmts {
            None => {
                self.clear_file(&file);
                let mut k: usize = 0;
                while k < lines.len()
                    invariant
                        k <= lines.len(),
                        flags@ =~= lines@.take(k as int).map_values(|l: i64| false),
                    decreases lines.len() - k,
                {
                    flags.push(false);
                    k = k + 1;
                    assert(flags@ =~= lines@.take(k as int).map_values(|l: i64| false));
                }
                assert(lines@.take(lines.len() as int) == lines@);
                flags
            },
            Some(st) => {
                let mut spans: Vec<Span> = Vec::new();
                let mut k: usize = 0;
                while k < lines.len()
                    invariant
                        k <= lines.len(),
                        flags@ =~= lines@.take(k as int).map_values(
                            |l: i64| requested_span(st@, l) is Some,
                        ),
                        forall|s: Span|
                            spans@.contains(s) <==> exists|q: int|
                                0 <= q < k && requested_span(st@, lines@[q]) == Some(s),
                    decreases lines.len() - k,
                {
                    let ghost prev = spans@;
                    let m = span_for_request(st, lines[k]);
                    match m {
                        Some(sp) => {
                            flags.push(true);
                            spans.push(sp);
                        },
                        None => {
                            flags.push(false);
                        },
                    }
                    assert forall|s: Span|
                        spans@.contains(s) <==> exists|q: int|
                            0 <= q < k + 1 && requested_span(st@, lines@[q]) == Some(s) by {
                        if exists|q: int| 0 <= q < k + 1 && requested_span(st@, lines@[q]) == Some(s) {
                            let q = choose|q: int| 0 <= q < k + 1 && requested_span(st@, lines@[q]) == Some(s);
                            if q < k {
                                assert(prev.contains(s));
                                let w = choose|w: int| 0 <= w < prev.len() && prev[w] == s;
                                assert(spans@[w] == s);
                            } else {
                                assert(spans@[spans@.len() - 1] == s);
                            }
                        }
                        if spans@.contains(s) {
                            let w = choose|w: int| 0 <= w < spans@.len() && spans@[w] == s;
                            if w < prev.len() {
                                assert(prev[w] == s);
                                assert(prev.contains(s));
                            } else {
                                assert(requested_span(st@, lines@[k as int]) == Some(s));
                            }
                        }
                    }
                    k = k + 1;
                    assert(flags@ =~= lines@.take(k as int).map_values(
                        |l: i64| requested_span(st@, l) is Some,
                    ));
                }
                assert(lines@.take(lines.len() as int) == lines@);
                assert(spans@.to_set() =~= matched_spans(st@, lines@));
                self.replace_file(file, spans);
                flags
            },
        }
    }
}

/// After a request for a file that parsed with at least one requested line, a
/// statement of that file pauses execution exactly when some requested line
/// selects it, and a line's flag is set exactly when it selects a statement.
pub proof fn lemma_request_sets_matching_lines(
    m: Map<Seq<char>, Set<Span>>,
    file: Seq<char>,
    stmts: Seq<StatementStart>,
    lines: Seq<i64>,
)
    requires
        lines.len() > 0,
    ensures
        forall|s: Span|
            breaks_at(after_request(m, file, Some(stmts), lines), file, s) <==> exists|k: int|
                0 <= k < lines.len() && requested_span(stmts, lines[k]) == Some(s),
        verified_flags(Some(stmts), lines).len() == lines.len(),
        forall|k: int|
            0 <= k < lines.len() ==> (verified_flags(Some(stmts), lines)[k] <==> requested_span(
                stmts,
                lines[k],
            ) is Some),
{
}

/// An empty request clears every breakpoint of the file and verifies nothing;
/// other files keep theirs.
pub proof fn lemma_empty_request_clears(
    m: Map<Seq<char>, Set<Span>>,
    file: Seq<char>,
    stmts: Option<Seq<StatementStart>>,
)
    ensures
        forall|s: Span| !breaks_at(after_request(m, file, stmts, Seq::<i64>::empty()), file, s),
        forall|g: Seq<char>, s: Span|
            g != file ==> (breaks_at(after_request(m, file, stmts, Seq::<i64>::empty()), g, s)
                <==> breaks_at(m, g, s)),
        verified_flags(stmts, Seq::<i64>::empty()).len() == 0,
{
}

/// A request for a file that does not parse verifies none of its lines and
/// clears every breakpoint of the file.
pub proof fn lemma_unparsed_file_clears(m: Map<Seq<char>, Set<Span>>, file: Seq<char>, lines: Seq<i64>)
    ensures
        forall|s: Span| !breaks_at(after_request(m, file, None, lines), file, s),
        verified_flags(None, lines).len() == lines.len(),
        forall|k: int| 0 <= k < lines.len() ==> !verified_flags(None, lines)[k],
{
}

} // verus!
