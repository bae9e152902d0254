use vstd::prelude::*;

use vstd::utf8::valid_utf8;

use crate::config::{selected_of, Config};
use crate::count::{chars_of, count, count_outcome, lines_of, words_of, ReadFailure};
use crate::record::FileInfo;

verus! {

broadcast use {vstd::seq_lib::group_to_multiset_ensures, vstd::multiset::group_multiset_axioms};

/// Four counts as unbounded numbers.
pub ghost struct Totals {
    pub lines: nat,
    pub words: nat,
    pub bytes: nat,
    pub chars: nat,
}

/// The counts of a record as unbounded numbers.
pub open spec fn totals_of(i: FileInfo) -> Totals {
    Totals {
        lines: i.num_lines as nat,
        words: i.num_words as nat,
        bytes: i.num_bytes as nat,
        chars: i.num_chars as nat,
    }
}

/// Field-wise sum.
pub open spec fn plus(a: Totals, b: Totals) -> Totals {
    Totals {
        lines: a.lines + b.lines,
        words: a.words + b.words,
        bytes: a.bytes + b.bytes,
        chars: a.chars + b.chars,
    }
}

/// What one source adds to the total: its counts if it was counted, nothing
/// if it could not be opened.
pub open spec fn contribution(o: Option<FileInfo>) -> Totals {
    match o {
        Some(i) => totals_of(i),
        None => Totals { lines: 0, words: 0, bytes: 0, chars: 0 },
    }
}

/// The state of a run: the running total, how many sources were counted,
/// and whether any source could not be opened.
pub ghost struct TallyView {
    pub total: Totals,
    pub counted: nat,
    pub any_unavailable: bool,
}

/// The state before any source.
pub open spec fn empty_tally() -> TallyView {
    TallyView {
        total: Totals { lines: 0, words: 0, bytes: 0, chars: 0 },
        counted: 0,
        any_unavailable: false,
    }
}

/// The state after one more source, given its counts, or `None` when it
/// could not be opened.
pub open spec fn step(t: TallyView, o: Option<FileInfo>) -> TallyView {
    TallyView {
        total: plus(t.total, contribution(o)),
        counted: t.counted + if o is Some { 1nat } else { 0nat },
        any_unavailable: t.any_unavailable || o is None,
    }
}

/// The state after the sources of `s`, in order.
pub open spec fn tally_of(s: Seq<Option<FileInfo>>) -> TallyView
    decreases s.len(),
{
    if s.len() == 0 {
        empty_tally()
    } else {
        step(tally_of(s.drop_last()), s.last())
    }
}

/// The running state of a run over several sources.
pub struct Tally {
    total: FileInfo,
    counted: usize,
    any_unavailable: bool,
}

impl View for Tally {
    type V = TallyView;

    closed spec fn view(&self) -> TallyView {
        TallyView {
            total: totals_of(self.total),
            counted: self.counted as nat,
            any_unavailable: self.any_unavailable,
        }
    }
}

/// True when a counted source with `info` can be added to `t` without
/// overflow.
pub open spec fn fits(t: TallyView, info: FileInfo) -> bool {
    &&& t.total.lines + info.num_lines <= usize::MAX
    &&& t.total.words + info.num_words <= usize::MAX
    &&& t.total.bytes + info.num_bytes <= usize::MAX
    &&& t.total.chars + info.num_chars <= usize::MAX
    &&& t.counted < usize::MAX
}

/// The record that holds the counts of content `c`.
pub open spec fn info_of(c: Seq<u8>) -> FileInfo {
    FileInfo {
        num_lines: lines_of(c) as usize,
        num_words: words_of(c) as usize,
        num_bytes: c.len() as usize,
        num_chars: chars_of(c) as usize,
    }
}

/// Why a run stops before its last source.
#[derive(Debug, Clone, Copy, PartialEq, Eq, Structural)]
pub enum RunError {
    /// An opened source could not be counted.
    Read(ReadFailure),
    /// The running total no longer fits in the count type.
    Overflow,
}

impl Tally {
    /// The state before any source.
    pub fn new() -> (r: Tally)
        ensures
            r@ == empty_tally(),
    {
        Tally { total: FileInfo::zero(), counted: 0, any_unavailable: false }
    }

    /// Whether a source with counts `info` can be recorded.
    pub fn can_record(&self, info: &FileInfo) -> (r: bool)
        ensures
            r == fits(self@, *info),
    {
        self.total.can_add(info) && self.counted < usize::MAX
    }

    /// Records a source that was opened and counted.
    pub fn record_counted(&mut self, info: &FileInfo)
        requires
            fits(old(self)@, *info),
        ensures
            final(self)@ == step(old(self)@, Some(*info)),
    {
        self.total = self.total.add(info);
        self.counted = self.counted + 1;
    }

    /// Records a source that could not be opened: the total stays as it is.
    pub fn record_unavailable(&mut self)
        ensures
            final(self)@ == step(old(self)@, None),
    {
        self.any_unavailable = true;
    }

    /// The running total.
    pub fn total(&self) -> (r: FileInfo)
        ensures
            totals_of(r) == self@.total,
    {
        self.total
    }

    /// Whether a total line is due: more than one source was counted.
    pub fn show_total(&self) -> (r: bool)
        ensures
            r == (self@.counted > 1),
    {
        self.counted > 1
    }

    /// Whether every source so far could be opened.
    pub fn all_opened(&self) -> (r: bool)
        ensures
            r == !self@.any_unavailable,
    {
        !self.any_unavailable
    }
}

impl Tally {
    /// Handles one source: `None` when it could not be opened, else its
    /// content. An unavailable source is noted and skipped. Content is
    /// counted and added to the total, and the counts to show for it are
    /// returned. A source that cannot be counted, or whose counts would
    /// overflow the total, stops the run and leaves the state as it was.
    pub fn process_source(&mut self, config: &Config, content: Option<&[u8]>) -> (r: Result<
        Option<Vec<usize>>,
        RunError,
    >)
        ensures
            content is None ==> r == Ok::<Option<Vec<usize>>, RunError>(None) && final(self)@
                == step(old(self)@, None),
            content matches Some(c) ==> {
                &&& (r is Ok <==> valid_utf8(c@) && fits(old(self)@, info_of(c@)))
                &&& !valid_utf8(c@) ==> r == Err::<Option<Vec<usize>>, RunError>(
                    RunError::Read(ReadFailure::InvalidEncoding),
                )
                &&& valid_utf8(c@) && !fits(old(self)@, info_of(c@)) ==> r == Err::<
                    Option<Vec<usize>>,
                    RunError,
                >(RunError::Overflow)
                &&& r is Err ==> final(self)@ == old(self)@
                &&& r matches Ok(v) ==> {
                    &&& v is Some
                    &&& v->Some_0@ == selected_of(config@, info_of(c@))
                    &&& final(self)@ == step(old(self)@, Some(info_of(c@)))
                }
            },
    {
        match content {
            None => {
                self.record_unavailable();
                Ok(None)
            },
            Some(c) => match count(c) {
                Err(e) => Err(RunError::Read(e)),
                Ok(info) => {
                    proof {
                        assert(info == info_of(c@));
                    }
                    if self.can_record(&info) {
                        self.record_counted(&info);
                        Ok(Some(config.selected(&info)))
                    } else {
                        Err(RunError::Overflow)
                    }
                },
            },
        }
    }

    /// The counts to show on the total line, when one is due: when more than
    /// one source was counted.
    pub fn summary(&self, config: &Config) -> (r: Option<Vec<usize>>)
        ensures
            r is Some <==> self@.counted > 1,
            r matches Some(v) ==> exists|t: FileInfo|
                totals_of(t) == self@.total && v@ == #[trigger] selected_of(config@, t),
    {
        if self.show_total() {
            let t = self.total();
            Some(config.selected(&t))
        } else {
            None
        }
    }
}

/// The total after two counted sources is the sum of their counts.
pub proof fn lemma_total_is_additive(
    ca: Seq<u8>,
    a: FileInfo,
    cb: Seq<u8>,
    b: FileInfo,
)
    requires
        count_outcome(ca, Ok(a)),
        count_outcome(cb, Ok(b)),
    ensures
        tally_of(seq![Some(a), Some(b)]).total == (Totals {
            lines: lines_of(ca) + lines_of(cb),
            words: words_of(ca) + words_of(cb),
            bytes: ca.len() + cb.len(),
            chars: chars_of(ca) + chars_of(cb),
        }),
        tally_of(seq![Some(a), Some(b)]).counted == 2,
{
    reveal_with_fuel(tally_of, 3);
    let s = seq![Some(a), Some(b)];
    assert(s.drop_last() =~= seq![Some(a)]);
    assert(seq![Some(a)].drop_last() =~= Seq::<Option<FileInfo>>::empty());
}

/// When the second of three sources cannot be opened, the first and third
/// are still counted and the total holds their counts alone.
pub proof fn lemma_skips_unavailable(a: FileInfo, c: FileInfo)
    ensures
        tally_of(seq![Some(a), None, Some(c)]).total == plus(totals_of(a), totals_of(c)),
        tally_of(seq![Some(a), None, Some(c)]).counted == 2,
        tally_of(seq![Some(a), None, Some(c)]).any_unavailable,
{
    reveal_with_fuel(tally_of, 4);
    let s = seq![Some(a), None, Some(c)];
    assert(s.drop_last() =~= seq![Some(a), None]);
    assert(seq![Some(a), None].drop_last() =~= seq![Some(a)]);
    assert(seq![Some(a)].drop_last() =~= Seq::<Option<FileInfo>>::empty());
}

/// Taking one source out of a run takes its contribution out of the total.
proof fn lemma_tally_remove(p: Seq<Option<FileInfo>>, j: int)
    requires
        0 <= j < p.len(),
    ensures
        tally_of(p).total == plus(tally_of(p.remove(j)).total, contribution(p[j])),
        tally_of(p).counted == tally_of(p.remove(j)).counted + if p[j] is Some { 1nat } else { 0nat },
    decreases p.len(),
{
    if j == p.len() - 1 {
        assert(p.remove(j) =~= p.drop_last());
    } else {
        lemma_tally_remove(p.drop_last(), j);
        assert(p.drop_last().remove(j) =~= p.remove(j).drop_last());
        assert(p.remove(j).last() == p.last());
    }
}

/// The total and the number of counted sources do not depend on the order
/// in which the sources were processed.
pub proof fn lemma_total_order_independent(s: Seq<Option<FileInfo>>, p: Seq<Option<FileInfo>>)
    requires
        s.to_multiset() == p.to_multiset(),
    ensures
        tally_of(s).total == tally_of(p).total,
        tally_of(s).counted == tally_of(p).counted,
    decreases s.len(),
{
    if s.len() == 0 {
        assert(p.to_multiset().len() == 0);
        assert(p =~= Seq::<Option<FileInfo>>::empty());
    } else {
        let x = s.last();
        let rest = s.drop_last();
        assert(rest.push(x) =~= s);
        assert(s.to_multiset() == rest.to_multiset().insert(x));
        assert(p.to_multiset().count(x) > 0);
        assert(p.contains(x));
        let j = choose|j: int| 0 <= j < p.len() && p[j] == x;
        let q = p.remove(j);
        assert(q.to_multiset() =~= rest.to_multiset());
        lemma_total_order_independent(rest, q);
        lemma_tally_remove(p, j);
    }
}

} // verus!
