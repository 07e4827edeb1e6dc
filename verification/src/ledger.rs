//! The data model: records with an additive or subtractive effect, and a
//! named, ordered ledger of records, with its text rendering and signed total.

use vstd::prelude::*;
use crate::text::{
    amount_field, count_newlines, lemma_amount_field_no_newline, lemma_count_newlines_concat,
    lemma_count_newlines_none, no_newline, render_amount,
};
use crate::timestamp::{Timestamp, timestamp_text};

verus! {

/// Whether a record's amount increases or decreases the ledger total.
#[derive(Clone, Copy, Debug, PartialEq, Eq, Structural)]
pub enum Effect {
    Additive,
    Subtractive,
}

/// The sign token of an effect: `+` for additive, `-` for subtractive.
pub open spec fn sign_text(e: Effect) -> Seq<char> {
    match e {
        Effect::Additive => seq!['+'],
        Effect::Subtractive => seq!['-'],
    }
}

impl Effect {
    /// The sign token as a string slice.
    pub fn to_str(self) -> (s: &'static str)
        ensures
            s@ == sign_text(self),
    {
        proof {
            reveal_strlit("+");
            reveal_strlit("-");
        }
        let s = match self {
            Effect::Additive => "+",
            Effect::Subtractive => "-",
        };
        proof {
            assert(s@ =~= sign_text(self));
        }
        s
    }
}

/// One transaction: a free-text description, an amount in the smallest
/// currency unit, an effect, and a timestamp.
pub struct Record {
    pub desc: String,
    pub amount: u64,
    pub effect: Effect,
    pub ts: Timestamp,
}

/// The line of text for one record (without the terminating newline):
/// a tab, the currency symbol, the fixed-width amount column, the sign token,
/// the timestamp and the description, separated as
/// `\t£<amount> <sign> : <timestamp> : <description>`.
pub open spec fn record_line(r: Record) -> Seq<char> {
    seq!['\t', '£'] + amount_field(r.amount as nat) + seq![' '] + sign_text(r.effect)
        + seq![' ', ':', ' '] + timestamp_text(r.ts) + seq![' ', ':', ' '] + r.desc@
}

/// The signed contribution of one record to the total.
pub open spec fn signed_amount(r: Record) -> int {
    match r.effect {
        Effect::Additive => r.amount as int,
        Effect::Subtractive => -(r.amount as int),
    }
}

/// The signed sum of the records' amounts under their effects; zero for an
/// empty sequence.
pub open spec fn total_spec(rs: Seq<Record>) -> int
    decreases rs.len(),
{
    if rs.len() == 0 {
        0
    } else {
        total_spec(rs.drop_last()) + signed_amount(rs.last())
    }
}

/// A record's line holds no newline when its description holds none.
pub proof fn lemma_record_line_no_newline(r: Record)
    requires
        no_newline(r.desc@),
    ensures
        no_newline(record_line(r)),
{
    lemma_amount_field_no_newline(r.amount as nat);
    crate::timestamp::lemma_timestamp_text_no_newline(r.ts);
}

/// Rendering a ledger whose label and descriptions hold no newline produces
/// exactly one more newline-terminated line than there are records: the
/// heading line, then one line per record.
pub proof fn lemma_render_line_count(l: Ledger)
    requires
        no_newline(l.label@),
        forall|i: int|
            0 <= i < l.records@.len() ==> no_newline((#[trigger] l.records@[i]).desc@),
    ensures
        count_newlines(render_text(l)) == l.records@.len() + 1,
{
    lemma_lines_text_count(l.records@);
    lemma_count_newlines_none(label_line(l));
    lemma_count_newlines_concat(label_line(l), seq!['\n']);
    lemma_count_newlines_concat(label_line(l) + seq!['\n'], lines_text(l.records@));
    lemma_count_one_newline();
}

/// A single newline character counts as one line.
proof fn lemma_count_one_newline()
    ensures
        count_newlines(seq!['\n']) == 1,
{
    assert(count_newlines(seq!['\n']) == 1) by {
        reveal_with_fuel(count_newlines, 2);
        assert(seq!['\n'].drop_last() =~= Seq::<char>::empty());
    }
}

/// The record lines hold one newline per record.
proof fn lemma_lines_text_count(rs: Seq<Record>)
    requires
        forall|i: int| 0 <= i < rs.len() ==> no_newline((#[trigger] rs[i]).desc@),
    ensures
        count_newlines(lines_text(rs)) == rs.len(),
    decreases rs.len(),
{
    if rs.len() > 0 {
        lemma_lines_text_count(rs.drop_last());
        lemma_record_line_no_newline(rs.last());
        lemma_count_newlines_none(record_line(rs.last()));
        lemma_count_newlines_concat(lines_text(rs.drop_last()), record_line(rs.last()));
        lemma_count_newlines_concat(
            lines_text(rs.drop_last()) + record_line(rs.last()),
            seq!['\n'],
        );
        lemma_count_one_newline();
    }
}

/// The total of an empty ledger is zero.
pub proof fn lemma_total_empty(rs: Seq<Record>)
    requires
        rs.len() == 0,
    ensures
        total_spec(rs) == 0,
{
}

/// Rendering and totalling are pure: each result is a function of the ledger
/// value alone, so repeated calls on the same ledger yield identical output.
pub proof fn lemma_render_total_idempotent(
    l: Ledger,
    r1: Seq<char>,
    r2: Seq<char>,
    t1: int,
    t2: int,
)
    requires
        r1 == render_text(l),
        r2 == render_text(l),
        t1 == total_spec(l.records@),
        t2 == total_spec(l.records@),
    ensures
        r1 == r2,
        t1 == t2,
{
}

impl Record {
    /// Renders the record as its ledger line (without the newline).
    pub fn render(&self) -> (line: String)
        requires
            self.ts.valid(),
        ensures
            line@ == record_line(*self),
    {
        proof {
            reveal_strlit(" : ");
        }
        let mut line = String::new();
        line.push('\t');
        line.push('£');
        let amt = render_amount(self.amount);
        line.append(amt.as_str());
        line.push(' ');
        line.append(self.effect.to_str());
        line.append(" : ");
        let ts = self.ts.render();
        line.append(ts.as_str());
        line.append(" : ");
        line.append(self.desc.as_str());
        proof {
            assert(line@ =~= record_line(*self));
        }
        line
    }
}

/// A named, ordered ledger of records. Insertion order is display order.
pub struct Ledger {
    pub label: String,
    pub records: Vec<Record>,
}

/// The ledger's heading line (without the newline): the label followed by a
/// colon.
pub open spec fn label_line(l: Ledger) -> Seq<char> {
    l.label@ + seq![':']
}

/// The record lines in order, each terminated by a newline.
pub open spec fn lines_text(rs: Seq<Record>) -> Seq<char>
    decreases rs.len(),
{
    if rs.len() == 0 {
        Seq::empty()
    } else {
        lines_text(rs.drop_last()) + record_line(rs.last()) + seq!['\n']
    }
}

/// The full rendering of a ledger: the heading line, then one line per record
/// in construction order, every line terminated by a newline.
pub open spec fn render_text(l: Ledger) -> Seq<char> {
    label_line(l) + seq!['\n'] + lines_text(l.records@)
}

impl Ledger {
    /// Every record's timestamp is a valid date and time.
    pub open spec fn wf(self) -> bool {
        forall|i: int| 0 <= i < self.records@.len() ==> (#[trigger] self.records@[i]).ts.valid()
    }

    /// Runtime check of [`Ledger::wf`], for callers outside verified code.
    pub fn check_wf(&self) -> (ok: bool)
        ensures
            ok == self.wf(),
    {
        let mut i: usize = 0;
        while i < self.records.len()
            invariant
                i <= self.records@.len(),
                forall|j: int| 0 <= j < i ==> (#[trigger] self.records@[j]).ts.valid(),
            decreases self.records@.len() - i,
        {
            let t = self.records[i].ts;
            let leap = t.year % 4 == 0 && (t.year % 100 != 0 || t.year % 400 == 0);
            let month_days: u8 = if t.month == 2 {
                if leap {
                    29
                } else {
                    28
                }
            } else if t.month == 4 || t.month == 6 || t.month == 9 || t.month == 11 {
                30
            } else {
                31
            };
            if !(1 <= t.year && t.year <= 9999 && 1 <= t.month && t.month <= 12 && 1 <= t.day
                && t.day <= month_days && t.hour < 24 && t.minute < 60 && t.second < 60) {
                return false;
            }
            i += 1;
        }
        true
    }

    /// Renders the ledger's lines: the heading line first, then one line per
    /// record in construction order (no terminating newlines).
    pub fn render_lines(&self) -> (lines: Vec<String>)
        requires
            self.wf(),
        ensures
            lines@.len() == self.records@.len() + 1,
            lines@[0]@ == label_line(*self),
            forall|i: int|
                0 <= i < self.records@.len() ==> (#[trigger] lines@[i + 1])@ == record_line(
                    self.records@[i],
                ),
    {
        let mut lines: Vec<String> = Vec::new();
        let mut head = String::new();
        head.append(self.label.as_str());
        head.push(':');
        proof {
            assert(head@ =~= label_line(*self));
        }
        lines.push(head);
        let mut i: usize = 0;
        while i < self.records.len()
            invariant
                self.wf(),
                i <= self.records@.len(),
                lines@.len() == i + 1,
                lines@[0]@ == label_line(*self),
                forall|j: int|
                    0 <= j < i ==> (#[trigger] lines@[j + 1])@ == record_line(self.records@[j]),
            decreases self.records@.len() - i,
        {
            let line = self.records[i].render();
            lines.push(line);
            i += 1;
        }
        lines
    }

    /// Renders the whole ledger as text: the heading line, then one line per
    /// record in construction order, every line terminated by a newline.
    pub fn render(&self) -> (out: String)
        requires
            self.wf(),
        ensures
            out@ == render_text(*self),
    {
        let mut out = String::new();
        out.append(self.label.as_str());
        out.push(':');
        out.push('\n');
        let mut i: usize = 0;
        while i < self.records.len()
            invariant
                self.wf(),
                i <= self.records@.len(),
                out@ == label_line(*self) + seq!['\n'] + lines_text(self.records@.take(i as int)),
            decreases self.records@.len() - i,
        {
            let line = self.records[i].render();
            out.append(line.as_str());
            out.push('\n');
            proof {
                let taken = self.records@.take(i + 1);
                assert(taken.drop_last() =~= self.records@.take(i as int));
                assert(taken.last() == self.records@[i as int]);
                assert(out@ =~= label_line(*self) + seq!['\n'] + lines_text(taken));
            }
            i += 1;
        }
        proof {
            assert(self.records@.take(self.records@.len() as int) =~= self.records@);
        }
        out
    }

    /// The signed total of the ledger: each additive record adds its amount,
    /// each subtractive record subtracts it.
    pub fn total(&self) -> (t: i128)
        requires
            self.records@.len() <= 0x7fff_ffff_ffff_ffff,
        ensures
            t == total_spec(self.records@),
    {
        let mut t: i128 = 0;
        let mut i: usize = 0;
        while i < self.records.len()
            invariant
                i <= self.records@.len(),
                self.records@.len() <= 0x7fff_ffff_ffff_ffff,
                t == total_spec(self.records@.take(i as int)),
                -(i as int) * 0xffff_ffff_ffff_ffff <= t <= (i as int) * 0xffff_ffff_ffff_ffff,
            decreases self.records@.len() - i,
        {
            let r = &self.records[i];
            match r.effect {
                Effect::Additive => t = t + r.amount as i128,
                Effect::Subtractive => t = t - r.amount as i128,
            }
            proof {
                let taken = self.records@.take(i + 1);
                assert(taken.drop_last() =~= self.records@.take(i as int));
                assert(taken.last() == self.records@[i as int]);
            }
            i += 1;
        }
        proof {
            assert(self.records@.take(self.records@.len() as int) =~= self.records@);
        }
        t
    }
}

} // verus!
