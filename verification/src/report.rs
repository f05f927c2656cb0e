//! The tables that are shown: which, and what stands in their cells.
//!
//! The caller reads the values and hands in what each getter gave; a
//! frequency comes as the text to show. The functions here fill the cells,
//! with `n/a` for a value that is not there or could not be read, and have
//! the table laid out.

use crate::cli::{Cli, Error};
use crate::cpu;
use crate::cpufreq;
use crate::i915;
use crate::intel_pstate;
use crate::pseudofs::Availability;
use crate::table::{
    all_of_width, layout_accepted, layout_columns, lemma_flush_left_columns, render, table_text,
};
use crate::text::{
    blanks, decimal, decimal_string, indent, indented, join, joined, trim_end, trimmed_end,
};
use vstd::prelude::*;
use vstd::string::*;

verus! {

/// What is shown for a value that is not there.
pub open spec fn or_na(o: Option<Seq<char>>) -> Seq<char> {
    match o {
        Some(s) => s,
        None => "n/a"@,
    }
}

/// What is shown for a list that is not there, or the list with commas.
pub open spec fn list_or_na(o: Option<Seq<Seq<char>>>) -> Seq<char> {
    match o {
        Some(items) => joined(items, ","@),
        None => "n/a"@,
    }
}

/// What is shown for a number that is not there, or the number.
pub open spec fn number_or_na(o: Option<u64>) -> Seq<char> {
    match o {
        Some(n) => decimal(n as nat),
        None => "n/a"@,
    }
}

/// `true` or `false`.
pub open spec fn bool_word(b: bool) -> Seq<char> {
    if b {
        "true"@
    } else {
        "false"@
    }
}

/// What is shown for an online flag that could not be read, or the flag.
pub open spec fn online_or_na(o: Option<bool>) -> Seq<char> {
    match o {
        Some(b) => bool_word(b),
        None => "n/a"@,
    }
}

/// The value that a getter gave, if it gave one: none for a control that is
/// not there, and none for a read that failed.
pub open spec fn seen<T: DeepView, E>(got: Availability<T, E>) -> Option<T::V> {
    match got {
        Availability::Present(v) => Some(v.deep_view()),
        _ => None,
    }
}

/// Whether a processor counts as online, from what reading its flag gave: a
/// processor without the flag does; of a read that failed nothing is known.
pub open spec fn seen_online<E>(got: Availability<bool, E>) -> Option<bool> {
    match got {
        Availability::Present(b) => Some(b),
        Availability::Absent => Some(true),
        Availability::Failed(_) => None,
    }
}

/// The cell for what a getter gave: the text, or `n/a` for a control that is
/// not there and for a read that failed.
pub fn shown_or_na<E>(got: &Availability<String, E>) -> (r: String)
    ensures
        r@ == (match got {
            Availability::Present(s) => s@,
            _ => "n/a"@,
        }),
        r@ == or_na(seen(*got)),
{
    match got {
        Availability::Present(s) => s.clone(),
        _ => String::from_str("n/a"),
    }
}

/// The cell for a list: its items with commas between them, or `n/a`.
pub fn shown_list_or_na<E>(got: &Availability<Vec<String>, E>) -> (r: String)
    ensures
        r@ == (match got {
            Availability::Present(items) => joined(items.deep_view(), ","@),
            _ => "n/a"@,
        }),
        r@ == list_or_na(seen(*got)),
{
    match got {
        Availability::Present(items) => join(items, ","),
        _ => String::from_str("n/a"),
    }
}

/// The cell for a number: the number in decimal, or `n/a`.
pub fn shown_number_or_na<E>(got: &Availability<u64, E>) -> (r: String)
    ensures
        r@ == (match got {
            Availability::Present(n) => decimal(*n as nat),
            _ => "n/a"@,
        }),
        r@ == number_or_na(seen(*got)),
{
    match got {
        Availability::Present(n) => decimal_string(*n),
        _ => String::from_str("n/a"),
    }
}

/// The cell for an online flag: `true` or `false`, `true` for a processor
/// without the flag, `n/a` for a read that failed.
pub fn shown_online_or_na<E>(got: &Availability<bool, E>) -> (r: String)
    ensures
        r@ == (match got {
            Availability::Present(b) => bool_word(*b),
            Availability::Absent => bool_word(true),
            Availability::Failed(_) => "n/a"@,
        }),
        r@ == online_or_na(seen_online(*got)),
{
    match got {
        Availability::Present(true) | Availability::Absent => String::from_str("true"),
        Availability::Present(false) => String::from_str("false"),
        Availability::Failed(_) => String::from_str("n/a"),
    }
}

fn numbered(prefix: &str, id: u64) -> (r: String)
    ensures
        r@ == prefix@ + decimal(id as nat),
{
    String::from_str(prefix).concat(decimal_string(id).as_str())
}

fn strings(items: Vec<&str>) -> (r: Vec<String>)
    ensures
        r.deep_view() == Seq::new(items@.len(), |i: int| items@[i]@),
{
    let mut out: Vec<String> = Vec::new();
    let mut k: usize = 0;
    let ghost wanted = Seq::new(items@.len(), |i: int| items@[i]@);
    assert(out.deep_view() =~= wanted.take(0));
    while k < items.len()
        invariant
            k <= items@.len(),
            wanted == Seq::new(items@.len(), |i: int| items@[i]@),
            out.deep_view() == wanted.take(k as int),
        decreases items@.len() - k,
    {
        let ghost before = out.deep_view();
        out.push(String::from_str(items[k]));
        assert(out.deep_view() =~= before.push(items@[k as int]@));
        assert(wanted.take(k + 1) =~= wanted.take(k as int).push(wanted[k as int]));
        k += 1;
    }
    assert(wanted.take(items@.len() as int) =~= wanted);
    out
}

/// How often the tables are shown.
#[derive(Clone, Copy, Debug, PartialEq, Eq, Structural)]
pub enum Showing {
    /// Once.
    Once,
    /// Again and again, with so many seconds in between.
    Every(u64),
}

/// How often the tables are shown under a request with this number of
/// seconds.
pub open spec fn showing(refresh: Option<u64>) -> Showing {
    match refresh {
        None => Showing::Once,
        Some(seconds) => Showing::Every(
            if seconds == 0 {
                1
            } else {
                seconds
            },
        ),
    }
}

/// Which tables to show.
#[derive(Clone, Copy, Debug, PartialEq, Eq, Structural)]
pub struct Shown {
    pub pstate: bool,
    pub freq: bool,
    pub cpu: bool,
    pub i915: bool,
}

/// A processor as the table of processors shows it.
#[derive(Debug)]
pub struct CpuRow {
    pub cpu_id: u64,
    pub online: Availability<bool, cpu::Error>,
    pub cur: Availability<String, cpufreq::Error>,
    pub min: Availability<String, cpufreq::Error>,
    pub max: Availability<String, cpufreq::Error>,
    pub min_limit: Availability<String, cpufreq::Error>,
    pub max_limit: Availability<String, cpufreq::Error>,
}

pub struct CpuRowView {
    pub cpu_id: u64,
    pub online: Option<bool>,
    pub cur: Option<Seq<char>>,
    pub min: Option<Seq<char>>,
    pub max: Option<Seq<char>>,
    pub min_limit: Option<Seq<char>>,
    pub max_limit: Option<Seq<char>>,
}

impl DeepView for CpuRow {
    type V = CpuRowView;

    open spec fn deep_view(&self) -> CpuRowView {
        CpuRowView {
            cpu_id: self.cpu_id,
            online: seen_online(self.online),
            cur: seen(self.cur),
            min: seen(self.min),
            max: seen(self.max),
            min_limit: seen(self.min_limit),
            max_limit: seen(self.max_limit),
        }
    }
}

/// A processor as the table of governors shows it.
#[derive(Debug)]
pub struct FreqRow {
    pub cpu_id: u64,
    pub governor: Availability<String, cpufreq::Error>,
    pub governors: Availability<Vec<String>, cpufreq::Error>,
}

pub struct FreqRowView {
    pub cpu_id: u64,
    pub governor: Option<Seq<char>>,
    pub governors: Option<Seq<Seq<char>>>,
}

impl DeepView for FreqRow {
    type V = FreqRowView;

    open spec fn deep_view(&self) -> FreqRowView {
        FreqRowView {
            cpu_id: self.cpu_id,
            governor: seen(self.governor),
            governors: seen(self.governors),
        }
    }
}

/// A graphics card as the table of cards shows it.
#[derive(Debug)]
pub struct I915Row {
    pub card_id: u64,
    pub actual: Availability<String, i915::Error>,
    pub requested: Availability<String, i915::Error>,
    pub min: Availability<String, i915::Error>,
    pub max: Availability<String, i915::Error>,
    pub boost: Availability<String, i915::Error>,
    pub min_limit: Availability<String, i915::Error>,
    pub max_limit: Availability<String, i915::Error>,
}

pub struct I915RowView {
    pub card_id: u64,
    pub actual: Option<Seq<char>>,
    pub requested: Option<Seq<char>>,
    pub min: Option<Seq<char>>,
    pub max: Option<Seq<char>>,
    pub boost: Option<Seq<char>>,
    pub min_limit: Option<Seq<char>>,
    pub max_limit: Option<Seq<char>>,
}

impl DeepView for I915Row {
    type V = I915RowView;

    open spec fn deep_view(&self) -> I915RowView {
        I915RowView {
            card_id: self.card_id,
            actual: seen(self.actual),
            requested: seen(self.requested),
            min: seen(self.min),
            max: seen(self.max),
            boost: seen(self.boost),
            min_limit: seen(self.min_limit),
            max_limit: seen(self.max_limit),
        }
    }
}

/// A processor as the table of the P-state driver shows it.
#[derive(Debug)]
pub struct PstateRow {
    pub cpu_id: u64,
    pub epb: Availability<u64, intel_pstate::Error>,
    pub epp: Availability<String, intel_pstate::Error>,
    pub epps: Availability<Vec<String>, intel_pstate::Error>,
}

pub struct PstateRowView {
    pub cpu_id: u64,
    pub epb: Option<u64>,
    pub epp: Option<Seq<char>>,
    pub epps: Option<Seq<Seq<char>>>,
}

impl DeepView for PstateRow {
    type V = PstateRowView;

    open spec fn deep_view(&self) -> PstateRowView {
        PstateRowView {
            cpu_id: self.cpu_id,
            epb: seen(self.epb),
            epp: seen(self.epp),
            epps: seen(self.epps),
        }
    }
}

/// The cells of a processor in the table of processors.
pub open spec fn cpu_cells(row: CpuRowView) -> Seq<Seq<char>> {
    seq![
        "cpu"@ + decimal(row.cpu_id as nat),
        online_or_na(row.online),
        or_na(row.cur),
        or_na(row.min),
        or_na(row.max),
        or_na(row.min_limit),
        or_na(row.max_limit),
    ]
}

/// The rows of the table of processors: the heading, a rule, the processors.
pub open spec fn cpu_rows(rows: Seq<CpuRowView>) -> Seq<Seq<Seq<char>>> {
    seq![
        seq!["CPU"@, "Online"@, "Cur"@, "Min"@, "Max"@, "Min limit"@, "Max limit"@],
        seq![
            "-------"@,
            "-------"@,
            "-----------"@,
            "-----------"@,
            "-----------"@,
            "-----------"@,
            "-----------"@,
        ],
    ] + Seq::new(rows.len(), |i: int| cpu_cells(rows[i]))
}

/// The cells of a processor in the table of governors.
pub open spec fn freq_cells(row: FreqRowView) -> Seq<Seq<char>> {
    seq!["cpu"@ + decimal(row.cpu_id as nat), or_na(row.governor), list_or_na(row.governors)]
}

/// The rows of the table of governors.
pub open spec fn freq_rows(rows: Seq<FreqRowView>) -> Seq<Seq<Seq<char>>> {
    seq![
        seq!["CPU"@, "Governor"@, "Governors"@],
        seq!["-------"@, "----------------"@, "----------------"@],
    ] + Seq::new(rows.len(), |i: int| freq_cells(rows[i]))
}

/// The cells of a card in the table of graphics cards.
pub open spec fn i915_cells(row: I915RowView) -> Seq<Seq<char>> {
    seq![
        "card"@ + decimal(row.card_id as nat),
        "i915"@,
        or_na(row.actual),
        or_na(row.requested),
        or_na(row.min),
        or_na(row.max),
        or_na(row.boost),
        or_na(row.min_limit),
        or_na(row.max_limit),
    ]
}

/// The rows of the table of graphics cards.
pub open spec fn i915_rows(rows: Seq<I915RowView>) -> Seq<Seq<Seq<char>>> {
    seq![
        seq![
            "Card"@,
            "Driver"@,
            "Actual"@,
            "Req'd"@,
            "Min"@,
            "Max"@,
            "Boost"@,
            "Min limit"@,
            "Max limit"@,
        ],
        seq![
            "------"@,
            "-------"@,
            "--------"@,
            "--------"@,
            "--------"@,
            "--------"@,
            "--------"@,
            "---------"@,
            "---------"@,
        ],
    ] + Seq::new(rows.len(), |i: int| i915_cells(rows[i]))
}

/// The cells of a processor in the table of the P-state driver.
pub open spec fn pstate_cells(row: PstateRowView) -> Seq<Seq<char>> {
    seq![
        "cpu"@ + decimal(row.cpu_id as nat),
        number_or_na(row.epb),
        or_na(row.epp),
        list_or_na(row.epps),
    ]
}

/// The rows of the table of the P-state driver.
pub open spec fn pstate_rows(rows: Seq<PstateRowView>) -> Seq<Seq<Seq<char>>> {
    seq![
        seq!["CPU"@, "EPB"@, "EP Pref"@, "EP Prefs"@],
        seq!["--------"@, "----"@, "--------------------"@, "--------------------"@],
    ] + Seq::new(rows.len(), |i: int| pstate_cells(rows[i]))
}

/// The parts one after the other.
pub open spec fn concat(parts: Seq<Seq<char>>) -> Seq<char>
    decreases parts.len(),
{
    if parts.len() == 0 {
        Seq::empty()
    } else {
        concat(parts.drop_last()) + parts.last()
    }
}

/// The layout of a table of so many columns: each flush left, with a blank
/// between two.
pub open spec fn cpu_layout() -> Seq<char> {
    "{:<} {:<} {:<} {:<} {:<} {:<} {:<}"@
}

pub open spec fn freq_layout() -> Seq<char> {
    "{:<} {:<} {:<}"@
}

pub open spec fn i915_layout() -> Seq<char> {
    "{:<} {:<} {:<} {:<} {:<} {:<} {:<} {:<} {:<}"@
}

pub open spec fn pstate_layout() -> Seq<char> {
    "{:<} {:<} {:<} {:<}"@
}

/// Whether the layout is `count` columns that are flush left, with a blank
/// between each two.
pub open spec fn flush_left(layout: Seq<char>, count: nat) -> bool {
    &&& count > 0
    &&& layout.len() == 5 * count - 1
    &&& forall|k: int|
        0 <= k < count ==> #[trigger] layout[5 * k] == '{' && layout[5 * k + 1] == ':'
            && layout[5 * k + 2] == '<' && layout[5 * k + 3] == '}'
    &&& forall|k: int| 0 <= k < count - 1 ==> #[trigger] layout[5 * k + 4] == ' '
}

/// The layouts of the four tables are accepted, with seven, three, nine and
/// four columns.
pub proof fn lemma_layouts()
    ensures
        layout_accepted(cpu_layout()) && layout_columns(cpu_layout()) == 7,
        layout_accepted(freq_layout()) && layout_columns(freq_layout()) == 3,
        layout_accepted(i915_layout()) && layout_columns(i915_layout()) == 9,
        layout_accepted(pstate_layout()) && layout_columns(pstate_layout()) == 4,
{
    reveal_strlit("{:<} {:<} {:<} {:<} {:<} {:<} {:<}");
    reveal_strlit("{:<} {:<} {:<}");
    reveal_strlit("{:<} {:<} {:<} {:<} {:<} {:<} {:<} {:<} {:<}");
    reveal_strlit("{:<} {:<} {:<} {:<}");
    assert(flush_left(cpu_layout(), 7));
    assert(flush_left(freq_layout(), 3));
    assert(flush_left(i915_layout(), 9));
    assert(flush_left(pstate_layout(), 4));
    lemma_flush_left_columns(cpu_layout(), 0, 7);
    lemma_flush_left_columns(freq_layout(), 0, 3);
    lemma_flush_left_columns(i915_layout(), 0, 9);
    lemma_flush_left_columns(pstate_layout(), 0, 4);
}

impl Cli {
    /// What is left to do once setting the controls has ended as `done`
    /// says. After a failure nothing is shown: the failure is handed back.
    /// Else the tables are shown once, or, where the request gives a number
    /// of seconds, again and again at that distance; at a distance of one
    /// second where it gives none.
    pub fn run(&self, done: Result<(), Error>) -> (r: Result<Showing, Error>)
        ensures
            r == (match done {
                Err(e) => Err::<Showing, Error>(e),
                Ok(_) => Ok(showing(self.refresh)),
            }),
    {
        match done {
            Err(e) => Err(e),
            Ok(_) => match self.refresh {
                None => Ok(Showing::Once),
                Some(seconds) => Ok(
                    Showing::Every(
                        if seconds == 0 {
                            1
                        } else {
                            seconds
                        },
                    ),
                ),
            },
        }
    }

    /// Which tables the request shows: those that it names; if it names
    /// none, the processors, and each of the others whose driver is there.
    pub fn tables_to_show(&self, pstate_there: bool, cpufreq_there: bool, i915_there: bool) -> (r:
        Shown)
        ensures
            r == (Shown {
                pstate: self.pstate || (!(self.cpu || self.freq || self.i915 || self.pstate)
                    && pstate_there),
                freq: self.freq || (!(self.cpu || self.freq || self.i915 || self.pstate)
                    && cpufreq_there),
                cpu: self.cpu || !(self.cpu || self.freq || self.i915 || self.pstate),
                i915: self.i915 || (!(self.cpu || self.freq || self.i915 || self.pstate)
                    && i915_there),
            }),
    {
        let named = self.has_table_args();
        Shown {
            pstate: self.pstate || (!named && pstate_there),
            freq: self.freq || (!named && cpufreq_there),
            cpu: self.cpu || !named,
            i915: self.i915 || (!named && i915_there),
        }
    }

    /// The table of processors, with a line feed after it. A value that is
    /// not there, or that could not be read, shows as `n/a`.
    pub fn format_table_cpu(rows: &Vec<CpuRow>) -> (r: String)
        ensures
            r@ == table_text(cpu_layout(), cpu_rows(rows.deep_view())) + "\n"@,
    {
        let mut cells: Vec<Vec<String>> = Vec::new();
        cells.push(
            strings(vec!["CPU", "Online", "Cur", "Min", "Max", "Min limit", "Max limit"]),
        );
        cells.push(
            strings(
                vec![
                    "-------",
                    "-------",
                    "-----------",
                    "-----------",
                    "-----------",
                    "-----------",
                    "-----------",
                ],
            ),
        );
        let ghost wanted = cpu_rows(rows.deep_view());
        assert(cells.deep_view() =~= wanted.take(2)) by {
            assert(cells.deep_view()[0] =~= wanted[0]);
            assert(cells.deep_view()[1] =~= wanted[1]);
        }
        let mut i: usize = 0;
        while i < rows.len()
            invariant
                i <= rows@.len(),
                wanted == cpu_rows(rows.deep_view()),
                cells.deep_view() == wanted.take(2 + i),
            decreases rows@.len() - i,
        {
            let row = &rows[i];
            let mut line: Vec<String> = Vec::new();
            line.push(numbered("cpu", row.cpu_id));
            line.push(shown_online_or_na(&row.online));
            line.push(shown_or_na(&row.cur));
            line.push(shown_or_na(&row.min));
            line.push(shown_or_na(&row.max));
            line.push(shown_or_na(&row.min_limit));
            line.push(shown_or_na(&row.max_limit));
            let ghost before = cells.deep_view();
            assert(line.deep_view() =~= cpu_cells(row.deep_view()));
            cells.push(line);
            assert(cells.deep_view() =~= before.push(cpu_cells(row.deep_view())));
            assert(wanted.take(2 + i + 1) =~= wanted.take(2 + i).push(wanted[2 + i]));
            i += 1;
        }
        assert(wanted.take(2 + i) =~= wanted);
        proof {
            lemma_layouts();
            assert forall|k: int| 0 <= k < wanted.len() implies (#[trigger] wanted[k]).len()
                == 7 by {
                if k >= 2 {
                    assert(wanted[k] == cpu_cells(rows.deep_view()[k - 2]));
                }
            }
            assert(all_of_width(wanted, 7));
        }
        render("{:<} {:<} {:<} {:<} {:<} {:<} {:<}", &cells).unwrap().concat("\n")
    }

    /// The table of governors, with a line feed after it; no text at all
    /// without a processor. A value that is not there, or that could not be
    /// read, shows as `n/a`.
    pub fn format_table_freq(rows: &Vec<FreqRow>) -> (r: String)
        ensures
            rows@.len() == 0 ==> r@ == Seq::<char>::empty(),
            rows@.len() > 0 ==> r@ == table_text(freq_layout(), freq_rows(rows.deep_view()))
                + "\n"@,
    {
        if rows.len() == 0 {
            return String::new();
        }
        let mut cells: Vec<Vec<String>> = Vec::new();
        cells.push(strings(vec!["CPU", "Governor", "Governors"]));
        cells.push(strings(vec!["-------", "----------------", "----------------"]));
        let ghost wanted = freq_rows(rows.deep_view());
        assert(cells.deep_view() =~= wanted.take(2)) by {
            assert(cells.deep_view()[0] =~= wanted[0]);
            assert(cells.deep_view()[1] =~= wanted[1]);
        }
        let mut i: usize = 0;
        while i < rows.len()
            invariant
                i <= rows@.len(),
                wanted == freq_rows(rows.deep_view()),
                cells.deep_view() == wanted.take(2 + i),
            decreases rows@.len() - i,
        {
            let row = &rows[i];
            let mut line: Vec<String> = Vec::new();
            line.push(numbered("cpu", row.cpu_id));
            line.push(shown_or_na(&row.governor));
            line.push(shown_list_or_na(&row.governors));
            let ghost before = cells.deep_view();
            assert(line.deep_view() =~= freq_cells(row.deep_view()));
            cells.push(line);
            assert(cells.deep_view() =~= before.push(freq_cells(row.deep_view())));
            assert(wanted.take(2 + i + 1) =~= wanted.take(2 + i).push(wanted[2 + i]));
            i += 1;
        }
        assert(wanted.take(2 + i) =~= wanted);
        proof {
            lemma_layouts();
            assert forall|k: int| 0 <= k < wanted.len() implies (#[trigger] wanted[k]).len()
                == 3 by {
                if k >= 2 {
                    assert(wanted[k] == freq_cells(rows.deep_view()[k - 2]));
                }
            }
            assert(all_of_width(wanted, 3));
        }
        render("{:<} {:<} {:<}", &cells).unwrap().concat("\n")
    }

    /// The table of graphics cards, with a line feed after it; no text at
    /// all without a card. A value that is not there, or that could not be
    /// read, shows as `n/a`.
    pub fn format_table_i915(rows: &Option<Vec<I915Row>>) -> (r: String)
        ensures
            rows is None || rows->Some_0@.len() == 0 ==> r@ == Seq::<char>::empty(),
            rows is Some && rows->Some_0@.len() > 0 ==> r@ == table_text(
                i915_layout(),
                i915_rows(rows->Some_0.deep_view()),
            ) + "\n"@,
    {
        let rows = match rows {
            Some(rows) => rows,
            None => {
                return String::new();
            },
        };
        if rows.len() == 0 {
            return String::new();
        }
        let mut cells: Vec<Vec<String>> = Vec::new();
        cells.push(
            strings(
                vec![
                    "Card",
                    "Driver",
                    "Actual",
                    "Req'd",
                    "Min",
                    "Max",
                    "Boost",
                    "Min limit",
                    "Max limit",
                ],
            ),
        );
        cells.push(
            strings(
                vec![
                    "------",
                    "-------",
                    "--------",
                    "--------",
                    "--------",
                    "--------",
                    "--------",
                    "---------",
                    "---------",
                ],
            ),
        );
        let ghost wanted = i915_rows(rows.deep_view());
        assert(cells.deep_view() =~= wanted.take(2)) by {
            assert(cells.deep_view()[0] =~= wanted[0]);
            assert(cells.deep_view()[1] =~= wanted[1]);
        }
        let mut i: usize = 0;
        while i < rows.len()
            invariant
                i <= rows@.len(),
                wanted == i915_rows(rows.deep_view()),
                cells.deep_view() == wanted.take(2 + i),
            decreases rows@.len() - i,
        {
            let row = &rows[i];
            let mut line: Vec<String> = Vec::new();
            line.push(numbered("card", row.card_id));
            line.push(String::from_str("i915"));
            line.push(shown_or_na(&row.actual));
            line.push(shown_or_na(&row.requested));
            line.push(shown_or_na(&row.min));
            line.push(shown_or_na(&row.max));
            line.push(shown_or_na(&row.boost));
            line.push(shown_or_na(&row.min_limit));
            line.push(shown_or_na(&row.max_limit));
            let ghost before = cells.deep_view();
            assert(line.deep_view() =~= i915_cells(row.deep_view()));
            cells.push(line);
            assert(cells.deep_view() =~= before.push(i915_cells(row.deep_view())));
            assert(wanted.take(2 + i + 1) =~= wanted.take(2 + i).push(wanted[2 + i]));
            i += 1;
        }
        assert(wanted.take(2 + i) =~= wanted);
        proof {
            lemma_layouts();
            assert forall|k: int| 0 <= k < wanted.len() implies (#[trigger] wanted[k]).len()
                == 9 by {
                if k >= 2 {
                    assert(wanted[k] == i915_cells(rows.deep_view()[k - 2]));
                }
            }
            assert(all_of_width(wanted, 9));
        }
        render("{:<} {:<} {:<} {:<} {:<} {:<} {:<} {:<} {:<}", &cells).unwrap().concat("\n")
    }

    /// The mode of the P-state driver on a line of its own, an empty line,
    /// the table of the driver, and a line feed; no text at all without a
    /// processor. A value that is not there, or that could not be read,
    /// shows as `n/a`.
    pub fn format_table_pstate(
        status: &Availability<String, intel_pstate::Error>,
        rows: &Vec<PstateRow>,
    ) -> (r: String)
        ensures
            rows@.len() == 0 ==> r@ == Seq::<char>::empty(),
            rows@.len() > 0 ==> r@ == "intel_pstate: "@ + or_na(seen(*status)) + "\n\n"@
                + table_text(pstate_layout(), pstate_rows(rows.deep_view())) + "\n"@,
    {
        if rows.len() == 0 {
            return String::new();
        }
        let mut cells: Vec<Vec<String>> = Vec::new();
        cells.push(strings(vec!["CPU", "EPB", "EP Pref", "EP Prefs"]));
        cells.push(
            strings(vec!["--------", "----", "--------------------", "--------------------"]),
        );
        let ghost wanted = pstate_rows(rows.deep_view());
        assert(cells.deep_view() =~= wanted.take(2)) by {
            assert(cells.deep_view()[0] =~= wanted[0]);
            assert(cells.deep_view()[1] =~= wanted[1]);
        }
        let mut i: usize = 0;
        while i < rows.len()
            invariant
                i <= rows@.len(),
                wanted == pstate_rows(rows.deep_view()),
                cells.deep_view() == wanted.take(2 + i),
            decreases rows@.len() - i,
        {
            let row = &rows[i];
            let mut line: Vec<String> = Vec::new();
            line.push(numbered("cpu", row.cpu_id));
            line.push(shown_number_or_na(&row.epb));
            line.push(shown_or_na(&row.epp));
            line.push(shown_list_or_na(&row.epps));
            let ghost before = cells.deep_view();
            assert(line.deep_view() =~= pstate_cells(row.deep_view()));
            cells.push(line);
            assert(cells.deep_view() =~= before.push(pstate_cells(row.deep_view())));
            assert(wanted.take(2 + i + 1) =~= wanted.take(2 + i).push(wanted[2 + i]));
            i += 1;
        }
        assert(wanted.take(2 + i) =~= wanted);
        proof {
            lemma_layouts();
            assert forall|k: int| 0 <= k < wanted.len() implies (#[trigger] wanted[k]).len()
                == 4 by {
                if k >= 2 {
                    assert(wanted[k] == pstate_cells(rows.deep_view()[k - 2]));
                }
            }
            assert(all_of_width(wanted, 4));
        }
        let text = render("{:<} {:<} {:<} {:<}", &cells).unwrap();
        let mut res = String::from_str("intel_pstate: ");
        res.append(shown_or_na(status).as_str());
        res.append("\n\n");
        res.append(text.as_str());
        res.append("\n");
        res
    }

    /// The tables as they are printed: after an empty line, one after the
    /// other, each line moved in by two blanks, the white space at the end
    /// cut off, and two line feeds to close.
    pub fn format_tables(tables: &Vec<String>) -> (r: String)
        ensures
            r@ == trimmed_end(indented("\n"@ + concat(tables.deep_view()), blanks(2))) + "\n\n"@,
    {
        let mut buf = String::from_str("\n");
        let mut k: usize = 0;
        let ghost all = tables.deep_view();
        assert(all.take(0) =~= Seq::<Seq<char>>::empty());
        assert(buf@ =~= "\n"@ + concat(all.take(0)));
        while k < tables.len()
            invariant
                k <= tables@.len(),
                all == tables.deep_view(),
                buf@ == "\n"@ + concat(all.take(k as int)),
            decreases tables@.len() - k,
        {
            buf.append(tables[k].as_str());
            proof {
                let longer = all.take(k + 1);
                assert(longer.drop_last() =~= all.take(k as int));
                assert(longer.last() == tables@[k as int]@);
                assert(buf@ =~= "\n"@ + concat(longer));
            }
            k += 1;
        }
        assert(all.take(k as int) =~= all);
        let moved = indent(buf.as_str(), 2);
        String::from_str(trim_end(moved.as_str())).concat("\n\n")
    }
}

} // verus!
