//! Lists of processor indices and of on/off switches, and the notations that
//! they are written in.

use crate::text::{parse_decimal, parse_u64, split, split_on};
use vstd::prelude::*;
use vstd::string::*;

verus! {

broadcast use vstd::seq_lib::group_to_multiset_ensures;

/// A string that could not be read; each variant holds the whole string.
#[derive(Debug)]
pub enum Error {
    ParseHertz(String),
    ParseIndices(String),
    ParseToggles(String),
}

pub enum ErrorView {
    ParseHertz(Seq<char>),
    ParseIndices(Seq<char>),
    ParseToggles(Seq<char>),
}

impl DeepView for Error {
    type V = ErrorView;

    open spec fn deep_view(&self) -> ErrorView {
        match self {
            Error::ParseHertz(s) => ErrorView::ParseHertz(s@),
            Error::ParseIndices(s) => ErrorView::ParseIndices(s@),
            Error::ParseToggles(s) => ErrorView::ParseToggles(s@),
        }
    }
}

/// The words of an error.
pub open spec fn error_message(e: ErrorView) -> Seq<char> {
    match e {
        ErrorView::ParseHertz(s) => "Error parsing frequency string: "@ + s,
        ErrorView::ParseIndices(s) => "Error parsing indices string: "@ + s,
        ErrorView::ParseToggles(s) => "Error parsing on/off list from string: "@ + s,
    }
}

impl Error {
    /// The error in words, for a person to read.
    pub fn message(&self) -> (r: String)
        ensures
            r@ == error_message(self.deep_view()),
    {
        match self {
            Error::ParseHertz(s) => String::from_str("Error parsing frequency string: ").concat(
                s.as_str(),
            ),
            Error::ParseIndices(s) => String::from_str("Error parsing indices string: ").concat(
                s.as_str(),
            ),
            Error::ParseToggles(s) => String::from_str(
                "Error parsing on/off list from string: ",
            ).concat(s.as_str()),
        }
    }
}

/// Whether `s` ascends, equal neighbours allowed.
pub open spec fn sorted(s: Seq<u64>) -> bool {
    forall|i: int, j: int| 0 <= i <= j < s.len() ==> s[i] <= s[j]
}

/// Whether `s` ascends strictly, so that nothing occurs twice.
pub open spec fn strictly_ascending(s: Seq<u64>) -> bool {
    forall|i: int, j: int| 0 <= i < j < s.len() ==> s[i] < s[j]
}

/// `s` with every run of equal neighbours cut down to its first item.
pub open spec fn without_repeats(s: Seq<u64>) -> Seq<u64>
    decreases s.len(),
{
    if s.len() <= 1 {
        s
    } else {
        let shorter = without_repeats(s.drop_last());
        if s.last() == s[s.len() - 2] {
            shorter
        } else {
            shorter.push(s.last())
        }
    }
}

/// The numbers from `first` to `last`, both included; none if `first` is the
/// larger.
pub open spec fn span(first: u64, last: u64) -> Seq<u64> {
    if first > last {
        Seq::empty()
    } else {
        Seq::new((last - first + 1) as nat, |i: int| (first + i) as u64)
    }
}

/// The indices that one item of a list stands for: a number, or two numbers
/// with a hyphen between them for all from the one to the other.
pub open spec fn item_indices(item: Seq<char>) -> Option<Seq<u64>> {
    let ends = split(item, '-');
    if ends.len() == 1 {
        match parse_decimal(ends[0]) {
            Some(v) => Some(seq![v]),
            None => None,
        }
    } else if ends.len() == 2 {
        match (parse_decimal(ends[0]), parse_decimal(ends[1])) {
            (Some(a), Some(b)) => Some(span(a, b)),
            _ => None,
        }
    } else {
        None
    }
}

/// The indices that the items stand for, in the order written.
pub open spec fn items_indices(items: Seq<Seq<char>>) -> Option<Seq<u64>>
    decreases items.len(),
{
    if items.len() == 0 {
        Some(Seq::empty())
    } else {
        match (items_indices(items.drop_last()), item_indices(items.last())) {
            (Some(a), Some(b)) => Some(a + b),
            _ => None,
        }
    }
}

/// The indices that a comma-separated list such as `0,1,2-5,9` stands for.
pub open spec fn parse_indices(s: Seq<char>) -> Option<Seq<u64>> {
    items_indices(split(s, ','))
}

/// The switch that a character stands for: `0` is off, `1` is on, `-` is
/// "leave as it is".
pub open spec fn toggle_of(c: char) -> Option<Option<bool>> {
    if c == '0' {
        Some(Some(false))
    } else if c == '1' {
        Some(Some(true))
    } else if c == '-' {
        Some(None)
    } else {
        None
    }
}

/// The switches that a string such as `10-1` stands for, one for each
/// character but blanks, which are passed over.
pub open spec fn parse_toggles(s: Seq<char>) -> Option<Seq<Option<bool>>>
    decreases s.len(),
{
    if s.len() == 0 {
        Some(Seq::empty())
    } else {
        match parse_toggles(s.drop_last()) {
            None => None,
            Some(bits) => if s.last() == ' ' {
                Some(bits)
            } else {
                match toggle_of(s.last()) {
                    Some(t) => Some(bits.push(t)),
                    None => None,
                }
            },
        }
    }
}

/// A list of processor indices.
#[derive(Clone, Debug)]
pub struct Indices(pub Vec<u64>);

impl DeepView for Indices {
    type V = Seq<u64>;

    open spec fn deep_view(&self) -> Seq<u64> {
        self.0@
    }
}

/// A walk over a list of indices, from the first to the last.
pub struct IndicesIter<'a> {
    items: &'a Vec<u64>,
    at: usize,
}

impl<'a> IndicesIter<'a> {
    /// The indices still to come.
    pub closed spec fn remaining(&self) -> Seq<u64> {
        if self.at <= self.items@.len() {
            self.items@.skip(self.at as int)
        } else {
            Seq::empty()
        }
    }

    /// The next index, if one is left.
    pub fn next(&mut self) -> (r: Option<u64>)
        ensures
            old(self).remaining().len() == 0 ==> r is None,
            old(self).remaining().len() == 0 ==> final(self).remaining() == old(self).remaining(),
            old(self).remaining().len() > 0 ==> r == Some(old(self).remaining()[0]),
            old(self).remaining().len() > 0 ==> final(self).remaining() == old(
                self,
            ).remaining().skip(1),
    {
        if self.at < self.items.len() {
            let v = self.items[self.at];
            self.at = self.at + 1;
            assert(self.remaining() =~= old(self).remaining().skip(1));
            Some(v)
        } else {
            None
        }
    }
}

impl Indices {
    pub fn from_vec(o: Vec<u64>) -> (r: Self)
        ensures
            r.0 == o,
    {
        Indices(o)
    }

    /// Cuts every run of equal neighbours down to one.
    pub fn dedup(&mut self)
        ensures
            final(self).0@ == without_repeats(old(self).0@),
    {
        let n = self.0.len();
        let mut out: Vec<u64> = Vec::new();
        let mut k: usize = 0;
        assert(self.0@.take(0) =~= Seq::<u64>::empty());
        while k < n
            invariant
                k <= n,
                n == self.0@.len(),
                self.0@ == old(self).0@,
                out@ == without_repeats(self.0@.take(k as int)),
            decreases n - k,
        {
            let ghost longer = self.0@.take(k + 1);
            assert(longer.drop_last() =~= self.0@.take(k as int));
            if k == 0 || self.0[k] != self.0[k - 1] {
                out.push(self.0[k]);
            }
            k += 1;
        }
        assert(self.0@.take(n as int) =~= self.0@);
        self.0 = out;
    }

    pub fn iter(&self) -> (r: IndicesIter<'_>)
        ensures
            r.remaining() == self.0@,
    {
        let r = IndicesIter { items: &self.0, at: 0 };
        assert(r.remaining() =~= self.0@);
        r
    }

    /// Puts the indices in ascending order.
    pub fn sort(&mut self)
        ensures
            sorted(final(self).0@),
            final(self).0@.to_multiset() == old(self).0@.to_multiset(),
    {
        let n = self.0.len();
        let mut out: Vec<u64> = Vec::new();
        let mut k: usize = 0;
        assert(self.0@.take(0) =~= Seq::<u64>::empty());
        while k < n
            invariant
                k <= n,
                n == self.0@.len(),
                self.0@ == old(self).0@,
                sorted(out@),
                out@.to_multiset() == self.0@.take(k as int).to_multiset(),
            decreases n - k,
        {
            let x = self.0[k];
            let mut j: usize = 0;
            while j < out.len() && out[j] <= x
                invariant
                    j <= out.len(),
                    forall|i: int| 0 <= i < j ==> out@[i] <= x,
                decreases out.len() - j,
            {
                j += 1;
            }
            let ghost before = out@;
            out.insert(j, x);
            proof {
                assert(out@.remove(j as int) =~= before);
                assert(out@[j as int] == x);
                assert(out@.to_multiset() =~= before.to_multiset().insert(x));
                assert(self.0@.take(k + 1) =~= self.0@.take(k as int).push(x));
                assert forall|a: int, b: int| 0 <= a <= b < out@.len() implies out@[a]
                    <= out@[b] by {
                    if a < j && b > j {
                        assert(before[a] <= before[b - 1]);
                    } else if a > j {
                        assert(before[a - 1] <= before[b - 1]);
                    } else if b < j {
                        assert(before[a] <= before[b]);
                    }
                }
            }
            k += 1;
        }
        assert(self.0@.take(n as int) =~= self.0@);
        self.0 = out;
    }

    pub fn to_vec(self) -> (r: Vec<u64>)
        ensures
            r == self.0,
    {
        self.0
    }

    /// Reads a list such as `0,1,2-5,9`: numbers and ranges between commas.
    /// The indices come in the order written, repeats included.
    pub fn parse(s: &str) -> (r: Result<Indices, Error>)
        ensures
            match parse_indices(s@) {
                Some(ids) => r is Ok && r->Ok_0.0@ == ids,
                None => r is Err && r->Err_0.deep_view() == ErrorView::ParseIndices(s@),
            },
    {
        let items = split_on(s, ',');
        let n = items.len();
        let mut ids: Vec<u64> = Vec::new();
        let mut k: usize = 0;
        assert(items.deep_view().take(0) =~= Seq::<Seq<char>>::empty());
        while k < n
            invariant
                k <= n,
                n == items@.len(),
                items.deep_view() == split(s@, ','),
                items_indices(items.deep_view().take(k as int)) == Some(ids@),
            decreases n - k,
        {
            let ghost longer = items.deep_view().take(k + 1);
            let ghost item = items.deep_view()[k as int];
            proof {
                assert(longer.drop_last() =~= items.deep_view().take(k as int));
                assert(longer.last() == item);
                assert(item == items@[k as int]@);
                assert(items.deep_view().take(n as int) =~= items.deep_view());
                lemma_items_indices_none(items.deep_view(), k + 1);
            }
            let ends = split_on(items[k].as_str(), '-');
            if ends.len() == 1 {
                assert(ends.deep_view()[0] == ends@[0]@);
                match parse_u64(ends[0].as_str()) {
                    Some(v) => {
                        let ghost before = ids@;
                        ids.push(v);
                        assert(ids@ =~= before + seq![v]);
                    },
                    None => {
                        return Err(Error::ParseIndices(String::from_str(s)));
                    },
                }
            } else if ends.len() == 2 {
                assert(ends.deep_view()[0] == ends@[0]@);
                assert(ends.deep_view()[1] == ends@[1]@);
                let first = match parse_u64(ends[0].as_str()) {
                    Some(v) => v,
                    None => {
                        return Err(Error::ParseIndices(String::from_str(s)));
                    },
                };
                let last = match parse_u64(ends[1].as_str()) {
                    Some(v) => v,
                    None => {
                        return Err(Error::ParseIndices(String::from_str(s)));
                    },
                };
                let ghost before = ids@;
                if first <= last {
                    let mut i = first;
                    assert(ids@ =~= before + Seq::new(0, |j: int| (first + j) as u64));
                    while i < last
                        invariant
                            first <= i <= last,
                            ids@ == before + Seq::new(
                                (i - first) as nat,
                                |j: int| (first + j) as u64,
                            ),
                        decreases last - i,
                    {
                        ids.push(i);
                        i += 1;
                        assert(ids@ =~= before + Seq::new(
                            (i - first) as nat,
                            |j: int| (first + j) as u64,
                        ));
                    }
                    ids.push(last);
                    assert(ids@ =~= before + span(first, last));
                } else {
                    assert(ids@ =~= before + span(first, last));
                }
            } else {
                return Err(Error::ParseIndices(String::from_str(s)));
            }
            k += 1;
        }
        assert(items.deep_view().take(n as int) =~= items.deep_view());
        Ok(Indices(ids))
    }
}

/// Once a prefix of the items stands for nothing, so does the whole list.
pub proof fn lemma_items_indices_none(items: Seq<Seq<char>>, k: int)
    requires
        0 <= k <= items.len(),
    ensures
        items_indices(items.take(k)) is None ==> items_indices(items) is None,
    decreases items.len() - k,
{
    if k == items.len() {
        assert(items.take(k) =~= items);
    } else {
        assert(items.drop_last().take(k) =~= items.take(k));
        lemma_items_indices_none(items.drop_last(), k);
    }
}

impl core::str::FromStr for Indices {
    type Err = Error;

    fn from_str(s: &str) -> (r: Result<Self, Error>)
        ensures
            match parse_indices(s@) {
                Some(ids) => r is Ok && r->Ok_0.0@ == ids,
                None => r is Err && r->Err_0.deep_view() == ErrorView::ParseIndices(s@),
            },
    {
        Indices::parse(s)
    }
}

/// A list of switches: on, off, or leave as it is. The place in the list
/// says which processor a switch is for.
#[derive(Clone, Debug)]
pub struct Toggles(pub Vec<Option<bool>>);

impl DeepView for Toggles {
    type V = Seq<Option<bool>>;

    open spec fn deep_view(&self) -> Seq<Option<bool>> {
        self.0@
    }
}

/// A walk over a list of switches, from the first to the last.
pub struct TogglesIter<'a> {
    items: &'a Vec<Option<bool>>,
    at: usize,
}

impl<'a> TogglesIter<'a> {
    /// The switches still to come.
    pub closed spec fn remaining(&self) -> Seq<Option<bool>> {
        if self.at <= self.items@.len() {
            self.items@.skip(self.at as int)
        } else {
            Seq::empty()
        }
    }

    /// The next switch, if one is left.
    pub fn next(&mut self) -> (r: Option<Option<bool>>)
        ensures
            old(self).remaining().len() == 0 ==> r is None,
            old(self).remaining().len() == 0 ==> final(self).remaining() == old(self).remaining(),
            old(self).remaining().len() > 0 ==> r == Some(old(self).remaining()[0]),
            old(self).remaining().len() > 0 ==> final(self).remaining() == old(
                self,
            ).remaining().skip(1),
    {
        if self.at < self.items.len() {
            let v = self.items[self.at];
            self.at = self.at + 1;
            assert(self.remaining() =~= old(self).remaining().skip(1));
            Some(v)
        } else {
            None
        }
    }
}

/// Once a prefix of the string stands for nothing, so does the whole string.
pub proof fn lemma_parse_toggles_none(s: Seq<char>, k: int)
    requires
        0 <= k <= s.len(),
    ensures
        parse_toggles(s.take(k)) is None ==> parse_toggles(s) is None,
    decreases s.len() - k,
{
    if k == s.len() {
        assert(s.take(k) =~= s);
    } else {
        assert(s.drop_last().take(k) =~= s.take(k));
        lemma_parse_toggles_none(s.drop_last(), k);
    }
}

impl Toggles {
    pub fn iter(&self) -> (r: TogglesIter<'_>)
        ensures
            r.remaining() == self.0@,
    {
        let r = TogglesIter { items: &self.0, at: 0 };
        assert(r.remaining() =~= self.0@);
        r
    }

    /// Reads a string such as `10-1`: a character for each processor, `1` for
    /// on, `0` for off, `-` to leave it; blanks are passed over.
    pub fn parse(s: &str) -> (r: Result<Toggles, Error>)
        ensures
            match parse_toggles(s@) {
                Some(bits) => r is Ok && r->Ok_0.0@ == bits,
                None => r is Err && r->Err_0.deep_view() == ErrorView::ParseToggles(s@),
            },
    {
        let n = s.unicode_len();
        let mut bits: Vec<Option<bool>> = Vec::new();
        let mut i: usize = 0;
        assert(s@.take(0) =~= Seq::<char>::empty());
        while i < n
            invariant
                i <= n,
                n == s@.len(),
                parse_toggles(s@.take(i as int)) == Some(bits@),
            decreases n - i,
        {
            let c = s.get_char(i);
            proof {
                let longer = s@.take(i + 1);
                assert(longer.drop_last() =~= s@.take(i as int));
                assert(longer.last() == c);
                lemma_parse_toggles_none(s@, i + 1);
            }
            match c {
                '0' => bits.push(Some(false)),
                '1' => bits.push(Some(true)),
                '-' => bits.push(None),
                ' ' => {},
                _ => {
                    return Err(Error::ParseToggles(String::from_str(s)));
                },
            }
            i += 1;
        }
        assert(s@.take(n as int) =~= s@);
        Ok(Toggles(bits))
    }
}

impl core::str::FromStr for Toggles {
    type Err = Error;

    fn from_str(s: &str) -> (r: Result<Self, Error>)
        ensures
            match parse_toggles(s@) {
                Some(bits) => r is Ok && r->Ok_0.0@ == bits,
                None => r is Err && r->Err_0.deep_view() == ErrorView::ParseToggles(s@),
            },
    {
        Toggles::parse(s)
    }
}

} // verus!
