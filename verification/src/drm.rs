//! The graphics cards: which there are, and which driver runs one.
//!
//! The caller lists the directory of the graphics devices and reads each
//! card's driver link; the functions here take what that gave.

use crate::pseudofs::{deep, IoFailure, IoFailureView, IoKind};
use crate::text::{parse_decimal, parse_u64};
use vstd::prelude::*;
use vstd::string::*;

verus! {

/// Why an operation of this module gave no value.
#[derive(Debug)]
pub enum Error {
    /// A name is not Unicode text.
    PathCodec,
    /// A link leads to a path without a last component.
    BadPath,
    /// Listing the directory or reading the link failed.
    StdIo(IoFailure),
}

pub enum ErrorView {
    PathCodec,
    BadPath,
    StdIo(IoFailureView),
}

impl DeepView for Error {
    type V = ErrorView;

    open spec fn deep_view(&self) -> ErrorView {
        match self {
            Error::PathCodec => ErrorView::PathCodec,
            Error::BadPath => ErrorView::BadPath,
            Error::StdIo(f) => ErrorView::StdIo(f.deep_view()),
        }
    }
}

/// The words of an error.
pub open spec fn error_message(e: ErrorView) -> Seq<char> {
    match e {
        ErrorView::PathCodec => "Path name conversion error"@,
        ErrorView::BadPath => "Bad path"@,
        ErrorView::StdIo(f) => f.detail,
    }
}

impl Error {
    /// A copy of this error.
    pub fn duplicate(&self) -> (r: Error)
        ensures
            r.deep_view() == self.deep_view(),
    {
        match self {
            Error::PathCodec => Error::PathCodec,
            Error::BadPath => Error::BadPath,
            Error::StdIo(f) => Error::StdIo(f.duplicate()),
        }
    }

    /// The error in words, for a person to read.
    pub fn message(&self) -> (r: String)
        ensures
            r@ == error_message(self.deep_view()),
    {
        match self {
            Error::PathCodec => String::from_str("Path name conversion error"),
            Error::BadPath => String::from_str("Bad path"),
            Error::StdIo(f) => f.detail.clone(),
        }
    }
}

/// One entry of a directory, as listing it gave it.
#[derive(Debug)]
pub enum Entry {
    /// An entry of this name.
    Name(String),
    /// An entry whose name is not Unicode text.
    NotUnicode,
    /// The listing failed at this entry.
    Failed(IoFailure),
}

pub enum EntryView {
    Name(Seq<char>),
    NotUnicode,
    Failed(IoFailureView),
}

impl DeepView for Entry {
    type V = EntryView;

    open spec fn deep_view(&self) -> EntryView {
        match self {
            Entry::Name(n) => EntryView::Name(n@),
            Entry::NotUnicode => EntryView::NotUnicode,
            Entry::Failed(f) => EntryView::Failed(f.deep_view()),
        }
    }
}

/// Where a link leads, as far as this module asks.
#[derive(Debug)]
pub enum Link {
    /// The last component of the path that the link leads to.
    Name(String),
    /// That component is not Unicode text.
    NotUnicode,
    /// The path has no last component.
    NoName,
}

pub enum LinkView {
    Name(Seq<char>),
    NotUnicode,
    NoName,
}

impl DeepView for Link {
    type V = LinkView;

    open spec fn deep_view(&self) -> LinkView {
        match self {
            Link::Name(n) => LinkView::Name(n@),
            Link::NotUnicode => LinkView::NotUnicode,
            Link::NoName => LinkView::NoName,
        }
    }
}

/// The number of the card that a directory entry is for: the entry is named
/// `card` and then that number, nothing more.
pub open spec fn card_of(name: Seq<char>) -> Option<u64> {
    if name.len() >= 4 && name.take(4) == "card"@ {
        parse_decimal(name.skip(4))
    } else {
        None
    }
}

/// The cards among the entries, in order; the first entry that could not be
/// listed or named makes the whole an error.
pub open spec fn cards_strict(entries: Seq<EntryView>) -> Result<Seq<u64>, ErrorView>
    decreases entries.len(),
{
    if entries.len() == 0 {
        Ok(Seq::empty())
    } else {
        match cards_strict(entries.drop_last()) {
            Err(e) => Err(e),
            Ok(ids) => match entries.last() {
                EntryView::Failed(f) => Err(ErrorView::StdIo(f)),
                EntryView::NotUnicode => Err(ErrorView::PathCodec),
                EntryView::Name(n) => match card_of(n) {
                    Some(id) => Ok(ids.push(id)),
                    None => Ok(ids),
                },
            },
        }
    }
}

/// The cards among the entries, in order; entries that could not be listed
/// or named are passed over.
pub open spec fn cards_lenient(entries: Seq<EntryView>) -> Seq<u64>
    decreases entries.len(),
{
    if entries.len() == 0 {
        Seq::empty()
    } else {
        let ids = cards_lenient(entries.drop_last());
        match entries.last() {
            EntryView::Name(n) => match card_of(n) {
                Some(id) => ids.push(id),
                None => ids,
            },
            _ => ids,
        }
    }
}

/// The cards that a listing shows, strictly.
pub open spec fn try_cards_spec(listing: Result<Seq<EntryView>, IoFailureView>) -> Result<
    Seq<u64>,
    ErrorView,
> {
    match listing {
        Err(f) => Err(ErrorView::StdIo(f)),
        Ok(entries) => cards_strict(entries),
    }
}

/// The name of the driver that a card's link shows.
pub open spec fn driver_spec(link: Result<LinkView, IoFailureView>) -> Result<
    Seq<char>,
    ErrorView,
> {
    match link {
        Err(f) => Err(ErrorView::StdIo(f)),
        Ok(LinkView::NoName) => Err(ErrorView::BadPath),
        Ok(LinkView::NotUnicode) => Err(ErrorView::PathCodec),
        Ok(LinkView::Name(n)) => Ok(n),
    }
}

/// A result with "not found" turned into `None`.
pub open spec fn found<T>(r: Result<T, ErrorView>) -> Result<Option<T>, ErrorView> {
    match r {
        Ok(v) => Ok(Some(v)),
        Err(ErrorView::StdIo(f)) => if f.kind == IoKind::NotFound {
            Ok(None)
        } else {
            Err(ErrorView::StdIo(f))
        },
        Err(e) => Err(e),
    }
}

/// Once the strict reading of a prefix is an error, that of the whole is the
/// same error.
pub proof fn lemma_cards_strict_error(entries: Seq<EntryView>, k: int)
    requires
        0 <= k <= entries.len(),
    ensures
        cards_strict(entries.take(k)) is Err ==> cards_strict(entries) == cards_strict(
            entries.take(k),
        ),
    decreases entries.len() - k,
{
    if k == entries.len() {
        assert(entries.take(k) =~= entries);
    } else {
        assert(entries.drop_last().take(k) =~= entries.take(k));
        lemma_cards_strict_error(entries.drop_last(), k);
    }
}

fn allow_missing_files<T>(result: Result<T, Error>) -> (r: Result<Option<T>, Error>)
    ensures
        match result {
            Ok(v) => r == Ok::<Option<T>, Error>(Some(v)),
            Err(Error::StdIo(f)) => if f.kind == IoKind::NotFound {
                r == Ok::<Option<T>, Error>(None)
            } else {
                r == Err::<Option<T>, Error>(Error::StdIo(f))
            },
            Err(e) => r == Err::<Option<T>, Error>(e),
        },
{
    match result {
        Ok(v) => Ok(Some(v)),
        Err(Error::StdIo(f)) => match f.kind {
            IoKind::NotFound => Ok(None),
            _ => Err(Error::StdIo(f)),
        },
        Err(e) => Err(e),
    }
}

/// The number of the card that the entry `name` is for, if it is for one.
pub fn card_number(name: &str) -> (r: Option<u64>)
    ensures
        r == card_of(name@),
{
    let n = name.unicode_len();
    proof {
        reveal_strlit("card");
    }
    if n >= 4 && name.get_char(0) == 'c' && name.get_char(1) == 'a' && name.get_char(2) == 'r'
        && name.get_char(3) == 'd' {
        assert(name@.take(4) =~= "card"@);
        let rest = name.substring_char(4, n);
        assert(rest@ =~= name@.skip(4));
        parse_u64(rest)
    } else {
        if n >= 4 {
            assert(name@.take(4)[0] == name@[0]);
            assert(name@.take(4)[1] == name@[1]);
            assert(name@.take(4)[2] == name@[2]);
            assert(name@.take(4)[3] == name@[3]);
        }
        None
    }
}

/// The numbers of the cards in a listing of the graphics devices. A listing
/// that failed, as a whole or at an entry, is an error, and so is a name that
/// is not text.
pub fn try_cards(listing: Result<Vec<Entry>, IoFailure>) -> (r: Result<Vec<u64>, Error>)
    ensures
        deep(r) == try_cards_spec(deep(listing)),
{
    let entries = match listing {
        Ok(e) => e,
        Err(f) => {
            return Err(Error::StdIo(f));
        },
    };
    let n = entries.len();
    let mut cards: Vec<u64> = Vec::new();
    let mut k: usize = 0;
    let ghost all = entries.deep_view();
    assert(all.take(0) =~= Seq::<EntryView>::empty());
    while k < n
        invariant
            k <= n,
            n == entries@.len(),
            all == entries.deep_view(),
            deep(listing) == Ok::<Seq<EntryView>, IoFailureView>(all),
            cards_strict(all.take(k as int)) == Ok::<Seq<u64>, ErrorView>(cards@),
        decreases n - k,
    {
        proof {
            let longer = all.take(k + 1);
            assert(longer.drop_last() =~= all.take(k as int));
            assert(longer.last() == entries@[k as int].deep_view());
            lemma_cards_strict_error(all, k + 1);
        }
        match &entries[k] {
            Entry::Failed(f) => {
                return Err(Error::StdIo(f.duplicate()));
            },
            Entry::NotUnicode => {
                return Err(Error::PathCodec);
            },
            Entry::Name(name) => {
                match card_number(name.as_str()) {
                    Some(id) => {
                        cards.push(id);
                    },
                    None => {},
                }
            },
        }
        k += 1;
    }
    assert(all.take(n as int) =~= all);
    assert(cards.deep_view() =~= cards@);
    Ok(cards)
}

/// The numbers of the cards in a listing of the graphics devices, or `None`
/// where the listing failed as a whole. Entries that could not be listed or
/// named are passed over.
pub fn cards(listing: Result<Vec<Entry>, IoFailure>) -> (r: Result<Option<Vec<u64>>, Error>)
    ensures
        deep(r) == match deep(listing) {
            Err(_) => Ok::<Option<Seq<u64>>, ErrorView>(None),
            Ok(entries) => Ok(Some(cards_lenient(entries))),
        },
{
    let entries = match listing {
        Ok(e) => e,
        Err(_) => {
            return Ok(None);
        },
    };
    let n = entries.len();
    let mut cards: Vec<u64> = Vec::new();
    let mut k: usize = 0;
    let ghost all = entries.deep_view();
    assert(all.take(0) =~= Seq::<EntryView>::empty());
    while k < n
        invariant
            k <= n,
            n == entries@.len(),
            all == entries.deep_view(),
            deep(listing) == Ok::<Seq<EntryView>, IoFailureView>(all),
            cards_lenient(all.take(k as int)) == cards@,
        decreases n - k,
    {
        proof {
            let longer = all.take(k + 1);
            assert(longer.drop_last() =~= all.take(k as int));
            assert(longer.last() == entries@[k as int].deep_view());
        }
        match &entries[k] {
            Entry::Name(name) => {
                match card_number(name.as_str()) {
                    Some(id) => {
                        cards.push(id);
                    },
                    None => {},
                }
            },
            _ => {},
        }
        k += 1;
    }
    assert(all.take(n as int) =~= all);
    assert(cards.deep_view() =~= cards@);
    Ok(Some(cards))
}

/// The name of the driver of a card, from what reading the card's driver
/// link gave.
pub fn try_card_driver(card_id: u64, link: Result<Link, IoFailure>) -> (r: Result<String, Error>)
    ensures
        deep(r) == driver_spec(deep(link)),
{
    match link {
        Err(f) => Err(Error::StdIo(f)),
        Ok(Link::NoName) => Err(Error::BadPath),
        Ok(Link::NotUnicode) => Err(Error::PathCodec),
        Ok(Link::Name(n)) => Ok(n),
    }
}

/// The name of the driver of a card, or `None` where the link was not found.
pub fn card_driver(card_id: u64, link: Result<Link, IoFailure>) -> (r: Result<
    Option<String>,
    Error,
>)
    ensures
        deep(r) == found(driver_spec(deep(link))),
{
    allow_missing_files(try_card_driver(card_id, link))
}

} // verus!
