//! The data that a template is rendered against: a tree of tables, arrays
//! and scalars, as a TOML document describes it.

use vstd::prelude::*;

verus! {

/// A value of the data document.
#[derive(Debug)]
pub enum Datum {
    /// A string.
    Text(String),
    /// An integer.
    Integer(i64),
    /// A floating-point number, in its decimal notation.
    Real(String),
    /// A boolean.
    Boolean(bool),
    /// A date, a time or both, in TOML's notation.
    Datetime(String),
    /// A sequence of values.
    Array(Vec<Datum>),
    /// A nested table: keys with their values.
    Table(Vec<(String, Datum)>),
}

/// The mathematical content of a [`Datum`].
pub enum DatumView {
    Text(Seq<char>),
    Integer(int),
    Real(Seq<char>),
    Boolean(bool),
    Datetime(Seq<char>),
    Array(Seq<DatumView>),
    Table(Seq<(Seq<char>, DatumView)>),
}

impl Datum {
    /// The content of the value, level by level.
    pub open spec fn content(self) -> DatumView
        decreases self,
    {
        match self {
            Datum::Text(s) => DatumView::Text(s@),
            Datum::Integer(i) => DatumView::Integer(i as int),
            Datum::Real(s) => DatumView::Real(s@),
            Datum::Boolean(b) => DatumView::Boolean(b),
            Datum::Datetime(s) => DatumView::Datetime(s@),
            Datum::Array(items) => DatumView::Array(
                Seq::new(
                    items@.len(),
                    |i: int|
                        if 0 <= i < items@.len() {
                            items@[i].content()
                        } else {
                            DatumView::Boolean(false)
                        },
                ),
            ),
            Datum::Table(entries) => DatumView::Table(
                Seq::new(
                    entries@.len(),
                    |i: int|
                        if 0 <= i < entries@.len() {
                            (entries@[i].0@, entries@[i].1.content())
                        } else {
                            (Seq::empty(), DatumView::Boolean(false))
                        },
                ),
            ),
        }
    }
}

impl View for Datum {
    type V = DatumView;

    open spec fn view(&self) -> DatumView {
        self.content()
    }
}

/// The content of a list of keyed values.
pub open spec fn entries_view(entries: Seq<(String, Datum)>) -> Seq<(Seq<char>, DatumView)> {
    Seq::new(entries.len(), |i: int| (entries[i].0@, entries[i].1@))
}

/// The content of a table is the content of its entries.
pub proof fn lemma_table_view(entries: Vec<(String, Datum)>)
    ensures
        Datum::Table(entries)@ == DatumView::Table(entries_view(entries@)),
{
    let whole = Datum::Table(entries);
    assert(whole@ is Table);
    let inner = whole@->Table_0;
    assert(inner.len() == entries@.len());
    assert forall|i: int| 0 <= i < inner.len() implies inner[i] == entries_view(entries@)[i] by {}
    assert(inner =~= entries_view(entries@));
}

/// The rendering context: the top-level table of the data document. Where a
/// key stands twice, the later entry counts.
#[derive(Debug)]
pub struct DataContext {
    pub entries: Vec<(String, Datum)>,
}

impl View for DataContext {
    type V = Seq<(Seq<char>, DatumView)>;

    open spec fn view(&self) -> Seq<(Seq<char>, DatumView)> {
        entries_view(self.entries@)
    }
}

/// The value that `entries` gives to `key`, if any.
pub open spec fn lookup(entries: Seq<(Seq<char>, DatumView)>, key: Seq<char>) -> Option<DatumView>
    decreases entries.len(),
{
    if entries.len() == 0 {
        None
    } else if entries.last().0 == key {
        Some(entries.last().1)
    } else {
        lookup(entries.drop_last(), key)
    }
}

impl DataContext {
    /// The context without any key: what a run without a data file renders
    /// against.
    pub fn empty() -> (ctx: DataContext)
        ensures
            ctx@ == Seq::<(Seq<char>, DatumView)>::empty(),
    {
        let ctx = DataContext { entries: Vec::new() };
        assert(ctx@ =~= Seq::<(Seq<char>, DatumView)>::empty());
        ctx
    }

    /// The value of the top-level key `key`.
    pub fn get(&self, key: &str) -> (found: Option<&Datum>)
        ensures
            match found {
                Some(v) => lookup(self@, key@) == Some(v@),
                None => lookup(self@, key@) is None,
            },
    {
        let wanted = String::from_str(key);
        let n: usize = self.entries.len();
        let mut found: Option<&Datum> = None;
        let mut i: usize = 0;
        while i < n
            invariant
                n == self.entries@.len(),
                i <= n,
                wanted@ == key@,
                match found {
                    Some(v) => lookup(self@.take(i as int), key@) == Some(v@),
                    None => lookup(self@.take(i as int), key@) is None,
                },
            decreases n - i,
        {
            assert(self@.take(i + 1).drop_last() =~= self@.take(i as int));
            if self.entries[i].0 == wanted {
                found = Some(&self.entries[i].1);
            }
            i = i + 1;
        }
        assert(self@.take(n as int) =~= self@);
        found
    }
}

} // verus!
