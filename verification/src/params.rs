//! The parameter source: design parameters by symbol.
use vstd::prelude::*;
use vstd::utf8::encode_utf8;
use crate::utils::decimal::parse_decimal;
use crate::utils::decimal::parsed;
use crate::utils::fixed::Fixed;

verus! {

/// One parameter as it was entered.
pub struct Entry {
    pub symbol: String,
    pub value: Fixed,
}

/// A table from symbol to value. Where a symbol is entered more than once,
/// the last entry counts.
pub struct Params {
    entries: Vec<Entry>,
}

/// The table that a list of entries makes, later entries over earlier ones.
pub open spec fn table_of(entries: Seq<Entry>) -> Map<Seq<char>, Fixed>
    decreases entries.len(),
{
    if entries.len() == 0 {
        Map::empty()
    } else {
        table_of(entries.drop_last()).insert(entries.last().symbol@, entries.last().value)
    }
}

/// The value that `table` holds under `symbol`, if any.
pub open spec fn lookup(table: Map<Seq<char>, Fixed>, symbol: Seq<char>) -> Option<Fixed> {
    if table.contains_key(symbol) {
        Some(table[symbol])
    } else {
        None
    }
}

/// Why a list of records was not taken into a table.
#[derive(Clone, Copy, Debug, PartialEq, Eq)]
pub enum ParamError {
    /// The text is not a well-formed list of records.
    Malformed,
    /// The record at this position has fewer than two fields.
    TooFewFields { record: usize },
    /// The second field of the record at this position is not a decimal
    /// number that can be held.
    BadNumber { record: usize },
}

/// What is wrong with one record, if anything: records start with a symbol
/// and its value.
pub open spec fn record_fault(record: Seq<Seq<char>>, index: usize) -> Option<ParamError> {
    if record.len() < 2 {
        Some(ParamError::TooFewFields { record: index })
    } else if parsed(encode_utf8(record[1])) is None {
        Some(ParamError::BadNumber { record: index })
    } else {
        None
    }
}

/// `table` after the first `n` of `records` have been entered in order.
pub open spec fn entered(
    table: Map<Seq<char>, Fixed>,
    records: Seq<Seq<Seq<char>>>,
    n: int,
) -> Map<Seq<char>, Fixed>
    decreases n,
{
    if n <= 0 {
        table
    } else {
        entered(table, records, n - 1).insert(
            records[n - 1][0],
            parsed(encode_utf8(records[n - 1][1])).unwrap(),
        )
    }
}

proof fn lemma_lookup_absent(entries: Seq<Entry>, symbol: Seq<char>)
    requires
        forall|j: int| 0 <= j < entries.len() ==> entries[j].symbol@ != symbol,
    ensures
        !table_of(entries).contains_key(symbol),
    decreases entries.len(),
{
    if entries.len() > 0 {
        lemma_lookup_absent(entries.drop_last(), symbol);
    }
}

proof fn lemma_lookup_last(entries: Seq<Entry>, i: int, symbol: Seq<char>)
    requires
        0 <= i < entries.len(),
        entries[i].symbol@ == symbol,
        forall|j: int| i < j < entries.len() ==> entries[j].symbol@ != symbol,
    ensures
        lookup(table_of(entries), symbol) == Some(entries[i].value),
    decreases entries.len(),
{
    if i < entries.len() - 1 {
        lemma_lookup_last(entries.drop_last(), i, symbol);
    }
}

impl View for Params {
    type V = Map<Seq<char>, Fixed>;

    closed spec fn view(&self) -> Map<Seq<char>, Fixed> {
        table_of(self.entries@)
    }
}

impl Params {
    /// The empty table.
    pub fn new() -> (params: Params)
        ensures
            params@ == Map::<Seq<char>, Fixed>::empty(),
    {
        Params { entries: Vec::new() }
    }

    /// Enters `value` under `symbol`, in place of what was there.
    pub fn insert(&mut self, symbol: String, value: Fixed)
        ensures
            final(self)@ == old(self)@.insert(symbol@, value),
    {
        let ghost before = self.entries@;
        self.entries.push(Entry { symbol, value });
        assert(self.entries@.drop_last() =~= before);
    }

    /// The value under `symbol`, or `None` where there is none.
    pub fn get(&self, symbol: &str) -> (value: Option<Fixed>)
        ensures
            value == lookup(self@, symbol@),
    {
        let key: String = String::from_str(symbol);
        let mut i: usize = self.entries.len();
        while i > 0
            invariant
                i <= self.entries@.len(),
                key@ == symbol@,
                forall|j: int| i <= j < self.entries@.len() ==> self.entries@[j].symbol@ != symbol@,
            decreases i,
        {
            i -= 1;
            if self.entries[i].symbol == key {
                proof {
                    lemma_lookup_last(self.entries@, i as int, symbol@);
                }
                return Some(self.entries[i].value);
            }
        }
        proof {
            lemma_lookup_absent(self.entries@, symbol@);
        }
        None
    }

    /// Enters records in order, each a symbol followed by its value as a
    /// decimal number; further fields are ignored.
    ///
    /// Stops at the first record that is too short or whose value cannot be
    /// read, and reports its position.
    pub fn with_records(self, records: &Vec<Vec<String>>) -> (r: Result<Params, ParamError>)
        ensures
            match r {
                Ok(params) => {
                    &&& forall|i: int|
                        0 <= i < records.len() ==> record_fault(
                            #[trigger] records.deep_view()[i],
                            i as usize,
                        ) is None
                    &&& params@ == entered(self@, records.deep_view(), records.len() as int)
                },
                Err(e) => exists|i: int|
                    {
                        &&& 0 <= i < records.len()
                        &&& record_fault(#[trigger] records.deep_view()[i], i as usize) == Some(e)
                        &&& forall|j: int|
                            0 <= j < i ==> record_fault(
                                #[trigger] records.deep_view()[j],
                                j as usize,
                            ) is None
                    },
            },
    {
        let mut params: Params = self;
        let ghost start = params@;
        let ghost texts = records.deep_view();
        let mut i: usize = 0;
        while i < records.len()
            invariant
                i <= records.len(),
                texts == records.deep_view(),
                forall|j: int| 0 <= j < i ==> record_fault(#[trigger] texts[j], j as usize) is None,
                params@ == entered(start, texts, i as int),
            decreases records.len() - i,
        {
            let record: &Vec<String> = &records[i];
            assert(texts[i as int] == record.deep_view());
            if record.len() < 2 {
                return Err(ParamError::TooFewFields { record: i });
            }
            assert(texts[i as int][0] == record[0]@);
            assert(texts[i as int][1] == record[1]@);
            match parse_decimal(record[1].as_str().as_bytes()) {
                None => {
                    return Err(ParamError::BadNumber { record: i });
                },
                Some(value) => {
                    params.insert(record[0].clone(), value);
                },
            }
            i += 1;
        }
        Ok(params)
    }
}

} // verus!
