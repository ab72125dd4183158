//! The records of a symbol table: eight bytes each, an address and the place
//! of a zero-terminated name.

use crate::bytes::{read_string_zero, read_u32, string_at, u32_at};
use crate::error::{Error, Field};
use vstd::prelude::*;

verus! {

/// What a symbol record says: a name and an address.
pub ghost struct Symbol {
    pub name: Seq<u8>,
    pub address: int,
}

/// A function that the module calls and the host provides. Its address is
/// filled in when the module is loaded; in a file it is a placeholder.
#[derive(Debug, PartialEq, Eq)]
pub struct Native {
    /// The name, without its terminator.
    pub name: Vec<u8>,
    /// The address that the record holds.
    pub address: usize,
}

/// A function that the module offers to the host.
#[derive(Debug, PartialEq, Eq)]
pub struct Public {
    /// The name, without its terminator.
    pub name: Vec<u8>,
    /// Where the function starts in the code segment.
    pub address: usize,
}

impl View for Native {
    type V = Symbol;

    open spec fn view(&self) -> Symbol {
        Symbol { name: self.name@, address: self.address as int }
    }
}

impl View for Public {
    type V = Symbol;

    open spec fn view(&self) -> Symbol {
        Symbol { name: self.name@, address: self.address as int }
    }
}

/// The number of records in a table of `size` bytes, each of eight bytes. A
/// last record that is cut short counts: reading it is an error.
pub open spec fn record_count(size: int) -> int {
    (size + 7) / 8
}

/// What record `index` of the table between `start` and `end` in `b` gives.
/// Its two fields are read one after the other, and each must lie inside the
/// table and inside the buffer: the first that does not is the field of the
/// error. A name that starts past the end of the buffer cannot be read
/// either. Where the name starts inside the buffer, or at its end, and no
/// zero byte follows, the string is unterminated.
#[verifier::opaque]
pub open spec fn symbol_at(b: Seq<u8>, start: int, end: int, index: int) -> Result<Symbol, Error> {
    let at = start + 8 * index;
    if at + 4 > end || at + 4 > b.len() {
        Err(Error::Truncated { field: Field::SymbolAddress })
    } else if at + 8 > end || at + 8 > b.len() {
        Err(Error::Truncated { field: Field::SymbolNameOffset })
    } else if u32_at(b, at + 4) > b.len() {
        Err(Error::Truncated { field: Field::SymbolName })
    } else {
        match string_at(b, u32_at(b, at + 4)) {
            Some(name) => Ok(Symbol { name, address: u32_at(b, at) }),
            None => Err(Error::UnterminatedString),
        }
    }
}

/// Whether record `index` is the first of the table that cannot be read.
pub open spec fn is_first_unreadable(b: Seq<u8>, start: int, end: int, index: int) -> bool {
    &&& 0 <= index < record_count(end - start)
    &&& symbol_at(b, start, end, index) is Err
    &&& forall|j: int| 0 <= j < index ==> #[trigger] symbol_at(b, start, end, j) is Ok
}

/// The symbols of the table between `start` and `end` in `b`, all of them
/// and in the order of the table. A table that ends before it starts is
/// malformed. Otherwise the records are read in their order, and the first
/// that cannot be read gives the error: a table that reaches past the end
/// of the buffer is truncated at the first field that the buffer does not
/// hold.
pub open spec fn table(b: Seq<u8>, start: int, end: int) -> Result<Seq<Symbol>, Error> {
    if start > end {
        Err(Error::MalformedSegment)
    } else if exists|i: int| is_first_unreadable(b, start, end, i) {
        let first = choose|i: int| is_first_unreadable(b, start, end, i);
        Err(symbol_at(b, start, end, first)->Err_0)
    } else {
        Ok(Seq::new(record_count(end - start) as nat, |i: int| symbol_at(b, start, end, i)->Ok_0))
    }
}

/// The symbol that a name and an address make.
pub open spec fn pair_symbol(pair: (Vec<u8>, usize)) -> Symbol {
    Symbol { name: pair.0@, address: pair.1 as int }
}

/// The symbols that `pairs` of name and address make.
pub open spec fn pair_symbols(pairs: Seq<(Vec<u8>, usize)>) -> Seq<Symbol> {
    pairs.map_values(|p: (Vec<u8>, usize)| pair_symbol(p))
}

/// The symbols that `natives` hold.
pub open spec fn native_symbols(natives: Seq<Native>) -> Seq<Symbol> {
    natives.map_values(|n: Native| n@)
}

/// The symbols that `publics` hold.
pub open spec fn public_symbols(publics: Seq<Public>) -> Seq<Symbol> {
    publics.map_values(|p: Public| p@)
}

/// A table of which every record was read is the sequence of these records.
pub proof fn lemma_table_read(b: Seq<u8>, start: int, end: int, symbols: Seq<Symbol>)
    requires
        start <= end,
        symbols.len() == record_count(end - start),
        forall|i: int|
            0 <= i < symbols.len() ==> #[trigger] symbol_at(b, start, end, i) == Ok::<
                Symbol,
                Error,
            >(symbols[i]),
    ensures
        table(b, start, end) == Ok::<Seq<Symbol>, Error>(symbols),
{
    assert forall|i: int| !is_first_unreadable(b, start, end, i) by {
        if 0 <= i < symbols.len() {
            assert(symbol_at(b, start, end, i) is Ok);
        }
    }
    assert(table(b, start, end)->Ok_0 =~= symbols);
}

/// A table of which record `index` is the first that cannot be read gives
/// the error of that record.
pub proof fn lemma_table_unreadable(b: Seq<u8>, start: int, end: int, index: int)
    requires
        start <= end,
        is_first_unreadable(b, start, end, index),
    ensures
        table(b, start, end) == Err::<Seq<Symbol>, Error>(symbol_at(b, start, end, index)->Err_0),
{
    // Two records cannot both be the first that fails.
    let first = choose|i: int| is_first_unreadable(b, start, end, i);
    if first < index {
        assert(symbol_at(b, start, end, first) is Ok);
    }
    if index < first {
        assert(symbol_at(b, start, end, index) is Ok);
    }
}

/// Whether `symbol` is what record `index` of the table between `start` and
/// `end` holds: the record lies inside the table and inside the buffer, the
/// address is the one in the record, and the name is the zero-terminated
/// string at the place that the record gives.
pub open spec fn is_record(b: Seq<u8>, start: int, end: int, index: int, symbol: Symbol) -> bool {
    &&& start + 8 * index + 8 <= end
    &&& start + 8 * index + 8 <= b.len()
    &&& symbol.address == u32_at(b, start + 8 * index)
    &&& string_at(b, u32_at(b, start + 8 * index + 4)) == Some(symbol.name)
}

/// A table that can be read has one symbol for each record, in the order of
/// the records, and each symbol is what its record holds.
pub proof fn lemma_table_entries(b: Seq<u8>, start: int, end: int)
    requires
        table(b, start, end) is Ok,
    ensures
        table(b, start, end)->Ok_0.len() == record_count(end - start),
        forall|i: int|
            0 <= i < record_count(end - start) ==> is_record(
                b,
                start,
                end,
                i,
                #[trigger] table(b, start, end)->Ok_0[i],
            ),
{
    let symbols = table(b, start, end)->Ok_0;
    assert forall|i: int| 0 <= i < record_count(end - start) implies is_record(
        b,
        start,
        end,
        i,
        #[trigger] symbols[i],
    ) by {
        reveal(symbol_at);
        lemma_all_readable(b, start, end, i);
        assert(symbols[i] == symbol_at(b, start, end, i)->Ok_0);
    }
}

/// A table that reaches past the end of the buffer cannot be read, and what
/// it fails with is `Truncated` unless a record that the buffer holds in
/// full has a name without terminator.
pub proof fn lemma_table_past_buffer(b: Seq<u8>, start: int, end: int)
    requires
        0 <= start < end,
        end > b.len(),
    ensures
        table(b, start, end) is Err,
        table(b, start, end)->Err_0 is Truncated || table(b, start, end)->Err_0
            == Error::UnterminatedString,
{
    reveal(symbol_at);
    let last = record_count(end - start) - 1;
    assert(start + 8 * last + 8 >= end);
    if table(b, start, end) is Ok {
        lemma_all_readable(b, start, end, last);
    } else {
        let first = choose|i: int| is_first_unreadable(b, start, end, i);
        assert(is_first_unreadable(b, start, end, first));
    }
}

/// In a table that can be read, every record can be read.
proof fn lemma_all_readable(b: Seq<u8>, start: int, end: int, index: int)
    requires
        table(b, start, end) is Ok,
        0 <= index < record_count(end - start),
    ensures
        symbol_at(b, start, end, index) is Ok,
    decreases index,
{
    if symbol_at(b, start, end, index) is Err {
        if forall|j: int| 0 <= j < index ==> #[trigger] symbol_at(b, start, end, j) is Ok {
            assert(is_first_unreadable(b, start, end, index));
        } else {
            let j = choose|j: int| 0 <= j < index && !(#[trigger] symbol_at(b, start, end, j) is Ok);
            lemma_all_readable(b, start, end, j);
        }
    }
}

/// Reads record `index` of the table between `start` and `end`. A record
/// that is read in full ends at or before `end`.
fn read_symbol(bin: &[u8], start: usize, end: usize, index: usize) -> (r: Result<
    (Vec<u8>, usize),
    Error,
>)
    requires
        start + 8 * index < end,
    ensures
        r matches Ok(s) ==> {
            &&& symbol_at(bin@, start as int, end as int, index as int) == Ok::<Symbol, Error>(
                pair_symbol(s),
            )
            &&& start + 8 * index + 8 <= end
        },
        r matches Err(e) ==> symbol_at(bin@, start as int, end as int, index as int) == Err::<
            Symbol,
            Error,
        >(e),
{
    reveal(symbol_at);
    let at = start + 8 * index;
    if end - at < 4 {
        return Err(Error::Truncated { field: Field::SymbolAddress });
    }
    let address = match read_u32(bin, at) {
        Some(v) => v,
        None => return Err(Error::Truncated { field: Field::SymbolAddress }),
    };
    if end - at < 8 {
        return Err(Error::Truncated { field: Field::SymbolNameOffset });
    }
    let name_offset = match read_u32(bin, at + 4) {
        Some(v) => v,
        None => return Err(Error::Truncated { field: Field::SymbolNameOffset }),
    };
    if name_offset as usize > bin.len() {
        return Err(Error::Truncated { field: Field::SymbolName });
    }
    let name = read_string_zero(bin, name_offset as usize)?;
    Ok((name, address as usize))
}

/// Reads the table between `start` and `end` of `bin` into pairs of name and
/// address, in the order of the records.
pub(crate) fn read_table(bin: &[u8], start: usize, end: usize) -> (r: Result<
    Vec<(Vec<u8>, usize)>,
    Error,
>)
    ensures
        match table(bin@, start as int, end as int) {
            Ok(symbols) => r matches Ok(v) && pair_symbols(v@) == symbols,
            Err(e) => r matches Err(found) && found == e,
        },
{
    if start > end {
        return Err(Error::MalformedSegment);
    }
    let mut pairs: Vec<(Vec<u8>, usize)> = Vec::new();
    while start + 8 * pairs.len() < end
        invariant
            start + 8 * pairs@.len() <= end,
            forall|i: int|
                0 <= i < pairs@.len() ==> #[trigger] symbol_at(bin@, start as int, end as int, i)
                    == Ok::<Symbol, Error>(pair_symbol(pairs@[i])),
        decreases end - start - 8 * pairs@.len(),
    {
        let pair = match read_symbol(bin, start, end, pairs.len()) {
            Ok(s) => s,
            Err(e) => {
                proof {
                    lemma_table_unreadable(bin@, start as int, end as int, pairs@.len() as int);
                }
                return Err(e);
            },
        };
        pairs.push(pair);
    }
    proof {
        lemma_table_read(bin@, start as int, end as int, pair_symbols(pairs@));
    }
    Ok(pairs)
}

} // verus!
