//! Reading attributes out of a heap tuple (PostgreSQL's `heap_getattr` family),
//! over a model of the tuple that holds what these functions read: the header's
//! flag words, its null bitmap, and the datum stored for each attribute.

use vstd::prelude::*;
use crate::types::{to_bool, CBool, CFalse};

verus! {

/// A PostgreSQL `Datum`: a machine word that holds a value or points to one.
pub type Datum = usize;

/// The bits of `t_infomask2` that hold the number of attributes (11 bits).
pub const HEAP_NATTS_MASK: u16 = 0x07FF;

/// The bit of `t_infomask` that is set when the tuple has a null attribute.
pub const HEAP_HASNULL: u16 = 0x0001;

/// A heap tuple header: its flag words and, when `HEAP_HASNULL` is set, its null
/// bitmap (bit `i` of the bitmap is set when attribute `i + 1` is not null).
#[derive(Debug, Clone)]
pub struct HeapTupleHeader {
    pub t_infomask2: u16,
    pub t_infomask: u16,
    pub t_bits: Vec<u8>,
}

/// A heap tuple: its header, and the datum stored for each attribute in attribute
/// order (`values[i]` for attribute `i + 1`; meaningless for a null attribute).
#[derive(Debug, Clone)]
pub struct HeapTuple {
    pub t_data: HeapTupleHeader,
    pub values: Vec<Datum>,
}

/// A tuple descriptor, as far as attribute lookup reads it: its number of attributes.
#[derive(Debug, Clone, Copy)]
pub struct TupleDesc {
    pub natts: i32,
}

/// The number of attributes a header records.
pub open spec fn spec_natts(header: HeapTupleHeader) -> u16 {
    header.t_infomask2 & HEAP_NATTS_MASK
}

/// True when the header says that the tuple has a null attribute.
pub open spec fn has_nulls(header: HeapTupleHeader) -> bool {
    HEAP_HASNULL & header.t_infomask != 0
}

/// PostgreSQL's `att_isnull`: true when bit `att` of the null bitmap is clear.
pub open spec fn spec_att_isnull(att: u32, bits: Seq<u8>) -> bool {
    bits[(att >> 3u32) as int] & (1u8 << ((att & 7u32) as u8)) == 0
}

impl HeapTuple {
    /// A tuple as the server hands it out: a datum for each attribute the header
    /// records, and a null bitmap with a bit for each of them when it has nulls.
    pub open spec fn well_formed(self) -> bool {
        &&& self.values@.len() >= spec_natts(self.t_data)
        &&& has_nulls(self.t_data) ==> self.t_data.t_bits@.len() * 8 >= spec_natts(self.t_data)
    }

    /// True when user attribute `attnum` (counted from 1) is SQL `NULL`.
    pub open spec fn attribute_is_null(self, attnum: u32) -> bool {
        has_nulls(self.t_data) && spec_att_isnull((attnum - 1) as u32, self.t_data.t_bits@)
    }

    /// The value of user attribute `attnum` (counted from 1): `None` for SQL `NULL`,
    /// its datum otherwise.
    pub open spec fn attribute_value(self, attnum: u32) -> Option<Datum> {
        if self.attribute_is_null(attnum) {
            None
        } else {
            Some(self.values@[attnum - 1])
        }
    }
}

/// The number of attributes recorded in a tuple header: the low 11 bits of `t_infomask2`.
#[allow(non_snake_case)]
pub fn HeapTupleHeaderGetNatts(header: &HeapTupleHeader) -> (natts: u16)
    ensures
        natts == spec_natts(*header),
        natts <= HEAP_NATTS_MASK,
{
    let flags: u16 = header.t_infomask2;
    assert(flags & 0x07FFu16 <= 0x07FFu16) by (bit_vector);
    flags & HEAP_NATTS_MASK
}

/// True when the tuple has no null attribute: the `HEAP_HASNULL` bit of `t_infomask` is clear.
#[allow(non_snake_case)]
pub fn HeapTupleNoNulls(tuple: &HeapTuple) -> (no_nulls: bool)
    ensures
        no_nulls == !has_nulls(tuple.t_data),
{
    0 == (HEAP_HASNULL & tuple.t_data.t_infomask)
}

/// True when bit `att` of a null bitmap is clear, that is when attribute `att + 1`
/// is null.
pub fn att_isnull(att: u32, bits: &[u8]) -> (isnull: bool)
    requires
        att / 8 < bits@.len(),
    ensures
        isnull == spec_att_isnull(att, bits@),
{
    assert(att >> 3u32 == att / 8 && (att & 7u32) < 8) by (bit_vector);
    let byte = bits[(att >> 3u32) as usize];
    let shift: u8 = (att & 7u32) as u8;
    byte & (1u8 << shift) == 0
}

/// Fetches user attribute `attnum` (counted from 1) of a tuple that has it: `None`
/// when the attribute is null, its datum otherwise.
pub fn fastgetattr(tuple: &HeapTuple, attnum: u32, tuple_desc: &TupleDesc) -> (datum: Option<Datum>)
    requires
        tuple.well_formed(),
        1 <= attnum <= spec_natts(tuple.t_data),
    ensures
        datum == tuple.attribute_value(attnum),
{
    if HeapTupleNoNulls(tuple) {
        Some(tuple.values[(attnum - 1) as usize])
    } else if att_isnull(attnum - 1, tuple.t_data.t_bits.as_slice()) {
        None
    } else {
        Some(tuple.values[(attnum - 1) as usize])
    }
}

/// What [`heap_getattr`] found for an attribute number.
#[derive(Debug, Clone, Copy, PartialEq, Eq, Structural)]
pub enum AttributeLookup {
    /// The lookup is complete, with this result.
    Found(Option<Datum>),
    /// The attribute is a system attribute: its value comes from `heap_getsysattr`,
    /// whose outcome [`system_attribute_datum`] reads.
    SystemAttribute,
}

/// Looks up attribute `attnum` of a tuple. A user attribute (`attnum > 0`) past the
/// attributes the header records is absent; any other user attribute is its value
/// (`None` for SQL `NULL`); attribute number 0 is a system attribute.
pub fn heap_getattr(tuple: &HeapTuple, attnum: u32, tuple_desc: &TupleDesc) -> (res: AttributeLookup)
    requires
        tuple.well_formed(),
    ensures
        attnum > spec_natts(tuple.t_data) ==> res == AttributeLookup::Found(None),
        1 <= attnum <= spec_natts(tuple.t_data) ==> res == AttributeLookup::Found(
            tuple.attribute_value(attnum),
        ),
        attnum == 0 ==> res == AttributeLookup::SystemAttribute,
{
    if attnum > 0 {
        let natts = HeapTupleHeaderGetNatts(&tuple.t_data);
        if attnum > natts as u32 {
            AttributeLookup::Found(None)
        } else {
            AttributeLookup::Found(fastgetattr(tuple, attnum, tuple_desc))
        }
    } else {
        AttributeLookup::SystemAttribute
    }
}

/// Reads the outcome of `heap_getsysattr` for [`heap_getattr`]: `None` when the
/// returned null flag is set, the datum otherwise.
pub fn system_attribute_datum(datum: Datum, isnull: CBool) -> (res: Option<Datum>)
    ensures
        isnull != CFalse ==> res is None,
        isnull == CFalse ==> res == Some(datum),
{
    if to_bool(isnull) {
        None
    } else {
        Some(datum)
    }
}

/// Reads the outcome of fetching a column: `None` when the returned null flag is set,
/// the datum otherwise.
pub fn datum_unless_null(datum: Datum, isnull: CBool) -> (res: Option<Datum>)
    ensures
        isnull != CFalse ==> res is None,
        isnull == CFalse ==> res == Some(datum),
{
    if to_bool(isnull) {
        None
    } else {
        Some(datum)
    }
}

/// The attribute count is the low 11 bits of `t_infomask2` (its value modulo 2048),
/// and a tuple has nulls exactly when `t_infomask` is odd.
pub proof fn law_header_flags(header: HeapTupleHeader)
    ensures
        spec_natts(header) == header.t_infomask2 % 2048,
        has_nulls(header) == (header.t_infomask % 2 == 1),
{
    let a: u16 = header.t_infomask2;
    let b: u16 = header.t_infomask;
    assert(a & 0x07FFu16 == a % 2048) by (bit_vector);
    assert((0x0001u16 & b != 0) == (b % 2 == 1)) by (bit_vector);
}

/// A user attribute within the header's count is null exactly when the tuple has
/// nulls and the attribute's bit in the null bitmap (bit `(attnum - 1) % 8` of byte
/// `(attnum - 1) / 8`) is clear; otherwise its value is the stored datum, whatever
/// that datum is (zero included).
pub proof fn law_attribute_value(t: HeapTuple, attnum: u32)
    requires
        1 <= attnum <= t.t_data.t_infomask2 % 2048,
        t.values@.len() >= attnum,
        t.t_data.t_infomask % 2 == 1 ==> (attnum - 1) / 8 < t.t_data.t_bits@.len(),
    ensures
        t.t_data.t_infomask % 2 == 0 ==> t.attribute_value(attnum) == Some(t.values@[attnum - 1]),
        t.t_data.t_infomask % 2 == 1 ==> t.attribute_value(attnum) == (if (t.t_data.t_bits@[(
        attnum - 1) / 8] >> (((attnum - 1) % 8) as u8)) % 2 == 1 {
            Some(t.values@[attnum - 1])
        } else {
            None
        }),
{
    law_header_flags(t.t_data);
    if t.t_data.t_infomask % 2 == 1 {
        let att: u32 = (attnum - 1) as u32;
        let byte: u8 = t.t_data.t_bits@[(att >> 3u32) as int];
        assert(att >> 3u32 == att / 8 && att & 7u32 == att % 8) by (bit_vector);
        let k: u8 = (att & 7u32) as u8;
        assert(k < 8 ==> ((byte & (1u8 << k)) == 0 <==> (byte >> k) % 2 == 0)) by (bit_vector);
    }
}

} // verus!
