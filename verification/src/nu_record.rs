//! The Nushell record, span, value and error types that the plugin hands to
//! Nushell, and the calls into `nu_protocol` that build and read records.

use vstd::prelude::*;
use nu_protocol::{casing::Casing, Record, ShellError, Span, Value};

verus! {

#[verifier::external_type_specification]
#[verifier::external_body]
pub struct ExRecord(Record);

#[verifier::external_type_specification]
#[verifier::external_body]
pub struct ExSpan(Span);

#[verifier::external_type_specification]
#[verifier::external_body]
pub struct ExValue(Value);

#[verifier::external_type_specification]
#[verifier::external_body]
pub struct ExShellError(ShellError);

#[verifier::external_type_specification]
#[verifier::external_body]
pub struct ExCasing(Casing);

/// Where a span starts and ends in the source: its `start` and `end`
/// fields.
pub uninterp spec fn span_bounds(s: Span) -> (usize, usize);

/// A column of a record: its name; the text of the value stored under it
/// when that value is a string (none for any other value); and the bounds
/// of the span that value carries.
pub type RecordColumn = (Seq<char>, Option<Seq<char>>, (usize, usize));

/// What a record holds: its columns in order.
pub uninterp spec fn record_columns(r: Record) -> Seq<RecordColumn>;

/// Some column of the record has the name `col`.
pub open spec fn record_has_column(r: Record, col: Seq<char>) -> bool {
    exists|i: int| 0 <= i < record_columns(r).len() && #[trigger] record_columns(r)[i].0 == col
}

/// Every column of the record holds a string value.
pub open spec fn record_holds_strings(r: Record) -> bool {
    forall|i: int| 0 <= i < record_columns(r).len() ==> (#[trigger] record_columns(r)[i]).1 is Some
}

/// The column at `i` is the last one of the record named `col`, and the
/// value stored there has the text `text` and a span with bounds `bounds`.
pub open spec fn is_last_column(
    r: Record,
    i: int,
    col: Seq<char>,
    text: Option<Seq<char>>,
    bounds: (usize, usize),
) -> bool {
    &&& 0 <= i < record_columns(r).len()
    &&& record_columns(r)[i] == (col, text, bounds)
    &&& forall|j: int| i < j < record_columns(r).len() ==> #[trigger] record_columns(r)[j].0 != col
}

/// The text of a Nushell value that is a string; none for any other value.
pub uninterp spec fn value_text(v: Value) -> Option<Seq<char>>;

/// The bounds of the span a Nushell value carries (`Value::span`).
pub uninterp spec fn value_span(v: Value) -> (usize, usize);

/// The fields of a `CantFindColumn` error: the column reported missing,
/// the bounds of its `span` if it has one, and the bounds of its
/// `src_span`; none for any other error.
pub uninterp spec fn cant_find_column_fields(e: ShellError) -> Option<
    (Seq<char>, Option<(usize, usize)>, (usize, usize)),
>;

/// `Record::new`: a record without columns.
#[verifier::external_body]
pub(crate) fn new_record() -> (r: Record)
    ensures
        record_columns(r) == Seq::<RecordColumn>::empty(),
{
    Record::new()
}

/// `Record::push` of `Value::string(text, span)`: appends a column holding
/// the string `text` at `span` at the end, after any column of the same
/// name (the source pushes onto its inner vector without looking).
#[verifier::external_body]
pub(crate) fn push_string_column(r: &mut Record, col: &str, text: &str, span: Span)
    ensures
        record_columns(*final(r)) == record_columns(*old(r)).push(
            (col@, Some(text@), span_bounds(span)),
        ),
{
    r.push(col, Value::string(text, span));
}

/// `Record::get` (case-sensitive), cloned, on a record of string values:
/// finds a value exactly when some column has the name `col`, and then it
/// is a copy of the value of the last such column (the source looks the
/// name up with `rposition`; cloning a string value keeps its text and
/// span). Records holding other values are left out: cloning a custom
/// value runs that value's own code.
#[verifier::external_body]
pub(crate) fn record_get(r: &Record, col: &str) -> (v: Option<Value>)
    requires
        record_holds_strings(*r),
    ensures
        v is Some <==> record_has_column(*r, col@),
        v matches Some(x) ==> exists|i: int|
            is_last_column(*r, i, col@, value_text(x), value_span(x)),
{
    r.get(col).cloned()
}

/// What a Nushell value holds when it is a record: the record's columns,
/// as `record_columns` gives them.
pub uninterp spec fn value_record_columns(v: Value) -> Option<Seq<RecordColumn>>;

/// `Value::record`: the record as a Nushell value at `span`. The source
/// builds a `Value::Record` that holds the record itself (in a
/// `SharedCow`) and carries `span`.
#[verifier::external_body]
pub(crate) fn record_into_value(r: Record, span: Span) -> (v: Value)
    ensures
        value_record_columns(v) == Some(record_columns(r)),
        value_span(v) == span_bounds(span),
{
    Value::record(r, span)
}

/// `ShellError::CantFindColumn` for the column `col_name`, missing from a
/// value at `span`: the error reports that column, with `span` as both its
/// `span` and its `src_span`.
#[verifier::external_body]
pub(crate) fn cant_find_column(col_name: String, span: Span) -> (e: ShellError)
    ensures
        cant_find_column_fields(e) == Some(
            (col_name@, Some(span_bounds(span)), span_bounds(span)),
        ),
{
    ShellError::CantFindColumn { col_name, span: Some(span), src_span: span }
}

} // verus!
