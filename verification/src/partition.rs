//! Partition Table Validator: structural validation of tabular text, one
//! comma-delimited record per line, where the first row's field count is
//! authoritative for all subsequent rows. Validation stops at the first
//! offending row and produces a diagnostic carrying the original source,
//! a byte-offset span, and a one-line hint. The row parser reports no
//! per-field positions, so the span covers the offending row's whole
//! line — a documented limitation, kept for fidelity.

use vstd::prelude::*;
use vstd::string::StringExecFns;

verus! {

/// Byte value of the line delimiter.
pub const NEWLINE: u8 = 0x0a;

/// Byte value of the field delimiter.
pub const COMMA: u8 = 0x2c;

/// The first position in `[a, b)` holding byte `x`, or `b` if none does.
pub open spec fn index_of_range(s: Seq<u8>, a: int, b: int, x: u8) -> int
    decreases b - a,
{
    if a >= b {
        b
    } else if s[a] == x {
        a
    } else {
        index_of_range(s, a + 1, b, x)
    }
}

/// The index found lies between the bounds it was searched in.
pub proof fn lemma_index_of_range_bounds(s: Seq<u8>, a: int, b: int, x: u8)
    requires
        a <= b,
    ensures
        a <= index_of_range(s, a, b, x) <= b,
    decreases b - a,
{
    if a < b && s[a] != x {
        lemma_index_of_range_bounds(s, a + 1, b, x);
    }
}

/// The search finds exactly the first occurrence: a position preceded
/// only by other bytes, and itself holding the byte or closing the range.
pub proof fn lemma_index_of_range_is(s: Seq<u8>, a: int, b: int, x: u8, p: int)
    requires
        a <= p <= b,
        forall|m: int| a <= m < p ==> s[m] != x,
        p == b || s[p] == x,
    ensures
        index_of_range(s, a, b, x) == p,
    decreases p - a,
{
    if a < p {
        lemma_index_of_range_is(s, a + 1, b, x, p);
    }
}

/// The byte spans (start inclusive, end exclusive) of the lines of `s`
/// from position `i` on: each line runs to the next line delimiter or to
/// the end of `s`; a trailing delimiter opens no further line.
pub open spec fn line_spans_from(s: Seq<u8>, i: int) -> Seq<(int, int)>
    decreases s.len() - i + 1,
    via line_spans_from_dec
{
    if i < 0 || i >= s.len() {
        Seq::empty()
    } else {
        let k = index_of_range(s, i, s.len() as int, NEWLINE);
        seq![(i, k)] + line_spans_from(s, k + 1)
    }
}

#[via_fn]
proof fn line_spans_from_dec(s: Seq<u8>, i: int) {
    if 0 <= i < s.len() {
        lemma_index_of_range_bounds(s, i, s.len() as int, NEWLINE);
    }
}

/// The byte spans of the lines of the whole of `s`.
pub open spec fn line_spans(s: Seq<u8>) -> Seq<(int, int)> {
    line_spans_from(s, 0)
}

/// The fields of the range `[a, b)` of `s`, split on the field
/// delimiter. A range without a delimiter is one field, so every range
/// has at least one, and a trailing delimiter yields a trailing empty
/// field.
pub open spec fn fields_in(s: Seq<u8>, a: int, b: int) -> Seq<Seq<u8>>
    decreases b - a + 1,
    via fields_in_dec
{
    if !(0 <= a <= b <= s.len()) {
        Seq::empty()
    } else {
        let k = index_of_range(s, a, b, COMMA);
        if k >= b {
            seq![s.subrange(a, b)]
        } else {
            seq![s.subrange(a, k)] + fields_in(s, k + 1, b)
        }
    }
}

#[via_fn]
proof fn fields_in_dec(s: Seq<u8>, a: int, b: int) {
    if 0 <= a <= b <= s.len() {
        lemma_index_of_range_bounds(s, a, b, COMMA);
    }
}

/// How many fields row `j` of `s` has.
pub open spec fn row_field_count(s: Seq<u8>, j: int) -> nat {
    fields_in(s, line_spans(s)[j].0, line_spans(s)[j].1).len()
}

/// Every row after the first has the first row's field count.
pub open spec fn table_counts_ok(s: Seq<u8>) -> bool {
    forall|m: int|
        1 <= m < line_spans(s).len() ==> #[trigger] row_field_count(s, m) == row_field_count(s, 0)
}

/// Row `j` is the first row whose field count differs from the first
/// row's.
pub open spec fn first_mismatched_row(s: Seq<u8>, j: int) -> bool {
    &&& 1 <= j < line_spans(s).len()
    &&& row_field_count(s, j) != row_field_count(s, 0)
    &&& forall|m: int| 1 <= m < j ==> #[trigger] row_field_count(s, m) == row_field_count(s, 0)
}

/// One row of the partition table: its fields, in order, as raw bytes.
#[derive(Debug, Clone, PartialEq, Eq)]
pub struct PartitionRecord {
    /// The row's fields, field delimiters excluded.
    pub fields: Vec<Vec<u8>>,
}

/// The mathematical content of a record: its fields as byte sequences.
pub open spec fn record_model(r: PartitionRecord) -> Seq<Seq<u8>> {
    r.fields@.map_values(|f: Vec<u8>| f@)
}

/// Which structural failure a row exhibited.
#[derive(Debug, Clone, PartialEq, Eq)]
pub enum RowErrorKind {
    /// The row's field count differs from the previous rows'.
    UnequalLengths {
        /// The authoritative field count, set by the first row.
        expected: usize,
        /// The offending row's field count.
        len: usize,
    },
    /// A row failed to deserialize; the inner parser's message is kept.
    Deserialize {
        /// The inner parser's one-line message.
        message: String,
    },
}

/// A structural failure, located by row: the 1-based line number and the
/// byte offset of the row's start.
#[derive(Debug, Clone, PartialEq, Eq)]
pub struct RowError {
    /// 1-based line number of the offending row.
    pub line: usize,
    /// Byte offset of the offending row's start.
    pub byte: usize,
    /// What went wrong in the row.
    pub kind: RowErrorKind,
}

/// The diagnostic for a malformed partition table: the original source
/// (owned, for re-display), the byte-offset span of the offending line,
/// a one-line hint, and the underlying structural error.
#[derive(Debug, Clone, PartialEq, Eq)]
pub struct PartitionTableError {
    /// The full original source text, kept so a renderer can show the
    /// offending line in context.
    pub source: Vec<u8>,
    /// Byte offset where the highlighted span begins.
    pub offset: usize,
    /// Length in bytes of the highlighted span.
    pub length: usize,
    /// One-line human-readable hint.
    pub hint: String,
    /// The underlying structural error.
    pub error: RowError,
}

/// The decimal digits of `n`, most significant first.
pub open spec fn decimal_chars(n: nat) -> Seq<char>
    decreases n,
{
    if n < 10 {
        seq![digit_char(n)]
    } else {
        decimal_chars(n / 10).push(digit_char(n % 10))
    }
}

/// The character for one decimal digit.
pub open spec fn digit_char(d: nat) -> char {
    if d == 0 {
        '0'
    } else if d == 1 {
        '1'
    } else if d == 2 {
        '2'
    } else if d == 3 {
        '3'
    } else if d == 4 {
        '4'
    } else if d == 5 {
        '5'
    } else if d == 6 {
        '6'
    } else if d == 7 {
        '7'
    } else if d == 8 {
        '8'
    } else {
        '9'
    }
}

/// The hint text for a field-count mismatch.
pub open spec fn unequal_hint_chars(len: nat, expected: nat) -> Seq<char> {
    "record has "@ + decimal_chars(len) + " fields, but the previous record has "@
        + decimal_chars(expected) + " fields"@
}

/// The hint text for each kind of row error: the synthesized count
/// message for a mismatch, the inner parser's message otherwise.
pub open spec fn hint_chars(kind: RowErrorKind) -> Seq<char> {
    match kind {
        RowErrorKind::UnequalLengths { expected, len } => unequal_hint_chars(
            len as nat,
            expected as nat,
        ),
        RowErrorKind::Deserialize { message } => message@,
    }
}

/// Render a number in decimal.
fn format_usize(n: usize) -> (r: String)
    ensures
        r@ == decimal_chars(n as nat),
    decreases n,
{
    let d: usize = n % 10;
    let digit: &str = if d == 0 {
        "0"
    } else if d == 1 {
        "1"
    } else if d == 2 {
        "2"
    } else if d == 3 {
        "3"
    } else if d == 4 {
        "4"
    } else if d == 5 {
        "5"
    } else if d == 6 {
        "6"
    } else if d == 7 {
        "7"
    } else if d == 8 {
        "8"
    } else {
        "9"
    };
    proof {
        reveal_strlit("0");
        reveal_strlit("1");
        reveal_strlit("2");
        reveal_strlit("3");
        reveal_strlit("4");
        reveal_strlit("5");
        reveal_strlit("6");
        reveal_strlit("7");
        reveal_strlit("8");
        reveal_strlit("9");
        assert(digit@ =~= seq![digit_char((n % 10) as nat)]);
    }
    if n < 10 {
        let r = digit.to_owned();
        assert(r@ =~= decimal_chars(n as nat));
        r
    } else {
        let mut r = format_usize(n / 10);
        r.append(digit);
        assert(r@ =~= decimal_chars(n as nat));
        r
    }
}

/// Build the hint for a row error kind.
fn build_hint(kind: &RowErrorKind) -> (r: String)
    ensures
        r@ == hint_chars(*kind),
{
    match kind {
        RowErrorKind::UnequalLengths { expected, len } => {
            let mut h = "record has ".to_owned();
            let n1 = format_usize(*len);
            h.append(n1.as_str());
            h.append(" fields, but the previous record has ");
            let n2 = format_usize(*expected);
            h.append(n2.as_str());
            h.append(" fields");
            assert(h@ =~= unequal_hint_chars(*len as nat, *expected as nat));
            h
        },
        RowErrorKind::Deserialize { message } => message.clone(),
    }
}

impl PartitionTableError {
    /// Build the diagnostic for a structural row error.
    ///
    /// The span starts at the error's reported byte offset and covers the
    /// offending row's whole line, because the row parser reports no
    /// position within the line. The error's line number must name an
    /// existing line of the source.
    pub fn new(error: RowError, source: Vec<u8>) -> (r: PartitionTableError)
        requires
            source@.len() < usize::MAX,
            1 <= error.line as int <= line_spans(source@).len(),
        ensures
            r.source == source,
            r.error == error,
            r.offset == error.byte,
            r.length as int == line_spans(source@)[error.line as int - 1].1 - line_spans(
                source@,
            )[error.line as int - 1].0,
            r.hint@ == hint_chars(error.kind),
    {
        let ghost spans = line_spans(source@);
        let mut start: usize = 0;
        let mut done: usize = 0;
        let target: usize = error.line - 1;
        proof {
            assert(spans.skip(0) =~= spans);
        }
        while done < target
            invariant
                source@.len() < usize::MAX,
                0 <= done <= target,
                target < spans.len(),
                spans == line_spans(source@),
                line_spans_from(source@, start as int) == spans.skip(done as int),
                start as int <= source@.len() + 1,
            decreases target - done,
        {
            proof {
                assert(spans.skip(done as int).len() > 0);
                if start as int >= source@.len() {
                    assert(line_spans_from(source@, start as int) =~= Seq::<(int, int)>::empty());
                }
                lemma_index_of_range_bounds(source@, start as int, source@.len() as int, NEWLINE);
            }
            let mut k: usize = start;
            while k < source.len() && source[k] != NEWLINE
                invariant
                    start <= k <= source@.len(),
                    forall|m: int| start as int <= m < k as int ==> source@[m] != NEWLINE,
                decreases source@.len() - k,
            {
                k = k + 1;
            }
            proof {
                lemma_index_of_range_is(
                    source@,
                    start as int,
                    source@.len() as int,
                    NEWLINE,
                    k as int,
                );
                assert(spans.skip(done as int).skip(1) =~= spans.skip(done as int + 1));
            }
            start = k + 1;
            done = done + 1;
            proof {
                if start as int >= source@.len() + 1 {
                    assert(line_spans_from(source@, start as int) =~= Seq::<(int, int)>::empty());
                }
            }
        }
        proof {
            assert(spans.skip(target as int)[0] == spans[target as int]);
            assert(spans.skip(target as int).len() > 0);
            if start as int >= source@.len() {
                assert(line_spans_from(source@, start as int) =~= Seq::<(int, int)>::empty());
            }
        }
        let mut k: usize = start;
        while k < source.len() && source[k] != NEWLINE
            invariant
                start <= k <= source@.len(),
                forall|m: int| start as int <= m < k as int ==> source@[m] != NEWLINE,
            decreases source@.len() - k,
        {
            k = k + 1;
        }
        proof {
            lemma_index_of_range_is(source@, start as int, source@.len() as int, NEWLINE, k as int);
        }
        let hint = build_hint(&error.kind);
        let offset: usize = error.byte;
        PartitionTableError { source, offset, length: k - start, hint, error }
    }
}

/// The diagnostic `validate` owes for the first mismatched row `j`.
pub open spec fn mismatch_diagnostic(e: PartitionTableError, s: Seq<u8>, j: int) -> bool {
    &&& e.source@ == s
    &&& e.offset as int == line_spans(s)[j].0
    &&& e.length as int == line_spans(s)[j].1 - line_spans(s)[j].0
    &&& e.error.line as int == j + 1
    &&& e.error.byte as int == line_spans(s)[j].0
    &&& e.error.kind matches RowErrorKind::UnequalLengths { expected, len }
        && expected as nat == row_field_count(s, 0) && len as nat == row_field_count(s, j)
    &&& e.hint@ == unequal_hint_chars(row_field_count(s, j), row_field_count(s, 0))
}

/// Parse and validate a partition table given as raw tabular text.
///
/// On success every line is returned as one record, its fields split on
/// the field delimiter, and every row has the first row's field count.
/// On the first row whose count differs, validation stops and returns a
/// diagnostic anchored at that row: its line, its whole line as the
/// span, and the synthesized count-mismatch hint.
pub fn validate(source: &[u8]) -> (r: Result<Vec<PartitionRecord>, PartitionTableError>)
    requires
        source@.len() < usize::MAX,
    ensures
        match r {
            Ok(recs) => {
                &&& table_counts_ok(source@)
                &&& recs@.len() == line_spans(source@).len()
                &&& forall|m: int|
                    0 <= m < recs@.len() ==> #[trigger] record_model(recs@[m]) == fields_in(
                        source@,
                        line_spans(source@)[m].0,
                        line_spans(source@)[m].1,
                    )
            },
            Err(e) => {
                &&& !table_counts_ok(source@)
                &&& exists|j: int|
                    #[trigger] first_mismatched_row(source@, j) && mismatch_diagnostic(
                        e,
                        source@,
                        j,
                    )
            },
        },
{
    let ghost s = source@;
    let ghost spans = line_spans(s);
    let mut recs: Vec<PartitionRecord> = Vec::new();
    let mut first_count: usize = 0;
    let mut i: usize = 0;
    proof {
        assert(spans.skip(0) =~= spans);
    }
    while i < source.len()
        invariant
            source@ == s,
            s.len() < usize::MAX,
            spans == line_spans(s),
            0 <= i as int <= s.len() + 1,
            recs@.len() <= spans.len(),
            recs@.len() <= i as int,
            line_spans_from(s, i as int) == spans.skip(recs@.len() as int),
            forall|m: int|
                0 <= m < recs@.len() ==> #[trigger] record_model(recs@[m]) == fields_in(
                    s,
                    spans[m].0,
                    spans[m].1,
                ),
            forall|m: int|
                1 <= m < recs@.len() ==> #[trigger] row_field_count(s, m) == row_field_count(s, 0),
            recs@.len() > 0 ==> first_count as nat == row_field_count(s, 0),
        decreases s.len() + 1 - i,
    {
        let ghost j: int = recs@.len() as int;
        proof {
            assert(spans.skip(j).len() > 0);
            assert(spans.skip(j)[0] == spans[j]);
            lemma_index_of_range_bounds(s, i as int, s.len() as int, NEWLINE);
        }
        // find the end of the current line
        let mut k: usize = i;
        while k < source.len() && source[k] != NEWLINE
            invariant
                source@ == s,
                i <= k <= s.len(),
                forall|m: int| i as int <= m < k as int ==> s[m] != NEWLINE,
            decreases s.len() - k,
        {
            k = k + 1;
        }
        proof {
            lemma_index_of_range_is(s, i as int, s.len() as int, NEWLINE, k as int);
            assert(spans[j] == (i as int, k as int));
        }
        // split the line into its fields
        let mut fields: Vec<Vec<u8>> = Vec::new();
        let mut cur: Vec<u8> = Vec::new();
        let mut fstart: usize = i;
        let mut p: usize = i;
        while p < k
            invariant
                source@ == s,
                i <= fstart <= p <= k <= s.len(),
                cur@ == s.subrange(fstart as int, p as int),
                forall|m: int| fstart as int <= m < p as int ==> s[m] != COMMA,
                fields_in(s, i as int, k as int) == fields@.map_values(|f: Vec<u8>| f@)
                    + fields_in(s, fstart as int, k as int),
                fields_in(s, fstart as int, k as int).len() >= 1,
            decreases k - p,
        {
            let b: u8 = source[p];
            if b == COMMA {
                proof {
                    lemma_index_of_range_is(s, fstart as int, k as int, COMMA, p as int);
                    assert(fields@.push(cur).map_values(|f: Vec<u8>| f@) =~= fields@.map_values(
                        |f: Vec<u8>| f@,
                    ).push(cur@));
                    assert(fields@.map_values(|f: Vec<u8>| f@).push(cur@) + fields_in(
                        s,
                        p as int + 1,
                        k as int,
                    ) =~= fields@.map_values(|f: Vec<u8>| f@) + (seq![cur@] + fields_in(
                        s,
                        p as int + 1,
                        k as int,
                    )));
                    lemma_fields_in_len(s, p as int + 1, k as int);
                }
                fields.push(cur);
                cur = Vec::new();
                fstart = p + 1;
                assert(cur@ =~= s.subrange(fstart as int, fstart as int));
            } else {
                cur.push(b);
                assert(cur@ =~= s.subrange(fstart as int, p as int + 1));
            }
            p = p + 1;
        }
        proof {
            lemma_index_of_range_is(s, fstart as int, k as int, COMMA, k as int);
            assert(fields_in(s, fstart as int, k as int) =~= seq![s.subrange(
                fstart as int,
                k as int,
            )]);
            assert(fields@.push(cur).map_values(|f: Vec<u8>| f@) =~= fields@.map_values(
                |f: Vec<u8>| f@,
            ) + fields_in(s, fstart as int, k as int));
        }
        fields.push(cur);
        let count: usize = fields.len();
        let record = PartitionRecord { fields };
        proof {
            assert(record_model(record) =~= fields_in(s, i as int, k as int));
            assert(row_field_count(s, j) == count as nat);
        }
        if recs.len() == 0 {
            first_count = count;
        } else if count != first_count {
            let row_err = RowError {
                line: recs.len() + 1,
                byte: i,
                kind: RowErrorKind::UnequalLengths { expected: first_count, len: count },
            };
            proof {
                assert(first_mismatched_row(s, j));
            }
            let src = vstd::slice::slice_to_vec(source);
            let diag = PartitionTableError::new(row_err, src);
            proof {
                assert(mismatch_diagnostic(diag, s, j));
                assert(!table_counts_ok(s)) by {
                    assert(row_field_count(s, j) != row_field_count(s, 0));
                }
            }
            return Err(diag);
        }
        recs.push(record);
        proof {
            assert(spans.skip(j).skip(1) =~= spans.skip(j + 1));
        }
        i = k + 1;
    }
    proof {
        assert(line_spans_from(s, i as int) =~= Seq::<(int, int)>::empty());
        assert(spans.skip(recs@.len() as int).len() == 0);
        assert(recs@.len() == spans.len());
    }
    Ok(recs)
}

/// Every range yields at least one field.
proof fn lemma_fields_in_len(s: Seq<u8>, a: int, b: int)
    requires
        0 <= a <= b <= s.len(),
    ensures
        fields_in(s, a, b).len() >= 1,
    decreases b - a,
{
    let k = index_of_range(s, a, b, COMMA);
    lemma_index_of_range_bounds(s, a, b, COMMA);
    if k < b {
        lemma_fields_in_len(s, k + 1, b);
    }
}

} // verus!
