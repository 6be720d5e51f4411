//! Reading the audit export back as CSV: records end with a line feed, a quoted field
//! may hold commas, carriage returns and line feeds, and `""` inside quotes is one quote.
use vstd::prelude::*;

use crate::admin::{
    audit_header, audit_lines, audit_values, csv_field, csv_fields, csv_line, csv_special,
    double_quotes, AuditEntry,
};
use crate::text::join;

verus! {

/// Where a CSV reader stands inside a field.
#[derive(PartialEq, Eq, Structural)]
pub enum CsvMode {
    /// At the start of a field.
    FieldStart,
    /// Inside a field that did not open with a quote.
    Unquoted,
    /// Inside a quoted field.
    Quoted,
    /// Just after a quote inside a quoted field: the closing quote, or the first of a pair.
    QuoteInQuoted,
}

/// The state of a CSV reader: the records read, the fields of the current record, the
/// current field, and where it stands.
pub type CsvState = (Seq<Seq<Seq<char>>>, Seq<Seq<char>>, Seq<char>, CsvMode);

/// The state at the start of a record, after the records `rows`.
pub open spec fn record_start(rows: Seq<Seq<Seq<char>>>) -> CsvState {
    (rows, seq![], seq![], CsvMode::FieldStart)
}

/// The state after a field ends (a comma).
pub open spec fn end_field(st: CsvState) -> CsvState {
    (st.0, st.1.push(st.2), seq![], CsvMode::FieldStart)
}

/// The state after a record ends (a line feed).
pub open spec fn end_record(st: CsvState) -> CsvState {
    record_start(st.0.push(st.1.push(st.2)))
}

/// The state with a character added to the current field.
pub open spec fn add_char(st: CsvState, c: char, mode: CsvMode) -> CsvState {
    (st.0, st.1, st.2.push(c), mode)
}

/// One step of the reader.
pub open spec fn csv_step(st: CsvState, c: char) -> CsvState {
    match st.3 {
        CsvMode::FieldStart => if c == '"' {
            (st.0, st.1, st.2, CsvMode::Quoted)
        } else if c == ',' {
            end_field(st)
        } else if c == '\n' {
            end_record(st)
        } else {
            add_char(st, c, CsvMode::Unquoted)
        },
        CsvMode::Unquoted => if c == ',' {
            end_field(st)
        } else if c == '\n' {
            end_record(st)
        } else {
            add_char(st, c, CsvMode::Unquoted)
        },
        CsvMode::Quoted => if c == '"' {
            (st.0, st.1, st.2, CsvMode::QuoteInQuoted)
        } else {
            add_char(st, c, CsvMode::Quoted)
        },
        CsvMode::QuoteInQuoted => if c == '"' {
            add_char(st, '"', CsvMode::Quoted)
        } else if c == ',' {
            end_field(st)
        } else if c == '\n' {
            end_record(st)
        } else {
            add_char(st, c, CsvMode::Unquoted)
        },
    }
}

/// The reader's state after reading a text from a state.
pub open spec fn csv_run(st: CsvState, s: Seq<char>) -> CsvState
    decreases s.len(),
{
    if s.len() == 0 {
        st
    } else {
        csv_step(csv_run(st, s.drop_last()), s.last())
    }
}

/// The records of a CSV text; an unfinished last record counts as a record.
pub open spec fn csv_records(s: Seq<char>) -> Seq<Seq<Seq<char>>> {
    let st = csv_run(record_start(seq![]), s);
    if st.3 == CsvMode::FieldStart && st.1.len() == 0 && st.2.len() == 0 {
        st.0
    } else {
        st.0.push(st.1.push(st.2))
    }
}

proof fn lemma_run_append(st: CsvState, a: Seq<char>, b: Seq<char>)
    ensures
        csv_run(st, a + b) == csv_run(csv_run(st, a), b),
    decreases b.len(),
{
    if b.len() == 0 {
        assert(a + b =~= a);
    } else {
        lemma_run_append(st, a, b.drop_last());
        assert((a + b).drop_last() =~= a + b.drop_last());
        assert((a + b).last() == b.last());
    }
}

proof fn lemma_run_one(st: CsvState, c: char)
    ensures
        csv_run(st, seq![c]) == csv_step(st, c),
{
    assert(seq![c].drop_last() =~= Seq::<char>::empty());
    assert(csv_run(st, Seq::<char>::empty()) == st);
}

/// Whether a state holds a finished field `v` after the records `rows` and the fields
/// `fields`: a comma or a line feed read next ends the field.
pub open spec fn field_read(st: CsvState, rows: Seq<Seq<Seq<char>>>, fields: Seq<Seq<char>>, v: Seq<char>) -> bool {
    &&& st.0 == rows
    &&& st.1 == fields
    &&& st.2 == v
    &&& st.3 != CsvMode::Quoted
}

proof fn lemma_plain_field(rows: Seq<Seq<Seq<char>>>, fields: Seq<Seq<char>>, v: Seq<char>)
    requires
        forall|i: int| 0 <= i < v.len() ==> !csv_special(#[trigger] v[i]),
    ensures
        csv_run((rows, fields, seq![], CsvMode::FieldStart), v) == (rows, fields, v, if v.len()
            == 0 {
            CsvMode::FieldStart
        } else {
            CsvMode::Unquoted
        }),
    decreases v.len(),
{
    if v.len() > 0 {
        let p = v.drop_last();
        assert forall|i: int| 0 <= i < p.len() implies !csv_special(#[trigger] p[i]) by {
            assert(p[i] == v[i]);
        }
        lemma_plain_field(rows, fields, p);
        assert(!csv_special(v[v.len() - 1]));
        assert(p.push(v.last()) =~= v);
    }
}

proof fn lemma_quoted_body(st: CsvState, v: Seq<char>)
    requires
        st.3 == CsvMode::Quoted,
    ensures
        csv_run(st, double_quotes(v)) == (st.0, st.1, st.2 + v, CsvMode::Quoted),
    decreases v.len(),
{
    if v.len() == 0 {
        assert(st.2 + v =~= st.2);
    } else {
        let p = v.drop_last();
        lemma_quoted_body(st, p);
        let mid = (st.0, st.1, st.2 + p, CsvMode::Quoted);
        if v.last() == '"' {
            assert(double_quotes(v) == double_quotes(p) + seq!['"', '"']);
            lemma_run_append(st, double_quotes(p), seq!['"', '"']);
            assert(seq!['"', '"'] =~= seq!['"'] + seq!['"']);
            lemma_run_append(mid, seq!['"'], seq!['"']);
            lemma_run_one(mid, '"');
            let mid2 = (st.0, st.1, st.2 + p, CsvMode::QuoteInQuoted);
            lemma_run_one(mid2, '"');
            assert(csv_run(st, double_quotes(v)) == (st.0, st.1, (st.2 + p).push('"'), CsvMode::Quoted));
        } else {
            assert(double_quotes(v) == double_quotes(p).push(v.last()));
            assert(double_quotes(p).push(v.last()) =~= double_quotes(p) + seq![v.last()]);
            lemma_run_append(st, double_quotes(p), seq![v.last()]);
            lemma_run_one(mid, v.last());
            assert(csv_run(st, double_quotes(v)) == (st.0, st.1, (st.2 + p).push(v.last()), CsvMode::Quoted));
        }
        assert((st.2 + p).push(v.last()) =~= st.2 + v);
    }
}

proof fn lemma_field(rows: Seq<Seq<Seq<char>>>, fields: Seq<Seq<char>>, v: Seq<char>)
    ensures
        field_read(csv_run((rows, fields, seq![], CsvMode::FieldStart), csv_field(v)), rows, fields, v),
{
    let st = (rows, fields, Seq::<char>::empty(), CsvMode::FieldStart);
    if exists|i: int| 0 <= i < v.len() && csv_special(#[trigger] v[i]) {
        let open = seq!['"'];
        lemma_run_one(st, '"');
        let q = csv_run(st, open);
        assert(q == (rows, fields, Seq::<char>::empty(), CsvMode::Quoted));
        lemma_run_append(st, open, double_quotes(v));
        lemma_quoted_body(q, v);
        assert(Seq::<char>::empty() + v =~= v);
        lemma_run_append(st, open + double_quotes(v), seq!['"']);
        lemma_run_one(csv_run(st, open + double_quotes(v)), '"');
        assert(csv_field(v) == open + double_quotes(v) + seq!['"']);
    } else {
        lemma_plain_field(rows, fields, v);
    }
}

proof fn lemma_fields_drop_last(vs: Seq<Seq<char>>)
    requires
        vs.len() > 0,
    ensures
        csv_fields(vs).drop_last() == csv_fields(vs.drop_last()),
        csv_fields(vs).last() == csv_field(vs.last()),
{
    assert(csv_fields(vs).drop_last() =~= csv_fields(vs.drop_last()));
}

proof fn lemma_line_fields(rows: Seq<Seq<Seq<char>>>, vs: Seq<Seq<char>>)
    requires
        vs.len() >= 1,
    ensures
        field_read(csv_run(record_start(rows), csv_line(vs)), rows, vs.drop_last(), vs.last()),
    decreases vs.len(),
{
    let fs = csv_fields(vs);
    if vs.len() == 1 {
        assert(csv_line(vs) == fs[0]);
        lemma_field(rows, seq![], vs[0]);
        assert(vs.drop_last() =~= Seq::<Seq<char>>::empty());
    } else {
        let p = vs.drop_last();
        lemma_fields_drop_last(vs);
        lemma_line_fields(rows, p);
        assert(csv_line(vs) == csv_line(p) + ","@ + csv_field(vs.last()));
        let a = csv_run(record_start(rows), csv_line(p));
        reveal_strlit(",");
        lemma_run_append(record_start(rows), csv_line(p), ","@);
        assert(","@ =~= seq![',']);
        lemma_run_one(a, ',');
        let b = csv_run(record_start(rows), csv_line(p) + ","@);
        assert(b == (rows, p.drop_last().push(p.last()), Seq::<char>::empty(), CsvMode::FieldStart));
        assert(p.drop_last().push(p.last()) =~= p);
        lemma_run_append(record_start(rows), csv_line(p) + ","@, csv_field(vs.last()));
        lemma_field(rows, p, vs.last());
    }
}

proof fn lemma_line(rows: Seq<Seq<Seq<char>>>, vs: Seq<Seq<char>>)
    requires
        vs.len() >= 1,
    ensures
        csv_run(record_start(rows), csv_line(vs) + "\n"@) == record_start(rows.push(vs)),
{
    lemma_line_fields(rows, vs);
    reveal_strlit("\n");
    lemma_run_append(record_start(rows), csv_line(vs), "\n"@);
    assert("\n"@ =~= seq!['\n']);
    lemma_run_one(csv_run(record_start(rows), csv_line(vs)), '\n');
    assert(vs.drop_last().push(vs.last()) =~= vs);
}

proof fn lemma_audit_lines(rows: Seq<Seq<Seq<char>>>, es: Seq<AuditEntry>)
    ensures
        csv_run(record_start(rows), audit_lines(es)) == record_start(
            rows + es.map_values(|e: AuditEntry| audit_values(e)),
        ),
    decreases es.len(),
{
    if es.len() == 0 {
        assert(rows + es.map_values(|e: AuditEntry| audit_values(e)) =~= rows);
    } else {
        let p = es.drop_last();
        lemma_audit_lines(rows, p);
        let mid = rows + p.map_values(|e: AuditEntry| audit_values(e));
        lemma_run_append(
            record_start(rows),
            audit_lines(p),
            csv_line(audit_values(es.last())) + "\n"@,
        );
        assert(audit_lines(es) == audit_lines(p) + (csv_line(audit_values(es.last())) + "\n"@));
        lemma_line(mid, audit_values(es.last()));
        assert(mid.push(audit_values(es.last())) =~= rows + es.map_values(
            |e: AuditEntry| audit_values(e),
        ));
    }
}

/// The column names of the audit export.
pub open spec fn audit_columns() -> Seq<Seq<char>> {
    seq!["actor"@, "action"@, "target"@, "ip"@, "user_agent"@, "time_label"@]
}

proof fn lemma_plain_csv_field(v: Seq<char>)
    requires
        forall|i: int| 0 <= i < v.len() ==> !csv_special(#[trigger] v[i]),
    ensures
        csv_field(v) == v,
{
}

proof fn lemma_header()
    ensures
        audit_header() == csv_line(audit_columns()) + "\n"@,
{
    reveal_strlit("actor");
    reveal_strlit("action");
    reveal_strlit("target");
    reveal_strlit("ip");
    reveal_strlit("user_agent");
    reveal_strlit("time_label");
    reveal_strlit(",");
    reveal_strlit("\n");
    reveal_strlit("actor,action,target,ip,user_agent,time_label\n");
    reveal_strlit("actor,action,target,ip,user_agent,time_label");
    let cs = audit_columns();
    lemma_plain_csv_field(cs[0]);
    lemma_plain_csv_field(cs[1]);
    lemma_plain_csv_field(cs[2]);
    lemma_plain_csv_field(cs[3]);
    lemma_plain_csv_field(cs[4]);
    lemma_plain_csv_field(cs[5]);
    let fs = csv_fields(cs);
    assert(fs =~= cs);
    let sep = ","@;
    assert(cs.take(1).len() == 1 && cs.take(1)[0] == cs[0]);
    assert(join(cs.take(1), sep) == cs[0]);
    assert(cs.take(2).drop_last() =~= cs.take(1));
    assert(join(cs.take(2), sep) == join(cs.take(1), sep) + sep + cs[1]);
    assert(cs.take(3).drop_last() =~= cs.take(2));
    assert(join(cs.take(3), sep) == join(cs.take(2), sep) + sep + cs[2]);
    assert(cs.take(4).drop_last() =~= cs.take(3));
    assert(join(cs.take(4), sep) == join(cs.take(3), sep) + sep + cs[3]);
    assert(cs.take(5).drop_last() =~= cs.take(4));
    assert(join(cs.take(5), sep) == join(cs.take(4), sep) + sep + cs[4]);
    assert(cs.take(6).drop_last() =~= cs.take(5));
    assert(join(cs.take(6), sep) == join(cs.take(5), sep) + sep + cs[5]);
    assert(cs.take(6) =~= cs);
    assert(csv_line(cs) == join(cs, sep));
    assert(csv_line(cs) =~= "actor,action,target,ip,user_agent,time_label"@);
    assert(audit_header() =~= csv_line(cs) + "\n"@);
}

/// Read back as CSV, the audit export gives the column names, then each entry's actor,
/// action, target, IP, user agent and time label, in order: whatever the entries' texts
/// hold, commas, quotes and line breaks included.
pub proof fn law_audit_csv_reads_back(es: Seq<AuditEntry>)
    ensures
        csv_records(audit_header() + audit_lines(es)) == seq![audit_columns()] + es.map_values(
            |e: AuditEntry| audit_values(e),
        ),
{
    lemma_header();
    let start = record_start(seq![]);
    lemma_line(seq![], audit_columns());
    assert(Seq::<Seq<Seq<char>>>::empty().push(audit_columns()) =~= seq![audit_columns()]);
    lemma_run_append(start, audit_header(), audit_lines(es));
    lemma_audit_lines(seq![audit_columns()], es);
}

} // verus!
