//! CSV output: field escaping, decimal numbers, and the assembly of lines.
use vstd::prelude::*;

use crate::text::{chars_of, join, owned, push_all, replace_all, replace_all_str, string_of};

verus! {

/// Whether a field must be quoted: it holds a comma, a double quote, a line
/// feed or a carriage return.
pub open spec fn needs_quoting(v: Seq<char>) -> bool {
    v.contains(',') || v.contains('"') || v.contains('\n') || v.contains('\r')
}

/// A field as it is written to a CSV file: quoted, with inner quotes doubled,
/// when it needs quoting; unchanged otherwise.
pub open spec fn spec_csv_escape(v: Seq<char>) -> Seq<char> {
    if needs_quoting(v) {
        seq!['"'] + replace_all(v, seq!['"'], seq!['"', '"']) + seq!['"']
    } else {
        v
    }
}

/// A field as a CSV reader reads it back: a quoted field loses its quotes and
/// has each doubled quote made single; any other field is read as written.
pub open spec fn csv_unescape(f: Seq<char>) -> Seq<char> {
    if f.len() >= 2 && f[0] == '"' && f[f.len() - 1] == '"' {
        replace_all(f.subrange(1, f.len() - 1), seq!['"', '"'], seq!['"'])
    } else {
        f
    }
}

/// Whether `v` holds the character `c`.
fn has_char(v: &Vec<char>, c: char) -> (r: bool)
    ensures
        r == v@.contains(c),
{
    let n = v.len();
    for i in 0..n
        invariant
            n == v@.len(),
            forall|k: int| 0 <= k < i ==> v@[k] != c,
    {
        if v[i] == c {
            assert(v@[i as int] == c);
            return true;
        }
    }
    false
}

/// Escapes a field for a CSV file.
pub fn csv_escape(value: &str) -> (r: String)
    ensures
        r@ == spec_csv_escape(value@),
{
    let v = chars_of(value);
    if has_char(&v, ',') || has_char(&v, '"') || has_char(&v, '\n') || has_char(&v, '\r') {
        proof {
            reveal_strlit("\"");
            reveal_strlit("\"\"");
            assert("\""@ =~= seq!['"']);
            assert("\"\""@ =~= seq!['"', '"']);
        }
        let inner = replace_all_str(value, "\"", "\"\"");
        let mut out: Vec<char> = Vec::new();
        out.push('"');
        let iv = chars_of(inner.as_str());
        push_all(&mut out, &iv);
        out.push('"');
        assert(out@ =~= seq!['"'] + replace_all(value@, seq!['"'], seq!['"', '"']) + seq!['"']);
        string_of(out.as_slice())
    } else {
        owned(value)
    }
}

/// Doubling quotes and then making doubled quotes single again gives back
/// the original characters.
proof fn lemma_double_then_single(v: Seq<char>)
    ensures
        replace_all(replace_all(v, seq!['"'], seq!['"', '"']), seq!['"', '"'], seq!['"']) == v,
    decreases v.len(),
{
    let q = seq!['"'];
    let qq = seq!['"', '"'];
    if v.len() == 0 {
        assert(replace_all(v, q, qq) == v);
        assert(replace_all(v, qq, q) == v);
    } else {
        let rest = v.skip(1);
        lemma_double_then_single(rest);
        let d = replace_all(rest, q, qq);
        if v[0] == '"' {
            assert(v.take(1) =~= q);
            assert(replace_all(v, q, qq) == qq + d);
            let e = qq + d;
            assert(e.take(2) =~= qq);
            assert(e.skip(2) =~= d);
            assert(replace_all(e, qq, q) == q + replace_all(d, qq, q));
            assert(q + rest =~= v);
        } else {
            assert(v.take(1) != q) by {
                assert(v.take(1)[0] != q[0]);
            }
            assert(replace_all(v, q, qq) == seq![v[0]] + d);
            let e = seq![v[0]] + d;
            if e.len() >= 2 {
                assert(e.take(2) != qq) by {
                    assert(e.take(2)[0] != qq[0]);
                }
                assert(e.skip(1) =~= d);
                assert(replace_all(e, qq, q) == seq![v[0]] + replace_all(d, qq, q));
            } else {
                assert(d.len() == 0);
                assert(replace_all(d, qq, q) == d);
                assert(replace_all(e, qq, q) == e);
            }
            assert(seq![v[0]] + rest =~= v);
        }
    }
}

/// A CSV reader reads back exactly the field that was escaped; a field that
/// needs no quoting is written as it is, and any other is written between
/// quotes.
pub proof fn lemma_csv_escape_round_trip(v: Seq<char>)
    ensures
        csv_unescape(spec_csv_escape(v)) == v,
        !needs_quoting(v) ==> spec_csv_escape(v) == v,
        needs_quoting(v) ==> spec_csv_escape(v).len() >= 2 && spec_csv_escape(v)[0] == '"'
            && spec_csv_escape(v)[spec_csv_escape(v).len() - 1] == '"',
{
    let f = spec_csv_escape(v);
    if needs_quoting(v) {
        let inner = replace_all(v, seq!['"'], seq!['"', '"']);
        assert(f.subrange(1, f.len() - 1) =~= inner);
        lemma_double_then_single(v);
    } else {
        if v.len() >= 2 && v[0] == '"' {
            assert(v.contains('"'));
        }
    }
}

/// One cell of a CSV line: text that is escaped, or a value (a number) that
/// is written as it is.
#[derive(Debug)]
pub enum CsvCell {
    Text(String),
    Raw(String),
}

/// The characters that a cell contributes to its line.
pub open spec fn cell_text(c: CsvCell) -> Seq<char> {
    match c {
        CsvCell::Text(s) => spec_csv_escape(s@),
        CsvCell::Raw(s) => s@,
    }
}

/// A CSV line: the cells separated by commas, then a line feed.
pub open spec fn csv_line(cells: Seq<CsvCell>) -> Seq<char> {
    join(cells.map_values(|c: CsvCell| cell_text(c)), seq![',']) + seq!['\n']
}

/// The lines one after another.
pub open spec fn concat_lines(lines: Seq<Seq<char>>) -> Seq<char>
    decreases lines.len(),
{
    if lines.len() == 0 {
        Seq::empty()
    } else {
        concat_lines(lines.drop_last()) + lines.last()
    }
}

/// A CSV document: the header, then one line per row.
pub open spec fn csv_document(header: Seq<char>, rows: Seq<Vec<CsvCell>>) -> Seq<char> {
    header + concat_lines(rows.map_values(|r: Vec<CsvCell>| csv_line(r@)))
}

/// Appends the text of one CSV line to `out`.
fn push_line(out: &mut Vec<char>, cells: &Vec<CsvCell>)
    ensures
        final(out)@ == old(out)@ + csv_line(cells@),
{
    let ghost start = out@;
    let ghost texts = cells@.map_values(|c: CsvCell| cell_text(c));
    let n = cells.len();
    for i in 0..n
        invariant
            n == cells@.len(),
            texts == cells@.map_values(|c: CsvCell| cell_text(c)),
            out@ == start + join(texts.take(i as int), seq![',']),
    {
        assert(texts.take(i + 1).drop_last() =~= texts.take(i as int));
        if i > 0 {
            out.push(',');
        } else {
            assert(out@ =~= start + join(texts.take(0), seq![',']));
        }
        let piece = match &cells[i] {
            CsvCell::Text(s) => csv_escape(s.as_str()),
            CsvCell::Raw(s) => owned(s.as_str()),
        };
        let pv = chars_of(piece.as_str());
        let ghost before = out@;
        push_all(out, &pv);
        assert(texts.take(i + 1).last() == cell_text(cells@[i as int]));
        if i > 0 {
            assert(out@ =~= start + (join(texts.take(i as int), seq![',']) + seq![','] + texts.take(
                i + 1,
            ).last()));
        } else {
            assert(texts.take(i + 1).len() == 1);
            assert(out@ =~= start + join(texts.take(i + 1), seq![',']));
        }
    }
    assert(texts.take(n as int) =~= texts);
    out.push('\n');
    assert(out@ =~= start + csv_line(cells@));
}

/// One CSV line: the cells separated by commas, then a line feed.
pub fn line_string(cells: &Vec<CsvCell>) -> (r: String)
    ensures
        r@ == csv_line(cells@),
{
    let mut out: Vec<char> = Vec::new();
    push_line(&mut out, cells);
    assert(out@ =~= csv_line(cells@));
    string_of(out.as_slice())
}

/// A CSV document: `header` (with its line feed), then one line per row.
pub fn build_csv(header: &str, rows: &Vec<Vec<CsvCell>>) -> (r: String)
    ensures
        r@ == csv_document(header@, rows@),
{
    let ghost lines = rows@.map_values(|r: Vec<CsvCell>| csv_line(r@));
    let mut out = chars_of(header);
    let n = rows.len();
    for i in 0..n
        invariant
            n == rows@.len(),
            lines == rows@.map_values(|r: Vec<CsvCell>| csv_line(r@)),
            out@ == header@ + concat_lines(lines.take(i as int)),
    {
        assert(lines.take(i + 1).drop_last() =~= lines.take(i as int));
        push_line(&mut out, &rows[i]);
        assert(lines.take(i + 1).last() == csv_line(rows@[i as int]@));
        assert(out@ =~= header@ + concat_lines(lines.take(i + 1)));
    }
    assert(lines.take(n as int) =~= lines);
    string_of(out.as_slice())
}

/// How many characters a field that is not quoted runs for: up to the
/// first comma or line feed.
pub open spec fn plain_len(s: Seq<char>) -> nat
    decreases s.len(),
{
    if s.len() == 0 || s[0] == ',' || s[0] == '\n' {
        0
    } else {
        1 + plain_len(s.skip(1))
    }
}

/// A quoted field read from just after its opening quote: its characters up
/// to the closing quote, a doubled quote read as one, and how many
/// characters were taken, the closing quote included.
pub open spec fn read_quoted(s: Seq<char>) -> (Seq<char>, nat)
    decreases s.len(),
{
    if s.len() == 0 {
        (Seq::empty(), 0)
    } else if s[0] == '"' {
        if s.len() >= 2 && s[1] == '"' {
            let r = read_quoted(s.skip(2));
            (seq!['"'] + r.0, r.1 + 2)
        } else {
            (Seq::empty(), 1)
        }
    } else {
        let r = read_quoted(s.skip(1));
        (seq![s[0]] + r.0, r.1 + 1)
    }
}

/// The field at the start of `s`, as a CSV reader (RFC 4180) reads it, and
/// how many characters it takes.
pub open spec fn read_field(s: Seq<char>) -> (Seq<char>, nat) {
    if s.len() > 0 && s[0] == '"' {
        let r = read_quoted(s.skip(1));
        (r.0, r.1 + 1)
    } else {
        (s.take(plain_len(s) as int), plain_len(s))
    }
}

/// The record at the start of `s`: its fields, and how many characters it
/// takes, the line feed that ends it included.
pub open spec fn read_record(s: Seq<char>) -> (Seq<Seq<char>>, nat)
    decreases s.len(),
{
    let f = read_field(s);
    if f.1 < s.len() && s[f.1 as int] == ',' {
        let r = read_record(s.skip(f.1 + 1 as int));
        (seq![f.0] + r.0, f.1 + 1 + r.1)
    } else if f.1 < s.len() {
        (seq![f.0], f.1 + 1)
    } else {
        (seq![f.0], f.1)
    }
}

/// The records of a CSV text, as a CSV reader reads them.
pub open spec fn read_records(s: Seq<char>) -> Seq<Seq<Seq<char>>>
    decreases s.len(),
{
    if s.len() == 0 {
        Seq::empty()
    } else {
        let r = read_record(s);
        if 0 < r.1 <= s.len() {
            seq![r.0] + read_records(s.skip(r.1 as int))
        } else {
            seq![r.0]
        }
    }
}

/// The line that writes the fields `values`: each escaped, separated by
/// commas, then a line feed.
pub open spec fn escaped_line(values: Seq<Seq<char>>) -> Seq<char> {
    join(values.map_values(|v: Seq<char>| spec_csv_escape(v)), seq![',']) + seq!['\n']
}

/// A field that needs no quoting runs up to the comma or line feed after it.
proof fn lemma_plain_len(v: Seq<char>, t: Seq<char>)
    requires
        !needs_quoting(v),
        t.len() == 0 || t[0] == ',' || t[0] == '\n',
    ensures
        plain_len(v + t) == v.len(),
    decreases v.len(),
{
    if v.len() == 0 {
        assert(v + t =~= t);
    } else {
        assert(v[0] != ',' && v[0] != '\n') by {
            assert(v.contains(v[0]));
        }
        let w = v.skip(1);
        assert(!needs_quoting(w)) by {
            if w.contains(',') || w.contains('"') || w.contains('\n') || w.contains('\r') {
                let c = choose|c: char| w.contains(c) && (c == ',' || c == '"' || c == '\n' || c == '\r');
                let j = choose|j: int| 0 <= j < w.len() && w[j] == c;
                assert(v[j + 1] == c);
            }
        }
        lemma_plain_len(w, t);
        assert((v + t).skip(1) =~= w + t);
    }
}

/// The inside of a quoted field, followed by its closing quote and anything
/// but another quote, reads back as the field.
proof fn lemma_read_quoted(v: Seq<char>, t: Seq<char>)
    requires
        t.len() == 0 || t[0] != '"',
    ensures
        read_quoted(replace_all(v, seq!['"'], seq!['"', '"']) + seq!['"'] + t) == (
            v,
            replace_all(v, seq!['"'], seq!['"', '"']).len() + 1,
        ),
    decreases v.len(),
{
    let q = seq!['"'];
    let qq = seq!['"', '"'];
    let d = replace_all(v, q, qq);
    let s = d + q + t;
    if v.len() == 0 {
        assert(d == v);
        assert(s[0] == '"');
        if s.len() >= 2 {
            assert(s[1] == t[0]);
        }
        assert(v =~= Seq::<char>::empty());
    } else {
        let rest = v.skip(1);
        let dr = replace_all(rest, q, qq);
        lemma_read_quoted(rest, t);
        if v[0] == '"' {
            assert(v.take(1) =~= q);
            assert(d == qq + dr);
            assert(s.skip(2) =~= dr + q + t);
            assert(seq!['"'] + rest =~= v);
        } else {
            assert(v.take(1) != q) by {
                assert(v.take(1)[0] != q[0]);
            }
            assert(d == seq![v[0]] + dr);
            assert(s.skip(1) =~= dr + q + t);
            assert(seq![v[0]] + rest =~= v);
        }
    }
}

/// An escaped field, followed by a comma, a line feed or nothing, reads back
/// as the field, taking exactly its written characters.
proof fn lemma_read_field(v: Seq<char>, t: Seq<char>)
    requires
        t.len() == 0 || t[0] == ',' || t[0] == '\n',
    ensures
        read_field(spec_csv_escape(v) + t) == (v, spec_csv_escape(v).len()),
{
    let e = spec_csv_escape(v);
    if needs_quoting(v) {
        let d = replace_all(v, seq!['"'], seq!['"', '"']);
        assert((e + t).skip(1) =~= d + seq!['"'] + t);
        lemma_read_quoted(v, t);
    } else {
        lemma_plain_len(v, t);
        if v.len() > 0 {
            assert(v[0] != '"') by {
                assert(v.contains(v[0]));
            }
        }
        assert((v + t).take(v.len() as int) =~= v);
    }
}

/// Joining at least two parts: the first, the separator, and the rest
/// joined.
proof fn lemma_join_front(parts: Seq<Seq<char>>, sep: Seq<char>)
    requires
        parts.len() >= 2,
    ensures
        join(parts, sep) == parts[0] + sep + join(parts.skip(1), sep),
    decreases parts.len(),
{
    if parts.len() == 2 {
        assert(join(parts.drop_last(), sep) == parts[0]);
        assert(join(parts.skip(1), sep) == parts[1]);
        assert(join(parts, sep) =~= parts[0] + sep + join(parts.skip(1), sep));
    } else {
        let dl = parts.drop_last();
        lemma_join_front(dl, sep);
        assert(dl.skip(1) =~= parts.skip(1).drop_last());
        assert(parts.skip(1).last() == parts.last());
        assert(join(parts.skip(1), sep) == join(dl.skip(1), sep) + sep + parts.last());
        assert(join(parts, sep) =~= parts[0] + sep + join(parts.skip(1), sep));
    }
}

/// A written line, whatever follows it, reads back as one record of its
/// fields, taking exactly the line.
proof fn lemma_read_record(values: Seq<Seq<char>>, t: Seq<char>)
    requires
        values.len() > 0,
    ensures
        read_record(escaped_line(values) + t) == (values, escaped_line(values).len()),
    decreases values.len(),
{
    let texts = values.map_values(|v: Seq<char>| spec_csv_escape(v));
    let line = escaped_line(values);
    let s = line + t;
    let e0 = spec_csv_escape(values[0]);
    if values.len() == 1 {
        assert(line =~= e0 + (seq!['\n'] + t).take(1));
        assert(s =~= e0 + (seq!['\n'] + t));
        lemma_read_field(values[0], seq!['\n'] + t);
        assert(seq![values[0]] =~= values);
    } else {
        let rest = values.skip(1);
        lemma_join_front(texts, seq![',']);
        assert(texts.skip(1) =~= rest.map_values(|v: Seq<char>| spec_csv_escape(v)));
        let tail = escaped_line(rest) + t;
        assert(s =~= e0 + (seq![','] + tail));
        lemma_read_field(values[0], seq![','] + tail);
        assert(s.skip(e0.len() + 1 as int) =~= tail);
        lemma_read_record(rest, t);
        assert(seq![values[0]] + rest =~= values);
    }
}

/// The lines one after another: the first, then the others.
proof fn lemma_concat_front(lines: Seq<Seq<char>>)
    requires
        lines.len() >= 1,
    ensures
        concat_lines(lines) == lines[0] + concat_lines(lines.skip(1)),
    decreases lines.len(),
{
    if lines.len() == 1 {
        assert(concat_lines(lines.drop_last()) == Seq::<char>::empty());
        assert(lines.skip(1).len() == 0);
        assert(concat_lines(lines) =~= lines[0] + concat_lines(lines.skip(1)));
    } else {
        lemma_concat_front(lines.drop_last());
        assert(lines.drop_last().skip(1) =~= lines.skip(1).drop_last());
        assert(lines.skip(1).last() == lines.last());
    }
}

/// Written lines one after another read back as their records.
proof fn lemma_read_lines(rows: Seq<Seq<Seq<char>>>)
    requires
        forall|k: int| 0 <= k < rows.len() ==> #[trigger] rows[k].len() > 0,
    ensures
        read_records(concat_lines(rows.map_values(|r: Seq<Seq<char>>| escaped_line(r)))) == rows,
    decreases rows.len(),
{
    let lines = rows.map_values(|r: Seq<Seq<char>>| escaped_line(r));
    if rows.len() == 0 {
        assert(concat_lines(lines).len() == 0);
        assert(rows =~= Seq::<Seq<Seq<char>>>::empty());
    } else {
        let rest = rows.skip(1);
        assert(rows[0].len() > 0);
        lemma_concat_front(lines);
        assert(lines.skip(1) =~= rest.map_values(|r: Seq<Seq<char>>| escaped_line(r)));
        let tail = concat_lines(lines.skip(1));
        lemma_read_record(rows[0], tail);
        let s = lines[0] + tail;
        assert(s.skip(lines[0].len() as int) =~= tail);
        assert forall|k: int| 0 <= k < rest.len() implies #[trigger] rest[k].len() > 0 by {
            assert(rest[k] == rows[k + 1]);
        }
        lemma_read_lines(rest);
        assert(seq![rows[0]] + rest =~= rows);
    }
}

/// A CSV document written as a header line and one line per row reads back,
/// as RFC 4180 reads it, as the header's fields and then each row's fields,
/// whatever commas, quotes or line breaks the fields hold.
pub proof fn lemma_csv_document_reads_back(header: Seq<Seq<char>>, rows: Seq<Seq<Seq<char>>>)
    requires
        header.len() > 0,
        forall|k: int| 0 <= k < rows.len() ==> #[trigger] rows[k].len() > 0,
    ensures
        read_records(
            escaped_line(header) + concat_lines(rows.map_values(|r: Seq<Seq<char>>| escaped_line(r))),
        ) == seq![header] + rows,
{
    let all = seq![header] + rows;
    assert forall|k: int| 0 <= k < all.len() implies #[trigger] all[k].len() > 0 by {
        if k > 0 {
            assert(all[k] == rows[k - 1]);
        }
    }
    lemma_read_lines(all);
    let lines = all.map_values(|r: Seq<Seq<char>>| escaped_line(r));
    lemma_concat_front(lines);
    assert(lines.skip(1) =~= rows.map_values(|r: Seq<Seq<char>>| escaped_line(r)));
}

/// The character of a decimal digit.
pub open spec fn digit_char(d: nat) -> char {
    if d == 0 {
        '0'
    } else if d == 1 {
        '1'
    } else if d == 2 {
        '2'
    } else if d == 3 {
        '3'
    } else if d == 4 {
        '4'
    } else if d == 5 {
        '5'
    } else if d == 6 {
        '6'
    } else if d == 7 {
        '7'
    } else if d == 8 {
        '8'
    } else {
        '9'
    }
}

/// The decimal writing of `n` (as `{}` formats an unsigned integer).
pub open spec fn decimal(n: nat) -> Seq<char>
    decreases n,
{
    if n < 10 {
        seq![digit_char(n)]
    } else {
        decimal(n / 10).push(digit_char(n % 10))
    }
}

/// The character of the decimal digit `d`.
fn digit(d: u64) -> (c: char)
    requires
        d < 10,
    ensures
        c == digit_char(d as nat),
{
    if d == 0 {
        '0'
    } else if d == 1 {
        '1'
    } else if d == 2 {
        '2'
    } else if d == 3 {
        '3'
    } else if d == 4 {
        '4'
    } else if d == 5 {
        '5'
    } else if d == 6 {
        '6'
    } else if d == 7 {
        '7'
    } else if d == 8 {
        '8'
    } else {
        '9'
    }
}

/// Appends the decimal writing of `n` to `out`.
fn push_decimal(out: &mut Vec<char>, n: u64)
    ensures
        final(out)@ == old(out)@ + decimal(n as nat),
    decreases n,
{
    if n < 10 {
        out.push(digit(n));
        assert(out@ =~= old(out)@ + decimal(n as nat));
    } else {
        push_decimal(out, n / 10);
        out.push(digit(n % 10));
        assert(out@ =~= old(out)@ + decimal(n as nat));
    }
}

/// The decimal writing of `n`.
pub fn decimal_string(n: u64) -> (r: String)
    ensures
        r@ == decimal(n as nat),
{
    let mut out: Vec<char> = Vec::new();
    push_decimal(&mut out, n);
    assert(out@ =~= decimal(n as nat));
    string_of(out.as_slice())
}

/// Whether `c` is a decimal digit.
pub open spec fn is_digit_char(c: char) -> bool {
    '0' <= c <= '9'
}

/// A decimal writing is made of digits only, so it needs no quoting.
pub proof fn lemma_decimal_plain(n: nat)
    ensures
        forall|i: int| 0 <= i < decimal(n).len() ==> is_digit_char(#[trigger] decimal(n)[i]),
        !needs_quoting(decimal(n)),
    decreases n,
{
    if n >= 10 {
        lemma_decimal_plain(n / 10);
    }
    let d = decimal(n);
    if needs_quoting(d) {
        let c = choose|c: char| d.contains(c) && (c == ',' || c == '"' || c == '\n' || c == '\r');
        let j = choose|j: int| 0 <= j < d.len() && d[j] == c;
        assert(is_digit_char(d[j]));
    }
}

} // verus!
