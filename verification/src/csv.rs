//! The line-oriented, quote-delimited, comma-separated text format that
//! the grid's matrix is persisted to and loaded from: each cell wrapped
//! in double quotes, cells joined by commas, each row ended by a newline.

use vstd::prelude::*;
use vstd::string::StrSliceExecFns;
use vstd::string::StringExecFns;

verus! {

/// One cell serialized: the cell's text wrapped in double quotes.
pub open spec fn csv_cell_text(cell: Seq<char>) -> Seq<char> {
    seq!['"'] + cell + seq!['"']
}

/// One row serialized: its cells, each quoted, joined by commas.
pub open spec fn csv_row_text(row: Seq<Seq<char>>) -> Seq<char>
    decreases row.len(),
{
    if row.len() == 0 {
        Seq::empty()
    } else if row.len() == 1 {
        csv_cell_text(row[0])
    } else {
        csv_row_text(row.drop_last()) + seq![','] + csv_cell_text(row.last())
    }
}

/// The whole matrix serialized: each row's line followed by a newline.
pub open spec fn csv_text(m: Seq<Seq<Seq<char>>>) -> Seq<char>
    decreases m.len(),
{
    if m.len() == 0 {
        Seq::empty()
    } else {
        csv_text(m.drop_last()) + csv_row_text(m.last()) + seq!['\n']
    }
}

/// Serialize `matrix` to the persistence format.
pub fn to_csv(matrix: &Vec<Vec<String>>) -> (r: String)
    ensures
        r@ == csv_text(matrix.deep_view()),
{
    let mut out = String::new();
    let mut i: usize = 0;
    proof {
        assert(matrix.deep_view().take(0) =~= Seq::<Seq<Seq<char>>>::empty());
    }
    while i < matrix.len()
        invariant
            i <= matrix.len(),
            out@ == csv_text(matrix.deep_view().take(i as int)),
        decreases matrix.len() - i,
    {
        let row = &matrix[i];
        let mut j: usize = 0;
        proof {
            assert(row.deep_view().take(0) =~= Seq::<Seq<char>>::empty());
        }
        while j < row.len()
            invariant
                j <= row.len(),
                out@ == csv_text(matrix.deep_view().take(i as int)) + csv_row_text(
                    row.deep_view().take(j as int),
                ),
            decreases row.len() - j,
        {
            if j > 0 {
                out.push(',');
            }
            out.push('"');
            out.append(row[j].as_str());
            out.push('"');
            proof {
                let rdv = row.deep_view();
                assert(rdv.take(j + 1).drop_last() =~= rdv.take(j as int));
                assert(rdv.take(j + 1).last() == rdv[j as int]);
                assert(out@ =~= csv_text(matrix.deep_view().take(i as int)) + csv_row_text(
                    rdv.take(j + 1),
                ));
            }
            j = j + 1;
        }
        out.push('\n');
        proof {
            let m = matrix.deep_view();
            assert(row.deep_view() =~= m[i as int]);
            assert(row.deep_view().take(row@.len() as int) =~= row.deep_view());
            assert(m.take(i + 1).drop_last() =~= m.take(i as int));
            assert(m.take(i + 1).last() == m[i as int]);
            assert(out@ =~= csv_text(m.take(i + 1)));
        }
        i = i + 1;
    }
    proof {
        assert(matrix.deep_view().take(matrix@.len() as int) =~= matrix.deep_view());
    }
    out
}

/// A character the loader strips from the end of the stored text before
/// parsing: the serializer's trailing newline and the other white-space
/// characters (the ASCII ones, next line, no-break and the Unicode
/// space and line separators).
pub open spec fn is_trailing_ws(c: char) -> bool {
    ||| c == ' '
    ||| c == '\t'
    ||| c == '\n'
    ||| c == '\u{0B}'
    ||| c == '\u{0C}'
    ||| c == '\r'
    ||| c == '\u{85}'
    ||| c == '\u{A0}'
    ||| c == '\u{1680}'
    ||| c == '\u{2000}'
    ||| c == '\u{2001}'
    ||| c == '\u{2002}'
    ||| c == '\u{2003}'
    ||| c == '\u{2004}'
    ||| c == '\u{2005}'
    ||| c == '\u{2006}'
    ||| c == '\u{2007}'
    ||| c == '\u{2008}'
    ||| c == '\u{2009}'
    ||| c == '\u{200A}'
    ||| c == '\u{2028}'
    ||| c == '\u{2029}'
    ||| c == '\u{202F}'
    ||| c == '\u{205F}'
    ||| c == '\u{3000}'
}

/// `s` with every trailing whitespace character removed.
pub open spec fn trim_end_ws(s: Seq<char>) -> Seq<char>
    decreases s.len(),
{
    if s.len() > 0 && is_trailing_ws(s.last()) {
        trim_end_ws(s.drop_last())
    } else {
        s
    }
}

/// `s` split at every occurrence of `sep`: always one piece more than
/// there are separators, empty pieces included.
pub open spec fn split_on(s: Seq<char>, sep: char) -> Seq<Seq<char>>
    decreases s.len(),
{
    if s.len() == 0 {
        seq![Seq::<char>::empty()]
    } else {
        let p = split_on(s.drop_last(), sep);
        if s.last() == sep {
            p.push(Seq::<char>::empty())
        } else {
            p.update(p.len() - 1, p.last().push(s.last()))
        }
    }
}

/// A line with every double-quote character removed.
pub open spec fn strip_quotes(line: Seq<char>) -> Seq<char>
    decreases line.len(),
{
    if line.len() == 0 {
        Seq::empty()
    } else if line.last() == '"' {
        strip_quotes(line.drop_last())
    } else {
        strip_quotes(line.drop_last()).push(line.last())
    }
}

/// One stored line parsed into a row: quotes stripped, then split at
/// commas.
pub open spec fn parse_line(line: Seq<char>) -> Seq<Seq<char>> {
    split_on(strip_quotes(line), ',')
}

/// The stored text parsed into a matrix: trailing whitespace trimmed,
/// the text split into lines, each line parsed into a row.
pub open spec fn parse_csv_text(s: Seq<char>) -> Seq<Seq<Seq<char>>> {
    split_on(trim_end_ws(s), '\n').map_values(|line: Seq<char>| parse_line(line))
}

proof fn lemma_split_on_len(s: Seq<char>, sep: char)
    ensures
        split_on(s, sep).len() >= 1,
    decreases s.len(),
{
    if s.len() > 0 {
        lemma_split_on_len(s.drop_last(), sep);
    }
}

proof fn lemma_split_on_push(s: Seq<char>, sep: char, c: char)
    ensures
        split_on(s, sep).len() >= 1,
        c == sep ==> split_on(s.push(c), sep) == split_on(s, sep).push(Seq::<char>::empty()),
        c != sep ==> split_on(s.push(c), sep) == split_on(s, sep).update(
            split_on(s, sep).len() - 1,
            split_on(s, sep).last().push(c),
        ),
{
    lemma_split_on_len(s, sep);
    assert(s.push(c).drop_last() =~= s);
    assert(s.push(c).last() == c);
    assert(s.push(c).len() == s.len() + 1);
}

proof fn lemma_strip_quotes_push(l: Seq<char>, c: char)
    ensures
        c != '"' ==> strip_quotes(l.push(c)) == strip_quotes(l).push(c),
        c == '"' ==> strip_quotes(l.push(c)) == strip_quotes(l),
{
    assert(l.push(c).drop_last() =~= l);
    assert(l.push(c).last() == c);
    assert(l.push(c).len() == l.len() + 1);
}

/// No character of `s` is `c`.
pub open spec fn has_no_char(s: Seq<char>, c: char) -> bool {
    forall|i: int| 0 <= i < s.len() ==> s[i] != c
}

/// A matrix the persistence format represents losslessly: at least one
/// row, no empty row, and no cell containing a quote, a comma or a
/// newline.
pub open spec fn csv_exact(m: Seq<Seq<Seq<char>>>) -> bool {
    &&& m.len() >= 1
    &&& forall|r: int| 0 <= r < m.len() ==> (#[trigger] m[r]).len() >= 1
    &&& forall|r: int, j: int|
        0 <= r < m.len() && 0 <= j < m[r].len() ==> {
            &&& has_no_char(#[trigger] m[r][j], '"')
            &&& has_no_char(m[r][j], ',')
            &&& has_no_char(m[r][j], '\n')
        }
}

proof fn lemma_strip_concat(a: Seq<char>, b: Seq<char>)
    ensures
        strip_quotes(a + b) == strip_quotes(a) + strip_quotes(b),
    decreases b.len(),
{
    if b.len() == 0 {
        assert(a + b =~= a);
        assert(strip_quotes(a) + strip_quotes(b) =~= strip_quotes(a));
    } else {
        lemma_strip_concat(a, b.drop_last());
        assert((a + b).drop_last() =~= a + b.drop_last());
        assert((a + b).last() == b.last());
        assert((a + b).len() == a.len() + b.len());
        if b.last() != '"' {
            assert(strip_quotes(a) + strip_quotes(b) =~= (strip_quotes(a) + strip_quotes(
                b.drop_last(),
            )).push(b.last()));
        }
    }
}

proof fn lemma_strip_id(s: Seq<char>)
    requires
        has_no_char(s, '"'),
    ensures
        strip_quotes(s) == s,
    decreases s.len(),
{
    if s.len() > 0 {
        assert(has_no_char(s.drop_last(), '"'));
        lemma_strip_id(s.drop_last());
        assert(strip_quotes(s.drop_last()).push(s.last()) =~= s);
    }
}

proof fn lemma_strip_cell(cell: Seq<char>)
    requires
        has_no_char(cell, '"'),
    ensures
        strip_quotes(csv_cell_text(cell)) == cell,
{
    lemma_strip_concat(seq!['"'] + cell, seq!['"']);
    lemma_strip_concat(seq!['"'], cell);
    lemma_strip_id(cell);
    assert(seq!['"'].last() == '"');
    assert(seq!['"'].drop_last() =~= Seq::<char>::empty());
    assert(strip_quotes(Seq::<char>::empty()) =~= Seq::<char>::empty());
    assert(strip_quotes(seq!['"']) =~= Seq::<char>::empty());
    assert(strip_quotes(csv_cell_text(cell)) =~= cell);
}

proof fn lemma_split_no_sep(a: Seq<char>, b: Seq<char>, sep: char)
    requires
        has_no_char(b, sep),
    ensures
        split_on(a, sep).len() >= 1,
        split_on(a + b, sep) == split_on(a, sep).update(
            split_on(a, sep).len() - 1,
            split_on(a, sep).last() + b,
        ),
    decreases b.len(),
{
    lemma_split_on_len(a, sep);
    if b.len() == 0 {
        assert(a + b =~= a);
        assert(split_on(a, sep).last() + b =~= split_on(a, sep).last());
        assert(split_on(a, sep).update(
            split_on(a, sep).len() - 1,
            split_on(a, sep).last() + b,
        ) =~= split_on(a, sep));
    } else {
        assert(has_no_char(b.drop_last(), sep));
        lemma_split_no_sep(a, b.drop_last(), sep);
        assert(a + b =~= (a + b.drop_last()).push(b.last()));
        lemma_split_on_push(a + b.drop_last(), sep, b.last());
        assert(b.last() != sep);
        let p = split_on(a, sep);
        let mid = split_on(a + b.drop_last(), sep);
        assert(mid == p.update(p.len() - 1, p.last() + b.drop_last()));
        assert(mid.len() == p.len());
        assert(mid.last() == p.last() + b.drop_last());
        assert(split_on(a + b, sep) == mid.update(mid.len() - 1, mid.last().push(b.last())));
        assert((p.last() + b.drop_last()).push(b.last()) =~= p.last() + b);
        assert(mid.update(mid.len() - 1, mid.last().push(b.last())) =~= p.update(
            p.len() - 1,
            p.last() + b,
        ));
    }
}

proof fn lemma_row_text_chars(row: Seq<Seq<char>>, sep: char)
    requires
        sep != '"',
        sep != ',',
        forall|j: int| 0 <= j < row.len() ==> has_no_char(#[trigger] row[j], sep),
    ensures
        has_no_char(csv_row_text(row), sep),
    decreases row.len(),
{
    if row.len() == 0 {
    } else if row.len() == 1 {
        assert(csv_row_text(row) == csv_cell_text(row[0]));
        assert forall|i: int|
            0 <= i < csv_cell_text(row[0]).len() implies csv_cell_text(row[0])[i] != sep by {
            if 1 <= i < 1 + row[0].len() {
                assert(csv_cell_text(row[0])[i] == row[0][i - 1]);
            }
        }
    } else {
        assert(forall|j: int|
            0 <= j < row.drop_last().len() ==> has_no_char(#[trigger] row.drop_last()[j], sep));
        lemma_row_text_chars(row.drop_last(), sep);
        let prev = csv_row_text(row.drop_last());
        let ct = csv_cell_text(row.last());
        assert(has_no_char(ct, sep)) by {
            assert forall|i: int| 0 <= i < ct.len() implies ct[i] != sep by {
                if 1 <= i < 1 + row.last().len() {
                    assert(ct[i] == row.last()[i - 1]);
                }
            }
        }
        assert(csv_row_text(row) == prev + seq![','] + ct);
        assert forall|i: int|
            0 <= i < csv_row_text(row).len() implies csv_row_text(row)[i] != sep by {
            if i < prev.len() {
                assert(csv_row_text(row)[i] == prev[i]);
            } else if i == prev.len() {
                assert(csv_row_text(row)[i] == ',');
            } else {
                assert(csv_row_text(row)[i] == ct[i - prev.len() - 1]);
            }
        }
    }
}

proof fn lemma_row_text_ends_quote(row: Seq<Seq<char>>)
    requires
        row.len() >= 1,
    ensures
        csv_row_text(row).len() >= 2,
        csv_row_text(row).last() == '"',
    decreases row.len(),
{
    if row.len() == 1 {
        assert(csv_row_text(row) == csv_cell_text(row[0]));
        assert(csv_cell_text(row[0]).last() == '"');
    } else {
        let prev = csv_row_text(row.drop_last());
        let ct = csv_cell_text(row.last());
        assert(csv_row_text(row) == prev + seq![','] + ct);
        assert(ct.last() == '"');
        assert(csv_row_text(row).last() == ct.last());
    }
}

proof fn lemma_parse_line_row(row: Seq<Seq<char>>)
    requires
        row.len() >= 1,
        forall|j: int| 0 <= j < row.len() ==> has_no_char(#[trigger] row[j], '"'),
        forall|j: int| 0 <= j < row.len() ==> has_no_char(#[trigger] row[j], ','),
    ensures
        parse_line(csv_row_text(row)) == row,
    decreases row.len(),
{
    if row.len() == 1 {
        let cell = row[0];
        assert(csv_row_text(row) == csv_cell_text(cell));
        lemma_strip_cell(cell);
        lemma_split_no_sep(Seq::<char>::empty(), cell, ',');
        assert(Seq::<char>::empty() + cell =~= cell);
        assert(split_on(Seq::<char>::empty(), ',') =~= seq![Seq::<char>::empty()]);
        assert(Seq::<char>::empty() + cell =~= cell);
        assert(split_on(cell, ',') =~= seq![cell]);
        assert(parse_line(csv_row_text(row)) =~= row);
    } else {
        assert(forall|j: int|
            0 <= j < row.drop_last().len() ==> has_no_char(#[trigger] row.drop_last()[j], '"'));
        assert(forall|j: int|
            0 <= j < row.drop_last().len() ==> has_no_char(#[trigger] row.drop_last()[j], ','));
        lemma_parse_line_row(row.drop_last());
        let prev = csv_row_text(row.drop_last());
        let cell = row.last();
        let ct = csv_cell_text(cell);
        assert(csv_row_text(row) == prev + seq![','] + ct);
        // strip the quotes piecewise
        lemma_strip_concat(prev + seq![','], ct);
        lemma_strip_concat(prev, seq![',']);
        lemma_strip_id(seq![',']);
        lemma_strip_cell(cell);
        assert((prev + seq![',']) + ct =~= prev + seq![','] + ct);
        assert(strip_quotes(csv_row_text(row)) =~= strip_quotes(prev) + seq![','] + cell);
        // split back into cells
        let sp = strip_quotes(prev);
        assert(sp.push(',') =~= sp + seq![',']);
        lemma_split_on_push(sp, ',', ',');
        assert(split_on(sp + seq![','], ',') == split_on(sp, ',').push(Seq::<char>::empty()));
        lemma_split_no_sep(sp + seq![','], cell, ',');
        let q = split_on(sp + seq![','], ',');
        assert(split_on(sp + seq![','] + cell, ',') == q.update(q.len() - 1, q.last() + cell));
        assert(q.last() =~= Seq::<char>::empty());
        assert(Seq::<char>::empty() + cell =~= cell);
        assert(q.update(q.len() - 1, q.last() + cell) =~= split_on(sp, ',').push(cell));
        assert(split_on(sp, ',') == row.drop_last());
        assert(split_on(sp, ',').push(cell) =~= row);
        assert(parse_line(csv_row_text(row)) =~= row);
    }
}

proof fn lemma_lines(m: Seq<Seq<Seq<char>>>)
    requires
        csv_exact(m),
    ensures
        csv_text(m).len() >= 3,
        csv_text(m).last() == '\n',
        csv_text(m).drop_last().len() >= 2,
        csv_text(m).drop_last().last() == '"',
        split_on(csv_text(m).drop_last(), '\n') == m.map_values(
            |row: Seq<Seq<char>>| csv_row_text(row),
        ),
    decreases m.len(),
{
    let rt = csv_row_text(m.last());
    lemma_row_text_ends_quote(m.last());
    assert(forall|j: int| 0 <= j < m.last().len() ==> has_no_char(#[trigger] m.last()[j], '\n'));
    lemma_row_text_chars(m.last(), '\n');
    if m.len() == 1 {
        assert(csv_text(m.drop_last()) =~= Seq::<char>::empty()) by {
            assert(m.drop_last() =~= Seq::<Seq<Seq<char>>>::empty());
        }
        assert(csv_text(m) =~= rt + seq!['\n']);
        assert(csv_text(m).drop_last() =~= rt);
        lemma_split_no_sep(Seq::<char>::empty(), rt, '\n');
        assert(Seq::<char>::empty() + rt =~= rt);
        assert(split_on(Seq::<char>::empty(), '\n') =~= seq![Seq::<char>::empty()]);
        assert(split_on(rt, '\n') =~= seq![rt]);
        assert(m.map_values(|row: Seq<Seq<char>>| csv_row_text(row)) =~= seq![rt]);
    } else {
        assert(csv_exact(m.drop_last())) by {
            assert(forall|r: int|
                0 <= r < m.drop_last().len() ==> (#[trigger] m.drop_last()[r]).len() >= 1);
        }
        lemma_lines(m.drop_last());
        let prevtext = csv_text(m.drop_last());
        assert(csv_text(m) == prevtext + rt + seq!['\n']);
        assert(csv_text(m).drop_last() =~= prevtext + rt);
        assert(csv_text(m).drop_last().last() == rt.last());
        // split the previous text, whose last character is a newline
        assert(prevtext =~= prevtext.drop_last().push('\n'));
        lemma_split_on_push(prevtext.drop_last(), '\n', '\n');
        let prevlines = split_on(prevtext.drop_last(), '\n');
        assert(split_on(prevtext, '\n') == prevlines.push(Seq::<char>::empty()));
        lemma_split_no_sep(prevtext, rt, '\n');
        let q = split_on(prevtext, '\n');
        assert(split_on(prevtext + rt, '\n') == q.update(q.len() - 1, q.last() + rt));
        assert(q.last() =~= Seq::<char>::empty());
        assert(Seq::<char>::empty() + rt =~= rt);
        assert(q.update(q.len() - 1, q.last() + rt) =~= prevlines.push(rt));
        assert(prevlines == m.drop_last().map_values(|row: Seq<Seq<char>>| csv_row_text(row)));
        assert(prevlines.push(rt) =~= m.map_values(|row: Seq<Seq<char>>| csv_row_text(row)));
    }
}

/// LAW: the persistence round trip is lossless.  For any matrix with at
/// least one row, no empty row, and no cell containing a quote, a comma
/// or a newline, parsing the serialized text gives back exactly the
/// matrix.  (A matrix without rows, an empty row, or a cell holding one
/// of the format's own delimiters is not represented losslessly by this
/// format, so those are left out.)
pub proof fn lemma_csv_round_trip(m: Seq<Seq<Seq<char>>>)
    requires
        csv_exact(m),
    ensures
        parse_csv_text(csv_text(m)) == m,
{
    lemma_lines(m);
    let text = csv_text(m);
    assert(is_trailing_ws(text.last()));
    assert(trim_end_ws(text) == trim_end_ws(text.drop_last()));
    assert(!is_trailing_ws('"'));
    assert(trim_end_ws(text.drop_last()) == text.drop_last());
    let lines = split_on(text.drop_last(), '\n');
    assert(lines == m.map_values(|row: Seq<Seq<char>>| csv_row_text(row)));
    assert(parse_csv_text(text).len() == m.len());
    assert forall|r: int| 0 <= r < m.len() implies #[trigger] parse_csv_text(text)[r] == m[r] by {
        assert(parse_csv_text(text)[r] == parse_line(lines[r]));
        assert(lines[r] == csv_row_text(m[r]));
        assert(forall|j: int| 0 <= j < m[r].len() ==> has_no_char(#[trigger] m[r][j], '"'));
        assert(forall|j: int| 0 <= j < m[r].len() ==> has_no_char(#[trigger] m[r][j], ','));
        lemma_parse_line_row(m[r]);
    }
    assert(parse_csv_text(text) =~= m);
}

/// Whether the character at code-point position `i` of `s` is trailing
/// whitespace.
fn ws_at(s: &str, i: usize) -> (b: bool)
    requires
        i < s@.len(),
    ensures
        b == is_trailing_ws(s@[i as int]),
{
    let c = s.get_char(i);
    c == ' ' || c == '\t' || c == '\n' || c == '\u{0B}' || c == '\u{0C}' || c == '\r' || c
        == '\u{85}' || c == '\u{A0}' || c == '\u{1680}' || c == '\u{2000}' || c == '\u{2001}' || c
        == '\u{2002}' || c == '\u{2003}' || c == '\u{2004}' || c == '\u{2005}' || c == '\u{2006}'
        || c == '\u{2007}' || c == '\u{2008}' || c == '\u{2009}' || c == '\u{200A}' || c
        == '\u{2028}' || c == '\u{2029}' || c == '\u{202F}' || c == '\u{205F}' || c == '\u{3000}'
}

/// Parse stored text into a matrix: trailing whitespace is trimmed, the
/// text is split into lines at newlines, and each line has its quotes
/// stripped and is split into cells at commas — so a stored line
/// `"a","b"` becomes the row `["a", "b"]`.
pub fn parse_csv(text: &str) -> (m: Vec<Vec<String>>)
    ensures
        m.deep_view() == parse_csv_text(text@),
{
    let n = text.unicode_len();
    let mut t = n;
    proof {
        assert(text@.take(n as int) =~= text@);
    }
    while t > 0 && ws_at(text, t - 1)
        invariant
            t <= n,
            n == text@.len(),
            trim_end_ws(text@) == trim_end_ws(text@.take(t as int)),
        decreases t,
    {
        proof {
            assert(text@.take(t as int).last() == text@[t - 1]);
            assert(text@.take(t as int).drop_last() =~= text@.take(t - 1));
        }
        t = t - 1;
    }
    proof {
        assert(text@.take(n as int) =~= text@);
        if t > 0 {
            assert(text@.take(t as int).last() == text@[t - 1]);
            assert(!is_trailing_ws(text@.take(t as int).last()));
        }
        assert(trim_end_ws(text@) == text@.take(t as int));
    }
    let mut rows: Vec<Vec<String>> = Vec::new();
    let mut cur_row: Vec<String> = Vec::new();
    let mut cur_cell = String::new();
    let mut i: usize = 0;
    proof {
        assert(text@.take(0) =~= Seq::<char>::empty());
        assert(strip_quotes(Seq::<char>::empty()) =~= Seq::<char>::empty());
        assert(cur_row.deep_view().push(cur_cell@) =~= seq![Seq::<char>::empty()]);
    }
    while i < t
        invariant
            i <= t,
            t <= n,
            n == text@.len(),
            trim_end_ws(text@) == text@.take(t as int),
            ({
                let lines = split_on(text@.take(i as int), '\n');
                &&& lines.len() >= 1
                &&& rows@.len() == lines.len() - 1
                &&& forall|r: int|
                    0 <= r < rows@.len() ==> #[trigger] rows.deep_view()[r] == parse_line(lines[r])
                &&& cur_row.deep_view().push(cur_cell@) == parse_line(lines.last())
            }),
        decreases t - i,
    {
        let c = text.get_char(i);
        let ghost lines = split_on(text@.take(i as int), '\n');
        proof {
            assert(text@.take(i + 1).drop_last() =~= text@.take(i as int));
            assert(text@.take(i + 1).last() == c);
            lemma_split_on_push(text@.take(i as int), '\n', c);
            lemma_strip_quotes_push(lines.last(), c);
            lemma_split_on_push(strip_quotes(lines.last()), ',', c);
        }
        if c == '\n' {
            let ghost rows0 = rows.deep_view();
            let ghost rowsv0 = rows@;
            let ghost row_dv = cur_row.deep_view().push(cur_cell@);
            cur_row.push(cur_cell);
            proof {
                assert(cur_row.deep_view() =~~= row_dv);
            }
            cur_cell = String::new();
            rows.push(cur_row);
            cur_row = Vec::new();
            proof {
                let lines2 = split_on(text@.take(i + 1), '\n');
                assert(lines2 =~= lines.push(Seq::<char>::empty()));
                assert forall|r: int| 0 <= r < rows@.len() implies #[trigger] rows.deep_view()[r]
                    == parse_line(lines2[r]) by {
                    assert(lines2[r] == lines[r]);
                    assert(rows.deep_view()[r] == rows@[r].deep_view());
                    if r < rowsv0.len() {
                        assert(rows@[r] == rowsv0[r]);
                        assert(rows0[r] == rowsv0[r].deep_view());
                    } else {
                        assert(rows@[r].deep_view() =~~= row_dv);
                    }
                }
                assert(cur_row.deep_view().push(cur_cell@) =~= seq![Seq::<char>::empty()]);
                assert(parse_line(lines2.last()) =~= seq![Seq::<char>::empty()]);
            }
        } else if c == ',' {
            cur_row.push(cur_cell);
            cur_cell = String::new();
            proof {
                let lines2 = split_on(text@.take(i + 1), '\n');
                assert(lines2 =~= lines.update(lines.len() - 1, lines.last().push(',')));
                assert(lines2.last() == lines.last().push(','));
                assert(strip_quotes(lines2.last()) == strip_quotes(lines.last()).push(','));
                assert(parse_line(lines2.last()) =~= parse_line(lines.last()).push(
                    Seq::<char>::empty(),
                ));
                assert(cur_row.deep_view().push(cur_cell@) =~~= parse_line(lines.last()).push(
                    Seq::<char>::empty(),
                ));
                assert forall|r: int| 0 <= r < rows@.len() implies #[trigger] rows.deep_view()[r]
                    == parse_line(lines2[r]) by {
                    assert(lines2[r] == lines[r]);
                }
            }
        } else if c == '"' {
            proof {
                let lines2 = split_on(text@.take(i + 1), '\n');
                assert(lines2 =~= lines.update(lines.len() - 1, lines.last().push('"')));
                assert(lines2.last() == lines.last().push('"'));
                assert(strip_quotes(lines2.last()) == strip_quotes(lines.last()));
                assert forall|r: int| 0 <= r < rows@.len() implies #[trigger] rows.deep_view()[r]
                    == parse_line(lines2[r]) by {
                    assert(lines2[r] == lines[r]);
                }
            }
        } else {
            cur_cell.push(c);
            proof {
                let lines2 = split_on(text@.take(i + 1), '\n');
                assert(lines2 =~= lines.update(lines.len() - 1, lines.last().push(c)));
                assert(lines2.last() == lines.last().push(c));
                assert(strip_quotes(lines2.last()) == strip_quotes(lines.last()).push(c));
                let p = split_on(strip_quotes(lines.last()), ',');
                assert(parse_line(lines2.last()) =~= p.update(p.len() - 1, p.last().push(c)));
                assert(cur_row.deep_view().push(cur_cell@) =~~= p.update(
                    p.len() - 1,
                    p.last().push(c),
                ));
                assert forall|r: int| 0 <= r < rows@.len() implies #[trigger] rows.deep_view()[r]
                    == parse_line(lines2[r]) by {
                    assert(lines2[r] == lines[r]);
                }
            }
        }
        i = i + 1;
    }
    let ghost rows0 = rows.deep_view();
    let ghost rowsv0 = rows@;
    let ghost row_dv = cur_row.deep_view().push(cur_cell@);
    cur_row.push(cur_cell);
    proof {
        assert(cur_row.deep_view() =~~= row_dv);
    }
    rows.push(cur_row);
    proof {
        let lines = split_on(text@.take(t as int), '\n');
        let result = parse_csv_text(text@);
        assert(result =~= lines.map_values(|line: Seq<char>| parse_line(line)));
        assert(rows@.len() == lines.len());
        assert forall|r: int| 0 <= r < rows@.len() implies #[trigger] rows.deep_view()[r]
            == result[r] by {
            assert(result[r] == parse_line(lines[r]));
            assert(rows.deep_view()[r] == rows@[r].deep_view());
            if r < rowsv0.len() {
                assert(rows@[r] == rowsv0[r]);
                assert(rows0[r] == rowsv0[r].deep_view());
            } else {
                assert(rows@[r].deep_view() =~~= row_dv);
                assert(r == lines.len() - 1);
            }
        }
        assert(rows.deep_view() =~= parse_csv_text(text@));
    }
    rows
}

/// A deep copy of `matrix`: rows and cells copied element by element.
pub fn clone_matrix(matrix: &Vec<Vec<String>>) -> (r: Vec<Vec<String>>)
    ensures
        r.deep_view() == matrix.deep_view(),
{
    let mut r: Vec<Vec<String>> = Vec::new();
    let mut i: usize = 0;
    while i < matrix.len()
        invariant
            i <= matrix.len(),
            r@.len() == i,
            forall|x: int| 0 <= x < i ==> #[trigger] r@[x].deep_view() == matrix@[x].deep_view(),
        decreases matrix.len() - i,
    {
        let row = &matrix[i];
        let mut nr: Vec<String> = Vec::new();
        let mut j: usize = 0;
        while j < row.len()
            invariant
                j <= row.len(),
                nr@.len() == j,
                forall|x: int| 0 <= x < j ==> #[trigger] nr@[x]@ == row@[x]@,
            decreases row.len() - j,
        {
            nr.push(row[j].clone());
            j = j + 1;
        }
        proof {
            assert(nr.deep_view() =~= row.deep_view());
        }
        r.push(nr);
        i = i + 1;
    }
    proof {
        assert(r.deep_view() =~= matrix.deep_view());
    }
    r
}

} // verus!
