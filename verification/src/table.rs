//! `--output table`: a JSON array of nodes as aligned columns.
use vstd::prelude::*;

use crate::json::{json_field_text, json_field_text_of, json_str_field, json_str_field_of, strings_view};
use crate::pdf::is_whitespace;
use crate::text::{chars_of, owned, push_char, push_str};
use crate::tui::trim_end_at;

verus! {

/// The columns of the table, in order.
pub open spec fn table_columns() -> Seq<Seq<char>> {
    seq!["unique_id"@, "name"@, "type"@, "content"@]
}

/// The cell of a node (its JSON text) in a column: a string field as it is,
/// nothing for `null` or a missing field, any other value as compact JSON.
pub open spec fn cell_of(item: Seq<char>, col: Seq<char>) -> Seq<char> {
    match json_str_field_of(item, col) {
        Some(s) => s,
        None => match json_field_text_of(item, col) {
            Some(t) => if t == "null"@ {
                Seq::<char>::empty()
            } else {
                t
            },
            None => Seq::<char>::empty(),
        },
    }
}

/// The cells of a node, one per column.
pub open spec fn row_cells(item: Seq<char>) -> Seq<Seq<char>> {
    seq![cell_of(item, "unique_id"@), cell_of(item, "name"@), cell_of(item, "type"@), cell_of(item, "content"@)]
}

/// `str::len`: the length of the text in UTF-8 bytes.
pub open spec fn byte_len(s: Seq<char>) -> usize {
    vstd::utf8::encode_utf8(s).len() as usize
}

/// The width of column `j`: the longest of its title and its cells, in bytes.
pub open spec fn column_width(rows: Seq<Seq<Seq<char>>>, j: int) -> usize
    decreases rows.len(),
{
    if rows.len() == 0 {
        byte_len(table_columns()[j])
    } else {
        let w = column_width(rows.drop_last(), j);
        let b = byte_len(rows.last()[j]);
        if b > w {
            b
        } else {
            w
        }
    }
}

/// The widths of the four columns.
pub open spec fn table_widths(rows: Seq<Seq<Seq<char>>>) -> Seq<usize> {
    seq![column_width(rows, 0), column_width(rows, 1), column_width(rows, 2), column_width(rows, 3)]
}

/// `n` spaces.
pub open spec fn spaces(n: nat) -> Seq<char> {
    Seq::new(n, |i: int| ' ')
}

/// A cell left-aligned in `w` characters (`format!("{c:<w$}")`): spaces are
/// added until it has `w` characters; a longer cell is left as it is.
pub open spec fn padded(c: Seq<char>, w: usize) -> Seq<char> {
    if c.len() < w {
        c + spaces((w - c.len()) as nat)
    } else {
        c
    }
}

/// A line of the table: the four cells padded to their widths, two spaces
/// between them, trailing whitespace dropped.
pub open spec fn table_line(cells: Seq<Seq<char>>, widths: Seq<usize>) -> Seq<char> {
    let raw = padded(cells[0], widths[0]) + "  "@ + padded(cells[1], widths[1]) + "  "@ + padded(
        cells[2],
        widths[2],
    ) + "  "@ + padded(cells[3], widths[3]);
    raw.take(trim_end_at(raw, 0, raw.len() as int))
}

/// Lines joined by `\n`.
pub open spec fn joined_lines(lines: Seq<Seq<char>>) -> Seq<char>
    decreases lines.len(),
{
    if lines.len() == 0 {
        Seq::<char>::empty()
    } else if lines.len() == 1 {
        lines[0]
    } else {
        joined_lines(lines.drop_last()) + "\n"@ + lines.last()
    }
}

/// The table of the nodes `items` (their JSON texts): a title line, then one
/// line per node.
pub open spec fn table_text(items: Seq<Seq<char>>) -> Seq<char> {
    let rows = items.map_values(|it: Seq<char>| row_cells(it));
    let ws = table_widths(rows);
    joined_lines(
        seq![table_line(table_columns(), ws)] + rows.map_values(
            |r: Seq<Seq<char>>| table_line(r, ws),
        ),
    )
}

/// The cell of a node in a column.
fn table_cell(item: &str, col: &str) -> (r: String)
    ensures
        r@ == cell_of(item@, col@),
{
    match json_str_field(item, col) {
        Some(s) => s,
        None => match json_field_text(item, col) {
            Some(t) => {
                if t == owned("null") {
                    String::new()
                } else {
                    t
                }
            },
            None => String::new(),
        },
    }
}

/// The cells of a node.
fn row_of(item: &str) -> (r: Vec<String>)
    ensures
        strings_view(r@) == row_cells(item@),
{
    let mut r: Vec<String> = Vec::new();
    r.push(table_cell(item, "unique_id"));
    r.push(table_cell(item, "name"));
    r.push(table_cell(item, "type"));
    r.push(table_cell(item, "content"));
    assert(strings_view(r@) =~= row_cells(item@));
    r
}

/// Appends `c` left-aligned in `w` characters.
fn pad_onto(s: &mut String, c: &str, w: usize)
    ensures
        final(s)@ == old(s)@ + padded(c@, w),
{
    let ghost start = s@;
    push_str(s, c);
    let n = chars_of(c).len();
    if n < w {
        let mut k = n;
        while k < w
            invariant
                n <= k <= w,
                n == c@.len(),
                s@ == start + c@ + spaces((k - n) as nat),
            decreases w - k,
        {
            push_char(s, ' ');
            assert(spaces((k + 1 - n) as nat) =~= spaces((k - n) as nat).push(' '));
            k = k + 1;
        }
        assert(start + padded(c@, w) =~= start + c@ + spaces((w - n) as nat));
    } else {
        assert(start + c@ =~= start + padded(c@, w));
    }
}

/// The text without its trailing whitespace (`str::trim_end`).
fn trim_end_text(s: &String) -> (r: String)
    ensures
        r@ == s@.take(trim_end_at(s@, 0, s@.len() as int)),
{
    let cs = chars_of(s.as_str());
    let mut b: usize = cs.len();
    while b > 0 && is_whitespace(cs[b - 1])
        invariant
            b <= cs@.len(),
            cs@ == s@,
            trim_end_at(cs@, 0, cs@.len() as int) == trim_end_at(cs@, 0, b as int),
        decreases b,
    {
        b = b - 1;
    }
    let mut r = String::new();
    let mut j: usize = 0;
    while j < b
        invariant
            j <= b <= cs@.len(),
            cs@ == s@,
            r@ == cs@.take(j as int),
        decreases b - j,
    {
        push_char(&mut r, cs[j]);
        assert(cs@.take(j + 1) =~= cs@.take(j as int).push(cs@[j as int]));
        j = j + 1;
    }
    r
}

/// One line of the table.
fn line_of(cells: &Vec<String>, ws: &Vec<usize>) -> (r: String)
    requires
        cells@.len() == 4,
        ws@.len() == 4,
    ensures
        r@ == table_line(strings_view(cells@), ws@),
{
    let ghost cv = strings_view(cells@);
    let mut raw = String::new();
    pad_onto(&mut raw, cells[0].as_str(), ws[0]);
    assert(raw@ =~= padded(cv[0], ws@[0]));
    push_str(&mut raw, "  ");
    pad_onto(&mut raw, cells[1].as_str(), ws[1]);
    push_str(&mut raw, "  ");
    pad_onto(&mut raw, cells[2].as_str(), ws[2]);
    push_str(&mut raw, "  ");
    pad_onto(&mut raw, cells[3].as_str(), ws[3]);
    trim_end_text(&raw)
}

/// The table of the nodes `items`, each given by its JSON text.
pub fn format_table(items: &Vec<String>) -> (r: String)
    ensures
        r@ == table_text(strings_view(items@)),
{
    let ghost its = strings_view(items@);
    let ghost rows_s = its.map_values(|it: Seq<char>| row_cells(it));
    let n = items.len();
    let mut rows: Vec<Vec<String>> = Vec::new();
    let mut i: usize = 0;
    while i < n
        invariant
            0 <= i <= n,
            n == items@.len(),
            its == strings_view(items@),
            rows_s == its.map_values(|it: Seq<char>| row_cells(it)),
            rows@.len() == i,
            forall|k: int| 0 <= k < i ==> strings_view(#[trigger] rows@[k]@) == rows_s[k],
        decreases n - i,
    {
        let row = row_of(items[i].as_str());
        rows.push(row);
        i = i + 1;
    }
    let hdr: Vec<String> = vec![owned("unique_id"), owned("name"), owned("type"), owned("content")];
    assert(strings_view(hdr@) =~= table_columns());
    let mut ws: Vec<usize> = Vec::new();
    let mut j: usize = 0;
    while j < 4
        invariant
            0 <= j <= 4,
            hdr@.len() == 4,
            strings_view(hdr@) == table_columns(),
            rows@.len() == n,
            rows_s.len() == n,
            forall|k: int| 0 <= k < n ==> strings_view(#[trigger] rows@[k]@) == rows_s[k],
            forall|k: int| 0 <= k < n ==> (#[trigger] rows_s[k]).len() == 4,
            ws@.len() == j,
            forall|jj: int| 0 <= jj < j ==> #[trigger] ws@[jj] == column_width(rows_s, jj),
        decreases 4 - j,
    {
        let mut w = hdr[j].as_str().len();
        assert(w == column_width(rows_s.take(0), j as int));
        let mut r: usize = 0;
        while r < n
            invariant
                0 <= r <= n,
                j < 4,
                rows@.len() == n,
                rows_s.len() == n,
                forall|k: int| 0 <= k < n ==> strings_view(#[trigger] rows@[k]@) == rows_s[k],
                forall|k: int| 0 <= k < n ==> (#[trigger] rows_s[k]).len() == 4,
                w == column_width(rows_s.take(r as int), j as int),
            decreases n - r,
        {
            assert(strings_view(rows@[r as int]@) == rows_s[r as int]);
            assert(rows@[r as int]@.len() == 4);
            let b = rows[r][j].as_str().len();
            assert(rows_s.take(r + 1).drop_last() =~= rows_s.take(r as int));
            assert(rows_s.take(r + 1).last() == rows_s[r as int]);
            assert(rows_s[r as int][j as int] == rows@[r as int]@[j as int]@);
            if b > w {
                w = b;
            }
            r = r + 1;
        }
        assert(rows_s.take(n as int) =~= rows_s);
        ws.push(w);
        j = j + 1;
    }
    let ghost ws_s = table_widths(rows_s);
    assert(ws@ =~= ws_s);
    let ghost lines = seq![table_line(table_columns(), ws_s)] + rows_s.map_values(
        |rr: Seq<Seq<char>>| table_line(rr, ws_s),
    );
    let mut out = line_of(&hdr, &ws);
    assert(lines.take(1) =~= seq![lines[0]]);
    let mut r: usize = 0;
    while r < n
        invariant
            0 <= r <= n,
            rows@.len() == n,
            rows_s.len() == n,
            forall|k: int| 0 <= k < n ==> strings_view(#[trigger] rows@[k]@) == rows_s[k],
            forall|k: int| 0 <= k < n ==> (#[trigger] rows_s[k]).len() == 4,
            ws@ == ws_s,
            ws@.len() == 4,
            lines == seq![table_line(table_columns(), ws_s)] + rows_s.map_values(
                |rr: Seq<Seq<char>>| table_line(rr, ws_s),
            ),
            out@ == joined_lines(lines.take(r + 1)),
        decreases n - r,
    {
        assert(rows@[r as int]@.len() == 4);
        let l = line_of(&rows[r], &ws);
        push_str(&mut out, "\n");
        push_str(&mut out, l.as_str());
        assert(lines.take(r + 2).drop_last() =~= lines.take(r + 1));
        assert(lines.take(r + 2).last() == lines[r + 1]);
        assert(lines[r + 1] == table_line(rows_s[r as int], ws_s));
        r = r + 1;
    }
    assert(lines.take(n + 1) =~= lines);
    out
}

} // verus!
