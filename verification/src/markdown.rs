//! Query results as Markdown tables, for the assistant to quote.

use vstd::prelude::*;
use vstd::string::StrSliceExecFns;
use vstd::string::StringExecFns;

verus! {

/// One value of a query result.
#[derive(Debug)]
pub enum Cell {
    /// A number, already written out.
    Number(String),
    /// A text.
    Text(String),
    /// No value.
    Null,
}

/// `text` with every `|` written as `\|`, so that it does not end a column.
pub open spec fn escaped(text: Seq<char>) -> Seq<char>
    decreases text.len(),
{
    if text.len() == 0 {
        Seq::empty()
    } else if text.last() == '|' {
        escaped(text.drop_last()) + seq!['\\', '|']
    } else {
        escaped(text.drop_last()).push(text.last())
    }
}

/// What is written for a cell.
pub open spec fn cell_text(cell: Cell) -> Seq<char> {
    match cell {
        Cell::Number(number) => number@,
        Cell::Text(text) => escaped(text@),
        Cell::Null => "NULL"@,
    }
}

/// What is written for the column `index` of a row: the cell, or `NULL`
/// where the row is too short to have one.
pub open spec fn column_text(row: Seq<Cell>, index: int) -> Seq<char> {
    if 0 <= index < row.len() {
        cell_text(row[index])
    } else {
        "NULL"@
    }
}

/// One column of a line: the text between a blank and the bar that ends it.
pub open spec fn column(text: Seq<char>) -> Seq<char> {
    " "@ + text + " |"@
}

/// The first `count` columns of the header line.
pub open spec fn header_columns(headers: Seq<String>, count: int) -> Seq<char>
    decreases count,
{
    if count <= 0 {
        Seq::empty()
    } else {
        header_columns(headers, count - 1) + column(headers[count - 1]@)
    }
}

/// `count` columns of the line that sets the header off.
pub open spec fn rule_columns(count: int) -> Seq<char>
    decreases count,
{
    if count <= 0 {
        Seq::empty()
    } else {
        rule_columns(count - 1) + column("---"@)
    }
}

/// The first `count` columns of a row.
pub open spec fn row_columns(row: Seq<Cell>, count: int) -> Seq<char>
    decreases count,
{
    if count <= 0 {
        Seq::empty()
    } else {
        row_columns(row, count - 1) + column(column_text(row, count - 1))
    }
}

/// A line: the opening bar, the columns, and the line break.
pub open spec fn line(columns: Seq<char>) -> Seq<char> {
    "|"@ + columns + "\n"@
}

/// The lines of the first `count` rows, each `width` columns wide.
pub open spec fn row_lines(rows: Seq<Vec<Cell>>, width: int, count: int) -> Seq<char>
    decreases count,
{
    if count <= 0 {
        Seq::empty()
    } else {
        row_lines(rows, width, count - 1) + line(row_columns(rows[count - 1]@, width))
    }
}

/// The table: a header line, a rule, and a line for every row, each as wide
/// as the header. A result without rows is no table but a sentence.
pub open spec fn table_text(headers: Seq<String>, rows: Seq<Vec<Cell>>) -> Seq<char> {
    if rows.len() == 0 {
        "No rows returned."@
    } else {
        line(header_columns(headers, headers.len() as int)) + line(
            rule_columns(headers.len() as int),
        ) + row_lines(rows, headers.len() as int, rows.len() as int)
    }
}

/// `text` with every `|` written as `\|`.
pub fn escape(text: &str) -> (safe: String)
    ensures
        safe@ == escaped(text@),
{
    let mut safe = String::new();
    let length = text.unicode_len();
    let mut index: usize = 0;
    while index < length
        invariant
            index <= length,
            length == text@.len(),
            safe@ == escaped(text@.take(index as int)),
        decreases length - index,
    {
        proof {
            let upto = text@.take(index as int + 1);
            assert(upto.drop_last() =~= text@.take(index as int));
            assert(upto.last() == text@[index as int]);
            reveal_strlit("\\|");
            assert("\\|"@ =~= seq!['\\', '|']);
        }
        if text.get_char(index) == '|' {
            safe.append("\\|");
        } else {
            let piece = text.substring_char(index, index + 1);
            proof {
                assert(piece@ =~= seq![text@[index as int]]);
                assert(safe@ + piece@ =~= safe@.push(text@[index as int]));
            }
            safe.append(piece);
        }
        index = index + 1;
    }
    proof {
        assert(text@.take(index as int) =~= text@);
    }
    safe
}

fn push_column(target: &mut String, text: &str)
    ensures
        final(target)@ == old(target)@ + column(text@),
{
    let ghost before = target@;
    target.append(" ");
    target.append(text);
    target.append(" |");
    proof {
        assert(target@ =~= before + column(text@));
    }
}

fn push_row(target: &mut String, row: &Vec<Cell>, width: usize)
    ensures
        final(target)@ == old(target)@ + line(row_columns(row@, width as int)),
{
    let ghost before = target@;
    target.append("|");
    let mut index: usize = 0;
    while index < width
        invariant
            index <= width,
            target@ == before + "|"@ + row_columns(row@, index as int),
        decreases width - index,
    {
        let ghost so_far = target@;
        if index < row.len() {
            match &row[index] {
                Cell::Number(number) => push_column(target, number.as_str()),
                Cell::Text(text) => {
                    let safe = escape(text.as_str());
                    push_column(target, safe.as_str());
                },
                Cell::Null => push_column(target, "NULL"),
            }
        } else {
            push_column(target, "NULL");
        }
        proof {
            assert(target@ == so_far + column(column_text(row@, index as int)));
            assert(target@ =~= before + "|"@ + row_columns(row@, index as int + 1));
        }
        index = index + 1;
    }
    target.append("\n");
    proof {
        assert(target@ =~= before + line(row_columns(row@, width as int)));
    }
}

/// Writes a query result as a Markdown table. `headers` are the names of
/// the columns; every row is written as wide as the header, `NULL` standing
/// for a value that is missing. A bar in a text is escaped. Without rows
/// there is no table: the answer is "No rows returned.".
pub fn to_markdown_table(headers: &Vec<String>, rows: &Vec<Vec<Cell>>) -> (markdown: String)
    ensures
        markdown@ == table_text(headers@, rows@),
{
    if rows.len() == 0 {
        return String::from_str("No rows returned.");
    }
    let width = headers.len();
    let mut markdown = String::from_str("|");
    let mut index: usize = 0;
    while index < width
        invariant
            index <= width,
            width == headers.len(),
            markdown@ == "|"@ + header_columns(headers@, index as int),
        decreases width - index,
    {
        let ghost so_far = markdown@;
        push_column(&mut markdown, headers[index].as_str());
        proof {
            assert(markdown@ =~= "|"@ + header_columns(headers@, index as int + 1));
        }
        index = index + 1;
    }
    markdown.append("\n");
    let ghost header = markdown@;
    proof {
        assert(header =~= line(header_columns(headers@, width as int)));
    }
    markdown.append("|");
    index = 0;
    while index < width
        invariant
            index <= width,
            markdown@ == header + "|"@ + rule_columns(index as int),
        decreases width - index,
    {
        push_column(&mut markdown, "---");
        proof {
            assert(markdown@ =~= header + "|"@ + rule_columns(index as int + 1));
        }
        index = index + 1;
    }
    markdown.append("\n");
    let ghost head = markdown@;
    proof {
        assert(head =~= header + line(rule_columns(width as int)));
    }
    index = 0;
    while index < rows.len()
        invariant
            index <= rows.len(),
            markdown@ == head + row_lines(rows@, width as int, index as int),
        decreases rows.len() - index,
    {
        push_row(&mut markdown, &rows[index], width);
        proof {
            assert(markdown@ =~= head + row_lines(rows@, width as int, index as int + 1));
        }
        index = index + 1;
    }
    markdown
}

} // verus!
