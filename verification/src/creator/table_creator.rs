//! A board written as an HTML table.

use crate::config::Color;
use crate::creator::creator_trait::Creator;
use vstd::prelude::*;
use vstd::string::StringExecFns;

verus! {

/// `content` between the opening and the closing tag of a table.
pub open spec fn table_html(content: Seq<char>) -> Seq<char> {
    "<table>"@ + content + "</table>"@
}

/// `content` between the opening and the closing tag of a table body.
pub open spec fn tbody_html(content: Seq<char>) -> Seq<char> {
    "<tbody>"@ + content + "</tbody>"@
}

/// `content` between the opening and the closing tag of a table row.
pub open spec fn tr_html(content: Seq<char>) -> Seq<char> {
    "<tr>"@ + content + "</tr>"@
}

/// `content` between the opening and the closing tag of a table cell.
pub open spec fn td_html(content: Seq<char>) -> Seq<char> {
    "<td>"@ + content + "</td>"@
}

/// The letter that stands for a colour, with a blank on either side.
pub open spec fn color_label(color: Color) -> Seq<char> {
    if color == Color::Black {
        " B "@
    } else {
        " W "@
    }
}

/// The table cells of the first `n` squares of `row`, one after another.
pub open spec fn cells_html(row: Seq<Color>, n: nat) -> Seq<char>
    decreases n,
{
    if n == 0 {
        Seq::empty()
    } else {
        cells_html(row, (n - 1) as nat) + td_html(color_label(row[n - 1]))
    }
}

/// The table rows of the first `n` rows of `board`, one after another.
pub open spec fn rows_html(board: Seq<Vec<Color>>, n: nat) -> Seq<char>
    decreases n,
{
    if n == 0 {
        Seq::empty()
    } else {
        rows_html(board, (n - 1) as nat) + tr_html(
            cells_html(board[n - 1]@, board[n - 1]@.len()),
        )
    }
}

/// The HTML table of `board`: one table row for each row of the board,
/// and in it one table cell for each square, holding the letter of the
/// square's colour.
pub open spec fn board_html(board: Seq<Vec<Color>>) -> Seq<char> {
    table_html(tbody_html(rows_html(board, board.len())))
}

/// Writes a board as an HTML table.
pub struct TableCreator {}

impl Creator for TableCreator {
    fn builder(vec: Vec<Vec<Color>>) -> (html: String)
        ensures
            html@ == board_html(vec@),
    {
        let mut s = String::new();
        for r in 0..vec.len()
            invariant
                s@ == rows_html(vec@, r as nat),
        {
            let squares: &Vec<Color> = &vec[r];
            let mut row = String::new();
            for c in 0..squares.len()
                invariant
                    row@ == cells_html(squares@, c as nat),
            {
                let tb = builder_td(
                    if squares[c] == Color::Black {
                        " B "
                    } else {
                        " W "
                    },
                );
                row = row.concat(tb.as_str());
            }
            s = s.concat(builder_tr(row.as_str()).as_str());
        }
        builder_table(builder_tbody(s.as_str()).as_str())
    }
}

fn builder_table(content: &str) -> (html: String)
    ensures
        html@ == table_html(content@),
{
    let base_str = String::from_str("<table>");
    base_str.concat(content).concat("</table>")
}

fn builder_tbody(content: &str) -> (html: String)
    ensures
        html@ == tbody_html(content@),
{
    let base_str = String::from_str("<tbody>");
    base_str.concat(content).concat("</tbody>")
}

fn builder_tr(content: &str) -> (html: String)
    ensures
        html@ == tr_html(content@),
{
    let base_str = String::from_str("<tr>");
    base_str.concat(content).concat("</tr>")
}

fn builder_td(content: &str) -> (html: String)
    ensures
        html@ == td_html(content@),
{
    let base_str = String::from_str("<td>");
    base_str.concat(content).concat("</td>")
}

} // verus!
