//! Shared UX pieces: the text of notices and prompts, the selection and
//! confirmation outcomes, and the tables of secrets and parameters.

use vstd::prelude::*;
use comfy_table::Table;
use crate::errors::SecParError;
use crate::text::{join2, join3, owned};

verus! {

/// A row of a listing: three cells of text.
pub type Row = (String, String, String);

// ---------------------------------------------------------------- notices

/// A success message: `✅ ` and the message.
pub fn success_text(msg: &str) -> (r: String)
    ensures
        r@ == "✅ "@ + msg@,
{
    join2("✅ ", msg)
}

/// An informational message: `ℹ️  ` and the message.
pub fn info_text(msg: &str) -> (r: String)
    ensures
        r@ == "ℹ️  "@ + msg@,
{
    join2("ℹ️  ", msg)
}

/// A retrieved value: `🔑 ` and the label on one line, the value on the next.
pub fn value_text(label: &str, value: &str) -> (r: String)
    ensures
        r@ == "🔑 "@ + label@ + "\n"@ + value@,
{
    let mut r = join3("🔑 ", label, "\n");
    r.append(value);
    r
}

/// The line shown when an operation is aborted.
pub fn aborted_text() -> (r: String)
    ensures
        r@ == "🚫 Aborted."@,
{
    owned("🚫 Aborted.")
}

/// The announcement that a spec file is being applied:
/// `📂 Applying parameters from '<path>'…`.
pub fn applying_text(path: &str) -> (r: String)
    ensures
        r@ == "📂 Applying parameters from '"@ + path@ + "'…"@,
{
    join3("📂 Applying parameters from '", path, "'…")
}

// ---------------------------------------------------------------- prompts

/// The question asked before a delete: `Delete '<name>'?`.
pub fn delete_prompt(resource_name: &str) -> (r: String)
    ensures
        r@ == "Delete '"@ + resource_name@ + "'?"@,
{
    join3("Delete '", resource_name, "'?")
}

/// The answer to a delete confirmation: the user's yes or no, or
/// [`SecParError::Interactive`] with the prompt's error message.
pub fn confirm_delete(answer: Result<bool, String>) -> (r: Result<bool, SecParError>)
    ensures
        match answer {
            Ok(b) => r == Ok::<bool, SecParError>(b),
            Err(e) => r matches Err(SecParError::Interactive(m)) && m@ == e@,
        },
{
    match answer {
        Ok(b) => Ok(b),
        Err(e) => Err(SecParError::Interactive(e)),
    }
}

/// A selection menu to present: its prompt, its items, and the index of the
/// item selected when the menu opens.
#[derive(Debug)]
pub struct Selection {
    pub prompt: String,
    pub items: Vec<String>,
    pub default: usize,
}

/// The message of the error for a selection menu with nothing to offer.
pub open spec fn no_items_text() -> Seq<char> {
    "No items available to select from"@
}

/// Prepares a selection menu over `items`, or fails with
/// [`SecParError::Interactive`] when there is nothing to select from.
pub fn select_from_list(prompt: &str, items: Vec<String>) -> (r: Result<Selection, SecParError>)
    ensures
        items.len() == 0 <==> r is Err,
        r matches Err(e) ==> e matches SecParError::Interactive(m) && m@ == no_items_text(),
        r matches Ok(sel) ==> sel.prompt@ == prompt@ && sel.items == items && sel.default == 0,
{
    if items.len() == 0 {
        return Err(SecParError::Interactive(owned("No items available to select from")));
    }
    Ok(Selection { prompt: owned(prompt), items, default: 0 })
}

impl Selection {
    /// The item that the menu's answer picks, or [`SecParError::Interactive`]
    /// with the menu's error message.
    pub fn chosen(&self, answer: Result<usize, String>) -> (r: Result<String, SecParError>)
        requires
            answer matches Ok(i) ==> i < self.items.len(),
        ensures
            match answer {
                Ok(i) => r matches Ok(s) && s == self.items[i as int],
                Err(e) => r matches Err(SecParError::Interactive(m)) && m@ == e@,
            },
    {
        match answer {
            Ok(i) => Ok(self.items[i].clone()),
            Err(e) => Err(SecParError::Interactive(e)),
        }
    }
}

// ---------------------------------------------------------------- tables

/// `comfy_table::Table`, the table that a listing is printed as.
#[verifier::external_type_specification]
#[verifier::external_body]
pub struct ExTable(Table);

/// What a table holds: its header row, if one was set, and its body rows,
/// each row given as the text of its cells.
pub uninterp spec fn table_contents(t: Table) -> (Option<Seq<Seq<char>>>, Seq<Seq<Seq<char>>>);

/// A table's style as a preset string (`Table::current_style_as_preset`):
/// one character per table component, a space for a component not drawn.
pub uninterp spec fn table_style(t: Table) -> Seq<char>;

/// The cells of a row of three.
pub open spec fn cells3(a: Seq<char>, b: Seq<char>, c: Seq<char>) -> Seq<Seq<char>> {
    seq![a, b, c]
}

/// `Table::new`: a table without header and without rows. Its style (the
/// ASCII preset) is left unstated.
#[verifier::external_body]
fn new_table() -> (t: Table)
    ensures
        table_contents(t) == (None::<Seq<Seq<char>>>, Seq::<Seq<Seq<char>>>::empty()),
{
    Table::new()
}

/// `Table::load_preset`: keeps header and rows; a preset of one character per
/// component (nineteen) becomes the table's style.
#[verifier::external_body]
fn load_preset(t: &mut Table, preset: &str)
    ensures
        table_contents(*final(t)) == table_contents(*old(t)),
        preset@.len() == 19 ==> table_style(*final(t)) == preset@,
{
    t.load_preset(preset);
}

/// `comfy_table::presets::UTF8_FULL`, the UTF-8 preset with every line drawn.
#[verifier::external_body]
fn utf8_full() -> (p: &'static str)
    ensures
        p@ == utf8_full_text(),
{
    comfy_table::presets::UTF8_FULL
}

/// The characters of the UTF-8 preset with every line drawn.
pub open spec fn utf8_full_text() -> Seq<char> {
    seq!['│', '│', '─', '─', '╞', '═', '╪', '╡', '┆', '╌', '┼', '├', '┤', '┬', '┴', '┌', '┐', '└', '┘']
}

/// `Table::set_header` with three cells: the header becomes the cells' text
/// (a cell keeps its text: it stores it split at line breaks and gives it back
/// joined); rows and style are kept.
#[verifier::external_body]
fn set_header3(t: &mut Table, a: &str, b: &str, c: &str)
    ensures
        table_contents(*final(t)) == (Some(cells3(a@, b@, c@)), table_contents(*old(t)).1),
        table_style(*final(t)) == table_style(*old(t)),
{
    t.set_header([a, b, c]);
}

/// `Table::add_row` with three cells: appends a row of the cells' text; header
/// and style are kept.
#[verifier::external_body]
fn add_row3(t: &mut Table, a: &str, b: &str, c: &str)
    ensures
        table_contents(*final(t)) == (table_contents(*old(t)).0, table_contents(*old(t)).1.push(cells3(a@, b@, c@))),
        table_style(*final(t)) == table_style(*old(t)),
{
    t.add_row([a, b, c]);
}

/// The rows of a listing as table rows.
pub open spec fn table_rows(rows: Seq<(&str, &str, &str)>) -> Seq<Seq<Seq<char>>> {
    rows.map_values(|r: (&str, &str, &str)| cells3(r.0@, r.1@, r.2@))
}

/// A UTF-8 table with the given header and one row per entry of `rows`, in order.
fn build_table(header: (&str, &str, &str), rows: &[(&str, &str, &str)]) -> (t: Table)
    ensures
        table_contents(t) == (Some(cells3(header.0@, header.1@, header.2@)), table_rows(rows@)),
        table_style(t) == utf8_full_text(),
{
    let mut table = new_table();
    let preset = utf8_full();
    proof {
        assert(utf8_full_text().len() == 19);
    }
    load_preset(&mut table, preset);
    set_header3(&mut table, header.0, header.1, header.2);
    let n = rows.len();
    for i in 0..n
        invariant
            n == rows@.len(),
            table_contents(table) == (Some(cells3(header.0@, header.1@, header.2@)), table_rows(rows@.take(i as int))),
            table_style(table) == utf8_full_text(),
    {
        let (name, second, third) = rows[i];
        add_row3(&mut table, name, second, third);
        assert(table_rows(rows@.take(i + 1)) =~= table_rows(rows@.take(i as int)).push(cells3(name@, second@, third@)));
    }
    assert(rows@.take(n as int) =~= rows@);
    table
}

/// The table of secrets: header `NAME`, `ARN`, `LAST CHANGED`, then one row
/// per `(name, arn, last_changed)` entry, in order.
pub fn build_secrets_table(rows: &[(&str, &str, &str)]) -> (t: Table)
    ensures
        table_contents(t) == (Some(cells3("NAME"@, "ARN"@, "LAST CHANGED"@)), table_rows(rows@)),
        table_style(t) == utf8_full_text(),
{
    build_table(("NAME", "ARN", "LAST CHANGED"), rows)
}

/// The table of parameters: header `NAME`, `TYPE`, `LAST MODIFIED`, then one
/// row per `(name, type, last_modified)` entry, in order.
pub fn build_parameters_table(rows: &[(&str, &str, &str)]) -> (t: Table)
    ensures
        table_contents(t) == (Some(cells3("NAME"@, "TYPE"@, "LAST MODIFIED"@)), table_rows(rows@)),
        table_style(t) == utf8_full_text(),
{
    build_table(("NAME", "TYPE", "LAST MODIFIED"), rows)
}

} // verus!
