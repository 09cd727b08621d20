use vstd::prelude::*;

use crate::text::push_char;

verus! {

/// Where the reader stands within the text.
#[derive(Debug, Clone, Copy, PartialEq, Eq, Structural)]
pub enum Mode {
    /// At the start of a line.
    LineStart,
    /// Just after a field delimiter.
    FieldStart,
    /// Inside an unquoted field.
    Plain,
    /// Inside a quoted field.
    Quoted,
    /// Inside a quoted field, just after a quote that may close it.
    QuoteSeen,
    /// Inside a comment line.
    Comment,
}

/// The reader's state: finished records, the fields of the current record,
/// the current field, and the mode.
pub struct Scan {
    pub rows: Seq<Seq<Seq<char>>>,
    pub fields: Seq<Seq<char>>,
    pub field: Seq<char>,
    pub mode: Mode,
}

/// The marker that makes a line a comment when it stands first on the line.
pub const COMMENT_CHAR: char = '#';

pub open spec fn initial_scan() -> Scan {
    Scan { rows: Seq::empty(), fields: Seq::empty(), field: Seq::empty(), mode: Mode::LineStart }
}

pub open spec fn with_char(st: Scan, c: char, mode: Mode) -> Scan {
    Scan { field: st.field.push(c), mode, ..st }
}

pub open spec fn with_mode(st: Scan, mode: Mode) -> Scan {
    Scan { mode, ..st }
}

pub open spec fn close_field(st: Scan) -> Scan {
    Scan { fields: st.fields.push(st.field), field: Seq::empty(), mode: Mode::FieldStart, ..st }
}

pub open spec fn close_row(st: Scan) -> Scan {
    Scan {
        rows: st.rows.push(st.fields.push(st.field)),
        fields: Seq::empty(),
        field: Seq::empty(),
        mode: Mode::LineStart,
    }
}

/// A character at the start of a field (not the start of a line).
pub open spec fn field_start_step(st: Scan, c: char) -> Scan {
    if c == '"' {
        with_mode(st, Mode::Quoted)
    } else if c == ',' {
        close_field(st)
    } else if c == '\n' {
        close_row(st)
    } else if c == '\r' {
        st
    } else {
        with_char(st, c, Mode::Plain)
    }
}

/// One character of input. A comma ends a field and a line feed a record,
/// outside quotes; a field that starts with a quote runs to the closing
/// quote, and a doubled quote inside it stands for one quote; carriage
/// returns outside quotes are dropped; empty lines and lines that start with
/// the comment marker are skipped.
pub open spec fn step(st: Scan, c: char) -> Scan {
    match st.mode {
        Mode::LineStart => {
            if c == '\n' || c == '\r' {
                st
            } else if c == COMMENT_CHAR {
                with_mode(st, Mode::Comment)
            } else {
                field_start_step(st, c)
            }
        },
        Mode::FieldStart => field_start_step(st, c),
        Mode::Plain => {
            if c == ',' {
                close_field(st)
            } else if c == '\n' {
                close_row(st)
            } else if c == '\r' {
                st
            } else {
                with_char(st, c, Mode::Plain)
            }
        },
        Mode::Quoted => {
            if c == '"' {
                with_mode(st, Mode::QuoteSeen)
            } else {
                with_char(st, c, Mode::Quoted)
            }
        },
        Mode::QuoteSeen => {
            if c == '"' {
                with_char(st, c, Mode::Quoted)
            } else if c == ',' {
                close_field(st)
            } else if c == '\n' {
                close_row(st)
            } else if c == '\r' {
                st
            } else {
                with_char(st, c, Mode::Plain)
            }
        },
        Mode::Comment => {
            if c == '\n' {
                with_mode(st, Mode::LineStart)
            } else {
                st
            }
        },
    }
}

/// The state after reading the first `n` characters of `text`.
pub open spec fn scan(text: Seq<char>, n: nat) -> Scan
    decreases n,
{
    if n == 0 {
        initial_scan()
    } else {
        step(scan(text, (n - 1) as nat), text[n - 1])
    }
}

/// The records of a finished scan; a last record without a line feed counts.
pub open spec fn finish(st: Scan) -> Seq<Seq<Seq<char>>> {
    if st.mode == Mode::LineStart || st.mode == Mode::Comment {
        st.rows
    } else {
        st.rows.push(st.fields.push(st.field))
    }
}

/// The records of a comma-separated text, each a sequence of fields.
pub open spec fn csv_rows(text: Seq<char>) -> Seq<Seq<Seq<char>>> {
    finish(scan(text, text.len()))
}

fn take_field(fields: &mut Vec<String>, field: &mut String)
    ensures
        final(fields).deep_view() == old(fields).deep_view().push(old(field)@),
        final(field)@ == Seq::<char>::empty(),
{
    let mut f = String::new();
    std::mem::swap(field, &mut f);
    fields.push(f);
    assert(fields.deep_view() =~= old(fields).deep_view().push(f@));
}

fn take_row(rows: &mut Vec<Vec<String>>, fields: &mut Vec<String>, field: &mut String)
    ensures
        final(rows).deep_view() == old(rows).deep_view().push(old(fields).deep_view().push(old(field)@)),
        final(fields).deep_view() == Seq::<Seq<char>>::empty(),
        final(field)@ == Seq::<char>::empty(),
{
    take_field(fields, field);
    let mut fs: Vec<String> = Vec::new();
    std::mem::swap(fields, &mut fs);
    let ghost done = fs.deep_view();
    rows.push(fs);
    assert(rows.deep_view() =~= old(rows).deep_view().push(done));
    assert(fields.deep_view() =~= Seq::<Seq<char>>::empty());
}

/// Splits comma-separated text into records of fields. Comment lines (first
/// character `#`) and empty lines are skipped; quoted fields may hold
/// commas, line feeds and doubled quotes.
pub fn parse_records(text: &str) -> (r: Vec<Vec<String>>)
    ensures
        r.deep_view() == csv_rows(text@),
{
    broadcast use vstd::string::group_string_axioms;
    let mut rows: Vec<Vec<String>> = Vec::new();
    let mut fields: Vec<String> = Vec::new();
    let mut field = String::new();
    let mut mode = Mode::LineStart;
    proof {
        assert(rows.deep_view() =~= Seq::<Seq<Seq<char>>>::empty());
        assert(fields.deep_view() =~= Seq::<Seq<char>>::empty());
    }
    for c in it: text.chars()
        invariant
            it.seq() == text@,
            it.index() <= text@.len(),
            (Scan { rows: rows.deep_view(), fields: fields.deep_view(), field: field@, mode })
                == scan(text@, it.index() as nat),
    {
        let ghost st = scan(text@, it.index() as nat);
        let start = mode == Mode::FieldStart || (mode == Mode::LineStart && c != '\n' && c != '\r' && c != COMMENT_CHAR);
        if start {
            if c == '"' {
                mode = Mode::Quoted;
            } else if c == ',' {
                take_field(&mut fields, &mut field);
                mode = Mode::FieldStart;
            } else if c == '\n' {
                take_row(&mut rows, &mut fields, &mut field);
                mode = Mode::LineStart;
            } else if c != '\r' {
                push_char(&mut field, c);
                mode = Mode::Plain;
            }
        } else if mode == Mode::LineStart {
            if c == COMMENT_CHAR {
                mode = Mode::Comment;
            }
        } else if mode == Mode::Comment {
            if c == '\n' {
                mode = Mode::LineStart;
            }
        } else if mode == Mode::Quoted {
            if c == '"' {
                mode = Mode::QuoteSeen;
            } else {
                push_char(&mut field, c);
            }
        } else {
            if c == '"' && mode == Mode::QuoteSeen {
                push_char(&mut field, c);
                mode = Mode::Quoted;
            } else if c == ',' {
                take_field(&mut fields, &mut field);
                mode = Mode::FieldStart;
            } else if c == '\n' {
                take_row(&mut rows, &mut fields, &mut field);
                mode = Mode::LineStart;
            } else if c != '\r' {
                push_char(&mut field, c);
                mode = Mode::Plain;
            }
        }
        proof {
            assert(text@[it.index() as int] == c);
        }
    }
    if mode != Mode::LineStart && mode != Mode::Comment {
        take_row(&mut rows, &mut fields, &mut field);
    }
    rows
}

} // verus!
