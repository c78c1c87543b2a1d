//! Line- and whitespace-oriented text handling for the tool's output.
use vstd::prelude::*;

verus! {

/// The characters that Unicode classes as `White_Space`, which is what
/// `char::is_whitespace` accepts.
pub open spec fn is_ws_spec(c: char) -> bool {
    ('\t' <= c && c <= '\r') || c == ' ' || c == '\u{85}' || c == '\u{a0}' || c == '\u{1680}'
        || ('\u{2000}' <= c && c <= '\u{200a}') || c == '\u{2028}' || c == '\u{2029}'
        || c == '\u{202f}' || c == '\u{205f}' || c == '\u{3000}'
}

/// Whether `c` is a Unicode whitespace character.
pub fn is_ws(c: char) -> (r: bool)
    ensures
        r == is_ws_spec(c),
{
    ('\t' <= c && c <= '\r') || c == ' ' || c == '\u{85}' || c == '\u{a0}' || c == '\u{1680}'
        || ('\u{2000}' <= c && c <= '\u{200a}') || c == '\u{2028}' || c == '\u{2029}'
        || c == '\u{202f}' || c == '\u{205f}' || c == '\u{3000}'
}


/// `s` without its leading whitespace.
pub open spec fn trim_start(s: Seq<char>) -> Seq<char>
    decreases s.len(),
{
    if s.len() > 0 && is_ws_spec(s[0]) {
        trim_start(s.drop_first())
    } else {
        s
    }
}

/// `s` without its trailing whitespace.
pub open spec fn trim_end(s: Seq<char>) -> Seq<char>
    decreases s.len(),
{
    if s.len() > 0 && is_ws_spec(s.last()) {
        trim_end(s.drop_last())
    } else {
        s
    }
}

/// `s` without leading and trailing whitespace.
pub open spec fn trim(s: Seq<char>) -> Seq<char> {
    trim_end(trim_start(s))
}

/// Relies on `str::trim`: removes leading and trailing Unicode whitespace.
#[verifier::external_body]
fn trim_str(s: &str) -> (r: &str)
    ensures
        r@ == trim(s@),
{
    s.trim()
}

/// The text without leading and trailing whitespace, as a new string.
pub fn trim_output(s: &str) -> (r: String)
    ensures
        r@ == trim(s@),
{
    String::from_str(trim_str(s))
}

/// Relies on `String::push`: appends one character.
#[verifier::external_body]
fn push_char(s: &mut String, c: char)
    ensures
        final(s)@ == old(s)@.push(c),
{
    s.push(c)
}

/// A field list with `word` added as its last field, unless `word` is empty.
pub open spec fn close_field(fields: Seq<Seq<char>>, word: Seq<char>) -> Seq<Seq<char>> {
    if word.len() == 0 {
        fields
    } else {
        fields.push(word)
    }
}

/// Where a scan of the text stands: the finished records, the finished
/// fields of the current line and the current field.
pub type ScanState = (Seq<Seq<Seq<char>>>, Seq<Seq<char>>, Seq<char>);

/// One character of the scan: a newline ends the line, other whitespace
/// ends the field, anything else extends it.
pub open spec fn scan_step(st: ScanState, c: char) -> ScanState {
    if c == '\n' {
        (st.0.push(close_field(st.1, st.2)), seq![], seq![])
    } else if is_ws_spec(c) {
        (st.0, close_field(st.1, st.2), seq![])
    } else {
        (st.0, st.1, st.2.push(c))
    }
}

/// The scan of `s` from its start.
pub open spec fn scan(s: Seq<char>) -> ScanState
    decreases s.len(),
{
    if s.len() == 0 {
        (seq![], seq![], seq![])
    } else {
        scan_step(scan(s.drop_last()), s.last())
    }
}

/// `rs` without the records that have no field at its end.
pub open spec fn drop_empty_tail(rs: Seq<Seq<Seq<char>>>) -> Seq<Seq<Seq<char>>>
    decreases rs.len(),
{
    if rs.len() > 0 && rs.last().len() == 0 {
        drop_empty_tail(rs.drop_last())
    } else {
        rs
    }
}

/// The records of a tabular text: one per line, each the line's maximal runs
/// of non-whitespace characters, with the empty records at the end dropped.
pub open spec fn records(s: Seq<char>) -> Seq<Seq<Seq<char>>> {
    let st = scan(s);
    drop_empty_tail(st.0.push(close_field(st.1, st.2)))
}

fn close_field_exec(fields: &mut Vec<String>, word: String)
    ensures
        final(fields).deep_view() == close_field(old(fields).deep_view(), word@),
{
    if word.as_str().unicode_len() != 0 {
        fields.push(word);
        proof {
            assert(final(fields).deep_view() =~= old(fields).deep_view().push(word@));
        }
    }
}

fn drop_empty_tail_exec(rs: &mut Vec<Vec<String>>)
    ensures
        final(rs).deep_view() == drop_empty_tail(old(rs).deep_view()),
{
    while rs.len() > 0 && rs[rs.len() - 1].len() == 0
        invariant
            drop_empty_tail(rs.deep_view()) == drop_empty_tail(old(rs).deep_view()),
        decreases rs.len(),
    {
        proof {
            assert(rs.deep_view().last().len() == 0);
        }
        let ghost before = rs.deep_view();
        rs.pop();
        proof {
            assert(rs.deep_view() =~= before.drop_last());
        }
    }
}

/// Splits tabular text into records of whitespace-separated fields.
pub fn parse_records(s: &str) -> (r: Vec<Vec<String>>)
    ensures
        r.deep_view() == records(s@),
{
    let mut done: Vec<Vec<String>> = Vec::new();
    let mut fields: Vec<String> = Vec::new();
    let mut word = String::new();
    for c in it: s.chars()
        invariant
            it.seq() == s@,
            (done.deep_view(), fields.deep_view(), word@) == scan(s@.take(it.index() as int)),
    {
        proof {
            assert(s@.take(it.index() + 1).drop_last() =~= s@.take(it.index() as int));
        }
        if c == '\n' {
            close_field_exec(&mut fields, word);
            word = String::new();
            done.push(fields);
            fields = Vec::new();
        } else if is_ws(c) {
            close_field_exec(&mut fields, word);
            word = String::new();
        } else {
            push_char(&mut word, c);
        }
    }
    proof {
        assert(s@.take(s@.len() as int) =~= s@);
    }
    close_field_exec(&mut fields, word);
    let ghost line = fields.deep_view();
    let ghost before = done.deep_view();
    done.push(fields);
    proof {
        assert(done.deep_view() =~= before.push(line));
    }
    drop_empty_tail_exec(&mut done);
    done
}


proof fn lemma_drop_empty_tail(rs: Seq<Seq<Seq<char>>>)
    ensures
        drop_empty_tail(rs).len() > 0 ==> drop_empty_tail(rs).last().len() > 0,
        drop_empty_tail(rs).len() <= rs.len(),
        forall|i: int| 0 <= i < drop_empty_tail(rs).len() ==> #[trigger] drop_empty_tail(rs)[i] == rs[i],
    decreases rs.len(),
{
    if rs.len() > 0 && rs.last().len() == 0 {
        lemma_drop_empty_tail(rs.drop_last());
    }
}

/// Parsed text never ends in a record without fields.
pub proof fn records_no_empty_tail(s: Seq<char>)
    ensures
        records(s).len() > 0 ==> records(s).last().len() > 0,
{
    let st = scan(s);
    lemma_drop_empty_tail(st.0.push(close_field(st.1, st.2)));
}

} // verus!
