use vstd::prelude::*;
use vstd::utf8::{decode_utf8, encode_utf8, is_char_boundary};
use vstd::string::{StrSliceExecFns, StringExecFns, StringSliceAdditionalSpecFns};

use crate::records::{CliRun, CliRunMetrics};

verus! {

broadcast use vstd::string::group_string_axioms;

/// `s` shortened for a table cell of `max_len` bytes: kept when its UTF-8 form has
/// at most `max_len` bytes, else its first `max_len - 3` bytes followed by `...`.
pub open spec fn truncated(s: Seq<char>, max_len: nat) -> Seq<char> {
    if encode_utf8(s).len() <= max_len {
        s
    } else {
        decode_utf8(encode_utf8(s).take(max_len - 3)) + seq!['.', '.', '.']
    }
}

/// Whether `s` can be shortened to `max_len` bytes without cutting a character:
/// it fits, or `max_len - 3` is a character boundary of it.
pub open spec fn truncation_allowed(s: Seq<char>, max_len: nat) -> bool {
    encode_utf8(s).len() > max_len ==> max_len >= 3 && is_char_boundary(encode_utf8(s), max_len - 3)
}

/// Whether [`truncate`] can shorten `s` to `max_len` bytes.
pub fn can_truncate(s: &str, max_len: usize) -> (r: bool)
    requires
        s.spec_bytes().len() <= usize::MAX,
    ensures
        r == truncation_allowed(s@, max_len as nat),
{
    s.len() <= max_len || (max_len >= 3 && s.is_char_boundary(max_len - 3))
}

/// Shortens `s` for a table cell of `max_len` bytes (see [`truncated`]).
pub fn truncate(s: &str, max_len: usize) -> (r: String)
    requires
        s.spec_bytes().len() <= usize::MAX,
        truncation_allowed(s@, max_len as nat),
    ensures
        r@ == truncated(s@, max_len as nat),
{
    broadcast use vstd::utf8::encode_utf8_decode_utf8;
    if s.len() <= max_len {
        s.to_owned()
    } else {
        let (head, _) = s.split_at(max_len - 3);
        let mut out = head.to_owned();
        let dots = "...";
        proof {
            reveal_strlit("...");
            assert(decode_utf8(encode_utf8(head@)) == head@);
        }
        out.append(dots);
        assert(dots@ =~= seq!['.', '.', '.']);
        out
    }
}

/// A shortened string has at most `max_len` bytes once its cut falls on a
/// character boundary: exactly `max_len` bytes when it had to be cut.
pub proof fn law_truncated_fits(s: Seq<char>, max_len: nat)
    requires
        truncation_allowed(s, max_len),
    ensures
        encode_utf8(truncated(s, max_len)).len() <= max_len,
        encode_utf8(s).len() > max_len ==> encode_utf8(truncated(s, max_len)).len() == max_len,
{
    broadcast use vstd::utf8::decode_utf8_encode_utf8, vstd::utf8::valid_utf8_split, vstd::utf8::encode_utf8_valid_utf8;
    if encode_utf8(s).len() > max_len {
        let bytes = encode_utf8(s);
        let head = decode_utf8(bytes.take(max_len - 3));
        assert(vstd::utf8::valid_utf8(bytes));
        assert(vstd::utf8::valid_utf8(bytes.take(max_len - 3)));
        assert(encode_utf8(head) == bytes.take(max_len - 3));
        crate::text::lemma_encode_concat(head, seq!['.', '.', '.']);
        assert(encode_utf8(seq!['.', '.', '.']).len() == 3) by {
            reveal_with_fuel(encode_utf8, 4);
        }
    }
}

/// The label under which a run's input is logged: `file:<path>` for a file,
/// `stdin` for standard input.
pub fn input_source_label(file: Option<&str>) -> (r: String)
    ensures
        r@ == (match file {
            Some(p) => "file:"@ + p@,
            None => "stdin"@,
        }),
{
    match file {
        Some(p) => {
            let mut out = String::from_str("file:");
            out.append(p);
            out
        },
        None => String::from_str("stdin"),
    }
}

/// How the command-line checker shows its result.
#[derive(Clone, Copy, PartialEq, Eq, Debug, Structural)]
pub enum OutputMode {
    /// A JSON object with both texts and the counts.
    Json,
    /// A line diff between the original and the corrected text.
    Diff,
    /// The corrected text, on standard output or into the output file.
    Text,
}

/// Picks the output: JSON when asked for, else a diff when asked for, else the
/// corrected text.
pub fn output_mode(json: bool, diff: bool) -> (m: OutputMode)
    ensures
        m == (if json {
            OutputMode::Json
        } else if diff {
            OutputMode::Diff
        } else {
            OutputMode::Text
        }),
{
    if json {
        OutputMode::Json
    } else if diff {
        OutputMode::Diff
    } else {
        OutputMode::Text
    }
}

/// The measurements logged for a run: where the input came from, the byte
/// lengths of the input and of the corrected text, the counts of the
/// correction, and the time taken.
pub fn cli_run_metrics(
    input_source: String,
    input_text: &str,
    result: &crate::correction::CorrectionResult,
    execution_time_ms: u64,
) -> (m: CliRunMetrics)
    requires
        input_text.spec_bytes().len() <= usize::MAX,
        result.corrected_text@.len() <= usize::MAX,
        vstd::utf8::encode_utf8(result.corrected_text@).len() <= usize::MAX,
    ensures
        m.input_source@ == input_source@,
        m.input_length == input_text.spec_bytes().len(),
        m.output_length == encode_utf8(result.corrected_text@).len(),
        m.corrections_count == result.corrections_count,
        m.passes_count == result.passes_count,
        m.execution_time_ms == execution_time_ms,
{
    CliRunMetrics {
        input_source,
        input_length: input_text.len(),
        output_length: result.corrected_text.as_str().len(),
        corrections_count: result.corrections_count,
        passes_count: result.passes_count,
        execution_time_ms,
    }
}

/// The texts stored with a run: both texts when asked to save content,
/// neither otherwise.
pub fn stored_texts(result: &crate::correction::CorrectionResult, save_content: bool) -> (r: (
    Option<String>,
    Option<String>,
))
    ensures
        save_content ==> r.0 == Some(result.original_text) && r.1 == Some(result.corrected_text),
        !save_content ==> r.0.is_none() && r.1.is_none(),
{
    if save_content {
        (Some(result.original_text.clone()), Some(result.corrected_text.clone()))
    } else {
        (None, None)
    }
}

/// Where batch mode writes the corrected copy of a file: `<dir>/<file name>`.
pub fn batch_output_path(dir: &str, file_name: &str) -> (r: String)
    ensures
        r@ == dir@ + "/"@ + file_name@,
{
    let mut out = dir.to_owned();
    out.append("/");
    out.append(file_name);
    out
}

/// `s` padded on the right with spaces to `width` characters (a longer `s` is
/// kept whole), as `{:<width}` formats it.
pub open spec fn pad_right(s: Seq<char>, width: nat) -> Seq<char> {
    if s.len() >= width {
        s
    } else {
        s + Seq::new((width - s.len()) as nat, |i: int| ' ')
    }
}

/// Appends `s` padded on the right to `width` characters.
pub fn push_padded(out: &mut String, s: &str, width: usize)
    ensures
        final(out)@ == old(out)@ + pad_right(s@, width as nat),
{
    out.append(s);
    let n = s.unicode_len();
    let mut k = n;
    let ghost base = old(out)@ + s@;
    while k < width
        invariant
            n == s@.len(),
            n <= k,
            k == n || k <= width,
            out@ == base + Seq::new((k - n) as nat, |i: int| ' '),
        decreases width - k,
    {
        crate::text::push_char(out, ' ');
        assert(Seq::new((k - n) as nat, |i: int| ' ').push(' ') =~= Seq::new((k + 1 - n) as nat, |i: int| ' '));
        k = k + 1;
    }
    if n >= width {
        assert(Seq::new((k - n) as nat, |i: int| ' ') =~= Seq::<char>::empty());
        assert(out@ =~= old(out)@ + s@);
    } else {
        assert(out@ =~= old(out)@ + (s@ + Seq::new((width - n) as nat, |i: int| ' ')));
    }
}

/// The decimal digit for `d` (0 to 9).
pub open spec fn digit_char(d: int) -> char {
    if d == 0 { '0' }
    else if d == 1 { '1' }
    else if d == 2 { '2' }
    else if d == 3 { '3' }
    else if d == 4 { '4' }
    else if d == 5 { '5' }
    else if d == 6 { '6' }
    else if d == 7 { '7' }
    else if d == 8 { '8' }
    else { '9' }
}

/// The decimal digits of `n`, most significant first, without leading zeros.
pub open spec fn decimal_digits(n: nat) -> Seq<char>
    decreases n,
{
    if n < 10 {
        seq![digit_char(n as int)]
    } else {
        decimal_digits(n / 10).push(digit_char((n % 10) as int))
    }
}

/// The decimal form of `n`, with a leading `-` when it is negative, as `{}`
/// formats an integer.
pub open spec fn decimal(n: int) -> Seq<char> {
    if n < 0 {
        seq!['-'] + decimal_digits((-n) as nat)
    } else {
        decimal_digits(n as nat)
    }
}

fn digit(d: u64) -> (c: char)
    requires
        d < 10,
    ensures
        c == digit_char(d as int),
{
    match d {
        0 => '0',
        1 => '1',
        2 => '2',
        3 => '3',
        4 => '4',
        5 => '5',
        6 => '6',
        7 => '7',
        8 => '8',
        _ => '9',
    }
}

pub(crate) fn push_digits(out: &mut String, n: u64)
    ensures
        final(out)@ == old(out)@ + decimal_digits(n as nat),
    decreases n,
{
    if n >= 10 {
        push_digits(out, n / 10);
    }
    crate::text::push_char(out, digit(n % 10));
    if n >= 10 {
        assert(old(out)@ + decimal_digits(n as nat) =~= (old(out)@ + decimal_digits((n / 10) as nat)).push(
            digit_char((n % 10) as int),
        ));
    } else {
        assert(old(out)@ + decimal_digits(n as nat) =~= old(out)@.push(digit_char(n as int)));
    }
}

/// Appends the decimal form of `n`.
pub fn push_decimal(out: &mut String, n: i64)
    ensures
        final(out)@ == old(out)@ + decimal(n as int),
{
    if n < 0 {
        crate::text::push_char(out, '-');
        let magnitude: u64 = if n == i64::MIN {
            9223372036854775808u64
        } else {
            (-n) as u64
        };
        push_digits(out, magnitude);
        assert(old(out)@ + decimal(n as int) =~= old(out)@.push('-') + decimal_digits(magnitude as nat));
    } else {
        push_digits(out, n as u64);
    }
}

/// The decimal form of `n`.
pub fn decimal_string(n: i64) -> (s: String)
    ensures
        s@ == decimal(n as int),
{
    let mut s = String::new();
    push_decimal(&mut s, n);
    assert(Seq::<char>::empty() + decimal(n as int) =~= decimal(n as int));
    s
}


/// One line of the history table: the six cells padded to widths 5, 20, 20,
/// 12, 10 and 10, separated by single spaces.
pub open spec fn history_line(
    a: Seq<char>,
    b: Seq<char>,
    c: Seq<char>,
    d: Seq<char>,
    e: Seq<char>,
    f: Seq<char>,
) -> Seq<char> {
    pad_right(a, 5) + seq![' '] + pad_right(b, 20) + seq![' '] + pad_right(c, 20) + seq![' ']
        + pad_right(d, 12) + seq![' '] + pad_right(e, 10) + seq![' '] + pad_right(f, 10)
}

fn push_line(out: &mut String, cells: [&str; 6])
    ensures
        final(out)@ == old(out)@ + history_line(
            cells[0]@,
            cells[1]@,
            cells[2]@,
            cells[3]@,
            cells[4]@,
            cells[5]@,
        ),
{
    let ghost o = out@;
    push_padded(out, cells[0], 5);
    crate::text::push_char(out, ' ');
    push_padded(out, cells[1], 20);
    crate::text::push_char(out, ' ');
    push_padded(out, cells[2], 20);
    crate::text::push_char(out, ' ');
    push_padded(out, cells[3], 12);
    crate::text::push_char(out, ' ');
    push_padded(out, cells[4], 10);
    crate::text::push_char(out, ' ');
    push_padded(out, cells[5], 10);
    assert(out@ =~= o + history_line(cells[0]@, cells[1]@, cells[2]@, cells[3]@, cells[4]@, cells[5]@));
}

/// The header line of the history table.
pub fn history_header() -> (r: String)
    ensures
        r@ == history_line("ID"@, "Date"@, "Source"@, "Corrections"@, "Passes"@, "Time (ms)"@),
{
    let mut out = String::new();
    push_line(&mut out, ["ID", "Date", "Source", "Corrections", "Passes", "Time (ms)"]);
    assert(out@ =~= history_line("ID"@, "Date"@, "Source"@, "Corrections"@, "Passes"@, "Time (ms)"@));
    out
}

/// The rule under the header of the history table: 85 dashes.
pub fn history_rule() -> (r: String)
    ensures
        r@ == Seq::new(85, |i: int| '-'),
{
    let mut out = String::new();
    let mut k: usize = 0;
    while k < 85
        invariant
            k <= 85,
            out@ == Seq::new(k as nat, |i: int| '-'),
        decreases 85 - k,
    {
        crate::text::push_char(&mut out, '-');
        assert(Seq::new(k as nat, |i: int| '-').push('-') =~= Seq::new((k + 1) as nat, |i: int| '-'));
        k = k + 1;
    }
    out
}

/// Whether [`history_row`] can show `run` (its date and source can be shortened
/// to 20 bytes).
pub open spec fn history_row_allowed(run: CliRun) -> bool {
    &&& encode_utf8(run.created_at@).len() <= usize::MAX
    &&& encode_utf8(run.input_source@).len() <= usize::MAX
    &&& truncation_allowed(run.created_at@, 20)
    &&& truncation_allowed(run.input_source@, 20)
}

/// One row of the history table for `run`: its id, date and source (each
/// shortened to 20 bytes), corrections, passes and time.
pub fn history_row(run: &CliRun) -> (r: String)
    requires
        history_row_allowed(*run),
    ensures
        r@ == history_line(
            decimal(run.id as int),
            truncated(run.created_at@, 20),
            truncated(run.input_source@, 20),
            decimal(run.corrections_count as int),
            decimal(run.passes_count as int),
            decimal(run.execution_time_ms as int),
        ),
{
    let id = decimal_string(run.id);
    let date = truncate(run.created_at.as_str(), 20);
    let source = truncate(run.input_source.as_str(), 20);
    let corrections = decimal_string(run.corrections_count);
    let passes = decimal_string(run.passes_count);
    let time = decimal_string(run.execution_time_ms);
    let mut out = String::new();
    push_line(
        &mut out,
        [id.as_str(), date.as_str(), source.as_str(), corrections.as_str(), passes.as_str(), time.as_str()],
    );
    assert(out@ =~= history_line(id@, date@, source@, corrections@, passes@, time@));
    out
}

} // verus!
