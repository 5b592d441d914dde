//! Text of the benchmark's paths and result cells: decimal numbers, joined
//! paths and formatted durations.

use vstd::prelude::*;

verus! {

/// The decimal digit `d` as a character.
pub open spec fn digit_char(d: nat) -> char {
    if d == 0 {
        '0'
    } else if d == 1 {
        '1'
    } else if d == 2 {
        '2'
    } else if d == 3 {
        '3'
    } else if d == 4 {
        '4'
    } else if d == 5 {
        '5'
    } else if d == 6 {
        '6'
    } else if d == 7 {
        '7'
    } else if d == 8 {
        '8'
    } else {
        '9'
    }
}

/// The decimal notation of `n`, without leading zeros.
pub open spec fn decimal(n: nat) -> Seq<char>
    decreases n,
{
    if n < 10 {
        seq![digit_char(n)]
    } else {
        decimal(n / 10) + seq![digit_char(n % 10)]
    }
}

/// `dir` and `name` joined by one `/`.
pub open spec fn joined(dir: Seq<char>, name: Seq<char>) -> Seq<char> {
    dir + seq!['/'] + name
}

fn digit_str(d: u64) -> (r: &'static str)
    requires
        d < 10,
    ensures
        r@ == seq![digit_char(d as nat)],
{
    if d == 0 {
        proof { reveal_strlit("0"); }
        "0"
    } else if d == 1 {
        proof { reveal_strlit("1"); }
        "1"
    } else if d == 2 {
        proof { reveal_strlit("2"); }
        "2"
    } else if d == 3 {
        proof { reveal_strlit("3"); }
        "3"
    } else if d == 4 {
        proof { reveal_strlit("4"); }
        "4"
    } else if d == 5 {
        proof { reveal_strlit("5"); }
        "5"
    } else if d == 6 {
        proof { reveal_strlit("6"); }
        "6"
    } else if d == 7 {
        proof { reveal_strlit("7"); }
        "7"
    } else if d == 8 {
        proof { reveal_strlit("8"); }
        "8"
    } else {
        proof { reveal_strlit("9"); }
        "9"
    }
}

fn append_decimal(s: &mut String, n: u64)
    ensures
        final(s)@ == old(s)@ + decimal(n as nat),
    decreases n,
{
    if n >= 10 {
        append_decimal(s, n / 10);
    }
    s.append(digit_str(n % 10));
    assert(final(s)@ =~= old(s)@ + decimal(n as nat));
}

/// The decimal notation of `n`.
pub fn decimal_string(n: u64) -> (r: String)
    ensures
        r@ == decimal(n as nat),
{
    let mut s = String::new();
    append_decimal(&mut s, n);
    assert(s@ =~= decimal(n as nat));
    s
}

/// The path of `name` inside directory `dir`.
pub fn join_path(dir: &str, name: &str) -> (r: String)
    ensures
        r@ == joined(dir@, name@),
{
    let mut s = String::from_str(dir);
    proof { reveal_strlit("/"); }
    s.append("/");
    s.append(name);
    s
}

/// The path of the file numbered `index` inside directory `dir`.
pub fn numbered_path(dir: &str, index: u64) -> (r: String)
    ensures
        r@ == joined(dir@, decimal(index as nat)),
{
    let name = decimal_string(index);
    join_path(dir, name.as_str())
}

/// What std's `Debug` prints for a duration of `nanos` nanoseconds at a
/// precision of five fractional digits.
pub uninterp spec fn duration_text(nanos: u64) -> Seq<char>;

/// Relies on std's `Debug` for `Duration` at precision 5 (`{:.5?}`): a
/// reading such as `1.50000ms`, fixed by the duration alone.
#[verifier::external_body]
fn format_duration(nanos: u64) -> (r: String)
    ensures
        r@ == duration_text(nanos),
{
    format!("{:.5?}", std::time::Duration::from_nanos(nanos))
}

/// Each duration, given in nanoseconds, as a result cell.
pub fn _vec_duration_to_string(durations: Vec<u64>) -> (r: Vec<String>)
    ensures
        r@.len() == durations@.len(),
        forall|i: int| 0 <= i < r@.len() ==> (#[trigger] r@[i])@ == duration_text(durations@[i]),
{
    let mut cells: Vec<String> = Vec::new();
    let mut i: usize = 0;
    while i < durations.len()
        invariant
            i <= durations@.len(),
            cells@.len() == i,
            forall|j: int| 0 <= j < i ==> (#[trigger] cells@[j])@ == duration_text(durations@[j]),
        decreases durations@.len() - i,
    {
        cells.push(format_duration(durations[i]));
        i = i + 1;
    }
    cells
}

/// One duration, given in nanoseconds, as a result cell.
pub fn duration_cell(nanos: u64) -> (r: String)
    ensures
        r@ == duration_text(nanos),
{
    format_duration(nanos)
}

} // verus!
