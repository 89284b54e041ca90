//! The summary report table: rendering the per-phase statistics as the
//! markdown table the report file carries, and parsing the numbers
//! back out of that table.  Rendering and parsing invert each other;
//! see `lemma_report_roundtrip`.

use vstd::prelude::*;
use vstd::arithmetic::div_mod::lemma_div_is_strictly_smaller;
use vstd::string::*;
use crate::records::LatencyRecord;
use crate::stats::PhaseStats;

verus! {

/// The ten decimal digit characters.
pub open spec fn is_digit_char(c: char) -> bool {
    c == '0' || c == '1' || c == '2' || c == '3' || c == '4' || c == '5' || c == '6' || c == '7'
        || c == '8' || c == '9'
}

/// A text with no digit in it.
pub open spec fn no_digit(s: Seq<char>) -> bool {
    forall|i: int| 0 <= i < s.len() ==> !is_digit_char(s[i])
}

/// The digit character of a value below ten.
pub open spec fn digit_char(d: int) -> char {
    if d == 0 {
        '0'
    } else if d == 1 {
        '1'
    } else if d == 2 {
        '2'
    } else if d == 3 {
        '3'
    } else if d == 4 {
        '4'
    } else if d == 5 {
        '5'
    } else if d == 6 {
        '6'
    } else if d == 7 {
        '7'
    } else if d == 8 {
        '8'
    } else {
        '9'
    }
}

/// The value of a digit character; 0 for any other character.
pub open spec fn digit_val(c: char) -> int {
    if c == '1' {
        1
    } else if c == '2' {
        2
    } else if c == '3' {
        3
    } else if c == '4' {
        4
    } else if c == '5' {
        5
    } else if c == '6' {
        6
    } else if c == '7' {
        7
    } else if c == '8' {
        8
    } else if c == '9' {
        9
    } else {
        0
    }
}

/// The decimal representation of a number: its digits in order, no
/// leading zero except for the number zero itself.
pub open spec fn dec_of(n: nat) -> Seq<char>
    decreases n,
{
    if n < 10 {
        seq![digit_char(n as int)]
    } else {
        dec_of(n / 10).push(digit_char((n % 10) as int))
    }
}

/// The number a digit text denotes.
pub open spec fn dec_val(s: Seq<char>) -> int
    decreases s.len(),
{
    if s.len() == 0 {
        0
    } else {
        dec_val(s.drop_last()) * 10 + digit_val(s.last())
    }
}

/// A decimal representation is never empty and holds digits only.
pub proof fn lemma_dec_of_digits(n: nat)
    ensures
        dec_of(n).len() >= 1,
        forall|i: int| 0 <= i < dec_of(n).len() ==> is_digit_char(dec_of(n)[i]),
    decreases n,
{
    if n < 10 {
    } else {
        lemma_dec_of_digits(n / 10);
        assert(forall|i: int|
            0 <= i < dec_of(n / 10).len() ==> dec_of(n)[i] == dec_of(n / 10)[i]);
    }
}

/// Appending a digit multiplies the denoted value by ten and adds the
/// digit.
pub proof fn lemma_dec_val_push(s: Seq<char>, c: char)
    ensures
        dec_val(s.push(c)) == dec_val(s) * 10 + digit_val(c),
{
    assert(s.push(c).drop_last() =~= s);
    assert(s.push(c).last() == c);
}

/// A digit text denotes a non-negative number.
pub proof fn lemma_dec_val_nonneg(s: Seq<char>)
    ensures
        dec_val(s) >= 0,
    decreases s.len(),
{
    if s.len() == 0 {
    } else {
        lemma_dec_val_nonneg(s.drop_last());
    }
}

/// Parsing inverts formatting: the decimal representation of a number
/// denotes that number.
pub proof fn lemma_dec_val_of(n: nat)
    ensures
        dec_val(dec_of(n)) == n,
    decreases n,
{
    if n < 10 {
        reveal_with_fuel(dec_val, 2);
        assert(seq![digit_char(n as int)].drop_last() =~= Seq::<char>::empty());
    } else {
        lemma_dec_val_of(n / 10);
        lemma_dec_val_push(dec_of(n / 10), digit_char((n % 10) as int));
    }
}

/// Appends one digit character.
fn push_digit(out: &mut String, d: u64)
    requires
        d < 10,
    ensures
        final(out)@ == old(out)@ + seq![digit_char(d as int)],
{
    if d == 0 {
        proof {
            reveal_strlit("0");
        }
        out.append("0");
        proof {
            assert(old(out)@ + "0"@ =~= old(out)@ + seq![digit_char(d as int)]);
        }
    } else if d == 1 {
        proof {
            reveal_strlit("1");
        }
        out.append("1");
        proof {
            assert(old(out)@ + "1"@ =~= old(out)@ + seq![digit_char(d as int)]);
        }
    } else if d == 2 {
        proof {
            reveal_strlit("2");
        }
        out.append("2");
        proof {
            assert(old(out)@ + "2"@ =~= old(out)@ + seq![digit_char(d as int)]);
        }
    } else if d == 3 {
        proof {
            reveal_strlit("3");
        }
        out.append("3");
        proof {
            assert(old(out)@ + "3"@ =~= old(out)@ + seq![digit_char(d as int)]);
        }
    } else if d == 4 {
        proof {
            reveal_strlit("4");
        }
        out.append("4");
        proof {
            assert(old(out)@ + "4"@ =~= old(out)@ + seq![digit_char(d as int)]);
        }
    } else if d == 5 {
        proof {
            reveal_strlit("5");
        }
        out.append("5");
        proof {
            assert(old(out)@ + "5"@ =~= old(out)@ + seq![digit_char(d as int)]);
        }
    } else if d == 6 {
        proof {
            reveal_strlit("6");
        }
        out.append("6");
        proof {
            assert(old(out)@ + "6"@ =~= old(out)@ + seq![digit_char(d as int)]);
        }
    } else if d == 7 {
        proof {
            reveal_strlit("7");
        }
        out.append("7");
        proof {
            assert(old(out)@ + "7"@ =~= old(out)@ + seq![digit_char(d as int)]);
        }
    } else if d == 8 {
        proof {
            reveal_strlit("8");
        }
        out.append("8");
        proof {
            assert(old(out)@ + "8"@ =~= old(out)@ + seq![digit_char(d as int)]);
        }
    } else {
        proof {
            reveal_strlit("9");
        }
        out.append("9");
        proof {
            assert(old(out)@ + "9"@ =~= old(out)@ + seq![digit_char(d as int)]);
        }
    }
}

/// Appends a number's decimal representation.
fn push_u64(out: &mut String, n: u64)
    ensures
        final(out)@ == old(out)@ + dec_of(n as nat),
    decreases n,
{
    if n >= 10 {
        proof {
            lemma_div_is_strictly_smaller(n as int, 10);
        }
        push_u64(out, n / 10);
        push_digit(out, n % 10);
        proof {
            assert(old(out)@ + dec_of((n / 10) as nat) + seq![digit_char((n % 10) as int)]
                =~= old(out)@ + dec_of(n as nat));
        }
    } else {
        push_digit(out, n);
    }
}

/// Header of the summary-statistics section: section title and table
/// head.
pub open spec fn summary_header_text() -> Seq<char> {
    "## Summary Statistics\n\n| Metric | Min (ms) | Max (ms) | Avg (ms) |\n|--------|----------|----------|----------|\n"@
}

/// Leader of the send-phase row.
pub open spec fn send_row_label() -> Seq<char> {
    "| Send Time | "@
}

/// Leader of the confirm-phase row.
pub open spec fn confirm_row_label() -> Seq<char> {
    "| Confirm Time | "@
}

/// Leader of the total-duration row.
pub open spec fn total_row_label() -> Seq<char> {
    "| Total Time | "@
}

/// Separator between two numbers of a row.
pub open spec fn cell_separator() -> Seq<char> {
    " | "@
}

/// End of a row.
pub open spec fn row_terminator() -> Seq<char> {
    " |\n"@
}

/// One statistics row: its leader, then min, max and average.
pub open spec fn stats_row_text(label: Seq<char>, st: PhaseStats) -> Seq<char> {
    label + dec_of(st.min_ms as nat) + cell_separator() + dec_of(st.max_ms as nat)
        + cell_separator() + dec_of(st.avg_ms as nat) + row_terminator()
}

/// The whole summary-statistics section: header, the three phase
/// rows, and a blank line.
pub open spec fn summary_section_text(
    send: PhaseStats,
    confirm: PhaseStats,
    total: PhaseStats,
) -> Seq<char> {
    summary_header_text() + stats_row_text(send_row_label(), send) + stats_row_text(
        confirm_row_label(),
        confirm,
    ) + stats_row_text(total_row_label(), total) + "\n"@
}

/// Appends one statistics row.
fn push_stats_row(out: &mut String, label: &str, st: &PhaseStats)
    ensures
        final(out)@ == old(out)@ + stats_row_text(label@, *st),
{
    out.append(label);
    push_u64(out, st.min_ms);
    out.append(" | ");
    push_u64(out, st.max_ms);
    out.append(" | ");
    push_u64(out, st.avg_ms);
    out.append(" |\n");
    proof {
        assert(old(out)@ + label@ + dec_of(st.min_ms as nat) + " | "@ + dec_of(st.max_ms as nat)
            + " | "@ + dec_of(st.avg_ms as nat) + " |\n"@ =~= old(out)@ + stats_row_text(
            label@,
            *st,
        ));
    }
}

/// Renders the summary-statistics section of the report: the markdown
/// table holding min, max and average per phase.
pub fn render_summary_section(
    send: &PhaseStats,
    confirm: &PhaseStats,
    total: &PhaseStats,
) -> (r: String)
    ensures
        r@ == summary_section_text(*send, *confirm, *total),
{
    let mut out = String::new();
    out.append(
        "## Summary Statistics\n\n| Metric | Min (ms) | Max (ms) | Avg (ms) |\n|--------|----------|----------|----------|\n",
    );
    push_stats_row(&mut out, "| Send Time | ", send);
    push_stats_row(&mut out, "| Confirm Time | ", confirm);
    push_stats_row(&mut out, "| Total Time | ", total);
    out.append("\n");
    proof {
        assert(out@ =~= summary_section_text(*send, *confirm, *total));
    }
    out
}

/// The maximal digit runs of a text, scanned left to right with `cur`
/// the run in progress (empty when outside a run).
pub open spec fn runs_from(s: Seq<char>, cur: Seq<char>) -> Seq<Seq<char>>
    decreases s.len(),
{
    if s.len() == 0 {
        if cur.len() == 0 {
            Seq::empty()
        } else {
            seq![cur]
        }
    } else if is_digit_char(s[0]) {
        runs_from(s.drop_first(), cur.push(s[0]))
    } else {
        if cur.len() == 0 {
            runs_from(s.drop_first(), Seq::empty())
        } else {
            seq![cur] + runs_from(s.drop_first(), Seq::empty())
        }
    }
}

/// The maximal digit runs of a text, in order.
pub open spec fn digit_runs(s: Seq<char>) -> Seq<Seq<char>> {
    runs_from(s, Seq::empty())
}

/// A digit-free prefix contributes no run.
pub proof fn lemma_runs_nodigit_prefix(x: Seq<char>, y: Seq<char>)
    requires
        no_digit(x),
    ensures
        runs_from(x + y, Seq::empty()) == runs_from(y, Seq::empty()),
    decreases x.len(),
{
    if x.len() == 0 {
        assert(x + y =~= y);
    } else {
        assert(!is_digit_char((x + y)[0]));
        assert((x + y).drop_first() =~= x.drop_first() + y);
        assert(no_digit(x.drop_first()));
        lemma_runs_nodigit_prefix(x.drop_first(), y);
    }
}

/// An all-digit prefix extends the run in progress.
pub proof fn lemma_runs_digit_prefix(d: Seq<char>, y: Seq<char>, cur: Seq<char>)
    requires
        forall|i: int| 0 <= i < d.len() ==> is_digit_char(d[i]),
    ensures
        runs_from(d + y, cur) == runs_from(y, cur + d),
    decreases d.len(),
{
    if d.len() == 0 {
        assert(d + y =~= y);
        assert(cur + d =~= cur);
    } else {
        assert(is_digit_char((d + y)[0]));
        assert((d + y).drop_first() =~= d.drop_first() + y);
        lemma_runs_digit_prefix(d.drop_first(), y, cur.push(d[0]));
        assert(cur.push(d[0]) + d.drop_first() =~= cur + d);
    }
}

/// At the end of the text or before a non-digit, the run in progress
/// is emitted.
pub proof fn lemma_runs_emit(y: Seq<char>, cur: Seq<char>)
    requires
        cur.len() > 0,
        y.len() == 0 || !is_digit_char(y[0]),
    ensures
        runs_from(y, cur) == seq![cur] + runs_from(y, Seq::empty()),
    decreases y.len(),
{
    if y.len() == 0 {
        assert(seq![cur] + runs_from(y, Seq::empty()) =~= seq![cur]);
    }
}

/// A nonempty digit run followed by a non-digit boundary is scanned as
/// itself, ahead of the runs of the rest.
pub proof fn lemma_runs_chunk(d: Seq<char>, rest: Seq<char>)
    requires
        d.len() > 0,
        forall|i: int| 0 <= i < d.len() ==> is_digit_char(d[i]),
        rest.len() == 0 || !is_digit_char(rest[0]),
    ensures
        runs_from(d + rest, Seq::empty()) == seq![d] + runs_from(rest, Seq::empty()),
{
    lemma_runs_digit_prefix(d, rest, Seq::empty());
    assert(Seq::<char>::empty() + d =~= d);
    lemma_runs_emit(rest, d);
}

/// Every run denotes a number that fits the duration type.
pub open spec fn all_fit(rs: Seq<Seq<char>>) -> bool
    decreases rs.len(),
{
    rs.len() == 0 || (dec_val(rs[0]) <= u64::MAX && all_fit(rs.drop_first()))
}

/// `all_fit` holds when every run's value is within bound.
pub proof fn lemma_all_fit(rs: Seq<Seq<char>>)
    requires
        forall|j: int| 0 <= j < rs.len() ==> dec_val(rs[j]) <= u64::MAX,
    ensures
        all_fit(rs),
    decreases rs.len(),
{
    if rs.len() == 0 {
    } else {
        assert(forall|j: int|
            0 <= j < rs.drop_first().len() ==> rs.drop_first()[j] == rs[j + 1]);
        lemma_all_fit(rs.drop_first());
    }
}

/// One out-of-bound run refutes `all_fit`.
pub proof fn lemma_not_all_fit(rs: Seq<Seq<char>>, j: int)
    requires
        0 <= j < rs.len(),
        dec_val(rs[j]) > u64::MAX,
    ensures
        !all_fit(rs),
    decreases j,
{
    if j == 0 {
    } else {
        assert(rs.drop_first()[j - 1] == rs[j]);
        lemma_not_all_fit(rs.drop_first(), j - 1);
    }
}

/// What parsing a summary table yields: the nine numbers of its digit
/// runs, as the three per-phase statistics, provided there are exactly
/// nine runs and each fits the duration type.
pub open spec fn parsed_stats_of(s: Seq<char>) -> Option<(PhaseStats, PhaseStats, PhaseStats)> {
    let rs = digit_runs(s);
    if rs.len() == 9 && all_fit(rs) {
        Some(
            (
                PhaseStats {
                    min_ms: dec_val(rs[0]) as u64,
                    max_ms: dec_val(rs[1]) as u64,
                    avg_ms: dec_val(rs[2]) as u64,
                },
                PhaseStats {
                    min_ms: dec_val(rs[3]) as u64,
                    max_ms: dec_val(rs[4]) as u64,
                    avg_ms: dec_val(rs[5]) as u64,
                },
                PhaseStats {
                    min_ms: dec_val(rs[6]) as u64,
                    max_ms: dec_val(rs[7]) as u64,
                    avg_ms: dec_val(rs[8]) as u64,
                },
            ),
        )
    } else {
        None
    }
}

/// The characters of a text, in order.
fn string_chars(s: &str) -> (r: Vec<char>)
    ensures
        r@ == s@,
{
    let n = s.unicode_len();
    let mut out: Vec<char> = Vec::new();
    let mut i: usize = 0;
    while i < n
        invariant
            i <= n,
            n == s@.len(),
            out@ == s@.take(i as int),
        decreases n - i,
    {
        out.push(s.get_char(i));
        proof {
            assert(s@.take(i as int + 1) =~= s@.take(i as int).push(s@[i as int]));
        }
        i = i + 1;
    }
    proof {
        assert(s@.take(n as int) =~= s@);
    }
    out
}

/// The value of a digit character, or `None` for any other character.
fn char_digit(c: char) -> (r: Option<u64>)
    ensures
        r is Some <==> is_digit_char(c),
        r is Some ==> r->0 == digit_val(c) && r->0 < 10,
{
    match c {
        '0' => Some(0),
        '1' => Some(1),
        '2' => Some(2),
        '3' => Some(3),
        '4' => Some(4),
        '5' => Some(5),
        '6' => Some(6),
        '7' => Some(7),
        '8' => Some(8),
        '9' => Some(9),
        _ => None,
    }
}

/// Parses the min / max / average numbers back out of a rendered
/// summary-statistics table, by its digit runs: exactly nine numbers,
/// each within the duration type, else `None`.
pub fn parse_summary_stats(text: &str) -> (r: Option<(PhaseStats, PhaseStats, PhaseStats)>)
    ensures
        r == parsed_stats_of(text@),
{
    let chars = string_chars(text);
    let ghost s0 = text@;
    let n = chars.len();
    let mut vals: Vec<Option<u64>> = Vec::new();
    let mut in_run: bool = false;
    let mut overflow: bool = false;
    let mut acc: u64 = 0;
    let ghost mut done: Seq<Seq<char>> = Seq::empty();
    let ghost mut cur: Seq<char> = Seq::empty();
    let mut i: usize = 0;
    proof {
        assert(s0.skip(0) =~= s0);
        assert(done + runs_from(s0, cur) =~= runs_from(s0, cur));
    }
    while i < n
        invariant
            i <= n,
            n == s0.len(),
            chars@ == s0,
            digit_runs(s0) == done + runs_from(s0.skip(i as int), cur),
            in_run <==> cur.len() > 0,
            !in_run ==> cur == Seq::<char>::empty(),
            in_run ==> (overflow <==> dec_val(cur) > u64::MAX),
            in_run && !overflow ==> acc == dec_val(cur),
            vals@.len() == done.len(),
            forall|j: int|
                0 <= j < done.len() ==> ((vals@[j] is Some <==> dec_val(done[j]) <= u64::MAX) && (
                vals@[j] is Some ==> vals@[j]->0 == dec_val(done[j]))),
        decreases n - i,
    {
        let c = chars[i];
        proof {
            assert(s0.skip(i as int)[0] == s0[i as int]);
            assert(s0.skip(i as int).drop_first() =~= s0.skip(i as int + 1));
        }
        match char_digit(c) {
            Some(d) => {
                proof {
                    lemma_dec_val_push(cur, c);
                    lemma_dec_val_nonneg(cur);
                }
                if in_run {
                    if !overflow {
                        let next = match acc.checked_mul(10) {
                            Some(m) => m.checked_add(d),
                            None => None,
                        };
                        match next {
                            Some(v) => {
                                acc = v;
                            },
                            None => {
                                overflow = true;
                            },
                        }
                    }
                } else {
                    in_run = true;
                    overflow = false;
                    acc = d;
                }
                proof {
                    cur = cur.push(c);
                }
            },
            None => {
                if in_run {
                    vals.push(if overflow { None } else { Some(acc) });
                    in_run = false;
                    overflow = false;
                    acc = 0;
                    proof {
                        assert(done + (seq![cur] + runs_from(s0.skip(i as int + 1), Seq::empty()))
                            =~= done.push(cur) + runs_from(s0.skip(i as int + 1), Seq::empty()));
                        done = done.push(cur);
                        cur = Seq::empty();
                    }
                }
            },
        }
        i = i + 1;
    }
    proof {
        assert(s0.skip(n as int) =~= Seq::<char>::empty());
    }
    if in_run {
        vals.push(if overflow { None } else { Some(acc) });
        proof {
            assert(done + seq![cur] =~= done.push(cur));
            done = done.push(cur);
        }
    } else {
        proof {
            assert(done + Seq::<Seq<char>>::empty() =~= done);
        }
    }
    if vals.len() != 9 {
        return None;
    }
    let mut nums: Vec<u64> = Vec::new();
    let mut j: usize = 0;
    while j < 9
        invariant
            j <= 9,
            s0 == text@,
            vals@.len() == 9,
            digit_runs(s0).len() == 9,
            forall|k: int|
                0 <= k < 9 ==> ((vals@[k] is Some <==> dec_val(digit_runs(s0)[k]) <= u64::MAX) && (
                vals@[k] is Some ==> vals@[k]->0 == dec_val(digit_runs(s0)[k]))),
            nums@.len() == j,
            forall|k: int| 0 <= k < j ==> vals@[k] is Some,
            forall|k: int| 0 <= k < j ==> nums@[k] == vals@[k]->0,
        decreases 9 - j,
    {
        let vj = vals[j];
        proof {
            assert(vj == vals@[j as int]);
        }
        match vj {
            Some(v) => {
                nums.push(v);
                proof {
                    assert(vals@[j as int] is Some);
                    assert(nums@[j as int] == vals@[j as int]->0);
                }
            },
            None => {
                proof {
                    lemma_not_all_fit(digit_runs(s0), j as int);
                }
                return None;
            },
        }
        j = j + 1;
    }
    proof {
        assert(forall|k: int|
            0 <= k < digit_runs(s0).len() ==> dec_val(digit_runs(s0)[k]) <= u64::MAX);
        lemma_all_fit(digit_runs(s0));
    }
    Some(
        (
            PhaseStats { min_ms: nums[0], max_ms: nums[1], avg_ms: nums[2] },
            PhaseStats { min_ms: nums[3], max_ms: nums[4], avg_ms: nums[5] },
            PhaseStats { min_ms: nums[6], max_ms: nums[7], avg_ms: nums[8] },
        ),
    )
}

/// The hex digit of a value below sixteen, lowercase.
pub open spec fn hex_digit(d: int) -> char {
    if d < 10 {
        digit_char(d)
    } else if d == 10 {
        'a'
    } else if d == 11 {
        'b'
    } else if d == 12 {
        'c'
    } else if d == 13 {
        'd'
    } else if d == 14 {
        'e'
    } else {
        'f'
    }
}

/// Lowercase hex text of a byte string: two digits per byte, high
/// nibble first.
pub open spec fn hex_of(b: Seq<u8>) -> Seq<char>
    decreases b.len(),
{
    if b.len() == 0 {
        Seq::empty()
    } else {
        seq![hex_digit(b[0] as int / 16), hex_digit(b[0] as int % 16)] + hex_of(b.drop_first())
    }
}

/// Relies on `hex::encode`: each byte becomes two lowercase hex
/// digits, high nibble first.
#[verifier::external_body]
fn hex_string(b: &Vec<u8>) -> (r: String)
    ensures
        r@ == hex_of(b@),
{
    hex::encode(b.as_slice())
}

/// Header of the per-transaction section: section title and table
/// head.
pub open spec fn tx_header_text() -> Seq<char> {
    "## Individual Transaction Results\n\n| TX# | Send (ms) | Confirm (ms) | Total (ms) | Hash |\n|-----|-----------|--------------|------------|--------------|\n"@
}

/// One transaction's row: its one-based number, the three durations,
/// and the identifier as a hex string.
pub open spec fn tx_row_text(num: nat, rec: LatencyRecord) -> Seq<char> {
    "| "@ + dec_of(num) + cell_separator() + dec_of(rec.send_ms as nat) + cell_separator()
        + dec_of(rec.confirm_ms as nat) + cell_separator() + dec_of(rec.total_ms as nat)
        + " | `0x"@ + hex_of(rec.id@) + "` |\n"@
}

/// The first `n` transaction rows, in order.
pub open spec fn tx_rows_text(rs: Seq<LatencyRecord>, n: int) -> Seq<char>
    decreases n,
{
    if n <= 0 {
        Seq::empty()
    } else {
        tx_rows_text(rs, n - 1) + tx_row_text(n as nat, rs[n - 1])
    }
}

/// The whole per-transaction section.
pub open spec fn transactions_section_text(rs: Seq<LatencyRecord>) -> Seq<char> {
    tx_header_text() + tx_rows_text(rs, rs.len() as int)
}

/// Renders the per-transaction section of the report: one numbered
/// row per record, in submission order.
#[verifier::rlimit(60)]
pub fn render_transactions_section(records: &Vec<LatencyRecord>) -> (r: String)
    ensures
        r@ == transactions_section_text(records@),
{
    let mut out = String::new();
    out.append(
        "## Individual Transaction Results\n\n| TX# | Send (ms) | Confirm (ms) | Total (ms) | Hash |\n|-----|-----------|--------------|------------|--------------|\n",
    );
    proof {
        assert(out@ =~= tx_header_text() + tx_rows_text(records@, 0));
    }
    let mut i: usize = 0;
    while i < records.len()
        invariant
            i <= records@.len(),
            out@ == tx_header_text() + tx_rows_text(records@, i as int),
        decreases records@.len() - i,
    {
        out.append("| ");
        push_u64(&mut out, (i as u64) + 1);
        out.append(" | ");
        push_u64(&mut out, records[i].send_ms);
        out.append(" | ");
        push_u64(&mut out, records[i].confirm_ms);
        out.append(" | ");
        push_u64(&mut out, records[i].total_ms);
        out.append(" | `0x");
        let hx = hex_string(&records[i].id);
        out.append(hx.as_str());
        out.append("` |\n");
        proof {
            assert(out@ =~= tx_header_text() + tx_rows_text(records@, i as int + 1));
        }
        i = i + 1;
    }
    out
}

/// The digit runs of one statistics row followed by further text that
/// does not begin with a digit: exactly the row's three numbers, then
/// the runs of the rest.
proof fn lemma_runs_row(label: Seq<char>, st: PhaseStats, rest: Seq<char>)
    requires
        no_digit(label),
        rest.len() == 0 || !is_digit_char(rest[0]),
    ensures
        runs_from(stats_row_text(label, st) + rest, Seq::empty()) == seq![
            dec_of(st.min_ms as nat),
            dec_of(st.max_ms as nat),
            dec_of(st.avg_ms as nat),
        ] + runs_from(rest, Seq::empty()),
{
    let d1 = dec_of(st.min_ms as nat);
    let d2 = dec_of(st.max_ms as nat);
    let d3 = dec_of(st.avg_ms as nat);
    let m = cell_separator();
    let e = row_terminator();
    lemma_dec_of_digits(st.min_ms as nat);
    lemma_dec_of_digits(st.max_ms as nat);
    lemma_dec_of_digits(st.avg_ms as nat);
    reveal_strlit(" | ");
    reveal_strlit(" |\n");
    assert(no_digit(m));
    assert(no_digit(e));
    let x5 = e + rest;
    let x4 = d3 + x5;
    let x3 = m + x4;
    let x2 = d2 + x3;
    let x1 = m + x2;
    let x0 = d1 + x1;
    assert(stats_row_text(label, st) + rest =~= label + x0);
    lemma_runs_nodigit_prefix(label, x0);
    assert(x1[0] == m[0]);
    lemma_runs_chunk(d1, x1);
    lemma_runs_nodigit_prefix(m, x2);
    assert(x3[0] == m[0]);
    lemma_runs_chunk(d2, x3);
    lemma_runs_nodigit_prefix(m, x4);
    assert(x5[0] == e[0]);
    lemma_runs_chunk(d3, x5);
    lemma_runs_nodigit_prefix(e, rest);
    assert(seq![d1] + (seq![d2] + (seq![d3] + runs_from(rest, Seq::empty()))) =~= seq![d1, d2, d3]
        + runs_from(rest, Seq::empty()));
}

/// Round trip: parsing the rendered summary table reproduces the three
/// per-phase statistics exactly.
pub proof fn lemma_report_roundtrip(send: PhaseStats, confirm: PhaseStats, total: PhaseStats)
    ensures
        parsed_stats_of(summary_section_text(send, confirm, total)) == Some(
            (send, confirm, total),
        ),
{
    let h = summary_header_text();
    let r1 = stats_row_text(send_row_label(), send);
    let r2 = stats_row_text(confirm_row_label(), confirm);
    let r3 = stats_row_text(total_row_label(), total);
    let t = "\n"@;
    let full = summary_section_text(send, confirm, total);
    reveal_strlit(
        "## Summary Statistics\n\n| Metric | Min (ms) | Max (ms) | Avg (ms) |\n|--------|----------|----------|----------|\n",
    );
    reveal_strlit("| Send Time | ");
    reveal_strlit("| Confirm Time | ");
    reveal_strlit("| Total Time | ");
    reveal_strlit("\n");
    assert(no_digit(h));
    assert(no_digit(send_row_label()));
    assert(no_digit(confirm_row_label()));
    assert(no_digit(total_row_label()));
    assert(no_digit(t));
    assert(full =~= h + (r1 + (r2 + (r3 + t))));
    lemma_runs_nodigit_prefix(h, r1 + (r2 + (r3 + t)));
    assert(r2[0] == confirm_row_label()[0]);
    assert(r3[0] == total_row_label()[0]);
    lemma_runs_row(send_row_label(), send, r2 + (r3 + t));
    lemma_runs_row(confirm_row_label(), confirm, r3 + t);
    lemma_runs_row(total_row_label(), total, t);
    lemma_runs_nodigit_prefix(t, Seq::<char>::empty());
    assert(t + Seq::<char>::empty() =~= t);
    let rs = digit_runs(full);
    assert(rs =~= seq![
        dec_of(send.min_ms as nat),
        dec_of(send.max_ms as nat),
        dec_of(send.avg_ms as nat),
    ] + (seq![
        dec_of(confirm.min_ms as nat),
        dec_of(confirm.max_ms as nat),
        dec_of(confirm.avg_ms as nat),
    ] + (seq![
        dec_of(total.min_ms as nat),
        dec_of(total.max_ms as nat),
        dec_of(total.avg_ms as nat),
    ] + Seq::<Seq<char>>::empty())));
    assert(rs.len() == 9);
    lemma_dec_val_of(send.min_ms as nat);
    lemma_dec_val_of(send.max_ms as nat);
    lemma_dec_val_of(send.avg_ms as nat);
    lemma_dec_val_of(confirm.min_ms as nat);
    lemma_dec_val_of(confirm.max_ms as nat);
    lemma_dec_val_of(confirm.avg_ms as nat);
    lemma_dec_val_of(total.min_ms as nat);
    lemma_dec_val_of(total.max_ms as nat);
    lemma_dec_val_of(total.avg_ms as nat);
    assert(rs[0] == dec_of(send.min_ms as nat));
    assert(rs[1] == dec_of(send.max_ms as nat));
    assert(rs[2] == dec_of(send.avg_ms as nat));
    assert(rs[3] == dec_of(confirm.min_ms as nat));
    assert(rs[4] == dec_of(confirm.max_ms as nat));
    assert(rs[5] == dec_of(confirm.avg_ms as nat));
    assert(rs[6] == dec_of(total.min_ms as nat));
    assert(rs[7] == dec_of(total.max_ms as nat));
    assert(rs[8] == dec_of(total.avg_ms as nat));
    assert forall|j: int| 0 <= j < rs.len() implies dec_val(rs[j]) <= u64::MAX by {
        if j == 0 {
        } else if j == 1 {
        } else if j == 2 {
        } else if j == 3 {
        } else if j == 4 {
        } else if j == 5 {
        } else if j == 6 {
        } else if j == 7 {
        } else {
            assert(j == 8);
        }
    }
    lemma_all_fit(rs);
}

} // verus!
