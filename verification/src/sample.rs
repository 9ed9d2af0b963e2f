//! The collector's metric sample and its wire form: a three-line text
//! payload, each line a fixed label followed by a numeric value. The
//! formatting is specified character by character and the renderer is proved
//! against it; a lemma pins the three-line shape of every payload.

use crate::decimal::{dec_digits, digit_char, digit_str, u64_to_string};
use vstd::prelude::*;

verus! {

/// One host-metric sample, taken fresh each cycle and never stored.
///
/// CPU load is held in hundredths of a percent, so that the payload can
/// render it with two decimal places from plain integers.
pub struct MetricSample {
    /// Total installed memory, in kibibytes.
    pub total_memory_kb: u64,
    /// Currently available memory, in kibibytes.
    pub available_memory_kb: u64,
    /// Usage of the first enumerated processing unit, in hundredths of a
    /// percent.
    pub cpu_load_centi_percent: u64,
}

/// The CPU value rendered with two decimal places: the whole percent part,
/// a dot, then the two hundredths digits.
pub open spec fn spec_cpu_digits(c: nat) -> Seq<char> {
    dec_digits(c / 100) + seq!['.', digit_char(((c / 10) % 10) as int), digit_char(
        (c % 10) as int,
    )]
}

/// The payload text of one sample: the literal three-line template with the
/// rendered values substituted.
pub open spec fn spec_payload(s: MetricSample) -> Seq<char> {
    "Total memory: "@ + dec_digits(s.total_memory_kb as nat) + " KB\n"@ + "Available memory: "@
        + dec_digits(s.available_memory_kb as nat) + " KB\n"@ + "CPU load: "@ + spec_cpu_digits(
        s.cpu_load_centi_percent as nat,
    ) + "%\n"@
}

/// Renders the CPU value with two decimal places.
fn cpu_text(c: u64) -> (s: String)
    ensures
        s@ == spec_cpu_digits(c as nat),
{
    let mut s = u64_to_string(c / 100);
    s.append(".");
    s.append(digit_str((c / 10) % 10));
    s.append(digit_str(c % 10));
    proof {
        reveal_strlit(".");
        assert(s@ =~= spec_cpu_digits(c as nat));
    }
    s
}

/// Number of occurrences of `c` in `s`.
pub open spec fn count_char(s: Seq<char>, c: char) -> nat
    decreases s.len(),
{
    if s.len() == 0 {
        0
    } else {
        count_char(s.drop_last(), c) + (if s.last() == c {
            1nat
        } else {
            0nat
        })
    }
}

/// Occurrence counts add over concatenation.
proof fn lemma_count_char_add(a: Seq<char>, b: Seq<char>, c: char)
    ensures
        count_char(a + b, c) == count_char(a, c) + count_char(b, c),
    decreases b.len(),
{
    if b.len() == 0 {
        assert(a + b =~= a);
    } else {
        lemma_count_char_add(a, b.drop_last(), c);
        assert((a + b).drop_last() =~= a + b.drop_last());
    }
}

/// A character that occurs nowhere in `s` has count zero.
proof fn lemma_count_char_absent(s: Seq<char>, c: char)
    requires
        forall|i: int| 0 <= i < s.len() ==> s[i] != c,
    ensures
        count_char(s, c) == 0,
    decreases s.len(),
{
    if s.len() > 0 {
        lemma_count_char_absent(s.drop_last(), c);
    }
}

/// A rendered number holds no newline.
proof fn lemma_dec_digits_no_newline(n: nat)
    ensures
        count_char(dec_digits(n), '\n') == 0,
{
    crate::decimal::lemma_dec_digits_are_digits(n);
    lemma_count_char_absent(dec_digits(n), '\n');
}

/// The rendered CPU value holds no newline.
proof fn lemma_cpu_digits_no_newline(c: nat)
    ensures
        count_char(spec_cpu_digits(c), '\n') == 0,
{
    crate::decimal::lemma_dec_digits_are_digits(c / 100);
    lemma_count_char_absent(dec_digits(c / 100), '\n');
    lemma_count_char_absent(
        seq!['.', digit_char(((c / 10) % 10) as int), digit_char((c % 10) as int)],
        '\n',
    );
    lemma_count_char_add(
        dec_digits(c / 100),
        seq!['.', digit_char(((c / 10) % 10) as int), digit_char((c % 10) as int)],
        '\n',
    );
}

/// Every payload has exactly three lines: it holds exactly three newline
/// characters, the last character is one of them, and the substituted values
/// contribute none. With `spec_payload`'s definition this pins the payload to
/// the literal three-line template, each value rendered from plain digits.
pub proof fn lemma_payload_three_lines(s: MetricSample)
    ensures
        count_char(spec_payload(s), '\n') == 3,
        spec_payload(s).last() == '\n',
{
    let t = dec_digits(s.total_memory_kb as nat);
    let a = dec_digits(s.available_memory_kb as nat);
    let c = spec_cpu_digits(s.cpu_load_centi_percent as nat);
    let p1 = "Total memory: "@;
    let p2 = " KB\n"@;
    let p3 = "Available memory: "@;
    let p4 = "CPU load: "@;
    let p5 = "%\n"@;
    reveal_strlit("Total memory: ");
    reveal_strlit(" KB\n");
    reveal_strlit("Available memory: ");
    reveal_strlit("CPU load: ");
    reveal_strlit("%\n");
    lemma_count_char_absent(p1, '\n');
    lemma_count_char_absent(p3, '\n');
    lemma_count_char_absent(p4, '\n');
    assert(p2 =~= seq![' ', 'K', 'B'] + seq!['\n']);
    assert(p5 =~= seq!['%'] + seq!['\n']);
    lemma_count_char_absent(seq![' ', 'K', 'B'], '\n');
    lemma_count_char_absent(seq!['%'], '\n');
    assert(count_char(seq!['\n'], '\n') == 1) by {
        reveal_with_fuel(count_char, 3);
        assert(seq!['\n'].drop_last() =~= Seq::<char>::empty());
    }
    lemma_count_char_add(seq![' ', 'K', 'B'], seq!['\n'], '\n');
    lemma_count_char_add(seq!['%'], seq!['\n'], '\n');
    lemma_dec_digits_no_newline(s.total_memory_kb as nat);
    lemma_dec_digits_no_newline(s.available_memory_kb as nat);
    lemma_cpu_digits_no_newline(s.cpu_load_centi_percent as nat);
    lemma_count_char_add(p1, t, '\n');
    lemma_count_char_add(p1 + t, p2, '\n');
    lemma_count_char_add(p1 + t + p2, p3, '\n');
    lemma_count_char_add(p1 + t + p2 + p3, a, '\n');
    lemma_count_char_add(p1 + t + p2 + p3 + a, p2, '\n');
    lemma_count_char_add(p1 + t + p2 + p3 + a + p2, p4, '\n');
    lemma_count_char_add(p1 + t + p2 + p3 + a + p2 + p4, c, '\n');
    lemma_count_char_add(p1 + t + p2 + p3 + a + p2 + p4 + c, p5, '\n');
}

impl MetricSample {
    /// Formats this sample as the three-line payload text, exactly as
    /// `spec_payload` specifies.
    pub fn format(&self) -> (s: String)
        ensures
            s@ == spec_payload(*self),
    {
        let mut s = String::from_str("Total memory: ");
        s.append(u64_to_string(self.total_memory_kb).as_str());
        s.append(" KB\nAvailable memory: ");
        s.append(u64_to_string(self.available_memory_kb).as_str());
        s.append(" KB\nCPU load: ");
        s.append(cpu_text(self.cpu_load_centi_percent).as_str());
        s.append("%\n");
        proof {
            reveal_strlit(" KB\nAvailable memory: ");
            reveal_strlit(" KB\n");
            reveal_strlit("Available memory: ");
            reveal_strlit("CPU load: ");
            reveal_strlit(" KB\nCPU load: ");
            assert(" KB\nAvailable memory: "@ =~= " KB\n"@ + "Available memory: "@);
            assert(" KB\nCPU load: "@ =~= " KB\n"@ + "CPU load: "@);
            assert(s@ =~= spec_payload(*self));
        }
        s
    }
}

} // verus!
