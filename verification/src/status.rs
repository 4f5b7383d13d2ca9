//! Text sent back to the operator.
//!
//! Every reply is one line of ASCII, ended by a line feed and holding no other
//! line feed. Replies are built as bytes, ready to be written to the
//! connection.

use crate::instruction::MessageBytes;
use vstd::prelude::*;

verus! {

/// The line feed that ends every reply.
pub const LINE_FEED: u8 = 10;

/// Reply to the liveness query: `Nice!`.
pub const QUERY_REPLY: [u8; 6] = ['N' as u8, 'i' as u8, 'c' as u8, 'e' as u8, '!' as u8, 10];

/// Reply to the battery request: `Battery: 42%`.
pub const BATTERY_REPLY: [u8; 13] = [
    'B' as u8,
    'a' as u8,
    't' as u8,
    't' as u8,
    'e' as u8,
    'r' as u8,
    'y' as u8,
    ':' as u8,
    ' ' as u8,
    '4' as u8,
    '2' as u8,
    '%' as u8,
    10,
];

/// Start of the memory report: `Memory: `.
pub const MEMORY_PREFIX: [u8; 8] = [
    'M' as u8,
    'e' as u8,
    'm' as u8,
    'o' as u8,
    'r' as u8,
    'y' as u8,
    ':' as u8,
    ' ' as u8,
];

/// Between the percentage and the amounts of the memory report: `% (`.
pub const MEMORY_OPEN: [u8; 3] = ['%' as u8, ' ' as u8, '(' as u8];

/// Between the two amounts of the memory report: ` / `.
pub const MEMORY_OF: [u8; 3] = [' ' as u8, '/' as u8, ' ' as u8];

/// End of the memory report: `)` and the line feed.
pub const MEMORY_CLOSE: [u8; 2] = [')' as u8, 10];

/// Start of the load report: `Cpu: `.
pub const CPU_PREFIX: [u8; 5] = ['C' as u8, 'p' as u8, 'u' as u8, ':' as u8, ' ' as u8];

/// Start of the diagnostic for a frame that denotes nothing:
/// `Invalid message: `.
pub const INVALID_PREFIX: [u8; 17] = [
    'I' as u8,
    'n' as u8,
    'v' as u8,
    'a' as u8,
    'l' as u8,
    'i' as u8,
    'd' as u8,
    ' ' as u8,
    'm' as u8,
    'e' as u8,
    's' as u8,
    's' as u8,
    'a' as u8,
    'g' as u8,
    'e' as u8,
    ':' as u8,
    ' ' as u8,
];

/// Between two items of a list: `, `.
pub const LIST_SEPARATOR: [u8; 2] = [',' as u8, ' ' as u8];

/// The ASCII digit for a value below ten.
pub open spec fn digit(value: nat) -> u8
    recommends
        value < 10,
{
    ('0' as u8 + value) as u8
}

/// The decimal numeral of a number, without sign or leading zeros.
pub open spec fn decimal(n: nat) -> Seq<u8>
    decreases n,
{
    if n < 10 {
        seq![digit(n)]
    } else {
        decimal(n / 10).push(digit(n % 10))
    }
}

/// The numerals of the items, separated by a comma and a space.
pub open spec fn joined(items: Seq<u8>) -> Seq<u8>
    decreases items.len(),
{
    if items.len() == 0 {
        Seq::empty()
    } else if items.len() == 1 {
        decimal(items[0] as nat)
    } else {
        joined(items.drop_last()) + LIST_SEPARATOR@ + decimal(items.last() as nat)
    }
}

/// The items as a bracketed list, such as `[0, 7, 255]`.
pub open spec fn list_text(items: Seq<u8>) -> Seq<u8> {
    seq!['[' as u8] + joined(items) + seq![']' as u8]
}

/// Whether memory figures are consistent: some memory exists, and no more of
/// it is free than exists.
pub open spec fn memory_figures_valid(total: nat, free: nat) -> bool {
    0 < total && free <= total
}

/// Share of memory in use, as the nearest whole percentage; a share exactly
/// half way between two percentages goes to the even one.
pub open spec fn percent_used(total: nat, free: nat) -> nat
    recommends
        memory_figures_valid(total, free),
{
    let used = (total - free) as nat;
    let quotient = (100 * used) / total;
    let remainder = (100 * used) % total;
    if 2 * remainder > total || (2 * remainder == total && quotient % 2 == 1) {
        quotient + 1
    } else {
        quotient
    }
}

/// The memory report: `Memory: P% (U / T)` with the share in use, the amount
/// in use and the total amount.
pub open spec fn memory_line(total: nat, free: nat) -> Seq<u8>
    recommends
        memory_figures_valid(total, free),
{
    MEMORY_PREFIX@ + decimal(percent_used(total, free)) + MEMORY_OPEN@ + decimal(
        (total - free) as nat,
    ) + MEMORY_OF@ + decimal(total) + MEMORY_CLOSE@
}

/// Whether a byte is a printable ASCII character.
pub open spec fn printable(byte: u8) -> bool {
    0x20 <= byte <= 0x7e
}

/// Whether a text can stand inside a reply: not empty, printable throughout.
pub open spec fn printable_text(text: Seq<u8>) -> bool {
    text.len() > 0 && forall|i: int| 0 <= i < text.len() ==> printable(#[trigger] text[i])
}

/// The load report: `Cpu: ` and the load average as it was formatted.
pub open spec fn cpu_line(load: Seq<u8>) -> Seq<u8>
    recommends
        printable_text(load),
{
    CPU_PREFIX@ + load + seq![LINE_FEED]
}

/// The diagnostic for a frame that denotes nothing: `Invalid message: ` and
/// the bytes of the frame as a list.
pub open spec fn invalid_line(frame: Seq<u8>) -> Seq<u8> {
    INVALID_PREFIX@ + list_text(frame) + seq![LINE_FEED]
}

/// Whether a text is exactly one line: it ends in a line feed and holds no
/// other.
pub open spec fn is_line(text: Seq<u8>) -> bool {
    &&& text.len() > 0
    &&& text.last() == LINE_FEED
    &&& forall|i: int| 0 <= i < text.len() - 1 ==> #[trigger] text[i] != LINE_FEED
}

/// Whether a text holds no line feed.
pub open spec fn free_of_line_feed(text: Seq<u8>) -> bool {
    forall|i: int| 0 <= i < text.len() ==> #[trigger] text[i] != LINE_FEED
}

/// A numeral is made of digits, at least one.
pub proof fn lemma_decimal_is_digits(n: nat)
    ensures
        decimal(n).len() >= 1,
        forall|i: int|
            0 <= i < decimal(n).len() ==> '0' as u8 <= #[trigger] decimal(n)[i] <= '9' as u8,
        free_of_line_feed(decimal(n)),
    decreases n,
{
    if n >= 10 {
        lemma_decimal_is_digits(n / 10);
    }
}

/// A list of numerals holds no line feed.
pub proof fn lemma_joined_is_free_of_line_feed(items: Seq<u8>)
    ensures
        free_of_line_feed(joined(items)),
        free_of_line_feed(list_text(items)),
    decreases items.len(),
{
    if items.len() == 1 {
        lemma_decimal_is_digits(items[0] as nat);
    } else if items.len() > 1 {
        lemma_joined_is_free_of_line_feed(items.drop_last());
        lemma_decimal_is_digits(items.last() as nat);
    }
}

/// Every reply is exactly one line.
pub proof fn lemma_replies_are_lines(total: nat, free: nat, load: Seq<u8>, frame: Seq<u8>)
    ensures
        is_line(QUERY_REPLY@),
        is_line(BATTERY_REPLY@),
        is_line(memory_line(total, free)),
        printable_text(load) ==> is_line(cpu_line(load)),
        is_line(invalid_line(frame)),
{
    lemma_decimal_is_digits(percent_used(total, free));
    lemma_decimal_is_digits((total - free) as nat);
    lemma_decimal_is_digits(total);
    lemma_joined_is_free_of_line_feed(frame);
}

/// Appends bytes to a buffer.
fn append(out: &mut Vec<u8>, bytes: &[u8])
    ensures
        final(out)@ == old(out)@ + bytes@,
{
    let mut i: usize = 0;
    while i < bytes.len()
        invariant
            i <= bytes.len(),
            out@ == old(out)@ + bytes@.subrange(0, i as int),
        decreases bytes.len() - i,
    {
        out.push(bytes[i]);
        i += 1;
    }
}

/// Appends the decimal numeral of a number to a buffer.
pub fn push_decimal(out: &mut Vec<u8>, n: u64)
    ensures
        final(out)@ == old(out)@ + decimal(n as nat),
    decreases n,
{
    if n >= 10 {
        push_decimal(out, n / 10);
    }
    out.push('0' as u8 + (n % 10) as u8);
}

/// Appends the numerals of the items, separated by a comma and a space.
fn push_joined(out: &mut Vec<u8>, items: &[u8])
    ensures
        final(out)@ == old(out)@ + joined(items@),
{
    let mut i: usize = 0;
    while i < items.len()
        invariant
            i <= items.len(),
            out@ == old(out)@ + joined(items@.subrange(0, i as int)),
        decreases items.len() - i,
    {
        assert(items@.subrange(0, i + 1).drop_last() =~= items@.subrange(0, i as int));
        if i > 0 {
            append(out, &LIST_SEPARATOR);
        }
        push_decimal(out, items[i] as u64);
        i += 1;
    }
    assert(items@.subrange(0, i as int) =~= items@);
}

/// The reply to the liveness query.
pub fn query_reply() -> (line: Vec<u8>)
    ensures
        line@ == QUERY_REPLY@,
{
    let mut line = Vec::new();
    append(&mut line, &QUERY_REPLY);
    line
}

/// The reply to the battery request.
pub fn battery_reply() -> (line: Vec<u8>)
    ensures
        line@ == BATTERY_REPLY@,
{
    let mut line = Vec::new();
    append(&mut line, &BATTERY_REPLY);
    line
}

/// Share of memory in use, as the nearest whole percentage.
fn percent(total: u64, free: u64) -> (share: u64)
    requires
        memory_figures_valid(total as nat, free as nat),
    ensures
        share == percent_used(total as nat, free as nat),
        share <= 100,
{
    let used: u128 = (total - free) as u128;
    let whole: u128 = total as u128;
    let scaled: u128 = 100 * used;
    let quotient: u128 = scaled / whole;
    let remainder: u128 = scaled % whole;
    assert(quotient <= 100 && (quotient == 100 ==> remainder == 0)) by (nonlinear_arith)
        requires
            scaled == 100 * used,
            used <= whole,
            0 < whole,
            quotient == scaled / whole,
            remainder == scaled % whole,
    ;
    if 2 * remainder > whole || (2 * remainder == whole && quotient % 2 == 1) {
        (quotient + 1) as u64
    } else {
        quotient as u64
    }
}

/// The memory report for the given figures, or `None` when the figures are
/// inconsistent and nothing truthful could be reported.
pub fn memory_reply(total: u64, free: u64) -> (line: Option<Vec<u8>>)
    ensures
        line is Some <==> memory_figures_valid(total as nat, free as nat),
        line matches Some(text) ==> text@ == memory_line(total as nat, free as nat),
{
    if total == 0 || free > total {
        return None;
    }
    let mut text = Vec::new();
    append(&mut text, &MEMORY_PREFIX);
    push_decimal(&mut text, percent(total, free));
    append(&mut text, &MEMORY_OPEN);
    push_decimal(&mut text, total - free);
    append(&mut text, &MEMORY_OF);
    push_decimal(&mut text, total);
    append(&mut text, &MEMORY_CLOSE);
    Some(text)
}

/// Whether a text is not empty and printable throughout.
pub fn is_printable_text(text: &[u8]) -> (printable: bool)
    ensures
        printable == printable_text(text@),
{
    if text.len() == 0 {
        return false;
    }
    let mut i: usize = 0;
    while i < text.len()
        invariant
            i <= text.len(),
            forall|j: int| 0 <= j < i ==> printable(#[trigger] text@[j]),
        decreases text.len() - i,
    {
        if text[i] < 0x20 || text[i] > 0x7e {
            return false;
        }
        i += 1;
    }
    true
}

/// The load report for a load average given as text, or `None` when the text
/// could not stand on a line of its own.
pub fn cpu_reply(load: &[u8]) -> (line: Option<Vec<u8>>)
    ensures
        line is Some <==> printable_text(load@),
        line matches Some(text) ==> text@ == cpu_line(load@),
{
    if !is_printable_text(load) {
        return None;
    }
    let mut text = Vec::new();
    append(&mut text, &CPU_PREFIX);
    append(&mut text, load);
    text.push(LINE_FEED);
    Some(text)
}

/// The diagnostic for a frame that denotes nothing.
pub fn invalid_reply(frame: MessageBytes) -> (line: Vec<u8>)
    ensures
        line@ == invalid_line(frame@),
{
    let mut line = Vec::new();
    append(&mut line, &INVALID_PREFIX);
    line.push('[' as u8);
    push_joined(&mut line, &frame);
    line.push(']' as u8);
    line.push(LINE_FEED);
    line
}

} // verus!
