//! The record that a pidfile holds: the owner's process id in decimal ASCII,
//! followed by one newline and nothing else.
use vstd::prelude::*;

verus! {

pub open spec fn digit_byte(d: nat) -> u8 {
    (48 + d) as u8
}

/// The decimal digits of `n`, most significant first, without leading zeros.
pub open spec fn decimal_digits(n: nat) -> Seq<u8>
    decreases n,
{
    if n < 10 {
        seq![digit_byte(n)]
    } else {
        decimal_digits(n / 10).push(digit_byte(n % 10))
    }
}

/// The bytes of the record that names `pid` as the owner.
pub open spec fn ticket_bytes(pid: u32) -> Seq<u8> {
    decimal_digits(pid as nat).push(10u8)
}

pub open spec fn is_digit(b: u8) -> bool {
    48 <= b <= 57
}

pub open spec fn all_digits(d: Seq<u8>) -> bool {
    forall|i: int| 0 <= i < d.len() ==> is_digit(#[trigger] d[i])
}

/// The number that a string of decimal digits denotes.
pub open spec fn digits_value(d: Seq<u8>) -> nat
    decreases d.len(),
{
    if d.len() == 0 {
        0
    } else {
        digits_value(d.drop_last()) * 10 + (d.last() - 48) as nat
    }
}

/// Where the first line of `s` ends: the index of its first newline, or the
/// length of `s` where it has none.
pub open spec fn line_end(s: Seq<u8>) -> nat
    decreases s.len(),
{
    if s.len() == 0 {
        0
    } else if s[0] == 10 {
        0
    } else {
        1 + line_end(s.drop_first())
    }
}

/// The first line of `s`, without its line ending (`\n` or `\r\n`); none where
/// `s` is empty.
pub open spec fn first_line(s: Seq<u8>) -> Option<Seq<u8>> {
    let k = line_end(s) as int;
    let line = s.subrange(0, k);
    if s.len() == 0 {
        None
    } else if k < s.len() && line.len() > 0 && line.last() == 13 {
        Some(line.drop_last())
    } else {
        Some(line)
    }
}

/// A decimal number that fits in a `u32`, with an optional leading `+`.
pub open spec fn parse_u32(t: Seq<u8>) -> Option<u32> {
    let d = if t.len() > 0 && t[0] == 43 {
        t.drop_first()
    } else {
        t
    };
    if d.len() > 0 && all_digits(d) && digits_value(d) <= u32::MAX {
        Some(digits_value(d) as u32)
    } else {
        None
    }
}

/// The owner that a record names: the number on its first line.
pub open spec fn ticket_pid(s: Seq<u8>) -> Option<u32> {
    match first_line(s) {
        Some(line) => parse_u32(line),
        None => None,
    }
}

fn push_decimal(n: u32, out: &mut Vec<u8>)
    ensures
        final(out)@ == old(out)@ + decimal_digits(n as nat),
    decreases n,
{
    if n >= 10 {
        push_decimal(n / 10, out);
    }
    out.push((48 + n % 10) as u8);
    proof {
        if n >= 10 {
            assert(decimal_digits(n as nat) == decimal_digits((n / 10) as nat).push(
                digit_byte((n % 10) as nat),
            ));
        }
        assert(out@ =~= old(out)@ + decimal_digits(n as nat));
    }
}

/// The record that names `pid` as the owner.
pub fn encode_ticket(pid: u32) -> (r: Vec<u8>)
    ensures
        r@ == ticket_bytes(pid),
{
    let mut out: Vec<u8> = Vec::new();
    push_decimal(pid, &mut out);
    out.push(10u8);
    assert(out@ =~= ticket_bytes(pid));
    out
}

proof fn lemma_digits_value_grows(d: Seq<u8>, i: int, j: int)
    requires
        0 <= i <= j <= d.len(),
        all_digits(d),
    ensures
        digits_value(d.subrange(0, i)) <= digits_value(d.subrange(0, j)),
    decreases j - i,
{
    if i < j {
        lemma_digits_value_grows(d, i, j - 1);
        assert(d.subrange(0, j).drop_last() =~= d.subrange(0, j - 1));
        assert(is_digit(d[j - 1]));
    }
}

proof fn lemma_line_end_bound(s: Seq<u8>)
    ensures
        line_end(s) <= s.len(),
        line_end(s) < s.len() ==> s[line_end(s) as int] == 10,
        forall|i: int| 0 <= i < line_end(s) ==> s[i] != 10,
    decreases s.len(),
{
    if s.len() > 0 && s[0] != 10 {
        lemma_line_end_bound(s.drop_first());
        assert forall|i: int| 0 <= i < line_end(s) implies s[i] != 10 by {
            if i > 0 {
                assert(s[i] == s.drop_first()[i - 1]);
            }
        }
    }
}

proof fn lemma_line_end_unique(s: Seq<u8>, k: int)
    requires
        0 <= k <= s.len(),
        k < s.len() ==> s[k] == 10,
        forall|i: int| 0 <= i < k ==> s[i] != 10,
    ensures
        line_end(s) == k,
    decreases s.len(),
{
    if s.len() > 0 && s[0] != 10 {
        let t = s.drop_first();
        assert forall|i: int| 0 <= i < k - 1 implies t[i] != 10 by {
            assert(t[i] == s[i + 1]);
        }
        lemma_line_end_unique(t, k - 1);
    }
}

/// Reads the owner from the bytes of a record: the number on its first line,
/// or none where that line is not a decimal `u32`.
pub fn parse_ticket(bytes: &[u8]) -> (r: Option<u32>)
    ensures
        r == ticket_pid(bytes@),
{
    let n = bytes.len();
    if n == 0 {
        return None;
    }
    let mut k: usize = 0;
    while k < n && bytes[k] != 10u8
        invariant
            0 <= k <= n,
            n == bytes@.len(),
            forall|i: int| 0 <= i < k ==> bytes@[i] != 10,
        decreases n - k,
    {
        k = k + 1;
    }
    proof {
        lemma_line_end_unique(bytes@, k as int);
    }
    let ghost line = bytes@.subrange(0, k as int);
    let mut end: usize = k;
    if k < n && k > 0 && bytes[k - 1] == 13u8 {
        end = k - 1;
    }
    assert(first_line(bytes@) == Some(bytes@.subrange(0, end as int))) by {
        if end < k {
            assert(line.drop_last() =~= bytes@.subrange(0, end as int));
        } else {
            assert(line =~= bytes@.subrange(0, end as int));
        }
    }
    let ghost t = bytes@.subrange(0, end as int);
    let mut start: usize = 0;
    if end > 0 && bytes[0] == 43u8 {
        start = 1;
    }
    let ghost d = bytes@.subrange(start as int, end as int);
    assert(d =~= (if t.len() > 0 && t[0] == 43 { t.drop_first() } else { t }));
    if start == end {
        return None;
    }
    assert(d.len() > 0);
    let mut acc: u64 = 0;
    let mut i: usize = start;
    assert(d.subrange(0, 0) =~= Seq::<u8>::empty());
    while i < end
        invariant
            start <= i <= end,
            end <= n,
            n == bytes@.len(),
            d == bytes@.subrange(start as int, end as int),
            all_digits(d.subrange(0, i - start)),
            acc == digits_value(d.subrange(0, i - start)),
            acc <= u32::MAX,
            ticket_pid(bytes@) == (if all_digits(d) && digits_value(d) <= u32::MAX {
                Some(digits_value(d) as u32)
            } else {
                None
            }),
        decreases end - i,
    {
        let b = bytes[i];
        if b < 48u8 || b > 57u8 {
            assert(!is_digit(d[i - start]));
            return None;
        }
        let ghost j = i - start;
        assert(d.subrange(0, j + 1).drop_last() =~= d.subrange(0, j));
        assert(d.subrange(0, j + 1).last() == b);
        acc = acc * 10 + (b - 48u8) as u64;
        i = i + 1;
        assert(all_digits(d.subrange(0, i - start))) by {
            assert forall|x: int| 0 <= x < d.subrange(0, i - start).len() implies is_digit(
                #[trigger] d.subrange(0, i - start)[x],
            ) by {
                if x < j {
                    assert(d.subrange(0, i - start)[x] == d.subrange(0, j)[x]);
                }
            }
        }
        if acc > 0xffff_ffffu64 {
            proof {
                if all_digits(d) {
                    lemma_digits_value_grows(d, i - start, d.len() as int);
                    assert(d.subrange(0, d.len() as int) =~= d);
                }
            }
            return None;
        }
    }
    assert(d.subrange(0, i - start) =~= d);
    Some(acc as u32)
}

proof fn lemma_decimal_digits(n: nat)
    ensures
        decimal_digits(n).len() > 0,
        all_digits(decimal_digits(n)),
        digits_value(decimal_digits(n)) == n,
    decreases n,
{
    if n >= 10 {
        lemma_decimal_digits(n / 10);
        let d = decimal_digits(n);
        assert(d.drop_last() =~= decimal_digits(n / 10));
        assert(d.last() == digit_byte(n % 10));
        assert((n / 10) * 10 + n % 10 == n) by (nonlinear_arith);
        assert(digits_value(d) == digits_value(d.drop_last()) * 10 + (d.last() - 48) as nat);
        assert forall|i: int| 0 <= i < d.len() implies is_digit(#[trigger] d[i]) by {
            if i < d.len() - 1 {
                assert(d[i] == decimal_digits(n / 10)[i]);
            }
        }
    } else {
        let d = decimal_digits(n);
        assert(d.drop_last() =~= Seq::<u8>::empty());
        assert(digits_value(d.drop_last()) == 0);
        assert(digits_value(d) == digits_value(d.drop_last()) * 10 + (d.last() - 48) as nat);
    }
}

/// A record written for `pid` reads back as `pid`: the file holds exactly
/// the owner's decimal id and one newline, and reading its first line gives
/// that id again.
pub proof fn lemma_ticket_round_trip(pid: u32)
    ensures
        ticket_pid(ticket_bytes(pid)) == Some(pid),
{
    let d = decimal_digits(pid as nat);
    let s = ticket_bytes(pid);
    lemma_decimal_digits(pid as nat);
    assert forall|i: int| 0 <= i < d.len() implies s[i] != 10 by {
        assert(s[i] == d[i]);
        assert(is_digit(d[i]));
    }
    lemma_line_end_unique(s, d.len() as int);
    assert(s.subrange(0, d.len() as int) =~= d);
    assert(is_digit(d[d.len() - 1]));
    assert(is_digit(d[0]));
}

/// The record for one owner, with how much of it the file has taken so far:
/// a single write may take fewer bytes than it was handed.
pub struct TicketWriter {
    bytes: Vec<u8>,
    pos: usize,
}

impl TicketWriter {
    /// The whole record.
    pub closed spec fn record(&self) -> Seq<u8> {
        self.bytes@
    }

    /// How many of its bytes have been written.
    pub closed spec fn written(&self) -> nat {
        self.pos as nat
    }

    pub closed spec fn wf(&self) -> bool {
        self.pos <= self.bytes@.len()
    }

    /// A writer at offset 0 of the record that names `pid`.
    pub fn new(pid: u32) -> (r: TicketWriter)
        ensures
            r.wf(),
            r.record() == ticket_bytes(pid),
            r.written() == 0,
    {
        TicketWriter { bytes: encode_ticket(pid), pos: 0 }
    }

    /// The bytes that are still to be written.
    pub fn pending(&self) -> (r: &[u8])
        requires
            self.wf(),
        ensures
            r@ == self.record().subrange(self.written() as int, self.record().len() as int),
    {
        vstd::slice::slice_subrange(self.bytes.as_slice(), self.pos, self.bytes.len())
    }

    /// Records that a write took the first `n` pending bytes.
    pub fn advance(&mut self, n: usize)
        requires
            old(self).wf(),
            n <= old(self).record().len() - old(self).written(),
        ensures
            final(self).wf(),
            final(self).record() == old(self).record(),
            final(self).written() == old(self).written() + n,
    {
        let ghost len = self.bytes.len();
        self.pos = self.pos + n;
    }

    /// Whether the whole record has been written.
    pub fn is_done(&self) -> (r: bool)
        requires
            self.wf(),
        ensures
            r == (self.written() == self.record().len()),
    {
        self.pos == self.bytes.len()
    }
}

} // verus!
