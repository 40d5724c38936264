//! Cache filenames and sequence numbering.
//!
//! Execution transactions are cached one per file, named by a fixed
//! pattern: the prefix `transaction_` followed by a decimal number.  This
//! module parses and produces those names, and computes the next free
//! sequence number from a directory listing: one past the largest number
//! found, zero when none matches.  Numbering is gap-tolerant: only the
//! maximum matters.

use vstd::prelude::*;
use vstd::assert_by_contradiction;
use vstd::std_specs::iter::IteratorSpec;
use vstd::string::StringExecFns;

verus! {

broadcast use vstd::string::next_postcondition, vstd::string::axiom_spec_iter;

/// The characters of the fixed filename prefix.
pub open spec fn tx_prefix() -> Seq<char> {
    seq!['t', 'r', 'a', 'n', 's', 'a', 'c', 't', 'i', 'o', 'n', '_']
}

/// Holds when `c` is a decimal digit.
pub open spec fn spec_is_digit(c: char) -> bool {
    48 <= c as u32 <= 57
}

/// The value of a decimal digit; zero for any other character.
pub open spec fn spec_digit_val(c: char) -> nat {
    if spec_is_digit(c) {
        (c as u32 - 48) as nat
    } else {
        0
    }
}

/// The value of a string of decimal digits, most significant first.
pub open spec fn spec_digits_value(s: Seq<char>) -> nat
    decreases s.len(),
{
    if s.len() == 0 {
        0
    } else {
        spec_digits_value(s.drop_last()) * 10 + spec_digit_val(s.last())
    }
}

/// Holds when every character of `s` is a decimal digit.
pub open spec fn all_digits(s: Seq<char>) -> bool {
    forall|i: int| 0 <= i < s.len() ==> spec_is_digit(#[trigger] s[i])
}

/// Holds when `s` is a transaction cache filename: the fixed prefix,
/// then at least one digit, with a value that fits a 32-bit number.
pub open spec fn is_tx_filename(s: Seq<char>) -> bool {
    &&& s.len() > 12
    &&& s.take(12) == tx_prefix()
    &&& all_digits(s.skip(12))
    &&& spec_digits_value(s.skip(12)) <= u32::MAX
}

/// The sequence number embedded in a transaction cache filename.
pub open spec fn tx_filename_number(s: Seq<char>) -> nat {
    spec_digits_value(s.skip(12))
}

/// The digit character of a value below ten.
pub open spec fn spec_digit_char(d: nat) -> char {
    if d == 0 {
        '0'
    } else if d == 1 {
        '1'
    } else if d == 2 {
        '2'
    } else if d == 3 {
        '3'
    } else if d == 4 {
        '4'
    } else if d == 5 {
        '5'
    } else if d == 6 {
        '6'
    } else if d == 7 {
        '7'
    } else if d == 8 {
        '8'
    } else {
        '9'
    }
}

/// The canonical decimal spelling of a number, without leading zeros.
pub open spec fn spec_decimal(n: nat) -> Seq<char>
    decreases n,
{
    if n < 10 {
        seq![spec_digit_char(n)]
    } else {
        spec_decimal(n / 10).push(spec_digit_char(n % 10))
    }
}

/// The canonical cache filename of sequence number `n`.
pub open spec fn spec_tx_filename(n: nat) -> Seq<char> {
    tx_prefix() + spec_decimal(n)
}

/// A prefix of a digit string never has a larger value than the whole.
proof fn lemma_digits_value_take_le(s: Seq<char>, k: int)
    requires
        0 <= k <= s.len(),
    ensures
        spec_digits_value(s.take(k)) <= spec_digits_value(s),
    decreases s.len(),
{
    if k < s.len() {
        assert(s.drop_last().take(k) =~= s.take(k));
        lemma_digits_value_take_le(s.drop_last(), k);
    } else {
        assert(s.take(k) =~= s);
    }
}

/// Appending a digit multiplies the value by ten and adds the digit.
proof fn lemma_digits_value_push(s: Seq<char>, c: char)
    ensures
        spec_digits_value(s.push(c)) == spec_digits_value(s) * 10 + spec_digit_val(c),
{
    assert(s.push(c).drop_last() =~= s);
    assert(s.push(c).last() == c);
}

/// Collects the characters of a string into a vector.
fn collect_chars(name: &str) -> (chars: Vec<char>)
    ensures
        chars@ == name@,
{
    let mut chars: Vec<char> = Vec::new();
    let mut it = name.chars();
    loop
        invariant_except_break
            chars@ + it.remaining() =~= name@,
            it.decrease() is Some,
        ensures
            chars@ =~= name@,
        decreases it.decrease()->0,
    {
        match it.next() {
            Some(c) => chars.push(c),
            None => break,
        }
    }
    proof {
        assert(chars@ =~= name@);
    }
    chars
}

/// Parses a transaction cache filename.  Returns the embedded sequence
/// number exactly when the name matches the fixed pattern and its number
/// fits 32 bits; returns nothing for every other name.
pub fn parse_tx_filename(name: &str) -> (r: Option<u32>)
    ensures
        r matches Some(n) ==> is_tx_filename(name@) && n as nat == tx_filename_number(name@),
        r is None ==> !is_tx_filename(name@),
{
    let ghost s = name@;
    let chars = collect_chars(name);
    let prefix: Vec<char> = vec!['t', 'r', 'a', 'n', 's', 'a', 'c', 't', 'i', 'o', 'n', '_'];
    proof {
        assert(prefix@ =~= tx_prefix());
    }
    if chars.len() < 13 {
        return None;
    }
    let mut j: usize = 0;
    while j < 12
        invariant
            j <= 12,
            s == name@,
            chars@ == s,
            prefix@ =~= tx_prefix(),
            chars@.len() >= 13,
            forall|m: int| 0 <= m < j ==> s[m] == tx_prefix()[m],
        decreases 12 - j,
    {
        if chars[j] != prefix[j] {
            proof {
                assert_by_contradiction!(!is_tx_filename(s), {
                    assert(s.take(12) == tx_prefix());
                    assert(s.take(12)[j as int] == s[j as int]);
                    assert(s[j as int] != tx_prefix()[j as int]);
                });
            }
            return None;
        }
        j = j + 1;
    }
    proof {
        assert(s.take(12) =~= tx_prefix());
    }
    let mut val: u32 = 0;
    let mut i: usize = 12;
    while i < chars.len()
        invariant
            12 <= i <= chars@.len(),
            s == name@,
            chars@ == s,
            s.take(12) == tx_prefix(),
            s.len() >= 13,
            all_digits(s.subrange(12, i as int)),
            val as nat == spec_digits_value(s.subrange(12, i as int)),
        decreases chars@.len() - i,
    {
        let c = chars[i];
        let u: u32 = c as u32;
        proof {
            assert(s[i as int] == c);
        }
        if u < 48 || u > 57 {
            proof {
                assert(!spec_is_digit(c));
                assert_by_contradiction!(!is_tx_filename(s), {
                    assert(all_digits(s.skip(12)));
                    assert(s.skip(12)[i - 12] == s[i as int]);
                    assert(spec_is_digit(s.skip(12)[i - 12]));
                });
            }
            return None;
        }
        let d: u32 = u - 48;
        proof {
            assert(spec_is_digit(c));
            assert(spec_digit_val(c) == d as nat);
            lemma_digits_value_push(s.subrange(12, i as int), c);
            assert(s.subrange(12, i as int).push(c) =~= s.subrange(12, i + 1));
            assert(spec_digits_value(s.subrange(12, i + 1)) == val as nat * 10 + d as nat);
        }
        if val > (u32::MAX - d) / 10 {
            proof {
                assert(val * 10 + d > u32::MAX) by {
                    let q: int = (u32::MAX - d) as int / 10;
                    assert(10 * q + (u32::MAX - d) as int % 10 == (u32::MAX - d) as int) by {
                        vstd::arithmetic::div_mod::lemma_fundamental_div_mod(
                            (u32::MAX - d) as int,
                            10,
                        );
                    }
                    assert(val as int >= q + 1);
                    assert(val as int * 10 >= (q + 1) * 10) by (nonlinear_arith)
                        requires
                            val as int >= q + 1,
                    ;
                }
                assert(spec_digits_value(s.subrange(12, i + 1)) > u32::MAX);
                assert_by_contradiction!(!is_tx_filename(s), {
                    assert(s.skip(12).take(i + 1 - 12) =~= s.subrange(12, i + 1));
                    lemma_digits_value_take_le(s.skip(12), i + 1 - 12);
                    assert(spec_digits_value(s.skip(12)) > u32::MAX);
                });
            }
            return None;
        }
        val = val * 10 + d;
        i = i + 1;
    }
    proof {
        assert(s.subrange(12, s.len() as int) =~= s.skip(12));
    }
    Some(val)
}

/// Appends one digit character to the string.
fn append_digit_char(s: &mut String, d: u32)
    requires
        d < 10,
    ensures
        final(s)@ == old(s)@.push(spec_digit_char(d as nat)),
{
    if d == 0 {
        proof {
            reveal_strlit("0");
        }
        s.append("0");
        proof {
            assert(old(s)@ + "0"@ =~= old(s)@.push('0'));
        }
    } else if d == 1 {
        proof {
            reveal_strlit("1");
        }
        s.append("1");
        proof {
            assert(old(s)@ + "1"@ =~= old(s)@.push('1'));
        }
    } else if d == 2 {
        proof {
            reveal_strlit("2");
        }
        s.append("2");
        proof {
            assert(old(s)@ + "2"@ =~= old(s)@.push('2'));
        }
    } else if d == 3 {
        proof {
            reveal_strlit("3");
        }
        s.append("3");
        proof {
            assert(old(s)@ + "3"@ =~= old(s)@.push('3'));
        }
    } else if d == 4 {
        proof {
            reveal_strlit("4");
        }
        s.append("4");
        proof {
            assert(old(s)@ + "4"@ =~= old(s)@.push('4'));
        }
    } else if d == 5 {
        proof {
            reveal_strlit("5");
        }
        s.append("5");
        proof {
            assert(old(s)@ + "5"@ =~= old(s)@.push('5'));
        }
    } else if d == 6 {
        proof {
            reveal_strlit("6");
        }
        s.append("6");
        proof {
            assert(old(s)@ + "6"@ =~= old(s)@.push('6'));
        }
    } else if d == 7 {
        proof {
            reveal_strlit("7");
        }
        s.append("7");
        proof {
            assert(old(s)@ + "7"@ =~= old(s)@.push('7'));
        }
    } else if d == 8 {
        proof {
            reveal_strlit("8");
        }
        s.append("8");
        proof {
            assert(old(s)@ + "8"@ =~= old(s)@.push('8'));
        }
    } else {
        proof {
            reveal_strlit("9");
        }
        s.append("9");
        proof {
            assert(old(s)@ + "9"@ =~= old(s)@.push('9'));
        }
    }
}

/// Appends the canonical decimal spelling of `n` to the string.
fn append_decimal(s: &mut String, n: u32)
    ensures
        final(s)@ == old(s)@ + spec_decimal(n as nat),
    decreases n,
{
    if n >= 10 {
        append_decimal(s, n / 10);
        append_digit_char(s, n % 10);
        proof {
            assert(old(s)@ + spec_decimal((n / 10) as nat).push(spec_digit_char((n % 10) as nat))
                =~= (old(s)@ + spec_decimal((n / 10) as nat)).push(
                spec_digit_char((n % 10) as nat),
            ));
        }
    } else {
        append_digit_char(s, n);
        proof {
            assert(old(s)@.push(spec_digit_char(n as nat)) =~= old(s)@ + spec_decimal(n as nat));
        }
    }
}

/// The canonical cache filename of sequence number `index`.
pub fn tx_filename_for(index: u32) -> (s: String)
    ensures
        s@ == spec_tx_filename(index as nat),
{
    let mut s = "transaction_".to_owned();
    proof {
        reveal_strlit("transaction_");
        assert(s@ =~= tx_prefix());
    }
    append_decimal(&mut s, index);
    s
}

/// The canonical decimal spelling is all digits, nonempty, and spells
/// its number.
pub proof fn lemma_decimal_digits(n: nat)
    ensures
        all_digits(spec_decimal(n)),
        spec_decimal(n).len() >= 1,
        spec_digits_value(spec_decimal(n)) == n,
    decreases n,
{
    if n < 10 {
        assert(spec_decimal(n) =~= Seq::empty().push(spec_digit_char(n)));
        lemma_digits_value_push(Seq::empty(), spec_digit_char(n));
    } else {
        lemma_decimal_digits(n / 10);
        lemma_digits_value_push(spec_decimal(n / 10), spec_digit_char(n % 10));
        assert forall|i: int| 0 <= i < spec_decimal(n).len() implies spec_is_digit(
            #[trigger] spec_decimal(n)[i],
        ) by {
            if i < spec_decimal(n / 10).len() {
                assert(spec_decimal(n)[i] == spec_decimal(n / 10)[i]);
            }
        }
    }
}

/// Round trip: the canonical filename of every 32-bit number matches the
/// pattern and parses back to the same number.
pub proof fn lemma_filename_round_trip(n: u32)
    ensures
        is_tx_filename(spec_tx_filename(n as nat)),
        tx_filename_number(spec_tx_filename(n as nat)) == n as nat,
{
    lemma_decimal_digits(n as nat);
    assert(spec_tx_filename(n as nat).take(12) =~= tx_prefix());
    assert(spec_tx_filename(n as nat).skip(12) =~= spec_decimal(n as nat));
}

/// One past the number of a matching filename; zero for any other name.
pub open spec fn slot_bound(s: Seq<char>) -> nat {
    if is_tx_filename(s) {
        tx_filename_number(s) + 1
    } else {
        0
    }
}

/// The next free sequence number of a directory listing: one past the
/// largest embedded number, zero when nothing matches.
pub open spec fn spec_next_seq(names: Seq<Seq<char>>) -> nat
    decreases names.len(),
{
    if names.len() == 0 {
        0
    } else {
        let rest = spec_next_seq(names.drop_last());
        let cur = slot_bound(names.last());
        if cur > rest {
            cur
        } else {
            rest
        }
    }
}

/// Scans a directory listing and returns the next free sequence number:
/// one past the largest number embedded in a matching filename, zero
/// when no name matches.
pub fn next_sequence_number(names: &Vec<String>) -> (r: u64)
    ensures
        r as nat == spec_next_seq(names@.map_values(|s: String| s@)),
{
    let ghost views = names@.map_values(|s: String| s@);
    let mut best: u64 = 0;
    let mut i: usize = 0;
    while i < names.len()
        invariant
            i <= names@.len(),
            views == names@.map_values(|s: String| s@),
            best as nat == spec_next_seq(views.take(i as int)),
            best <= 0x1_0000_0000,
        decreases names@.len() - i,
    {
        let bound: u64 = match parse_tx_filename(names[i].as_str()) {
            Some(n) => n as u64 + 1,
            None => 0,
        };
        proof {
            assert(views.take(i + 1).drop_last() =~= views.take(i as int));
            assert(views.take(i + 1).last() == views[i as int]);
            assert(slot_bound(views[i as int]) == bound as nat);
        }
        if bound > best {
            best = bound;
        }
        i = i + 1;
    }
    proof {
        assert(views.take(names@.len() as int) =~= views);
    }
    best
}

/// Nothing matching ever lowers the result below a member's bound.
proof fn lemma_next_seq_member(names: Seq<Seq<char>>, i: int)
    requires
        0 <= i < names.len(),
    ensures
        spec_next_seq(names) >= slot_bound(names[i]),
    decreases names.len(),
{
    if i + 1 < names.len() {
        lemma_next_seq_member(names.drop_last(), i);
    }
}

/// The result never exceeds every member's bound.
proof fn lemma_next_seq_upper(names: Seq<Seq<char>>, k: nat)
    requires
        forall|i: int| 0 <= i < names.len() ==> slot_bound(#[trigger] names[i]) <= k,
    ensures
        spec_next_seq(names) <= k,
    decreases names.len(),
{
    if names.len() > 0 {
        lemma_next_seq_upper(names.drop_last(), k);
    }
}

/// Sequence monotonicity: when the canonical filename of `k` is present
/// in the listing and no matching filename embeds a number above `k`,
/// the next free sequence number is exactly `k + 1`; an empty listing
/// yields zero.
pub proof fn lemma_sequence_monotonic(names: Seq<Seq<char>>, k: u32)
    requires
        exists|i: int|
            0 <= i < names.len() && #[trigger] names[i] == spec_tx_filename(k as nat),
        forall|i: int|
            0 <= i < names.len() ==> (is_tx_filename(#[trigger] names[i])
                ==> tx_filename_number(names[i]) <= k as nat),
    ensures
        spec_next_seq(names) == k as nat + 1,
{
    let i = choose|i: int|
        0 <= i < names.len() && #[trigger] names[i] == spec_tx_filename(k as nat);
    lemma_filename_round_trip(k);
    lemma_next_seq_member(names, i);
    lemma_next_seq_upper(names, (k + 1) as nat);
}

/// The canonical filenames for `count` sequence numbers starting at
/// `start`, in order.
pub fn persist_names(start: u64, count: usize) -> (names: Vec<String>)
    requires
        start + count <= 0x1_0000_0000,
    ensures
        names@.len() == count,
        forall|i: int|
            0 <= i < count ==> (#[trigger] names@[i])@ == spec_tx_filename((start + i) as nat),
{
    let mut names: Vec<String> = Vec::new();
    let mut i: usize = 0;
    while i < count
        invariant
            i <= count,
            start + count <= 0x1_0000_0000,
            names@.len() == i,
            forall|j: int|
                0 <= j < i ==> (#[trigger] names@[j])@ == spec_tx_filename((start + j) as nat),
        decreases count - i,
    {
        let index: u32 = (start + i as u64) as u32;
        proof {
            assert(start + i as u64 <= u32::MAX);
        }
        names.push(tx_filename_for(index));
        i = i + 1;
    }
    names
}

} // verus!

