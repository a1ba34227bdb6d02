//! The Internet checksum of RFC 1071, as `pnet` computes it.

use vstd::prelude::*;

verus! {

/// The longest message handed to the checksum routine: with no more words
/// than this their sum stays within 32 bits.
pub const MAX_CHECKSUM_LEN: usize = 0x2_0000;

/// The big-endian 16-bit word number `index` of `data`. A last odd byte is
/// the high byte of a word of its own; beyond the data every word is zero.
pub open spec fn be_word(data: Seq<u8>, index: int) -> int {
    if 0 <= index && 2 * index + 1 < data.len() {
        data[2 * index] * 256 + data[2 * index + 1]
    } else if 0 <= index && 2 * index < data.len() {
        data[2 * index] * 256
    } else {
        0
    }
}

/// How many words `data` holds, a last odd byte counted as one.
pub open spec fn word_count(data: Seq<u8>) -> nat {
    ((data.len() + 1) / 2) as nat
}

/// The sum of the first `count` words of `data`, word `skipword` left out.
pub open spec fn sum_be_words(data: Seq<u8>, skipword: int, count: nat) -> int
    decreases count,
{
    if count == 0 {
        0
    } else {
        sum_be_words(data, skipword, (count - 1) as nat) + if count - 1 == skipword {
            0
        } else {
            be_word(data, count - 1)
        }
    }
}

/// Adds what lies above bit 15 of `sum` to its low 16 bits, until nothing
/// lies above.
pub open spec fn fold_carries(sum: int) -> int
    decreases sum,
{
    if sum < 0x1_0000 {
        sum
    } else {
        fold_carries(sum / 0x1_0000 + sum % 0x1_0000)
    }
}

/// The checksum of `data` with word `skipword` taken as zero: the one's
/// complement of the folded sum of its words, and zero for empty data.
pub open spec fn internet_checksum(data: Seq<u8>, skipword: int) -> u16 {
    if data.len() == 0 {
        0
    } else {
        (0xFFFF - fold_carries(sum_be_words(data, skipword, word_count(data)))) as u16
    }
}

/// The checksum of all of `data`, no word left out. A message that carries
/// its own checksum is intact when this is zero.
pub open spec fn verification_sum(data: Seq<u8>) -> u16 {
    internet_checksum(data, -1)
}

/// `data` with `sum` written, high byte first, into word `word`.
pub open spec fn with_word(data: Seq<u8>, word: int, sum: u16) -> Seq<u8> {
    data.update(2 * word, (sum / 256) as u8).update(2 * word + 1, (sum % 256) as u8)
}

/// Calls `pnet::packet::util::checksum`. Believed of it: on at most
/// `MAX_CHECKSUM_LEN` bytes it returns the RFC 1071 checksum as
/// `internet_checksum` writes it down, with the word at `skipword` ignored.
/// Longer data is left out because the routine sums in 32 bits.
#[verifier::external_body]
pub(crate) fn checksum(data: &[u8], skipword: usize) -> (sum: u16)
    requires
        data@.len() <= MAX_CHECKSUM_LEN,
    ensures
        sum == internet_checksum(data@, skipword as int),
{
    pnet::packet::util::checksum(data, skipword)
}

/// The checksum of `data` with word `skipword` taken as zero, or `None` for
/// data longer than `MAX_CHECKSUM_LEN`.
pub fn checksum_of(data: &[u8], skipword: usize) -> (sum: Option<u16>)
    ensures
        sum == if data@.len() <= MAX_CHECKSUM_LEN {
            Some(internet_checksum(data@, skipword as int))
        } else {
            None
        },
{
    if data.len() <= MAX_CHECKSUM_LEN {
        Some(checksum(data, skipword))
    } else {
        None
    }
}

/// Folding brings a positive sum into `1..=0xFFFF` and keeps its remainder
/// modulo `0xFFFF`; zero stays zero.
pub proof fn lemma_fold_carries_value(sum: int)
    requires
        sum >= 0,
    ensures
        fold_carries(sum) == if sum == 0 {
            0
        } else {
            (sum - 1) % 0xFFFF + 1
        },
    decreases sum,
{
    if sum >= 0x1_0000 {
        let high = sum / 0x1_0000;
        let low = sum % 0x1_0000;
        let next = high + low;
        lemma_fold_carries_value(next);
        vstd::arithmetic::div_mod::lemma_mod_multiples_vanish(high, next - 1, 0xFFFF);
    }
}

/// Words other than the one that was written keep their value, and the
/// written word holds what was written.
proof fn lemma_with_word_words(data: Seq<u8>, word: int, sum: u16, index: int)
    requires
        0 <= word,
        2 * word + 1 < data.len(),
    ensures
        be_word(with_word(data, word, sum), index) == if index == word {
            sum as int
        } else {
            be_word(data, index)
        },
{
}

/// The sum over a message with one word written, in terms of the message
/// before: the sum without that word, plus what was written unless that word
/// is skipped, less the word that is skipped if it is another.
proof fn lemma_sum_with_word(data: Seq<u8>, word: int, sum: u16, skipword: int, count: nat)
    requires
        0 <= word,
        2 * word + 1 < data.len(),
    ensures
        sum_be_words(with_word(data, word, sum), skipword, count) == sum_be_words(
            data,
            word,
            count,
        ) + if word < count && skipword != word {
            sum as int
        } else {
            0
        } - if 0 <= skipword < count && skipword != word {
            be_word(data, skipword)
        } else {
            0
        },
    decreases count,
{
    if count > 0 {
        lemma_sum_with_word(data, word, sum, skipword, (count - 1) as nat);
        lemma_with_word_words(data, word, sum, count - 1);
    }
}

/// The sum of words is never negative.
proof fn lemma_sum_nonnegative(data: Seq<u8>, skipword: int, count: nat)
    ensures
        sum_be_words(data, skipword, count) >= 0,
    decreases count,
{
    if count > 0 {
        lemma_sum_nonnegative(data, skipword, (count - 1) as nat);
    }
}

/// A message that stores its own checksum verifies: once the checksum taken
/// with the field ignored is written into that field, the checksum over the
/// whole message is zero, and taking it again with the field ignored, or
/// with the field set to zero, gives what the field holds.
pub proof fn lemma_checksum_round_trip(data: Seq<u8>, field: int)
    requires
        0 <= field,
        2 * field + 1 < data.len(),
    ensures
        verification_sum(with_word(data, field, internet_checksum(data, field))) == 0,
        internet_checksum(with_word(data, field, internet_checksum(data, field)), field)
            == internet_checksum(data, field),
        verification_sum(
            with_word(with_word(data, field, internet_checksum(data, field)), field, 0),
        ) == internet_checksum(data, field),
{
    let stored = internet_checksum(data, field);
    let message = with_word(data, field, stored);
    let count = word_count(data);
    let partial = sum_be_words(data, field, count);
    lemma_sum_nonnegative(data, field, count);
    lemma_fold_carries_value(partial);
    lemma_sum_with_word(data, field, stored, -1, count);
    lemma_sum_with_word(data, field, stored, field, count);
    let total = sum_be_words(message, -1, count);
    lemma_sum_with_word(message, field, 0, -1, count);
    lemma_fold_carries_value(total);
    if partial > 0 {
        // partial - 1 is a multiple of 0xFFFF plus what folding leaves, less one.
        let multiple = (partial - 1) / 0xFFFF;
        vstd::arithmetic::div_mod::lemma_mod_multiples_vanish(multiple, 0xFFFE, 0xFFFF);
    }
}

} // verus!
