//! A counter that never runs out: a natural number kept as its decimal
//! digits.

use vstd::prelude::*;
use vstd::string::StringExecFns;
use crate::text::{decimal, digit, digit_text};

verus! {

/// The number that a run of digits denotes, most significant digit first.
pub open spec fn digits_value(digits: Seq<u8>) -> nat
    decreases digits.len(),
{
    if digits.len() == 0 {
        0
    } else {
        digits_value(digits.drop_last()) * 10 + digits.last() as nat
    }
}

/// The characters that write a run of digits.
pub open spec fn digits_text(digits: Seq<u8>) -> Seq<char> {
    Seq::new(digits.len(), |i: int| digit(digits[i] as nat))
}

/// A run of digits is the numeral of a number: it is not empty, each digit
/// is below ten, and it starts with zero only where it is zero.
pub open spec fn is_numeral(digits: Seq<u8>) -> bool {
    &&& digits.len() >= 1
    &&& forall|i: int| 0 <= i < digits.len() ==> #[trigger] digits[i] < 10
    &&& digits.len() > 1 ==> digits[0] != 0
}

/// A numeral of more than one digit denotes ten or more.
proof fn lemma_long_numeral(digits: Seq<u8>)
    requires
        is_numeral(digits),
        digits.len() > 1,
    ensures
        digits_value(digits) >= 10,
        digits_value(digits.drop_last()) >= 1,
    decreases digits.len(),
{
    let front = digits.drop_last();
    if front.len() > 1 {
        assert(front[0] == digits[0]);
        assert forall|i: int| 0 <= i < front.len() implies #[trigger] front[i] < 10 by {
            assert(front[i] == digits[i]);
        }
        lemma_long_numeral(front);
    } else {
        assert(front[0] == digits[0]);
        assert(front.drop_last() =~= Seq::<u8>::empty());
        assert(digits_value(front.drop_last()) == 0);
        assert(digits_value(front) == front.last() as nat);
    }
}

/// The characters of a numeral are the decimal numeral of its number.
pub proof fn lemma_numeral_text(digits: Seq<u8>)
    requires
        is_numeral(digits),
    ensures
        digits_text(digits) == decimal(digits_value(digits)),
    decreases digits.len(),
{
    let front = digits.drop_last();
    let n = digits_value(digits);
    if digits.len() == 1 {
        assert(front =~= Seq::<u8>::empty());
        assert(digits_value(front) == 0);
        assert(digits_text(digits) =~= seq![digit(digits[0] as nat)]);
    } else {
        lemma_long_numeral(digits);
        assert(front[0] == digits[0]);
        assert forall|i: int| 0 <= i < front.len() implies #[trigger] front[i] < 10 by {
            assert(front[i] == digits[i]);
        }
        lemma_numeral_text(front);
        assert(n / 10 == digits_value(front));
        assert(n % 10 == digits.last() as nat);
        assert(digits_text(digits) =~= digits_text(front).push(digit(digits.last() as nat)));
    }
}

/// Writing one more digit behind a run multiplies by ten and adds the
/// digit.
proof fn lemma_value_push(digits: Seq<u8>, last: u8)
    ensures
        digits_value(digits.push(last)) == digits_value(digits) * 10 + last as nat,
{
    assert(digits.push(last).drop_last() =~= digits);
}

/// Where the nines at the end of a run turn to zeros and what stands before
/// them counts one up, the whole counts one up.
proof fn lemma_carry(before: Seq<u8>, after: Seq<u8>, from: int)
    requires
        before.len() == after.len(),
        0 <= from <= before.len(),
        digits_value(after.take(from)) == digits_value(before.take(from)) + 1,
        forall|i: int| from <= i < before.len() ==> before[i] == 9 && after[i] == 0,
    ensures
        digits_value(after) == digits_value(before) + 1,
    decreases before.len() - from,
{
    if from == before.len() {
        assert(before.take(from) =~= before);
        assert(after.take(from) =~= after);
    } else {
        lemma_value_push(before.take(from), before[from]);
        lemma_value_push(after.take(from), after[from]);
        assert(before.take(from + 1) =~= before.take(from).push(before[from]));
        assert(after.take(from + 1) =~= after.take(from).push(after[from]));
        lemma_carry(before, after, from + 1);
    }
}

/// A natural number that can always be counted up.
#[derive(Debug)]
pub struct Counter {
    digits: Vec<u8>,
}

impl View for Counter {
    type V = nat;

    closed spec fn view(&self) -> nat {
        digits_value(self.digits@)
    }
}

impl Counter {
    /// What holds of every counter: its digits are a numeral.
    #[verifier::type_invariant]
    spec fn digits_are_a_numeral(&self) -> bool {
        is_numeral(self.digits@)
    }

    /// A counter at zero.
    pub fn new() -> (counter: Counter)
        ensures
            counter@ == 0,
    {
        let mut digits: Vec<u8> = Vec::new();
        digits.push(0);
        assert(digits@.drop_last() =~= Seq::<u8>::empty());
        assert(digits_value(digits@.drop_last()) == 0);
        Counter { digits }
    }

    /// The number as a decimal numeral.
    pub fn text(&self) -> (text: String)
        ensures
            text@ == decimal(self@),
    {
        proof {
            use_type_invariant(self);
        }
        let mut text = String::new();
        let mut i: usize = 0;
        while i < self.digits.len()
            invariant
                is_numeral(self.digits@),
                i <= self.digits.len(),
                text@ == digits_text(self.digits@.take(i as int)),
            decreases self.digits.len() - i,
        {
            text.append(digit_text(self.digits[i] as usize));
            assert(text@ =~= digits_text(self.digits@.take(i + 1)));
            i += 1;
        }
        proof {
            assert(self.digits@.take(i as int) =~= self.digits@);
            lemma_numeral_text(self.digits@);
        }
        text
    }

    /// Counts one up.
    pub fn bump(&mut self)
        ensures
            final(self)@ == old(self)@ + 1,
    {
        proof {
            use_type_invariant(&*self);
        }
        let ghost before = self.digits@;
        let mut digits = self.digits.clone();
        assert(digits@ =~= before);
        let mut i: usize = digits.len();
        while i > 0 && digits[i - 1] == 9
            invariant
                i <= digits.len(),
                digits@.len() == before.len(),
                is_numeral(before),
                forall|j: int| 0 <= j < i ==> digits@[j] == before[j],
                forall|j: int| i <= j < before.len() ==> before[j] == 9 && digits@[j] == 0,
            decreases i,
        {
            digits[i - 1] = 0;
            i -= 1;
        }
        if i == 0 {
            let ghost zeros = digits@;
            digits.insert(0, 1);
            proof {
                let after = digits@;
                let nines = seq![0u8] + before;
                assert(after.len() == nines.len());
                assert(after.take(1) =~= seq![1u8]);
                assert(nines.take(1) =~= seq![0u8]);
                assert(seq![1u8].drop_last() =~= Seq::<u8>::empty());
                assert(seq![0u8].drop_last() =~= Seq::<u8>::empty());
                assert(digits_value(Seq::<u8>::empty()) == 0);
                assert(digits_value(after.take(1)) == 1);
                assert(digits_value(nines.take(1)) == 0);
                assert forall|j: int| 1 <= j < nines.len() implies nines[j] == 9 && after[j]
                    == 0 by {
                    assert(nines[j] == before[j - 1]);
                    assert(after[j] == zeros[j - 1]);
                }
                lemma_carry(nines, after, 1);
                lemma_leading_zero(before);
                assert forall|j: int| 0 <= j < after.len() implies #[trigger] after[j] < 10 by {
                    if j > 0 {
                        assert(after[j] == zeros[j - 1]);
                    }
                }
            }
        } else {
            let ghost mid = digits@;
            let d = digits[i - 1];
            assert(d == before[i as int - 1] && before[i as int - 1] < 10);
            digits[i - 1] = d + 1;
            proof {
                let after = digits@;
                let at = i as int - 1;
                assert(before.take(i as int) =~= before.take(at).push(before[at]));
                assert(after.take(i as int) =~= before.take(at).push((d + 1) as u8));
                lemma_value_push(before.take(at), before[at]);
                lemma_value_push(before.take(at), (d + 1) as u8);
                lemma_carry(before, after, i as int);
                assert forall|j: int| 0 <= j < after.len() implies #[trigger] after[j] < 10 by {
                    if j < at {
                        assert(after[j] == mid[j]);
                        assert(mid[j] == before[j]);
                        assert(before[j] < 10);
                    } else if j > at {
                        assert(after[j] == mid[j]);
                        assert(mid[j] == 0);
                    }
                }
                assert(after.len() > 1 ==> after[0] != 0) by {
                    if at > 0 {
                        assert(after[0] == before[0]);
                    }
                }
            }
        }
        self.digits = digits;
    }
}

/// A zero written in front of a run changes nothing of what it denotes.
proof fn lemma_leading_zero(digits: Seq<u8>)
    ensures
        digits_value(seq![0u8] + digits) == digits_value(digits),
    decreases digits.len(),
{
    let whole = seq![0u8] + digits;
    if digits.len() == 0 {
        assert(whole =~= seq![0u8]);
        assert(whole.drop_last() =~= Seq::<u8>::empty());
        assert(digits_value(whole.drop_last()) == 0);
    } else {
        assert(whole.drop_last() =~= seq![0u8] + digits.drop_last());
        lemma_leading_zero(digits.drop_last());
    }
}

} // verus!
