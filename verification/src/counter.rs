//! A counter without an upper limit, kept as its decimal numeral.

use crate::text::{decimal, digit_char, push_char};
use vstd::prelude::*;

verus! {

/// The next decimal digit character after `c`, for `c` below `'9'`.
pub open spec fn next_digit(c: char) -> char {
    if c == '0' {
        '1'
    } else if c == '1' {
        '2'
    } else if c == '2' {
        '3'
    } else if c == '3' {
        '4'
    } else if c == '4' {
        '5'
    } else if c == '5' {
        '6'
    } else if c == '6' {
        '7'
    } else if c == '7' {
        '8'
    } else {
        '9'
    }
}

/// The numeral that follows a numeral: trailing nines turn to zeros and the
/// digit before them is raised by one, or a one is put in front of them.
pub open spec fn successor(s: Seq<char>) -> Seq<char>
    decreases s.len(),
{
    if s.len() == 0 {
        seq!['1']
    } else if s.last() == '9' {
        successor(s.drop_last()).push('0')
    } else {
        s.drop_last().push(next_digit(s.last()))
    }
}

/// A run of `k` zero digits.
pub open spec fn zeros(k: nat) -> Seq<char> {
    Seq::new(k, |i: int| '0')
}

/// The successor of the numeral of `n` is the numeral of `n + 1`.
pub proof fn lemma_successor(n: nat)
    ensures
        successor(decimal(n)) == decimal(n + 1),
    decreases n,
{
    let s = decimal(n);
    if n < 10 {
        assert(s.drop_last() =~= Seq::<char>::empty());
        if n == 9 {
            assert(successor(s.drop_last()) =~= seq!['1']);
            assert(decimal(10) =~= decimal(1).push('0'));
            assert(successor(s) =~= decimal(10));
        } else {
            assert(successor(s) =~= decimal(n + 1));
        }
    } else {
        assert(s.drop_last() =~= decimal(n / 10));
        assert(s.last() == digit_char(n % 10));
        if n % 10 == 9 {
            lemma_successor(n / 10);
            assert((n + 1) / 10 == n / 10 + 1);
            assert((n + 1) % 10 == 0);
        } else {
            assert((n + 1) / 10 == n / 10);
            assert((n + 1) % 10 == n % 10 + 1);
        }
    }
}

/// Below a run of trailing nines the successor is taken of the part before
/// the run, and the run turns to zeros.
pub proof fn lemma_successor_trailing_nines(s: Seq<char>, i: int)
    requires
        0 <= i <= s.len(),
        forall|j: int| i <= j < s.len() ==> s[j] == '9',
    ensures
        successor(s) == successor(s.take(i)) + zeros((s.len() - i) as nat),
    decreases s.len() - i,
{
    if i == s.len() {
        assert(s.take(i) =~= s);
        assert(successor(s) + zeros(0) =~= successor(s));
    } else {
        let t = s.drop_last();
        lemma_successor_trailing_nines(t, i);
        assert(t.take(i) =~= s.take(i));
        assert((successor(s.take(i)) + zeros((t.len() - i) as nat)).push('0') =~= successor(
            s.take(i),
        ) + zeros((s.len() - i) as nat));
    }
}

/// Every character of a numeral is a decimal digit.
pub proof fn lemma_decimal_digits(n: nat, j: int)
    requires
        0 <= j < decimal(n).len(),
    ensures
        exists|d: nat| d < 10 && decimal(n)[j] == #[trigger] digit_char(d),
    decreases n,
{
    if n < 10 {
        assert(decimal(n)[j] == digit_char(n));
    } else {
        if j < decimal(n / 10).len() {
            lemma_decimal_digits(n / 10, j);
        } else {
            assert(decimal(n)[j] == digit_char(n % 10));
        }
    }
}

/// A counter that can always be raised: it holds the decimal numeral of its
/// value, most significant digit first.
pub struct Counter {
    digits: Vec<char>,
    value: Ghost<nat>,
}

impl View for Counter {
    type V = nat;

    closed spec fn view(&self) -> nat {
        self.value@
    }
}

impl Counter {
    /// The digits are the numeral of the value.
    #[verifier::type_invariant]
    spec fn wf(&self) -> bool {
        self.digits@ == decimal(self.value@)
    }

    /// A counter at zero.
    pub fn zero() -> (c: Counter)
        ensures
            c@ == 0,
    {
        let mut digits: Vec<char> = Vec::new();
        digits.push('0');
        assert(digits@ =~= decimal(0));
        Counter { digits, value: Ghost(0) }
    }

    /// Raises the counter by one.
    pub fn increment(&mut self)
        ensures
            final(self)@ == old(self)@ + 1,
    {
        proof {
            use_type_invariant(&*self);
        }
        let ghost start = self.digits@;
        let ghost n = self.value@;
        let mut digits: Vec<char> = self.digits.clone();
        assert(digits@ =~= start);
        let len = digits.len();
        let mut i: usize = len;
        while i > 0 && digits[i - 1] == '9'
            invariant
                0 <= i <= len,
                digits@.len() == len,
                start.len() == len,
                forall|j: int| i <= j < len ==> start[j] == '9',
                forall|j: int| i <= j < len ==> digits@[j] == '0',
                forall|j: int| 0 <= j < i ==> digits@[j] == start[j],
            decreases i,
        {
            digits[i - 1] = '0';
            i -= 1;
        }
        let ghost mid = digits@;
        proof {
            lemma_successor_trailing_nines(start, i as int);
            lemma_successor(n);
        }
        if i == 0 {
            digits.insert(0, '1');
            proof {
                assert(start.take(0) =~= Seq::<char>::empty());
                assert(successor(start.take(0)) =~= seq!['1']);
                assert forall|j: int| 1 <= j < len + 1 implies digits@[j] == '0' by {
                    assert(digits@[j] == mid[j - 1]);
                }
                assert(digits@ =~= seq!['1'] + zeros(len as nat));
            }
        } else {
            let c = digits[i - 1];
            proof {
                lemma_decimal_digits(n, i - 1);
            }
            let next = match c {
                '0' => '1',
                '1' => '2',
                '2' => '3',
                '3' => '4',
                '4' => '5',
                '5' => '6',
                '6' => '7',
                '7' => '8',
                _ => '9',
            };
            digits[i - 1] = next;
            proof {
                let head = start.take(i as int);
                assert(head.last() == c);
                assert forall|j: int| 0 <= j < len implies digits@[j] == (head.drop_last().push(
                    next_digit(c),
                ) + zeros((len - i) as nat))[j] by {
                    if j != i - 1 {
                        assert(digits@[j] == mid[j]);
                    }
                }
                assert(digits@ =~= head.drop_last().push(next_digit(c)) + zeros((len - i) as nat));
            }
        }
        *self = Counter { digits, value: Ghost((n + 1) as nat) };
    }

    /// Appends the numeral of the counter's value to `out`.
    pub fn push_to(&self, out: &mut String)
        ensures
            final(out)@ == old(out)@ + decimal(self@),
    {
        proof {
            use_type_invariant(self);
        }
        let mut i: usize = 0;
        assert(old(out)@ + self.digits@.take(0) =~= old(out)@);
        while i < self.digits.len()
            invariant
                i <= self.digits.len(),
                out@ == old(out)@ + self.digits@.take(i as int),
            decreases self.digits.len() - i,
        {
            push_char(out, self.digits[i]);
            assert((old(out)@ + self.digits@.take(i as int)).push(self.digits@[i as int]) =~= old(
                out,
            )@ + self.digits@.take(i + 1));
            i += 1;
        }
        assert(self.digits@.take(i as int) =~= self.digits@);
    }
}

} // verus!
