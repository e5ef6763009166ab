use vstd::prelude::*;

use crate::config::{lemma_decimal_digits, lemma_parse_decimal_round_trip, parsed_thread_count};

verus! {

/// The character of the decimal digit `d` (`d < 10`).
pub open spec fn digit_char(d: nat) -> char {
    (d + ('0' as nat)) as char
}

/// The decimal representation of `n`, most significant digit first,
/// without leading zeros (`0` is written as a single digit).
pub open spec fn decimal(n: nat) -> Seq<char>
    decreases n,
{
    if n < 10 {
        seq![digit_char(n)]
    } else {
        decimal(n / 10) + seq![digit_char(n % 10)]
    }
}

/// The name given to the `index`-th worker thread when no naming function
/// was configured.
pub open spec fn thread_name(index: nat) -> Seq<char> {
    "async-global-executor-"@ + decimal(index)
}

fn digit_str(d: usize) -> (s: &'static str)
    requires
        d < 10,
    ensures
        s@ == seq![digit_char(d as nat)],
{
    proof {
        reveal_strlit("0");
        reveal_strlit("1");
        reveal_strlit("2");
        reveal_strlit("3");
        reveal_strlit("4");
        reveal_strlit("5");
        reveal_strlit("6");
        reveal_strlit("7");
        reveal_strlit("8");
        reveal_strlit("9");
    }
    if d == 0 {
        "0"
    } else if d == 1 {
        "1"
    } else if d == 2 {
        "2"
    } else if d == 3 {
        "3"
    } else if d == 4 {
        "4"
    } else if d == 5 {
        "5"
    } else if d == 6 {
        "6"
    } else if d == 7 {
        "7"
    } else if d == 8 {
        "8"
    } else {
        "9"
    }
}

/// Writes `n` in decimal.
pub fn decimal_string(n: usize) -> (s: String)
    ensures
        s@ == decimal(n as nat),
    decreases n,
{
    if n < 10 {
        String::from_str(digit_str(n))
    } else {
        let mut s = decimal_string(n / 10);
        s.append(digit_str(n % 10));
        s
    }
}

/// The default name of a worker thread: `async-global-executor-` followed by
/// the thread's index in decimal.
pub fn default_thread_name(index: usize) -> (s: String)
    ensures
        s@ == thread_name(index as nat),
{
    proof {
        reveal_strlit("async-global-executor-");
    }
    let mut s = String::from_str("async-global-executor-");
    let digits = decimal_string(index);
    s.append(digits.as_str());
    s
}

/// Hands out the default names of worker threads, numbering them from 1.
pub struct ThreadNamer {
    next: usize,
}

impl View for ThreadNamer {
    type V = usize;

    /// The index the next name carries.
    closed spec fn view(&self) -> usize {
        self.next
    }
}

impl ThreadNamer {
    /// A namer whose first name carries the index 1.
    pub fn new() -> (r: Self)
        ensures
            r@ == 1,
    {
        ThreadNamer { next: 1 }
    }

    /// The index the next name carries.
    pub fn next_index(&self) -> (r: usize)
        ensures
            r == self@,
    {
        self.next
    }

    /// The default name for the next thread: it carries the current index,
    /// and the index moves on by one, wrapping around to 0 after the largest
    /// `usize`.
    pub fn next_name(&mut self) -> (r: String)
        ensures
            r@ == thread_name(old(self)@ as nat),
            final(self)@ == if old(self)@ == usize::MAX {
                0
            } else {
                (old(self)@ + 1) as usize
            },
    {
        let name = default_thread_name(self.next);
        self.next = if self.next == usize::MAX {
            0
        } else {
            self.next + 1
        };
        name
    }
}

proof fn lemma_digit_char_injective(a: nat, b: nat)
    requires
        a < 10,
        b < 10,
        digit_char(a) == digit_char(b),
    ensures
        a == b,
{
    assert(digit_char(a) as int == a + '0' as int);
    assert(digit_char(b) as int == b + '0' as int);
}

proof fn lemma_decimal_len(n: nat)
    ensures
        decimal(n).len() >= 1,
        n >= 10 ==> decimal(n).len() >= 2,
    decreases n,
{
    if n >= 10 {
        lemma_decimal_len(n / 10);
    }
}

/// Different numbers are written differently.
pub proof fn lemma_decimal_injective(a: nat, b: nat)
    requires
        decimal(a) == decimal(b),
    ensures
        a == b,
    decreases a,
{
    lemma_decimal_len(a);
    lemma_decimal_len(b);
    if a < 10 && b < 10 {
        assert(decimal(a) == seq![digit_char(a)]);
        assert(decimal(b) == seq![digit_char(b)]);
        assert(decimal(a)[0] == digit_char(a));
        assert(decimal(b)[0] == digit_char(b));
        lemma_digit_char_injective(a, b);
    } else if a >= 10 && b >= 10 {
        let da = decimal(a);
        let db = decimal(b);
        assert(da.last() == digit_char(a % 10));
        assert(db.last() == digit_char(b % 10));
        lemma_digit_char_injective(a % 10, b % 10);
        assert(da.drop_last() =~= decimal(a / 10));
        assert(db.drop_last() =~= decimal(b / 10));
        lemma_decimal_injective(a / 10, b / 10);
    }
}

/// Threads named by default with different indices get different names.
pub proof fn lemma_thread_names_distinct(i: nat, j: nat)
    requires
        i != j,
    ensures
        thread_name(i) != thread_name(j),
{
    let p = "async-global-executor-"@;
    if thread_name(i) == thread_name(j) {
        assert(thread_name(i).subrange(p.len() as int, thread_name(i).len() as int) =~= decimal(i));
        assert(thread_name(j).subrange(p.len() as int, thread_name(j).len() as int) =~= decimal(j));
        lemma_decimal_injective(i, j);
    }
}

/// A default thread name is `async-global-executor-` followed by text that
/// reads back as the thread's index.
pub proof fn lemma_thread_name_reads_back(i: usize)
    ensures
        thread_name(i as nat).len() > 22,
        thread_name(i as nat).take(22) == "async-global-executor-"@,
        parsed_thread_count(thread_name(i as nat).skip(22)) == Some(i),
{
    reveal_strlit("async-global-executor-");
    let p = "async-global-executor-"@;
    assert(p.len() == 22);
    lemma_decimal_digits(i as nat);
    assert(thread_name(i as nat).take(22) =~= p);
    assert(thread_name(i as nat).skip(22) =~= decimal(i as nat));
    lemma_parse_decimal_round_trip(i);
}

} // verus!
