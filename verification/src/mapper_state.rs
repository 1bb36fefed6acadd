//! The state shared by all transforms of one run: a counter for fresh names
//! and the stack of loops and labels that `continue` statements may target.

use vstd::prelude::*;

verus! {

/// The decimal digit for `d < 10`.
pub open spec fn digit_char(d: nat) -> char {
    if d == 0 { '0' }
    else if d == 1 { '1' }
    else if d == 2 { '2' }
    else if d == 3 { '3' }
    else if d == 4 { '4' }
    else if d == 5 { '5' }
    else if d == 6 { '6' }
    else if d == 7 { '7' }
    else if d == 8 { '8' }
    else { '9' }
}

/// The decimal representation of `n`, without leading zeros.
pub open spec fn decimal(n: nat) -> Seq<char>
    decreases n,
{
    if n < 10 {
        seq![digit_char(n)]
    } else {
        decimal(n / 10) + seq![digit_char(n % 10)]
    }
}

/// The prefix of every generated name.
pub open spec fn fresh_prefix() -> Seq<char> {
    seq!['$', 'z', 'e', 'r', 'o', 'S', 'u', 'g', 'a', 'r']
}

/// The name generated for counter value `n`: `$zeroSugar<n>`.
/// It is a valid identifier and a valid label.
pub open spec fn ident_name(n: nat) -> Seq<char> {
    fresh_prefix() + decimal(n)
}

/// The one-character string of the digit `d`.
fn digit_str(d: u128) -> (s: &'static str)
    requires
        d < 10,
    ensures
        s@ == seq![digit_char(d as nat)],
{
    if d == 0 {
        proof {
            reveal_strlit("0");
        }
        "0"
    } else if d == 1 {
        proof {
            reveal_strlit("1");
        }
        "1"
    } else if d == 2 {
        proof {
            reveal_strlit("2");
        }
        "2"
    } else if d == 3 {
        proof {
            reveal_strlit("3");
        }
        "3"
    } else if d == 4 {
        proof {
            reveal_strlit("4");
        }
        "4"
    } else if d == 5 {
        proof {
            reveal_strlit("5");
        }
        "5"
    } else if d == 6 {
        proof {
            reveal_strlit("6");
        }
        "6"
    } else if d == 7 {
        proof {
            reveal_strlit("7");
        }
        "7"
    } else if d == 8 {
        proof {
            reveal_strlit("8");
        }
        "8"
    } else {
        proof {
            reveal_strlit("9");
        }
        "9"
    }
}

/// The decimal representation of `n`, built digit by digit.
pub(crate) fn decimal_string(n: u128) -> (s: String)
    ensures
        s@ == decimal(n as nat),
    decreases n,
{
    if n < 10 {
        let mut s = String::new();
        s.append(digit_str(n));
        proof {
            assert(s@ =~= decimal(n as nat));
        }
        s
    } else {
        let mut s = decimal_string(n / 10);
        s.append(digit_str(n % 10));
        proof {
            assert(s@ =~= decimal(n as nat));
        }
        s
    }
}

/// The string `$zeroSugar<n>`.
pub fn ident_name_string(n: usize) -> (s: String)
    ensures
        s@ == ident_name(n as nat),
{
    let mut s = String::from_str("$zeroSugar");
    proof {
        reveal_strlit("$zeroSugar");
    }
    let d = decimal_string(n as u128);
    s.append(d.as_str());
    s
}

/// The counter after one fresh name was taken.
pub open spec fn next_counter(n: usize) -> usize {
    if n < usize::MAX { (n + 1) as usize } else { 0 }
}

/// The state of one run of the transforms.
pub struct MapperState {
    /// The counter from which the next fresh name is made.
    pub id_counter: usize,
    /// The loops and labels around the current statement, innermost last.
    /// A loop is entered as `#loop`, a label by its name. The second part is
    /// the label that was generated for `continue` statements targeting that
    /// loop, if any; the loop's body is wrapped in that label when it is left.
    pub continue_targets: Vec<(String, Option<String>)>,
}

impl MapperState {
    /// A state with counter 0 and no enclosing loops.
    pub fn new() -> (s: MapperState)
        ensures
            s.id_counter == 0,
            s.continue_targets@.len() == 0,
    {
        MapperState { id_counter: 0, continue_targets: Vec::new() }
    }

    /// Returns `$zeroSugar<n>` for the current counter `n` and increments the
    /// counter (wrapping at `usize::MAX`), so that calls yield names not
    /// returned before.
    pub fn next_ident_name(&mut self) -> (name: String)
        ensures
            name@ == ident_name(old(self).id_counter as nat),
            final(self).id_counter == next_counter(old(self).id_counter),
            final(self).continue_targets@ == old(self).continue_targets@,
    {
        let id = self.id_counter;
        self.id_counter = id.wrapping_add(1);
        ident_name_string(id)
    }
}

/// Different digits are different characters.
proof fn lemma_digit_injective(a: nat, b: nat)
    requires
        a < 10,
        b < 10,
        digit_char(a) == digit_char(b),
    ensures
        a == b,
{
}

/// A decimal representation is never empty.
pub proof fn lemma_decimal_nonempty(n: nat)
    ensures
        decimal(n).len() >= 1,
    decreases n,
{
    if n >= 10 {
        lemma_decimal_nonempty(n / 10);
    }
}

/// Different numbers have different decimal representations.
pub proof fn lemma_decimal_injective(a: nat, b: nat)
    requires
        decimal(a) == decimal(b),
    ensures
        a == b,
    decreases a,
{
    if a < 10 && b < 10 {
        assert(decimal(a)[0] == digit_char(a));
        assert(decimal(b)[0] == digit_char(b));
        lemma_digit_injective(a, b);
    } else if a < 10 {
        lemma_decimal_nonempty(b / 10);
        assert(decimal(b).len() >= 2);
    } else if b < 10 {
        lemma_decimal_nonempty(a / 10);
        assert(decimal(a).len() >= 2);
    } else {
        let da = decimal(a / 10);
        let db = decimal(b / 10);
        assert(decimal(a).len() == da.len() + 1);
        assert(decimal(b).len() == db.len() + 1);
        assert(decimal(a)[da.len() as int] == digit_char(a % 10));
        assert(decimal(b)[db.len() as int] == digit_char(b % 10));
        lemma_digit_injective(a % 10, b % 10);
        assert(da =~= decimal(a).subrange(0, da.len() as int));
        assert(db =~= decimal(b).subrange(0, db.len() as int));
        lemma_decimal_injective(a / 10, b / 10);
    }
}

/// Law: fresh names never repeat. The names that successive calls of
/// `next_ident_name` hand out from counter `n` (`ident_name(n)`, ...,
/// `ident_name(n + k - 1)` for `k` calls, each call's contract giving the
/// name of the counter and the next counter) are pairwise distinct.
pub proof fn lemma_fresh_names_distinct(n: nat, k: nat)
    ensures
        forall|a: nat, b: nat| n <= a < n + k && n <= b < n + k && a != b ==> #[trigger] ident_name(a) != #[trigger] ident_name(b),
{
    assert forall|a: nat, b: nat| n <= a < n + k && n <= b < n + k && a != b implies #[trigger] ident_name(a) != #[trigger] ident_name(b) by {
        if ident_name(a) == ident_name(b) {
            lemma_ident_name_injective(a, b);
        }
    }
}

/// Law: generated names are distinct for distinct counter values, so no two
/// calls of `next_ident_name` on one state return the same name.
pub proof fn lemma_ident_name_injective(a: nat, b: nat)
    requires
        ident_name(a) == ident_name(b),
    ensures
        a == b,
{
    let p = fresh_prefix();
    assert(decimal(a) =~= ident_name(a).subrange(p.len() as int, ident_name(a).len() as int));
    assert(decimal(b) =~= ident_name(b).subrange(p.len() as int, ident_name(b).len() as int));
    lemma_decimal_injective(a, b);
}

} // verus!
