use vstd::prelude::*;
use crate::position_set::PositionSet;
use crate::types::{RobertKnowledge, RobertStatus};

verus! {

/// The character of a decimal digit.
pub open spec fn digit_char(d: nat) -> char {
    if d == 0 {
        '0'
    } else if d == 1 {
        '1'
    } else if d == 2 {
        '2'
    } else if d == 3 {
        '3'
    } else if d == 4 {
        '4'
    } else if d == 5 {
        '5'
    } else if d == 6 {
        '6'
    } else if d == 7 {
        '7'
    } else if d == 8 {
        '8'
    } else {
        '9'
    }
}

/// `n` written in decimal, without leading zeros.
pub open spec fn decimal(n: nat) -> Seq<char>
    decreases n,
{
    if n < 10 {
        seq![digit_char(n)]
    } else {
        decimal(n / 10) + seq![digit_char(n % 10)]
    }
}

/// The text of a single digit.
fn digit_text(d: usize) -> (s: &'static str)
    requires
        d < 10,
    ensures
        s@ == seq![digit_char(d as nat)],
{
    proof {
        reveal_strlit("0");
        reveal_strlit("1");
        reveal_strlit("2");
        reveal_strlit("3");
        reveal_strlit("4");
        reveal_strlit("5");
        reveal_strlit("6");
        reveal_strlit("7");
        reveal_strlit("8");
        reveal_strlit("9");
    }
    if d == 0 {
        "0"
    } else if d == 1 {
        "1"
    } else if d == 2 {
        "2"
    } else if d == 3 {
        "3"
    } else if d == 4 {
        "4"
    } else if d == 5 {
        "5"
    } else if d == 6 {
        "6"
    } else if d == 7 {
        "7"
    } else if d == 8 {
        "8"
    } else {
        "9"
    }
}

/// Appends `n` in decimal to `s`.
fn push_decimal(s: &mut String, n: usize)
    ensures
        final(s)@ == old(s)@ + decimal(n as nat),
    decreases n,
{
    if n < 10 {
        s.append(digit_text(n));
    } else {
        push_decimal(s, n / 10);
        s.append(digit_text(n % 10));
    }
}

/// The positions written as `(row,column) ` one after the other.
pub open spec fn listing(ps: Seq<(usize, usize)>) -> Seq<char>
    decreases ps.len(),
{
    if ps.len() == 0 {
        Seq::empty()
    } else {
        let p = ps.last();
        listing(ps.drop_last()) + "("@ + decimal(p.0 as nat) + ","@ + decimal(p.1 as nat) + ") "@
    }
}

/// Appends the listing of `positions` to `s`.
fn push_listing(s: &mut String, positions: &PositionSet)
    ensures
        final(s)@ == old(s)@ + listing(positions.order()),
{
    let ps = positions.to_vec();
    let mut i: usize = 0;
    while i < ps.len()
        invariant
            i <= ps@.len(),
            ps@ == positions.order(),
            s@ == old(s)@ + listing(ps@.subrange(0, i as int)),
        decreases ps@.len() - i,
    {
        let p = ps[i];
        let ghost before = s@;
        s.append("(");
        push_decimal(s, p.0);
        s.append(",");
        push_decimal(s, p.1);
        s.append(") ");
        proof {
            let sub = ps@.subrange(0, i + 1);
            assert(sub.drop_last() =~= ps@.subrange(0, i as int));
            assert(sub.last() == p);
            assert(s@ =~= old(s)@ + listing(sub));
        }
        i = i + 1;
    }
    assert(ps@.subrange(0, ps@.len() as int) =~= ps@);
}

/// The text that describes Robert's status.
pub open spec fn status_text(hunger: usize, thirst: usize) -> Seq<char> {
    "Robert Status: [hunger = "@ + decimal(hunger as nat) + ", thirst="@ + decimal(thirst as nat) + "]"@
}

/// The text that describes what Robert knows of zombies and buildings.
pub open spec fn knowledge_text(zombies: Seq<(usize, usize)>, shelters: Seq<(usize, usize)>) -> Seq<char> {
    "Robert Knowledge:\n["@ + (if zombies.len() == 0 {
        "No zombie found, "@
    } else {
        " zombies "@ + decimal(zombies.len()) + " found: "@ + listing(zombies) + ",  "@
    }) + (if shelters.len() == 0 {
        "No shelter found]"@
    } else {
        " buildings "@ + decimal(shelters.len()) + " found: "@ + listing(shelters) + "]"@
    })
}

impl RobertStatus {
    /// `Robert Status: [hunger = H, thirst=T]`.
    pub fn to_string(&self) -> (s: String)
        ensures
            s@ == status_text(self.hunger, self.thirst),
    {
        let mut s = String::from_str("Robert Status: [hunger = ");
        push_decimal(&mut s, self.hunger);
        s.append(", thirst=");
        push_decimal(&mut s, self.thirst);
        s.append("]");
        s
    }
}

impl RobertKnowledge {
    /// The zombies and the buildings Robert knows of, with their counts and
    /// positions in the order in which they were found.
    pub fn to_string(&self) -> (s: String)
        ensures
            s@ == knowledge_text(self.zombies.order(), self.shelters.order()),
    {
        let mut s = String::from_str("Robert Knowledge:\n[");
        let nz = self.zombies.len();
        let ns = self.shelters.len();
        if nz == 0 {
            s.append("No zombie found, ");
        } else {
            s.append(" zombies ");
            push_decimal(&mut s, nz);
            s.append(" found: ");
            push_listing(&mut s, &self.zombies);
            s.append(",  ");
        }
        if ns == 0 {
            s.append("No shelter found]");
        } else {
            s.append(" buildings ");
            push_decimal(&mut s, ns);
            s.append(" found: ");
            push_listing(&mut s, &self.shelters);
            s.append("]");
        }
        s
    }
}

/// The numbers separated by a comma and a space.
pub open spec fn joined(ns: Seq<usize>) -> Seq<char>
    decreases ns.len(),
{
    if ns.len() == 0 {
        Seq::empty()
    } else if ns.len() == 1 {
        decimal(ns[0] as nat)
    } else {
        joined(ns.drop_last()) + ", "@ + decimal(ns.last() as nat)
    }
}

/// A list of numbers in brackets, as `[1, 2, 3]`.
pub open spec fn numbers_text(ns: Seq<usize>) -> Seq<char> {
    "["@ + joined(ns) + "]"@
}

/// The rows written as lists, separated by a comma and a space.
pub open spec fn joined_rows(rows: Seq<Vec<usize>>) -> Seq<char>
    decreases rows.len(),
{
    if rows.len() == 0 {
        Seq::empty()
    } else if rows.len() == 1 {
        numbers_text(rows[0]@)
    } else {
        joined_rows(rows.drop_last()) + ", "@ + numbers_text(rows.last()@)
    }
}

/// A list of lists of numbers, as `[[1, 2], [3, 4]]`.
pub open spec fn rows_text(rows: Seq<Vec<usize>>) -> Seq<char> {
    "["@ + joined_rows(rows) + "]"@
}

/// Appends the numbers, separated by a comma and a space, to `s`.
fn push_joined(s: &mut String, ns: &Vec<usize>)
    ensures
        final(s)@ == old(s)@ + joined(ns@),
{
    let mut i: usize = 0;
    while i < ns.len()
        invariant
            i <= ns@.len(),
            s@ == old(s)@ + joined(ns@.subrange(0, i as int)),
        decreases ns@.len() - i,
    {
        let ghost sub = ns@.subrange(0, i + 1);
        if i > 0 {
            s.append(", ");
        }
        push_decimal(s, ns[i]);
        proof {
            assert(sub.drop_last() =~= ns@.subrange(0, i as int));
            assert(sub.last() == ns@[i as int]);
            if i == 0 {
                assert(sub.len() == 1);
                assert(ns@.subrange(0, 0) =~= Seq::<usize>::empty());
            }
            assert(s@ =~= old(s)@ + joined(sub));
        }
        i = i + 1;
    }
    assert(ns@.subrange(0, ns@.len() as int) =~= ns@);
}

/// `n` in decimal.
pub fn number_to_text(n: usize) -> (s: String)
    ensures
        s@ == decimal(n as nat),
{
    let mut s = String::new();
    push_decimal(&mut s, n);
    assert(s@ =~= decimal(n as nat));
    s
}

/// The numbers as a bracketed list, `[1, 2, 3]`.
pub fn numbers_to_text(ns: &Vec<usize>) -> (s: String)
    ensures
        s@ == numbers_text(ns@),
{
    let mut s = String::from_str("[");
    push_joined(&mut s, ns);
    s.append("]");
    s
}

/// The rows as a bracketed list of bracketed lists, `[[1, 2], [3, 4]]`.
pub fn rows_to_text(rows: &Vec<Vec<usize>>) -> (s: String)
    ensures
        s@ == rows_text(rows@),
{
    let mut s = String::from_str("[");
    let mut i: usize = 0;
    while i < rows.len()
        invariant
            i <= rows@.len(),
            s@ == "["@ + joined_rows(rows@.subrange(0, i as int)),
        decreases rows@.len() - i,
    {
        let ghost sub = rows@.subrange(0, i + 1);
        if i > 0 {
            s.append(", ");
        }
        s.append("[");
        push_joined(&mut s, &rows[i]);
        s.append("]");
        proof {
            assert(sub.drop_last() =~= rows@.subrange(0, i as int));
            assert(sub.last() == rows@[i as int]);
            if i == 0 {
                assert(sub.len() == 1);
                assert(rows@.subrange(0, 0) =~= Seq::<Vec<usize>>::empty());
            }
            assert(s@ =~= "["@ + joined_rows(sub));
        }
        i = i + 1;
    }
    assert(rows@.subrange(0, rows@.len() as int) =~= rows@);
    s.append("]");
    s
}

} // verus!
