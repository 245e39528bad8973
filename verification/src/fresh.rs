//! Fresh, collision-free parameter names for forwarding signatures.
//!
//! Every non-receiver parameter of a forwarding operation is renamed to a
//! reserved prefix followed by its position index in decimal.  Two
//! distinct positions always give two distinct names, and a name with the
//! reserved prefix can never equal `self` nor any identifier that lacks
//! the prefix.

use vstd::arithmetic::div_mod::lemma_fundamental_div_mod;
use vstd::prelude::*;

verus! {

/// The decimal digit character for a value below ten.
pub open spec fn digit_char(d: nat) -> char {
    if d == 0 {
        '0'
    } else if d == 1 {
        '1'
    } else if d == 2 {
        '2'
    } else if d == 3 {
        '3'
    } else if d == 4 {
        '4'
    } else if d == 5 {
        '5'
    } else if d == 6 {
        '6'
    } else if d == 7 {
        '7'
    } else if d == 8 {
        '8'
    } else {
        '9'
    }
}

/// The decimal representation of a number, most significant digit first,
/// with no leading zeros (zero itself is written `0`).
pub open spec fn spec_decimal(n: nat) -> Seq<char>
    decreases n,
{
    if n < 10 {
        seq![digit_char(n)]
    } else {
        spec_decimal(n / 10).push(digit_char(n % 10))
    }
}

/// The fresh name for the parameter at position `i`: the reserved prefix
/// followed by the position in decimal.
pub open spec fn spec_fresh_name(i: nat) -> Seq<char> {
    "__arg"@ + spec_decimal(i)
}

/// Whether an identifier begins with the reserved fresh-name prefix.
/// The host grammar guarantees that user identifiers never do.
pub open spec fn has_reserved_prefix(s: Seq<char>) -> bool {
    s.len() >= "__arg"@.len() && s.subrange(0, "__arg"@.len() as int) == "__arg"@
}

proof fn lemma_digit_char_injective(a: nat, b: nat)
    requires
        a < 10,
        b < 10,
        digit_char(a) == digit_char(b),
    ensures
        a == b,
{
}

proof fn lemma_decimal_len(n: nat)
    ensures
        spec_decimal(n).len() >= 1,
        n < 10 <==> spec_decimal(n).len() == 1,
    decreases n,
{
    if n >= 10 {
        lemma_decimal_len(n / 10);
    }
}

/// Distinct numbers have distinct decimal representations.
proof fn lemma_decimal_injective(a: nat, b: nat)
    requires
        spec_decimal(a) == spec_decimal(b),
    ensures
        a == b,
    decreases a + b,
{
    lemma_decimal_len(a);
    lemma_decimal_len(b);
    if a < 10 && b < 10 {
        assert(seq![digit_char(a)][0] == digit_char(a));
        assert(seq![digit_char(b)][0] == digit_char(b));
        assert(spec_decimal(a)[0] == spec_decimal(b)[0]);
        lemma_digit_char_injective(a, b);
    } else if a < 10 || b < 10 {
        assert(spec_decimal(a).len() == spec_decimal(b).len());
        assert(false);
    } else {
        let da = spec_decimal(a / 10);
        let db = spec_decimal(b / 10);
        assert(da.push(digit_char(a % 10)).last() == digit_char(a % 10));
        assert(db.push(digit_char(b % 10)).last() == digit_char(b % 10));
        assert(spec_decimal(a).last() == spec_decimal(b).last());
        lemma_digit_char_injective(a % 10, b % 10);
        assert(da =~= spec_decimal(a).drop_last());
        assert(db =~= spec_decimal(b).drop_last());
        assert(a / 10 < a) by {
            lemma_fundamental_div_mod(a as int, 10);
        }
        lemma_decimal_injective(a / 10, b / 10);
        lemma_fundamental_div_mod(a as int, 10);
        lemma_fundamental_div_mod(b as int, 10);
    }
}

/// Fresh names are pairwise distinct: the position index is recoverable
/// from the name.
pub proof fn lemma_fresh_name_injective(i: nat, j: nat)
    requires
        spec_fresh_name(i) == spec_fresh_name(j),
    ensures
        i == j,
{
    let p = "__arg"@;
    let di = spec_decimal(i);
    let dj = spec_decimal(j);
    assert((p + di).len() == (p + dj).len());
    assert forall|k: int| 0 <= k < di.len() implies di[k] == dj[k] by {
        assert((p + di)[p.len() + k] == (p + dj)[p.len() + k]);
    }
    assert(di =~= dj);
    lemma_decimal_injective(i, j);
}

/// A fresh name always carries the reserved prefix.
pub proof fn lemma_fresh_name_reserved(i: nat)
    ensures
        has_reserved_prefix(spec_fresh_name(i)),
{
    let p = "__arg"@;
    let d = spec_decimal(i);
    lemma_decimal_len(i);
    assert(spec_fresh_name(i).subrange(0, p.len() as int) =~= p);
}

/// A fresh name never equals an identifier without the reserved prefix;
/// in particular it never collides with a user-chosen parameter name.
pub proof fn lemma_fresh_name_avoids(i: nat, name: Seq<char>)
    requires
        !has_reserved_prefix(name),
    ensures
        spec_fresh_name(i) != name,
{
    lemma_fresh_name_reserved(i);
}

/// A fresh name never equals the receiver binding `self`.
pub proof fn lemma_fresh_name_not_self(i: nat)
    ensures
        spec_fresh_name(i) != "self"@,
{
    reveal_strlit("__arg");
    reveal_strlit("self");
    lemma_decimal_len(i);
    assert(spec_fresh_name(i).len() >= 6);
}

fn digit_str(d: usize) -> (r: &'static str)
    requires
        d < 10,
    ensures
        r@ =~= seq![digit_char(d as nat)],
{
    let r: &'static str = if d == 0 {
        "0"
    } else if d == 1 {
        "1"
    } else if d == 2 {
        "2"
    } else if d == 3 {
        "3"
    } else if d == 4 {
        "4"
    } else if d == 5 {
        "5"
    } else if d == 6 {
        "6"
    } else if d == 7 {
        "7"
    } else if d == 8 {
        "8"
    } else {
        "9"
    };
    proof {
        reveal_strlit("0");
        reveal_strlit("1");
        reveal_strlit("2");
        reveal_strlit("3");
        reveal_strlit("4");
        reveal_strlit("5");
        reveal_strlit("6");
        reveal_strlit("7");
        reveal_strlit("8");
        reveal_strlit("9");
    }
    r
}

/// The decimal representation of `n`, as executable text.
pub fn decimal_string(n: usize) -> (r: String)
    ensures
        r@ == spec_decimal(n as nat),
    decreases n,
{
    if n < 10 {
        let r = digit_str(n).to_owned();
        r
    } else {
        proof {
            assert(n / 10 < n) by (nonlinear_arith)
                requires
                    n >= 10,
            ;
        }
        let mut s = decimal_string(n / 10);
        s.append(digit_str(n % 10));
        proof {
            assert(s@ =~= spec_decimal((n / 10) as nat).push(digit_char((n % 10) as nat)));
        }
        s
    }
}

/// The fresh name for the parameter at position `i`, as executable text.
pub fn fresh_parameter_name(i: usize) -> (r: String)
    ensures
        r@ == spec_fresh_name(i as nat),
{
    let mut s = "__arg".to_owned();
    let d = decimal_string(i);
    s.append(d.as_str());
    s
}

} // verus!
