//! The signal value: a 32-bit code where `0` is the distinguished
//! "no signal" sentinel and every non-zero value is an application-defined
//! signal code.

use vstd::prelude::*;
use vstd::string::StringExecFns;

verus! {

/// The character for one decimal digit.
pub open spec fn spec_digit(d: int) -> char {
    if d == 0 {
        '0'
    } else if d == 1 {
        '1'
    } else if d == 2 {
        '2'
    } else if d == 3 {
        '3'
    } else if d == 4 {
        '4'
    } else if d == 5 {
        '5'
    } else if d == 6 {
        '6'
    } else if d == 7 {
        '7'
    } else if d == 8 {
        '8'
    } else {
        '9'
    }
}

/// The decimal rendering of `n`, most significant digit first, with no
/// leading zeros (a lone `0` for zero itself).
pub open spec fn spec_decimal(n: nat) -> Seq<char>
    decreases n,
{
    if n < 10 {
        seq![spec_digit(n as int)]
    } else {
        spec_decimal(n / 10).push(spec_digit((n % 10) as int))
    }
}

/// The diagnostic rendering of a signal whose code is `n`.
pub open spec fn spec_signal_text(n: nat) -> Seq<char> {
    "Signal("@ + spec_decimal(n) + ")"@
}

/// A signal code.
///
/// A value of `0` means no signal. Any non-zero value represents an
/// active signal, where the value itself is the signal code. The core
/// keeps no registry of meanings: interpretation is the caller's business.
#[derive(Debug, Clone, Copy, PartialEq, Eq, Hash, Structural)]
pub struct Signal(pub u32);

impl Signal {
    /// Renders the signal for diagnostics: a code of `42` reads `Signal(42)`.
    pub fn text(&self) -> (r: String)
        ensures
            r@ == spec_signal_text(self.0 as nat),
    {
        let mut s = String::new();
        s.append("Signal(");
        push_decimal(&mut s, self.0);
        s.append(")");
        s
    }
}

/// Appends the decimal rendering of `n` to `s`.
fn push_decimal(s: &mut String, n: u32)
    ensures
        final(s)@ == old(s)@ + spec_decimal(n as nat),
    decreases n,
{
    if n >= 10 {
        push_decimal(s, n / 10);
    }
    let d = n % 10;
    if d == 0 {
        s.append("0");
        proof {
            reveal_strlit("0");
        }
    } else if d == 1 {
        s.append("1");
        proof {
            reveal_strlit("1");
        }
    } else if d == 2 {
        s.append("2");
        proof {
            reveal_strlit("2");
        }
    } else if d == 3 {
        s.append("3");
        proof {
            reveal_strlit("3");
        }
    } else if d == 4 {
        s.append("4");
        proof {
            reveal_strlit("4");
        }
    } else if d == 5 {
        s.append("5");
        proof {
            reveal_strlit("5");
        }
    } else if d == 6 {
        s.append("6");
        proof {
            reveal_strlit("6");
        }
    } else if d == 7 {
        s.append("7");
        proof {
            reveal_strlit("7");
        }
    } else if d == 8 {
        s.append("8");
        proof {
            reveal_strlit("8");
        }
    } else {
        s.append("9");
        proof {
            reveal_strlit("9");
        }
    }
    proof {
        assert(spec_decimal(n as nat) == if n < 10 {
            seq![spec_digit(d as int)]
        } else {
            spec_decimal((n / 10) as nat).push(spec_digit(d as int))
        });
        assert(s@ =~= old(s)@ + spec_decimal(n as nat));
    }
}

proof fn lemma_decimal_len(n: nat)
    ensures
        spec_decimal(n).len() >= 1,
    decreases n,
{
    if n >= 10 {
        lemma_decimal_len(n / 10);
    }
}

proof fn lemma_digit_injective(a: int, b: int)
    requires
        0 <= a < 10,
        0 <= b < 10,
        spec_digit(a) == spec_digit(b),
    ensures
        a == b,
{
}

/// Distinct numbers have distinct decimal renderings: the rendering
/// determines the number.
pub proof fn lemma_decimal_injective(a: nat, b: nat)
    requires
        spec_decimal(a) == spec_decimal(b),
    ensures
        a == b,
    decreases a,
{
    lemma_decimal_len(a);
    lemma_decimal_len(b);
    if a < 10 && b < 10 {
        assert(spec_decimal(a)[0] == spec_digit(a as int));
        assert(spec_decimal(b)[0] == spec_digit(b as int));
        lemma_digit_injective(a as int, b as int);
    } else if a < 10 {
        lemma_decimal_len(b / 10);
        assert(spec_decimal(a).len() == 1);
        assert(spec_decimal(b).len() == spec_decimal(b / 10).len() + 1);
    } else if b < 10 {
        lemma_decimal_len(a / 10);
        assert(spec_decimal(b).len() == 1);
        assert(spec_decimal(a).len() == spec_decimal(a / 10).len() + 1);
    } else {
        let xa = spec_decimal(a / 10);
        let xb = spec_decimal(b / 10);
        assert(spec_decimal(a).last() == spec_digit((a % 10) as int));
        assert(spec_decimal(b).last() == spec_digit((b % 10) as int));
        lemma_digit_injective((a % 10) as int, (b % 10) as int);
        assert(xa =~= spec_decimal(a).drop_last());
        assert(xb =~= spec_decimal(b).drop_last());
        lemma_decimal_injective(a / 10, b / 10);
    }
}

/// The diagnostic rendering identifies the signal: distinct codes give
/// distinct texts, so a reader of the diagnostic can recover the code.
pub proof fn lemma_text_identifies_code(a: u32, b: u32)
    requires
        spec_signal_text(a as nat) == spec_signal_text(b as nat),
    ensures
        a == b,
{
    reveal_strlit("Signal(");
    reveal_strlit(")");
    let da = spec_decimal(a as nat);
    let db = spec_decimal(b as nat);
    lemma_decimal_len(a as nat);
    lemma_decimal_len(b as nat);
    assert(spec_signal_text(a as nat).len() == da.len() + 8);
    assert(spec_signal_text(b as nat).len() == db.len() + 8);
    assert forall|i: int| 0 <= i < da.len() implies da[i] == db[i] by {
        assert(da[i] == spec_signal_text(a as nat)[7 + i]);
        assert(db[i] == spec_signal_text(b as nat)[7 + i]);
    }
    assert(da =~= db);
    lemma_decimal_injective(a as nat, b as nat);
}

} // verus!
