//! Generator of synthetic, collision-free identifiers for one module
//! compilation: a name prefix plus a monotonically increasing counter,
//! rendered as `_<prefix><counter>`.
//!
//! The generated names are pairwise distinct because the decimal rendering
//! of the counter is injective; they avoid user-written module-scope names
//! under the convention that user code never binds identifiers of this
//! reserved `_<prefix><digits>` shape.

use vstd::prelude::*;

verus! {

/// The character for one decimal digit.
pub open spec fn digit_char(d: nat) -> char {
    if d == 0 {
        '0'
    } else if d == 1 {
        '1'
    } else if d == 2 {
        '2'
    } else if d == 3 {
        '3'
    } else if d == 4 {
        '4'
    } else if d == 5 {
        '5'
    } else if d == 6 {
        '6'
    } else if d == 7 {
        '7'
    } else if d == 8 {
        '8'
    } else {
        '9'
    }
}

/// The decimal rendering of `n`, most significant digit first, without
/// leading zeros (`0` renders as "0").
pub open spec fn dec_seq(n: nat) -> Seq<char>
    decreases n,
{
    if n < 10 {
        seq![digit_char(n)]
    } else {
        dec_seq(n / 10).push(digit_char(n % 10))
    }
}

/// The name generated for prefix `prefix` and counter value `n`.
pub open spec fn uid_name(prefix: Seq<char>, n: nat) -> Seq<char> {
    seq!['_'] + prefix + dec_seq(n)
}

/// Whether `s` has the shape of a generated name for `prefix`.
pub open spec fn is_uid_name(prefix: Seq<char>, s: Seq<char>) -> bool {
    exists|m: nat| s == uid_name(prefix, m)
}

proof fn lemma_dec_seq_len(n: nat)
    ensures
        dec_seq(n).len() >= 1,
        n >= 10 ==> dec_seq(n).len() >= 2,
    decreases n,
{
    if n >= 10 {
        lemma_dec_seq_len(n / 10);
    }
}

proof fn lemma_digit_char_injective(a: nat, b: nat)
    requires
        a < 10,
        b < 10,
        digit_char(a) == digit_char(b),
    ensures
        a == b,
{
}

/// The decimal rendering is injective.
proof fn lemma_dec_seq_injective(a: nat, b: nat)
    requires
        dec_seq(a) == dec_seq(b),
    ensures
        a == b,
    decreases a + b,
{
    if a < 10 && b < 10 {
        assert(dec_seq(a)[0] == digit_char(a));
        assert(dec_seq(b)[0] == digit_char(b));
        lemma_digit_char_injective(a, b);
    } else if a < 10 && b >= 10 {
        lemma_dec_seq_len(b / 10);
        assert(dec_seq(b).len() >= 2);
    } else if a >= 10 && b < 10 {
        lemma_dec_seq_len(a / 10);
        assert(dec_seq(a).len() >= 2);
    } else {
        assert(dec_seq(a).last() == digit_char(a % 10));
        assert(dec_seq(b).last() == digit_char(b % 10));
        lemma_digit_char_injective(a % 10, b % 10);
        assert(dec_seq(a / 10) =~= dec_seq(a).drop_last());
        assert(dec_seq(b / 10) =~= dec_seq(b).drop_last());
        lemma_dec_seq_injective(a / 10, b / 10);
        assert(a == 10 * (a / 10) + a % 10);
        assert(b == 10 * (b / 10) + b % 10);
    }
}

/// Law: for one prefix, distinct counter values give distinct names. In
/// particular any two identifiers produced by one generator instance are
/// distinct from each other.
pub proof fn lemma_uid_names_distinct(prefix: Seq<char>, n: nat, m: nat)
    requires
        n != m,
    ensures
        uid_name(prefix, n) != uid_name(prefix, m),
{
    if uid_name(prefix, n) == uid_name(prefix, m) {
        let un = uid_name(prefix, n);
        let um = uid_name(prefix, m);
        lemma_dec_seq_len(n);
        lemma_dec_seq_len(m);
        assert(dec_seq(n) =~= un.subrange(1 + prefix.len() as int, un.len() as int));
        assert(dec_seq(m) =~= um.subrange(1 + prefix.len() as int, um.len() as int));
        lemma_dec_seq_injective(n, m);
    }
}

/// Law: a generated name never collides with a module-scope identifier,
/// provided the scope binds no identifier of the generator's reserved
/// `_<prefix><digits>` shape.
pub proof fn lemma_uid_name_fresh(prefix: Seq<char>, scope: Set<Seq<char>>, n: nat)
    requires
        forall|s: Seq<char>| scope.contains(s) ==> !is_uid_name(prefix, s),
    ensures
        !scope.contains(uid_name(prefix, n)),
{
    if scope.contains(uid_name(prefix, n)) {
        assert(uid_name(prefix, n) == uid_name(prefix, n));
        assert(is_uid_name(prefix, uid_name(prefix, n)));
    }
}

fn digit_str(d: u32) -> (s: &'static str)
    requires
        d < 10,
    ensures
        s@ == seq![digit_char(d as nat)],
{
    match d {
        0 => {
            proof {
                reveal_strlit("0");
                assert("0"@ =~= seq![digit_char(0)]);
            }
            "0"
        },
        1 => {
            proof {
                reveal_strlit("1");
                assert("1"@ =~= seq![digit_char(1)]);
            }
            "1"
        },
        2 => {
            proof {
                reveal_strlit("2");
                assert("2"@ =~= seq![digit_char(2)]);
            }
            "2"
        },
        3 => {
            proof {
                reveal_strlit("3");
                assert("3"@ =~= seq![digit_char(3)]);
            }
            "3"
        },
        4 => {
            proof {
                reveal_strlit("4");
                assert("4"@ =~= seq![digit_char(4)]);
            }
            "4"
        },
        5 => {
            proof {
                reveal_strlit("5");
                assert("5"@ =~= seq![digit_char(5)]);
            }
            "5"
        },
        6 => {
            proof {
                reveal_strlit("6");
                assert("6"@ =~= seq![digit_char(6)]);
            }
            "6"
        },
        7 => {
            proof {
                reveal_strlit("7");
                assert("7"@ =~= seq![digit_char(7)]);
            }
            "7"
        },
        8 => {
            proof {
                reveal_strlit("8");
                assert("8"@ =~= seq![digit_char(8)]);
            }
            "8"
        },
        _ => {
            proof {
                reveal_strlit("9");
                assert("9"@ =~= seq![digit_char(9)]);
            }
            "9"
        },
    }
}

fn dec_string(n: u32) -> (s: String)
    ensures
        s@ == dec_seq(n as nat),
    decreases n,
{
    if n < 10 {
        String::from_str(digit_str(n))
    } else {
        let mut s = dec_string(n / 10);
        s.append(digit_str(n % 10));
        proof {
            assert(s@ =~= dec_seq(n as nat));
        }
        s
    }
}

/// Produces synthetic names `_<prefix>1`, `_<prefix>2`, ... for one module
/// compilation; created once per compilation and discarded at its end.
pub struct UidGenerator {
    prefix: String,
    counter: u32,
}

impl UidGenerator {
    /// The prefix the generator was created with.
    pub closed spec fn prefix_spec(&self) -> Seq<char> {
        self.prefix@
    }

    /// How many identifiers have been generated so far.
    pub closed spec fn counter_spec(&self) -> nat {
        self.counter as nat
    }

    pub fn new(prefix: &str) -> (r: Self)
        ensures
            r.prefix_spec() == prefix@,
            r.counter_spec() == 0,
    {
        UidGenerator { prefix: String::from_str(prefix), counter: 0 }
    }

    /// Yields the next synthetic identifier, distinct from every identifier
    /// this generator has produced before.
    pub fn generate_ident(&mut self) -> (r: String)
        requires
            old(self).counter_spec() < u32::MAX,
        ensures
            final(self).prefix_spec() == old(self).prefix_spec(),
            final(self).counter_spec() == old(self).counter_spec() + 1,
            r@ == uid_name(old(self).prefix_spec(), old(self).counter_spec() + 1),
    {
        self.counter = self.counter + 1;
        let mut s = String::from_str("_");
        proof {
            reveal_strlit("_");
            assert(s@ =~= seq!['_']);
        }
        s.append(self.prefix.as_str());
        let digits = dec_string(self.counter);
        s.append(digits.as_str());
        proof {
            assert(s@ =~= uid_name(self.prefix@, self.counter as nat));
        }
        s
    }
}

} // verus!
