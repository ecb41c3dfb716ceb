//! The closed set of checksum algorithms and the lookup of one by name.

use vstd::prelude::*;
use vstd::string::StrSliceExecFns;

verus! {

/// A checksum algorithm that the tool can be asked for.
#[derive(Debug, Clone, Copy, Hash, PartialEq, Eq, Structural)]
pub enum Algorithm {
    SHA1,
    SHA2,
    SHA3,
    BLAKE,
    BLAKE2,
    CRC64,
    CRC32,
    CRC16,
    CRC8,
    MD5,
}

/// Whether `c` is an ASCII capital letter.
pub open spec fn is_upper(c: char) -> bool {
    'A' <= c <= 'Z'
}

/// Whether two characters are equal once ASCII letter case is set aside.
/// Characters outside ASCII match only themselves.
pub open spec fn same_letter(a: char, b: char) -> bool {
    ||| a == b
    ||| is_upper(a) && b as int == a as int + 32
    ||| is_upper(b) && a as int == b as int + 32
}

/// Whether two texts have the same length and match letter by letter,
/// ASCII case set aside.
pub open spec fn same_name(a: Seq<char>, b: Seq<char>) -> bool {
    &&& a.len() == b.len()
    &&& forall|i: int| 0 <= i < a.len() ==> same_letter(#[trigger] a[i], b[i])
}

/// Compare two characters without regard to ASCII letter case.
pub fn letters_match(a: char, b: char) -> (r: bool)
    ensures
        r == same_letter(a, b),
{
    a == b || (a >= 'A' && a <= 'Z' && b as u32 == a as u32 + 32) || (b >= 'A' && b <= 'Z'
        && a as u32 == b as u32 + 32)
}

/// Compare two texts without regard to ASCII letter case.
pub fn names_match(a: &str, b: &str) -> (r: bool)
    ensures
        r == same_name(a@, b@),
{
    let n: usize = a.unicode_len();
    if n != b.unicode_len() {
        return false;
    }
    let mut i: usize = 0;
    while i < n
        invariant
            n == a@.len(),
            n == b@.len(),
            i <= n,
            forall|j: int| 0 <= j < i ==> same_letter(#[trigger] a@[j], b@[j]),
        decreases n - i,
    {
        if !letters_match(a.get_char(i), b.get_char(i)) {
            return false;
        }
        i = i + 1;
    }
    true
}

impl Algorithm {
    /// The name an algorithm is written with.
    pub open spec fn spec_name(self) -> Seq<char> {
        match self {
            Algorithm::SHA1 => "SHA1"@,
            Algorithm::SHA2 => "SHA2"@,
            Algorithm::SHA3 => "SHA3"@,
            Algorithm::BLAKE => "BLAKE"@,
            Algorithm::BLAKE2 => "BLAKE2"@,
            Algorithm::CRC64 => "CRC64"@,
            Algorithm::CRC32 => "CRC32"@,
            Algorithm::CRC16 => "CRC16"@,
            Algorithm::CRC8 => "CRC8"@,
            Algorithm::MD5 => "MD5"@,
        }
    }

    /// The algorithm that a text names: the one whose name it matches,
    /// ASCII case set aside. No two algorithms share a name, so there is at
    /// most one.
    pub open spec fn of_name(s: Seq<char>) -> Option<Algorithm> {
        if exists|a: Algorithm| same_name(s, a.spec_name()) {
            Some(choose|a: Algorithm| same_name(s, a.spec_name()))
        } else {
            None
        }
    }

    /// The name of this algorithm, in capitals.
    pub fn name(&self) -> (r: &'static str)
        ensures
            r@ == self.spec_name(),
    {
        match self {
            Algorithm::SHA1 => "SHA1",
            Algorithm::SHA2 => "SHA2",
            Algorithm::SHA3 => "SHA3",
            Algorithm::BLAKE => "BLAKE",
            Algorithm::BLAKE2 => "BLAKE2",
            Algorithm::CRC64 => "CRC64",
            Algorithm::CRC32 => "CRC32",
            Algorithm::CRC16 => "CRC16",
            Algorithm::CRC8 => "CRC8",
            Algorithm::MD5 => "MD5",
        }
    }

    /// Look an algorithm up by its name, in any mix of ASCII capitals and
    /// small letters. Every other text names no algorithm.
    pub fn from_name(s: &str) -> (r: Option<Algorithm>)
        ensures
            r == Algorithm::of_name(s@),
            forall|a: Algorithm| r == Some(a) <==> same_name(s@, a.spec_name()),
    {
        let found = if names_match(s, Algorithm::SHA1.name()) {
            Some(Algorithm::SHA1)
        } else if names_match(s, Algorithm::SHA2.name()) {
            Some(Algorithm::SHA2)
        } else if names_match(s, Algorithm::SHA3.name()) {
            Some(Algorithm::SHA3)
        } else if names_match(s, Algorithm::BLAKE.name()) {
            Some(Algorithm::BLAKE)
        } else if names_match(s, Algorithm::BLAKE2.name()) {
            Some(Algorithm::BLAKE2)
        } else if names_match(s, Algorithm::CRC64.name()) {
            Some(Algorithm::CRC64)
        } else if names_match(s, Algorithm::CRC32.name()) {
            Some(Algorithm::CRC32)
        } else if names_match(s, Algorithm::CRC16.name()) {
            Some(Algorithm::CRC16)
        } else if names_match(s, Algorithm::CRC8.name()) {
            Some(Algorithm::CRC8)
        } else if names_match(s, Algorithm::MD5.name()) {
            Some(Algorithm::MD5)
        } else {
            None
        };
        proof {
            lemma_name_decides(s@);
        }
        found
    }
}

/// Matching without regard to case is symmetric and transitive.
pub proof fn lemma_same_name_is_equivalence(a: Seq<char>, b: Seq<char>, c: Seq<char>)
    ensures
        same_name(a, a),
        same_name(a, b) ==> same_name(b, a),
        same_name(a, b) && same_name(b, c) ==> same_name(a, c),
{
    if same_name(a, b) {
        assert forall|i: int| 0 <= i < b.len() implies same_letter(#[trigger] b[i], a[i]) by {
            assert(same_letter(a[i], b[i]));
        }
        if same_name(b, c) {
            assert forall|i: int| 0 <= i < a.len() implies same_letter(#[trigger] a[i], c[i]) by {
                assert(same_letter(a[i], b[i]));
                assert(same_letter(b[i], c[i]));
            }
        }
    }
}

/// No two algorithms have names that match each other.
pub proof fn lemma_names_distinct(a: Algorithm, b: Algorithm)
    requires
        same_name(a.spec_name(), b.spec_name()),
    ensures
        a == b,
{
    reveal_strlit("SHA1");
    reveal_strlit("SHA2");
    reveal_strlit("SHA3");
    reveal_strlit("BLAKE");
    reveal_strlit("BLAKE2");
    reveal_strlit("CRC64");
    reveal_strlit("CRC32");
    reveal_strlit("CRC16");
    reveal_strlit("CRC8");
    reveal_strlit("MD5");
    let x = a.spec_name();
    let y = b.spec_name();
    if a != b {
        if x.len() == y.len() {
            assert(same_letter(x[0], y[0]));
            assert(same_letter(x[2], y[2]));
            assert(same_letter(x[3], y[3]));
            if x.len() > 4 {
                assert(same_letter(x[4], y[4]));
            }
        }
    }
}

/// A text matches the name of at most one algorithm, and the lookup names
/// exactly that one.
pub proof fn lemma_name_decides(s: Seq<char>)
    ensures
        forall|a: Algorithm|
            Algorithm::of_name(s) == Some(a) <==> same_name(s, #[trigger] a.spec_name()),
{
    assert forall|a: Algorithm| same_name(s, #[trigger] a.spec_name()) implies Algorithm::of_name(
        s,
    ) == Some(a) by {
        let b = choose|b: Algorithm| same_name(s, b.spec_name());
        lemma_same_name_is_equivalence(s, a.spec_name(), s);
        lemma_same_name_is_equivalence(a.spec_name(), s, b.spec_name());
        lemma_names_distinct(a, b);
    }
}

/// Looking up the name of an algorithm gives that algorithm back.
pub proof fn lemma_name_round_trip(a: Algorithm)
    ensures
        Algorithm::of_name(a.spec_name()) == Some(a),
{
    lemma_same_name_is_equivalence(a.spec_name(), a.spec_name(), a.spec_name());
    lemma_name_decides(a.spec_name());
}

} // verus!
