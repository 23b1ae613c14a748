use vstd::prelude::*;

verus! {

/// Decimal digits of `n`, most significant first.
pub open spec fn decimal(n: nat) -> Seq<char>
    decreases n,
{
    if n < 10 {
        seq![digit_char(n)]
    } else {
        decimal(n / 10).push(digit_char(n % 10))
    }
}

pub open spec fn digit_char(d: nat) -> char {
    if d == 0 { '0' }
    else if d == 1 { '1' }
    else if d == 2 { '2' }
    else if d == 3 { '3' }
    else if d == 4 { '4' }
    else if d == 5 { '5' }
    else if d == 6 { '6' }
    else if d == 7 { '7' }
    else if d == 8 { '8' }
    else { '9' }
}

fn digit(d: u64) -> (c: &'static str)
    requires
        d < 10,
    ensures
        c@ == seq![digit_char(d as nat)],
{
    proof {
        reveal_strlit("0");
        reveal_strlit("1");
        reveal_strlit("2");
        reveal_strlit("3");
        reveal_strlit("4");
        reveal_strlit("5");
        reveal_strlit("6");
        reveal_strlit("7");
        reveal_strlit("8");
        reveal_strlit("9");
    }
    if d == 0 { "0" }
    else if d == 1 { "1" }
    else if d == 2 { "2" }
    else if d == 3 { "3" }
    else if d == 4 { "4" }
    else if d == 5 { "5" }
    else if d == 6 { "6" }
    else if d == 7 { "7" }
    else if d == 8 { "8" }
    else { "9" }
}

/// Writes `n` in decimal.
pub fn decimal_string(n: u64) -> (s: String)
    ensures
        s@ == decimal(n as nat),
    decreases n,
{
    if n < 10 {
        let s = String::from_str(digit(n));
        proof {
            assert(s@ =~= decimal(n as nat));
        }
        s
    } else {
        let mut s = decimal_string(n / 10);
        s.append(digit(n % 10));
        s
    }
}

/// Whether `c` occurs in `s`.
pub fn contains_char(s: &str, c: char) -> (r: bool)
    ensures
        r == s@.contains(c),
{
    let n = s.unicode_len();
    let mut i: usize = 0;
    while i < n
        invariant
            n == s@.len(),
            i <= n,
            forall|j: int| 0 <= j < i ==> s@[j] != c,
        decreases n - i,
    {
        if s.get_char(i) == c {
            return true;
        }
        i = i + 1;
    }
    false
}

/// Character-wise equality of two strings.
pub fn str_eq(a: &str, b: &str) -> (r: bool)
    ensures
        r == (a@ == b@),
{
    let n = a.unicode_len();
    if n != b.unicode_len() {
        return false;
    }
    let mut i: usize = 0;
    while i < n
        invariant
            n == a@.len(),
            n == b@.len(),
            i <= n,
            forall|j: int| 0 <= j < i ==> a@[j] == b@[j],
        decreases n - i,
    {
        if a.get_char(i) != b.get_char(i) {
            return false;
        }
        i = i + 1;
    }
    proof {
        assert(a@ =~= b@);
    }
    true
}


/// `a` and `b` agree on their first `i` characters.
pub open spec fn same_prefix(a: Seq<char>, b: Seq<char>, i: int) -> bool {
    0 <= i <= a.len() && i <= b.len() && forall|j: int| 0 <= j < i ==> a[j] == b[j]
}

/// `a` and `b` first differ at `i`, where `a` is the smaller: it ends there,
/// or holds the lower character there.
pub open spec fn lt_at(a: Seq<char>, b: Seq<char>, i: int) -> bool {
    &&& same_prefix(a, b, i)
    &&& i < b.len()
    &&& (i == a.len() || (a[i] as u32) < (b[i] as u32))
}

/// Lexicographic order on character sequences.
pub open spec fn seq_lt(a: Seq<char>, b: Seq<char>) -> bool {
    exists|i: int| lt_at(a, b, i)
}

pub proof fn lemma_lt_transitive(a: Seq<char>, b: Seq<char>, c: Seq<char>)
    requires
        seq_lt(a, b),
        seq_lt(b, c),
    ensures
        seq_lt(a, c),
{
    let i = choose|i: int| lt_at(a, b, i);
    let k = choose|k: int| lt_at(b, c, k);
    if i < k {
        assert(lt_at(a, c, i));
    } else if k < i {
        assert(lt_at(a, c, k));
    } else {
        assert(lt_at(a, c, i));
    }
}

pub proof fn lemma_lt_irreflexive(a: Seq<char>, b: Seq<char>)
    requires
        seq_lt(a, b),
    ensures
        !seq_lt(b, a),
        a != b,
{
    let i = choose|i: int| lt_at(a, b, i);
    if seq_lt(b, a) {
        let k = choose|k: int| lt_at(b, a, k);
        if i < k {
            assert(a[i] == b[i]);
        } else if k < i {
            assert(a[k] == b[k]);
        }
    }
}

/// Any two strings are ordered one way or the other, or equal.
pub proof fn lemma_lt_total(a: Seq<char>, b: Seq<char>)
    ensures
        seq_lt(a, b) || a == b || seq_lt(b, a),
{
    if !seq_lt(a, b) && a != b {
        lemma_total_from(a, b, 0);
    }
}

proof fn lemma_total_from(a: Seq<char>, b: Seq<char>, i: int)
    requires
        same_prefix(a, b, i),
        a != b,
        !seq_lt(a, b),
    ensures
        seq_lt(b, a),
    decreases a.len() - i,
{
    if i == a.len() {
        if i < b.len() {
            assert(lt_at(a, b, i));
        } else {
            assert(a =~= b);
        }
    } else if i == b.len() {
        assert(lt_at(b, a, i));
    } else if a[i] == b[i] {
        lemma_total_from(a, b, i + 1);
    } else if (a[i] as u32) < (b[i] as u32) {
        assert(lt_at(a, b, i));
    } else {
        lemma_char_code_differs(a[i], b[i]);
        assert(lt_at(b, a, i));
    }
}

proof fn lemma_char_code_differs(x: char, y: char)
    requires
        x != y,
    ensures
        (x as u32) != (y as u32),
{
}

/// Three-way lexicographic comparison: negative, zero or positive as `a` is
/// before, equal to or after `b`.
pub fn compare_str(a: &str, b: &str) -> (r: i8)
    ensures
        r < 0 <==> seq_lt(a@, b@),
        r == 0 <==> a@ == b@,
        r > 0 <==> seq_lt(b@, a@),
{
    let n = a.unicode_len();
    let m = b.unicode_len();
    let mut i: usize = 0;
    while i < n && i < m
        invariant
            n == a@.len(),
            m == b@.len(),
            same_prefix(a@, b@, i as int),
        decreases n - i,
    {
        let x = a.get_char(i);
        let y = b.get_char(i);
        if (x as u32) < (y as u32) {
            proof {
                assert(lt_at(a@, b@, i as int));
                lemma_lt_irreflexive(a@, b@);
            }
            return -1;
        }
        if (y as u32) < (x as u32) {
            proof {
                assert(lt_at(b@, a@, i as int));
                lemma_lt_irreflexive(b@, a@);
            }
            return 1;
        }
        i = i + 1;
    }
    if n == m {
        proof {
            assert(a@ =~= b@);
            assert(!seq_lt(a@, b@)) by {
                if seq_lt(a@, b@) {
                    let k = choose|k: int| lt_at(a@, b@, k);
                }
            }
            assert(!seq_lt(b@, a@)) by {
                if seq_lt(b@, a@) {
                    let k = choose|k: int| lt_at(b@, a@, k);
                }
            }
        }
        0
    } else if n < m {
        proof {
            assert(lt_at(a@, b@, i as int));
            lemma_lt_irreflexive(a@, b@);
        }
        -1
    } else {
        proof {
            assert(lt_at(b@, a@, i as int));
            lemma_lt_irreflexive(b@, a@);
        }
        1
    }
}

} // verus!
