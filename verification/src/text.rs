//! Text helpers for the todo list: trimming entered text and rendering a
//! count as decimal digits.
use vstd::prelude::*;
use vstd::string::StrSliceExecFns;
use vstd::string::StringExecFns;

verus! {

/// A character with the Unicode `White_Space` property; these are the
/// characters that trimming strips from both ends of entered text.
pub open spec fn is_space(c: char) -> bool {
    let u = c as u32;
    u == 0x20 || (0x09 <= u && u <= 0x0D) || u == 0x85 || u == 0xA0 || u == 0x1680 || (0x2000
        <= u && u <= 0x200A) || u == 0x2028 || u == 0x2029 || u == 0x202F || u == 0x205F || u
        == 0x3000
}

/// Executable test for `is_space`.
pub fn is_space_char(c: char) -> (b: bool)
    ensures
        b == is_space(c),
{
    let u = c as u32;
    u == 0x20 || (0x09 <= u && u <= 0x0D) || u == 0x85 || u == 0xA0 || u == 0x1680 || (0x2000
        <= u && u <= 0x200A) || u == 0x2028 || u == 0x2029 || u == 0x202F || u == 0x205F || u
        == 0x3000
}

/// `s` with its leading whitespace removed.
pub open spec fn trim_front(s: Seq<char>) -> Seq<char>
    decreases s.len(),
{
    if s.len() > 0 && is_space(s[0]) {
        trim_front(s.drop_first())
    } else {
        s
    }
}

/// `s` with its trailing whitespace removed.
pub open spec fn trim_back(s: Seq<char>) -> Seq<char>
    decreases s.len(),
{
    if s.len() > 0 && is_space(s.last()) {
        trim_back(s.drop_last())
    } else {
        s
    }
}

/// `s` with both leading and trailing whitespace removed.
pub open spec fn trim_spec(s: Seq<char>) -> Seq<char> {
    trim_back(trim_front(s))
}

/// When the first `k` characters are whitespace and the character at `k`
/// (if any) is not, trimming the front keeps exactly the suffix from `k`.
proof fn lemma_trim_front_subrange(s: Seq<char>, k: int)
    requires
        0 <= k <= s.len(),
        forall|i: int| 0 <= i < k ==> is_space(s[i]),
        k == s.len() || !is_space(s[k]),
    ensures
        trim_front(s) == s.subrange(k, s.len() as int),
    decreases k,
{
    if k == 0 {
        assert(s.subrange(0, s.len() as int) =~= s);
    } else {
        let t = s.drop_first();
        assert(is_space(s[0]));
        assert(forall|i: int| 0 <= i < k - 1 ==> is_space(#[trigger] t[i]));
        lemma_trim_front_subrange(t, k - 1);
        assert(t.subrange(k - 1, t.len() as int) =~= s.subrange(k, s.len() as int));
    }
}

/// When every character from `j` on is whitespace and the character at
/// `j - 1` (if any) is not, trimming the back keeps exactly the prefix
/// up to `j`.
proof fn lemma_trim_back_subrange(s: Seq<char>, j: int)
    requires
        0 <= j <= s.len(),
        forall|i: int| j <= i < s.len() ==> is_space(s[i]),
        j == 0 || !is_space(s[j - 1]),
    ensures
        trim_back(s) == s.subrange(0, j),
    decreases s.len() - j,
{
    if j == s.len() {
        assert(s.subrange(0, s.len() as int) =~= s);
    } else {
        let t = s.drop_last();
        assert(is_space(s.last()));
        lemma_trim_back_subrange(t, j);
        assert(t.subrange(0, j) =~= s.subrange(0, j));
    }
}

/// Returns `s` with leading and trailing whitespace removed, as `str::trim`
/// would.
pub fn trim(s: &str) -> (r: String)
    ensures
        r@ == trim_spec(s@),
{
    let n = s.unicode_len();
    let mut i: usize = 0;
    loop
        invariant
            i <= n,
            n == s@.len(),
            forall|k: int| 0 <= k < i ==> is_space(s@[k]),
        ensures
            i <= n,
            forall|k: int| 0 <= k < i ==> is_space(s@[k]),
            i == n || !is_space(s@[i as int]),
        decreases n - i,
    {
        if i == n {
            break ;
        }
        if is_space_char(s.get_char(i)) {
            i = i + 1;
        } else {
            break ;
        }
    }
    if i == n {
        proof {
            lemma_trim_front_subrange(s@, n as int);
            assert(s@.subrange(n as int, n as int) =~= Seq::<char>::empty());
        }
        return String::new();
    }
    let mut j: usize = n;
    loop
        invariant
            i < j <= n,
            n == s@.len(),
            !is_space(s@[i as int]),
            forall|k: int| j <= k < n ==> is_space(s@[k]),
        ensures
            i < j <= n,
            forall|k: int| j <= k < n ==> is_space(s@[k]),
            !is_space(s@[j - 1]),
        decreases j,
    {
        if is_space_char(s.get_char(j - 1)) {
            j = j - 1;
        } else {
            break ;
        }
    }
    let sub = s.substring_char(i, j);
    proof {
        lemma_trim_front_subrange(s@, i as int);
        let t = s@.subrange(i as int, n as int);
        assert(forall|k: int| j - i <= k < t.len() ==> is_space(#[trigger] t[k]));
        assert(!is_space(t[j - i - 1]));
        lemma_trim_back_subrange(t, j - i);
        assert(t.subrange(0, j - i) =~= s@.subrange(i as int, j as int));
    }
    sub.to_owned()
}

/// The decimal digit character for `d` (which must be below ten).
pub open spec fn digit_char(d: nat) -> char {
    if d == 0 {
        '0'
    } else if d == 1 {
        '1'
    } else if d == 2 {
        '2'
    } else if d == 3 {
        '3'
    } else if d == 4 {
        '4'
    } else if d == 5 {
        '5'
    } else if d == 6 {
        '6'
    } else if d == 7 {
        '7'
    } else if d == 8 {
        '8'
    } else {
        '9'
    }
}

/// The usual decimal rendering of `n`, most significant digit first and
/// without leading zeros (except for `n == 0` itself).
pub open spec fn spec_decimal(n: nat) -> Seq<char>
    decreases n,
{
    if n < 10 {
        seq![digit_char(n)]
    } else {
        spec_decimal(n / 10).push(digit_char(n % 10))
    }
}

/// The one-character string for a single decimal digit.
fn digit_str(d: usize) -> (r: &'static str)
    requires
        d < 10,
    ensures
        r@ == seq![digit_char(d as nat)],
{
    if d == 0 {
        let r = "0";
        proof {
            reveal_strlit("0");
            assert(r@ =~= seq![digit_char(d as nat)]);
        }
        r
    } else if d == 1 {
        let r = "1";
        proof {
            reveal_strlit("1");
            assert(r@ =~= seq![digit_char(d as nat)]);
        }
        r
    } else if d == 2 {
        let r = "2";
        proof {
            reveal_strlit("2");
            assert(r@ =~= seq![digit_char(d as nat)]);
        }
        r
    } else if d == 3 {
        let r = "3";
        proof {
            reveal_strlit("3");
            assert(r@ =~= seq![digit_char(d as nat)]);
        }
        r
    } else if d == 4 {
        let r = "4";
        proof {
            reveal_strlit("4");
            assert(r@ =~= seq![digit_char(d as nat)]);
        }
        r
    } else if d == 5 {
        let r = "5";
        proof {
            reveal_strlit("5");
            assert(r@ =~= seq![digit_char(d as nat)]);
        }
        r
    } else if d == 6 {
        let r = "6";
        proof {
            reveal_strlit("6");
            assert(r@ =~= seq![digit_char(d as nat)]);
        }
        r
    } else if d == 7 {
        let r = "7";
        proof {
            reveal_strlit("7");
            assert(r@ =~= seq![digit_char(d as nat)]);
        }
        r
    } else if d == 8 {
        let r = "8";
        proof {
            reveal_strlit("8");
            assert(r@ =~= seq![digit_char(d as nat)]);
        }
        r
    } else {
        let r = "9";
        proof {
            reveal_strlit("9");
            assert(r@ =~= seq![digit_char(d as nat)]);
        }
        r
    }
}

/// Renders `n` in decimal.
pub fn decimal_string(n: usize) -> (s: String)
    ensures
        s@ == spec_decimal(n as nat),
    decreases n,
{
    if n < 10 {
        digit_str(n).to_owned()
    } else {
        proof {
            assert(n as nat / 10 < n as nat) by (nonlinear_arith)
                requires
                    n >= 10,
            ;
        }
        let mut s = decimal_string(n / 10);
        s.append(digit_str(n % 10));
        proof {
            assert(spec_decimal(n as nat / 10).push(digit_char(n as nat % 10)) =~= spec_decimal(
                n as nat / 10,
            ) + seq![digit_char(n as nat % 10)]);
        }
        s
    }
}

} // verus!
