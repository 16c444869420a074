use vstd::prelude::*;
use vstd::string::*;

verus! {

/// `c` is an ASCII decimal digit.
pub open spec fn is_digit(c: char) -> bool {
    '0' <= c && c <= '9'
}

/// Numeric value of a digit; defined as 0 off the digits so that
/// `digits_val` grows monotonically with the string in every case.
pub open spec fn digit_val(c: char) -> nat {
    if is_digit(c) {
        (c as int - '0' as int) as nat
    } else {
        0
    }
}

pub open spec fn all_digits(s: Seq<char>) -> bool {
    forall|i: int| 0 <= i < s.len() ==> is_digit(#[trigger] s[i])
}

/// Value of a decimal digit string, most significant digit first.
pub open spec fn digits_val(s: Seq<char>) -> nat
    decreases s.len(),
{
    if s.len() == 0 {
        0
    } else {
        digits_val(s.drop_last()) * 10 + digit_val(s.last())
    }
}

/// The only '.' of `s` stands at index `i`.
pub open spec fn single_dot_at(s: Seq<char>, i: int) -> bool {
    &&& 0 <= i < s.len()
    &&& s[i] == '.'
    &&& forall|j: int| 0 <= j < s.len() && #[trigger] s[j] == '.' ==> j == i
}

/// The subject part of a token whose dot stands at `d`: the characters
/// before the dot are `ident-` followed by at least one digit, and the
/// digits' value fits in `u64`.
pub open spec fn subject_part_wf(s: Seq<char>, d: int) -> bool {
    &&& d > 6
    &&& s.subrange(0, 6) == "ident-"@
    &&& all_digits(s.subrange(6, d))
    &&& digits_val(s.subrange(6, d)) <= u64::MAX
}

/// A structurally valid identity token: exactly one '.', splitting the
/// string into two non-empty parts, the first of the shape
/// `ident-<subject>`. Nothing beyond this structure is checked: the trust
/// model is demo-grade by design.
pub open spec fn token_wf(s: Seq<char>) -> bool {
    exists|i: int| #[trigger] single_dot_at(s, i) && i + 1 < s.len() && subject_part_wf(s, i)
}

/// The index of the token's dot.
pub open spec fn token_dot(s: Seq<char>) -> int {
    choose|i: int| single_dot_at(s, i)
}

/// The subject id a structurally valid token encodes.
pub open spec fn token_subject(s: Seq<char>) -> nat {
    digits_val(s.subrange(6, token_dot(s)))
}

/// With the single dot of `s` known to stand at `d`, well-formedness and the
/// encoded subject are determined by the two parts around `d`.
pub proof fn lemma_token_parts(s: Seq<char>, d: int)
    requires
        single_dot_at(s, d),
    ensures
        token_wf(s) <==> (d + 1 < s.len() && subject_part_wf(s, d)),
        token_dot(s) == d,
        token_subject(s) == digits_val(s.subrange(6, d)),
{
    assert(forall|i: int| #[trigger] single_dot_at(s, i) ==> i == d) by {
        assert forall|i: int| #[trigger] single_dot_at(s, i) implies i == d by {
            assert(s[i] == '.');
        }
    }
    assert(single_dot_at(s, token_dot(s)));
    if d + 1 < s.len() && subject_part_wf(s, d) {
        assert(single_dot_at(s, d) && d + 1 < s.len() && subject_part_wf(s, d));
        assert(token_wf(s));
    }
}

/// `digits_val` of a prefix never exceeds `digits_val` of the whole string.
proof fn lemma_digits_val_prefix(s: Seq<char>, i: int)
    requires
        0 <= i <= s.len(),
    ensures
        digits_val(s.subrange(0, i)) <= digits_val(s),
    decreases s.len() - i,
{
    if i == s.len() {
        assert(s.subrange(0, i) =~= s);
    } else {
        assert(s.drop_last().subrange(0, i) =~= s.subrange(0, i));
        lemma_digits_val_prefix(s.drop_last(), i);
        assert(digits_val(s.drop_last()) * 10 >= digits_val(s.drop_last()));
    }
}

/// Parse an identity token: `Some(subject)` exactly on structurally valid
/// tokens, `None` on every other string.
pub fn parse_token(token: &str) -> (r: Option<u64>)
    ensures
        token_wf(token@) ==> r == Some(token_subject(token@) as u64),
        !token_wf(token@) ==> r is None,
{
    let ghost s = token@;
    let n = token.unicode_len();

    // Scan for dots: the index of the first, and how many there are.
    let mut count: usize = 0;
    let mut dot: usize = 0;
    let mut i: usize = 0;
    while i < n
        invariant
            i <= n,
            n == s.len(),
            s == token@,
            count <= i,
            count == 0 ==> forall|j: int| 0 <= j < i ==> s[j] != '.',
            count > 0 ==> dot < i && s[dot as int] == '.',
            count == 1 ==> forall|j: int| 0 <= j < i && #[trigger] s[j] == '.' ==> j == dot,
            count >= 2 ==> exists|e: int| dot < e < i && #[trigger] s[e] == '.',
        decreases n - i,
    {
        let c = token.get_char(i);
        if c == '.' {
            if count == 0 {
                dot = i;
            }
            count = count + 1;
        }
        i = i + 1;
    }
    if count == 0 {
        proof {
            assert forall|k: int| !(#[trigger] single_dot_at(s, k)) by {
                if 0 <= k < s.len() {
                    assert(s[k] != '.');
                }
            }
        }
        return Option::None;
    }
    if count >= 2 {
        proof {
            let e = choose|e: int| dot < e < n && #[trigger] s[e] == '.';
            assert forall|k: int| !(#[trigger] single_dot_at(s, k)) by {
                if single_dot_at(s, k) {
                    assert(s[dot as int] == '.');
                    assert(s[e] == '.');
                }
            }
        }
        return Option::None;
    }
    proof {
        assert(single_dot_at(s, dot as int));
        lemma_token_parts(s, dot as int);
    }

    // Both parts must be non-empty and the first must carry the prefix.
    if dot + 1 >= n {
        return Option::None;
    }
    if dot <= 6 {
        return Option::None;
    }
    proof {
        reveal_strlit("ident-");
    }
    let c0 = token.get_char(0);
    let c1 = token.get_char(1);
    let c2 = token.get_char(2);
    let c3 = token.get_char(3);
    let c4 = token.get_char(4);
    let c5 = token.get_char(5);
    if !(c0 == 'i' && c1 == 'd' && c2 == 'e' && c3 == 'n' && c4 == 't' && c5 == '-') {
        proof {
            let p = s.subrange(0, 6);
            assert(p[0] == s[0] && p[1] == s[1] && p[2] == s[2] && p[3] == s[3] && p[4] == s[4]
                && p[5] == s[5]);
            assert(p != "ident-"@) by {
                if p == "ident-"@ {
                    assert(p[0] == 'i' && p[1] == 'd' && p[2] == 'e' && p[3] == 'n' && p[4] == 't'
                        && p[5] == '-');
                }
            }
        }
        return Option::None;
    }
    proof {
        assert(s.subrange(0, 6) =~= "ident-"@);
    }

    // Parse the digits between the prefix and the dot.
    let mut value: u64 = 0;
    let mut k: usize = 6;
    while k < dot
        invariant
            6 <= k <= dot,
            dot < n,
            n == s.len(),
            s == token@,
            single_dot_at(s, dot as int),
            dot > 6,
            dot + 1 < n,
            s.subrange(0, 6) == "ident-"@,
            all_digits(s.subrange(6, k as int)),
            value == digits_val(s.subrange(6, k as int)),
        decreases dot - k,
    {
        let ghost prefix = s.subrange(6, k as int);
        let c = token.get_char(k);
        proof {
            let step = s.subrange(6, k + 1);
            assert(step.drop_last() =~= prefix);
            assert(step.last() == s[k as int]);
        }
        if !('0' <= c && c <= '9') {
            proof {
                assert(s.subrange(6, dot as int)[k - 6] == s[k as int]);
                assert(!all_digits(s.subrange(6, dot as int)));
                lemma_token_parts(s, dot as int);
            }
            return Option::None;
        }
        let dv = (c as u32 - '0' as u32) as u64;
        let overflow = if value > u64::MAX / 10 {
            true
        } else {
            let v10 = value * 10;
            dv > u64::MAX - v10
        };
        if overflow {
            proof {
                let step = s.subrange(6, k + 1);
                assert(digits_val(step) == value * 10 + dv);
                assert(digits_val(step) > u64::MAX) by {
                    if value > u64::MAX / 10 {
                        assert(value >= u64::MAX / 10 + 1);
                        assert(value * 10 >= (u64::MAX / 10 + 1) * 10);
                        assert((u64::MAX / 10) * 10 + 10 > u64::MAX) by (nonlinear_arith);
                    }
                }
                let whole = s.subrange(6, dot as int);
                assert(whole.subrange(0, k + 1 - 6) =~= step);
                lemma_digits_val_prefix(whole, k + 1 - 6);
                assert(digits_val(whole) > u64::MAX);
                lemma_token_parts(s, dot as int);
            }
            return Option::None;
        }
        let new_value = value * 10 + dv;
        proof {
            let step = s.subrange(6, k + 1);
            assert(all_digits(step)) by {
                assert forall|j: int| 0 <= j < step.len() implies is_digit(#[trigger] step[j]) by {
                    if j < k - 6 {
                        assert(step[j] == prefix[j]);
                    } else {
                        assert(step[j] == s[k as int]);
                    }
                }
            }
            assert(new_value == digits_val(step));
        }
        value = new_value;
        k = k + 1;
    }
    proof {
        assert(subject_part_wf(s, dot as int));
        lemma_token_parts(s, dot as int);
        assert(token_wf(s));
    }
    Option::Some(value)
}

} // verus!
