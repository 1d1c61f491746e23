//! Text colors written as hexadecimal ARGB (`0xff000000` or `ff000000`).
use vstd::prelude::*;
use crate::text::chars_of;

verus! {

/// `s` without its leading `0x` prefixes.
pub open spec fn strip_hex_prefix(s: Seq<char>) -> Seq<char>
    decreases s.len(),
{
    if s.len() >= 2 && s[0] == '0' && s[1] == 'x' {
        strip_hex_prefix(s.subrange(2, s.len() as int))
    } else {
        s
    }
}

pub open spec fn hex_digit(c: char) -> Option<nat> {
    if '0' <= c && c <= '9' {
        Some((c as int - '0' as int) as nat)
    } else if 'a' <= c && c <= 'f' {
        Some((c as int - 'a' as int + 10) as nat)
    } else if 'A' <= c && c <= 'F' {
        Some((c as int - 'A' as int + 10) as nat)
    } else {
        None
    }
}

/// The value of a run of hexadecimal digits, if all are digits.
pub open spec fn hex_value(s: Seq<char>) -> Option<nat>
    decreases s.len(),
{
    if s.len() == 0 {
        Some(0)
    } else {
        match (hex_value(s.drop_last()), hex_digit(s.last())) {
            (Some(v), Some(d)) => Some(v * 16 + d),
            _ => None,
        }
    }
}

/// The color that `s` denotes: after its `0x` prefixes, an optional `+` and
/// at least one hexadecimal digit, with a value that fits 32 bits.
pub open spec fn color_value(s: Seq<char>) -> Option<u32> {
    let t = strip_hex_prefix(s);
    let body = if t.len() > 0 && t[0] == '+' { t.subrange(1, t.len() as int) } else { t };
    if body.len() == 0 {
        None
    } else {
        match hex_value(body) {
            Some(v) => if v <= u32::MAX {
                Some(v as u32)
            } else {
                None
            },
            None => None,
        }
    }
}

proof fn lemma_hex_prefix(s: Seq<char>, k: int)
    requires
        0 <= k <= s.len(),
        hex_value(s) is Some,
    ensures
        hex_value(s.subrange(0, k)) is Some,
        hex_value(s.subrange(0, k)).unwrap() <= hex_value(s).unwrap(),
    decreases s.len(),
{
    if k < s.len() {
        lemma_hex_prefix(s.drop_last(), k);
        assert(s.drop_last().subrange(0, k) =~= s.subrange(0, k));
    } else {
        assert(s.subrange(0, k) =~= s);
    }
}

fn hex_digit_exec(c: char) -> (r: Option<u64>)
    ensures
        match hex_digit(c) {
            Some(d) => r == Some(d as u64),
            None => r is None,
        },
{
    if '0' <= c && c <= '9' {
        Some((c as u32 - '0' as u32) as u64)
    } else if 'a' <= c && c <= 'f' {
        Some((c as u32 - 'a' as u32 + 10) as u64)
    } else if 'A' <= c && c <= 'F' {
        Some((c as u32 - 'A' as u32 + 10) as u64)
    } else {
        None
    }
}

/// Reads a text color written in hexadecimal, with or without `0x`.
pub fn parse_color(s: &str) -> (r: Result<u32, String>)
    ensures
        r is Ok <==> color_value(s@) is Some,
        r matches Ok(v) ==> color_value(s@) == Some(v),
{
    let c = chars_of(s);
    let mut i: usize = 0;
    assert(c@.subrange(0, c@.len() as int) =~= c@);
    while c.len() - i >= 2 && c[i] == '0' && c[i + 1] == 'x'
        invariant
            i <= c@.len(),
            strip_hex_prefix(c@.subrange(i as int, c@.len() as int)) == strip_hex_prefix(s@),
            c@ == s@,
        decreases c@.len() - i,
    {
        assert(c@.subrange(i as int, c@.len() as int).subrange(2, c@.len() - i) =~= c@.subrange(i + 2, c@.len() as int));
        i += 2;
    }
    let ghost t = c@.subrange(i as int, c@.len() as int);
    assert(strip_hex_prefix(t) == t);
    if i < c.len() && c[i] == '+' {
        i += 1;
    }
    let ghost body = c@.subrange(i as int, c@.len() as int);
    assert(body =~= (if t.len() > 0 && t[0] == '+' { t.subrange(1, t.len() as int) } else { t }));
    if i == c.len() {
        return Err(crate::error::text_of("Invalid color: cannot parse integer from empty string"));
    }
    let start = i;
    let mut v: u64 = 0;
    assert(color_value(s@) == (match hex_value(body) {
        Some(x) => if x <= u32::MAX { Some(x as u32) } else { None },
        None => None,
    }));
    assert(c@.subrange(start as int, start as int) =~= Seq::<char>::empty());
    while i < c.len()
        invariant
            start <= i <= c@.len(),
            c@ == s@,
            color_value(s@) == (match hex_value(body) {
                Some(x) => if x <= u32::MAX { Some(x as u32) } else { None },
                None => None,
            }),
            body == c@.subrange(start as int, c@.len() as int),
            hex_value(c@.subrange(start as int, i as int)) == Some(v as nat),
            v <= u32::MAX,
        decreases c@.len() - i,
    {
        let ghost pre = c@.subrange(start as int, i + 1);
        assert(pre.drop_last() =~= c@.subrange(start as int, i as int));
        match hex_digit_exec(c[i]) {
            None => {
                proof {
                    if hex_value(body) is Some {
                        lemma_hex_prefix(body, i + 1 - start);
                        assert(body.subrange(0, i + 1 - start) =~= pre);
                    }
                }
                return Err(crate::error::text_of("Invalid color: invalid digit found in string"));
            },
            Some(d) => {
                v = v * 16 + d;
                i += 1;
                if v > u32::MAX as u64 {
                    proof {
                        if hex_value(body) is Some {
                            lemma_hex_prefix(body, i - start);
                            assert(body.subrange(0, i - start) =~= pre);
                        }
                    }
                    return Err(crate::error::text_of("Invalid color: number too large to fit in target type"));
                }
            },
        }
    }
    assert(c@.subrange(start as int, i as int) =~= body);
    Ok(v as u32)
}

} // verus!
