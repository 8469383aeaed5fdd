use vstd::prelude::*;

verus! {

/// The lowercase hexadecimal alphabet.
pub open spec fn hex_alphabet() -> Seq<char> {
    seq!['0', '1', '2', '3', '4', '5', '6', '7', '8', '9', 'a', 'b', 'c', 'd', 'e', 'f']
}

pub open spec fn is_lower_hex_char(c: char) -> bool {
    exists|i: int| 0 <= i < 16 && #[trigger] hex_alphabet()[i] == c
}

/// Exactly four lowercase hexadecimal digits.
pub open spec fn is_lower_hex4(s: Seq<char>) -> bool {
    s.len() == 4 && forall|i: int| 0 <= i < 4 ==> is_lower_hex_char(#[trigger] s[i])
}

/// `v` as four lowercase hexadecimal digits, most significant first.
pub open spec fn hex4(v: u16) -> Seq<char> {
    seq![
        hex_alphabet()[(v as int / 4096) % 16],
        hex_alphabet()[(v as int / 256) % 16],
        hex_alphabet()[(v as int / 16) % 16],
        hex_alphabet()[v as int % 16],
    ]
}

pub open spec fn decimal_digit(d: nat) -> char {
    hex_alphabet()[(d % 10) as int]
}

/// `n` in decimal, without leading zeros.
pub open spec fn decimal(n: nat) -> Seq<char>
    decreases n,
{
    if n < 10 {
        seq![decimal_digit(n)]
    } else {
        decimal(n / 10).push(decimal_digit(n % 10))
    }
}

/// `n` in decimal, with a leading minus sign when negative.
pub open spec fn signed_decimal(n: int) -> Seq<char> {
    if n < 0 {
        seq!['-'] + decimal((-n) as nat)
    } else {
        decimal(n as nat)
    }
}

pub proof fn lemma_hex4_is_lower_hex4(v: u16)
    ensures
        is_lower_hex4(hex4(v)),
{
    let s = hex4(v);
    assert forall|i: int| 0 <= i < 4 implies is_lower_hex_char(#[trigger] s[i]) by {
        let k: int = if i == 0 {
            (v as int / 4096) % 16
        } else if i == 1 {
            (v as int / 256) % 16
        } else if i == 2 {
            (v as int / 16) % 16
        } else {
            v as int % 16
        };
        assert(hex_alphabet()[k] == s[i]);
    }
}

/// Zero renders as `"0000"`, which is four lowercase hexadecimal digits.
pub proof fn lemma_zero_digits()
    ensures
        hex4(0) == seq!['0', '0', '0', '0'],
        is_lower_hex4(seq!['0', '0', '0', '0']),
{
    lemma_hex4_is_lower_hex4(0);
    assert(hex4(0) =~= seq!['0', '0', '0', '0']);
}

fn hex_digit_str(d: u16) -> (s: &'static str)
    requires
        d < 16,
    ensures
        s@ == seq![hex_alphabet()[d as int]],
{
    match d {
        0 => {
            proof {
                reveal_strlit("0");
            }
            "0"
        },
        1 => {
            proof {
                reveal_strlit("1");
            }
            "1"
        },
        2 => {
            proof {
                reveal_strlit("2");
            }
            "2"
        },
        3 => {
            proof {
                reveal_strlit("3");
            }
            "3"
        },
        4 => {
            proof {
                reveal_strlit("4");
            }
            "4"
        },
        5 => {
            proof {
                reveal_strlit("5");
            }
            "5"
        },
        6 => {
            proof {
                reveal_strlit("6");
            }
            "6"
        },
        7 => {
            proof {
                reveal_strlit("7");
            }
            "7"
        },
        8 => {
            proof {
                reveal_strlit("8");
            }
            "8"
        },
        9 => {
            proof {
                reveal_strlit("9");
            }
            "9"
        },
        10 => {
            proof {
                reveal_strlit("a");
            }
            "a"
        },
        11 => {
            proof {
                reveal_strlit("b");
            }
            "b"
        },
        12 => {
            proof {
                reveal_strlit("c");
            }
            "c"
        },
        13 => {
            proof {
                reveal_strlit("d");
            }
            "d"
        },
        14 => {
            proof {
                reveal_strlit("e");
            }
            "e"
        },
        _ => {
            proof {
                reveal_strlit("f");
            }
            "f"
        },
    }
}

/// Renders `v` as exactly four lowercase hexadecimal digits.
pub fn format_hex4(v: u16) -> (r: String)
    ensures
        r@ == hex4(v),
        is_lower_hex4(r@),
{
    let mut r = String::new();
    r.append(hex_digit_str((v / 4096) % 16));
    r.append(hex_digit_str((v / 256) % 16));
    r.append(hex_digit_str((v / 16) % 16));
    r.append(hex_digit_str(v % 16));
    proof {
        assert(r@ =~= hex4(v));
        lemma_hex4_is_lower_hex4(v);
    }
    r
}

/// Renders `n` in decimal, without leading zeros.
pub fn format_decimal(n: u32) -> (r: String)
    ensures
        r@ == decimal(n as nat),
{
    let mut m: u32 = n / 10;
    let mut r = hex_digit_str((n % 10) as u16).to_owned();
    proof {
        if n >= 10 {
            assert(decimal(n as nat) =~= decimal(m as nat) + r@);
        } else {
            assert(decimal(n as nat) =~= r@);
        }
    }
    while m > 0
        invariant
            m > 0 ==> decimal(n as nat) == decimal(m as nat) + r@,
            m == 0 ==> decimal(n as nat) == r@,
        decreases m,
    {
        let ghost before = r@;
        let d = hex_digit_str((m % 10) as u16);
        let t = d.to_owned().concat(r.as_str());
        r = t;
        proof {
            let dig = decimal_digit(m as nat);
            assert(r@ == seq![dig] + before);
            if m >= 10 {
                assert(decimal(m as nat) == decimal((m / 10) as nat).push(dig));
                assert(decimal((m / 10) as nat).push(dig) + before =~= decimal((m / 10) as nat)
                    + r@);
            } else {
                assert(decimal(m as nat) =~= seq![dig]);
            }
        }
        m = m / 10;
    }
    r
}

/// Renders `n` in decimal, with a leading minus sign when negative.
pub fn format_signed(n: i32) -> (r: String)
    ensures
        r@ == signed_decimal(n as int),
{
    if n < 0 {
        let magnitude: u32 = (-(n as i64)) as u32;
        proof {
            reveal_strlit("-");
        }
        let mut r = "-".to_owned();
        let digits = format_decimal(magnitude);
        r.append(digits.as_str());
        r
    } else {
        format_decimal(n as u32)
    }
}

} // verus!
