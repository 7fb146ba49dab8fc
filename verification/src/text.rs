//! Verified text building blocks: decimal rendering of identifiers and
//! percent-encoding of free-form path segments.

use vstd::prelude::*;
use vstd::string::{StrSliceExecFns, StringExecFns};

verus! {

/// The character for a single decimal digit.
pub open spec fn digit_char(d: nat) -> char {
    if d == 0 {
        '0'
    } else if d == 1 {
        '1'
    } else if d == 2 {
        '2'
    } else if d == 3 {
        '3'
    } else if d == 4 {
        '4'
    } else if d == 5 {
        '5'
    } else if d == 6 {
        '6'
    } else if d == 7 {
        '7'
    } else if d == 8 {
        '8'
    } else {
        '9'
    }
}

/// The decimal representation of a natural number, most significant digit
/// first, with no leading zeros (and `"0"` for zero).
pub open spec fn dec_rep(n: nat) -> Seq<char>
    decreases n,
{
    if n < 10 {
        seq![digit_char(n)]
    } else {
        dec_rep(n / 10).push(digit_char(n % 10))
    }
}

fn digit_str(d: u32) -> (r: &'static str)
    requires
        d < 10,
    ensures
        r@ == seq![digit_char(d as nat)],
{
    match d {
        0 => {
            proof {
                reveal_strlit("0");
                assert("0"@ =~= seq![digit_char(0)]);
            }
            "0"
        },
        1 => {
            proof {
                reveal_strlit("1");
                assert("1"@ =~= seq![digit_char(1)]);
            }
            "1"
        },
        2 => {
            proof {
                reveal_strlit("2");
                assert("2"@ =~= seq![digit_char(2)]);
            }
            "2"
        },
        3 => {
            proof {
                reveal_strlit("3");
                assert("3"@ =~= seq![digit_char(3)]);
            }
            "3"
        },
        4 => {
            proof {
                reveal_strlit("4");
                assert("4"@ =~= seq![digit_char(4)]);
            }
            "4"
        },
        5 => {
            proof {
                reveal_strlit("5");
                assert("5"@ =~= seq![digit_char(5)]);
            }
            "5"
        },
        6 => {
            proof {
                reveal_strlit("6");
                assert("6"@ =~= seq![digit_char(6)]);
            }
            "6"
        },
        7 => {
            proof {
                reveal_strlit("7");
                assert("7"@ =~= seq![digit_char(7)]);
            }
            "7"
        },
        8 => {
            proof {
                reveal_strlit("8");
                assert("8"@ =~= seq![digit_char(8)]);
            }
            "8"
        },
        _ => {
            proof {
                reveal_strlit("9");
                assert("9"@ =~= seq![digit_char(9)]);
            }
            "9"
        },
    }
}

/// Renders an identifier in decimal, exactly as [`dec_rep`] describes.
pub fn u32_to_string(n: u32) -> (r: String)
    ensures
        r@ == dec_rep(n as nat),
    decreases n,
{
    if n < 10 {
        String::from_str(digit_str(n))
    } else {
        let mut r = u32_to_string(n / 10);
        r.append(digit_str(n % 10));
        proof {
            assert(dec_rep(n as nat) =~= dec_rep((n as nat) / 10) + seq![
                digit_char((n as nat) % 10),
            ]);
        }
        r
    }
}

/// The character for a single hexadecimal digit, upper case.
pub open spec fn hex_char(d: nat) -> char {
    if d < 10 {
        digit_char(d)
    } else if d == 10 {
        'A'
    } else if d == 11 {
        'B'
    } else if d == 12 {
        'C'
    } else if d == 13 {
        'D'
    } else if d == 14 {
        'E'
    } else {
        'F'
    }
}

fn hex_digit_str(d: u8) -> (r: &'static str)
    requires
        d < 16,
    ensures
        r@ == seq![hex_char(d as nat)],
{
    if d < 10 {
        digit_str(d as u32)
    } else {
        match d {
            10 => {
                proof {
                    reveal_strlit("A");
                    assert("A"@ =~= seq![hex_char(10)]);
                }
                "A"
            },
            11 => {
                proof {
                    reveal_strlit("B");
                    assert("B"@ =~= seq![hex_char(11)]);
                }
                "B"
            },
            12 => {
                proof {
                    reveal_strlit("C");
                    assert("C"@ =~= seq![hex_char(12)]);
                }
                "C"
            },
            13 => {
                proof {
                    reveal_strlit("D");
                    assert("D"@ =~= seq![hex_char(13)]);
                }
                "D"
            },
            14 => {
                proof {
                    reveal_strlit("E");
                    assert("E"@ =~= seq![hex_char(14)]);
                }
                "E"
            },
            _ => {
                proof {
                    reveal_strlit("F");
                    assert("F"@ =~= seq![hex_char(15)]);
                }
                "F"
            },
        }
    }
}

/// Characters that percent-encoding keeps as they are: ASCII letters,
/// digits, `-`, `.`, `_` and `~`.
pub open spec fn is_unreserved(c: char) -> bool {
    let u = c as u32;
    (48 <= u <= 57) || (65 <= u <= 90) || (97 <= u <= 122) || u == 45 || u == 46 || u == 95 || u
        == 126
}

/// The `%XX` escape of each byte, in order.
pub open spec fn pct_bytes(bs: Seq<u8>) -> Seq<char>
    decreases bs.len(),
{
    if bs.len() == 0 {
        Seq::<char>::empty()
    } else {
        seq!['%', hex_char((bs[0] / 16) as nat), hex_char((bs[0] % 16) as nat)] + pct_bytes(
            bs.drop_first(),
        )
    }
}

/// How one character is carried into an encoded path segment: kept if
/// unreserved, otherwise every byte of its UTF-8 encoding escaped.
pub open spec fn pct_char(c: char) -> Seq<char> {
    if is_unreserved(c) {
        seq![c]
    } else {
        pct_bytes(vstd::utf8::encode_utf8(seq![c]))
    }
}

/// The percent-encoded form of a whole segment.
pub open spec fn pct_encode_spec(s: Seq<char>) -> Seq<char>
    decreases s.len(),
{
    if s.len() == 0 {
        Seq::<char>::empty()
    } else {
        pct_char(s[0]) + pct_encode_spec(s.drop_first())
    }
}

proof fn lemma_pct_bytes_append(a: Seq<u8>, b: Seq<u8>)
    ensures
        pct_bytes(a + b) == pct_bytes(a) + pct_bytes(b),
    decreases a.len(),
{
    if a.len() == 0 {
        assert(a + b =~= b);
        assert(pct_bytes(a) + pct_bytes(b) =~= pct_bytes(b));
    } else {
        assert((a + b).drop_first() =~= a.drop_first() + b);
        lemma_pct_bytes_append(a.drop_first(), b);
        assert(pct_bytes(a + b) =~= pct_bytes(a) + pct_bytes(b));
    }
}

proof fn lemma_pct_encode_append(a: Seq<char>, b: Seq<char>)
    ensures
        pct_encode_spec(a + b) == pct_encode_spec(a) + pct_encode_spec(b),
    decreases a.len(),
{
    if a.len() == 0 {
        assert(a + b =~= b);
        assert(pct_encode_spec(a) + pct_encode_spec(b) =~= pct_encode_spec(b));
    } else {
        assert((a + b).drop_first() =~= a.drop_first() + b);
        lemma_pct_encode_append(a.drop_first(), b);
        assert(pct_encode_spec(a + b) =~= pct_encode_spec(a) + pct_encode_spec(b));
    }
}

/// Percent-encodes a free-form string for use as one path segment of an
/// endpoint, per [`pct_encode_spec`].
pub fn percent_encode(s: &String) -> (r: String)
    ensures
        r@ == pct_encode_spec(s@),
{
    let n = s.as_str().unicode_len();
    let mut out = String::new();
    let mut i: usize = 0;
    while i < n
        invariant
            n == s@.len(),
            i <= n,
            out@ == pct_encode_spec(s@.take(i as int)),
        decreases n - i,
    {
        let piece = s.as_str().substring_char(i, i + 1);
        proof {
            assert(piece@ =~= seq![s@[i as int]]);
        }
        let c = s.as_str().get_char(i);
        let u = c as u32;
        if (48 <= u && u <= 57) || (65 <= u && u <= 90) || (97 <= u && u <= 122) || u == 45 || u
            == 46 || u == 95 || u == 126 {
            out.append(piece);
            proof {
                assert(pct_char(c) =~= piece@);
            }
        } else {
            let bs = piece.as_bytes();
            proof {
                assert(bs@ == vstd::utf8::encode_utf8(seq![c]));
            }
            let ghost base = out@;
            let m = bs.len();
            let mut j: usize = 0;
            while j < m
                invariant
                    m == bs@.len(),
                    j <= m,
                    bs@ == vstd::utf8::encode_utf8(seq![c]),
                    out@ == base + pct_bytes(bs@.take(j as int)),
                decreases m - j,
            {
                let b = bs[j];
                out.append("%");
                out.append(hex_digit_str(b / 16));
                out.append(hex_digit_str(b % 16));
                proof {
                    reveal_strlit("%");
                    assert(bs@.take(j + 1) =~= bs@.take(j as int) + seq![b]);
                    lemma_pct_bytes_append(bs@.take(j as int), seq![b]);
                    reveal_with_fuel(pct_bytes, 2);
                    assert(seq![b].drop_first() =~= Seq::<u8>::empty());
                    assert(pct_bytes(seq![b]) =~= seq![
                        '%',
                        hex_char((b / 16) as nat),
                        hex_char((b % 16) as nat),
                    ]);
                    assert(out@ =~= base + pct_bytes(bs@.take(j + 1)));
                }
                j += 1;
            }
            proof {
                assert(bs@.take(m as int) =~= bs@);
                assert(pct_char(c) == pct_bytes(bs@));
                assert(out@ =~= base + pct_char(c));
            }
        }
        proof {
            assert(s@.take(i + 1) =~= s@.take(i as int) + seq![s@[i as int]]);
            lemma_pct_encode_append(s@.take(i as int), seq![s@[i as int]]);
            reveal_with_fuel(pct_encode_spec, 2);
            assert(seq![s@[i as int]].drop_first() =~= Seq::<char>::empty());
            assert(pct_encode_spec(seq![s@[i as int]]) =~= pct_char(s@[i as int]));
            assert(out@ =~= pct_encode_spec(s@.take(i + 1)));
        }
        i += 1;
    }
    proof {
        assert(s@.take(n as int) =~= s@);
    }
    out
}

} // verus!
