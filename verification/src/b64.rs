//! Unpadded base64url decoding, as JWT segments use it: four characters of
//! six bits each yield three bytes; a final chunk of two or three
//! characters yields one or two bytes, and a lone trailing character or any
//! character outside the alphabet makes the input invalid.

use vstd::prelude::*;

verus! {

/// The six-bit value of one base64url character, if it is in the alphabet.
pub open spec fn spec_b64url_digit(c: char) -> Option<int> {
    let u = c as u32;
    if 65 <= u && u <= 90 {
        Some(u - 65)
    } else if 97 <= u && u <= 122 {
        Some(u - 97 + 26)
    } else if 48 <= u && u <= 57 {
        Some(u - 48 + 52)
    } else if c == '-' {
        Some(62int)
    } else if c == '_' {
        Some(63int)
    } else {
        None
    }
}

/// The bytes an unpadded base64url text denotes, if it is well formed.
pub open spec fn spec_b64url_decode(s: Seq<char>) -> Option<Seq<u8>>
    decreases s.len(),
{
    if s.len() == 0 {
        Some(Seq::empty())
    } else if s.len() == 1 {
        None
    } else {
        match (spec_b64url_digit(s[0]), spec_b64url_digit(s[1])) {
            (Some(d0), Some(d1)) => {
                let b0 = (d0 * 4 + d1 / 16) as u8;
                if s.len() == 2 {
                    Some(seq![b0])
                } else {
                    match spec_b64url_digit(s[2]) {
                        Some(d2) => {
                            let b1 = ((d1 % 16) * 16 + d2 / 4) as u8;
                            if s.len() == 3 {
                                Some(seq![b0, b1])
                            } else {
                                match spec_b64url_digit(s[3]) {
                                    Some(d3) => {
                                        let b2 = ((d2 % 4) * 64 + d3) as u8;
                                        match spec_b64url_decode(s.skip(4)) {
                                            Some(rest) => Some(seq![b0, b1, b2] + rest),
                                            None => None,
                                        }
                                    },
                                    None => None,
                                }
                            }
                        },
                        None => None,
                    }
                }
            },
            _ => None,
        }
    }
}

fn b64url_digit(c: char) -> (r: Option<u8>)
    ensures
        match r {
            Some(d) => spec_b64url_digit(c) == Some(d as int) && d < 64,
            None => spec_b64url_digit(c) is None,
        },
{
    let u = c as u32;
    if 65 <= u && u <= 90 {
        Some((u - 65) as u8)
    } else if 97 <= u && u <= 122 {
        Some((u - 97 + 26) as u8)
    } else if 48 <= u && u <= 57 {
        Some((u - 48 + 52) as u8)
    } else if c == '-' {
        Some(62)
    } else if c == '_' {
        Some(63)
    } else {
        None
    }
}

/// Decodes an unpadded base64url text; `None` when it is not well formed.
pub fn b64url_decode(s: &str) -> (r: Option<Vec<u8>>)
    ensures
        match r {
            Some(bytes) => spec_b64url_decode(s@) == Some(bytes@),
            None => spec_b64url_decode(s@) is None,
        },
{
    let n = s.unicode_len();
    let mut out: Vec<u8> = Vec::new();
    let mut i: usize = 0;
    proof {
        assert(s@.skip(0) =~= s@);
    }
    while n >= 4 && i <= n - 4
        invariant
            n == s@.len(),
            i <= n,
            spec_b64url_decode(s@) == (match spec_b64url_decode(s@.skip(i as int)) {
                Some(rest) => Some(out@ + rest),
                None => None::<Seq<u8>>,
            }),
        decreases n - i,
    {
        let ghost tail = s@.skip(i as int);
        proof {
            assert(tail[0] == s@[i as int]);
            assert(tail[1] == s@[i + 1]);
            assert(tail[2] == s@[i + 2]);
            assert(tail[3] == s@[i + 3]);
            assert(tail.skip(4) =~= s@.skip(i + 4));
        }
        let d0 = match b64url_digit(s.get_char(i)) {
            Some(d) => d,
            None => {
                return None;
            },
        };
        let d1 = match b64url_digit(s.get_char(i + 1)) {
            Some(d) => d,
            None => {
                return None;
            },
        };
        let d2 = match b64url_digit(s.get_char(i + 2)) {
            Some(d) => d,
            None => {
                return None;
            },
        };
        let d3 = match b64url_digit(s.get_char(i + 3)) {
            Some(d) => d,
            None => {
                return None;
            },
        };
        let ghost before = out@;
        out.push(d0 * 4 + d1 / 16);
        out.push((d1 % 16) * 16 + d2 / 4);
        out.push((d2 % 4) * 64 + d3);
        proof {
            assert(out@ =~= before.push(out@[before.len() as int]).push(
                out@[before.len() as int + 1],
            ).push(out@[before.len() as int + 2]));
            if spec_b64url_decode(s@.skip(i + 4)) is Some {
                assert(out@ + spec_b64url_decode(s@.skip(i + 4))->Some_0 =~= before
                    + spec_b64url_decode(tail)->Some_0);
            }
        }
        i = i + 4;
    }
    let ghost tail = s@.skip(i as int);
    if i == n {
        proof {
            assert(tail =~= Seq::<char>::empty());
            assert(out@ + Seq::<u8>::empty() =~= out@);
        }
        Some(out)
    } else if n - i == 1 {
        None
    } else {
        proof {
            assert(tail[0] == s@[i as int]);
            assert(tail[1] == s@[i + 1]);
            if n - i == 3 {
                assert(tail[2] == s@[i + 2]);
            }
        }
        let d0 = match b64url_digit(s.get_char(i)) {
            Some(d) => d,
            None => {
                return None;
            },
        };
        let d1 = match b64url_digit(s.get_char(i + 1)) {
            Some(d) => d,
            None => {
                return None;
            },
        };
        let ghost before = out@;
        out.push(d0 * 4 + d1 / 16);
        if n - i == 2 {
            proof {
                assert(out@ + Seq::<u8>::empty() =~= out@);
                assert(out@ =~= before + seq![out@[before.len() as int]]);
            }
            Some(out)
        } else {
            let d2 = match b64url_digit(s.get_char(i + 2)) {
                Some(d) => d,
                None => {
                    return None;
                },
            };
            out.push((d1 % 16) * 16 + d2 / 4);
            proof {
                assert(out@ =~= before + seq![
                    out@[before.len() as int],
                    out@[before.len() as int + 1],
                ]);
            }
            Some(out)
        }
    }
}

} // verus!
