//! Plain-text raster assembly: decimal digits, header lines and pixel
//! lines of the P3 image format.

use vstd::prelude::*;
use vstd::string::StringExecFns;

verus! {

/// The character for decimal digit `d`.
pub open spec fn digit_char(d: int) -> char {
    if d == 0 {
        '0'
    } else if d == 1 {
        '1'
    } else if d == 2 {
        '2'
    } else if d == 3 {
        '3'
    } else if d == 4 {
        '4'
    } else if d == 5 {
        '5'
    } else if d == 6 {
        '6'
    } else if d == 7 {
        '7'
    } else if d == 8 {
        '8'
    } else {
        '9'
    }
}

/// The decimal digits of `n`, most significant first.
pub open spec fn dec_str(n: nat) -> Seq<char>
    decreases n,
{
    if n < 10 {
        seq![digit_char(n as int)]
    } else {
        dec_str(n / 10) + seq![digit_char((n % 10) as int)]
    }
}

/// A pixel line: three decimal channels separated by single spaces.
pub open spec fn rgb_line(r: nat, g: nat, b: nat) -> Seq<char> {
    dec_str(r) + seq![' '] + dec_str(g) + seq![' '] + dec_str(b)
}

/// A pixel line with every channel at most 255.
pub open spec fn is_rgb_line(s: Seq<char>) -> bool {
    exists|r: nat, g: nat, b: nat|
        r <= 255 && g <= 255 && b <= 255 && s == #[trigger] rgb_line(r, g, b)
}

/// The magic line of the format.
pub open spec fn ppm_magic() -> Seq<char> {
    seq!['P', '3']
}

/// The dimensions line: width, a space, height.
pub open spec fn ppm_dims_line(w: nat, h: nat) -> Seq<char> {
    dec_str(w) + seq![' '] + dec_str(h)
}

/// The maximum-channel line.
pub open spec fn ppm_maxval() -> Seq<char> {
    seq!['2', '5', '5']
}

/// One decimal digit as a fresh string.
fn digit_string(d: u32) -> (s: String)
    requires
        d < 10,
    ensures
        s@ == seq![digit_char(d as int)],
{
    if d == 0 {
        let s = String::from_str("0");
        proof {
            reveal_strlit("0");
            assert(s@ =~= seq![digit_char(0)]);
        }
        s
    } else if d == 1 {
        let s = String::from_str("1");
        proof {
            reveal_strlit("1");
            assert(s@ =~= seq![digit_char(1)]);
        }
        s
    } else if d == 2 {
        let s = String::from_str("2");
        proof {
            reveal_strlit("2");
            assert(s@ =~= seq![digit_char(2)]);
        }
        s
    } else if d == 3 {
        let s = String::from_str("3");
        proof {
            reveal_strlit("3");
            assert(s@ =~= seq![digit_char(3)]);
        }
        s
    } else if d == 4 {
        let s = String::from_str("4");
        proof {
            reveal_strlit("4");
            assert(s@ =~= seq![digit_char(4)]);
        }
        s
    } else if d == 5 {
        let s = String::from_str("5");
        proof {
            reveal_strlit("5");
            assert(s@ =~= seq![digit_char(5)]);
        }
        s
    } else if d == 6 {
        let s = String::from_str("6");
        proof {
            reveal_strlit("6");
            assert(s@ =~= seq![digit_char(6)]);
        }
        s
    } else if d == 7 {
        let s = String::from_str("7");
        proof {
            reveal_strlit("7");
            assert(s@ =~= seq![digit_char(7)]);
        }
        s
    } else if d == 8 {
        let s = String::from_str("8");
        proof {
            reveal_strlit("8");
            assert(s@ =~= seq![digit_char(8)]);
        }
        s
    } else {
        let s = String::from_str("9");
        proof {
            reveal_strlit("9");
            assert(s@ =~= seq![digit_char(9)]);
        }
        s
    }
}

/// The decimal text of `n`.
pub fn u32_string(n: u32) -> (s: String)
    ensures
        s@ == dec_str(n as nat),
    decreases n,
{
    if n < 10 {
        digit_string(n)
    } else {
        let mut s = u32_string(n / 10);
        let d = digit_string(n % 10);
        s.append(d.as_str());
        s
    }
}

/// A single space as a fresh string.
fn space_string() -> (s: String)
    ensures
        s@ == seq![' '],
{
    let s = String::from_str(" ");
    proof {
        reveal_strlit(" ");
        assert(s@ =~= seq![' ']);
    }
    s
}

/// The pixel line for the three channels.
pub fn rgb_line_string(r: u32, g: u32, b: u32) -> (s: String)
    ensures
        s@ == rgb_line(r as nat, g as nat, b as nat),
{
    let mut s = u32_string(r);
    let sp = space_string();
    s.append(sp.as_str());
    s.append(u32_string(g).as_str());
    s.append(sp.as_str());
    s.append(u32_string(b).as_str());
    proof {
        assert(s@ =~= rgb_line(r as nat, g as nat, b as nat));
    }
    s
}

/// The magic line as a fresh string.
pub fn ppm_magic_string() -> (s: String)
    ensures
        s@ == ppm_magic(),
{
    let s = String::from_str("P3");
    proof {
        reveal_strlit("P3");
        assert(s@ =~= ppm_magic());
    }
    s
}

/// The dimensions line for the given extent.
pub fn ppm_dims_string(w: u32, h: u32) -> (s: String)
    ensures
        s@ == ppm_dims_line(w as nat, h as nat),
{
    let mut s = u32_string(w);
    let sp = space_string();
    s.append(sp.as_str());
    s.append(u32_string(h).as_str());
    proof {
        assert(s@ =~= ppm_dims_line(w as nat, h as nat));
    }
    s
}

/// The maximum-channel line as a fresh string.
pub fn ppm_maxval_string() -> (s: String)
    ensures
        s@ == ppm_maxval(),
{
    let s = String::from_str("255");
    proof {
        reveal_strlit("255");
        assert(s@ =~= ppm_maxval());
    }
    s
}

} // verus!
