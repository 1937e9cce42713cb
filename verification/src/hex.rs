//! World wide names in hexadecimal.

use vstd::prelude::*;
use vstd::string::*;

verus! {

/// The lower-case digits in the order of their values.
pub open spec fn digit_chars() -> Seq<char> {
    seq!['0', '1', '2', '3', '4', '5', '6', '7', '8', '9', 'a', 'b', 'c', 'd', 'e', 'f']
}

/// `n` in lower-case hexadecimal, without leading zeros.
pub open spec fn hex_digits(n: nat) -> Seq<char>
    decreases n,
{
    if n < 16 {
        seq![digit_chars()[n as int]]
    } else {
        hex_digits(n / 16).push(digit_chars()[(n % 16) as int])
    }
}

/// `s` with as many zeros in front as it takes to reach `width`.
pub open spec fn zero_padded(s: Seq<char>, width: nat) -> Seq<char> {
    if s.len() < width {
        Seq::new((width - s.len()) as nat, |i: int| '0') + s
    } else {
        s
    }
}

/// A world wide name: its naming authority, the vendor's identifier in at least 6 digits, the
/// vendor's own number in at least 10.
pub open spec fn wwn_text(naa: u64, oui: u64, id: u64) -> Seq<char> {
    hex_digits(naa as nat) + zero_padded(hex_digits(oui as nat), 6) + zero_padded(
        hex_digits(id as nat),
        10,
    )
}

fn digit_str(d: u64) -> (r: &'static str)
    requires
        d < 16,
    ensures
        r@ == seq![digit_chars()[d as int]],
{
    proof {
        reveal_strlit("0");
        reveal_strlit("1");
        reveal_strlit("2");
        reveal_strlit("3");
        reveal_strlit("4");
        reveal_strlit("5");
        reveal_strlit("6");
        reveal_strlit("7");
        reveal_strlit("8");
        reveal_strlit("9");
        reveal_strlit("a");
        reveal_strlit("b");
        reveal_strlit("c");
        reveal_strlit("d");
        reveal_strlit("e");
        reveal_strlit("f");
    }
    match d {
        0 => "0",
        1 => "1",
        2 => "2",
        3 => "3",
        4 => "4",
        5 => "5",
        6 => "6",
        7 => "7",
        8 => "8",
        9 => "9",
        10 => "a",
        11 => "b",
        12 => "c",
        13 => "d",
        14 => "e",
        _ => "f",
    }
}

/// Appends `n` in hexadecimal to `out`, in at least `width` digits.
fn push_hex(out: &mut String, n: u64, width: u64)
    ensures
        final(out)@ == old(out)@ + zero_padded(hex_digits(n as nat), width as nat),
    decreases n, width,
{
    let ghost before = out@;
    let ghost all = hex_digits(n as nat);
    if n < 16 && width <= 1 {
        out.append(digit_str(n));
    } else {
        let rest: u64 = n / 16;
        let rest_width: u64 = if width > 0 {
            width - 1
        } else {
            0
        };
        push_hex(out, rest, rest_width);
        out.append(digit_str(n % 16));
        proof {
            let high = zero_padded(hex_digits(rest as nat), rest_width as nat);
            let low = seq![digit_chars()[(n % 16) as int]];
            if n < 16 {
                assert(hex_digits(0) =~= seq!['0']);
            }
            assert(high + low =~= zero_padded(all, width as nat));
            assert(out@ =~= before + (high + low));
        }
    }
}

/// A world wide name as text.
pub(crate) fn format_wwn(naa: u64, oui: u64, id: u64) -> (r: String)
    ensures
        r@ == wwn_text(naa, oui, id),
{
    let mut out: String = String::new();
    push_hex(&mut out, naa, 1);
    assert(hex_digits(naa as nat).len() >= 1);
    push_hex(&mut out, oui, 6);
    push_hex(&mut out, id, 10);
    assert(out@ =~= wwn_text(naa, oui, id));
    out
}

} // verus!
