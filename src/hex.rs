//! Lower-case hexadecimal text for byte strings.
use vstd::prelude::*;
use vstd::string::StringExecFns;

verus! {

/// The lower-case hex digit for a value below 16.
pub open spec fn hex_char(n: u8) -> char {
    if n == 0 {
        '0'
    } else 
    if n == 1 {
        '1'
    } else 
    if n == 2 {
        '2'
    } else 
    if n == 3 {
        '3'
    } else 
    if n == 4 {
        '4'
    } else 
    if n == 5 {
        '5'
    } else 
    if n == 6 {
        '6'
    } else 
    if n == 7 {
        '7'
    } else 
    if n == 8 {
        '8'
    } else 
    if n == 9 {
        '9'
    } else 
    if n == 10 {
        'a'
    } else 
    if n == 11 {
        'b'
    } else 
    if n == 12 {
        'c'
    } else 
    if n == 13 {
        'd'
    } else 
    if n == 14 {
        'e'
    } else {
        'f'
    }
}

/// Two lower-case hex digits per byte, high nibble first.
pub open spec fn hex_of(b: Seq<u8>) -> Seq<char> {
    Seq::new(
        2 * b.len(),
        |i: int| if i % 2 == 0 { hex_char(b[i / 2] / 16) } else { hex_char(b[i / 2] % 16) },
    )
}

fn hex_digit(n: u8) -> (r: &'static str)
    requires
        n < 16,
    ensures
        r@ == seq![hex_char(n)],
{
    proof {
        reveal_strlit("0");
        reveal_strlit("1");
        reveal_strlit("2");
        reveal_strlit("3");
        reveal_strlit("4");
        reveal_strlit("5");
        reveal_strlit("6");
        reveal_strlit("7");
        reveal_strlit("8");
        reveal_strlit("9");
        reveal_strlit("a");
        reveal_strlit("b");
        reveal_strlit("c");
        reveal_strlit("d");
        reveal_strlit("e");
        reveal_strlit("f");
    }
    match n {
        0 => "0",
        1 => "1",
        2 => "2",
        3 => "3",
        4 => "4",
        5 => "5",
        6 => "6",
        7 => "7",
        8 => "8",
        9 => "9",
        10 => "a",
        11 => "b",
        12 => "c",
        13 => "d",
        14 => "e",
        _ => "f",
    }
}

/// Encodes bytes as lower-case hex, two digits per byte.
pub fn hex_encode(bytes: &[u8]) -> (r: String)
    ensures
        r@ == hex_of(bytes@),
{
    let mut out = String::new();
    let mut i: usize = 0;
    while i < bytes.len()
        invariant
            i <= bytes@.len(),
            out@ == hex_of(bytes@.subrange(0, i as int)),
        decreases bytes@.len() - i,
    {
        let b = bytes[i];
        let ghost before = out@;
        out.append(hex_digit(b / 16));
        out.append(hex_digit(b % 16));
        i = i + 1;
        let ghost sub = bytes@.subrange(0, i as int);
        assert forall|k: int| 0 <= k < 2 * i implies #[trigger] out@[k] == hex_of(sub)[k] by {
            if k < 2 * (i - 1) {
                assert(sub[k / 2] == bytes@.subrange(0, i - 1)[k / 2]);
            }
        }
        assert(out@ =~= hex_of(sub));
    }
    assert(bytes@.subrange(0, bytes@.len() as int) =~= bytes@);
    out
}

} // verus!
