use vstd::prelude::*;
use vstd::string::StringExecFns;

verus! {

/// Number of bytes in a content hash.
pub const HASH_BYTES: usize = 16;

/// A fixed-size digest identifying the simulation payload in use. Peers
/// derive room identifiers from its lowercase hexadecimal form, which keeps
/// sessions running incompatible content apart.
#[derive(Clone, Copy, PartialEq, Eq, Debug)]
pub struct RomHash {
    pub bytes: [u8; HASH_BYTES],
}

impl View for RomHash {
    type V = Seq<u8>;

    open spec fn view(&self) -> Seq<u8> {
        self.bytes@
    }
}

/// The lowercase hexadecimal digit for a value below 16.
pub open spec fn hex_digit(n: int) -> char
    recommends
        0 <= n < 16,
{
    if n == 0 {
        '0'
    } else if n == 1 {
        '1'
    } else if n == 2 {
        '2'
    } else if n == 3 {
        '3'
    } else if n == 4 {
        '4'
    } else if n == 5 {
        '5'
    } else if n == 6 {
        '6'
    } else if n == 7 {
        '7'
    } else if n == 8 {
        '8'
    } else if n == 9 {
        '9'
    } else if n == 10 {
        'a'
    } else if n == 11 {
        'b'
    } else if n == 12 {
        'c'
    } else if n == 13 {
        'd'
    } else if n == 14 {
        'e'
    } else {
        'f'
    }
}

/// The lowercase hexadecimal rendering of a byte sequence: two digits per
/// byte, high nibble first.
pub open spec fn hex_of(bytes: Seq<u8>) -> Seq<char>
    decreases bytes.len(),
{
    if bytes.len() == 0 {
        Seq::empty()
    } else {
        hex_of(bytes.drop_last()) + seq![
            hex_digit(bytes.last() as int / 16),
            hex_digit(bytes.last() as int % 16),
        ]
    }
}

/// The one-character string holding the lowercase hexadecimal digit for `n`.
fn hex_digit_str(n: u8) -> (s: &'static str)
    requires
        n < 16,
    ensures
        s@.len() == 1,
        s@[0] == hex_digit(n as int),
{
    proof {
        reveal_strlit("0");
        reveal_strlit("1");
        reveal_strlit("2");
        reveal_strlit("3");
        reveal_strlit("4");
        reveal_strlit("5");
        reveal_strlit("6");
        reveal_strlit("7");
        reveal_strlit("8");
        reveal_strlit("9");
        reveal_strlit("a");
        reveal_strlit("b");
        reveal_strlit("c");
        reveal_strlit("d");
        reveal_strlit("e");
        reveal_strlit("f");
    }
    if n == 0 {
        "0"
    } else if n == 1 {
        "1"
    } else if n == 2 {
        "2"
    } else if n == 3 {
        "3"
    } else if n == 4 {
        "4"
    } else if n == 5 {
        "5"
    } else if n == 6 {
        "6"
    } else if n == 7 {
        "7"
    } else if n == 8 {
        "8"
    } else if n == 9 {
        "9"
    } else if n == 10 {
        "a"
    } else if n == 11 {
        "b"
    } else if n == 12 {
        "c"
    } else if n == 13 {
        "d"
    } else if n == 14 {
        "e"
    } else {
        "f"
    }
}

/// Renders a content hash as 32 lowercase hexadecimal characters.
pub fn hex_string(h: &RomHash) -> (r: String)
    ensures
        r@ == hex_of(h@),
{
    let mut s = String::new();
    let mut i: usize = 0;
    while i < HASH_BYTES
        invariant
            i <= HASH_BYTES,
            s@ == hex_of(h@.subrange(0, i as int)),
        decreases HASH_BYTES - i,
    {
        let b = h.bytes[i];
        let hi = hex_digit_str(b / 16);
        let lo = hex_digit_str(b % 16);
        s.append(hi);
        s.append(lo);
        proof {
            let prefix = h@.subrange(0, i + 1);
            assert(prefix.drop_last() =~= h@.subrange(0, i as int));
            assert(s@ =~= hex_of(prefix));
        }
        i = i + 1;
    }
    proof {
        assert(h@.subrange(0, HASH_BYTES as int) =~= h@);
    }
    s
}

} // verus!
