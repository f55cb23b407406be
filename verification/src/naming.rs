//! Names of the files that sit beside the backing file.
//!
//! For a backing path `p`, the lock file is `p` with its extension replaced
//! by `flock`, and each store stages its output in `p` with its extension
//! replaced by eight lower-case hexadecimal digits followed by `.tmp`.

use vstd::prelude::*;
use vstd::string::StringExecFns;

verus! {

/// The sixteen hexadecimal digits, in order of value.
pub open spec fn hex_digits() -> Seq<char> {
    seq!['0', '1', '2', '3', '4', '5', '6', '7', '8', '9', 'a', 'b', 'c', 'd', 'e', 'f']
}

/// The digit that writes `d`, for `0 <= d < 16`.
pub open spec fn hex_digit(d: int) -> char
    recommends
        0 <= d < 16,
{
    hex_digits()[d]
}

/// The hexadecimal digit of `n` that stands at the place worth `place`,
/// a power of sixteen.
pub open spec fn nibble(n: u32, place: int) -> int {
    (n as int / place) % 16
}

/// `n` written as exactly eight hexadecimal digits, most significant first.
pub open spec fn hex8(n: u32) -> Seq<char> {
    seq![
        hex_digit(nibble(n, 0x1000_0000)),
        hex_digit(nibble(n, 0x100_0000)),
        hex_digit(nibble(n, 0x10_0000)),
        hex_digit(nibble(n, 0x1_0000)),
        hex_digit(nibble(n, 0x1000)),
        hex_digit(nibble(n, 0x100)),
        hex_digit(nibble(n, 0x10)),
        hex_digit(nibble(n, 1)),
    ]
}

/// Extension of the lock file.
pub open spec fn lock_extension_spec() -> Seq<char> {
    seq!['f', 'l', 'o', 'c', 'k']
}

/// Extension of the staging file whose suffix is `suffix`.
pub open spec fn temp_extension_spec(suffix: u32) -> Seq<char> {
    hex8(suffix) + seq!['.', 't', 'm', 'p']
}

/// The extension that replaces the backing path's own to name the lock file.
pub fn lock_extension() -> (ext: &'static str)
    ensures
        ext@ == lock_extension_spec(),
{
    proof {
        reveal_strlit("flock");
    }
    let ext = "flock";
    assert(ext@ =~= lock_extension_spec());
    ext
}

/// One hexadecimal digit as text.
fn digit_text(d: u32) -> (text: &'static str)
    requires
        d < 16,
    ensures
        text@ == seq![hex_digit(d as int)],
{
    proof {
        reveal_strlit("0");
        reveal_strlit("1");
        reveal_strlit("2");
        reveal_strlit("3");
        reveal_strlit("4");
        reveal_strlit("5");
        reveal_strlit("6");
        reveal_strlit("7");
        reveal_strlit("8");
        reveal_strlit("9");
        reveal_strlit("a");
        reveal_strlit("b");
        reveal_strlit("c");
        reveal_strlit("d");
        reveal_strlit("e");
        reveal_strlit("f");
    }
    let text = match d {
        0 => "0",
        1 => "1",
        2 => "2",
        3 => "3",
        4 => "4",
        5 => "5",
        6 => "6",
        7 => "7",
        8 => "8",
        9 => "9",
        10 => "a",
        11 => "b",
        12 => "c",
        13 => "d",
        14 => "e",
        _ => "f",
    };
    assert(text@ =~= seq![hex_digit(d as int)]);
    text
}

/// The extension that replaces the backing path's own to name the staging
/// file of one store: `suffix` as eight hexadecimal digits, then `.tmp`.
pub fn temp_extension(suffix: u32) -> (ext: String)
    ensures
        ext@ == temp_extension_spec(suffix),
{
    proof {
        reveal_strlit(".tmp");
    }
    let mut ext = String::new();
    ext.append(digit_text((suffix / 0x1000_0000) % 16));
    ext.append(digit_text((suffix / 0x100_0000) % 16));
    ext.append(digit_text((suffix / 0x10_0000) % 16));
    ext.append(digit_text((suffix / 0x1_0000) % 16));
    ext.append(digit_text((suffix / 0x1000) % 16));
    ext.append(digit_text((suffix / 0x100) % 16));
    ext.append(digit_text((suffix / 0x10) % 16));
    ext.append(digit_text(suffix % 16));
    assert(ext@ =~= hex8(suffix));
    ext.append(".tmp");
    assert(ext@ =~= temp_extension_spec(suffix));
    ext
}

} // verus!
