//! Window class registration records, and the auto-generated class name.
//!
//! When a caller leaves the class name empty, the layer derives one from the
//! record's own fields, so that equal configurations share one registered
//! class: a fixed prefix followed by a sixteen-digit hexadecimal seed.

use vstd::prelude::*;
use vstd::string::StringExecFns;

use crate::handle::Handle;

verus! {

/// A window class registration record, in plain values.
pub struct WndClassEx {
    /// Class style bits.
    pub style: u32,
    /// The class name to register under.
    pub class_name: String,
    /// The module instance owning the class.
    pub hinstance: Handle,
    /// The class icon.
    pub icon: Handle,
    /// The small variant of the class icon; the same icon here.
    pub small_icon: Handle,
    /// The class cursor.
    pub cursor: Handle,
    /// The background brush.
    pub background_brush: Handle,
}

/// The seed an auto-generated class name is derived from: a mix of the
/// record's numeric fields, so that equal records get equal names.
pub open spec fn class_name_seed(
    hinstance: Handle,
    style: u32,
    icon: Handle,
    cursor: Handle,
    brush: Handle,
) -> u64 {
    hinstance.raw ^ ((style as u64) << 32) ^ (icon.raw << 1) ^ (cursor.raw << 2) ^ (brush.raw
        << 3)
}

/// The hexadecimal digit for a value below sixteen.
pub open spec fn hex_char(n: int) -> char {
    seq!['0', '1', '2', '3', '4', '5', '6', '7', '8', '9', 'a', 'b', 'c', 'd', 'e', 'f'][n]
}

/// The last `digits` hexadecimal digits of `v`, most significant first.
pub open spec fn hex_seq(v: u64, digits: nat) -> Seq<char>
    decreases digits,
{
    if digits == 0 {
        Seq::empty()
    } else {
        hex_seq(v / 16, (digits - 1) as nat).push(hex_char((v % 16) as int))
    }
}

/// The class name generated for a seed.
pub open spec fn auto_class_name(seed: u64) -> Seq<char> {
    "wc"@ + hex_seq(seed, 16)
}

/// Appends one hexadecimal digit to `s`.
fn push_hex_digit(s: &mut String, d: u64)
    requires
        d < 16,
    ensures
        final(s)@ == old(s)@.push(hex_char(d as int)),
{
    proof {
        reveal_strlit("0");
        reveal_strlit("1");
        reveal_strlit("2");
        reveal_strlit("3");
        reveal_strlit("4");
        reveal_strlit("5");
        reveal_strlit("6");
        reveal_strlit("7");
        reveal_strlit("8");
        reveal_strlit("9");
        reveal_strlit("a");
        reveal_strlit("b");
        reveal_strlit("c");
        reveal_strlit("d");
        reveal_strlit("e");
        reveal_strlit("f");
    }
    match d {
        0 => s.append("0"),
        1 => s.append("1"),
        2 => s.append("2"),
        3 => s.append("3"),
        4 => s.append("4"),
        5 => s.append("5"),
        6 => s.append("6"),
        7 => s.append("7"),
        8 => s.append("8"),
        9 => s.append("9"),
        10 => s.append("a"),
        11 => s.append("b"),
        12 => s.append("c"),
        13 => s.append("d"),
        14 => s.append("e"),
        _ => s.append("f"),
    }
    proof {
        assert(s@ =~= old(s)@.push(hex_char(d as int)));
    }
}

/// Appends the last `digits` hexadecimal digits of `v` to `s`, most
/// significant first.
fn push_hex(s: &mut String, v: u64, digits: usize)
    ensures
        final(s)@ == old(s)@ + hex_seq(v, digits as nat),
    decreases digits,
{
    if digits == 0 {
        proof {
            assert(old(s)@ + hex_seq(v, 0) =~= old(s)@);
        }
    } else {
        push_hex(s, v / 16, digits - 1);
        push_hex_digit(s, v % 16);
        proof {
            assert(old(s)@ + hex_seq(v, digits as nat) =~= (old(s)@ + hex_seq(
                v / 16,
                (digits - 1) as nat,
            )).push(hex_char((v % 16) as int)));
        }
    }
}

/// Builds the auto-generated class name for a seed: the fixed prefix
/// followed by the seed's sixteen hexadecimal digits.
pub fn generate_class_name(seed: u64) -> (name: String)
    ensures
        name@ == auto_class_name(seed),
{
    let mut name = "wc".to_owned();
    push_hex(&mut name, seed, 16);
    name
}

} // verus!
