use vstd::prelude::*;
use vstd::string::StringExecFns;

use crate::sharky_data_types::{DataModel, SharkyDataType};

verus! {

/// The character of decimal digit `d`.
pub open spec fn digit_char(d: nat) -> char {
    (48 + d) as char
}

/// The decimal digits of `n`, most significant first, with no leading zeros.
pub open spec fn decimal(n: nat) -> Seq<char>
    decreases n,
{
    if n < 10 {
        seq![digit_char(n)]
    } else {
        decimal(n / 10).push(digit_char(n % 10))
    }
}

/// `n` in decimal, with a leading `-` when it is negative.
pub open spec fn signed_decimal(n: int) -> Seq<char> {
    if n < 0 {
        seq!['-'] + decimal((-n) as nat)
    } else {
        decimal(n as nat)
    }
}

/// How a value is printed: its kind and what it holds, such as `Max(3)`,
/// `Int(-4)`, `Byte(7)`, `Bool(true)`, `Ref(2)` or `nil`. A real is printed
/// as a binary64 number and a byte string as text, which the host does, so
/// those two have no form here.
pub open spec fn printed(v: DataModel) -> Option<Seq<char>> {
    match v {
        DataModel::Nil => Some(seq!['n', 'i', 'l']),
        DataModel::Max(x) => Some(seq!['M', 'a', 'x', '('] + decimal(x as nat) + seq![')']),
        DataModel::Int(x) => Some(seq!['I', 'n', 't', '('] + signed_decimal(x as int) + seq![')']),
        DataModel::Byte(x) => Some(seq!['B', 'y', 't', 'e', '('] + decimal(x as nat) + seq![')']),
        DataModel::Bool(b) => Some(
            seq!['B', 'o', 'o', 'l', '('] + (if b {
                seq!['t', 'r', 'u', 'e']
            } else {
                seq!['f', 'a', 'l', 's', 'e']
            }) + seq![')'],
        ),
        DataModel::HeapReference(x) => Some(seq!['R', 'e', 'f', '('] + decimal(x as nat) + seq![')']),
        DataModel::Real(_) => None,
        DataModel::ByteString(_) => None,
    }
}

/// Appends the character of digit `d`.
fn append_digit(s: &mut String, d: u64)
    requires
        d < 10,
    ensures
        final(s)@ == old(s)@.push(digit_char(d as nat)),
{
    let text: &str = match d {
        0 => "0",
        1 => "1",
        2 => "2",
        3 => "3",
        4 => "4",
        5 => "5",
        6 => "6",
        7 => "7",
        8 => "8",
        _ => "9",
    };
    proof {
        reveal_strlit("0");
        reveal_strlit("1");
        reveal_strlit("2");
        reveal_strlit("3");
        reveal_strlit("4");
        reveal_strlit("5");
        reveal_strlit("6");
        reveal_strlit("7");
        reveal_strlit("8");
        reveal_strlit("9");
    }
    s.append(text);
    assert(s@ =~= old(s)@.push(digit_char(d as nat)));
}

/// Appends the decimal digits of `n`.
fn append_decimal(s: &mut String, n: u64)
    ensures
        final(s)@ == old(s)@ + decimal(n as nat),
    decreases n,
{
    if n >= 10 {
        append_decimal(s, n / 10);
    }
    append_digit(s, n % 10);
    assert(s@ =~= old(s)@ + decimal(n as nat));
}

/// Appends `text`, a literal whose characters the caller reveals.
fn append_text(s: &mut String, text: &str)
    ensures
        final(s)@ == old(s)@ + text@,
{
    s.append(text);
}

impl SharkyDataType {
    /// The printed form of the value (see `printed`); `None` for a real and a
    /// byte string.
    pub fn to_string(&self) -> (r: Option<String>)
        ensures
            match printed(self@) {
                Some(t) => r matches Some(s) && s@ == t,
                None => r is None,
            },
    {
        proof {
            reveal_strlit("nil");
            reveal_strlit("Max(");
            reveal_strlit("Int(");
            reveal_strlit("Int(-");
            reveal_strlit("Byte(");
            reveal_strlit("Bool(true)");
            reveal_strlit("Bool(false)");
            reveal_strlit("Ref(");
            reveal_strlit(")");
        }
        let mut s = String::from_str("");
        assert(s@ =~= Seq::<char>::empty()) by {
            reveal_strlit("");
        }
        match self {
            SharkyDataType::Nil => {
                append_text(&mut s, "nil");
            },
            SharkyDataType::Max(x) => {
                append_text(&mut s, "Max(");
                append_decimal(&mut s, *x as u64);
                append_text(&mut s, ")");
            },
            SharkyDataType::Int(x) => {
                if *x < 0 {
                    append_text(&mut s, "Int(-");
                    let magnitude: u64 = (0i128 - *x as i128) as u64;
                    append_decimal(&mut s, magnitude);
                } else {
                    append_text(&mut s, "Int(");
                    append_decimal(&mut s, *x as u64);
                }
                append_text(&mut s, ")");
            },
            SharkyDataType::Byte(x) => {
                append_text(&mut s, "Byte(");
                append_decimal(&mut s, *x as u64);
                append_text(&mut s, ")");
            },
            SharkyDataType::Bool(b) => {
                if *b {
                    append_text(&mut s, "Bool(true)");
                } else {
                    append_text(&mut s, "Bool(false)");
                }
            },
            SharkyDataType::HeapReference(x) => {
                append_text(&mut s, "Ref(");
                append_decimal(&mut s, *x as u64);
                append_text(&mut s, ")");
            },
            SharkyDataType::Real(_) => {
                return None;
            },
            SharkyDataType::ByteString(_) => {
                return None;
            },
        }
        assert(printed(self@) matches Some(t) && s@ =~= t);
        Some(s)
    }
}

} // verus!
