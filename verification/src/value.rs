//! Runtime values of the language and their textual representation.

use vstd::prelude::*;
use vstd::string::StringExecFns;

verus! {

/// A runtime value of the scripting language: nil, a boolean, a number or a
/// string.
///
/// Numbers are 64-bit signed integers. Consequences of that choice, fixed
/// and documented here: division is integer division truncating toward
/// zero; dividing by zero is a runtime error, not a silent result; and an
/// arithmetic result outside the `i64` range is a runtime error as well,
/// never a silent wrap.
pub enum Value {
    Nil,
    Bool(bool),
    Num(i64),
    Str(String),
}

/// Mathematical model of a runtime value; a string is modelled as its
/// character sequence.
pub ghost enum SpecValue {
    Nil,
    Bool(bool),
    Num(i64),
    Str(Seq<char>),
}

impl View for Value {
    type V = SpecValue;

    open spec fn view(&self) -> SpecValue {
        match self {
            Value::Nil => SpecValue::Nil,
            Value::Bool(b) => SpecValue::Bool(*b),
            Value::Num(n) => SpecValue::Num(*n),
            Value::Str(s) => SpecValue::Str(s@),
        }
    }
}

/// The language's falsiness rule: nil and false are falsy, every other
/// value is truthy.
pub open spec fn truthy(v: SpecValue) -> bool {
    match v {
        SpecValue::Nil => false,
        SpecValue::Bool(b) => b,
        SpecValue::Num(_) => true,
        SpecValue::Str(_) => true,
    }
}

/// The language's equality: defined for any pair of values, with values of
/// different kinds simply unequal (never an error).
pub open spec fn vals_equal(a: SpecValue, b: SpecValue) -> bool {
    match (a, b) {
        (SpecValue::Nil, SpecValue::Nil) => true,
        (SpecValue::Bool(x), SpecValue::Bool(y)) => x == y,
        (SpecValue::Num(x), SpecValue::Num(y)) => x == y,
        (SpecValue::Str(x), SpecValue::Str(y)) => x == y,
        _ => false,
    }
}

/// The decimal digits of `n`, most significant first.
pub open spec fn dec_digits(n: nat) -> Seq<char>
    decreases n,
{
    if n < 10 {
        seq![digit_char(n)]
    } else {
        dec_digits(n / 10).push(digit_char(n % 10))
    }
}

/// The character for one decimal digit.
pub open spec fn digit_char(d: nat) -> char {
    if d == 0 {
        '0'
    } else if d == 1 {
        '1'
    } else if d == 2 {
        '2'
    } else if d == 3 {
        '3'
    } else if d == 4 {
        '4'
    } else if d == 5 {
        '5'
    } else if d == 6 {
        '6'
    } else if d == 7 {
        '7'
    } else if d == 8 {
        '8'
    } else {
        '9'
    }
}

/// Textual representation of an integer: an optional minus sign followed by
/// the decimal digits.
pub open spec fn int_text(n: int) -> Seq<char> {
    if n >= 0 {
        dec_digits(n as nat)
    } else {
        seq!['-'] + dec_digits((-n) as nat)
    }
}

/// What the virtual machine prints for each value.
pub open spec fn value_text(v: SpecValue) -> Seq<char> {
    match v {
        SpecValue::Nil => "nil"@,
        SpecValue::Bool(b) => if b {
            "true"@
        } else {
            "false"@
        },
        SpecValue::Num(n) => int_text(n as int),
        SpecValue::Str(s) => s,
    }
}

/// The one-character string for the decimal digit `d`.
fn digit_str(d: u64) -> (r: &'static str)
    requires
        d < 10,
    ensures
        r@ == seq![digit_char(d as nat)],
{
    if d == 0 {
        proof {
            reveal_strlit("0");
            assert("0"@ =~= seq![digit_char(d as nat)]);
        }
        "0"
    } else if d == 1 {
        proof {
            reveal_strlit("1");
            assert("1"@ =~= seq![digit_char(d as nat)]);
        }
        "1"
    } else if d == 2 {
        proof {
            reveal_strlit("2");
            assert("2"@ =~= seq![digit_char(d as nat)]);
        }
        "2"
    } else if d == 3 {
        proof {
            reveal_strlit("3");
            assert("3"@ =~= seq![digit_char(d as nat)]);
        }
        "3"
    } else if d == 4 {
        proof {
            reveal_strlit("4");
            assert("4"@ =~= seq![digit_char(d as nat)]);
        }
        "4"
    } else if d == 5 {
        proof {
            reveal_strlit("5");
            assert("5"@ =~= seq![digit_char(d as nat)]);
        }
        "5"
    } else if d == 6 {
        proof {
            reveal_strlit("6");
            assert("6"@ =~= seq![digit_char(d as nat)]);
        }
        "6"
    } else if d == 7 {
        proof {
            reveal_strlit("7");
            assert("7"@ =~= seq![digit_char(d as nat)]);
        }
        "7"
    } else if d == 8 {
        proof {
            reveal_strlit("8");
            assert("8"@ =~= seq![digit_char(d as nat)]);
        }
        "8"
    } else {
        proof {
            reveal_strlit("9");
            assert("9"@ =~= seq![digit_char(d as nat)]);
        }
        "9"
    }
}

/// Appends the decimal digits of `n` to `s`.
fn push_dec(s: &mut String, n: u64)
    ensures
        final(s)@ == old(s)@ + dec_digits(n as nat),
    decreases n,
{
    if n >= 10 {
        push_dec(s, n / 10);
        let d = digit_str(n % 10);
        s.append(d);
        proof {
            assert(s@ =~= old(s)@ + dec_digits(n as nat));
        }
    } else {
        let d = digit_str(n);
        s.append(d);
        proof {
            assert(s@ =~= old(s)@ + dec_digits(n as nat));
        }
    }
}

/// The decimal text of a 64-bit signed integer.
pub fn num_text(n: i64) -> (r: String)
    ensures
        r@ == int_text(n as int),
{
    let mut s = String::new();
    if n >= 0 {
        push_dec(&mut s, n as u64);
    } else {
        s.append("-");
        let mag: u64 = ((-(n + 1)) as u64) + 1;
        proof {
            assert(mag as int == -(n as int));
        }
        push_dec(&mut s, mag);
        proof {
            reveal_strlit("-");
            assert("-"@ =~= seq!['-']);
            assert(s@ =~= int_text(n as int));
        }
    }
    s
}

impl Value {
    /// An exact copy of the value; unlike a derived `Clone`, its contract
    /// says that the copy has the same model.
    pub fn duplicate(&self) -> (r: Value)
        ensures
            r@ == self@,
    {
        match self {
            Value::Nil => Value::Nil,
            Value::Bool(b) => Value::Bool(*b),
            Value::Num(n) => Value::Num(*n),
            Value::Str(s) => Value::Str(s.clone()),
        }
    }

    /// Whether the value counts as true in a boolean context.
    pub fn is_truthy(&self) -> (r: bool)
        ensures
            r == truthy(self@),
    {
        match self {
            Value::Nil => false,
            Value::Bool(b) => *b,
            Value::Num(_) => true,
            Value::Str(_) => true,
        }
    }

    /// Language-level equality with another value.
    pub fn equals(&self, other: &Value) -> (r: bool)
        ensures
            r == vals_equal(self@, other@),
    {
        match (self, other) {
            (Value::Nil, Value::Nil) => true,
            (Value::Bool(x), Value::Bool(y)) => *x == *y,
            (Value::Num(x), Value::Num(y)) => *x == *y,
            (Value::Str(x), Value::Str(y)) => *x == *y,
            _ => false,
        }
    }

    /// The textual representation the virtual machine prints.
    pub fn to_text(&self) -> (r: String)
        ensures
            r@ == value_text(self@),
    {
        match self {
            Value::Nil => "nil".to_owned(),
            Value::Bool(b) => if *b {
                "true".to_owned()
            } else {
                "false".to_owned()
            },
            Value::Num(n) => num_text(*n),
            Value::Str(s) => s.clone(),
        }
    }
}

} // verus!
