//! Human-readable diagnostics for the two error categories.
//!
//! Each error renders a message combining the target type's name, the column
//! type, and the failure kind. The rendering is specified character by
//! character and proved, numbers included.

use vstd::prelude::*;

use crate::coltype::ColumnType;
use crate::errors::{
    BuiltinDeserializationError, BuiltinDeserializationErrorKind, BuiltinTypeCheckError,
    BuiltinTypeCheckErrorKind, DeserializationError, TypeCheckError,
};
use vstd::string::StringExecFns;

verus! {

/// The character for one decimal digit.
pub open spec fn digit_char(d: nat) -> char {
    if d == 0 {
        '0'
    } else if d == 1 {
        '1'
    } else if d == 2 {
        '2'
    } else if d == 3 {
        '3'
    } else if d == 4 {
        '4'
    } else if d == 5 {
        '5'
    } else if d == 6 {
        '6'
    } else if d == 7 {
        '7'
    } else if d == 8 {
        '8'
    } else {
        '9'
    }
}

/// The decimal rendering of `n`, most significant digit first.
pub open spec fn dec_chars(n: nat) -> Seq<char>
    decreases n,
{
    if n < 10 {
        seq![digit_char(n)]
    } else {
        dec_chars(n / 10).push(digit_char(n % 10))
    }
}

/// Appends one decimal digit.
fn push_digit(s: &mut String, d: u8)
    requires
        d < 10,
    ensures
        final(s)@ == old(s)@ + seq![digit_char(d as nat)],
{
    let t: &str = match d {
        0 => "0",
        1 => "1",
        2 => "2",
        3 => "3",
        4 => "4",
        5 => "5",
        6 => "6",
        7 => "7",
        8 => "8",
        _ => "9",
    };
    proof {
        reveal_strlit("0");
        reveal_strlit("1");
        reveal_strlit("2");
        reveal_strlit("3");
        reveal_strlit("4");
        reveal_strlit("5");
        reveal_strlit("6");
        reveal_strlit("7");
        reveal_strlit("8");
        reveal_strlit("9");
        assert(t@ =~= seq![digit_char(d as nat)]);
    }
    s.append(t);
}

/// Appends the decimal rendering of `n`.
fn push_dec(s: &mut String, n: usize)
    ensures
        final(s)@ == old(s)@ + dec_chars(n as nat),
    decreases n,
{
    if n < 10 {
        push_digit(s, n as u8);
    } else {
        proof {
            vstd::arithmetic::div_mod::lemma_fundamental_div_mod(n as int, 10);
            vstd::arithmetic::div_mod::lemma_mod_bound(n as int, 10);
        }
        push_dec(s, n / 10);
        push_digit(s, (n % 10) as u8);
        proof {
            assert(old(s)@ + dec_chars((n / 10) as nat) + seq![digit_char((n % 10) as nat)]
                =~= old(s)@ + dec_chars(n as nat));
        }
    }
}

impl BuiltinDeserializationErrorKind {
    /// The message this kind renders as.
    pub open spec fn spec_message(self) -> Seq<char> {
        match self {
            BuiltinDeserializationErrorKind::GenericParseError => "malformed cell content"@,
            BuiltinDeserializationErrorKind::ExpectedNonNull =>
                "expected a non-null value, got null"@,
            BuiltinDeserializationErrorKind::ByteLengthMismatch { expected, got } =>
                "the CQL type requires "@ + dec_chars(expected as nat) + " bytes, but got "@
                + dec_chars(got as nat),
            BuiltinDeserializationErrorKind::ExpectedAscii => "expected a valid ASCII string"@,
            BuiltinDeserializationErrorKind::InvalidUtf8 => "invalid UTF-8 string"@,
        }
    }

    /// Renders the kind, exactly as [`Self::spec_message`] says.
    pub fn describe(&self) -> (r: String)
        ensures
            r@ == self.spec_message(),
    {
        match self {
            BuiltinDeserializationErrorKind::GenericParseError => "malformed cell content"
                .to_owned(),
            BuiltinDeserializationErrorKind::ExpectedNonNull => {
                "expected a non-null value, got null".to_owned()
            },
            BuiltinDeserializationErrorKind::ByteLengthMismatch { expected, got } => {
                let mut out = String::from_str("the CQL type requires ");
                push_dec(&mut out, *expected);
                out.append(" bytes, but got ");
                push_dec(&mut out, *got);
                proof {
                    assert(out@ =~= self.spec_message());
                }
                out
            },
            BuiltinDeserializationErrorKind::ExpectedAscii => {
                "expected a valid ASCII string".to_owned()
            },
            BuiltinDeserializationErrorKind::InvalidUtf8 => "invalid UTF-8 string".to_owned(),
        }
    }
}

/// The rendering of an accepted tag set, bracketed and comma-separated.
pub open spec fn tags_list_chars(tags: Seq<ColumnType>) -> Seq<char>
    decreases tags.len(),
{
    if tags.len() == 0 {
        Seq::empty()
    } else if tags.len() == 1 {
        tags[0].spec_name()
    } else {
        tags_list_chars(tags.drop_last()) + ", "@ + tags.last().spec_name()
    }
}

/// Appends the comma-separated names of the tags.
fn push_tags(s: &mut String, tags: &Vec<ColumnType>)
    ensures
        final(s)@ == old(s)@ + tags_list_chars(tags@),
{
    proof {
        reveal_strlit(", ");
    }
    let n = tags.len();
    let mut i: usize = 0;
    while i < n
        invariant
            i <= n == tags@.len(),
            s@ == old(s)@ + tags_list_chars(tags@.take(i as int)),
        decreases n - i,
    {
        if i > 0 {
            s.append(", ");
        }
        s.append(tags[i].name());
        proof {
            reveal_strlit(", ");
            assert(tags@.take(i + 1).drop_last() =~= tags@.take(i as int));
            assert(tags@.take(i + 1).last() == tags@[i as int]);
            assert(s@ =~= old(s)@ + tags_list_chars(tags@.take(i + 1)));
        }
        i = i + 1;
    }
    proof {
        assert(tags@.take(n as int) =~= tags@);
    }
}

impl BuiltinTypeCheckErrorKind {
    /// The message this kind renders as.
    pub open spec fn spec_message(self) -> Seq<char> {
        match self {
            BuiltinTypeCheckErrorKind::MismatchedType { expected } =>
                "expected one of the CQL types: ["@ + tags_list_chars(expected@) + "]"@,
        }
    }

    /// Renders the kind, exactly as [`Self::spec_message`] says.
    pub fn describe(&self) -> (r: String)
        ensures
            r@ == self.spec_message(),
    {
        match self {
            BuiltinTypeCheckErrorKind::MismatchedType { expected } => {
                let mut out = String::from_str("expected one of the CQL types: [");
                push_tags(&mut out, expected);
                out.append("]");
                proof {
                    assert(out@ =~= self.spec_message());
                }
                out
            },
        }
    }
}

impl BuiltinTypeCheckError {
    /// The diagnostic this error renders as.
    pub open spec fn spec_message(self) -> Seq<char> {
        "Failed to type check Rust type "@ + self.rust_name@ + " against CQL type "@
            + self.cql_type.spec_name() + ": "@ + self.kind.spec_message()
    }

    /// Renders the diagnostic, exactly as [`Self::spec_message`] says.
    pub fn describe(&self) -> (r: String)
        ensures
            r@ == self.spec_message(),
    {
        let mut out = String::from_str("Failed to type check Rust type ");
        out.append(self.rust_name);
        out.append(" against CQL type ");
        out.append(self.cql_type.name());
        out.append(": ");
        let kind_msg = self.kind.describe();
        out.append(kind_msg.as_str());
        proof {
            assert(out@ =~= self.spec_message());
        }
        out
    }
}

impl BuiltinDeserializationError {
    /// The diagnostic this error renders as.
    pub open spec fn spec_message(self) -> Seq<char> {
        "Failed to deserialize Rust type "@ + self.rust_name@ + " from CQL type "@
            + self.cql_type.spec_name() + ": "@ + self.kind.spec_message()
    }

    /// Renders the diagnostic, exactly as [`Self::spec_message`] says.
    pub fn describe(&self) -> (r: String)
        ensures
            r@ == self.spec_message(),
    {
        let mut out = String::from_str("Failed to deserialize Rust type ");
        out.append(self.rust_name);
        out.append(" from CQL type ");
        out.append(self.cql_type.name());
        out.append(": ");
        let kind_msg = self.kind.describe();
        out.append(kind_msg.as_str());
        proof {
            assert(out@ =~= self.spec_message());
        }
        out
    }
}

impl TypeCheckError {
    /// Renders the carried error's diagnostic.
    pub fn describe(&self) -> (r: String)
        ensures
            r@ == self.0.spec_message(),
    {
        self.0.describe()
    }
}

impl DeserializationError {
    /// Renders the carried error's diagnostic.
    pub fn describe(&self) -> (r: String)
        ensures
            r@ == self.0.spec_message(),
    {
        self.0.describe()
    }
}

} // verus!
