//! Primitive column types and partition transforms, with their text forms.

use vstd::prelude::*;
use vstd::string::*;
use crate::catalog::{split_on, split_string, views};
use crate::error::IcebergError;
use crate::text::{
    all_digits, between, dec_string, digit_char, digits_value, i64_to_text, int_string, parse_uint, parse_uint_spec, starts_with, text_between,
    text_eq, text_starts_with, u64_to_text,
};

verus! {

/// Primitive types of a schema.
#[derive(Debug, PartialEq, Eq, Clone, Copy, Structural)]
pub enum PrimitiveType {
    /// True or false.
    Boolean,
    /// 32-bit signed integer.
    Int,
    /// 64-bit signed integer.
    Long,
    /// 32-bit floating point.
    Float,
    /// 64-bit floating point.
    Double,
    /// Fixed point decimal.
    Decimal {
        /// The number of digits.
        precision: i32,
        /// The number of digits right of the point.
        scale: u8,
    },
    /// Calendar date.
    Date,
    /// Time of day.
    Time,
    /// Timestamp without time zone.
    Timestamp,
    /// Timestamp with time zone.
    Timestampz,
    /// Character string.
    String,
    /// Universally unique identifier.
    Uuid,
    /// Fixed-length byte array.
    Fixed(u64),
    /// Byte array of any length.
    Binary,
}

/// The text form of a primitive type without parameters.
pub open spec fn simple_type_text(t: PrimitiveType) -> Seq<char> {
    match t {
        PrimitiveType::Boolean => "boolean"@,
        PrimitiveType::Int => "int"@,
        PrimitiveType::Long => "long"@,
        PrimitiveType::Float => "float"@,
        PrimitiveType::Double => "double"@,
        PrimitiveType::Decimal { .. } => "decimal"@,
        PrimitiveType::Date => "date"@,
        PrimitiveType::Time => "time"@,
        PrimitiveType::Timestamp => "timestamp"@,
        PrimitiveType::Timestampz => "timestampz"@,
        PrimitiveType::String => "string"@,
        PrimitiveType::Uuid => "uuid"@,
        PrimitiveType::Fixed(_) => "fixed"@,
        PrimitiveType::Binary => "binary"@,
    }
}

/// The text form of a primitive type in a schema document:
/// `decimal(P,S)`, `fixed[L]`, or the type's name.
pub open spec fn primitive_text(t: PrimitiveType) -> Seq<char> {
    match t {
        PrimitiveType::Decimal { precision, scale } =>
            "decimal("@ + int_string(precision as int) + ","@ + dec_string(scale as nat) + ")"@,
        PrimitiveType::Fixed(l) => "fixed["@ + dec_string(l as nat) + "]"@,
        _ => simple_type_text(t),
    }
}

/// The decimal type written in `s`, `decimal(P,S)` with `P` and `S` runs of digits.
pub open spec fn decimal_from_text(s: Seq<char>) -> Option<PrimitiveType> {
    match between(s, "decimal("@, ")"@) {
        Some(m) => {
            let parts = split_on(m, ',');
            if parts.len() == 2 {
                match (parse_uint_spec(parts[0], 0x7fff_ffff), parse_uint_spec(parts[1], 255)) {
                    (Some(p), Some(sc)) => Some(PrimitiveType::Decimal { precision: p as i32, scale: sc as u8 }),
                    _ => None,
                }
            } else {
                None
            }
        },
        None => None,
    }
}

/// The fixed type written in `s`, `fixed[L]` with `L` a run of digits.
pub open spec fn fixed_from_text(s: Seq<char>) -> Option<PrimitiveType> {
    match between(s, "fixed["@, "]"@) {
        Some(m) => match parse_uint_spec(m, 0xffff_ffff_ffff_ffff) {
            Some(l) => Some(PrimitiveType::Fixed(l as u64)),
            None => None,
        },
        None => None,
    }
}

/// The primitive type written in `s`, if `s` is one.
pub open spec fn primitive_from_text(s: Seq<char>) -> Option<PrimitiveType> {
    if starts_with(s, "decimal"@) {
        decimal_from_text(s)
    } else if starts_with(s, "fixed"@) {
        fixed_from_text(s)
    } else if s == "boolean"@ {
        Some(PrimitiveType::Boolean)
    } else if s == "int"@ {
        Some(PrimitiveType::Int)
    } else if s == "long"@ {
        Some(PrimitiveType::Long)
    } else if s == "float"@ {
        Some(PrimitiveType::Float)
    } else if s == "double"@ {
        Some(PrimitiveType::Double)
    } else if s == "date"@ {
        Some(PrimitiveType::Date)
    } else if s == "time"@ {
        Some(PrimitiveType::Time)
    } else if s == "timestamp"@ {
        Some(PrimitiveType::Timestamp)
    } else if s == "timestampz"@ {
        Some(PrimitiveType::Timestampz)
    } else if s == "string"@ {
        Some(PrimitiveType::String)
    } else if s == "uuid"@ {
        Some(PrimitiveType::Uuid)
    } else if s == "binary"@ {
        Some(PrimitiveType::Binary)
    } else {
        None
    }
}

impl PrimitiveType {
    /// Read a primitive type from its text form.
    pub fn from_text(s: &str) -> (r: Result<PrimitiveType, IcebergError>)
        ensures
            r is Ok <==> primitive_from_text(s@) is Some,
            r is Ok ==> r->Ok_0 == primitive_from_text(s@)->Some_0,
            r is Err ==> r->Err_0 is Format,
    {
        let t = if text_starts_with(s, "decimal") {
            parse_decimal(s)
        } else if text_starts_with(s, "fixed") {
            match text_between(s, "fixed[", "]") {
                Some(m) => match parse_uint(m, 0xffff_ffff_ffff_ffff) {
                    Some(l) => Some(PrimitiveType::Fixed(l)),
                    None => None,
                },
                None => None,
            }
        } else if text_eq(s, "boolean") {
            Some(PrimitiveType::Boolean)
        } else if text_eq(s, "int") {
            Some(PrimitiveType::Int)
        } else if text_eq(s, "long") {
            Some(PrimitiveType::Long)
        } else if text_eq(s, "float") {
            Some(PrimitiveType::Float)
        } else if text_eq(s, "double") {
            Some(PrimitiveType::Double)
        } else if text_eq(s, "date") {
            Some(PrimitiveType::Date)
        } else if text_eq(s, "time") {
            Some(PrimitiveType::Time)
        } else if text_eq(s, "timestamp") {
            Some(PrimitiveType::Timestamp)
        } else if text_eq(s, "timestampz") {
            Some(PrimitiveType::Timestampz)
        } else if text_eq(s, "string") {
            Some(PrimitiveType::String)
        } else if text_eq(s, "uuid") {
            Some(PrimitiveType::Uuid)
        } else if text_eq(s, "binary") {
            Some(PrimitiveType::Binary)
        } else {
            None
        };
        match t {
            Some(t) => Ok(t),
            None => Err(IcebergError::Format(String::from_str("Invalid primitive type"))),
        }
    }

    /// The text form of the type in a schema document.
    pub fn to_text(&self) -> (r: String)
        ensures
            r@ == primitive_text(*self),
    {
        match self {
            PrimitiveType::Decimal { precision, scale } => {
                let mut r = String::from_str("decimal(");
                let p = i64_to_text(*precision as i64);
                r.append(p.as_str());
                r.append(",");
                let sc = u64_to_text(*scale as u64);
                r.append(sc.as_str());
                r.append(")");
                r
            },
            PrimitiveType::Fixed(l) => {
                let mut r = String::from_str("fixed[");
                let d = u64_to_text(*l);
                r.append(d.as_str());
                r.append("]");
                r
            },
            _ => self.to_string(),
        }
    }

    /// The name of the type, without parameters.
    pub fn to_string(&self) -> (r: String)
        ensures
            r@ == simple_type_text(*self),
    {
        match self {
            PrimitiveType::Boolean => String::from_str("boolean"),
            PrimitiveType::Int => String::from_str("int"),
            PrimitiveType::Long => String::from_str("long"),
            PrimitiveType::Float => String::from_str("float"),
            PrimitiveType::Double => String::from_str("double"),
            PrimitiveType::Decimal { .. } => String::from_str("decimal"),
            PrimitiveType::Date => String::from_str("date"),
            PrimitiveType::Time => String::from_str("time"),
            PrimitiveType::Timestamp => String::from_str("timestamp"),
            PrimitiveType::Timestampz => String::from_str("timestampz"),
            PrimitiveType::String => String::from_str("string"),
            PrimitiveType::Uuid => String::from_str("uuid"),
            PrimitiveType::Fixed(_) => String::from_str("fixed"),
            PrimitiveType::Binary => String::from_str("binary"),
        }
    }
}

fn parse_decimal(s: &str) -> (r: Option<PrimitiveType>)
    ensures
        r == decimal_from_text(s@),
{
    match text_between(s, "decimal(", ")") {
        Some(m) => {
            let parts = split_string(m, ',');
            if parts.len() != 2 {
                return None;
            }
            assert(parts@[0]@ == views(parts@)[0]);
            assert(parts@[1]@ == views(parts@)[1]);
            let p = parse_uint(parts[0].as_str(), 0x7fff_ffff);
            let sc = parse_uint(parts[1].as_str(), 255);
            match (p, sc) {
                (Some(p), Some(sc)) => Some(PrimitiveType::Decimal { precision: p as i32, scale: sc as u8 }),
                _ => None,
            }
        },
        None => None,
    }
}

/// A transformation applied to a source column to produce a partition value.
#[derive(Debug, PartialEq, Eq, Clone, Copy, Structural)]
pub enum Transform {
    /// Always produces null.
    Void,
    /// The source value, unmodified.
    Identity,
    /// Years from 1970.
    Year,
    /// Months from 1970-01-01.
    Month,
    /// Days from 1970-01-01.
    Day,
    /// Hours from 1970-01-01 00:00:00.
    Hour,
    /// Hash of the value, mod N.
    Bucket(u32),
    /// The value truncated to a width.
    Truncate(u32),
}

/// The text form of a transform: its name, or `bucket[N]`, `truncate[W]`.
pub open spec fn transform_text(t: Transform) -> Seq<char> {
    match t {
        Transform::Void => "void"@,
        Transform::Identity => "identity"@,
        Transform::Year => "year"@,
        Transform::Month => "month"@,
        Transform::Day => "day"@,
        Transform::Hour => "hour"@,
        Transform::Bucket(n) => "bucket["@ + dec_string(n as nat) + "]"@,
        Transform::Truncate(w) => "truncate["@ + dec_string(w as nat) + "]"@,
    }
}

/// The number between `pre` and `]`, when it is a run of digits that fits 32 bits.
pub open spec fn bracket_arg(s: Seq<char>, pre: Seq<char>) -> Option<nat> {
    match between(s, pre, "]"@) {
        Some(m) => parse_uint_spec(m, 0xffff_ffff),
        None => None,
    }
}

/// The transform written in `s`, if `s` is one.
pub open spec fn transform_from_text(s: Seq<char>) -> Option<Transform> {
    if starts_with(s, "bucket"@) {
        match bracket_arg(s, "bucket["@) {
            Some(n) => Some(Transform::Bucket(n as u32)),
            None => None,
        }
    } else if starts_with(s, "truncate"@) {
        match bracket_arg(s, "truncate["@) {
            Some(w) => Some(Transform::Truncate(w as u32)),
            None => None,
        }
    } else if s == "void"@ {
        Some(Transform::Void)
    } else if s == "identity"@ {
        Some(Transform::Identity)
    } else if s == "year"@ {
        Some(Transform::Year)
    } else if s == "month"@ {
        Some(Transform::Month)
    } else if s == "day"@ {
        Some(Transform::Day)
    } else if s == "hour"@ {
        Some(Transform::Hour)
    } else {
        None
    }
}

fn parse_bracket_arg(s: &str, pre: &str) -> (r: Option<u32>)
    ensures
        r is Some <==> bracket_arg(s@, pre@) is Some,
        r is Some ==> r->Some_0 as nat == bracket_arg(s@, pre@)->Some_0,
{
    match text_between(s, pre, "]") {
        Some(m) => match parse_uint(m, 0xffff_ffff) {
            Some(n) => Some(n as u32),
            None => None,
        },
        None => None,
    }
}

impl Transform {
    /// Read a transform from its text form.
    pub fn from_text(s: &str) -> (r: Result<Transform, IcebergError>)
        ensures
            r is Ok <==> transform_from_text(s@) is Some,
            r is Ok ==> r->Ok_0 == transform_from_text(s@)->Some_0,
            r is Err ==> r->Err_0 is Format,
    {
        let t = if text_starts_with(s, "bucket") {
            match parse_bracket_arg(s, "bucket[") {
                Some(n) => Some(Transform::Bucket(n)),
                None => None,
            }
        } else if text_starts_with(s, "truncate") {
            match parse_bracket_arg(s, "truncate[") {
                Some(w) => Some(Transform::Truncate(w)),
                None => None,
            }
        } else if text_eq(s, "void") {
            Some(Transform::Void)
        } else if text_eq(s, "identity") {
            Some(Transform::Identity)
        } else if text_eq(s, "year") {
            Some(Transform::Year)
        } else if text_eq(s, "month") {
            Some(Transform::Month)
        } else if text_eq(s, "day") {
            Some(Transform::Day)
        } else if text_eq(s, "hour") {
            Some(Transform::Hour)
        } else {
            None
        };
        match t {
            Some(t) => Ok(t),
            None => Err(IcebergError::Format(String::from_str("Invalid transform"))),
        }
    }

    /// The text form of the transform.
    pub fn to_text(&self) -> (r: String)
        ensures
            r@ == transform_text(*self),
    {
        match self {
            Transform::Void => String::from_str("void"),
            Transform::Identity => String::from_str("identity"),
            Transform::Year => String::from_str("year"),
            Transform::Month => String::from_str("month"),
            Transform::Day => String::from_str("day"),
            Transform::Hour => String::from_str("hour"),
            Transform::Bucket(n) => {
                let mut r = String::from_str("bucket[");
                let d = u64_to_text(*n as u64);
                r.append(d.as_str());
                r.append("]");
                r
            },
            Transform::Truncate(w) => {
                let mut r = String::from_str("truncate[");
                let d = u64_to_text(*w as u64);
                r.append(d.as_str());
                r.append("]");
                r
            },
        }
    }
}

proof fn lemma_digit_char(d: nat)
    requires
        d < 10,
    ensures
        crate::text::is_digit(digit_char(d)),
        crate::text::digit_value(digit_char(d)) == d,
{
}

proof fn lemma_dec_string_digits(n: nat)
    ensures
        all_digits(dec_string(n)),
        digits_value(dec_string(n)) == n,
    decreases n,
{
    lemma_digit_char(n % 10);
    if n < 10 {
        let s = dec_string(n);
        assert(s.drop_last() =~= Seq::<char>::empty());
        assert(digits_value(s) == digits_value(s.drop_last()) * 10 + crate::text::digit_value(s.last()));
    } else {
        lemma_dec_string_digits(n / 10);
        let s = dec_string(n);
        assert(s.drop_last() == dec_string(n / 10));
        assert forall|i: int| 0 <= i < s.len() implies crate::text::is_digit(#[trigger] s[i]) by {
            if i < s.len() - 1 {
                assert(s[i] == dec_string(n / 10)[i]);
            }
        }
        assert(digits_value(s) == digits_value(s.drop_last()) * 10 + crate::text::digit_value(s.last()));
        assert(s.last() == digit_char(n % 10));
    }
}

proof fn lemma_bracketed(pre: Seq<char>, d: Seq<char>, n: nat)
    requires
        d == dec_string(n),
        n <= 0xffff_ffff,
    ensures
        bracket_arg(pre + d + "]"@, pre) == Some(n),
{
    reveal_strlit("]");
    lemma_dec_string_digits(n);
    let s = pre + d + "]"@;
    assert(s.subrange(0, pre.len() as int) =~= pre);
    assert(s.subrange(s.len() - 1, s.len() as int) =~= "]"@);
    assert(s.subrange(pre.len() as int, s.len() - 1) =~= d);
}

proof fn lemma_first_char_differs(s: Seq<char>, l: Seq<char>)
    ensures
        s.len() > 0 && l.len() > 0 && s[0] != l[0] ==> s != l && !starts_with(s, l),
{
    if s.len() > 0 && l.len() > 0 && s[0] != l[0] && s.len() >= l.len() {
        assert(s.subrange(0, l.len() as int)[0] != l[0]);
    }
}

/// Every transform reads back from its text form as itself.
pub proof fn lemma_transform_text_round_trip(t: Transform)
    ensures
        transform_from_text(transform_text(t)) == Some(t),
{
    reveal_strlit("void");
    reveal_strlit("identity");
    reveal_strlit("year");
    reveal_strlit("month");
    reveal_strlit("day");
    reveal_strlit("hour");
    reveal_strlit("bucket");
    reveal_strlit("bucket[");
    reveal_strlit("truncate");
    reveal_strlit("truncate[");
    reveal_strlit("]");
    let s = transform_text(t);
    lemma_first_char_differs(s, "bucket"@);
    lemma_first_char_differs(s, "truncate"@);
    lemma_first_char_differs(s, "void"@);
    lemma_first_char_differs(s, "identity"@);
    lemma_first_char_differs(s, "year"@);
    lemma_first_char_differs(s, "month"@);
    lemma_first_char_differs(s, "day"@);
    match t {
        Transform::Bucket(n) => {
            lemma_bracketed("bucket["@, dec_string(n as nat), n as nat);
            assert(s.subrange(0, 6) =~= "bucket"@);
        },
        Transform::Truncate(w) => {
            lemma_bracketed("truncate["@, dec_string(w as nat), w as nat);
            assert(s.subrange(0, 8) =~= "truncate"@);
        },
        _ => {},
    }
}

proof fn lemma_split_plain(a: Seq<char>, sep: char)
    requires
        forall|i: int| 0 <= i < a.len() ==> a[i] != sep,
    ensures
        split_on(a, sep) == seq![a],
    decreases a.len(),
{
    if a.len() > 0 {
        let a1 = a.drop_last();
        assert forall|i: int| 0 <= i < a1.len() implies a1[i] != sep by {
            assert(a1[i] == a[i]);
        }
        lemma_split_plain(a1, sep);
        assert(a[a.len() - 1] != sep);
        assert(a1.push(a.last()) =~= a);
        assert(seq![a1].update(0, a) =~= seq![a]);
    } else {
        assert(a =~= Seq::<char>::empty());
    }
}

proof fn lemma_split_after(a: Seq<char>, sep: char, b: Seq<char>)
    requires
        forall|i: int| 0 <= i < b.len() ==> b[i] != sep,
    ensures
        split_on(a.push(sep) + b, sep) == split_on(a, sep).push(b),
    decreases b.len(),
{
    if b.len() == 0 {
        let s = a.push(sep) + b;
        assert(s =~= a.push(sep));
        assert(s.drop_last() =~= a);
        assert(b =~= Seq::<char>::empty());
        assert(split_on(s, sep) == split_on(s.drop_last(), sep).push(Seq::<char>::empty()));
    } else {
        let b1 = b.drop_last();
        assert forall|i: int| 0 <= i < b1.len() implies b1[i] != sep by {
            assert(b1[i] == b[i]);
        }
        lemma_split_after(a, sep, b1);
        let s = a.push(sep) + b;
        assert(s.drop_last() =~= a.push(sep) + b1);
        assert(b[b.len() - 1] != sep);
        assert(s.last() == b.last());
        let r = split_on(a, sep).push(b1);
        assert(split_on(s, sep) == r.update(r.len() - 1, r.last().push(s.last())));
        assert(b1.push(b.last()) =~= b);
        assert(r.update(r.len() - 1, b) =~= split_on(a, sep).push(b));
    }
}

proof fn lemma_digits_no_sep(n: nat, sep: char)
    requires
        !crate::text::is_digit(sep),
    ensures
        forall|i: int| 0 <= i < dec_string(n).len() ==> dec_string(n)[i] != sep,
{
    lemma_dec_string_digits(n);
}

/// Every primitive type reads back from its text form as itself, for a
/// decimal with a non-negative precision.
pub proof fn lemma_primitive_text_round_trip(t: PrimitiveType)
    requires
        t is Decimal ==> t->precision >= 0,
    ensures
        primitive_from_text(primitive_text(t)) == Some(t),
{
    reveal_strlit("decimal");
    reveal_strlit("decimal(");
    reveal_strlit("fixed");
    reveal_strlit("fixed[");
    reveal_strlit(",");
    reveal_strlit(")");
    reveal_strlit("]");
    reveal_strlit("boolean");
    reveal_strlit("int");
    reveal_strlit("long");
    reveal_strlit("float");
    reveal_strlit("double");
    reveal_strlit("date");
    reveal_strlit("time");
    reveal_strlit("timestamp");
    reveal_strlit("timestampz");
    reveal_strlit("string");
    reveal_strlit("uuid");
    reveal_strlit("binary");
    let s = primitive_text(t);
    match t {
        PrimitiveType::Decimal { precision, scale } => {
            let p = dec_string(precision as nat);
            let q = dec_string(scale as nat);
            assert(int_string(precision as int) == p);
            let m = p.push(',') + q;
            assert(s =~= "decimal("@ + m + ")"@);
            assert(s.subrange(0, 7) =~= "decimal"@);
            assert(s.subrange(0, 8) =~= "decimal("@);
            assert(s.subrange(s.len() - 1, s.len() as int) =~= ")"@);
            assert(s.subrange(8, s.len() - 1) =~= m);
            lemma_digits_no_sep(precision as nat, ',');
            lemma_digits_no_sep(scale as nat, ',');
            lemma_split_plain(p, ',');
            lemma_split_after(p, ',', q);
            assert(split_on(m, ',') =~= seq![p, q]);
            lemma_dec_string_digits(precision as nat);
            lemma_dec_string_digits(scale as nat);
        },
        PrimitiveType::Fixed(l) => {
            let d = dec_string(l as nat);
            lemma_dec_string_digits(l as nat);
            assert(s.subrange(0, 5) =~= "fixed"@);
            assert(s.subrange(0, 6) =~= "fixed["@);
            assert(s.subrange(s.len() - 1, s.len() as int) =~= "]"@);
            assert(s.subrange(6, s.len() - 1) =~= d);
            assert(s.subrange(0, 7) != "decimal"@) by {
                assert(s.subrange(0, 7)[0] != "decimal"@[0]);
            }
        },
        _ => {
            lemma_first_char_differs(s, "decimal"@);
            lemma_first_char_differs(s, "fixed"@);
            lemma_first_char_differs(s, "boolean"@);
            lemma_first_char_differs(s, "long"@);
            lemma_first_char_differs(s, "float"@);
            lemma_first_char_differs(s, "string"@);
            lemma_first_char_differs(s, "uuid"@);
            lemma_first_char_differs(s, "binary"@);
            lemma_first_char_differs(s, "int"@);
            lemma_first_char_differs(s, "double"@);
            lemma_first_char_differs(s, "date"@);
            lemma_first_char_differs(s, "time"@);
            lemma_first_char_differs(s, "timestamp"@);
            if t is Float {
                assert(s.subrange(0, 5)[1] != "fixed"@[1]);
            }
        },
    }
}

} // verus!
