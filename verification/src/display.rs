//! The text of a raw payload, for diagnostics: the name of its tag and the
//! field that the tag selects, in decimal.
use vstd::prelude::*;
use crate::native::RawValue;
use crate::native::Type;
use crate::native::TypeEnum;

verus! {

/// The character of the decimal digit `d`.
pub open spec fn digit(d: int) -> char {
    if d == 0 {
        '0'
    } else if d == 1 {
        '1'
    } else if d == 2 {
        '2'
    } else if d == 3 {
        '3'
    } else if d == 4 {
        '4'
    } else if d == 5 {
        '5'
    } else if d == 6 {
        '6'
    } else if d == 7 {
        '7'
    } else if d == 8 {
        '8'
    } else {
        '9'
    }
}

/// The decimal form of `n`: its digits, the most significant first, without
/// leading zeros.
pub open spec fn decimal(n: nat) -> Seq<char>
    decreases n,
{
    if n < 10 {
        seq![digit(n as int)]
    } else {
        decimal(n / 10).push(digit((n % 10) as int))
    }
}

/// The decimal form of `v`, with a minus sign before the digits of a
/// negative number.
pub open spec fn signed_decimal(v: int) -> Seq<char> {
    if v < 0 {
        seq!['-'] + decimal((-v) as nat)
    } else {
        decimal(v as nat)
    }
}

/// The digits of `m` that stand before those already taken: none once
/// nothing of the number is left.
pub open spec fn leading(m: nat) -> Seq<char> {
    if m == 0 {
        Seq::empty()
    } else {
        decimal(m)
    }
}

/// The digits that were taken, the last taken first.
pub open spec fn backwards(taken: Seq<char>) -> Seq<char> {
    Seq::new(taken.len(), |i: int| taken[taken.len() - 1 - i])
}

/// The leading digits of a number are those of its tenth, followed by its
/// last digit.
proof fn lemma_leading(m: nat)
    requires
        m > 0,
    ensures
        leading(m) == leading(m / 10).push(digit((m % 10) as int)),
{
    if m < 10 {
        assert(m / 10 == 0);
        assert(m % 10 == m);
        assert(leading(m / 10).push(digit((m % 10) as int)) =~= seq![digit(m as int)]);
    }
}

/// The name of a tag, as the engine writes it.
pub open spec fn tag_name(tag: TypeEnum) -> Seq<char> {
    match tag {
        TypeEnum::Empty => "OTF2_TYPE_NONE"@,
        TypeEnum::Uint8 => "OTF2_TYPE_UINT8"@,
        TypeEnum::Uint16 => "OTF2_TYPE_UINT16"@,
        TypeEnum::Uint32 => "OTF2_TYPE_UINT32"@,
        TypeEnum::Uint64 => "OTF2_TYPE_UINT64"@,
        TypeEnum::Int8 => "OTF2_TYPE_INT8"@,
        TypeEnum::Int16 => "OTF2_TYPE_INT16"@,
        TypeEnum::Int32 => "OTF2_TYPE_INT32"@,
        TypeEnum::Int64 => "OTF2_TYPE_INT64"@,
        TypeEnum::Float => "OTF2_TYPE_FLOAT"@,
        TypeEnum::Double => "OTF2_TYPE_DOUBLE"@,
        TypeEnum::String => "OTF2_TYPE_STRING"@,
        TypeEnum::Attribute => "OTF2_TYPE_ATTRIBUTE"@,
        TypeEnum::Location => "OTF2_TYPE_LOCATION"@,
        TypeEnum::Region => "OTF2_TYPE_REGION"@,
        TypeEnum::Group => "OTF2_TYPE_GROUP"@,
        TypeEnum::Metric => "OTF2_TYPE_METRIC"@,
        TypeEnum::Comm => "OTF2_TYPE_COMM"@,
        TypeEnum::Parameter => "OTF2_TYPE_PARAMETER"@,
        TypeEnum::RmaWin => "OTF2_TYPE_RMA_WIN"@,
        TypeEnum::SourceCodeLocation => "OTF2_TYPE_SOURCE_CODE_LOCATION"@,
        TypeEnum::CallingContext => "OTF2_TYPE_CALLING_CONTEXT"@,
        TypeEnum::InterruptGenerator => "OTF2_TYPE_INTERRUPT_GENERATOR"@,
        TypeEnum::IoFile => "OTF2_TYPE_IO_FILE"@,
        TypeEnum::IoHandle => "OTF2_TYPE_IO_HANDLE"@,
        TypeEnum::LocationGroup => "OTF2_TYPE_LOCATION_GROUP"@,
    }
}

/// The text of the field of `value` that the tag `kind` selects: the number
/// in decimal. An id is written as its number; a floating-point field is
/// written as the number that its bits form; without a tag the lowest byte
/// is written.
pub open spec fn field_text(kind: Type, value: RawValue) -> Seq<char> {
    match kind.spec_to_enum() {
        TypeEnum::Empty => decimal(value.spec_uint8() as nat),
        TypeEnum::Uint8 => decimal(value.spec_uint8() as nat),
        TypeEnum::Uint16 => decimal(value.spec_uint16() as nat),
        TypeEnum::Uint32 => decimal(value.spec_uint32() as nat),
        TypeEnum::Uint64 => decimal(value.spec_uint64() as nat),
        TypeEnum::Int8 => signed_decimal(value.spec_int8() as int),
        TypeEnum::Int16 => signed_decimal(value.spec_int16() as int),
        TypeEnum::Int32 => signed_decimal(value.spec_int32() as int),
        TypeEnum::Int64 => signed_decimal(value.spec_int64() as int),
        TypeEnum::Float => decimal(value.spec_uint32() as nat),
        TypeEnum::Double => decimal(value.spec_uint64() as nat),
        TypeEnum::String => decimal(value.spec_uint32() as nat),
        TypeEnum::Attribute => decimal(value.spec_uint32() as nat),
        TypeEnum::Location => decimal(value.spec_uint64() as nat),
        TypeEnum::Region => decimal(value.spec_uint32() as nat),
        TypeEnum::Group => decimal(value.spec_uint32() as nat),
        TypeEnum::Metric => decimal(value.spec_uint32() as nat),
        TypeEnum::Comm => decimal(value.spec_uint32() as nat),
        TypeEnum::Parameter => decimal(value.spec_uint32() as nat),
        TypeEnum::RmaWin => decimal(value.spec_uint32() as nat),
        TypeEnum::SourceCodeLocation => decimal(value.spec_uint32() as nat),
        TypeEnum::CallingContext => decimal(value.spec_uint32() as nat),
        TypeEnum::InterruptGenerator => decimal(value.spec_uint32() as nat),
        TypeEnum::IoFile => decimal(value.spec_uint32() as nat),
        TypeEnum::IoHandle => decimal(value.spec_uint32() as nat),
        TypeEnum::LocationGroup => decimal(value.spec_uint32() as nat),
    }
}

/// The text of a payload: the name of its tag, then in brackets the field
/// that the tag selects.
pub open spec fn display_text(kind: Type, value: RawValue) -> Seq<char> {
    tag_name(kind.spec_to_enum()) + seq!['('] + field_text(kind, value) + seq![')']
}

/// Appends one character to the text. This is `String::push` of the
/// standard library, which is taken on trust: it adds the character at the
/// end and leaves what stood there.
#[verifier::external_body]
fn push_char(text: &mut String, c: char)
    ensures
        final(text)@ == old(text)@.push(c),
{
    text.push(c)
}

/// Appends a string to the text. This is `String::push_str` of the standard
/// library, which is taken on trust: it adds the characters of `more` at the
/// end, in their order, and leaves what stood there.
#[verifier::external_body]
pub(crate) fn push_str(text: &mut String, more: &str)
    ensures
        final(text)@ == old(text)@ + more@,
{
    text.push_str(more)
}

/// The character of the decimal digit `d`.
fn digit_char(d: u64) -> (c: char)
    requires
        d < 10,
    ensures
        c == digit(d as int),
{
    if d == 0 {
        '0'
    } else if d == 1 {
        '1'
    } else if d == 2 {
        '2'
    } else if d == 3 {
        '3'
    } else if d == 4 {
        '4'
    } else if d == 5 {
        '5'
    } else if d == 6 {
        '6'
    } else if d == 7 {
        '7'
    } else if d == 8 {
        '8'
    } else {
        '9'
    }
}

/// Appends the decimal form of `n` to the text.
pub fn push_decimal(text: &mut String, n: u64)
    ensures
        final(text)@ == old(text)@ + decimal(n as nat),
{
    let mut taken: Vec<char> = Vec::new();
    taken.push(digit_char(n % 10));
    let mut m: u64 = n / 10;
    proof {
        if n >= 10 {
            lemma_leading(n as nat);
        }
        assert(decimal(n as nat) =~= leading(m as nat) + backwards(taken@));
    }
    while m > 0
        invariant
            taken.len() > 0,
            decimal(n as nat) == leading(m as nat) + backwards(taken@),
        decreases m,
    {
        let ghost before = taken@;
        taken.push(digit_char(m % 10));
        proof {
            lemma_leading(m as nat);
            assert(backwards(taken@) =~= seq![digit((m % 10) as int)] + backwards(before));
            assert(leading(m as nat) + backwards(before) =~= leading((m / 10) as nat) + backwards(
                taken@,
            ));
        }
        m = m / 10;
    }
    let mut i: usize = taken.len();
    proof {
        assert(leading(0nat) + backwards(taken@) =~= backwards(taken@));
        assert(text@ + backwards(taken@).take(0) =~= text@);
    }
    while i > 0
        invariant
            i <= taken.len(),
            text@ == old(text)@ + backwards(taken@).take(taken.len() - i),
        decreases i,
    {
        i -= 1;
        let ghost before = text@;
        push_char(text, taken[i]);
        proof {
            let written = backwards(taken@);
            let k = taken.len() - 1 - i;
            assert(written[k] == taken@[i as int]);
            assert(written.take(k + 1) =~= written.take(k).push(written[k]));
            assert(text@ =~= old(text)@ + written.take(k + 1));
        }
    }
    proof {
        assert(backwards(taken@).take(taken.len() as int) =~= backwards(taken@));
    }
}

/// Appends the decimal form of `v` to the text, with a minus sign before
/// the digits of a negative number.
pub fn push_signed_decimal(text: &mut String, v: i64)
    ensures
        final(text)@ == old(text)@ + signed_decimal(v as int),
{
    if v < 0 {
        let magnitude: u64 = if v == i64::MIN {
            0x8000_0000_0000_0000
        } else {
            (-v) as u64
        };
        let ghost start = text@;
        push_char(text, '-');
        push_decimal(text, magnitude);
        proof {
            assert(text@ =~= start + (seq!['-'] + decimal(magnitude as nat)));
        }
    } else {
        push_decimal(text, v as u64);
    }
}

impl TypeEnum {
    /// The name of the tag, as the engine writes it.
    pub fn name(&self) -> (name: &'static str)
        ensures
            name@ == tag_name(*self),
    {
        match self {
            TypeEnum::Empty => "OTF2_TYPE_NONE",
            TypeEnum::Uint8 => "OTF2_TYPE_UINT8",
            TypeEnum::Uint16 => "OTF2_TYPE_UINT16",
            TypeEnum::Uint32 => "OTF2_TYPE_UINT32",
            TypeEnum::Uint64 => "OTF2_TYPE_UINT64",
            TypeEnum::Int8 => "OTF2_TYPE_INT8",
            TypeEnum::Int16 => "OTF2_TYPE_INT16",
            TypeEnum::Int32 => "OTF2_TYPE_INT32",
            TypeEnum::Int64 => "OTF2_TYPE_INT64",
            TypeEnum::Float => "OTF2_TYPE_FLOAT",
            TypeEnum::Double => "OTF2_TYPE_DOUBLE",
            TypeEnum::String => "OTF2_TYPE_STRING",
            TypeEnum::Attribute => "OTF2_TYPE_ATTRIBUTE",
            TypeEnum::Location => "OTF2_TYPE_LOCATION",
            TypeEnum::Region => "OTF2_TYPE_REGION",
            TypeEnum::Group => "OTF2_TYPE_GROUP",
            TypeEnum::Metric => "OTF2_TYPE_METRIC",
            TypeEnum::Comm => "OTF2_TYPE_COMM",
            TypeEnum::Parameter => "OTF2_TYPE_PARAMETER",
            TypeEnum::RmaWin => "OTF2_TYPE_RMA_WIN",
            TypeEnum::SourceCodeLocation => "OTF2_TYPE_SOURCE_CODE_LOCATION",
            TypeEnum::CallingContext => "OTF2_TYPE_CALLING_CONTEXT",
            TypeEnum::InterruptGenerator => "OTF2_TYPE_INTERRUPT_GENERATOR",
            TypeEnum::IoFile => "OTF2_TYPE_IO_FILE",
            TypeEnum::IoHandle => "OTF2_TYPE_IO_HANDLE",
            TypeEnum::LocationGroup => "OTF2_TYPE_LOCATION_GROUP",
        }
    }
}

impl RawValue {
    /// The payload as text: the name of the tag `kind`, then in brackets the
    /// field that the tag selects, in decimal.
    pub fn display(&self, kind: Type) -> (text: String)
        ensures
            text@ == display_text(kind, *self),
    {
        let tag = kind.to_enum();
        let mut text = String::new();
        push_str(&mut text, tag.name());
        push_char(&mut text, '(');
        let ghost head = text@;
        match tag {
            TypeEnum::Empty => push_decimal(&mut text, self.uint8() as u64),
            TypeEnum::Uint8 => push_decimal(&mut text, self.uint8() as u64),
            TypeEnum::Uint16 => push_decimal(&mut text, self.uint16() as u64),
            TypeEnum::Uint32 => push_decimal(&mut text, self.uint32() as u64),
            TypeEnum::Uint64 => push_decimal(&mut text, self.uint64()),
            TypeEnum::Int8 => push_signed_decimal(&mut text, self.int8() as i64),
            TypeEnum::Int16 => push_signed_decimal(&mut text, self.int16() as i64),
            TypeEnum::Int32 => push_signed_decimal(&mut text, self.int32() as i64),
            TypeEnum::Int64 => push_signed_decimal(&mut text, self.int64()),
            TypeEnum::Float => push_decimal(&mut text, self.uint32() as u64),
            TypeEnum::Double => push_decimal(&mut text, self.uint64()),
            TypeEnum::String => push_decimal(&mut text, self.uint32() as u64),
            TypeEnum::Attribute => push_decimal(&mut text, self.uint32() as u64),
            TypeEnum::Location => push_decimal(&mut text, self.uint64()),
            TypeEnum::Region => push_decimal(&mut text, self.uint32() as u64),
            TypeEnum::Group => push_decimal(&mut text, self.uint32() as u64),
            TypeEnum::Metric => push_decimal(&mut text, self.uint32() as u64),
            TypeEnum::Comm => push_decimal(&mut text, self.uint32() as u64),
            TypeEnum::Parameter => push_decimal(&mut text, self.uint32() as u64),
            TypeEnum::RmaWin => push_decimal(&mut text, self.uint32() as u64),
            TypeEnum::SourceCodeLocation => push_decimal(&mut text, self.uint32() as u64),
            TypeEnum::CallingContext => push_decimal(&mut text, self.uint32() as u64),
            TypeEnum::InterruptGenerator => push_decimal(&mut text, self.uint32() as u64),
            TypeEnum::IoFile => push_decimal(&mut text, self.uint32() as u64),
            TypeEnum::IoHandle => push_decimal(&mut text, self.uint32() as u64),
            TypeEnum::LocationGroup => push_decimal(&mut text, self.uint32() as u64),
        }
        proof {
            assert(text@ == head + field_text(kind, *self));
        }
        push_char(&mut text, ')');
        proof {
            assert(text@ =~= display_text(kind, *self));
        }
        text
    }
}

} // verus!
