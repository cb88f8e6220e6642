//! The payload format: how the bytes of an account decode against the
//! fields of an account type.
//!
//! Integers are little-endian. Text and lists carry a 32-bit length first.
//! Decoding is a function of the type and the bytes alone.

use vstd::prelude::*;
use crate::codec::{lossy_text, text_from_utf8_lossy};
use crate::error::DecodeError;
use crate::schema::{Field, FieldModel, FieldType, TypeModel, fields_model};
use crate::value::{Member, MemberModel, StructuredValue, ValueModel, members_model, values_model};

verus! {

/// Number of leading payload bytes that identify an account's logical type.
/// They are skipped, never compared with anything.
pub const DISCRIMINATOR_LEN: usize = 8;

/// The number that `bytes` spell in little-endian order.
pub open spec fn le_value(bytes: Seq<u8>) -> nat
    decreases bytes.len(),
{
    if bytes.len() == 0 {
        0
    } else {
        bytes[0] as nat + 256 * le_value(bytes.drop_first())
    }
}

/// 256 to the power `n`.
pub open spec fn pow256(n: nat) -> nat
    decreases n,
{
    if n == 0 {
        1
    } else {
        256 * pow256((n - 1) as nat)
    }
}

/// The two's complement reading of the `width`-byte number `n`.
pub open spec fn twos_complement(n: nat, width: nat) -> int {
    if 2 * n >= pow256(width) {
        n - pow256(width)
    } else {
        n as int
    }
}

/// What decoding yields: a value and the number of bytes it took, or the
/// reason for which there is no value.
pub type Decoded<T> = Result<(T, nat), DecodeError>;

/// `items` and `used` bytes came first; `rest` is what followed.
pub open spec fn after<T>(items: Seq<T>, used: nat, rest: Decoded<Seq<T>>) -> Decoded<Seq<T>> {
    match rest {
        Ok((more, n)) => Ok((items + more, used + n)),
        Err(e) => Err(e),
    }
}

/// The value of type `ty` at the start of `bytes`.
pub open spec fn value_at(ty: TypeModel, bytes: Seq<u8>) -> Decoded<ValueModel>
    decreases ty, 0nat,
{
    match ty {
        TypeModel::Bool => if bytes.len() < 1 {
            Err(DecodeError::Truncated)
        } else {
            Ok((ValueModel::Bool(bytes[0] != 0), 1nat))
        },
        TypeModel::Unsigned(width) => if bytes.len() < width {
            Err(DecodeError::Truncated)
        } else {
            Ok((ValueModel::Unsigned(le_value(bytes.take(width as int)) as u64), width))
        },
        TypeModel::Signed(width) => if bytes.len() < width {
            Err(DecodeError::Truncated)
        } else {
            Ok(
                (
                    ValueModel::Signed(
                        twos_complement(le_value(bytes.take(width as int)), width) as i64,
                    ),
                    width,
                ),
            )
        },
        TypeModel::Text => if bytes.len() < 4 {
            Err(DecodeError::Truncated)
        } else {
            let n = le_value(bytes.take(4));
            if n > bytes.len() - 4 {
                Err(DecodeError::MalformedLength)
            } else {
                Ok((ValueModel::Text(lossy_text(bytes.subrange(4, 4 + n as int))), 4 + n))
            }
        },
        TypeModel::List(inner) => if bytes.len() < 4 {
            Err(DecodeError::Truncated)
        } else {
            let n = le_value(bytes.take(4));
            if n > bytes.len() - 4 {
                Err(DecodeError::MalformedLength)
            } else {
                match items_at(*inner, n, bytes.skip(4)) {
                    Ok((items, used)) => Ok((ValueModel::List(items), 4 + used)),
                    Err(e) => Err(e),
                }
            }
        },
        TypeModel::Array(inner, n) => match items_at(*inner, n, bytes) {
            Ok((items, used)) => Ok((ValueModel::List(items), used)),
            Err(e) => Err(e),
        },
        TypeModel::Optional(inner) => if bytes.len() < 1 {
            Err(DecodeError::Truncated)
        } else if bytes[0] == 0 {
            Ok((ValueModel::Null, 1nat))
        } else {
            match value_at(*inner, bytes.skip(1)) {
                Ok((v, used)) => Ok((v, 1 + used)),
                Err(e) => Err(e),
            }
        },
        TypeModel::Record(_, fields) => match fields_at(fields, 0, bytes) {
            Ok((members, used)) => Ok((ValueModel::Record(members), used)),
            Err(e) => Err(e),
        },
        TypeModel::Unsupported(_) => Err(DecodeError::UnsupportedType),
    }
}

/// `count` values of type `ty`, one after the other from the start of `bytes`.
pub open spec fn items_at(ty: TypeModel, count: nat, bytes: Seq<u8>) -> Decoded<Seq<ValueModel>>
    decreases ty, count + 1,
{
    if count == 0 {
        Ok((Seq::empty(), 0nat))
    } else {
        match value_at(ty, bytes) {
            Ok((v, used)) => after(
                seq![v],
                used,
                items_at(ty, (count - 1) as nat, bytes.skip(used as int)),
            ),
            Err(e) => Err(e),
        }
    }
}

/// The fields from position `from` on, one after the other from the start of
/// `bytes`, each under its name.
pub open spec fn fields_at(fields: Seq<FieldModel>, from: nat, bytes: Seq<u8>) -> Decoded<
    Seq<MemberModel>,
>
    decreases fields, fields.len() - from,
{
    if from >= fields.len() {
        Ok((Seq::empty(), 0nat))
    } else {
        match value_at(fields[from as int].ty, bytes) {
            Ok((v, used)) => after(
                seq![MemberModel { name: fields[from as int].name, value: v }],
                used,
                fields_at(fields, from + 1, bytes.skip(used as int)),
            ),
            Err(e) => Err(e),
        }
    }
}

/// The record that a whole payload decodes to under the given fields: the
/// discriminator is skipped, then the fields follow in order. Bytes left
/// over after the last field are not looked at.
pub open spec fn payload_value(fields: Seq<FieldModel>, data: Seq<u8>) -> Result<
    ValueModel,
    DecodeError,
> {
    if data.len() < DISCRIMINATOR_LEN {
        Err(DecodeError::Truncated)
    } else {
        match fields_at(fields, 0, data.skip(DISCRIMINATOR_LEN as int)) {
            Ok((members, _)) => Ok(ValueModel::Record(members)),
            Err(e) => Err(e),
        }
    }
}

/// The members of a decoded record are as many as the fields, and each
/// bears the name of the field at its place: no field is left out, none is
/// added, and the declared order is kept.
pub proof fn law_members_follow_fields(fields: Seq<FieldModel>, from: nat, bytes: Seq<u8>)
    requires
        from <= fields.len(),
    ensures
        fields_at(fields, from, bytes) matches Ok((members, _)) ==> {
            &&& members.len() == fields.len() - from
            &&& forall|i: int|
                0 <= i < members.len() ==> (#[trigger] members[i]).name == fields[from + i].name
        },
    decreases fields.len() - from,
{
    if from < fields.len() {
        match value_at(fields[from as int].ty, bytes) {
            Ok((v, used)) => {
                law_members_follow_fields(fields, from + 1, bytes.skip(used as int));
            },
            Err(_) => {},
        }
    }
}

/// Decoding never reads past the end: the bytes that a value took are bytes
/// that were there.
pub proof fn law_value_within_input(ty: TypeModel, bytes: Seq<u8>)
    ensures
        value_at(ty, bytes) matches Ok((_, used)) ==> used <= bytes.len(),
    decreases ty, 0nat,
{
    match ty {
        TypeModel::List(inner) => {
            if bytes.len() >= 4 {
                law_items_within_input(*inner, le_value(bytes.take(4)), bytes.skip(4));
            }
        },
        TypeModel::Array(inner, n) => {
            law_items_within_input(*inner, n, bytes);
        },
        TypeModel::Optional(inner) => {
            if bytes.len() >= 1 {
                law_value_within_input(*inner, bytes.skip(1));
            }
        },
        TypeModel::Record(_, fields) => {
            law_fields_within_input(fields, 0, bytes);
        },
        _ => {},
    }
}

/// [`law_value_within_input`], for a run of values.
pub proof fn law_items_within_input(ty: TypeModel, count: nat, bytes: Seq<u8>)
    ensures
        items_at(ty, count, bytes) matches Ok((items, used)) ==> used <= bytes.len() && items.len()
            == count,
    decreases ty, count + 1,
{
    if count > 0 {
        law_value_within_input(ty, bytes);
        match value_at(ty, bytes) {
            Ok((v, used)) => {
                law_items_within_input(ty, (count - 1) as nat, bytes.skip(used as int));
            },
            Err(_) => {},
        }
    }
}

/// [`law_value_within_input`], for a run of fields.
pub proof fn law_fields_within_input(fields: Seq<FieldModel>, from: nat, bytes: Seq<u8>)
    ensures
        fields_at(fields, from, bytes) matches Ok((_, used)) ==> used <= bytes.len(),
    decreases fields, fields.len() - from,
{
    if from < fields.len() {
        law_value_within_input(fields[from as int].ty, bytes);
        match value_at(fields[from as int].ty, bytes) {
            Ok((v, used)) => {
                law_fields_within_input(fields, from + 1, bytes.skip(used as int));
            },
            Err(_) => {},
        }
    }
}

/// What a payload decodes to does not depend on its discriminator: two
/// payloads that agree after their first eight bytes decode alike.
pub proof fn law_discriminator_is_not_read(fields: Seq<FieldModel>, a: Seq<u8>, b: Seq<u8>)
    requires
        a.len() >= DISCRIMINATOR_LEN,
        b.len() >= DISCRIMINATOR_LEN,
        a.skip(DISCRIMINATOR_LEN as int) == b.skip(DISCRIMINATOR_LEN as int),
    ensures
        payload_value(fields, a) == payload_value(fields, b),
{
}

/// A number of `n` bytes is below 256 to the power `n`.
pub proof fn lemma_le_value_bound(bytes: Seq<u8>)
    ensures
        le_value(bytes) < pow256(bytes.len()),
    decreases bytes.len(),
{
    if bytes.len() > 0 {
        lemma_le_value_bound(bytes.drop_first());
    }
}

/// Powers of 256 grow with the exponent.
pub proof fn lemma_pow256_monotonic(a: nat, b: nat)
    requires
        a <= b,
    ensures
        0 < pow256(a) <= pow256(b),
    decreases b,
{
    if b == 0 {
    } else if a == b {
        lemma_pow256_monotonic((a - 1) as nat, (b - 1) as nat);
    } else {
        lemma_pow256_monotonic(a, (b - 1) as nat);
    }
}

/// The powers of 256 that the integer widths of the format reach.
pub proof fn lemma_pow256_values()
    ensures
        pow256(0) == 1,
        pow256(1) == 0x100,
        pow256(2) == 0x1_0000,
        pow256(4) == 0x1_0000_0000,
        pow256(7) == 0x100_0000_0000_0000,
        pow256(8) == 0x1_0000_0000_0000_0000,
{
    reveal_with_fuel(pow256, 10);
}

/// Reads the `width` bytes at `pos` as a little-endian number.
fn read_le(data: &[u8], pos: usize, width: usize) -> (r: u64)
    requires
        width <= 8,
        pos + width <= data@.len(),
    ensures
        r == le_value(data@.subrange(pos as int, pos + width)),
{
    let mut acc: u64 = 0;
    let mut k: usize = width;
    let len = data.len();
    while k > 0
        invariant
            k <= width <= 8,
            pos + width <= len == data@.len(),
            acc == le_value(data@.subrange(pos + k, pos + width)),
        decreases k,
    {
        let ghost tail = data@.subrange(pos + k, pos + width);
        k -= 1;
        let ghost cur = data@.subrange(pos + k, pos + width);
        proof {
            assert(cur.drop_first() =~= tail);
            lemma_le_value_bound(tail);
            lemma_pow256_monotonic(tail.len(), 7);
            lemma_pow256_values();
        }
        acc = acc * 256 + data[pos + k] as u64;
    }
    acc
}

/// Reads a 32-bit length prefix at `pos`.
fn read_length(data: &[u8], pos: usize) -> (r: u32)
    requires
        pos + 4 <= data@.len(),
    ensures
        r == le_value(data@.subrange(pos as int, pos + 4)),
{
    let n = read_le(data, pos, 4);
    proof {
        lemma_le_value_bound(data@.subrange(pos as int, pos + 4));
        lemma_pow256_values();
    }
    n as u32
}

/// The two's complement reading of a number of `width` bytes.
fn to_signed(u: u64, width: usize) -> (r: i64)
    requires
        width == 1 || width == 2 || width == 4 || width == 8,
        u < pow256(width as nat),
    ensures
        r == twos_complement(u as nat, width as nat),
{
    proof {
        lemma_pow256_values();
    }
    if width == 8 {
        if u >= 0x8000_0000_0000_0000 {
            ((u - 0x8000_0000_0000_0000) as i64) + i64::MIN
        } else {
            u as i64
        }
    } else {
        let full: u64 = if width == 1 {
            0x100
        } else if width == 2 {
            0x1_0000
        } else {
            0x1_0000_0000
        };
        if 2 * u >= full {
            (u as i64) - (full as i64)
        } else {
            u as i64
        }
    }
}

/// Two runs of items in a row are one run.
pub proof fn lemma_after_twice<T>(a: Seq<T>, used_a: nat, b: Seq<T>, used_b: nat, rest: Decoded<Seq<T>>)
    ensures
        after(a, used_a, after(b, used_b, rest)) == after(a + b, used_a + used_b, rest),
{
    match rest {
        Ok((more, n)) => {
            assert(a + (b + more) =~= (a + b) + more);
        },
        Err(_) => {},
    }
}

/// A run with nothing after it is the run itself.
pub proof fn lemma_after_nothing<T>(a: Seq<T>, used: nat)
    ensures
        after(a, used, Ok((Seq::<T>::empty(), 0nat))) == Ok::<(Seq<T>, nat), DecodeError>((a, used)),
{
    assert(a + Seq::<T>::empty() =~= a);
}

/// Whether what the decoder returned at `pos` is what `expected` says: the
/// same value and the position just past it, or the same failure.
pub open spec fn agrees(
    r: Result<(StructuredValue, usize), DecodeError>,
    pos: usize,
    len: nat,
    expected: Decoded<ValueModel>,
) -> bool {
    match r {
        Ok((v, next)) => pos <= next <= len && expected == Ok::<(ValueModel, nat), DecodeError>(
            (v@, (next - pos) as nat),
        ),
        Err(e) => expected == Err::<(ValueModel, nat), DecodeError>(e),
    }
}

/// [`agrees`], for a run of values.
pub open spec fn items_agree(
    r: Result<(Vec<StructuredValue>, usize), DecodeError>,
    pos: usize,
    len: nat,
    expected: Decoded<Seq<ValueModel>>,
) -> bool {
    match r {
        Ok((items, next)) => pos <= next <= len && expected == Ok::<
            (Seq<ValueModel>, nat),
            DecodeError,
        >((values_model(items@), (next - pos) as nat)),
        Err(e) => expected == Err::<(Seq<ValueModel>, nat), DecodeError>(e),
    }
}

/// [`agrees`], for a run of named members.
pub open spec fn members_agree(
    r: Result<(Vec<Member>, usize), DecodeError>,
    pos: usize,
    len: nat,
    expected: Decoded<Seq<MemberModel>>,
) -> bool {
    match r {
        Ok((members, next)) => pos <= next <= len && expected == Ok::<
            (Seq<MemberModel>, nat),
            DecodeError,
        >((members_model(members@), (next - pos) as nat)),
        Err(e) => expected == Err::<(Seq<MemberModel>, nat), DecodeError>(e),
    }
}

/// Decodes an integer of `width` bytes at `pos`.
fn decode_integer_at(signed: bool, width: usize, data: &[u8], pos: usize) -> (r: Result<
    (StructuredValue, usize),
    DecodeError,
>)
    requires
        width == 1 || width == 2 || width == 4 || width == 8,
        pos <= data@.len(),
    ensures
        agrees(
            r,
            pos,
            data@.len(),
            value_at(
                if signed {
                    TypeModel::Signed(width as nat)
                } else {
                    TypeModel::Unsigned(width as nat)
                },
                data@.skip(pos as int),
            ),
        ),
{
    if data.len() - pos < width {
        return Err(DecodeError::Truncated);
    }
    let u = read_le(data, pos, width);
    proof {
        assert(data@.skip(pos as int).take(width as int) =~= data@.subrange(
            pos as int,
            pos + width,
        ));
        lemma_le_value_bound(data@.subrange(pos as int, pos + width));
    }
    if signed {
        Ok((StructuredValue::Signed(to_signed(u, width)), pos + width))
    } else {
        Ok((StructuredValue::Unsigned(u), pos + width))
    }
}

/// Decodes the value of type `ty` that starts at `pos`.
fn decode_at(ty: &FieldType, data: &[u8], pos: usize) -> (r: Result<
    (StructuredValue, usize),
    DecodeError,
>)
    requires
        pos <= data@.len(),
    ensures
        agrees(r, pos, data@.len(), value_at(ty@, data@.skip(pos as int))),
    decreases ty, 0nat,
{
    let ghost rest = data@.skip(pos as int);
    match ty {
        FieldType::Bool => {
            if data.len() - pos < 1 {
                return Err(DecodeError::Truncated);
            }
            Ok((StructuredValue::Bool(data[pos] != 0), pos + 1))
        },
        FieldType::U8 => decode_integer_at(false, 1, data, pos),
        FieldType::U16 => decode_integer_at(false, 2, data, pos),
        FieldType::U32 => decode_integer_at(false, 4, data, pos),
        FieldType::U64 => decode_integer_at(false, 8, data, pos),
        FieldType::I8 => decode_integer_at(true, 1, data, pos),
        FieldType::I16 => decode_integer_at(true, 2, data, pos),
        FieldType::I32 => decode_integer_at(true, 4, data, pos),
        FieldType::I64 => decode_integer_at(true, 8, data, pos),
        FieldType::Text => {
            if data.len() - pos < 4 {
                return Err(DecodeError::Truncated);
            }
            let n = read_length(data, pos) as usize;
            proof {
                assert(rest.take(4) =~= data@.subrange(pos as int, pos + 4));
            }
            if n > data.len() - pos - 4 {
                return Err(DecodeError::MalformedLength);
            }
            let bytes = vstd::slice::slice_subrange(data, pos + 4, pos + 4 + n);
            proof {
                assert(rest.subrange(4, 4 + n) =~= bytes@);
            }
            Ok((StructuredValue::Text(text_from_utf8_lossy(bytes)), pos + 4 + n))
        },
        FieldType::List(inner) => {
            if data.len() - pos < 4 {
                return Err(DecodeError::Truncated);
            }
            let n = read_length(data, pos) as usize;
            proof {
                assert(rest.take(4) =~= data@.subrange(pos as int, pos + 4));
            }
            if n > data.len() - pos - 4 {
                return Err(DecodeError::MalformedLength);
            }
            proof {
                assert(rest.skip(4) =~= data@.skip(pos + 4));
            }
            match decode_items_at(inner, n, data, pos + 4) {
                Ok((items, next)) => {
                    proof {
                        crate::value::lemma_list_model(items);
                    }
                    Ok((StructuredValue::List(items), next))
                },
                Err(e) => Err(e),
            }
        },
        FieldType::Array(inner, n) => {
            match decode_items_at(inner, *n, data, pos) {
                Ok((items, next)) => {
                    proof {
                        crate::value::lemma_list_model(items);
                    }
                    Ok((StructuredValue::List(items), next))
                },
                Err(e) => Err(e),
            }
        },
        FieldType::Optional(inner) => {
            if data.len() - pos < 1 {
                return Err(DecodeError::Truncated);
            }
            if data[pos] == 0 {
                return Ok((StructuredValue::Null, pos + 1));
            }
            proof {
                assert(rest.skip(1) =~= data@.skip(pos + 1));
            }
            decode_at(inner, data, pos + 1)
        },
        FieldType::Record(name, fields) => {
            proof {
                crate::schema::lemma_record_model(*name, *fields);
            }
            match decode_fields_at(fields, data, pos) {
                Ok((members, next)) => {
                    proof {
                        crate::value::lemma_record_model(members);
                    }
                    Ok((StructuredValue::Record(members), next))
                },
                Err(e) => Err(e),
            }
        },
        FieldType::Unsupported(_) => Err(DecodeError::UnsupportedType),
    }
}

/// Decodes `count` values of type `ty`, the first of which starts at `pos`.
fn decode_items_at(ty: &FieldType, count: usize, data: &[u8], pos: usize) -> (r: Result<
    (Vec<StructuredValue>, usize),
    DecodeError,
>)
    requires
        pos <= data@.len(),
    ensures
        items_agree(r, pos, data@.len(), items_at(ty@, count as nat, data@.skip(pos as int))),
    decreases ty, 1nat,
{
    let ghost total = items_at(ty@, count as nat, data@.skip(pos as int));
    let mut items: Vec<StructuredValue> = Vec::new();
    let mut cur: usize = pos;
    let mut k: usize = 0;
    while k < count
        invariant
            k <= count,
            pos <= cur <= data@.len(),
            total == items_at(ty@, count as nat, data@.skip(pos as int)),
            total == after(
                values_model(items@),
                (cur - pos) as nat,
                items_at(ty@, (count - k) as nat, data@.skip(cur as int)),
            ),
        decreases count - k,
    {
        match decode_at(ty, data, cur) {
            Ok((v, next)) => {
                proof {
                    assert(data@.skip(cur as int).skip(next - cur) =~= data@.skip(next as int));
                    lemma_after_twice(
                        values_model(items@),
                        (cur - pos) as nat,
                        seq![v@],
                        (next - cur) as nat,
                        items_at(ty@, (count - k - 1) as nat, data@.skip(next as int)),
                    );
                    assert(values_model(items@.push(v)) =~= values_model(items@) + seq![v@]);
                }
                items.push(v);
                cur = next;
                k += 1;
            },
            Err(e) => {
                return Err(e);
            },
        }
    }
    proof {
        lemma_after_nothing(values_model(items@), (cur - pos) as nat);
    }
    Ok((items, cur))
}

/// Decodes the given fields in order, the first of which starts at `pos`.
fn decode_fields_at(fields: &Vec<Field>, data: &[u8], pos: usize) -> (r: Result<
    (Vec<Member>, usize),
    DecodeError,
>)
    requires
        pos <= data@.len(),
    ensures
        members_agree(
            r,
            pos,
            data@.len(),
            fields_at(fields_model(fields@), 0, data@.skip(pos as int)),
        ),
    decreases fields, 1nat,
{
    let ghost fm = fields_model(fields@);
    let ghost total = fields_at(fm, 0, data@.skip(pos as int));
    let mut members: Vec<Member> = Vec::new();
    let mut cur: usize = pos;
    let mut i: usize = 0;
    while i < fields.len()
        invariant
            i <= fields.len(),
            pos <= cur <= data@.len(),
            fm == fields_model(fields@),
            total == fields_at(fm, 0, data@.skip(pos as int)),
            total == after(
                members_model(members@),
                (cur - pos) as nat,
                fields_at(fm, i as nat, data@.skip(cur as int)),
            ),
        decreases fields.len() - i,
    {
        match decode_at(&fields[i].ty, data, cur) {
            Ok((v, next)) => {
                let member = Member { name: fields[i].name.clone(), value: v };
                proof {
                    assert(data@.skip(cur as int).skip(next - cur) =~= data@.skip(next as int));
                    lemma_after_twice(
                        members_model(members@),
                        (cur - pos) as nat,
                        seq![member@],
                        (next - cur) as nat,
                        fields_at(fm, (i + 1) as nat, data@.skip(next as int)),
                    );
                    assert(members_model(members@.push(member)) =~= members_model(members@)
                        + seq![member@]);
                }
                members.push(member);
                cur = next;
                i += 1;
            },
            Err(e) => {
                return Err(e);
            },
        }
    }
    proof {
        lemma_after_nothing(members_model(members@), (cur - pos) as nat);
    }
    Ok((members, cur))
}

/// Decodes the value of type `ty` at the start of `bytes`, and says how many
/// bytes it took.
pub fn decode_value(ty: &FieldType, bytes: &[u8]) -> (r: Result<
    (StructuredValue, usize),
    DecodeError,
>)
    ensures
        match r {
            Ok((v, used)) => used <= bytes@.len() && value_at(ty@, bytes@) == Ok::<
                (ValueModel, nat),
                DecodeError,
            >((v@, used as nat)),
            Err(e) => value_at(ty@, bytes@) == Err::<(ValueModel, nat), DecodeError>(e),
        },
{
    proof {
        assert(bytes@.skip(0) =~= bytes@);
    }
    decode_at(ty, bytes, 0)
}

/// Decodes a whole account payload under the given fields: skips the
/// discriminator, then decodes each field in declaration order. Either every
/// field decodes and the record holds them all, or there is no record.
pub fn decode_payload(fields: &Vec<Field>, data: &[u8]) -> (r: Result<StructuredValue, DecodeError>)
    ensures
        match r {
            Ok(v) => payload_value(fields_model(fields@), data@) == Ok::<ValueModel, DecodeError>(
                v@,
            ),
            Err(e) => payload_value(fields_model(fields@), data@) == Err::<
                ValueModel,
                DecodeError,
            >(e),
        },
{
    if data.len() < DISCRIMINATOR_LEN {
        return Err(DecodeError::Truncated);
    }
    match decode_fields_at(fields, data, DISCRIMINATOR_LEN) {
        Ok((members, _)) => {
            proof {
                crate::value::lemma_record_model(members);
            }
            Ok(StructuredValue::Record(members))
        },
        Err(e) => Err(e),
    }
}

} // verus!
