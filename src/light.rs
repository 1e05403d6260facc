//! Lights encoded in the names of tag points: `light_R_G_B_I_J_K`.
use vstd::prelude::*;

verus! {

/// A point light decoded from a tag-point name: the color channels as written
/// (0 to 255 for a full channel) and three integer parameters carried through.
#[derive(Clone, Copy, Debug, PartialEq, Eq)]
pub struct Light {
    pub color: (u32, u32, u32),
    pub unk: (u32, u32, u32),
}

/// Why a name that claims to encode a light could not be decoded.
#[derive(Clone, Copy, Debug, PartialEq, Eq)]
pub enum DecodeError {
    /// Fewer than seven `_`-separated fields.
    MissingField,
    /// The first field is not `light`.
    WrongTag,
    /// One of the six numeric fields is not a `u32`.
    BadNumber,
}

impl DecodeError {
    /// A human-readable cause.
    pub fn message(&self) -> (r: &'static str)
        ensures
            r@ == (if *self == DecodeError::BadNumber {
                "failed to parse number"@
            } else {
                "Invalid light definition"@
            }),
    {
        match self {
            DecodeError::MissingField => "Invalid light definition",
            DecodeError::WrongTag => "Invalid light definition",
            DecodeError::BadNumber => "failed to parse number",
        }
    }
}

/// The light given to a tag point.
#[derive(Clone, Copy, Debug, PartialEq, Eq)]
pub enum LightChoice {
    /// The name encodes a light, which was decoded.
    Encoded(Light),
    /// The name does not start with `light_`: the default white light.
    Plain,
    /// The name starts with `light_` but does not decode: the default white
    /// light, with the reason.
    Malformed(DecodeError),
}

pub open spec fn light_tag() -> Seq<char> {
    seq!['l', 'i', 'g', 'h', 't']
}

pub open spec fn light_prefix() -> Seq<char> {
    light_tag().push('_')
}

/// Whether `s` starts with `light_`.
pub open spec fn has_light_prefix(s: Seq<char>) -> bool {
    s.len() >= 6 && s.take(6) == light_prefix()
}

/// The fields of `s` between the `_` separators, empty ones included; a
/// string without separators is one field.
pub open spec fn fields(s: Seq<char>) -> Seq<Seq<char>>
    decreases s.len(),
{
    if s.len() == 0 {
        seq![Seq::empty()]
    } else {
        let rest = fields(s.drop_last());
        if s.last() == '_' {
            rest.push(Seq::empty())
        } else {
            rest.update(rest.len() - 1, rest.last().push(s.last()))
        }
    }
}

pub open spec fn is_digit(c: char) -> bool {
    '0' <= c && c <= '9'
}

pub open spec fn digit_value(c: char) -> nat {
    (c as u32 - '0' as u32) as nat
}

/// The value of a sequence of decimal digits, most significant first.
pub open spec fn digits_value(d: Seq<char>) -> nat
    decreases d.len(),
{
    if d.len() == 0 {
        0
    } else {
        digits_value(d.drop_last()) * 10 + digit_value(d.last())
    }
}

/// The digits of a number field: the field without one leading `+`.
pub open spec fn unsigned_digits(s: Seq<char>) -> Seq<char> {
    if s.len() > 0 && s[0] == '+' {
        s.drop_first()
    } else {
        s
    }
}

/// A field read as a `u32`: an optional `+`, then at least one decimal digit,
/// with a value that fits.
pub open spec fn parse_u32(s: Seq<char>) -> Option<u32> {
    let d = unsigned_digits(s);
    if d.len() > 0 && (forall|i: int| 0 <= i < d.len() ==> is_digit(#[trigger] d[i]))
        && digits_value(d) <= u32::MAX {
        Some(digits_value(d) as u32)
    } else {
        None
    }
}

/// What a name decodes to: seven fields or more, the first `light`, the next
/// six numbers (red, green, blue, then the three parameters); further fields
/// are ignored.
pub open spec fn decode_spec(s: Seq<char>) -> Result<Light, DecodeError> {
    let f = fields(s);
    if f.len() < 7 {
        Err(DecodeError::MissingField)
    } else if f[0] != light_tag() {
        Err(DecodeError::WrongTag)
    } else if parse_u32(f[1]).is_none() || parse_u32(f[2]).is_none() || parse_u32(f[3]).is_none()
        || parse_u32(f[4]).is_none() || parse_u32(f[5]).is_none() || parse_u32(f[6]).is_none() {
        Err(DecodeError::BadNumber)
    } else {
        Ok(
            Light {
                color: (parse_u32(f[1]).unwrap(), parse_u32(f[2]).unwrap(), parse_u32(f[3]).unwrap()),
                unk: (parse_u32(f[4]).unwrap(), parse_u32(f[5]).unwrap(), parse_u32(f[6]).unwrap()),
            },
        )
    }
}

/// The light that a tag point named `s` gets.
pub open spec fn choice_spec(s: Seq<char>) -> LightChoice {
    if !has_light_prefix(s) {
        LightChoice::Plain
    } else {
        match decode_spec(s) {
            Ok(l) => LightChoice::Encoded(l),
            Err(e) => LightChoice::Malformed(e),
        }
    }
}

pub open spec fn views(v: Seq<Vec<char>>) -> Seq<Seq<char>> {
    Seq::new(v.len(), |k: int| v[k]@)
}

/// Splits `s` at every `_`.
pub fn split_fields(s: &str) -> (r: Vec<Vec<char>>)
    ensures
        views(r@) == fields(s@),
{
    let n = s.unicode_len();
    let mut done: Vec<Vec<char>> = Vec::new();
    let mut current: Vec<char> = Vec::new();
    let mut i: usize = 0;
    assert(views(done@).push(current@) =~= fields(s@.take(0)));
    while i < n
        invariant
            n == s@.len(),
            i <= n,
            views(done@).push(current@) == fields(s@.take(i as int)),
        decreases n - i,
    {
        let c = s.get_char(i);
        assert(s@.take(i + 1).drop_last() =~= s@.take(i as int));
        assert(s@.take(i + 1).last() == c);
        if c == '_' {
            done.push(current);
            current = Vec::new();
            assert(views(done@).push(current@) =~= fields(s@.take(i + 1)));
        } else {
            current.push(c);
            assert(views(done@).push(current@) =~= fields(s@.take(i + 1)));
        }
        i += 1;
    }
    assert(s@.take(n as int) =~= s@);
    done.push(current);
    assert(views(done@) =~= fields(s@));
    done
}

proof fn lemma_digits_value_grows(d: Seq<char>, i: int)
    requires
        0 <= i <= d.len(),
    ensures
        digits_value(d.take(i)) <= digits_value(d),
    decreases d.len() - i,
{
    if i < d.len() {
        lemma_digits_value_grows(d, i + 1);
        assert(d.take(i + 1).drop_last() =~= d.take(i));
    } else {
        assert(d.take(i) =~= d);
    }
}

/// Reads a field as a `u32`, as `parse_u32` says.
pub fn parse_field(s: &Vec<char>) -> (r: Option<u32>)
    ensures
        r == parse_u32(s@),
{
    let n = s.len();
    let mut start: usize = 0;
    if n > 0 && s[0] == '+' {
        start = 1;
    }
    let ghost d = unsigned_digits(s@);
    assert(d =~= s@.skip(start as int));
    if start >= n {
        return None;
    }
    let mut acc: u64 = 0;
    let mut i: usize = start;
    while i < n
        invariant
            n == s@.len(),
            start <= i <= n,
            start < n,
            d == s@.skip(start as int),
            d == unsigned_digits(s@),
            acc == digits_value(d.take(i - start)),
            acc <= u32::MAX,
            forall|k: int| 0 <= k < i - start ==> is_digit(#[trigger] d[k]),
        decreases n - i,
    {
        let c = s[i];
        assert(d[i - start] == c);
        if !('0' <= c && c <= '9') {
            assert(!is_digit(d[i - start]));
            return None;
        }
        assert(d.take(i - start + 1).drop_last() =~= d.take(i - start));
        assert(d.take(i - start + 1).last() == c);
        assert(digits_value(d.take(i - start + 1)) == acc * 10 + digit_value(c));
        acc = acc * 10 + (c as u64 - '0' as u64);
        if acc > 0xffff_ffff {
            proof {
                lemma_digits_value_grows(d, i - start + 1);
            }
            return None;
        }
        i += 1;
    }
    assert(d.take(n - start) =~= d);
    Some(acc as u32)
}

fn is_light_tag(f: &Vec<char>) -> (r: bool)
    ensures
        r == (f@ == light_tag()),
{
    let r = f.len() == 5 && f[0] == 'l' && f[1] == 'i' && f[2] == 'g' && f[3] == 'h' && f[4] == 't';
    if r {
        assert(f@ =~= light_tag());
    }
    r
}

/// Decodes a name of the form `light_R_G_B_I_J_K`.
pub fn decode(name: &str) -> (r: Result<Light, DecodeError>)
    ensures
        r == decode_spec(name@),
{
    let f = split_fields(name);
    assert(f@.len() == fields(name@).len());
    if f.len() < 7 {
        return Err(DecodeError::MissingField);
    }
    assert(forall|k: int| 0 <= k < f@.len() ==> f@[k]@ == #[trigger] fields(name@)[k]) by {
        assert forall|k: int| 0 <= k < f@.len() implies f@[k]@ == #[trigger] fields(name@)[k] by {
            assert(views(f@)[k] == f@[k]@);
        }
    }
    if !is_light_tag(&f[0]) {
        return Err(DecodeError::WrongTag);
    }
    let r = parse_field(&f[1]);
    let g = parse_field(&f[2]);
    let b = parse_field(&f[3]);
    let i = parse_field(&f[4]);
    let j = parse_field(&f[5]);
    let k = parse_field(&f[6]);
    match (r, g, b, i, j, k) {
        (Some(r), Some(g), Some(b), Some(i), Some(j), Some(k)) => Ok(Light { color: (r, g, b), unk: (i, j, k) }),
        _ => Err(DecodeError::BadNumber),
    }
}

fn starts_with_light(name: &str) -> (r: bool)
    ensures
        r == has_light_prefix(name@),
{
    let n = name.unicode_len();
    if n < 6 {
        return false;
    }
    let r = name.get_char(0) == 'l' && name.get_char(1) == 'i' && name.get_char(2) == 'g'
        && name.get_char(3) == 'h' && name.get_char(4) == 't' && name.get_char(5) == '_';
    let ghost t = name@.take(6);
    assert(light_prefix() =~= seq!['l', 'i', 'g', 'h', 't', '_']);
    if r {
        assert(t =~= light_prefix());
    } else {
        assert(t[0] != light_prefix()[0] || t[1] != light_prefix()[1] || t[2] != light_prefix()[2]
            || t[3] != light_prefix()[3] || t[4] != light_prefix()[4] || t[5] != light_prefix()[5]);
    }
    r
}

/// The light of a tag point: decoded where the name starts with `light_`,
/// and the default light, with the reason, where such a name does not decode.
/// Other names get the default light without any attempt to decode them.
pub fn light_for_tag(name: &str) -> (r: LightChoice)
    ensures
        r == choice_spec(name@),
{
    if !starts_with_light(name) {
        return LightChoice::Plain;
    }
    match decode(name) {
        Ok(l) => LightChoice::Encoded(l),
        Err(e) => LightChoice::Malformed(e),
    }
}

} // verus!
