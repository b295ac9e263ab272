//! Reading amounts out of completion events. The host delivers each external
//! call's completion as a list of events carrying string attributes; the
//! resume handlers read received amounts from those attributes, either as a
//! bare number or as an asset string of the form `<amount><asset-name>`.

use vstd::prelude::*;
use vstd::string::*;

use crate::Error;

verus! {

/// One key/value pair reported by a completed external call.
pub struct Attribute {
    pub key: String,
    pub value: String,
}

/// One event of a completed external call.
pub struct Event {
    pub attributes: Vec<Attribute>,
}

/// Whether the attribute at `(i, j)` of `events` carries `name`.
pub open spec fn attr_matches(events: Seq<Event>, i: int, j: int, name: Seq<char>) -> bool {
    &&& 0 <= i < events.len()
    &&& 0 <= j < events[i].attributes@.len()
    &&& events[i].attributes@[j].key@ == name
}

/// Whether any attribute of `events` carries `name`.
pub open spec fn has_attr(events: Seq<Event>, name: Seq<char>) -> bool {
    exists|i: int, j: int| attr_matches(events, i, j, name)
}

/// Whether `(i, j)` is the first attribute of `events` carrying `name`, in
/// event order and attribute order within each event.
pub open spec fn first_attr_at(events: Seq<Event>, i: int, j: int, name: Seq<char>) -> bool {
    &&& attr_matches(events, i, j, name)
    &&& forall|i2: int, j2: int|
        attr_matches(events, i2, j2, name) ==> i2 > i || (i2 == i && j2 >= j)
}

/// The position of the first attribute of `events` carrying `name`;
/// meaningful only when `has_attr` holds.
pub open spec fn first_attr_index(events: Seq<Event>, name: Seq<char>) -> (int, int) {
    choose|ij: (int, int)| first_attr_at(events, ij.0, ij.1, name)
}

/// The value of the first attribute of `events` carrying `name`; meaningful
/// only when `has_attr` holds.
pub open spec fn the_attr_value(events: Seq<Event>, name: Seq<char>) -> Seq<char> {
    events[first_attr_index(events, name).0].attributes@[first_attr_index(events, name).1].value@
}

/// At most one attribute position is the first match.
pub proof fn lemma_first_attr_unique(events: Seq<Event>, name: Seq<char>, i: int, j: int)
    requires
        first_attr_at(events, i, j, name),
    ensures
        first_attr_index(events, name) == (i, j),
        the_attr_value(events, name) == events[i].attributes@[j].value@,
{
    assert(first_attr_at(events, first_attr_index(events, name).0, first_attr_index(events, name).1, name)) by {
        let ghost w: (int, int) = (i, j);
        assert(first_attr_at(events, w.0, w.1, name));
    }
    let (i2, j2) = first_attr_index(events, name);
    assert(attr_matches(events, i, j, name));
    assert(attr_matches(events, i2, j2, name));
    assert(i2 > i || (i2 == i && j2 >= j));
    assert(i > i2 || (i == i2 && j >= j2));
}

/// The splitting characters of an asset string: the first letter of either a
/// contract address or a native denomination ends the amount digits.
pub open spec fn is_split_char(c: char) -> bool {
    c == 't' || c == 'u'
}

/// Whether the string has a splitting character with only non-splitting
/// characters before it.
pub open spec fn has_first_split(s: Seq<char>) -> bool {
    exists|i: int|
        0 <= i < s.len() && is_split_char(s[i]) && (forall|k: int|
            0 <= k < i ==> !is_split_char(#[trigger] s[k]))
}

/// The position of the first splitting character; meaningful only when
/// `has_first_split` holds.
pub open spec fn split_index(s: Seq<char>) -> int {
    choose|i: int|
        0 <= i < s.len() && is_split_char(s[i]) && (forall|k: int|
            0 <= k < i ==> !is_split_char(#[trigger] s[k]))
}

/// The digits of an asset string: everything before the first splitting
/// character; meaningful only when `has_first_split` holds.
pub open spec fn amount_prefix(s: Seq<char>) -> Seq<char> {
    s.subrange(0, split_index(s))
}

/// At most one position is the first split.
pub proof fn lemma_first_split_unique(s: Seq<char>, i: int)
    requires
        0 <= i < s.len(),
        is_split_char(s[i]),
        forall|k: int| 0 <= k < i ==> !is_split_char(#[trigger] s[k]),
    ensures
        has_first_split(s),
        split_index(s) == i,
{
    assert(has_first_split(s));
    let i2 = split_index(s);
    assert(0 <= i2 < s.len() && is_split_char(s[i2]) && (forall|k: int|
        0 <= k < i2 ==> !is_split_char(#[trigger] s[k])));
    if i2 < i {
        assert(!is_split_char(s[i2]));
    }
    if i < i2 {
        assert(!is_split_char(s[i]));
    }
}

/// A decimal digit.
pub open spec fn is_digit(c: char) -> bool {
    '0' <= c <= '9'
}

pub open spec fn all_digits(s: Seq<char>) -> bool {
    forall|i: int| 0 <= i < s.len() ==> is_digit(#[trigger] s[i])
}

/// The numeric value of a digit string, most significant digit first.
pub open spec fn digits_value(s: Seq<char>) -> int
    decreases s.len(),
{
    if s.len() == 0 {
        0
    } else {
        digits_value(s.drop_last()) * 10 + (s.last() as int - '0' as int)
    }
}

proof fn lemma_digits_value_nonneg(s: Seq<char>)
    requires
        all_digits(s),
    ensures
        digits_value(s) >= 0,
    decreases s.len(),
{
    if s.len() > 0 {
        assert(all_digits(s.drop_last())) by {
            assert forall|i: int| 0 <= i < s.drop_last().len() implies is_digit(
                s.drop_last()[i],
            ) by {
                assert(s.drop_last()[i] == s[i]);
            }
        }
        lemma_digits_value_nonneg(s.drop_last());
    }
}

/// Appending digits never decreases the value of a digit string.
proof fn lemma_digits_value_mono(s: Seq<char>, i: int)
    requires
        0 <= i <= s.len(),
        all_digits(s),
    ensures
        digits_value(s) >= digits_value(s.take(i)),
    decreases s.len() - i,
{
    if i < s.len() {
        assert(s.take(i + 1).drop_last() =~= s.take(i));
        assert(s.take(i + 1).last() == s[i]);
        assert(all_digits(s.take(i))) by {
            assert forall|k: int| 0 <= k < s.take(i).len() implies is_digit(s.take(i)[k]) by {
                assert(s.take(i)[k] == s[k]);
            }
        }
        lemma_digits_value_nonneg(s.take(i));
        assert(digits_value(s.take(i + 1)) >= digits_value(s.take(i)));
        lemma_digits_value_mono(s, i + 1);
    }
    assert(s.take(s.len() as int) =~= s);
}

/// What a digit string parses to: its exact value, or a parse failure on an
/// empty string, a non-digit, or a value beyond the machine range.
pub open spec fn parsed_value(s: Seq<char>) -> Result<u64, Error> {
    if s.len() > 0 && all_digits(s) && digits_value(s) <= u64::MAX {
        Ok(digits_value(s) as u64)
    } else {
        Err(Error::InvalidAttribute)
    }
}

/// What reading a bare amount out of `events`' first attribute named `name`
/// yields.
pub open spec fn raw_amount_result(events: Seq<Event>, name: Seq<char>) -> Result<u64, Error> {
    if !has_attr(events, name) {
        Err(Error::MissingAttribute)
    } else {
        parsed_value(the_attr_value(events, name))
    }
}

/// What reading an asset-string amount out of `events`' first attribute
/// named `name` yields.
pub open spec fn asset_amount_result(events: Seq<Event>, name: Seq<char>) -> Result<u64, Error> {
    if !has_attr(events, name) {
        Err(Error::MissingAttribute)
    } else {
        let v = the_attr_value(events, name);
        if !has_first_split(v) {
            Err(Error::InvalidAttribute)
        } else {
            parsed_value(amount_prefix(v))
        }
    }
}

/// The value of `events`' first attribute named `raw_attr_name`, verbatim.
pub fn get_amount_from_response_raw_attr(events: &Vec<Event>, raw_attr_name: &String) -> (r: Result<
    String,
    Error,
>)
    ensures
        match r {
            Ok(v) => has_attr(events@, raw_attr_name@) && v@ == the_attr_value(
                events@,
                raw_attr_name@,
            ),
            Err(e) => e == Error::MissingAttribute && !has_attr(events@, raw_attr_name@),
        },
{
    let n = events.len();
    let mut i: usize = 0;
    while i < n
        invariant
            i <= n,
            n == events@.len(),
            forall|i2: int, j2: int| attr_matches(events@, i2, j2, raw_attr_name@) ==> i2 >= i,
        decreases n - i,
    {
        let m = events[i].attributes.len();
        let mut j: usize = 0;
        while j < m
            invariant
                i < n,
                j <= m,
                n == events@.len(),
                m == events@[i as int].attributes@.len(),
                forall|i2: int, j2: int|
                    attr_matches(events@, i2, j2, raw_attr_name@) ==> i2 > i || (i2 == i && j2 >= j),
            decreases m - j,
        {
            if events[i].attributes[j].key == *raw_attr_name {
                proof {
                    assert(attr_matches(events@, i as int, j as int, raw_attr_name@));
                    assert(first_attr_at(events@, i as int, j as int, raw_attr_name@));
                    lemma_first_attr_unique(events@, raw_attr_name@, i as int, j as int);
                }
                return Ok(events[i].attributes[j].value.clone());
            }
            j += 1;
        }
        i += 1;
    }
    assert forall|i2: int, j2: int| !attr_matches(events@, i2, j2, raw_attr_name@) by {}
    Err(Error::MissingAttribute)
}

/// The digits of an asset string `<amount><asset-name>`: everything before
/// the first `t` or `u`, the first letter of a contract address or of a
/// native denomination.
pub fn get_amount_from_asset_as_string(data: &str) -> (r: Option<String>)
    ensures
        match r {
            Some(p) => has_first_split(data@) && p@ == amount_prefix(data@),
            None => !has_first_split(data@),
        },
{
    let n = data.unicode_len();
    let mut i: usize = 0;
    while i < n
        invariant
            i <= n,
            n == data@.len(),
            forall|k: int| 0 <= k < i ==> !is_split_char(#[trigger] data@[k]),
        decreases n - i,
    {
        let c = data.get_char(i);
        if c == 't' || c == 'u' {
            proof {
                lemma_first_split_unique(data@, i as int);
            }
            let p = data.substring_char(0, i);
            return Some(p.to_owned());
        }
        i += 1;
    }
    None
}

/// The amount carried by `events`' first attribute named `attr_name`, read
/// out of its asset-string value.
pub fn get_amount_from_response_asset_as_string_attr(events: &Vec<Event>, attr_name: &String) -> (r:
    Result<String, Error>)
    ensures
        ({
            let v = the_attr_value(events@, attr_name@);
            match r {
                Ok(p) => has_attr(events@, attr_name@) && has_first_split(v) && p@
                    == amount_prefix(v),
                Err(e) => if !has_attr(events@, attr_name@) {
                    e == Error::MissingAttribute
                } else {
                    e == Error::InvalidAttribute && !has_first_split(v)
                },
            }
        }),
{
    let attr_value = match get_amount_from_response_raw_attr(events, attr_name) {
        Ok(v) => v,
        Err(e) => {
            return Err(e);
        },
    };
    match get_amount_from_asset_as_string(attr_value.as_str()) {
        None => Err(Error::InvalidAttribute),
        Some(a) => Ok(a),
    }
}

/// Reads a decimal amount string into a number. Fails on an empty string, a
/// non-digit character, or a value beyond the machine range.
pub fn parse_uint(s: &str) -> (r: Result<u64, Error>)
    ensures
        match r {
            Ok(v) => {
                &&& s@.len() > 0
                &&& all_digits(s@)
                &&& digits_value(s@) <= u64::MAX
                &&& v == digits_value(s@)
            },
            Err(e) => e == Error::InvalidAttribute && (s@.len() == 0 || !all_digits(s@)
                || digits_value(s@) > u64::MAX),
        },
{
    let n = s.unicode_len();
    if n == 0 {
        return Err(Error::InvalidAttribute);
    }
    let mut value: u64 = 0;
    let mut i: usize = 0;
    while i < n
        invariant
            i <= n,
            n == s@.len(),
            n > 0,
            all_digits(s@.take(i as int)),
            value == digits_value(s@.take(i as int)),
        decreases n - i,
    {
        let c = s.get_char(i);
        let d = c as u32;
        if d < 48 || d > 57 {
            assert(!is_digit(s@[i as int]));
            return Err(Error::InvalidAttribute);
        }
        proof {
            assert(s@.take(i + 1).drop_last() =~= s@.take(i as int));
            assert(s@.take(i + 1).last() == s@[i as int]);
            assert(all_digits(s@.take(i + 1))) by {
                assert forall|k: int| 0 <= k < i + 1 implies is_digit(#[trigger] s@.take(i + 1)[k]) by {
                    assert(s@.take(i + 1)[k] == s@[k]);
                    if k < i {
                        assert(s@.take(i as int)[k] == s@[k]);
                    }
                }
            }
        }
        let digit = (d - 48) as u64;
        let shifted = match value.checked_mul(10) {
            Some(v) => v,
            None => {
                proof {
                    if all_digits(s@) {
                        lemma_digits_value_mono(s@, i + 1);
                    }
                }
                return Err(Error::InvalidAttribute);
            },
        };
        value = match shifted.checked_add(digit) {
            Some(v) => v,
            None => {
                proof {
                    if all_digits(s@) {
                        lemma_digits_value_mono(s@, i + 1);
                    }
                }
                return Err(Error::InvalidAttribute);
            },
        };
        i += 1;
    }
    proof {
        assert(s@.take(n as int) =~= s@);
    }
    Ok(value)
}

} // verus!
