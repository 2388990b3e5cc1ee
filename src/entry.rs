use vstd::prelude::*;

verus! {

/// Provenance time of a message, as seconds and nanoseconds since the epoch.
#[derive(Clone, Copy, Debug, PartialEq, Eq, Structural)]
pub struct Timestamp {
    pub secs: i64,
    pub nanos: u32,
}

/// One decoded queue message: what a worker needs to process a token URI.
pub struct WorkItem {
    pub token_data_id: String,
    pub token_uri: String,
    pub last_transaction_version: i32,
    pub last_transaction_timestamp: Timestamp,
    pub force: bool,
}

/// Why a queue message could not be decoded.
#[derive(Clone, Copy, Debug, PartialEq, Eq, Structural)]
pub enum DecodeError {
    /// The message does not hold exactly five comma-separated fields.
    FieldCount,
    /// The version field is not a decimal `i32`.
    Version,
    /// The timestamp field matches neither accepted format.
    Timestamp,
}

/// The pieces of `s` between the occurrences of `sep`, in order; there is
/// always one more piece than there are separators.
pub open spec fn split_on(s: Seq<char>, sep: char) -> Seq<Seq<char>>
    decreases s.len(),
{
    if s.len() == 0 {
        seq![Seq::<char>::empty()]
    } else {
        let pre = split_on(s.drop_last(), sep);
        if s.last() == sep {
            pre.push(Seq::<char>::empty())
        } else {
            pre.update(pre.len() - 1, pre.last().push(s.last()))
        }
    }
}

/// Splits `s` at every comma.
pub fn split_fields(s: &str) -> (r: Vec<String>)
    ensures
        r@.len() == split_on(s@, ',').len(),
        forall|k: int| 0 <= k < r@.len() ==> #[trigger] r@[k]@ == split_on(s@, ',')[k],
{
    let n = s.unicode_len();
    let mut fields: Vec<String> = Vec::new();
    let mut start: usize = 0;
    let mut i: usize = 0;
    proof {
        assert(s@.take(0) =~= Seq::<char>::empty());
        assert(fields@.map_values(|f: String| f@).push(s@.subrange(0, 0)) =~= seq![
            Seq::<char>::empty(),
        ]);
    }
    while i < n
        invariant
            n == s@.len(),
            start <= i <= n,
            split_on(s@.take(i as int), ',') == fields@.map_values(|f: String| f@).push(
                s@.subrange(start as int, i as int),
            ),
        decreases n - i,
    {
        let c = s.get_char(i);
        proof {
            assert(s@.take(i + 1).drop_last() == s@.take(i as int));
            assert(s@.take(i + 1).last() == c);
        }
        if c == ',' {
            let ghost before = fields@.map_values(|f: String| f@);
            let piece = s.substring_char(start, i).to_owned();
            fields.push(piece);
            start = i + 1;
            proof {
                assert(s@.subrange(start as int, i + 1) == Seq::<char>::empty());
                assert(fields@.map_values(|f: String| f@) == before.push(piece@));
            }
        } else {
            proof {
                assert(s@.subrange(start as int, i as int).push(c) == s@.subrange(
                    start as int,
                    i + 1,
                ));
            }
        }
        i = i + 1;
    }
    let ghost before = fields@.map_values(|f: String| f@);
    let last = s.substring_char(start, n).to_owned();
    fields.push(last);
    proof {
        assert(fields@.map_values(|f: String| f@) == before.push(last@));
        assert(s@.take(n as int) == s@);
        assert(fields@.map_values(|f: String| f@) == split_on(s@, ','));
    }
    fields
}

pub open spec fn is_digit(c: char) -> bool {
    '0' <= c <= '9'
}

/// Value of a string of decimal digits.
pub open spec fn digits_value(s: Seq<char>) -> int
    decreases s.len(),
{
    if s.len() == 0 {
        0
    } else {
        digits_value(s.drop_last()) * 10 + (s.last() as int - '0' as int)
    }
}

pub open spec fn all_digits(s: Seq<char>) -> bool {
    forall|k: int| 0 <= k < s.len() ==> is_digit(#[trigger] s[k])
}

pub open spec fn has_sign(s: Seq<char>) -> bool {
    s.len() > 0 && (s[0] == '-' || s[0] == '+')
}

/// The text after an optional leading sign.
pub open spec fn unsigned_part(s: Seq<char>) -> Seq<char> {
    if has_sign(s) {
        s.drop_first()
    } else {
        s
    }
}

/// The `i32` that `s` writes in decimal: an optional sign, then at least one
/// digit, with a value in range.
pub open spec fn decimal_i32(s: Seq<char>) -> Option<i32> {
    let digits = unsigned_part(s);
    let v = if has_sign(s) && s[0] == '-' {
        -digits_value(digits)
    } else {
        digits_value(digits)
    };
    if digits.len() > 0 && all_digits(digits) && i32::MIN <= v <= i32::MAX {
        Some(v as i32)
    } else {
        None
    }
}

proof fn lemma_digits_value_nonneg(s: Seq<char>)
    requires
        forall|k: int| 0 <= k < s.len() ==> is_digit(#[trigger] s[k]),
    ensures
        digits_value(s) >= 0,
    decreases s.len(),
{
    if s.len() > 0 {
        lemma_digits_value_nonneg(s.drop_last());
    }
}

/// Above the magnitude of every `i32`.
const DIGITS_CAP: i64 = 2147483649;

/// Reads a decimal `i32`, as `str::parse::<i32>` does.
pub fn parse_i32(s: &str) -> (r: Option<i32>)
    ensures
        r == decimal_i32(s@),
{
    let n = s.unicode_len();
    if n == 0 {
        return None;
    }
    let first = s.get_char(0);
    let signed = first == '-' || first == '+';
    let start: usize = if signed {
        1
    } else {
        0
    };
    let ghost digits = s@.subrange(start as int, n as int);
    proof {
        if signed {
            assert(digits == s@.drop_first());
        } else {
            assert(digits == s@);
        }
    }
    if start == n {
        proof {
            assert(digits.len() == 0);
            assert(signed);
        }
        return None;
    }
    let mut acc: i64 = 0;
    let mut i: usize = start;
    while i < n
        invariant
            n == s@.len(),
            start <= i <= n,
            digits == s@.subrange(start as int, n as int),
            digits == unsigned_part(s@),
            forall|k: int| start <= k < i ==> is_digit(#[trigger] s@[k]),
            0 <= acc <= DIGITS_CAP,
            acc == (if digits_value(s@.subrange(start as int, i as int)) < DIGITS_CAP {
                digits_value(s@.subrange(start as int, i as int))
            } else {
                DIGITS_CAP as int
            }),
        decreases n - i,
    {
        let c = s.get_char(i);
        if !('0' <= c && c <= '9') {
            proof {
                assert(digits[i - start] == c);
                assert(!is_digit(digits[i - start]));
            }
            return None;
        }
        let ghost prev = s@.subrange(start as int, i as int);
        let ghost v = digits_value(prev);
        proof {
            assert(s@.subrange(start as int, i + 1).drop_last() == prev);
            assert forall|k: int| 0 <= k < prev.len() implies is_digit(#[trigger] prev[k]) by {
                assert(prev[k] == s@[start + k]);
            }
            lemma_digits_value_nonneg(prev);
            if v >= DIGITS_CAP {
                assert(v * 10 >= DIGITS_CAP * 10) by (nonlinear_arith)
                    requires
                        v >= DIGITS_CAP,
                ;
            }
        }
        let d = (c as u32 - '0' as u32) as i64;
        let next = acc * 10 + d;
        acc = if next > DIGITS_CAP {
            DIGITS_CAP
        } else {
            next
        };
        i = i + 1;
    }
    proof {
        assert(s@.subrange(start as int, n as int) == digits);
        assert forall|k: int| 0 <= k < digits.len() implies is_digit(#[trigger] digits[k]) by {
            assert(digits[k] == s@[start + k]);
        }
        assert(all_digits(digits));
    }
    if signed && first == '-' {
        if acc <= 2147483648 {
            Some((-acc) as i32)
        } else {
            None
        }
    } else {
        if acc <= 2147483647 {
            Some(acc as i32)
        } else {
            None
        }
    }
}

/// What `chrono::NaiveDateTime::parse_from_str` makes of a text in a format:
/// seconds and nanoseconds since the epoch, or `None` where it fails.
pub uninterp spec fn naive_datetime_parse(text: Seq<char>, format: Seq<char>) -> Option<(i64, u32)>;

/// Relies on `chrono::NaiveDateTime::parse_from_str`, whose result depends on
/// the text and the format alone; the time is read back in UTC.
#[verifier::external_body]
fn parse_datetime(text: &str, format: &str) -> (r: Option<(i64, u32)>)
    ensures
        r == naive_datetime_parse(text@, format@),
{
    match chrono::NaiveDateTime::parse_from_str(text, format) {
        Ok(t) => Some((t.and_utc().timestamp(), t.and_utc().timestamp_subsec_nanos())),
        Err(_) => None,
    }
}

pub open spec fn primary_format() -> Seq<char> {
    "%Y-%m-%d %H:%M:%S %Z"@
}

pub open spec fn fallback_format() -> Seq<char> {
    "%Y-%m-%d %H:%M:%S%.f %Z"@
}

/// The time a field gives, from what the primary and the fallback format
/// made of it: the primary result where there is one, else the fallback's.
pub open spec fn chosen_timestamp(primary: Option<(i64, u32)>, fallback: Option<(i64, u32)>) -> Option<
    Timestamp,
> {
    match primary {
        Some(p) => Some(Timestamp { secs: p.0, nanos: p.1 }),
        None => match fallback {
            Some(f) => Some(Timestamp { secs: f.0, nanos: f.1 }),
            None => None,
        },
    }
}

/// The time a timestamp field gives: the primary format, else the fallback.
pub open spec fn timestamp_of(text: Seq<char>) -> Option<Timestamp> {
    chosen_timestamp(
        naive_datetime_parse(text, primary_format()),
        naive_datetime_parse(text, fallback_format()),
    )
}

/// Chooses between the two parses of a timestamp field; the fallback counts
/// only where the primary format failed.
pub fn choose_timestamp(primary: Option<(i64, u32)>, fallback: Option<(i64, u32)>) -> (r: Option<
    Timestamp,
>)
    ensures
        r == chosen_timestamp(primary, fallback),
{
    match primary {
        Some(p) => Some(Timestamp { secs: p.0, nanos: p.1 }),
        None => match fallback {
            Some(f) => Some(Timestamp { secs: f.0, nanos: f.1 }),
            None => None,
        },
    }
}

/// Reads a timestamp field in either accepted format; the fallback format is
/// tried only where the primary one fails.
pub fn parse_timestamp(text: &str) -> (r: Option<Timestamp>)
    ensures
        r == timestamp_of(text@),
{
    let primary = parse_datetime(text, "%Y-%m-%d %H:%M:%S %Z");
    if primary.is_some() {
        choose_timestamp(primary, None)
    } else {
        let fallback = parse_datetime(text, "%Y-%m-%d %H:%M:%S%.f %Z");
        choose_timestamp(primary, fallback)
    }
}

/// What a queue message decodes to.
pub open spec fn decoded(text: Seq<char>) -> Result<
    (Seq<char>, Seq<char>, i32, Timestamp, bool),
    DecodeError,
> {
    let f = split_on(text, ',');
    if f.len() != 5 {
        Err(DecodeError::FieldCount)
    } else if decimal_i32(f[2]) is None {
        Err(DecodeError::Version)
    } else if timestamp_of(f[3]) is None {
        Err(DecodeError::Timestamp)
    } else {
        Ok((f[0], f[1], decimal_i32(f[2])->0, timestamp_of(f[3])->0, f[4] == "true"@))
    }
}

/// Decodes a message `id,uri,version,timestamp,force`; a force field other
/// than `true` reads as `false`.
pub fn decode_entry(text: &str) -> (r: Result<WorkItem, DecodeError>)
    ensures
        match (r, decoded(text@)) {
            (Ok(w), Ok(d)) => w.token_data_id@ == d.0 && w.token_uri@ == d.1
                && w.last_transaction_version == d.2 && w.last_transaction_timestamp == d.3
                && w.force == d.4,
            (Err(e), Err(d)) => e == d,
            _ => false,
        },
{
    let fields = split_fields(text);
    if fields.len() != 5 {
        return Err(DecodeError::FieldCount);
    }
    let version = match parse_i32(fields[2].as_str()) {
        Some(v) => v,
        None => return Err(DecodeError::Version),
    };
    let timestamp = match parse_timestamp(fields[3].as_str()) {
        Some(t) => t,
        None => return Err(DecodeError::Timestamp),
    };
    let force = fields[4] == "true".to_owned();
    Ok(
        WorkItem {
            token_data_id: fields[0].clone(),
            token_uri: fields[1].clone(),
            last_transaction_version: version,
            last_transaction_timestamp: timestamp,
            force,
        },
    )
}

} // verus!
