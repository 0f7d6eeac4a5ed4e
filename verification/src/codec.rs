//! The wire codec: every connector body this core emits or accepts is a
//! flat object of string and integer fields, rendered either as a compact
//! JSON object (`{"k":"v","n":12}`) or as a form-encoded pair list
//! (`k=v&n=12`). Rendering and parsing are defined against one spec-level
//! grammar, and parsing provably inverts rendering, so a decoded success
//! response reconstructs exactly the fields the connector put on the wire.

use vstd::prelude::*;
use vstd::string::StrSliceExecFns;
use vstd::string::StringExecFns;

verus! {

/// One field value on the wire: a quoted text or a decimal integer.
#[derive(Clone, Debug, PartialEq, Eq)]
pub enum WireValue {
    Str(String),
    Int(i64),
}

/// One `key: value` pair of a wire object.
#[derive(Clone, Debug, PartialEq, Eq)]
pub struct WireField {
    pub key: String,
    pub value: WireValue,
}

/// Mathematical value of a `WireValue`.
pub enum SpecValue {
    Str(Seq<char>),
    Int(int),
}

/// Mathematical value of a `WireField`.
pub struct SpecField {
    pub key: Seq<char>,
    pub value: SpecValue,
}

impl View for WireValue {
    type V = SpecValue;

    open spec fn view(&self) -> SpecValue {
        match self {
            WireValue::Str(s) => SpecValue::Str(s@),
            WireValue::Int(i) => SpecValue::Int(*i as int),
        }
    }
}

impl View for WireField {
    type V = SpecField;

    open spec fn view(&self) -> SpecField {
        SpecField { key: self.key@, value: self.value@ }
    }
}

/// The fields of a wire object, at the spec level.
pub open spec fn fields_view(fields: Seq<WireField>) -> Seq<SpecField> {
    fields.map_values(|f: WireField| f@)
}

/// A text may stand inside quotes only if it contains neither a quote nor
/// a backslash: the wire format has no escape sequences.
pub open spec fn text_ok(s: Seq<char>) -> bool {
    forall|i: int| 0 <= i < s.len() ==> s[i] != '"' && s[i] != '\\'
}

/// A value whose rendering a parser can undo.
pub open spec fn value_ok(v: SpecValue) -> bool {
    match v {
        SpecValue::Str(s) => text_ok(s),
        SpecValue::Int(i) => i64::MIN <= i <= i64::MAX,
    }
}

/// A field whose rendering a parser can undo.
pub open spec fn field_ok(f: SpecField) -> bool {
    text_ok(f.key) && value_ok(f.value)
}

/// An object whose rendering a parser can undo.
pub open spec fn object_ok(fs: Seq<SpecField>) -> bool {
    forall|i: int| 0 <= i < fs.len() ==> field_ok(#[trigger] fs[i])
}

/// Decimal digit character for `n` in 0..=9.
pub open spec fn digit_char(n: int) -> char {
    if n == 0 { '0' }
    else if n == 1 { '1' }
    else if n == 2 { '2' }
    else if n == 3 { '3' }
    else if n == 4 { '4' }
    else if n == 5 { '5' }
    else if n == 6 { '6' }
    else if n == 7 { '7' }
    else if n == 8 { '8' }
    else { '9' }
}

/// Decimal rendering of a non-negative integer, most significant digit
/// first, no leading zeros.
pub open spec fn dec_chars(n: int) -> Seq<char>
    decreases n,
{
    if n < 10 {
        seq![digit_char(n)]
    } else {
        dec_chars(n / 10).push(digit_char(n % 10))
    }
}

/// Decimal rendering of an integer, with a leading minus sign when
/// negative.
pub open spec fn int_chars(v: int) -> Seq<char> {
    if v < 0 {
        seq!['-'] + dec_chars(-v)
    } else {
        dec_chars(v)
    }
}

/// Rendering of one value.
pub open spec fn value_chars(v: SpecValue) -> Seq<char> {
    match v {
        SpecValue::Str(s) => seq!['"'] + s + seq!['"'],
        SpecValue::Int(i) => int_chars(i),
    }
}

/// Rendering of one `"key":value` pair.
pub open spec fn field_chars(f: SpecField) -> Seq<char> {
    seq!['"'] + f.key + seq!['"', ':'] + value_chars(f.value)
}

/// Rendering of a comma-separated field list.
pub open spec fn fields_chars(fs: Seq<SpecField>) -> Seq<char>
    decreases fs.len(),
{
    if fs.len() == 0 {
        Seq::empty()
    } else if fs.len() == 1 {
        field_chars(fs[0])
    } else {
        field_chars(fs[0]) + seq![','] + fields_chars(fs.drop_first())
    }
}

/// Rendering of a whole object.
pub open spec fn object_chars(fs: Seq<SpecField>) -> Seq<char> {
    seq!['{'] + fields_chars(fs) + seq!['}']
}

/// Rendering of one `key=value` form pair.
pub open spec fn form_pair_chars(f: SpecField) -> Seq<char> {
    f.key + seq!['='] + (match f.value {
        SpecValue::Str(s) => s,
        SpecValue::Int(i) => int_chars(i),
    })
}

/// Rendering of an `&`-separated form body.
pub open spec fn form_chars(fs: Seq<SpecField>) -> Seq<char>
    decreases fs.len(),
{
    if fs.len() == 0 {
        Seq::empty()
    } else if fs.len() == 1 {
        form_pair_chars(fs[0])
    } else {
        form_pair_chars(fs[0]) + seq!['&'] + form_chars(fs.drop_first())
    }
}

/// Index of the first quote character at or after `i`, if any.
pub open spec fn scan_quote(s: Seq<char>, i: int) -> Option<int>
    decreases s.len() - i,
        when 0 <= i <= s.len()
{
    if i >= s.len() {
        None
    } else if s[i] == '"' {
        Some(i)
    } else {
        scan_quote(s, i + 1)
    }
}

/// Whether `c` is a decimal digit.
pub open spec fn is_digit(c: char) -> bool {
    '0' as u32 <= c as u32 && c as u32 <= '9' as u32
}

/// Numeric value of a digit character.
pub open spec fn digit_val(c: char) -> int {
    c as u32 - '0' as u32
}

/// First index at or after `i` that does not hold a digit.
pub open spec fn scan_digits(s: Seq<char>, i: int) -> int
    decreases s.len() - i,
        when 0 <= i <= s.len()
{
    if i >= s.len() {
        i
    } else if is_digit(s[i]) {
        scan_digits(s, i + 1)
    } else {
        i
    }
}

/// Value of a digit string, most significant digit first.
pub open spec fn digits_val(s: Seq<char>) -> int
    decreases s.len(),
{
    if s.len() == 0 {
        0
    } else {
        digits_val(s.drop_last()) * 10 + digit_val(s.last())
    }
}

/// Parses a quoted text starting at `i`; yields the text and the index
/// after the closing quote.
pub open spec fn parse_string_at(s: Seq<char>, i: int) -> Option<(Seq<char>, int)> {
    if 0 <= i < s.len() && s[i] == '"' {
        match scan_quote(s, i + 1) {
            Some(j) => {
                if text_ok(s.subrange(i + 1, j)) {
                    Some((s.subrange(i + 1, j), j + 1))
                } else {
                    None
                }
            },
            None => None,
        }
    } else {
        None
    }
}

/// Parses a decimal integer starting at `i`: an optional minus sign, then
/// digits, canonical (no leading zeros, no minus zero) and within `i64`.
pub open spec fn parse_int_at(s: Seq<char>, i: int) -> Option<(int, int)> {
    if 0 <= i < s.len() {
        let neg = s[i] == '-';
        let d = if neg { i + 1 } else { i };
        let j = scan_digits(s, d);
        if j == d {
            None
        } else if s[d] == '0' && j > d + 1 {
            None
        } else {
            let m = digits_val(s.subrange(d, j));
            let v = if neg { -m } else { m };
            if neg && m == 0 {
                None
            } else if i64::MIN <= v <= i64::MAX {
                Some((v, j))
            } else {
                None
            }
        }
    } else {
        None
    }
}

/// Parses one value starting at `i`: a quoted text or an integer.
pub open spec fn parse_value_at(s: Seq<char>, i: int) -> Option<(SpecValue, int)> {
    if 0 <= i < s.len() && s[i] == '"' {
        match parse_string_at(s, i) {
            Some((t, j)) => Some((SpecValue::Str(t), j)),
            None => None,
        }
    } else {
        match parse_int_at(s, i) {
            Some((v, j)) => Some((SpecValue::Int(v), j)),
            None => None,
        }
    }
}

/// Where `scan_quote` stops: at the first quote, past no quote.
pub proof fn lemma_scan_quote_bounds(s: Seq<char>, i: int)
    requires
        0 <= i <= s.len(),
    ensures
        match scan_quote(s, i) {
            Some(j) => i <= j < s.len() && s[j] == '"'
                && forall|k: int| i <= k < j ==> s[k] != '"',
            None => forall|k: int| i <= k < s.len() ==> s[k] != '"',
        },
    decreases s.len() - i,
{
    if i < s.len() && s[i] != '"' {
        lemma_scan_quote_bounds(s, i + 1);
    }
}

/// Where `scan_digits` stops: after a run of digits, before a non-digit.
pub proof fn lemma_scan_digits_bounds(s: Seq<char>, i: int)
    requires
        0 <= i <= s.len(),
    ensures
        i <= scan_digits(s, i) <= s.len(),
        forall|k: int| i <= k < scan_digits(s, i) ==> is_digit(s[k]),
        scan_digits(s, i) < s.len() ==> !is_digit(s[scan_digits(s, i)]),
    decreases s.len() - i,
{
    if i < s.len() && is_digit(s[i]) {
        lemma_scan_digits_bounds(s, i + 1);
    }
}

/// A successful string parse moves the cursor forward, at least past the
/// two quotes.
pub proof fn lemma_parse_string_bounds(s: Seq<char>, i: int)
    ensures
        match parse_string_at(s, i) {
            Some((t, j)) => i + 2 <= j <= s.len() && t.len() == j - i - 2,
            None => true,
        },
{
    if 0 <= i < s.len() && s[i] == '"' {
        lemma_scan_quote_bounds(s, i + 1);
    }
}

/// A successful integer parse moves the cursor forward.
pub proof fn lemma_parse_int_bounds(s: Seq<char>, i: int)
    ensures
        match parse_int_at(s, i) {
            Some((v, j)) => i + 1 <= j <= s.len(),
            None => true,
        },
{
    if 0 <= i < s.len() {
        let neg = s[i] == '-';
        let d = if neg { i + 1 } else { i };
        lemma_scan_digits_bounds(s, d);
    }
}

/// A successful value parse moves the cursor forward.
pub proof fn lemma_parse_value_bounds(s: Seq<char>, i: int)
    ensures
        match parse_value_at(s, i) {
            Some((v, j)) => i + 1 <= j <= s.len(),
            None => true,
        },
{
    lemma_parse_string_bounds(s, i);
    lemma_parse_int_bounds(s, i);
}

/// Parses a non-empty comma-separated field list starting at `i`; yields
/// the fields and the index after the last value.
pub open spec fn parse_fields_at(s: Seq<char>, i: int) -> Option<(Seq<SpecField>, int)>
    decreases s.len() - i,
        when 0 <= i <= s.len()
{
    match parse_string_at(s, i) {
        None => None,
        Some((key, j)) => {
            if j < s.len() && s[j] == ':' {
                match parse_value_at(s, j + 1) {
                    None => None,
                    Some((v, k)) => {
                        if k < s.len() && s[k] == ',' {
                            proof {
                                lemma_parse_string_bounds(s, i);
                                lemma_parse_value_bounds(s, j + 1);
                            }
                            match parse_fields_at(s, k + 1) {
                                None => None,
                                Some((rest, m)) => Some(
                                    (seq![SpecField { key, value: v }] + rest, m),
                                ),
                            }
                        } else {
                            Some((seq![SpecField { key, value: v }], k))
                        }
                    },
                }
            } else {
                None
            }
        },
    }
}

/// A successful field-list parse moves the cursor forward and never past
/// the end.
pub proof fn lemma_parse_fields_bounds(s: Seq<char>, i: int)
    requires
        0 <= i <= s.len(),
    ensures
        match parse_fields_at(s, i) {
            Some((fs, j)) => i < j <= s.len() && fs.len() >= 1,
            None => true,
        },
    decreases s.len() - i,
{
    lemma_parse_string_bounds(s, i);
    if parse_string_at(s, i) is Some {
        let (key, j) = parse_string_at(s, i)->Some_0;
        if j < s.len() && s[j] == ':' {
            lemma_parse_value_bounds(s, j + 1);
            if parse_value_at(s, j + 1) is Some {
                let (v, k) = parse_value_at(s, j + 1)->Some_0;
                if k < s.len() && s[k] == ',' {
                    lemma_parse_fields_bounds(s, k + 1);
                }
            }
        }
    }
}

/// Parses a whole object: `{`, an optional field list, `}`, nothing else.
pub open spec fn spec_parse_object(s: Seq<char>) -> Option<Seq<SpecField>> {
    if s.len() == 2 && s[0] == '{' && s[1] == '}' {
        Some(Seq::empty())
    } else if s.len() >= 2 && s[0] == '{' {
        match parse_fields_at(s, 1) {
            Some((fs, j)) => {
                if j == s.len() - 1 && s[j] == '}' {
                    Some(fs)
                } else {
                    None
                }
            },
            None => None,
        }
    } else {
        None
    }
}

/// Static string for one decimal digit.
fn digit_str(d: u64) -> (r: &'static str)
    requires
        d < 10,
    ensures
        r@ =~= seq![digit_char(d as int)],
{
    proof {
        reveal_strlit("0");
        reveal_strlit("1");
        reveal_strlit("2");
        reveal_strlit("3");
        reveal_strlit("4");
        reveal_strlit("5");
        reveal_strlit("6");
        reveal_strlit("7");
        reveal_strlit("8");
        reveal_strlit("9");
    }
    if d == 0 { "0" }
    else if d == 1 { "1" }
    else if d == 2 { "2" }
    else if d == 3 { "3" }
    else if d == 4 { "4" }
    else if d == 5 { "5" }
    else if d == 6 { "6" }
    else if d == 7 { "7" }
    else if d == 8 { "8" }
    else { "9" }
}

/// Decimal rendering of a non-negative number.
pub fn u64_to_dec(n: u64) -> (s: String)
    ensures
        s@ == dec_chars(n as int),
    decreases n,
{
    if n < 10 {
        digit_str(n).to_owned()
    } else {
        let mut s = u64_to_dec(n / 10);
        s.append(digit_str(n % 10));
        proof {
            assert(s@ =~= dec_chars(n as int));
        }
        s
    }
}

/// Decimal rendering of a signed number.
pub fn i64_to_dec(v: i64) -> (s: String)
    ensures
        s@ == int_chars(v as int),
{
    if v < 0 {
        let magnitude: u64 = (-(v as i128)) as u64;
        let mut s = "-".to_owned();
        let digits = u64_to_dec(magnitude);
        s.append(digits.as_str());
        proof {
            reveal_strlit("-");
            assert(s@ =~= int_chars(v as int));
        }
        s
    } else {
        u64_to_dec(v as u64)
    }
}

/// Whether a stored text equals a literal key.
pub fn str_eq(a: &String, b: &str) -> (r: bool)
    ensures
        r == (a@ == b@),
{
    *a == b.to_owned()
}

/// Whether a text may stand inside quotes on the wire.
pub fn text_is_plain(s: &str) -> (b: bool)
    ensures
        b == text_ok(s@),
{
    let len = s.unicode_len();
    let mut i: usize = 0;
    while i < len
        invariant
            0 <= i <= len,
            len == s@.len(),
            forall|k: int| 0 <= k < i ==> s@[k] != '"' && s@[k] != '\\',
        decreases len - i,
    {
        let c = s.get_char(i);
        if c == '"' || c == '\\' {
            return false;
        }
        i = i + 1;
    }
    true
}

/// Whether every key and every string value of `fields` may stand on the
/// wire unescaped.
pub fn fields_are_plain(fields: &Vec<WireField>) -> (b: bool)
    ensures
        b == object_ok(fields_view(fields@)),
{
    let n = fields.len();
    let mut i: usize = 0;
    while i < n
        invariant
            0 <= i <= n,
            n == fields@.len(),
            forall|k: int| 0 <= k < i ==> field_ok(#[trigger] fields_view(fields@)[k]),
        decreases n - i,
    {
        let f = &fields[i];
        if !text_is_plain(f.key.as_str()) {
            assert(!field_ok(fields_view(fields@)[i as int]));
            return false;
        }
        let value_plain = match &f.value {
            WireValue::Str(s) => text_is_plain(s.as_str()),
            WireValue::Int(_) => true,
        };
        if !value_plain {
            assert(!field_ok(fields_view(fields@)[i as int]));
            return false;
        }
        assert(field_ok(fields_view(fields@)[i as int]));
        i = i + 1;
    }
    true
}

/// Appends the rendering of one value.
fn append_value(out: &mut String, v: &WireValue)
    ensures
        final(out)@ == old(out)@ + value_chars(v@),
{
    proof {
        reveal_strlit("\"");
    }
    match v {
        WireValue::Str(s) => {
            out.append("\"");
            out.append(s.as_str());
            out.append("\"");
            proof {
                assert(final(out)@ =~= old(out)@ + value_chars(v@));
            }
        },
        WireValue::Int(i) => {
            let digits = i64_to_dec(*i);
            out.append(digits.as_str());
        },
    }
}

/// Appends the rendering of one `"key":value` pair.
fn append_field(out: &mut String, f: &WireField)
    ensures
        final(out)@ == old(out)@ + field_chars(f@),
{
    proof {
        reveal_strlit("\"");
        reveal_strlit("\":");
    }
    out.append("\"");
    out.append(f.key.as_str());
    out.append("\":");
    append_value(out, &f.value);
    proof {
        assert(final(out)@ =~= old(out)@ + field_chars(f@));
    }
}

/// Renders `fields` as a compact JSON-style object. Fails with a
/// request-encoding condition exactly when some key or string value holds
/// a character the wire format cannot carry.
pub fn encode_json_object(fields: &Vec<WireField>) -> (r: Result<String, crate::errors::ConnectorError>)
    ensures
        match r {
            Ok(s) => object_ok(fields_view(fields@)) && s@ == object_chars(fields_view(fields@)),
            Err(e) => !object_ok(fields_view(fields@))
                && e == crate::errors::ConnectorError::RequestEncodingFailed,
        },
{
    if !fields_are_plain(fields) {
        return Err(crate::errors::ConnectorError::RequestEncodingFailed);
    }
    proof {
        reveal_strlit("{");
        reveal_strlit("}");
        reveal_strlit(",");
    }
    let mut out = "{".to_owned();
    let n = fields.len();
    let mut i: usize = 0;
    while i < n
        invariant
            0 <= i <= n,
            n == fields@.len(),
            out@ =~= seq!['{'] + fields_chars(fields_view(fields@).take(i as int)),
        decreases n - i,
    {
        if i > 0 {
            out.append(",");
        }
        append_field(&mut out, &fields[i]);
        proof {
            reveal_strlit(",");
            lemma_fields_chars_take_step(fields_view(fields@), i as int);
            assert(fields_view(fields@)[i as int] == fields@[i as int]@);
            assert(out@ =~= seq!['{'] + fields_chars(fields_view(fields@).take(i + 1)));
        }
        i = i + 1;
    }
    out.append("}");
    proof {
        assert(fields_view(fields@).take(n as int) =~= fields_view(fields@));
        assert(out@ =~= object_chars(fields_view(fields@)));
    }
    Ok(out)
}

/// Extending a rendered field list by one field appends a comma (when the
/// list was non-empty) and the new field's rendering.
proof fn lemma_fields_chars_take_step(fs: Seq<SpecField>, i: int)
    requires
        0 <= i < fs.len(),
    ensures
        i == 0 ==> fields_chars(fs.take(i + 1)) =~= field_chars(fs[0]),
        i > 0 ==> fields_chars(fs.take(i + 1)) =~= fields_chars(fs.take(i)) + seq![','] + field_chars(fs[i]),
    decreases i,
{
    if i == 0 {
        assert(fs.take(1).len() == 1);
        assert(fs.take(1)[0] == fs[0]);
    } else {
        lemma_fields_chars_take_step(fs.drop_first(), i - 1);
        assert(fs.take(i + 1).drop_first() =~= fs.drop_first().take(i));
        assert(fs.take(i).drop_first() =~= fs.drop_first().take(i - 1));
        assert(fs.take(i + 1)[0] == fs[0]);
        assert(fs.take(i)[0] == fs[0]);
        if i == 1 {
            assert(fields_chars(fs.take(2)) =~= field_chars(fs[0]) + seq![','] + field_chars(fs[1]));
        } else {
            assert(fs.drop_first()[i - 1] == fs[i]);
        }
    }
}

/// Appends the rendering of one `key=value` form pair.
fn append_form_pair(out: &mut String, f: &WireField)
    ensures
        final(out)@ == old(out)@ + form_pair_chars(f@),
{
    proof {
        reveal_strlit("=");
    }
    out.append(f.key.as_str());
    out.append("=");
    match &f.value {
        WireValue::Str(s) => {
            out.append(s.as_str());
        },
        WireValue::Int(i) => {
            let digits = i64_to_dec(*i);
            out.append(digits.as_str());
        },
    }
    proof {
        assert(final(out)@ =~= old(out)@ + form_pair_chars(f@));
    }
}

/// Extending a rendered form body by one pair appends an ampersand (when
/// the body was non-empty) and the new pair's rendering.
proof fn lemma_form_chars_take_step(fs: Seq<SpecField>, i: int)
    requires
        0 <= i < fs.len(),
    ensures
        i == 0 ==> form_chars(fs.take(i + 1)) =~= form_pair_chars(fs[0]),
        i > 0 ==> form_chars(fs.take(i + 1)) =~= form_chars(fs.take(i)) + seq!['&'] + form_pair_chars(fs[i]),
    decreases i,
{
    if i == 0 {
        assert(fs.take(1).len() == 1);
        assert(fs.take(1)[0] == fs[0]);
    } else {
        lemma_form_chars_take_step(fs.drop_first(), i - 1);
        assert(fs.take(i + 1).drop_first() =~= fs.drop_first().take(i));
        assert(fs.take(i).drop_first() =~= fs.drop_first().take(i - 1));
        assert(fs.take(i + 1)[0] == fs[0]);
        assert(fs.take(i)[0] == fs[0]);
        if i == 1 {
            assert(form_chars(fs.take(2)) =~= form_pair_chars(fs[0]) + seq!['&'] + form_pair_chars(fs[1]));
        } else {
            assert(fs.drop_first()[i - 1] == fs[i]);
        }
    }
}

/// Renders `fields` as an `application/x-www-form-urlencoded` pair list.
pub fn encode_form(fields: &Vec<WireField>) -> (r: String)
    ensures
        r@ == form_chars(fields_view(fields@)),
{
    proof {
        reveal_strlit("&");
    }
    let mut out = String::new();
    let n = fields.len();
    let mut i: usize = 0;
    while i < n
        invariant
            0 <= i <= n,
            n == fields@.len(),
            out@ =~= form_chars(fields_view(fields@).take(i as int)),
        decreases n - i,
    {
        if i > 0 {
            out.append("&");
        }
        append_form_pair(&mut out, &fields[i]);
        proof {
            reveal_strlit("&");
            lemma_form_chars_take_step(fields_view(fields@), i as int);
            assert(fields_view(fields@)[i as int] == fields@[i as int]@);
            assert(out@ =~= form_chars(fields_view(fields@).take(i + 1)));
        }
        i = i + 1;
    }
    proof {
        assert(fields_view(fields@).take(n as int) =~= fields_view(fields@));
    }
    out
}

/// A digit string's value is non-negative.
pub proof fn lemma_digits_val_nonneg(s: Seq<char>)
    requires
        forall|k: int| 0 <= k < s.len() ==> is_digit(#[trigger] s[k]),
    ensures
        digits_val(s) >= 0,
    decreases s.len(),
{
    if s.len() > 0 {
        lemma_digits_val_nonneg(s.drop_last());
    }
}

/// Appending one digit multiplies the value by ten and adds the digit.
proof fn lemma_digits_val_step(s: Seq<char>, i: int, p: int)
    requires
        0 <= i <= p < s.len(),
    ensures
        digits_val(s.subrange(i, p + 1)) == digits_val(s.subrange(i, p)) * 10 + digit_val(s[p]),
{
    assert(s.subrange(i, p + 1).drop_last() =~= s.subrange(i, p));
    assert(s.subrange(i, p + 1).last() == s[p]);
}

/// Mirrors `scan_quote`.
fn scan_quote_exec(s: &str, i: usize, len: usize) -> (r: Option<usize>)
    requires
        i <= len,
        len == s@.len(),
    ensures
        match r {
            Some(j) => scan_quote(s@, i as int) == Some(j as int) && j < len,
            None => scan_quote(s@, i as int) is None,
        },
    decreases len - i,
{
    if i >= len {
        None
    } else if s.get_char(i) == '"' {
        Some(i)
    } else {
        scan_quote_exec(s, i + 1, len)
    }
}

/// Mirrors `parse_string_at`; yields the text between the quotes.
fn parse_string_exec(s: &str, i: usize, len: usize) -> (r: Option<(String, usize)>)
    requires
        i <= len,
        len == s@.len(),
    ensures
        match r {
            Some((t, j)) => parse_string_at(s@, i as int) == Some((t@, j as int)) && i < j <= len,
            None => parse_string_at(s@, i as int) is None,
        },
{
    if i < len && s.get_char(i) == '"' {
        match scan_quote_exec(s, i + 1, len) {
            Some(j) => {
                proof {
                    lemma_scan_quote_bounds(s@, i + 1);
                }
                let t = s.substring_char(i + 1, j);
                if text_is_plain(t) {
                    Some((t.to_owned(), j + 1))
                } else {
                    None
                }
            },
            None => None,
        }
    } else {
        None
    }
}

/// Whether the character at `p` is a decimal digit.
fn digit_char_at(s: &str, p: usize) -> (b: bool)
    requires
        p < s@.len(),
    ensures
        b == is_digit(s@[p as int]),
{
    let c = s.get_char(p);
    c as u32 >= '0' as u32 && c as u32 <= '9' as u32
}

/// Mirrors `parse_int_at`; yields the parsed integer.
fn parse_int_exec(s: &str, i: usize, len: usize) -> (r: Option<(i64, usize)>)
    requires
        i <= len,
        len == s@.len(),
    ensures
        match r {
            Some((v, j)) => parse_int_at(s@, i as int) == Some((v as int, j as int)) && i < j <= len,
            None => parse_int_at(s@, i as int) is None,
        },
{
    if i >= len {
        return None;
    }
    let neg = s.get_char(i) == '-';
    let d: usize = if neg { i + 1 } else { i };
    proof {
        lemma_scan_digits_bounds(s@, d as int);
    }
    let ghost j_spec = scan_digits(s@, d as int);
    // Walk the digit run, accumulating its value; past the `i64` range the
    // exact value no longer matters, only that it stays out of range.
    let mut p: usize = d;
    let mut acc: u128 = 0;
    let mut too_big: bool = false;
    let cap: u128 = 9223372036854775808;
    while p < len && digit_char_at(s, p)
        invariant
            d <= p <= len,
            len == s@.len(),
            d <= j_spec <= len,
            j_spec == scan_digits(s@, d as int),
            forall|k: int| d <= k < j_spec ==> is_digit(s@[k]),
            j_spec < len ==> !is_digit(s@[j_spec as int]),
            p <= j_spec,
            forall|k: int| d <= k < p ==> is_digit(s@[k]),
            cap == 9223372036854775808,
            !too_big ==> acc == digits_val(s@.subrange(d as int, p as int)) && acc <= cap,
            too_big ==> digits_val(s@.subrange(d as int, p as int)) > cap,
        decreases len - p,
    {
        let c = s.get_char(p);
        let dv: u128 = (c as u32 - '0' as u32) as u128;
        proof {
            lemma_digits_val_step(s@, d as int, p as int);
            if too_big {
                lemma_digits_val_nonneg(s@.subrange(d as int, p as int));
            }
        }
        if !too_big {
            let next = acc * 10 + dv;
            if next > cap {
                too_big = true;
            } else {
                acc = next;
            }
            proof {
                if next > cap {
                    assert(digits_val(s@.subrange(d as int, p + 1)) == next);
                }
            }
        }
        p = p + 1;
        proof {
            assert(p <= j_spec) by {
                if p > j_spec {
                    assert(is_digit(s@[j_spec as int]));
                }
            }
        }
    }
    proof {
        assert(p == j_spec) by {
            if p < j_spec {
                assert(is_digit(s@[p as int]));
            }
        }
    }
    let j = p;
    if j == d {
        return None;
    }
    if s.get_char(d) == '0' && j > d + 1 {
        return None;
    }
    proof {
        lemma_digits_val_nonneg(s@.subrange(d as int, j as int));
    }
    if too_big {
        return None;
    }
    if neg {
        if acc == 0 {
            return None;
        }
        let v: i64 = (-(acc as i128)) as i64;
        Some((v, j))
    } else {
        if acc > 9223372036854775807 {
            return None;
        }
        let v: i64 = acc as i64;
        Some((v, j))
    }
}

/// Reads a whole text as a plain decimal integer, the way the standard
/// integer parsing does: an optional sign, then one or more digits
/// (leading zeros allowed), nothing else, within `i64`.
pub open spec fn spec_parse_decimal(s: Seq<char>) -> Option<int> {
    if s.len() == 0 {
        None
    } else {
        let signed = s[0] == '-' || s[0] == '+';
        let neg = s[0] == '-';
        let d: int = if signed {
            1
        } else {
            0
        };
        if s.len() == d {
            None
        } else if scan_digits(s, d) != s.len() {
            None
        } else {
            let m = digits_val(s.subrange(d, s.len() as int));
            let v = if neg {
                -m
            } else {
                m
            };
            if i64::MIN <= v <= i64::MAX {
                Some(v)
            } else {
                None
            }
        }
    }
}

/// Parses a whole text as a plain decimal integer; mirrors
/// `spec_parse_decimal` exactly.
pub fn parse_i64_decimal(s: &str) -> (r: Option<i64>)
    ensures
        match r {
            Some(v) => spec_parse_decimal(s@) == Some(v as int),
            None => spec_parse_decimal(s@) is None,
        },
{
    let len = s.unicode_len();
    if len == 0 {
        return None;
    }
    let c0 = s.get_char(0);
    let signed = c0 == '-' || c0 == '+';
    let neg = c0 == '-';
    let d: usize = if signed {
        1
    } else {
        0
    };
    if d == len {
        return None;
    }
    // Walk the rest; every character must be a digit. Past the `i64`
    // range the exact value no longer matters, only that it stays out.
    let mut p: usize = d;
    let mut acc: u128 = 0;
    let mut too_big: bool = false;
    let cap: u128 = 9223372036854775808;
    while p < len
        invariant
            d <= p <= len,
            d < len,
            len == s@.len(),
            len >= 1,
            neg == (s@[0] == '-'),
            (d == 1) == (s@[0] == '-' || s@[0] == '+'),
            d <= 1,
            forall|k: int| d <= k < p ==> is_digit(s@[k]),
            cap == 9223372036854775808,
            !too_big ==> acc == digits_val(s@.subrange(d as int, p as int)) && acc <= cap,
            too_big ==> digits_val(s@.subrange(d as int, p as int)) > cap,
        decreases len - p,
    {
        if !digit_char_at(s, p) {
            proof {
                lemma_scan_digits_finds(s@, d as int, p as int);
            }
            return None;
        }
        let c = s.get_char(p);
        let dv: u128 = (c as u32 - '0' as u32) as u128;
        proof {
            lemma_digits_val_step(s@, d as int, p as int);
            if too_big {
                lemma_digits_val_nonneg(s@.subrange(d as int, p as int));
            }
        }
        if !too_big {
            let next = acc * 10 + dv;
            if next > cap {
                too_big = true;
            } else {
                acc = next;
            }
            proof {
                if next > cap {
                    assert(digits_val(s@.subrange(d as int, p + 1)) == next);
                }
            }
        }
        p = p + 1;
    }
    proof {
        lemma_scan_digits_finds(s@, d as int, len as int);
        lemma_digits_val_nonneg(s@.subrange(d as int, len as int));
    }
    if too_big {
        return None;
    }
    if neg {
        let v: i64 = (-(acc as i128)) as i64;
        Some(v)
    } else {
        if acc > 9223372036854775807 {
            return None;
        }
        let v: i64 = acc as i64;
        Some(v)
    }
}

/// Mirrors `parse_value_at`.
fn parse_value_exec(s: &str, i: usize, len: usize) -> (r: Option<(WireValue, usize)>)
    requires
        i <= len,
        len == s@.len(),
    ensures
        match r {
            Some((v, j)) => parse_value_at(s@, i as int) == Some((v@, j as int)) && i < j <= len,
            None => parse_value_at(s@, i as int) is None,
        },
{
    if i < len && s.get_char(i) == '"' {
        match parse_string_exec(s, i, len) {
            Some((t, j)) => Some((WireValue::Str(t), j)),
            None => None,
        }
    } else {
        match parse_int_exec(s, i, len) {
            Some((v, j)) => Some((WireValue::Int(v), j)),
            None => None,
        }
    }
}

/// Mirrors `parse_fields_at`.
fn parse_fields_exec(s: &str, i: usize, len: usize) -> (r: Option<(Vec<WireField>, usize)>)
    requires
        i <= len,
        len == s@.len(),
    ensures
        match r {
            Some((fs, j)) => parse_fields_at(s@, i as int) == Some((fields_view(fs@), j as int))
                && i < j <= len,
            None => parse_fields_at(s@, i as int) is None,
        },
    decreases len - i,
{
    match parse_string_exec(s, i, len) {
        None => None,
        Some((key, j)) => {
            if j < len && s.get_char(j) == ':' {
                match parse_value_exec(s, j + 1, len) {
                    None => None,
                    Some((v, k)) => {
                        let field = WireField { key, value: v };
                        if k < len && s.get_char(k) == ',' {
                            match parse_fields_exec(s, k + 1, len) {
                                None => None,
                                Some((rest, m)) => {
                                    let mut fs: Vec<WireField> = Vec::new();
                                    fs.push(field);
                                    let mut rest = rest;
                                    let ghost rest0 = rest@;
                                    fs.append(&mut rest);
                                    proof {
                                        assert(fields_view(fs@) =~= seq![
                                            SpecField { key: key@, value: v@ },
                                        ] + fields_view(rest0));
                                    }
                                    Some((fs, m))
                                },
                            }
                        } else {
                            let mut fs: Vec<WireField> = Vec::new();
                            fs.push(field);
                            proof {
                                assert(fields_view(fs@) =~= seq![
                                    SpecField { key: key@, value: v@ },
                                ]);
                            }
                            Some((fs, k))
                        }
                    },
                }
            } else {
                None
            }
        },
    }
}

/// Parses a compact JSON-style object; the result is exactly what
/// `spec_parse_object` yields, so a payload is accepted only when its
/// shape matches the wire grammar.
pub fn decode_json_object(s: &str) -> (r: Option<Vec<WireField>>)
    ensures
        match r {
            Some(fs) => spec_parse_object(s@) == Some(fields_view(fs@)),
            None => spec_parse_object(s@) is None,
        },
{
    let len = s.unicode_len();
    if len == 2 && s.get_char(0) == '{' && s.get_char(1) == '}' {
        let fs: Vec<WireField> = Vec::new();
        proof {
            assert(fields_view(fs@) =~= Seq::<SpecField>::empty());
        }
        return Some(fs);
    }
    if len >= 2 && s.get_char(0) == '{' {
        match parse_fields_exec(s, 1, len) {
            Some((fs, j)) => {
                if j == len - 1 && s.get_char(j) == '}' {
                    Some(fs)
                } else {
                    None
                }
            },
            None => None,
        }
    } else {
        None
    }
}

/// Decimal digits behave as digits: `digit_char` and `digit_val` invert
/// each other and a digit is never a quote, minus sign or brace.
proof fn lemma_digit_char_props(x: int)
    requires
        0 <= x < 10,
    ensures
        is_digit(digit_char(x)),
        digit_val(digit_char(x)) == x,
        digit_char(x) != '-' && digit_char(x) != '"' && digit_char(x) != '}' && digit_char(x)
            != ',',
{
}

/// `dec_chars` renders digits only, without leading zeros, and
/// `digits_val` recovers the number.
proof fn lemma_dec_chars_props(n: int)
    requires
        n >= 0,
    ensures
        dec_chars(n).len() >= 1,
        forall|k: int| 0 <= k < dec_chars(n).len() ==> is_digit(#[trigger] dec_chars(n)[k]),
        digits_val(dec_chars(n)) == n,
        n >= 10 ==> dec_chars(n).len() >= 2,
        n >= 1 ==> dec_chars(n)[0] != '0',
        n < 10 ==> dec_chars(n) =~= seq![digit_char(n)],
    decreases n,
{
    if n < 10 {
        lemma_digit_char_props(n);
        let ds = dec_chars(n);
        assert(ds =~= seq![digit_char(n)]);
        assert(ds.drop_last() =~= Seq::<char>::empty());
        assert(ds.last() == digit_char(n));
        assert(digits_val(ds) == digits_val(ds.drop_last()) * 10 + digit_val(ds.last()));
        assert(digits_val(Seq::<char>::empty()) == 0);
        assert(ds[0] == digit_char(n));
        if n >= 1 {
            assert(digit_char(n) != '0');
        }
    } else {
        lemma_dec_chars_props(n / 10);
        lemma_digit_char_props(n % 10);
        let pre = dec_chars(n / 10);
        let whole = dec_chars(n);
        assert(whole =~= pre.push(digit_char(n % 10)));
        assert(whole.drop_last() =~= pre);
        assert(whole.last() == digit_char(n % 10));
        assert(digits_val(whole) == digits_val(pre) * 10 + digit_val(digit_char(n % 10)));
        assert(digits_val(whole) == (n / 10) * 10 + n % 10);
        assert(whole[0] == pre[0]);
        assert forall|k: int| 0 <= k < whole.len() implies is_digit(#[trigger] whole[k]) by {
            if k < pre.len() {
                assert(whole[k] == pre[k]);
            } else {
                assert(whole[k] == digit_char(n % 10));
            }
        }
    }
}

/// `scan_quote` stops exactly at a known first quote.
proof fn lemma_scan_quote_finds(s: Seq<char>, i: int, j: int)
    requires
        0 <= i <= j < s.len(),
        s[j] == '"',
        forall|k: int| i <= k < j ==> s[k] != '"',
    ensures
        scan_quote(s, i) == Some(j),
    decreases j - i,
{
    if i < j {
        lemma_scan_quote_finds(s, i + 1, j);
    }
}

/// `scan_digits` stops exactly at the known end of a digit run.
proof fn lemma_scan_digits_finds(s: Seq<char>, i: int, j: int)
    requires
        0 <= i <= j <= s.len(),
        forall|k: int| i <= k < j ==> is_digit(#[trigger] s[k]),
        j < s.len() ==> !is_digit(s[j]),
    ensures
        scan_digits(s, i) == j,
    decreases j - i,
{
    if i < j {
        lemma_scan_digits_finds(s, i + 1, j);
    }
}

/// Parsing a rendered quoted text recovers the text.
proof fn lemma_parse_string_render(s: Seq<char>, i: int, t: Seq<char>)
    requires
        text_ok(t),
        0 <= i,
        i + t.len() + 2 <= s.len(),
        s.subrange(i, i + t.len() + 2) =~= seq!['"'] + t + seq!['"'],
    ensures
        parse_string_at(s, i) == Some((t, i + t.len() + 2)),
{
    let sub = s.subrange(i, i + t.len() + 2);
    let j = i + t.len() + 1;
    assert(s[i] == sub[0]);
    assert(s[i] == '"');
    assert(s[j] == sub[j - i]);
    assert(s[j] == '"');
    assert forall|k: int| i + 1 <= k < j implies s[k] != '"' by {
        assert(s[k] == sub[k - i]);
        assert(sub[k - i] == t[k - i - 1]);
    }
    lemma_scan_quote_finds(s, i + 1, j);
    assert forall|k: int| 0 <= k < t.len() implies s.subrange(i + 1, j)[k] == t[k] by {
        assert(s.subrange(i + 1, j)[k] == s[i + 1 + k]);
        assert(s[i + 1 + k] == sub[k + 1]);
    }
    assert(s.subrange(i + 1, j) =~= t);
}

/// Parsing a rendered integer recovers the integer, provided no digit
/// follows it.
proof fn lemma_parse_int_render(s: Seq<char>, i: int, v: int)
    requires
        i64::MIN <= v <= i64::MAX,
        0 <= i,
        i + int_chars(v).len() <= s.len(),
        s.subrange(i, i + int_chars(v).len()) =~= int_chars(v),
        i + int_chars(v).len() < s.len() ==> !is_digit(s[i + int_chars(v).len()]),
    ensures
        parse_int_at(s, i) == Some((v, i + int_chars(v).len())),
{
    let e = i + int_chars(v).len();
    let sub = s.subrange(i, e);
    assert forall|k: int| i <= k < e implies s[k] == int_chars(v)[k - i] by {
        assert(s[k] == sub[k - i]);
    }
    if v < 0 {
        lemma_dec_chars_props(-v);
        let ds = dec_chars(-v);
        assert(int_chars(v) =~= seq!['-'] + ds);
        assert(s[i] == '-');
        let d = i + 1;
        assert forall|k: int| d <= k < e implies is_digit(#[trigger] s[k]) by {
            assert(s[k] == int_chars(v)[k - i]);
            assert(int_chars(v)[k - i] == ds[k - i - 1]);
        }
        lemma_scan_digits_finds(s, d, e);
        assert forall|k: int| 0 <= k < ds.len() implies s.subrange(d, e)[k] == ds[k] by {
            assert(s.subrange(d, e)[k] == s[d + k]);
            assert(s[d + k] == int_chars(v)[d + k - i]);
        }
        assert(s.subrange(d, e) =~= ds);
        assert(digits_val(s.subrange(d, e)) == -v);
        assert(s[d] == ds[0]);
        if -v >= 10 {
            assert(ds[0] != '0');
        } else {
            assert(ds.len() == 1);
            assert(e == d + 1);
        }
        assert(-v >= 1);
        assert(parse_int_at(s, i) == Some((v, e)));
    } else {
        lemma_dec_chars_props(v);
        let ds = dec_chars(v);
        assert(int_chars(v) == ds);
        assert(s[i] == ds[0]);
        assert(is_digit(ds[0]));
        assert(!is_digit('-')) by {
            assert('-' as u32 == 45);
            assert('0' as u32 == 48);
        }
        assert(s[i] != '-');
        let d = i;
        assert forall|k: int| d <= k < e implies is_digit(#[trigger] s[k]) by {
            assert(s[k] == ds[k - i]);
        }
        lemma_scan_digits_finds(s, d, e);
        assert forall|k: int| 0 <= k < ds.len() implies s.subrange(d, e)[k] == ds[k] by {
            assert(s.subrange(d, e)[k] == s[d + k]);
        }
        assert(s.subrange(d, e) =~= ds);
        assert(digits_val(s.subrange(d, e)) == v);
        if v >= 10 {
            assert(ds[0] != '0');
        } else {
            assert(ds.len() == 1);
            assert(e == d + 1);
        }
        assert(parse_int_at(s, i) == Some((v, e)));
    }
}

/// Parsing a rendered value recovers the value, provided no digit follows
/// it.
proof fn lemma_parse_value_render(s: Seq<char>, i: int, v: SpecValue)
    requires
        value_ok(v),
        0 <= i,
        i + value_chars(v).len() <= s.len(),
        s.subrange(i, i + value_chars(v).len()) =~= value_chars(v),
        i + value_chars(v).len() < s.len() ==> !is_digit(s[i + value_chars(v).len()]),
    ensures
        parse_value_at(s, i) == Some((v, i + value_chars(v).len())),
{
    let sub = s.subrange(i, i + value_chars(v).len());
    assert(s[i] == sub[0]);
    match v {
        SpecValue::Str(t) => {
            assert(sub[0] == '"');
            lemma_parse_string_render(s, i, t);
        },
        SpecValue::Int(n) => {
            assert(sub[0] == int_chars(n)[0]);
            if n < 0 {
                assert(int_chars(n)[0] == (seq!['-'] + dec_chars(-n))[0]);
                assert(s[i] == '-');
            } else {
                lemma_dec_chars_props(n);
                assert(is_digit(dec_chars(n)[0]));
                assert(!is_digit('"')) by {
                    assert('"' as u32 == 34);
                    assert('0' as u32 == 48);
                }
            }
            assert(s[i] != '"');
            lemma_parse_int_render(s, i, n);
        },
    }
}

/// Parsing a rendered field list recovers the fields, provided a closing
/// brace follows the list.
#[verifier::rlimit(100)]
#[verifier::spinoff_prover]
proof fn lemma_parse_fields_render(s: Seq<char>, i: int, fs: Seq<SpecField>)
    requires
        object_ok(fs),
        fs.len() >= 1,
        0 <= i,
        i + fields_chars(fs).len() < s.len(),
        s.subrange(i, i + fields_chars(fs).len()) =~= fields_chars(fs),
        s[i + fields_chars(fs).len()] == '}',
    ensures
        parse_fields_at(s, i) == Some((fs, i + fields_chars(fs).len())),
    decreases fs.len(),
{
    let f = fs[0];
    assert(field_ok(f));
    let fc = field_chars(f);
    let e = i + fields_chars(fs).len();
    let sub = s.subrange(i, e);
    assert forall|x: int| i <= x < e implies s[x] == fields_chars(fs)[x - i] by {
        assert(s[x] == sub[x - i]);
    }
    let key_end = i + f.key.len() + 2;
    let val_len = value_chars(f.value).len();
    let k = key_end + 1 + val_len;
    assert(fc =~= seq!['"'] + f.key + seq!['"', ':'] + value_chars(f.value));
    if fs.len() == 1 {
        assert(fields_chars(fs) == fc);
        assert forall|x: int| 0 <= x < f.key.len() + 2 implies s.subrange(
            i,
            key_end,
        )[x] == (seq!['"'] + f.key + seq!['"'])[x] by {
            assert(s.subrange(i, key_end)[x] == s[i + x]);
            assert(s[i + x] == fc[x]);
        }
        assert(s.subrange(i, key_end) =~= seq!['"'] + f.key + seq!['"']);
        lemma_parse_string_render(s, i, f.key);
        assert(s[key_end] == fc[(f.key.len() + 2) as int]);
        assert(s[key_end] == ':');
        assert forall|x: int| 0 <= x < val_len implies s.subrange(
            key_end + 1,
            k,
        )[x] == value_chars(f.value)[x] by {
            assert(s.subrange(key_end + 1, k)[x] == s[key_end + 1 + x]);
            assert(s[key_end + 1 + x] == fc[f.key.len() + 3 + x]);
        }
        assert(s.subrange(key_end + 1, k) =~= value_chars(f.value));
        assert(k == e);
        assert(!is_digit('}')) by {
            assert('}' as u32 == 125);
        }
        lemma_parse_value_render(s, key_end + 1, f.value);
        assert(s[k] == '}');
        assert(s[k] != ',');
        assert(seq![SpecField { key: f.key, value: f.value }] =~= fs);
    } else {
        let rest = fs.drop_first();
        assert(fields_chars(fs) =~= fc + seq![','] + fields_chars(rest));
        assert forall|x: int| 0 <= x < f.key.len() + 2 implies s.subrange(
            i,
            key_end,
        )[x] == (seq!['"'] + f.key + seq!['"'])[x] by {
            assert(s.subrange(i, key_end)[x] == s[i + x]);
            assert(s[i + x] == fields_chars(fs)[x]);
            assert(fields_chars(fs)[x] == fc[x]);
        }
        assert(s.subrange(i, key_end) =~= seq!['"'] + f.key + seq!['"']);
        lemma_parse_string_render(s, i, f.key);
        assert(s[key_end] == fields_chars(fs)[(f.key.len() + 2) as int]);
        assert(s[key_end] == fc[(f.key.len() + 2) as int]);
        assert(s[key_end] == ':');
        assert forall|x: int| 0 <= x < val_len implies s.subrange(
            key_end + 1,
            k,
        )[x] == value_chars(f.value)[x] by {
            assert(s.subrange(key_end + 1, k)[x] == s[key_end + 1 + x]);
            assert(s[key_end + 1 + x] == fields_chars(fs)[f.key.len() + 3 + x]);
            assert(fields_chars(fs)[f.key.len() + 3 + x] == fc[f.key.len() + 3 + x]);
        }
        assert(s.subrange(key_end + 1, k) =~= value_chars(f.value));
        assert(s[k] == fields_chars(fs)[(k - i) as int]);
        assert(s[k] == ',');
        assert(!is_digit(',')) by {
            assert(',' as u32 == 44);
        }
        lemma_parse_value_render(s, key_end + 1, f.value);
        assert forall|x: int| 0 <= x < rest.len() implies field_ok(#[trigger] rest[x]) by {
            assert(rest[x] == fs[x + 1]);
        }
        assert forall|x: int| 0 <= x < fields_chars(rest).len() implies s.subrange(
            k + 1,
            e,
        )[x] == fields_chars(rest)[x] by {
            assert(s.subrange(k + 1, e)[x] == s[k + 1 + x]);
            assert(s[k + 1 + x] == fields_chars(fs)[k + 1 + x - i]);
            assert(fields_chars(fs)[k + 1 + x - i] == (fc + seq![','] + fields_chars(rest))[k + 1
                + x - i]);
        }
        assert(s.subrange(k + 1, e) =~= fields_chars(rest));
        assert(k + 1 + fields_chars(rest).len() == e);
        lemma_parse_fields_render(s, k + 1, rest);
        assert(seq![SpecField { key: f.key, value: f.value }] + rest =~= fs);
    }
}

/// Round trip: parsing a rendered object recovers exactly its fields.
pub proof fn lemma_parse_render_object(fs: Seq<SpecField>)
    requires
        object_ok(fs),
    ensures
        spec_parse_object(object_chars(fs)) == Some(fs),
{
    let s = object_chars(fs);
    if fs.len() == 0 {
        assert(s =~= seq!['{', '}']);
        assert(s[0] == '{' && s[1] == '}');
        assert(spec_parse_object(s) == Some(Seq::<SpecField>::empty()));
        assert(fs =~= Seq::<SpecField>::empty());
    } else {
        assert(field_ok(fs[0]));
        lemma_fields_chars_len(fs);
        assert(value_chars(fs[0].value).len() >= 1) by {
            match fs[0].value {
                SpecValue::Str(t) => {},
                SpecValue::Int(n) => {
                    if n < 0 {
                        lemma_dec_chars_props(-n);
                    } else {
                        lemma_dec_chars_props(n);
                    }
                },
            }
        }
        assert(field_chars(fs[0]).len() >= 4);
        assert(fields_chars(fs).len() >= 4);
        assert(s.len() >= 6);
        assert(s[0] == '{');
        assert(s[(s.len() - 1) as int] == '}');
        let e = (1 + fields_chars(fs).len()) as int;
        assert forall|x: int| 0 <= x < fields_chars(fs).len() implies s.subrange(
            1,
            e,
        )[x] == fields_chars(fs)[x] by {
            assert(s.subrange(1, e)[x] == s[1 + x]);
        }
        assert(s.subrange(1, e) =~= fields_chars(fs));
        lemma_parse_fields_render(s, 1, fs);
    }
}

/// A non-empty field list renders to at least its first field's length.
proof fn lemma_fields_chars_len(fs: Seq<SpecField>)
    requires
        fs.len() >= 1,
    ensures
        fields_chars(fs).len() >= field_chars(fs[0]).len(),
{
}

/// A digit character is recovered from its value.
proof fn lemma_digit_char_of_val(c: char)
    requires
        is_digit(c),
    ensures
        digit_char(digit_val(c)) == c,
{
}

/// A canonical digit string (first digit non-zero unless it is alone)
/// with a first digit of at least one has a value of at least one.
proof fn lemma_digits_val_pos(s: Seq<char>)
    requires
        s.len() >= 1,
        forall|k: int| 0 <= k < s.len() ==> is_digit(#[trigger] s[k]),
        s[0] != '0',
    ensures
        digits_val(s) >= 1,
    decreases s.len(),
{
    if s.len() == 1 {
        assert(digits_val(s.drop_last()) == 0);
        lemma_digit_char_of_val(s[0]);
        if digit_val(s[0]) == 0 {
            assert(digit_char(digit_val(s[0])) == '0');
            assert(s[0] == '0');
        }
        assert(digit_val(s[0]) >= 1);
    } else {
        assert(s.drop_last()[0] == s[0]);
        assert(forall|k: int| 0 <= k < s.len() - 1 ==> (#[trigger] s.drop_last()[k]) == s[k]);
        lemma_digits_val_pos(s.drop_last());
        assert(digit_val(s.last()) >= 0);
    }
}

/// Rendering the value of a canonical digit string gives the string back.
proof fn lemma_dec_chars_of_digits(s: Seq<char>)
    requires
        s.len() >= 1,
        forall|k: int| 0 <= k < s.len() ==> is_digit(#[trigger] s[k]),
        s.len() > 1 ==> s[0] != '0',
    ensures
        dec_chars(digits_val(s)) == s,
    decreases s.len(),
{
    lemma_digits_val_nonneg(s);
    if s.len() == 1 {
        lemma_digit_char_of_val(s[0]);
        assert(digits_val(s.drop_last()) == 0);
        assert(digits_val(s) == digit_val(s[0]));
        assert(digits_val(s) < 10);
        assert(dec_chars(digits_val(s)) =~= s);
    } else {
        let pre = s.drop_last();
        assert(pre[0] == s[0]);
        assert(forall|k: int| 0 <= k < pre.len() ==> (#[trigger] pre[k]) == s[k]);
        lemma_dec_chars_of_digits(pre);
        lemma_digits_val_pos(pre);
        lemma_digit_char_of_val(s.last());
        let q = digits_val(pre);
        let d = digit_val(s.last());
        assert(digits_val(s) == q * 10 + d);
        assert(0 <= d < 10);
        assert(q >= 1);
        assert(digits_val(s) >= 10);
        assert(digits_val(s) / 10 == q);
        assert(digits_val(s) % 10 == d);
        assert(dec_chars(digits_val(s)) == dec_chars(q).push(digit_char(d)));
        assert(dec_chars(digits_val(s)) =~= s);
    }
}

/// An accepted quoted text occupies exactly its rendering.
proof fn lemma_parse_string_sound(s: Seq<char>, i: int)
    requires
        parse_string_at(s, i) is Some,
    ensures
        ({
            let (t, j) = parse_string_at(s, i)->Some_0;
            &&& 0 <= i < j <= s.len()
            &&& text_ok(t)
            &&& s.subrange(i, j) == seq!['"'] + t + seq!['"']
        }),
{
    let (t, j) = parse_string_at(s, i)->Some_0;
    lemma_scan_quote_bounds(s, i + 1);
    let q = scan_quote(s, i + 1)->Some_0;
    assert(t == s.subrange(i + 1, q));
    assert(j == q + 1);
    assert(s.subrange(i, j) =~= seq!['"'] + t + seq!['"']);
}

/// An accepted integer occupies exactly its rendering.
proof fn lemma_parse_int_sound(s: Seq<char>, i: int)
    requires
        parse_int_at(s, i) is Some,
    ensures
        ({
            let (v, j) = parse_int_at(s, i)->Some_0;
            &&& 0 <= i < j <= s.len()
            &&& i64::MIN <= v <= i64::MAX
            &&& s.subrange(i, j) == int_chars(v)
        }),
{
    let (v, j) = parse_int_at(s, i)->Some_0;
    let neg = s[i] == '-';
    let d = if neg { i + 1 } else { i };
    lemma_scan_digits_bounds(s, d);
    assert(j == scan_digits(s, d));
    let ds = s.subrange(d, j);
    assert(ds.len() >= 1);
    assert(forall|k: int| 0 <= k < ds.len() ==> is_digit(#[trigger] ds[k]));
    assert(ds[0] == s[d]);
    assert(ds.len() > 1 ==> ds[0] != '0');
    lemma_dec_chars_of_digits(ds);
    let m = digits_val(ds);
    if neg {
        assert(v == -m);
        assert(m >= 1) by {
            lemma_digits_val_nonneg(ds);
        }
        assert(v < 0);
        assert(int_chars(v) == seq!['-'] + dec_chars(m));
        assert(s.subrange(i, j) =~= seq!['-'] + ds);
        assert(seq!['-'] + dec_chars(m) =~= seq!['-'] + ds);
    } else {
        assert(v == m);
        assert(m >= 0) by {
            lemma_digits_val_nonneg(ds);
        }
        assert(int_chars(v) == dec_chars(m));
        assert(s.subrange(i, j) == ds);
    }
}

/// An accepted value occupies exactly its rendering.
proof fn lemma_parse_value_sound(s: Seq<char>, i: int)
    requires
        parse_value_at(s, i) is Some,
    ensures
        ({
            let (v, j) = parse_value_at(s, i)->Some_0;
            &&& 0 <= i < j <= s.len()
            &&& value_ok(v)
            &&& s.subrange(i, j) == value_chars(v)
        }),
{
    if 0 <= i < s.len() && s[i] == '"' {
        lemma_parse_string_sound(s, i);
    } else {
        lemma_parse_int_sound(s, i);
    }
}

/// An accepted field list occupies exactly its rendering.
proof fn lemma_parse_fields_sound(s: Seq<char>, i: int)
    requires
        0 <= i <= s.len(),
        parse_fields_at(s, i) is Some,
    ensures
        ({
            let (fs, j) = parse_fields_at(s, i)->Some_0;
            &&& i < j <= s.len()
            &&& fs.len() >= 1
            &&& object_ok(fs)
            &&& s.subrange(i, j) == fields_chars(fs)
        }),
    decreases s.len() - i,
{
    let (fs, j) = parse_fields_at(s, i)->Some_0;
    lemma_parse_fields_bounds(s, i);
    lemma_parse_string_sound(s, i);
    let (key, kj) = parse_string_at(s, i)->Some_0;
    lemma_parse_value_sound(s, kj + 1);
    let (v, vj) = parse_value_at(s, kj + 1)->Some_0;
    let f = SpecField { key, value: v };
    assert(kj - i == key.len() + 2) by {
        assert(s.subrange(i, kj).len() == (seq!['"'] + key + seq!['"']).len());
    }
    assert(vj - kj - 1 == value_chars(v).len()) by {
        assert(s.subrange(kj + 1, vj).len() == value_chars(v).len());
    }
    assert(field_chars(f).len() == key.len() + 3 + value_chars(v).len());
    assert(s.subrange(i, vj) =~= field_chars(f)) by {
        assert(s.subrange(i, kj) == seq!['"'] + key + seq!['"']);
        assert(s[kj] == ':');
        assert(s.subrange(kj + 1, vj) == value_chars(v));
        assert forall|x: int| 0 <= x < vj - i implies s.subrange(i, vj)[x] == field_chars(f)[x] by {
            assert(s.subrange(i, vj)[x] == s[i + x]);
            if x < kj - i {
                assert(s[i + x] == s.subrange(i, kj)[x]);
                assert(field_chars(f)[x] == (seq!['"'] + key + seq!['"'])[x]);
            } else if x == kj - i {
                assert(field_chars(f)[x] == ':');
            } else {
                assert(s[i + x] == s.subrange(kj + 1, vj)[x - (kj - i) - 1]);
                assert(field_chars(f)[x] == value_chars(v)[x - key.len() - 3]);
            }
        }
    }
    if vj < s.len() && s[vj] == ',' {
        let (rest, m) = parse_fields_at(s, vj + 1)->Some_0;
        lemma_parse_fields_sound(s, vj + 1);
        assert(fs == seq![f] + rest);
        assert(fs[0] == f);
        assert(forall|x: int| 0 <= x < rest.len() ==> fs[x + 1] == (#[trigger] rest[x]));
        assert forall|x: int| 0 <= x < fs.len() implies field_ok(#[trigger] fs[x]) by {
            if x == 0 {
            } else {
                assert(fs[x] == rest[x - 1]);
            }
        }
        assert(fs.drop_first() =~= rest);
        assert(fields_chars(fs) == field_chars(f) + seq![','] + fields_chars(rest));
        assert(s.subrange(i, m) =~= fields_chars(fs)) by {
            assert(s.subrange(vj + 1, m) == fields_chars(rest));
            assert forall|x: int| 0 <= x < m - i implies s.subrange(i, m)[x] == fields_chars(
                fs,
            )[x] by {
                assert(s.subrange(i, m)[x] == s[i + x]);
                if x < vj - i {
                    assert(s[i + x] == s.subrange(i, vj)[x]);
                    assert(field_chars(f)[x] == s.subrange(i, vj)[x]);
                } else if x == vj - i {
                } else {
                    assert(s[i + x] == s.subrange(vj + 1, m)[x - (vj - i) - 1]);
                }
            }
        }
    } else {
        assert(fs =~= seq![f]);
        assert(fields_chars(fs) == field_chars(f));
    }
}

/// Soundness of the wire parser: a payload is accepted only when it is,
/// character for character, the rendering of the well-formed object that
/// comes back. Together with the round trip this pins the accepted
/// payloads down to exactly the renderings.
pub proof fn lemma_parse_sound(s: Seq<char>)
    requires
        spec_parse_object(s) is Some,
    ensures
        object_ok(spec_parse_object(s)->Some_0),
        s == object_chars(spec_parse_object(s)->Some_0),
{
    let fs = spec_parse_object(s)->Some_0;
    if s.len() == 2 && s[0] == '{' && s[1] == '}' {
        assert(fs =~= Seq::<SpecField>::empty());
        assert(object_chars(fs) =~= seq!['{', '}']);
        assert(s =~= seq!['{', '}']);
    } else {
        let (inner, j) = parse_fields_at(s, 1)->Some_0;
        lemma_parse_fields_sound(s, 1);
        assert(fs == inner);
        assert(j == s.len() - 1);
        assert(s.subrange(1, j) == fields_chars(fs));
        assert(s =~= object_chars(fs)) by {
            assert forall|x: int| 0 <= x < s.len() implies s[x] == object_chars(fs)[x] by {
                if x == 0 {
                } else if x < j {
                    assert(s[x] == s.subrange(1, j)[x - 1]);
                } else {
                }
            }
        }
    }
}


} // verus!
