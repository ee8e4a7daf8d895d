//! Textual values: the whitespace that trimming removes, and the
//! parse/format pair that a domain type offers to the conversion pipelines.
use vstd::prelude::*;

verus! {

/// Unicode `White_Space`, the set that `char::is_whitespace` and `str::trim` use.
pub open spec fn is_white(c: char) -> bool {
    ('\u{9}' <= c && c <= '\u{d}') || c == ' ' || c == '\u{85}' || c == '\u{a0}'
        || c == '\u{1680}' || ('\u{2000}' <= c && c <= '\u{200a}') || c == '\u{2028}'
        || c == '\u{2029}' || c == '\u{202f}' || c == '\u{205f}' || c == '\u{3000}'
}

/// `s` without its leading whitespace.
pub open spec fn trim_start(s: Seq<char>) -> Seq<char>
    decreases s.len(),
{
    if s.len() > 0 && is_white(s[0]) {
        trim_start(s.skip(1))
    } else {
        s
    }
}

/// `s` without its trailing whitespace.
pub open spec fn trim_end(s: Seq<char>) -> Seq<char>
    decreases s.len(),
{
    if s.len() > 0 && is_white(s.last()) {
        trim_end(s.drop_last())
    } else {
        s
    }
}

/// `s` without leading and trailing whitespace.
pub open spec fn trimmed(s: Seq<char>) -> Seq<char> {
    trim_end(trim_start(s))
}

/// Every character of `s` is whitespace.
pub open spec fn all_white(s: Seq<char>) -> bool {
    forall|i: int| 0 <= i < s.len() ==> is_white(#[trigger] s[i])
}

/// Relies on `str::trim`: the slice without leading and trailing `White_Space`.
#[verifier::external_body]
pub(crate) fn trim_str(s: &str) -> (r: &str)
    ensures
        r@ == trimmed(s@),
{
    s.trim()
}

proof fn lemma_trim_start_prefix(w: Seq<char>, s: Seq<char>)
    requires
        all_white(w),
    ensures
        trim_start(w + s) == trim_start(s),
    decreases w.len(),
{
    if w.len() > 0 {
        assert((w + s).skip(1) =~= w.skip(1) + s);
        lemma_trim_start_prefix(w.skip(1), s);
    } else {
        assert(w + s =~= s);
    }
}

proof fn lemma_trim_end_suffix(s: Seq<char>, w: Seq<char>)
    requires
        all_white(w),
    ensures
        trim_end(s + w) == trim_end(s),
    decreases w.len(),
{
    if w.len() > 0 {
        assert((s + w).drop_last() =~= s + w.drop_last());
        lemma_trim_end_suffix(s, w.drop_last());
    } else {
        assert(s + w =~= s);
    }
}

proof fn lemma_trim_start_keeps_end(s: Seq<char>, w: Seq<char>)
    requires
        all_white(w),
        exists|i: int| 0 <= i < s.len() && !is_white(#[trigger] s[i]),
    ensures
        trim_start(s + w) == trim_start(s) + w,
    decreases s.len(),
{
    if s.len() > 0 && is_white(s[0]) {
        assert((s + w).skip(1) =~= s.skip(1) + w);
        let i = choose|i: int| 0 <= i < s.len() && !is_white(#[trigger] s[i]);
        assert(!is_white(s.skip(1)[i - 1]));
        lemma_trim_start_keeps_end(s.skip(1), w);
    }
}

/// Trimming ignores any whitespace added at either end.
pub proof fn lemma_trimmed_ignores_padding(front: Seq<char>, s: Seq<char>, back: Seq<char>)
    requires
        all_white(front),
        all_white(back),
    ensures
        trimmed(front + s + back) == trimmed(s),
{
    lemma_trim_start_prefix(front, s + back);
    assert(front + s + back =~= front + (s + back));
    if exists|i: int| 0 <= i < s.len() && !is_white(#[trigger] s[i]) {
        lemma_trim_start_keeps_end(s, back);
        lemma_trim_end_suffix(trim_start(s), back);
    } else {
        lemma_trim_start_all_white(s + back);
        lemma_trim_start_all_white(s);
    }
}

proof fn lemma_trim_start_all_white(s: Seq<char>)
    requires
        all_white(s),
    ensures
        trim_start(s).len() == 0,
    decreases s.len(),
{
    if s.len() > 0 {
        lemma_trim_start_all_white(s.skip(1));
    }
}

/// A domain type with a textual parse/format pair, stated over its view.
///
/// `parse_spec` says which texts parse and to what, `text_spec` what a value
/// formats to; every formatted value parses back to itself.
pub trait TextValue: Sized + View {
    spec fn parse_spec(s: Seq<char>) -> Option<Self::V>;

    /// The message of a failed parse.
    spec fn error_spec(s: Seq<char>) -> Seq<char>;

    spec fn text_spec(v: Self::V) -> Seq<char>;

    spec fn default_spec() -> Self::V;

    fn parse_text(s: &str) -> (r: Result<Self, String>)
        ensures
            match r {
                Ok(v) => Self::parse_spec(s@) == Some(v@),
                Err(e) => Self::parse_spec(s@) is None && e@ == Self::error_spec(s@),
            },
    ;

    fn to_text(&self) -> (r: String)
        ensures
            r@ == Self::text_spec(self@),
    ;

    fn default_value() -> (r: Self)
        ensures
            r@ == Self::default_spec(),
    ;

    proof fn lemma_text_round_trip(v: Self::V)
        ensures
            Self::parse_spec(Self::text_spec(v)) == Some(v),
    ;

    /// A value parsed from trimmed text survives formatting, trimming and
    /// parsing again.
    proof fn lemma_trimmed_text_round_trip(s: Seq<char>, v: Self::V)
        requires
            Self::parse_spec(trimmed(s)) == Some(v),
        ensures
            Self::parse_spec(trimmed(Self::text_spec(v))) == Some(v),
    ;
}

proof fn lemma_trim_end_is_prefix(s: Seq<char>)
    ensures
        trim_end(s).len() <= s.len(),
        trim_end(s) =~= s.subrange(0, trim_end(s).len() as int),
    decreases s.len(),
{
    if s.len() > 0 && is_white(s.last()) {
        lemma_trim_end_is_prefix(s.drop_last());
    }
}

proof fn lemma_trim_end_idempotent(s: Seq<char>)
    ensures
        trim_end(trim_end(s)) == trim_end(s),
    decreases s.len(),
{
    if s.len() > 0 && is_white(s.last()) {
        lemma_trim_end_idempotent(s.drop_last());
    }
}

proof fn lemma_trim_start_idempotent(s: Seq<char>)
    ensures
        trim_start(trim_start(s)) == trim_start(s),
        trim_start(s).len() == 0 || !is_white(trim_start(s)[0]),
    decreases s.len(),
{
    if s.len() > 0 && is_white(s[0]) {
        lemma_trim_start_idempotent(s.skip(1));
    }
}

/// Trimming twice is trimming once.
pub proof fn lemma_trimmed_idempotent(s: Seq<char>)
    ensures
        trimmed(trimmed(s)) == trimmed(s),
{
    let x = trim_start(s);
    lemma_trim_start_idempotent(s);
    lemma_trim_end_is_prefix(x);
    let y = trim_end(x);
    if y.len() > 0 {
        assert(y[0] == x[0]);
    }
    assert(trim_start(y) == y);
    lemma_trim_end_idempotent(x);
}

impl TextValue for String {
    open spec fn parse_spec(s: Seq<char>) -> Option<Seq<char>> {
        Some(s)
    }

    open spec fn error_spec(s: Seq<char>) -> Seq<char> {
        Seq::empty()
    }

    open spec fn text_spec(v: Seq<char>) -> Seq<char> {
        v
    }

    open spec fn default_spec() -> Seq<char> {
        Seq::empty()
    }

    fn parse_text(s: &str) -> (r: Result<String, String>) {
        Ok(s.to_owned())
    }

    fn to_text(&self) -> (r: String) {
        self.clone()
    }

    fn default_value() -> (r: String) {
        String::new()
    }

    proof fn lemma_text_round_trip(v: Seq<char>) {
    }

    proof fn lemma_trimmed_text_round_trip(s: Seq<char>, v: Seq<char>) {
        lemma_trimmed_idempotent(s);
    }
}

/// A decimal digit.
pub open spec fn is_digit(c: char) -> bool {
    '0' <= c && c <= '9'
}

pub open spec fn all_digits(s: Seq<char>) -> bool {
    forall|i: int| 0 <= i < s.len() ==> is_digit(#[trigger] s[i])
}

pub open spec fn digit_value(c: char) -> int {
    c as int - '0' as int
}

/// The number that a string of decimal digits writes.
pub open spec fn digits_value(s: Seq<char>) -> int
    decreases s.len(),
{
    if s.len() == 0 {
        0
    } else {
        digits_value(s.drop_last()) * 10 + digit_value(s.last())
    }
}

/// The digits of an unsigned number's text: without a leading `+`.
pub open spec fn unsigned_digits(s: Seq<char>) -> Seq<char> {
    if s.len() > 0 && s[0] == '+' {
        s.skip(1)
    } else {
        s
    }
}

/// What `u32`'s parse gives: an optional `+` and then one or more decimal
/// digits, whose value fits.
pub open spec fn u32_of_text(s: Seq<char>) -> Option<u32> {
    let d = unsigned_digits(s);
    if d.len() > 0 && all_digits(d) && digits_value(d) <= u32::MAX {
        Some(digits_value(d) as u32)
    } else {
        None
    }
}

pub open spec fn digit_char(n: nat) -> char {
    seq!['0', '1', '2', '3', '4', '5', '6', '7', '8', '9'][n as int]
}

/// The shortest decimal text of `n`.
pub open spec fn decimal_text(n: nat) -> Seq<char>
    decreases n,
{
    if n < 10 {
        seq![digit_char(n)]
    } else {
        decimal_text(n / 10).push(digit_char(n % 10))
    }
}

/// The message of a failed `u32` parse.
pub uninterp spec fn u32_parse_error_text(s: Seq<char>) -> Seq<char>;

/// The message of a failed `bool` parse.
pub uninterp spec fn bool_parse_error_text(s: Seq<char>) -> Seq<char>;

/// Relies on `<u32 as FromStr>::from_str`: an optional `+` followed by decimal
/// digits whose value fits, else an error, here given as its text.
#[verifier::external_body]
fn parse_u32(s: &str) -> (r: Result<u32, String>)
    ensures
        match r {
            Ok(v) => u32_of_text(s@) == Some(v),
            Err(e) => u32_of_text(s@) is None && e@ == u32_parse_error_text(s@),
        },
{
    match s.parse::<u32>() {
        Ok(v) => Ok(v),
        Err(e) => Err(e.to_string()),
    }
}

/// Relies on `<u32 as ToString>::to_string`: the shortest decimal text.
#[verifier::external_body]
fn u32_to_string(v: u32) -> (r: String)
    ensures
        r@ == decimal_text(v as nat),
{
    v.to_string()
}

/// Relies on `<bool as FromStr>::from_str`: exactly `true` or `false`, else an
/// error, here given as its text.
#[verifier::external_body]
fn parse_bool(s: &str) -> (r: Result<bool, String>)
    ensures
        match r {
            Ok(v) => bool_of_text(s@) == Some(v),
            Err(e) => bool_of_text(s@) is None && e@ == bool_parse_error_text(s@),
        },
{
    match s.parse::<bool>() {
        Ok(v) => Ok(v),
        Err(e) => Err(e.to_string()),
    }
}

pub open spec fn bool_text(b: bool) -> Seq<char> {
    if b {
        "true"@
    } else {
        "false"@
    }
}

pub open spec fn bool_of_text(s: Seq<char>) -> Option<bool> {
    if s == "true"@ {
        Some(true)
    } else if s == "false"@ {
        Some(false)
    } else {
        None
    }
}

proof fn lemma_digit_char(n: nat)
    requires
        n < 10,
    ensures
        is_digit(digit_char(n)),
        digit_value(digit_char(n)) == n,
{
    let ds = seq!['0', '1', '2', '3', '4', '5', '6', '7', '8', '9'];
    assert(ds[0] == '0' && ds[1] == '1' && ds[2] == '2' && ds[3] == '3' && ds[4] == '4');
    assert(ds[5] == '5' && ds[6] == '6' && ds[7] == '7' && ds[8] == '8' && ds[9] == '9');
}

proof fn lemma_decimal_text(n: nat)
    ensures
        decimal_text(n).len() > 0,
        all_digits(decimal_text(n)),
        digits_value(decimal_text(n)) == n,
    decreases n,
{
    lemma_digit_char(n % 10);
    if n < 10 {
        let t = seq![digit_char(n)];
        assert(t.drop_last() =~= Seq::<char>::empty());
        assert(digits_value(t) == digits_value(t.drop_last()) * 10 + digit_value(t.last()));
    } else {
        lemma_decimal_text(n / 10);
        let t = decimal_text(n / 10).push(digit_char(n % 10));
        assert(t.drop_last() =~= decimal_text(n / 10));
        assert(t.last() == digit_char(n % 10));
        assert(digits_value(t) == digits_value(t.drop_last()) * 10 + digit_value(t.last()));
        assert(n == (n / 10) * 10 + n % 10);
    }
}

impl TextValue for u32 {
    open spec fn parse_spec(s: Seq<char>) -> Option<u32> {
        u32_of_text(s)
    }

    open spec fn error_spec(s: Seq<char>) -> Seq<char> {
        u32_parse_error_text(s)
    }

    open spec fn text_spec(v: u32) -> Seq<char> {
        decimal_text(v as nat)
    }

    open spec fn default_spec() -> u32 {
        0
    }

    fn parse_text(s: &str) -> (r: Result<u32, String>) {
        parse_u32(s)
    }

    fn to_text(&self) -> (r: String) {
        u32_to_string(*self)
    }

    fn default_value() -> (r: u32) {
        0
    }

    proof fn lemma_text_round_trip(v: u32) {
        lemma_decimal_text(v as nat);
        let t = decimal_text(v as nat);
        assert(is_digit(t[0]));
        assert(unsigned_digits(t) == t);
    }

    proof fn lemma_trimmed_text_round_trip(s: Seq<char>, v: u32) {
        lemma_decimal_text(v as nat);
        let t = decimal_text(v as nat);
        assert(is_digit(t[0]) && is_digit(t.last()));
        Self::lemma_text_round_trip(v);
    }
}

impl TextValue for bool {
    open spec fn parse_spec(s: Seq<char>) -> Option<bool> {
        bool_of_text(s)
    }

    open spec fn error_spec(s: Seq<char>) -> Seq<char> {
        bool_parse_error_text(s)
    }

    open spec fn text_spec(v: bool) -> Seq<char> {
        bool_text(v)
    }

    open spec fn default_spec() -> bool {
        false
    }

    fn parse_text(s: &str) -> (r: Result<bool, String>) {
        parse_bool(s)
    }

    fn to_text(&self) -> (r: String) {
        if *self {
            "true".to_string()
        } else {
            "false".to_string()
        }
    }

    fn default_value() -> (r: bool) {
        false
    }

    proof fn lemma_text_round_trip(v: bool) {
        reveal_strlit("true");
        reveal_strlit("false");
        assert("true"@[0] != "false"@[0]);
    }

    proof fn lemma_trimmed_text_round_trip(s: Seq<char>, v: bool) {
        reveal_strlit("true");
        reveal_strlit("false");
        let t = bool_text(v);
        assert(!is_white(t[0]) && !is_white(t.last()));
        Self::lemma_text_round_trip(v);
    }
}

} // verus!
