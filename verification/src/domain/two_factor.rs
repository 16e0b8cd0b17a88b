use vstd::prelude::*;
use crate::domain::error::ValidationError;

verus! {

/// The text `uuid` prints for the UUID that `input` denotes: 36 characters,
/// lower-case hexadecimal digits in five hyphenated groups. `None` where
/// `input` is in none of the forms `uuid` reads (plain, hyphenated, braced,
/// URN).
pub uninterp spec fn uuid_text(input: Seq<char>) -> Option<Seq<char>>;

/// Whether a text of `length` bytes can be a UUID in one of the forms that
/// are read: plain (32), hyphenated (36), braced (38) or URN (45).
pub open spec fn is_uuid_length(length: nat) -> bool {
    length == 32 || length == 36 || length == 38 || length == 45
}

/// Calls `uuid::Uuid::parse_str` and prints the UUID it returns with
/// `to_string`.
///
/// Trusted: whether and to which text `input` is read depends on `input`
/// alone; the printed text, read again, gives the same UUID and so the same
/// text; and the parser goes by the number of bytes first and refuses a
/// text of any other length than the four of its forms.
#[verifier::external_body]
fn parse_uuid(input: &String) -> (printed: Option<String>)
    ensures
        match printed {
            Some(text) => uuid_text(input@) == Some(text@) && uuid_text(text@) == Some(text@),
            None => uuid_text(input@) is None,
        },
        !is_uuid_length(vstd::utf8::encode_utf8(input@).len()) ==> printed is None,
{
    match uuid::Uuid::parse_str(input) {
        Ok(id) => Some(id.to_string()),
        Err(_) => None,
    }
}

/// Calls `uuid::Uuid::new_v4` and prints the UUID with `to_string`.
///
/// Trusted: the text is one that `uuid` reads back as itself. Which UUID it
/// is depends on the system's random source, so nothing more is claimed.
/// Where the system has no random source the call panics.
#[verifier::external_body]
fn random_uuid() -> (printed: String)
    ensures
        uuid_text(printed@) == Some(printed@),
{
    uuid::Uuid::new_v4().to_string()
}

/// Calls `rand::Rng::gen_range` on the thread's generator with the
/// inclusive range from `low` to `high`.
///
/// Trusted: the number lies in the range. The call panics on an empty range,
/// which the precondition leaves out, and where the system has no random
/// source to seed the generator from.
#[verifier::external_body]
fn random_in_range(low: u32, high: u32) -> (n: u32)
    requires
        low <= high,
    ensures
        low <= n <= high,
{
    rand::Rng::gen_range(&mut rand::thread_rng(), low..=high)
}

/// The identifier of one login attempt that awaits its second factor: a UUID
/// in its printed form.
pub struct LoginAttemptId(String);

impl View for LoginAttemptId {
    type V = Seq<char>;

    closed spec fn view(&self) -> Seq<char> {
        self.0@
    }
}

impl LoginAttemptId {
    #[verifier::type_invariant]
    spec fn valid(&self) -> bool {
        uuid_text(self.0@) == Some(self.0@)
    }

    /// Reads `id` as a UUID and keeps its printed form.
    pub fn parse(id: String) -> (r: Result<LoginAttemptId, ValidationError>)
        ensures
            r is Ok <==> uuid_text(id@) is Some,
            r matches Ok(parsed) ==> Some(parsed@) == uuid_text(id@),
            r matches Err(e) ==> e == ValidationError::InvalidLoginAttemptId,
            !is_uuid_length(vstd::utf8::encode_utf8(id@).len()) ==> r is Err,
    {
        match parse_uuid(&id) {
            Some(text) => Ok(LoginAttemptId(text)),
            None => Err(ValidationError::InvalidLoginAttemptId),
        }
    }

    /// The identifier as text.
    pub fn expose_secret(&self) -> (text: &String)
        ensures
            text@ == self@,
            uuid_text(text@) == Some(text@),
    {
        proof {
            use_type_invariant(self);
        }
        &self.0
    }
}

impl Default for LoginAttemptId {
    /// Mints a fresh random identifier.
    fn default() -> (id: LoginAttemptId)
        ensures
            uuid_text(id@) == Some(id@),
    {
        LoginAttemptId(random_uuid())
    }
}

impl Clone for LoginAttemptId {
    fn clone(&self) -> (copy: LoginAttemptId)
        ensures
            copy@ == self@,
    {
        proof {
            use_type_invariant(self);
        }
        LoginAttemptId(self.0.clone())
    }
}

impl PartialEq for LoginAttemptId {
    fn eq(&self, other: &LoginAttemptId) -> (equal: bool) {
        self.0 == other.0
    }
}

impl vstd::std_specs::cmp::PartialEqSpecImpl for LoginAttemptId {
    open spec fn obeys_eq_spec() -> bool {
        true
    }

    open spec fn eq_spec(&self, other: &LoginAttemptId) -> bool {
        self@ == other@
    }
}

/// The number of characters in a two-factor code.
pub const TWO_FA_CODE_LENGTH: usize = 6;

/// The least number a generated code is printed from.
pub const MIN_CODE_NUMBER: u32 = 100000;

/// The greatest number a generated code is printed from.
pub const MAX_CODE_NUMBER: u32 = 999999;

/// Whether `c` is one of `0` to `9`.
pub open spec fn is_decimal_digit(c: char) -> bool {
    '0' <= c <= '9'
}

/// What makes a text a two-factor code: six characters, each a decimal
/// digit.
pub open spec fn is_two_fa_code(text: Seq<char>) -> bool {
    &&& text.len() == TWO_FA_CODE_LENGTH
    &&& forall|i: int| 0 <= i < text.len() ==> is_decimal_digit(#[trigger] text[i])
}

/// The character for the digit `d`.
pub open spec fn digit_char(d: int) -> char {
    (d + 48) as char
}

/// The six decimal digits of `n`, most significant first.
pub open spec fn six_digits(n: int) -> Seq<char> {
    seq![
        digit_char((n / 100000) % 10),
        digit_char((n / 10000) % 10),
        digit_char((n / 1000) % 10),
        digit_char((n / 100) % 10),
        digit_char((n / 10) % 10),
        digit_char(n % 10),
    ]
}

/// A two-factor code: six decimal digits.
pub struct TwoFACode(String);

impl View for TwoFACode {
    type V = Seq<char>;

    closed spec fn view(&self) -> Seq<char> {
        self.0@
    }
}

fn digit_text(d: u32) -> (text: &'static str)
    requires
        d < 10,
    ensures
        text@ == seq![digit_char(d as int)],
{
    proof {
        reveal_strlit("0");
        reveal_strlit("1");
        reveal_strlit("2");
        reveal_strlit("3");
        reveal_strlit("4");
        reveal_strlit("5");
        reveal_strlit("6");
        reveal_strlit("7");
        reveal_strlit("8");
        reveal_strlit("9");
    }
    if d == 0 {
        "0"
    } else if d == 1 {
        "1"
    } else if d == 2 {
        "2"
    } else if d == 3 {
        "3"
    } else if d == 4 {
        "4"
    } else if d == 5 {
        "5"
    } else if d == 6 {
        "6"
    } else if d == 7 {
        "7"
    } else if d == 8 {
        "8"
    } else {
        "9"
    }
}

impl TwoFACode {
    #[verifier::type_invariant]
    spec fn valid(&self) -> bool {
        is_two_fa_code(self.0@)
    }

    /// Accepts `code` unchanged if it is six decimal digits.
    pub fn parse(code: String) -> (r: Result<TwoFACode, ValidationError>)
        ensures
            r is Ok <==> is_two_fa_code(code@),
            r matches Ok(parsed) ==> parsed@ == code@,
            r matches Err(e) ==> e == ValidationError::InvalidTwoFACode,
    {
        if code.as_str().unicode_len() != TWO_FA_CODE_LENGTH {
            return Err(ValidationError::InvalidTwoFACode);
        }
        let mut i: usize = 0;
        while i < TWO_FA_CODE_LENGTH
            invariant
                i <= TWO_FA_CODE_LENGTH,
                code@.len() == TWO_FA_CODE_LENGTH,
                forall|j: int| 0 <= j < i ==> is_decimal_digit(#[trigger] code@[j]),
            decreases TWO_FA_CODE_LENGTH - i,
        {
            let c = code.as_str().get_char(i);
            if !('0' <= c && c <= '9') {
                return Err(ValidationError::InvalidTwoFACode);
            }
            i = i + 1;
        }
        Ok(TwoFACode(code))
    }

    /// The code that prints `n`, for a number of six digits.
    pub fn from_number(n: u32) -> (r: Result<TwoFACode, ValidationError>)
        ensures
            r is Ok <==> MIN_CODE_NUMBER <= n <= MAX_CODE_NUMBER,
            r matches Ok(code) ==> code@ == six_digits(n as int),
            r matches Err(e) ==> e == ValidationError::InvalidTwoFACode,
    {
        if n < MIN_CODE_NUMBER || n > MAX_CODE_NUMBER {
            return Err(ValidationError::InvalidTwoFACode);
        }
        Ok(TwoFACode::print(n))
    }

    fn print(n: u32) -> (code: TwoFACode)
        requires
            n <= MAX_CODE_NUMBER,
        ensures
            code@ == six_digits(n as int),
    {
        let mut text = String::new();
        text.append(digit_text((n / 100000) % 10));
        text.append(digit_text((n / 10000) % 10));
        text.append(digit_text((n / 1000) % 10));
        text.append(digit_text((n / 100) % 10));
        text.append(digit_text((n / 10) % 10));
        text.append(digit_text(n % 10));
        TwoFACode(text)
    }

    /// The code as text.
    pub fn expose_secret(&self) -> (text: &String)
        ensures
            text@ == self@,
            is_two_fa_code(text@),
    {
        proof {
            use_type_invariant(self);
        }
        &self.0
    }
}

/// Six printed digits always make a code, and that of a number of six
/// digits does not begin with `0`.
pub proof fn lemma_six_digits_make_a_code(n: int)
    requires
        0 <= n,
    ensures
        is_two_fa_code(six_digits(n)),
        MIN_CODE_NUMBER <= n <= MAX_CODE_NUMBER ==> six_digits(n)[0] != '0',
{
}

impl Default for TwoFACode {
    /// Draws a fresh random code: the digits of a number of six digits.
    fn default() -> (code: TwoFACode)
        ensures
            is_two_fa_code(code@),
            exists|n: int|
                MIN_CODE_NUMBER <= n <= MAX_CODE_NUMBER && code@ == #[trigger] six_digits(n),
    {
        let n = random_in_range(MIN_CODE_NUMBER, MAX_CODE_NUMBER);
        TwoFACode::print(n)
    }
}

impl Clone for TwoFACode {
    fn clone(&self) -> (copy: TwoFACode)
        ensures
            copy@ == self@,
    {
        proof {
            use_type_invariant(self);
        }
        TwoFACode(self.0.clone())
    }
}

impl PartialEq for TwoFACode {
    fn eq(&self, other: &TwoFACode) -> (equal: bool) {
        self.0 == other.0
    }
}

impl vstd::std_specs::cmp::PartialEqSpecImpl for TwoFACode {
    open spec fn obeys_eq_spec() -> bool {
        true
    }

    open spec fn eq_spec(&self, other: &TwoFACode) -> bool {
        self@ == other@
    }
}

} // verus!
