use vstd::prelude::*;

verus! {

/// Whether `c` may appear in an alias: ASCII letters, digits, `-` and `_`.
pub open spec fn is_alias_char(c: char) -> bool {
    ('a' <= c && c <= 'z') || ('A' <= c && c <= 'Z') || ('0' <= c && c <= '9') || c == '-'
        || c == '_'
}

/// Whether every character of `s` may appear in an alias.
pub open spec fn all_alias_chars(s: Seq<char>) -> bool {
    forall|i: int| 0 <= i < s.len() ==> #[trigger] is_alias_char(s[i])
}

/// The characters with the Unicode `White_Space` property.
pub open spec fn is_space_char(c: char) -> bool {
    ('\u{9}' <= c && c <= '\u{d}') || c == ' ' || c == '\u{85}' || c == '\u{a0}' || c
        == '\u{1680}' || ('\u{2000}' <= c && c <= '\u{200a}') || c == '\u{2028}' || c == '\u{2029}'
        || c == '\u{202f}' || c == '\u{205f}' || c == '\u{3000}'
}

/// Whether `s` holds a whitespace character anywhere.
pub open spec fn has_space(s: Seq<char>) -> bool {
    exists|i: int| 0 <= i < s.len() && #[trigger] is_space_char(s[i])
}

/// Whether `s` begins with `http://` or `https://`.
pub open spec fn has_web_scheme(s: Seq<char>) -> bool {
    HTTP_PREFIX@.is_prefix_of(s) || HTTPS_PREFIX@.is_prefix_of(s)
}

/// The character of the decimal digit `d`.
pub open spec fn digit_char(d: nat) -> char {
    if d == 0 {
        '0'
    } else if d == 1 {
        '1'
    } else if d == 2 {
        '2'
    } else if d == 3 {
        '3'
    } else if d == 4 {
        '4'
    } else if d == 5 {
        '5'
    } else if d == 6 {
        '6'
    } else if d == 7 {
        '7'
    } else if d == 8 {
        '8'
    } else {
        '9'
    }
}

/// `n` written in decimal, without leading zeros.
pub open spec fn decimal(n: nat) -> Seq<char>
    decreases n,
{
    if n < 10 {
        seq![digit_char(n)]
    } else {
        decimal(n / 10).push(digit_char(n % 10))
    }
}

pub const HTTP_PREFIX: &'static str = "http://";

pub const HTTPS_PREFIX: &'static str = "https://";

fn alias_char(c: char) -> (r: bool)
    ensures
        r == is_alias_char(c),
{
    ('a' <= c && c <= 'z') || ('A' <= c && c <= 'Z') || ('0' <= c && c <= '9') || c == '-'
        || c == '_'
}

fn space_char(c: char) -> (r: bool)
    ensures
        r == is_space_char(c),
{
    ('\u{9}' <= c && c <= '\u{d}') || c == ' ' || c == '\u{85}' || c == '\u{a0}' || c
        == '\u{1680}' || ('\u{2000}' <= c && c <= '\u{200a}') || c == '\u{2028}' || c == '\u{2029}'
        || c == '\u{202f}' || c == '\u{205f}' || c == '\u{3000}'
}

fn starts_with(s: &str, prefix: &str) -> (r: bool)
    ensures
        r == prefix@.is_prefix_of(s@),
{
    let n = prefix.unicode_len();
    if s.unicode_len() < n {
        return false;
    }
    let mut i: usize = 0;
    while i < n
        invariant
            n == prefix@.len(),
            n <= s@.len(),
            i <= n,
            forall|j: int| 0 <= j < i ==> prefix@[j] == s@[j],
        decreases n - i,
    {
        if prefix.get_char(i) != s.get_char(i) {
            return false;
        }
        i += 1;
    }
    true
}

fn digit_text(d: usize) -> (r: &'static str)
    requires
        d < 10,
    ensures
        r@ == seq![digit_char(d as nat)],
{
    proof {
        reveal_strlit("0");
        reveal_strlit("1");
        reveal_strlit("2");
        reveal_strlit("3");
        reveal_strlit("4");
        reveal_strlit("5");
        reveal_strlit("6");
        reveal_strlit("7");
        reveal_strlit("8");
        reveal_strlit("9");
    }
    if d == 0 {
        "0"
    } else if d == 1 {
        "1"
    } else if d == 2 {
        "2"
    } else if d == 3 {
        "3"
    } else if d == 4 {
        "4"
    } else if d == 5 {
        "5"
    } else if d == 6 {
        "6"
    } else if d == 7 {
        "7"
    } else if d == 8 {
        "8"
    } else {
        "9"
    }
}

/// The decimal text of `n`.
pub fn decimal_text(n: usize) -> (r: String)
    ensures
        r@ == decimal(n as nat),
    decreases n,
{
    if n < 10 {
        String::from_str(digit_text(n))
    } else {
        let mut s = decimal_text(n / 10);
        s.append(digit_text(n % 10));
        s
    }
}

/// Rule checks over one candidate string, collecting one message per failed rule.
pub struct PayloadValidator<'a> {
    value: &'a str,
    errors: Vec<String>,
}

/// What a validator holds: the string under check and the messages collected so far.
pub struct ValidatorView {
    pub value: Seq<char>,
    pub errors: Seq<Seq<char>>,
}

impl<'a> View for PayloadValidator<'a> {
    type V = ValidatorView;

    closed spec fn view(&self) -> ValidatorView {
        ValidatorView { value: self.value@, errors: self.errors@.map_values(|s: String| s@) }
    }
}

/// The messages held by a list of strings.
pub open spec fn texts(v: Seq<String>) -> Seq<Seq<char>> {
    v.map_values(|s: String| s@)
}

impl<'a> PayloadValidator<'a> {
    pub const ERR_EMPTY: &'static str = "can not be empty";

    pub const ERR_ALPHANUMERIC: &'static str = "allowed characters are alphanumeric and hyphens";

    pub const ERR_MAX_LENGTH: &'static str = "max length is";

    pub const ERR_URL_SCHEMA: &'static str =
        "has to start with 'http://' or 'https://' and does not contain any whitespaces";

    /// The message of the `max_length` rule for the bound `n`.
    pub open spec fn max_length_message(n: nat) -> Seq<char> {
        Self::ERR_MAX_LENGTH@.push(' ') + decimal(n)
    }

    /// Starts a check of `value` with no message collected.
    pub fn new(value: &'a str) -> (r: Self)
        ensures
            r@.value == value@,
            r@.errors == Seq::<Seq<char>>::empty(),
    {
        PayloadValidator { value, errors: Vec::new() }
    }

    /// Adds a message if the value is empty.
    pub fn not_empty(self) -> (r: Self)
        ensures
            r@.value == self@.value,
            r@.errors == if self@.value.len() == 0 {
                self@.errors.push(Self::ERR_EMPTY@)
            } else {
                self@.errors
            },
    {
        let mut v = self;
        if v.value.is_empty() {
            v.errors.push(Self::ERR_EMPTY.to_owned());
        }
        v
    }

    /// Adds a message if the value has more than `length` characters.
    pub fn max_length(self, length: usize) -> (r: Self)
        ensures
            r@.value == self@.value,
            r@.errors == if self@.value.len() > length {
                self@.errors.push(Self::max_length_message(length as nat))
            } else {
                self@.errors
            },
    {
        let mut v = self;
        if v.value.unicode_len() > length {
            let mut err = String::from_str(Self::ERR_MAX_LENGTH);
            err.append(" ");
            let digits = decimal_text(length);
            err.append(digits.as_str());
            proof {
                reveal_strlit(" ");
                assert(err@ =~= Self::max_length_message(length as nat));
            }
            v.errors.push(err);
        }
        v
    }

    /// Adds a message if the value holds a character outside `[A-Za-z0-9_-]`.
    pub fn valid_characters(self) -> (r: Self)
        ensures
            r@.value == self@.value,
            r@.errors == if !all_alias_chars(self@.value) {
                self@.errors.push(Self::ERR_ALPHANUMERIC@)
            } else {
                self@.errors
            },
    {
        let mut v = self;
        let mut all = true;
        for c in it: v.value.chars()
            invariant
                it.seq() == v.value@,
                all <==> forall|j: int| 0 <= j < it.index() ==> is_alias_char(v.value@[j]),
        {
            if !alias_char(c) {
                all = false;
            }
        }
        if !all {
            v.errors.push(Self::ERR_ALPHANUMERIC.to_owned());
        }
        v
    }

    /// Adds a message if the value does not start with `http://` or `https://`,
    /// or holds a whitespace character.
    pub fn has_url_schema(self) -> (r: Self)
        ensures
            r@.value == self@.value,
            r@.errors == if !has_web_scheme(self@.value) || has_space(self@.value) {
                self@.errors.push(Self::ERR_URL_SCHEMA@)
            } else {
                self@.errors
            },
    {
        let mut v = self;
        if !starts_with(v.value, HTTP_PREFIX) && !starts_with(v.value, HTTPS_PREFIX) {
            v.errors.push(Self::ERR_URL_SCHEMA.to_owned());
            return v;
        }
        let mut space = false;
        for c in it: v.value.chars()
            invariant
                it.seq() == v.value@,
                space <==> exists|j: int| 0 <= j < it.index() && is_space_char(v.value@[j]),
        {
            if space_char(c) {
                space = true;
            }
        }
        if space {
            v.errors.push(Self::ERR_URL_SCHEMA.to_owned());
        }
        v
    }

    /// Ends the check: `Ok` when no rule failed, else every message in the order collected.
    pub fn validate(self) -> (r: Result<(), Vec<String>>)
        ensures
            match r {
                Ok(()) => self@.errors.len() == 0,
                Err(e) => self@.errors.len() > 0 && texts(e@) == self@.errors,
            },
    {
        if self.errors.len() > 0 {
            return Err(self.errors);
        }
        Ok(())
    }
}

} // verus!
