//! Real numbers as they are written in output.

use crate::decimal::is_digit;
use crate::text::same_text;
use vstd::prelude::*;
use vstd::string::{is_ascii, is_ascii_spec_bytes};
use vstd::utf8::is_ascii_chars;

verus! {

const MINUS: u8 = 45;

const POINT: u8 = 46;

const DIGIT_ZERO: u8 = 48;

const DIGIT_NINE: u8 = 57;

/// Digits with at most one point among them, which is neither first nor last:
/// `100000`, `0.02`.
pub open spec fn is_plain_decimal(s: Seq<char>) -> bool {
    &&& s.len() > 0
    &&& is_digit(s[0])
    &&& is_digit(s[s.len() - 1])
    &&& forall|i: int| 0 <= i < s.len() ==> is_digit(#[trigger] s[i]) || s[i] == '.'
    &&& forall|i: int, j: int|
        #![trigger s[i], s[j]]
        0 <= i < j < s.len() ==> !(s[i] == '.' && s[j] == '.')
}

/// A plain decimal, or one behind a minus sign.
pub open spec fn is_signed_decimal(s: Seq<char>) -> bool {
    is_plain_decimal(s) || (s.len() > 0 && s[0] == '-' && is_plain_decimal(s.skip(1)))
}

/// The notations of a real number: a signed decimal, or one of the three
/// marks for what is not finite.
pub open spec fn is_real_text(s: Seq<char>) -> bool {
    is_signed_decimal(s) || s == "NaN"@ || s == "inf"@ || s == "-inf"@
}

/// Whether the characters of `text` from `start` on are a plain decimal. The
/// text is read byte by byte: in a text of seven-bit characters each byte is
/// one character.
fn plain_decimal_from(text: &str, start: usize) -> (ok: bool)
    requires
        is_ascii(text),
        start <= text@.len(),
    ensures
        ok == is_plain_decimal(text@.skip(start as int)),
{
    proof {
        is_ascii_spec_bytes(text);
    }
    let bytes = text.as_bytes();
    let n = bytes.len();
    let ghost s = text@.skip(start as int);
    if start == n {
        return false;
    }
    let mut i = start;
    let mut point: Option<usize> = None;
    while i < n
        invariant
            start <= i <= n,
            n == text@.len(),
            n == bytes@.len(),
            is_ascii_chars(text@),
            forall|k: int| 0 <= k < n ==> #[trigger] bytes@[k] == text@[k] as u8,
            s == text@.skip(start as int),
            forall|k: int| 0 <= k < i - start ==> is_digit(#[trigger] s[k]) || s[k] == '.',
            i > start ==> is_digit(s[0]),
            match point {
                Some(p) => start < p < i && p + 1 < n && s[p - start] == '.' && forall|k: int|
                    0 <= k < i - start && k != p - start ==> #[trigger] s[k] != '.',
                None => forall|k: int| 0 <= k < i - start ==> #[trigger] s[k] != '.',
            },
        decreases n - i,
    {
        let b = bytes[i];
        let ghost c = text@[i as int];
        assert(c == s[i - start]);
        assert(b == c as u8 && '\0' <= c <= '\u{7f}');
        let is_point = b == POINT;
        assert(is_point == (c == '.'));
        if !(DIGIT_ZERO <= b && b <= DIGIT_NINE) {
            if !is_point || i == start || i + 1 == n {
                return false;
            }
            match point {
                Some(p) => {
                    assert(s[p - start] == '.' && s[i - start] == '.');
                    return false;
                },
                None => {
                    point = Some(i);
                },
            }
        }
        i += 1;
    }
    true
}

/// Every notation of a real number is made of seven-bit characters.
pub proof fn lemma_real_text_is_ascii(s: Seq<char>)
    requires
        is_real_text(s),
    ensures
        is_ascii_chars(s),
{
    reveal_strlit("NaN");
    reveal_strlit("inf");
    reveal_strlit("-inf");
    if is_plain_decimal(s) {
    } else if s.len() > 0 && s[0] == '-' && is_plain_decimal(s.skip(1)) {
        assert forall|i: int| 0 <= i < s.len() implies '\0' <= #[trigger] s[i] <= '\u{7f}' by {
            if i > 0 {
                assert(s[i] == s.skip(1)[i - 1]);
            }
        }
    }
}

/// A real number, held as its notation.
#[derive(Debug, PartialEq, Eq)]
pub struct Real {
    text: String,
}

impl Clone for Real {
    fn clone(&self) -> (copy: Self)
        ensures
            copy@ == self@,
    {
        proof {
            use_type_invariant(self);
        }
        Real { text: self.text.clone() }
    }
}

impl View for Real {
    type V = Seq<char>;

    closed spec fn view(&self) -> Seq<char> {
        self.text@
    }
}

impl Real {
    #[verifier::type_invariant]
    spec fn well_formed(self) -> bool {
        is_real_text(self.text@)
    }

    /// Takes `text` as a real number if it is the notation of one.
    pub fn from_text(text: &str) -> (r: Option<Real>)
        ensures
            r is Some <==> is_real_text(text@),
            r matches Some(x) ==> x@ == text@,
    {
        proof {
            if is_real_text(text@) {
                lemma_real_text_is_ascii(text@);
            }
            is_ascii_spec_bytes(text);
        }
        let accepted = if !text.is_ascii() {
            false
        } else if same_text(text, "NaN") || same_text(text, "inf") || same_text(text, "-inf") {
            true
        } else if text.is_empty() {
            false
        } else if text.as_bytes()[0] == MINUS {
            assert(text@[0] == '-');
            plain_decimal_from(text, 1)
        } else {
            assert(text@[0] != '-');
            assert(text@.skip(0) =~= text@);
            plain_decimal_from(text, 0)
        };
        if accepted {
            Some(Real { text: String::from_str(text) })
        } else {
            None
        }
    }

    /// The notation of this number.
    pub fn as_str(&self) -> (s: &str)
        ensures
            s@ == self@,
            is_real_text(s@),
    {
        proof {
            use_type_invariant(self);
        }
        self.text.as_str()
    }
}

/// No notation of a real number holds a line feed or an equals sign.
pub proof fn lemma_real_text_is_one_word(s: Seq<char>)
    requires
        is_real_text(s),
    ensures
        forall|i: int| 0 <= i < s.len() ==> #[trigger] s[i] != '\n' && s[i] != '=',
{
    reveal_strlit("NaN");
    reveal_strlit("inf");
    reveal_strlit("-inf");
    if is_plain_decimal(s) {
    } else if s.len() > 0 && s[0] == '-' && is_plain_decimal(s.skip(1)) {
        assert forall|i: int| 0 <= i < s.len() implies #[trigger] s[i] != '\n' && s[i] != '=' by {
            if i > 0 {
                assert(s[i] == s.skip(1)[i - 1]);
            }
        }
    }
}

} // verus!
