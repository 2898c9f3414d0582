//! Validated subscriber identity: names and email addresses that can only be
//! obtained through their parsing functions.
use unicode_segmentation::UnicodeSegmentation;
use vstd::prelude::*;

verus! {

/// The characters a subscriber name may not contain: they are used to break
/// out of log lines, HTML and shell-like contexts.
pub open spec fn is_forbidden_name_char(c: char) -> bool {
    c == '/' || c == '(' || c == ')' || c == '"' || c == '<' || c == '>' || c == '\\'
        || c == '{' || c == '}'
}

pub open spec fn has_forbidden_name_char(s: Seq<char>) -> bool {
    exists|i: int| 0 <= i < s.len() && is_forbidden_name_char(#[trigger] s[i])
}

/// The Unicode White_Space property (PropList.txt).
pub open spec fn is_white_space(c: char) -> bool {
    let u = c as u32;
    (0x09 <= u <= 0x0D) || u == 0x20 || u == 0x85 || u == 0xA0 || u == 0x1680 || (0x2000 <= u
        <= 0x200A) || u == 0x2028 || u == 0x2029 || u == 0x202F || u == 0x205F || u == 0x3000
}

/// Empty, or made of white space only: what is left after trimming is empty.
pub open spec fn is_blank(s: Seq<char>) -> bool {
    forall|i: int| 0 <= i < s.len() ==> is_white_space(#[trigger] s[i])
}

/// The number of extended grapheme clusters (user-perceived characters) of `s`.
pub uninterp spec fn grapheme_len(s: Seq<char>) -> nat;

/// The longest name accepted, in graphemes.
pub const MAX_NAME_GRAPHEMES: usize = 256;

pub open spec fn is_valid_name(s: Seq<char>) -> bool {
    &&& !is_blank(s)
    &&& grapheme_len(s) <= MAX_NAME_GRAPHEMES
    &&& !has_forbidden_name_char(s)
}

pub open spec fn invalid_name_message(s: Seq<char>) -> Seq<char> {
    s + " is not a valid subscriber name."@
}

/// Relies on `char::is_whitespace`: true exactly for the code points of the
/// Unicode White_Space property.
#[verifier::external_body]
fn char_is_whitespace(c: char) -> (r: bool)
    ensures
        r == is_white_space(c),
{
    c.is_whitespace()
}

/// Relies on `UnicodeSegmentation::graphemes` (extended clusters) and
/// `Iterator::count`: the number of grapheme clusters of `s`.
#[verifier::external_body]
fn count_graphemes(s: &str) -> (r: usize)
    ensures
        r as nat == grapheme_len(s@),
{
    s.graphemes(true).count()
}

fn is_forbidden_char(c: char) -> (r: bool)
    ensures
        r == is_forbidden_name_char(c),
{
    c == '/' || c == '(' || c == ')' || c == '"' || c == '<' || c == '>' || c == '\\' || c
        == '{' || c == '}'
}

fn is_blank_chars(cs: &Vec<char>) -> (r: bool)
    ensures
        r == is_blank(cs@),
{
    let mut i: usize = 0;
    while i < cs.len()
        invariant
            i <= cs@.len(),
            forall|j: int| 0 <= j < i ==> is_white_space(#[trigger] cs@[j]),
        decreases cs@.len() - i,
    {
        if !char_is_whitespace(cs[i]) {
            return false;
        }
        i = i + 1;
    }
    true
}

fn has_forbidden_chars(cs: &Vec<char>) -> (r: bool)
    ensures
        r == has_forbidden_name_char(cs@),
{
    let mut i: usize = 0;
    while i < cs.len()
        invariant
            i <= cs@.len(),
            forall|j: int| 0 <= j < i ==> !is_forbidden_name_char(#[trigger] cs@[j]),
        decreases cs@.len() - i,
    {
        if is_forbidden_char(cs[i]) {
            assert(is_forbidden_name_char(cs@[i as int]));
            return true;
        }
        i = i + 1;
    }
    false
}

/// Relies on `str::chars`: the characters of `s`, in order.
#[verifier::external_body]
fn chars_of(s: &str) -> (r: Vec<char>)
    ensures
        r@ == s@,
{
    s.chars().collect()
}

/// A name holding any forbidden character is refused, whatever surrounds it.
pub proof fn lemma_forbidden_char_refused(s: Seq<char>, i: int)
    requires
        0 <= i < s.len(),
        is_forbidden_name_char(s[i]),
    ensures
        !is_valid_name(s),
{
    assert(has_forbidden_name_char(s));
}

/// A name that is empty or white space only is refused.
pub proof fn lemma_blank_name_refused(s: Seq<char>)
    requires
        is_blank(s),
    ensures
        !is_valid_name(s),
{
}

/// Of names that are not blank and hold no forbidden character, exactly those
/// of at most 256 graphemes are accepted.
pub proof fn lemma_name_length_limit(s: Seq<char>)
    requires
        !is_blank(s),
        !has_forbidden_name_char(s),
    ensures
        is_valid_name(s) <==> grapheme_len(s) <= 256,
{
}

/// A subscriber's display name: never blank, at most 256 graphemes long, and
/// free of the characters `/ ( ) " < > \ { }`.
pub struct SubscriberName(String);

impl View for SubscriberName {
    type V = Seq<char>;

    closed spec fn view(&self) -> Seq<char> {
        self.0@
    }
}

impl SubscriberName {
    #[verifier::type_invariant]
    spec fn inv(self) -> bool {
        is_valid_name(self.0@)
    }

    /// Validates `s` as a subscriber name.
    pub fn parse(s: String) -> (r: Result<Self, String>)
        ensures
            r is Ok <==> is_valid_name(s@),
            r matches Ok(n) ==> n@ == s@,
            r matches Err(e) ==> e@ == invalid_name_message(s@),
    {
        let cs = chars_of(s.as_str());
        let is_blank = is_blank_chars(&cs);
        let is_too_long = count_graphemes(s.as_str()) > MAX_NAME_GRAPHEMES;
        let has_forbidden = has_forbidden_chars(&cs);
        if is_blank || is_too_long || has_forbidden {
            Err(s.concat(" is not a valid subscriber name."))
        } else {
            Ok(SubscriberName(s))
        }
    }

    /// The name's text, consuming the name.
    pub fn inner(self) -> (r: String)
        ensures
            r@ == self@,
            is_valid_name(r@),
    {
        proof {
            use_type_invariant(&self);
        }
        self.0
    }

    /// Replaces the name's text with `s` where `s` is a valid name; otherwise
    /// the name is left as it was and the error of `parse` is returned.
    pub fn inner_mut(&mut self, s: String) -> (r: Result<(), String>)
        ensures
            r is Ok <==> is_valid_name(s@),
            r is Ok ==> final(self)@ == s@,
            r matches Err(e) ==> final(self)@ == old(self)@ && e@ == invalid_name_message(s@),
    {
        match SubscriberName::parse(s) {
            Ok(n) => {
                *self = n;
                Ok(())
            },
            Err(e) => Err(e),
        }
    }

    /// The name's text.
    pub fn as_ref(&self) -> (r: &str)
        ensures
            r@ == self@,
            is_valid_name(r@),
    {
        proof {
            use_type_invariant(self);
        }
        self.0.as_str()
    }
}


pub open spec fn is_ascii_alphanumeric(c: char) -> bool {
    ('a' <= c && c <= 'z') || ('A' <= c && c <= 'Z') || ('0' <= c && c <= '9')
}

/// The characters of an atom in a mailbox address (RFC 5322 `atext`).
pub open spec fn is_atext(c: char) -> bool {
    is_ascii_alphanumeric(c) || c == '!' || c == '#' || c == '$' || c == '%' || c == '&' || c
        == '\'' || c == '*' || c == '+' || c == '-' || c == '/' || c == '=' || c == '?' || c
        == '^' || c == '_' || c == '`' || c == '{' || c == '|' || c == '}' || c == '~'
}

/// A dot-atom: atoms of `atext` joined by single dots.
pub open spec fn is_valid_local_part(s: Seq<char>) -> bool {
    &&& s.len() > 0
    &&& s[0] != '.'
    &&& s[s.len() - 1] != '.'
    &&& forall|i: int| 0 <= i < s.len() ==> is_atext(#[trigger] s[i]) || s[i] == '.'
    &&& forall|i: int| 0 <= i < s.len() - 1 ==> !(#[trigger] s[i] == '.' && s[i + 1] == '.')
}

/// Labels of letters, digits and hyphens joined by single dots; no label is
/// empty, and none starts or ends with a hyphen.
pub open spec fn is_valid_domain(s: Seq<char>) -> bool {
    &&& s.len() > 0
    &&& s[0] != '.' && s[0] != '-'
    &&& s[s.len() - 1] != '.' && s[s.len() - 1] != '-'
    &&& forall|i: int|
        0 <= i < s.len() ==> is_ascii_alphanumeric(#[trigger] s[i]) || s[i] == '-' || s[i] == '.'
    &&& forall|i: int|
        0 <= i < s.len() - 1 ==> #[trigger] s[i] == '.' ==> s[i + 1] != '.' && s[i + 1] != '-'
    &&& forall|i: int| 0 <= i < s.len() - 1 ==> #[trigger] s[i] == '-' ==> s[i + 1] != '.'
}

/// A mailbox address `local@domain`.
pub open spec fn is_valid_email(s: Seq<char>) -> bool {
    exists|at: int|
        0 <= at < s.len() && #[trigger] s[at] == '@' && is_valid_local_part(s.subrange(0, at))
            && is_valid_domain(s.subrange(at + 1, s.len() as int))
}

pub open spec fn invalid_email_message(s: Seq<char>) -> Seq<char> {
    s + " is not a valid subscriber email."@
}

fn ascii_alphanumeric(c: char) -> (r: bool)
    ensures
        r == is_ascii_alphanumeric(c),
{
    ('a' <= c && c <= 'z') || ('A' <= c && c <= 'Z') || ('0' <= c && c <= '9')
}

fn atext(c: char) -> (r: bool)
    ensures
        r == is_atext(c),
{
    ascii_alphanumeric(c) || c == '!' || c == '#' || c == '$' || c == '%' || c == '&' || c
        == '\'' || c == '*' || c == '+' || c == '-' || c == '/' || c == '=' || c == '?' || c
        == '^' || c == '_' || c == '`' || c == '{' || c == '|' || c == '}' || c == '~'
}

fn check_local_part(cs: &Vec<char>, lo: usize, hi: usize) -> (r: bool)
    requires
        lo <= hi <= cs@.len(),
    ensures
        r == is_valid_local_part(cs@.subrange(lo as int, hi as int)),
{
    let ghost t = cs@.subrange(lo as int, hi as int);
    if lo == hi {
        return false;
    }
    if cs[lo] == '.' || cs[hi - 1] == '.' {
        return false;
    }
    let mut i: usize = lo;
    while i < hi
        invariant
            lo <= i <= hi <= cs@.len(),
            t == cs@.subrange(lo as int, hi as int),
            forall|j: int| 0 <= j < i - lo ==> is_atext(#[trigger] t[j]) || t[j] == '.',
            forall|j: int|
                0 <= j < i - lo && j < t.len() - 1 ==> !(#[trigger] t[j] == '.' && t[j + 1]
                    == '.'),
        decreases hi - i,
    {
        let c = cs[i];
        assert(t[i - lo] == c);
        if !(atext(c) || c == '.') {
            return false;
        }
        if i + 1 < hi && c == '.' && cs[i + 1] == '.' {
            assert(t[i - lo + 1] == cs@[i + 1]);
            return false;
        }
        i = i + 1;
    }
    true
}

fn check_domain(cs: &Vec<char>, lo: usize, hi: usize) -> (r: bool)
    requires
        lo <= hi <= cs@.len(),
    ensures
        r == is_valid_domain(cs@.subrange(lo as int, hi as int)),
{
    let ghost t = cs@.subrange(lo as int, hi as int);
    if lo == hi {
        return false;
    }
    if cs[lo] == '.' || cs[lo] == '-' || cs[hi - 1] == '.' || cs[hi - 1] == '-' {
        return false;
    }
    let mut i: usize = lo;
    while i < hi
        invariant
            lo <= i <= hi <= cs@.len(),
            t == cs@.subrange(lo as int, hi as int),
            forall|j: int|
                0 <= j < i - lo ==> is_ascii_alphanumeric(#[trigger] t[j]) || t[j] == '-' || t[j]
                    == '.',
            forall|j: int|
                0 <= j < i - lo && j < t.len() - 1 ==> #[trigger] t[j] == '.' ==> t[j + 1] != '.'
                    && t[j + 1] != '-',
            forall|j: int|
                0 <= j < i - lo && j < t.len() - 1 ==> #[trigger] t[j] == '-' ==> t[j + 1]
                    != '.',
        decreases hi - i,
    {
        let c = cs[i];
        assert(t[i - lo] == c);
        if !(ascii_alphanumeric(c) || c == '-' || c == '.') {
            return false;
        }
        if i + 1 < hi {
            let d = cs[i + 1];
            assert(t[i - lo + 1] == d);
            if c == '.' && (d == '.' || d == '-') {
                return false;
            }
            if c == '-' && d == '.' {
                return false;
            }
        }
        i = i + 1;
    }
    true
}

/// Whether `s` is a mailbox address `local@domain`.
pub fn is_email_address(s: &str) -> (r: bool)
    ensures
        r == is_valid_email(s@),
{
    let cs = chars_of(s);
    let n = cs.len();
    let mut at: usize = 0;
    while at < n && cs[at] != '@'
        invariant
            n == cs@.len(),
            at <= n,
            forall|j: int| 0 <= j < at ==> cs@[j] != '@',
        decreases n - at,
    {
        at = at + 1;
    }
    if at == n {
        assert(!is_valid_email(s@));
        return false;
    }
    let r = check_local_part(&cs, 0, at) && check_domain(&cs, at + 1, n);
    proof {
        if is_valid_email(s@) {
            let k = choose|k: int|
                0 <= k < s@.len() && #[trigger] s@[k] == '@' && is_valid_local_part(
                    s@.subrange(0, k),
                ) && is_valid_domain(s@.subrange(k + 1, s@.len() as int));
            if k > at {
                assert(s@.subrange(0, k)[at as int] == '@');
            }
            assert(k == at);
        }
    }
    r
}

/// An address without `@`, with nothing before its first `@`, or with nothing
/// after its last `@`, is refused.
pub proof fn lemma_email_parts_required(s: Seq<char>)
    ensures
        (forall|i: int| 0 <= i < s.len() ==> s[i] != '@') ==> !is_valid_email(s),
        s.len() > 0 && s[0] == '@' ==> !is_valid_email(s),
        s.len() > 0 && s[s.len() - 1] == '@' ==> !is_valid_email(s),
{
    if is_valid_email(s) {
        let at = choose|at: int|
            0 <= at < s.len() && #[trigger] s[at] == '@' && is_valid_local_part(s.subrange(0, at))
                && is_valid_domain(s.subrange(at + 1, s.len() as int));
        if s[0] == '@' && at > 0 {
            assert(s.subrange(0, at)[0] == '@');
        }
        if s[s.len() - 1] == '@' && at < s.len() - 1 {
            let d = s.subrange(at + 1, s.len() as int);
            assert(d[d.len() - 1] == '@');
        }
    }
}

/// A subscriber's email address, in the form `local@domain`.
pub struct SubscriberEmail(String);

impl View for SubscriberEmail {
    type V = Seq<char>;

    closed spec fn view(&self) -> Seq<char> {
        self.0@
    }
}

impl SubscriberEmail {
    #[verifier::type_invariant]
    spec fn inv(self) -> bool {
        is_valid_email(self.0@)
    }

    /// Validates `s` as an email address.
    pub fn parse(s: String) -> (r: Result<Self, String>)
        ensures
            r is Ok <==> is_valid_email(s@),
            r matches Ok(e) ==> e@ == s@,
            r matches Err(e) ==> e@ == invalid_email_message(s@),
    {
        if is_email_address(s.as_str()) {
            Ok(SubscriberEmail(s))
        } else {
            Err(s.concat(" is not a valid subscriber email."))
        }
    }

    /// The address's text.
    pub fn as_ref(&self) -> (r: &str)
        ensures
            r@ == self@,
            is_valid_email(r@),
    {
        proof {
            use_type_invariant(self);
        }
        self.0.as_str()
    }
}

/// A subscriber about to be stored: a validated email address and name.
pub struct NewSubscriber {
    pub email: SubscriberEmail,
    pub name: SubscriberName,
}

impl NewSubscriber {
    /// Validates a raw name and email address; the name is checked first.
    pub fn parse(name: String, email: String) -> (r: Result<Self, String>)
        ensures
            r is Ok <==> is_valid_name(name@) && is_valid_email(email@),
            r matches Ok(n) ==> n.name@ == name@ && n.email@ == email@,
            r matches Err(e) ==> if !is_valid_name(name@) {
                e@ == invalid_name_message(name@)
            } else {
                e@ == invalid_email_message(email@)
            },
    {
        let name = SubscriberName::parse(name)?;
        let email = SubscriberEmail::parse(email)?;
        Ok(NewSubscriber { email, name })
    }
}

} // verus!
