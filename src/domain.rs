use vstd::prelude::*;

verus! {

/// Longest display name accepted, in characters.
pub const MAX_NAME_LEN: usize = 256;

/// Whitespace characters, which do not count as content of a name and may not appear in an
/// email: the characters of Unicode's `White_Space` property, those that `char::is_whitespace`
/// accepts and `str::trim` removes.
pub open spec fn is_blank(c: char) -> bool {
    c == '\t' || c == '\n' || c == '\u{0B}' || c == '\u{0C}' || c == '\r' || c == ' '
        || c == '\u{85}' || c == '\u{A0}' || c == '\u{1680}' || ('\u{2000}' <= c && c <= '\u{200A}')
        || c == '\u{2028}' || c == '\u{2029}' || c == '\u{202F}' || c == '\u{205F}'
        || c == '\u{3000}'
}

/// Characters that a display name may not hold.
pub open spec fn is_forbidden_name_char(c: char) -> bool {
    c == '/' || c == '(' || c == ')' || c == '"' || c == '<' || c == '>' || c == '\\' || c == '{'
        || c == '}'
}

/// A display name is valid when it has a character other than whitespace, is at most
/// `MAX_NAME_LEN` characters long, and holds no forbidden character.
pub open spec fn valid_name(s: Seq<char>) -> bool {
    &&& exists|i: int| 0 <= i < s.len() && !is_blank(#[trigger] s[i])
    &&& s.len() <= MAX_NAME_LEN
    &&& forall|i: int| 0 <= i < s.len() ==> !is_forbidden_name_char(#[trigger] s[i])
}

fn is_blank_char(c: char) -> (r: bool)
    ensures
        r == is_blank(c),
{
    c == '\t' || c == '\n' || c == '\u{0B}' || c == '\u{0C}' || c == '\r' || c == ' '
        || c == '\u{85}' || c == '\u{A0}' || c == '\u{1680}' || ('\u{2000}' <= c && c <= '\u{200A}')
        || c == '\u{2028}' || c == '\u{2029}' || c == '\u{202F}' || c == '\u{205F}'
        || c == '\u{3000}'
}

fn is_forbidden_char(c: char) -> (r: bool)
    ensures
        r == is_forbidden_name_char(c),
{
    c == '/' || c == '(' || c == ')' || c == '"' || c == '<' || c == '>' || c == '\\' || c == '{'
        || c == '}'
}

/// Decides `valid_name`.
pub fn is_valid_name(s: &str) -> (r: bool)
    ensures
        r == valid_name(s@),
{
    let mut count: usize = 0;
    let mut has_content = false;
    let mut clean = true;
    for c in it: s.chars()
        invariant
            it.seq() == s@,
            count == if it.index() <= MAX_NAME_LEN { it.index() as int } else { MAX_NAME_LEN + 1 },
            has_content == exists|i: int| 0 <= i < it.index() && !is_blank(#[trigger] s@[i]),
            clean == forall|i: int|
                0 <= i < it.index() ==> !is_forbidden_name_char(#[trigger] s@[i]),
    {
        if !is_blank_char(c) {
            has_content = true;
        }
        if is_forbidden_char(c) {
            clean = false;
        }
        if count <= MAX_NAME_LEN {
            count = count + 1;
        }
    }
    has_content && count <= MAX_NAME_LEN && clean
}

/// An email address is valid when it holds no whitespace and exactly one `@`, with at least
/// one character before it (the local part) and one after it (the domain).
pub open spec fn valid_email(s: Seq<char>) -> bool {
    &&& forall|i: int| 0 <= i < s.len() ==> !is_blank(#[trigger] s[i])
    &&& exists|k: int| 0 < k < s.len() - 1 && #[trigger] s[k] == '@'
    &&& forall|i: int, j: int|
        0 <= i < s.len() && 0 <= j < s.len() && #[trigger] s[i] == '@' && #[trigger] s[j] == '@'
            ==> i == j
}

/// The characters of `s`, in order.
pub fn chars_of(s: &str) -> (v: Vec<char>)
    ensures
        v@ == s@,
{
    let mut v: Vec<char> = Vec::new();
    for c in it: s.chars()
        invariant
            it.seq() == s@,
            v@ == s@.take(it.index() as int),
    {
        v.push(c);
        assert(v@ =~= s@.take(it.index() + 1));
    }
    assert(v@ =~= s@);
    v
}

/// Decides `valid_email`.
pub fn is_valid_email(s: &str) -> (r: bool)
    ensures
        r == valid_email(s@),
{
    let v = chars_of(s);
    let n = v.len();
    let mut at_count: usize = 0;
    let mut at_pos: usize = 0;
    let mut blank = false;
    let mut i: usize = 0;
    while i < n
        invariant
            n == v@.len(),
            v@ == s@,
            i <= n,
            at_count <= 2,
            blank == exists|j: int| 0 <= j < i && is_blank(#[trigger] v@[j]),
            at_count == 0 ==> forall|j: int| 0 <= j < i ==> #[trigger] v@[j] != '@',
            at_count >= 1 ==> at_pos < i && v@[at_pos as int] == '@',
            at_count == 1 ==> forall|j: int|
                0 <= j < i && #[trigger] v@[j] == '@' ==> j == at_pos,
            at_count == 2 ==> exists|j: int| 0 <= j < i && j != at_pos && #[trigger] v@[j] == '@',
        decreases n - i,
    {
        let c = v[i];
        if is_blank_char(c) {
            blank = true;
        }
        if c == '@' {
            if at_count == 0 {
                at_pos = i;
                at_count = 1;
            } else if at_count == 1 {
                at_count = 2;
            }
        }
        i = i + 1;
    }
    let r = !blank && at_count == 1 && 0 < at_pos && at_pos + 1 < n;
    proof {
        if at_count == 0 {
            assert(!valid_email(s@));
        }
        if at_count == 2 {
            let j = choose|j: int| 0 <= j < n && j != at_pos && #[trigger] v@[j] == '@';
            assert(v@[at_pos as int] == '@');
            assert(!valid_email(s@));
        }
        if at_count == 1 && !(0 < at_pos && at_pos + 1 < n) {
            assert(!valid_email(s@));
        }
        if r {
            assert(0 < at_pos < s@.len() - 1 && s@[at_pos as int] == '@');
        }
    }
    r
}

/// The raw subscription form: what a visitor typed, before any check.
pub struct FormData {
    pub email: String,
    pub name: String,
}

/// Why a subscription form was rejected.
#[derive(Debug, Clone, Copy, PartialEq, Eq, Structural)]
pub enum ValidationError {
    InvalidName,
    InvalidEmail,
}

impl ValidationError {
    /// A human-readable description of the rejection.
    pub fn message(&self) -> &'static str {
        match self {
            ValidationError::InvalidName => "the subscriber name is not valid",
            ValidationError::InvalidEmail => "the subscriber email is not a valid address",
        }
    }
}

/// A subscriber whose name and email passed validation.
pub struct NewSubscriber {
    pub email: String,
    pub name: String,
}

impl NewSubscriber {
    /// Both fields hold valid values.
    pub open spec fn valid(&self) -> bool {
        valid_name(self.name@) && valid_email(self.email@)
    }

    /// Validates a raw form. The name is checked first, then the email.
    pub fn parse(form: FormData) -> (r: Result<NewSubscriber, ValidationError>)
        ensures
            !valid_name(form.name@) ==> r == Err::<NewSubscriber, _>(ValidationError::InvalidName),
            valid_name(form.name@) && !valid_email(form.email@) ==> r == Err::<NewSubscriber, _>(
                ValidationError::InvalidEmail,
            ),
            valid_name(form.name@) && valid_email(form.email@) ==> r is Ok,
            r matches Ok(sub) ==> sub.name@ == form.name@ && sub.email@ == form.email@ && sub.valid(),
    {
        if !is_valid_name(form.name.as_str()) {
            return Err(ValidationError::InvalidName);
        }
        if !is_valid_email(form.email.as_str()) {
            return Err(ValidationError::InvalidEmail);
        }
        Ok(NewSubscriber { email: form.email, name: form.name })
    }
}

/// The lifecycle state of a stored subscriber.
#[derive(Debug, Clone, Copy, PartialEq, Eq, Structural)]
pub enum SubscriberStatus {
    PendingConfirmation,
    Confirmed,
}

impl SubscriberStatus {
    /// The label under which the status is persisted.
    pub fn as_str(&self) -> (r: &'static str)
        ensures
            r@ == status_label(*self)@,
    {
        match self {
            SubscriberStatus::PendingConfirmation => "pending_confirmation",
            SubscriberStatus::Confirmed => "confirmed",
        }
    }

    /// Reads a persisted label back; `None` for any other text.
    pub fn from_label(label: &str) -> (r: Option<SubscriberStatus>)
        ensures
            label@ == "pending_confirmation"@ ==> r == Some(SubscriberStatus::PendingConfirmation),
            label@ == "confirmed"@ ==> r == Some(SubscriberStatus::Confirmed),
            r matches Some(st) ==> label@ == status_label(st)@,
    {
        let pending = "pending_confirmation";
        let confirmed = "confirmed";
        proof {
            reveal_strlit("pending_confirmation");
            reveal_strlit("confirmed");
            assert(pending@[0] != confirmed@[0]);
        }
        if str_eq(label, pending) {
            Some(SubscriberStatus::PendingConfirmation)
        } else if str_eq(label, confirmed) {
            Some(SubscriberStatus::Confirmed)
        } else {
            None
        }
    }
}

/// The persisted label of each status.
pub open spec fn status_label(st: SubscriberStatus) -> &'static str {
    match st {
        SubscriberStatus::PendingConfirmation => "pending_confirmation",
        SubscriberStatus::Confirmed => "confirmed",
    }
}

/// Character-wise equality of two strings.
pub fn str_eq(a: &str, b: &str) -> (r: bool)
    ensures
        r == (a@ == b@),
{
    let va = chars_of(a);
    let vb = chars_of(b);
    if va.len() != vb.len() {
        return false;
    }
    let mut i: usize = 0;
    while i < va.len()
        invariant
            va@ == a@,
            vb@ == b@,
            va@.len() == vb@.len(),
            i <= va@.len(),
            forall|j: int| 0 <= j < i ==> va@[j] == vb@[j],
        decreases va@.len() - i,
    {
        if va[i] != vb[i] {
            return false;
        }
        i = i + 1;
    }
    assert(a@ =~= b@);
    true
}

} // verus!
