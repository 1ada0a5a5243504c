//! Checks and clean-ups applied to the fields of a registration request.
use vstd::prelude::*;

verus! {

/// Shortest accepted password, in characters.
pub const MIN_PASSWORD_CHARS: usize = 10;

/// Longest accepted password, in characters.
pub const MAX_PASSWORD_CHARS: usize = 60;

/// Shortest accepted actor name, in characters.
pub const MIN_ACTOR_NAME_CHARS: usize = 3;

/// A password is accepted when its length in characters lies in the policy's range.
pub open spec fn password_ok(password: Seq<char>) -> bool {
    MIN_PASSWORD_CHARS <= password.len() <= MAX_PASSWORD_CHARS
}

/// Characters allowed in an actor name: ASCII letters, digits and `_`.
pub open spec fn is_actor_name_char(c: char) -> bool {
    ('a' <= c && c <= 'z') || ('A' <= c && c <= 'Z') || ('0' <= c && c <= '9') || c == '_'
}

/// An actor name is at least three allowed characters long and at most `max_len`.
pub open spec fn actor_name_ok(name: Seq<char>, max_len: nat) -> bool {
    &&& MIN_ACTOR_NAME_CHARS <= name.len()
    &&& name.len() <= max_len
    &&& forall|i: int| 0 <= i < name.len() ==> #[trigger] is_actor_name_char(name[i])
}

/// What one character becomes once markup is neutralised.
pub open spec fn escaped_char(c: char) -> Seq<char> {
    if c == '<' {
        "&lt;"@
    } else if c == '>' {
        "&gt;"@
    } else {
        seq![c]
    }
}

/// The text with every `<` and `>` replaced by its HTML entity.
pub open spec fn sanitized(s: Seq<char>) -> Seq<char>
    decreases s.len(),
{
    if s.len() == 0 {
        Seq::empty()
    } else {
        sanitized(s.drop_last()) + escaped_char(s.last())
    }
}

/// Relies on String::push: the character is added at the end.
#[verifier::external_body]
fn push_char(s: &mut String, c: char)
    ensures
        final(s)@ == old(s)@.push(c),
{
    s.push(c);
}

/// Whether the password meets the length policy.
pub fn password_length_check(password: &str) -> (r: bool)
    ensures
        r == password_ok(password@),
{
    let n = password.unicode_len();
    MIN_PASSWORD_CHARS <= n && n <= MAX_PASSWORD_CHARS
}

/// Whether `name` is a well-formed actor name no longer than `max_len` characters.
pub fn is_valid_actor_name(name: &str, max_len: usize) -> (r: bool)
    ensures
        r == actor_name_ok(name@, max_len as nat),
{
    let n = name.unicode_len();
    if n < MIN_ACTOR_NAME_CHARS || n > max_len {
        return false;
    }
    let mut i: usize = 0;
    while i < n
        invariant
            n == name@.len(),
            i <= n,
            forall|j: int| 0 <= j < i ==> #[trigger] is_actor_name_char(name@[j]),
        decreases n - i,
    {
        let c = name.get_char(i);
        let ok = ('a' <= c && c <= 'z') || ('A' <= c && c <= 'Z') || ('0' <= c && c <= '9')
            || c == '_';
        if !ok {
            assert(!is_actor_name_char(name@[i as int]));
            return false;
        }
        i = i + 1;
    }
    true
}

/// Neutralises markup in user-supplied text.
pub fn sanitize_html(text: &str) -> (r: String)
    ensures
        r@ == sanitized(text@),
{
    let n = text.unicode_len();
    let mut out = String::new();
    let mut i: usize = 0;
    while i < n
        invariant
            n == text@.len(),
            i <= n,
            out@ == sanitized(text@.subrange(0, i as int)),
        decreases n - i,
    {
        let c = text.get_char(i);
        assert(text@.subrange(0, i + 1).drop_last() == text@.subrange(0, i as int));
        if c == '<' {
            out.append("&lt;");
        } else if c == '>' {
            out.append("&gt;");
        } else {
            push_char(&mut out, c);
        }
        i = i + 1;
    }
    assert(text@.subrange(0, n as int) == text@);
    out
}

} // verus!
