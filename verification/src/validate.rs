//! Input validation: the field rules requests are held to before any
//! protocol work, and the masking of secrets for display.

use vstd::prelude::*;
use vstd::string::*;

verus! {

/// Whether the HTML5 rule the email validator implements accepts the string:
/// a function of the characters alone.
pub uninterp spec fn email_valid_of(s: Seq<char>) -> bool;

/// Relies on validator's `ValidateEmail::validate_email` for string slices:
/// a deterministic check of the characters against the HTML5 email rule.
#[verifier::external_body]
pub(crate) fn email_is_valid(s: &str) -> (r: bool)
    ensures
        r == email_valid_of(s@),
{
    validator::ValidateEmail::validate_email(&s)
}

/// Whether the URL validator accepts the string: a function of the
/// characters alone.
pub uninterp spec fn url_valid_of(s: Seq<char>) -> bool;

/// Relies on validator's `ValidateUrl::validate_url` for string slices: a
/// deterministic check that the string parses as an absolute URL.
#[verifier::external_body]
pub(crate) fn url_is_valid(s: &str) -> (r: bool)
    ensures
        r == url_valid_of(s@),
{
    validator::ValidateUrl::validate_url(&s)
}

/// A string that begins or ends with a space, which padded fields reject.
pub open spec fn spec_has_padding(s: Seq<char>) -> bool {
    s.len() > 0 && (s[0] == ' ' || s[s.len() - 1] == ' ')
}

/// Rejects strings that start or end with a space.
pub fn validate_padding_string(val: &str) -> (r: Result<(), ()>)
    ensures
        r is Ok <==> !spec_has_padding(val@),
{
    let n = val.unicode_len();
    if n == 0 {
        return Ok(());
    }
    if val.get_char(0) == ' ' || val.get_char(n - 1) == ' ' {
        Err(())
    } else {
        Ok(())
    }
}

/// The Unicode control characters (category Cc): U+0000..U+001F and
/// U+007F..U+009F.
pub open spec fn spec_is_control_char(c: char) -> bool {
    (c as u32) < 0x20 || (0x7f <= (c as u32) && (c as u32) <= 0x9f)
}

pub open spec fn spec_has_control_char(s: Seq<char>) -> bool {
    exists|i: int| 0 <= i < s.len() && spec_is_control_char(s[i])
}

/// Whether the string is free of control characters, as every text field of
/// a request must be.
pub fn non_control_character(s: &str) -> (r: bool)
    ensures
        r == !spec_has_control_char(s@),
{
    let n = s.unicode_len();
    let mut i: usize = 0;
    while i < n
        invariant
            n == s@.len(),
            0 <= i <= n,
            forall|j: int| 0 <= j < i ==> !spec_is_control_char(s@[j]),
        decreases n - i,
    {
        let c = s.get_char(i);
        let v = c as u32;
        if v < 0x20 || (0x7f <= v && v <= 0x9f) {
            return false;
        }
        i = i + 1;
    }
    true
}

/// The rule every short name field (username, nickname, application name)
/// obeys: present, 1 to 24 characters, no control characters, no leading or
/// trailing space.
pub open spec fn spec_name_field_valid(s: Seq<char>) -> bool {
    &&& 1 <= s.len() <= 24
    &&& !spec_has_control_char(s)
    &&& !spec_has_padding(s)
}

/// Checks a short name field against its rule.
pub fn validate_name_field(s: &str) -> (r: bool)
    ensures
        r == spec_name_field_valid(s@),
{
    let n = s.unicode_len();
    if n < 1 || n > 24 {
        return false;
    }
    if !non_control_character(s) {
        return false;
    }
    match validate_padding_string(s) {
        Ok(()) => true,
        Err(()) => false,
    }
}

/// The file types an image upload may declare.
pub open spec fn spec_supported_image_type(s: Seq<char>) -> bool {
    ||| s == "gif"@
    ||| s == "bmp"@
    ||| s == "jpg"@
    ||| s == "jpeg"@
    ||| s == "png"@
    ||| s == "webp"@
}

/// Rejects an image type outside the supported set.
pub fn validate_image_type(image_type: &str) -> (r: Result<(), ()>)
    ensures
        r is Ok <==> spec_supported_image_type(image_type@),
{
    if image_type.eq("gif") || image_type.eq("bmp") || image_type.eq("jpg") || image_type.eq(
        "jpeg",
    ) || image_type.eq("png") || image_type.eq("webp") {
        Ok(())
    } else {
        Err(())
    }
}

/// What a masked secret shows: the first eight characters (fewer if the
/// secret is shorter), then four asterisks in place of the rest.
pub open spec fn spec_mask_secret(s: Seq<char>) -> Seq<char> {
    (if s.len() <= 8 {
        s
    } else {
        s.take(8)
    }) + "****"@
}

/// Masks a secret for display in a listing.
pub fn mask_secret(secret: &str) -> (r: String)
    ensures
        r@ == spec_mask_secret(secret@),
{
    let n = secret.unicode_len();
    let visible = if n <= 8 {
        secret.substring_char(0, n)
    } else {
        secret.substring_char(0, 8)
    };
    proof {
        if n <= 8 {
            assert(secret@.subrange(0, n as int) =~= secret@);
        }
    }
    visible.to_owned().concat("****")
}

} // verus!
