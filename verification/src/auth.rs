//! The admin sign-in check: HTTP Basic credentials read from an
//! `Authorization` header and compared with the configured admin account.

use base64::Engine;
use vstd::prelude::*;

verus! {

/// Proof that a request comes from the site's admin.
pub struct AdminUser();

/// A byte that `http::HeaderValue::to_str` accepts: visible ASCII or a tab.
pub open spec fn is_visible_ascii(b: u8) -> bool {
    (32 <= b && b < 127) || b == 9
}

/// A header value that reads as text (`HeaderValue::to_str` succeeds on it
/// exactly when every byte is visible ASCII).
pub open spec fn header_is_text(header: Seq<u8>) -> bool {
    forall|i: int| 0 <= i < header.len() ==> is_visible_ascii(#[trigger] header[i])
}

/// The bytes of `"Basic "`, the prefix of the Basic scheme.
pub open spec fn basic_prefix() -> Seq<u8> {
    seq![66u8, 97u8, 115u8, 105u8, 99u8, 32u8]
}

/// What `base64`'s `BASE64_STANDARD` engine decodes `encoded` to (standard
/// alphabet, canonical padding required), or `None` where it refuses.
pub uninterp spec fn base64_standard_decode(encoded: Seq<u8>) -> Option<Seq<u8>>;

/// The text that `String::from_utf8_lossy` makes of `bytes`, invalid
/// sequences replaced by U+FFFD.
pub uninterp spec fn utf8_lossy(bytes: Seq<u8>) -> Seq<char>;

/// `i` is the position of the first `':'` in `text`.
pub open spec fn is_first_colon(text: Seq<char>, i: int) -> bool {
    &&& 0 <= i < text.len()
    &&& text[i] == ':'
    &&& forall|j: int| 0 <= j < i ==> text[j] != ':'
}

/// `text` cut at its first `':'` into what stands before and after it, as
/// `str::split_once(':')` does; `None` where there is no `':'`.
pub open spec fn split_at_first_colon(text: Seq<char>) -> Option<(Seq<char>, Seq<char>)> {
    if exists|i: int| is_first_colon(text, i) {
        let i = choose|i: int| is_first_colon(text, i);
        Some((text.subrange(0, i), text.subrange(i + 1, text.len() as int)))
    } else {
        None
    }
}

/// The user and password that an `Authorization` header carries under the
/// Basic scheme, or `None` where it carries none.
pub open spec fn basic_credentials(header: Seq<u8>) -> Option<(Seq<char>, Seq<char>)> {
    if header_is_text(header) && header.len() >= 6 && header.subrange(0, 6) == basic_prefix() {
        match base64_standard_decode(header.subrange(6, header.len() as int)) {
            Some(decoded) => split_at_first_colon(utf8_lossy(decoded)),
            None => None,
        }
    } else {
        None
    }
}

/// The request with this `Authorization` header (if any) signs in as the
/// admin `user` with `password`.
pub open spec fn admits_admin(header: Option<Seq<u8>>, user: Seq<char>, password: Seq<char>) -> bool {
    match header {
        Some(h) => basic_credentials(h) == Some((user, password)),
        None => false,
    }
}

/// The bytes of a header value, where there is one.
pub open spec fn header_view(authorization: Option<&[u8]>) -> Option<Seq<u8>> {
    match authorization {
        Some(h) => Some(h@),
        None => None,
    }
}

/// Calls `BASE64_STANDARD.decode` of the `base64` crate. The contract ties
/// the result to the name `base64_standard_decode`; which `DecodeError` a
/// refusal carries is dropped.
#[verifier::external_body]
fn decode_base64_standard(encoded: &[u8]) -> (decoded: Option<Vec<u8>>)
    ensures
        decoded matches Some(d) ==> base64_standard_decode(encoded@) == Some(d@),
        decoded is None ==> base64_standard_decode(encoded@) is None,
{
    base64::prelude::BASE64_STANDARD.decode(encoded).ok()
}

/// Calls `String::from_utf8_lossy` of std; the contract names its result
/// `utf8_lossy`.
#[verifier::external_body]
fn lossy_text(bytes: &[u8]) -> (text: String)
    ensures
        text@ == utf8_lossy(bytes@),
{
    String::from_utf8_lossy(bytes).into_owned()
}

/// Whether every byte of the header value is visible ASCII.
fn is_text(header: &[u8]) -> (ok: bool)
    ensures
        ok == header_is_text(header@),
{
    let mut i: usize = 0;
    while i < header.len()
        invariant
            i <= header.len(),
            forall|j: int| 0 <= j < i ==> is_visible_ascii(#[trigger] header@[j]),
        decreases header.len() - i,
    {
        let b = header[i];
        if !((32 <= b && b < 127) || b == 9) {
            return false;
        }
        i = i + 1;
    }
    true
}

/// Whether the header value starts with `"Basic "`.
fn has_basic_prefix(header: &[u8]) -> (ok: bool)
    ensures
        ok == (header@.len() >= 6 && header@.subrange(0, 6) == basic_prefix()),
{
    if header.len() < 6 {
        return false;
    }
    let ok = header[0] == 66 && header[1] == 97 && header[2] == 115 && header[3] == 105
        && header[4] == 99 && header[5] == 32;
    proof {
        if ok {
            assert(header@.subrange(0, 6) =~= basic_prefix());
        } else {
            assert(header@.subrange(0, 6) != basic_prefix()) by {
                if header@.subrange(0, 6) == basic_prefix() {
                    assert(header@.subrange(0, 6)[0] == header@[0]);
                    assert(header@.subrange(0, 6)[1] == header@[1]);
                    assert(header@.subrange(0, 6)[2] == header@[2]);
                    assert(header@.subrange(0, 6)[3] == header@[3]);
                    assert(header@.subrange(0, 6)[4] == header@[4]);
                    assert(header@.subrange(0, 6)[5] == header@[5]);
                }
            }
        }
    }
    ok
}

/// Only one position can be the first `':'`.
proof fn lemma_first_colon_unique(text: Seq<char>, i: int, j: int)
    requires
        is_first_colon(text, i),
        is_first_colon(text, j),
    ensures
        i == j,
{
}

/// The position of the first `':'` in `text`, if there is one.
fn find_first_colon(text: &str) -> (pos: Option<usize>)
    ensures
        pos matches Some(i) ==> is_first_colon(text@, i as int),
        pos is None ==> !exists|i: int| is_first_colon(text@, i),
{
    let n = text.unicode_len();
    let mut i: usize = 0;
    while i < n
        invariant
            n == text@.len(),
            i <= n,
            forall|j: int| 0 <= j < i ==> text@[j] != ':',
        decreases n - i,
    {
        if text.get_char(i) == ':' {
            return Some(i);
        }
        i = i + 1;
    }
    None
}

/// Cuts decoded credentials at their first `':'` into user and password,
/// as `str::split_once(':')` does.
pub fn split_credentials(credentials: &str) -> (parts: Option<(String, String)>)
    ensures
        match parts {
            Some((user, password)) => split_at_first_colon(credentials@) == Some(
                (user@, password@),
            ),
            None => split_at_first_colon(credentials@) is None,
        },
{
    match find_first_colon(credentials) {
        Some(i) => {
            proof {
                let k = choose|k: int| is_first_colon(credentials@, k);
                lemma_first_colon_unique(credentials@, i as int, k);
            }
            let n = credentials.unicode_len();
            let user = credentials.substring_char(0, i).to_owned();
            let password = credentials.substring_char(i + 1, n).to_owned();
            Some((user, password))
        },
        None => None,
    }
}

impl AdminUser {
    /// Signs in with decoded Basic credentials (`user:password`): `Some`
    /// exactly when they name the admin's user (`admin_details.0`) and
    /// password (`admin_details.1`).
    pub fn from_credentials(credentials: &str, admin_details: &(String, String)) -> (admin: Option<
        AdminUser,
    >)
        ensures
            admin is Some <==> split_at_first_colon(credentials@) == Some(
                (admin_details.0@, admin_details.1@),
            ),
    {
        match split_credentials(credentials) {
            Some((user, password)) => {
                if user == admin_details.0 && password == admin_details.1 {
                    Some(AdminUser())
                } else {
                    None
                }
            },
            None => None,
        }
    }

    /// Signs a request in as the admin: `Some` exactly when its
    /// `Authorization` header carries, under the Basic scheme, the admin's
    /// user and password (`admin_details.0` and `admin_details.1`).
    pub fn authorize(authorization: Option<&[u8]>, admin_details: &(String, String)) -> (admin:
        Option<AdminUser>)
        ensures
            admin is Some <==> admits_admin(
                header_view(authorization),
                admin_details.0@,
                admin_details.1@,
            ),
    {
        let header = match authorization {
            Some(h) => h,
            None => return None,
        };
        if !is_text(header) || !has_basic_prefix(header) {
            return None;
        }
        let (_, encoded) = header.split_at(6);
        assert(encoded@ =~= header@.subrange(6, header@.len() as int));
        let decoded = match decode_base64_standard(encoded) {
            Some(d) => d,
            None => return None,
        };
        let credentials = lossy_text(decoded.as_slice());
        AdminUser::from_credentials(credentials.as_str(), admin_details)
    }
}

/// Law: an admin account whose user name holds a `':'` can never sign in,
/// since the user name ends at the first `':'` of the credentials.
pub proof fn law_user_with_colon_never_admitted(
    header: Option<Seq<u8>>,
    user: Seq<char>,
    password: Seq<char>,
)
    requires
        user.contains(':'),
    ensures
        !admits_admin(header, user, password),
{
    if let Some(h) = header {
        if let Some((u, p)) = basic_credentials(h) {
            if u == user {
                let decoded = base64_standard_decode(h.subrange(6, h.len() as int))->Some_0;
                let text = utf8_lossy(decoded);
                let i = choose|i: int| is_first_colon(text, i);
                let k = choose|k: int| 0 <= k < user.len() && user[k] == ':';
                assert(text[k] == u[k]);
            }
        }
    }
}

/// Law: credentials joined as `user ":" password`, with no `':'` in the
/// user, are cut back into that user and that password, whatever the
/// password holds (colons included).
pub proof fn law_split_recovers_joined_credentials(user: Seq<char>, password: Seq<char>)
    requires
        !user.contains(':'),
    ensures
        split_at_first_colon(user + seq![':'] + password) == Some((user, password)),
{
    let text = user + seq![':'] + password;
    let n = user.len() as int;
    assert(is_first_colon(text, n)) by {
        assert forall|j: int| 0 <= j < n implies text[j] != ':' by {
            assert(text[j] == user[j]);
        }
    }
    let i = choose|i: int| is_first_colon(text, i);
    lemma_first_colon_unique(text, i, n);
    assert(text.subrange(0, n) =~= user);
    assert(text.subrange(n + 1, text.len() as int) =~= password);
}

/// Law: the header text check accepts exactly the bytes 32 to 126 and the
/// tab, so every base64 character (`A`-`Z`, `a`-`z`, `0`-`9`, `+`, `/`, `=`)
/// passes it.
pub proof fn law_header_text_is_visible_ascii(header: Seq<u8>)
    ensures
        header_is_text(header) <==> forall|i: int|
            0 <= i < header.len() ==> (32 <= #[trigger] header[i] <= 126 || header[i] == 9),
{
}

/// Law: a header `"Basic "` followed by visible-ASCII text that base64
/// decodes to `user ":" password`, with no `':'` in the user, signs in as
/// that user with that password.
pub proof fn law_basic_header_admits_its_credentials(
    encoded: Seq<u8>,
    user: Seq<char>,
    password: Seq<char>,
)
    requires
        forall|i: int| 0 <= i < encoded.len() ==> 32 <= #[trigger] encoded[i] <= 126,
        !user.contains(':'),
        base64_standard_decode(encoded) matches Some(decoded) && utf8_lossy(decoded) == user
            + seq![':'] + password,
    ensures
        admits_admin(Some(seq![66u8, 97u8, 115u8, 105u8, 99u8, 32u8] + encoded), user, password),
{
    let header = seq![66u8, 97u8, 115u8, 105u8, 99u8, 32u8] + encoded;
    assert forall|i: int| 0 <= i < header.len() implies is_visible_ascii(#[trigger] header[i]) by {
        if i >= 6 {
            assert(header[i] == encoded[i - 6]);
        }
    }
    assert(header.subrange(0, 6) =~= basic_prefix());
    assert(header.subrange(6, header.len() as int) =~= encoded);
    law_split_recovers_joined_credentials(user, password);
}

/// Law: without an `Authorization` header nobody signs in.
pub proof fn law_no_header_not_admitted(user: Seq<char>, password: Seq<char>)
    ensures
        !admits_admin(None, user, password),
{
}

} // verus!
