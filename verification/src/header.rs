//! Default headers of the client: the `Basic` authorization value, the user
//! agent, and the rule that a header set later replaces one of the same name.

use vstd::prelude::*;
use vstd::string::*;
use vstd::utf8::encode_utf8;
use crate::auth::CredentialsView;
use crate::text::to_chars;

verus! {

/// One header: its name, and its value as bytes.
#[derive(Debug, Clone, PartialEq, Eq)]
pub struct Header {
    pub name: String,
    pub value: Vec<u8>,
}

impl View for Header {
    type V = (Seq<char>, Seq<u8>);

    open spec fn view(&self) -> (Seq<char>, Seq<u8>) {
        (self.name@, self.value@)
    }
}

/// The names and values of a list of headers, in order.
pub open spec fn header_views(headers: Seq<Header>) -> Seq<(Seq<char>, Seq<u8>)> {
    headers.map_values(|header: Header| header@)
}

/// The name of the authorization header.
pub open spec fn authorization_name() -> Seq<char> {
    "authorization"@
}

/// The name of the user agent header.
pub open spec fn user_agent_name() -> Seq<char> {
    "user-agent"@
}

/// The user agent that the client sends where none is configured.
pub open spec fn default_user_agent() -> Seq<char> {
    "kaggle/0.1.0"@
}

/// The largest number of bytes that a user name, or a key, may have for the
/// authorization value to be made: the encoded value has to fit the address
/// space.
pub const MAX_CREDENTIAL_BYTES: usize = usize::MAX / 8;

/// Whether a header value may hold the byte: anything from the space on but
/// DEL, and the tab.
pub open spec fn valid_header_byte(b: u8) -> bool {
    (b >= 32 && b != 127) || b == 9
}

/// Whether every byte may stand in a header value.
pub open spec fn valid_header_value(bytes: Seq<u8>) -> bool {
    forall|i: int| 0 <= i < bytes.len() ==> valid_header_byte(#[trigger] bytes[i])
}

/// An ASCII upper-case letter as its lower-case one; any other character as
/// it is.
pub open spec fn ascii_lower(c: char) -> u32 {
    if 65 <= c as u32 && c as u32 <= 90 {
        (c as u32 + 32) as u32
    } else {
        c as u32
    }
}

/// Whether two header names are the same, ASCII case aside.
pub open spec fn same_name(a: Seq<char>, b: Seq<char>) -> bool {
    &&& a.len() == b.len()
    &&& forall|i: int| 0 <= i < a.len() ==> ascii_lower(#[trigger] a[i]) == ascii_lower(b[i])
}

/// The headers without those of the given name.
pub open spec fn without_name(headers: Seq<(Seq<char>, Seq<u8>)>, name: Seq<char>) -> Seq<
    (Seq<char>, Seq<u8>),
>
    decreases headers.len(),
{
    if headers.len() == 0 {
        Seq::empty()
    } else if same_name(headers.last().0, name) {
        without_name(headers.drop_last(), name)
    } else {
        without_name(headers.drop_last(), name).push(headers.last())
    }
}

/// The headers with `name` set to `value`: earlier headers of that name go,
/// the new one comes last.
pub open spec fn with_header(
    headers: Seq<(Seq<char>, Seq<u8>)>,
    name: Seq<char>,
    value: Seq<u8>,
) -> Seq<(Seq<char>, Seq<u8>)> {
    without_name(headers, name).push((name, value))
}

/// A header that is set is the only one of its name: it stands last, and no
/// header before it has the name, ASCII case aside.
pub proof fn lemma_with_header_is_unique(
    headers: Seq<(Seq<char>, Seq<u8>)>,
    name: Seq<char>,
    value: Seq<u8>,
)
    ensures
        with_header(headers, name, value).len() >= 1,
        with_header(headers, name, value).last() == (name, value),
        forall|i: int|
            0 <= i < with_header(headers, name, value).len() - 1 ==> !same_name(
                (#[trigger] with_header(headers, name, value)[i]).0,
                name,
            ),
{
    lemma_without_name(headers, name);
}

/// What is left without a name holds no header of that name, holds every
/// header of another name, and holds nothing new.
pub proof fn lemma_without_name(headers: Seq<(Seq<char>, Seq<u8>)>, name: Seq<char>)
    ensures
        without_name(headers, name).len() <= headers.len(),
        forall|i: int|
            0 <= i < without_name(headers, name).len() ==> !same_name(
                (#[trigger] without_name(headers, name)[i]).0,
                name,
            ),
        forall|i: int|
            0 <= i < without_name(headers, name).len() ==> headers.contains(
                #[trigger] without_name(headers, name)[i],
            ),
        forall|i: int|
            0 <= i < headers.len() && !same_name((#[trigger] headers[i]).0, name)
                ==> without_name(headers, name).contains(headers[i]),
    decreases headers.len(),
{
    if headers.len() > 0 {
        let front = headers.drop_last();
        let kept = without_name(front, name);
        let out = without_name(headers, name);
        lemma_without_name(front, name);
        assert forall|i: int| 0 <= i < out.len() implies headers.contains(#[trigger] out[i]) by {
            if i < kept.len() {
                let k = choose|k: int| 0 <= k < front.len() && front[k] == kept[i];
                assert(headers[k] == out[i]);
            } else {
                assert(headers[headers.len() - 1] == out[i]);
            }
        }
        assert forall|i: int|
            0 <= i < headers.len() && !same_name((#[trigger] headers[i]).0, name) implies out.contains(
            headers[i],
        ) by {
            if i < front.len() {
                let k = choose|k: int| 0 <= k < kept.len() && kept[k] == front[i];
                assert(out[k] == headers[i]);
            } else {
                assert(out[out.len() - 1] == headers[i]);
            }
        }
    }
}

/// What `base64` makes of the bytes with its standard alphabet and padding.
pub uninterp spec fn base64_standard(input: Seq<u8>) -> Seq<u8>;

/// The bytes that are encoded for the authorization value: the user name, a
/// colon, the key.
pub open spec fn credential_bytes(credentials: CredentialsView) -> Seq<u8> {
    encode_utf8(credentials.user_name) + seq![58u8] + encode_utf8(credentials.key)
}

/// Whether the user name and the key are short enough to be encoded.
pub open spec fn encodable(credentials: CredentialsView) -> bool {
    &&& encode_utf8(credentials.user_name).len() <= MAX_CREDENTIAL_BYTES
    &&& encode_utf8(credentials.key).len() <= MAX_CREDENTIAL_BYTES
}

/// The bytes of `Basic` and a space.
pub open spec fn basic_prefix() -> Seq<u8> {
    seq![66u8, 97u8, 115u8, 105u8, 99u8, 32u8]
}

/// The value of the authorization header: `Basic`, a space, and the encoded
/// credentials.
pub open spec fn basic_authorization(credentials: CredentialsView) -> Seq<u8> {
    basic_prefix() + base64_standard(credential_bytes(credentials))
}

/// Calls `base64::encode_config` with `base64::STANDARD`. The outside
/// function panics where the size of its output does not fit a `usize`, so
/// the input is kept short enough for it to fit. The contract claims only
/// that the bytes are those that `base64_standard` names for the input.
#[verifier::external_body]
pub(crate) fn encode_base64(input: &[u8]) -> (r: Vec<u8>)
    requires
        (input@.len() / 3 + 1) * 4 <= usize::MAX,
    ensures
        r@ == base64_standard(input@),
{
    base64::encode_config(input, base64::STANDARD).into_bytes()
}

/// Appends the bytes of `more` to `out`.
pub(crate) fn push_all(out: &mut Vec<u8>, more: &[u8])
    ensures
        final(out)@ == old(out)@ + more@,
{
    let mut i: usize = 0;
    while i < more.len()
        invariant
            i <= more.len(),
            out@ == old(out)@ + more@.subrange(0, i as int),
        decreases more.len() - i,
    {
        out.push(more[i]);
        i = i + 1;
    }
}

/// The value of a `Basic` authorization header for credentials that are
/// already encoded.
pub fn basic_value(encoded: &[u8]) -> (r: Vec<u8>)
    ensures
        r@ == basic_prefix() + encoded@,
{
    let mut value: Vec<u8> = Vec::new();
    value.push(66u8);
    value.push(97u8);
    value.push(115u8);
    value.push(105u8);
    value.push(99u8);
    value.push(32u8);
    push_all(&mut value, encoded);
    value
}

/// Whether every byte may stand in a header value.
pub fn is_valid_header_value(bytes: &[u8]) -> (r: bool)
    ensures
        r == valid_header_value(bytes@),
{
    let mut i: usize = 0;
    while i < bytes.len()
        invariant
            i <= bytes.len(),
            forall|j: int| 0 <= j < i ==> valid_header_byte(#[trigger] bytes@[j]),
        decreases bytes.len() - i,
    {
        let b = bytes[i];
        if !((b >= 32 && b != 127) || b == 9) {
            return false;
        }
        i = i + 1;
    }
    true
}

/// Whether two header names are the same, ASCII case aside.
pub fn names_match(a: &str, b: &str) -> (r: bool)
    ensures
        r == same_name(a@, b@),
{
    let x = to_chars(a);
    let y = to_chars(b);
    if x.len() != y.len() {
        return false;
    }
    let mut i: usize = 0;
    while i < x.len()
        invariant
            i <= x.len(),
            x.len() == y.len(),
            x@ == a@,
            y@ == b@,
            forall|j: int| 0 <= j < i ==> ascii_lower(#[trigger] a@[j]) == ascii_lower(b@[j]),
        decreases x.len() - i,
    {
        let p = x[i] as u32;
        let q = y[i] as u32;
        let lp = if 65 <= p && p <= 90 {
            p + 32
        } else {
            p
        };
        let lq = if 65 <= q && q <= 90 {
            q + 32
        } else {
            q
        };
        if lp != lq {
            return false;
        }
        i = i + 1;
    }
    true
}

/// Sets `name` to `value`: headers of that name, ASCII case aside, are
/// removed, and the new header is put last.
pub fn set_header(headers: Vec<Header>, name: &str, value: Vec<u8>) -> (r: Vec<Header>)
    ensures
        header_views(r@) == with_header(header_views(headers@), name@, value@),
{
    let mut out: Vec<Header> = Vec::new();
    let mut rest = headers;
    let ghost all = header_views(rest@);
    let mut i: usize = 0;
    let n = rest.len();
    while i < n
        invariant
            i <= n,
            n == rest.len(),
            header_views(rest@) == all,
            header_views(out@) == without_name(all.subrange(0, i as int), name@),
        decreases n - i,
    {
        let ghost prefix = all.subrange(0, i as int + 1);
        assert(prefix.drop_last() =~= all.subrange(0, i as int));
        if !names_match(rest[i].name.as_str(), name) {
            let kept = Header { name: rest[i].name.clone(), value: copy_bytes(&rest[i].value) };
            out.push(kept);
        }
        i = i + 1;
    }
    assert(all.subrange(0, n as int) =~= all);
    let added = Header { name: name.to_owned(), value };
    out.push(added);
    out
}

/// A copy of the bytes.
pub fn copy_bytes(bytes: &Vec<u8>) -> (r: Vec<u8>)
    ensures
        r@ == bytes@,
{
    let mut out: Vec<u8> = Vec::new();
    push_all(&mut out, bytes.as_slice());
    out
}

} // verus!
