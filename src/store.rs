//! The credential store: where the client identity and the tokens live on disk,
//! and how the identity is written and read back.
use vstd::prelude::*;
use vstd::string::*;
use crate::auth::AuthError;

verus! {

/// `name` inside the directory `base`, as `PathBuf::push` joins a relative name.
pub open spec fn joined(base: Seq<char>, name: Seq<char>) -> Seq<char> {
    if base.len() == 0 || base.last() == '/' {
        base + name
    } else {
        base + "/"@ + name
    }
}

/// The application's data directory under the platform's one, or under the
/// working directory where the platform has none.
pub open spec fn app_dir_of(platform: Option<Seq<char>>) -> Seq<char> {
    joined(
        match platform {
            Some(p) => p,
            None => "./"@,
        },
        "spotic"@,
    )
}

/// Relies on `dirs::data_dir`: the user's data directory, when the platform and
/// the environment give one (read as text, lossily).
#[verifier::external_body]
fn platform_data_dir() -> (r: Option<String>) {
    dirs::data_dir().map(|p| p.to_string_lossy().into_owned())
}

/// Join `name` onto the directory `base`.
pub fn join(base: &str, name: &str) -> (r: String)
    ensures
        r@ == joined(base@, name@),
{
    let n = base.unicode_len();
    let mut r = String::from_str(base);
    if n > 0 && base.get_char(n - 1) != '/' {
        r.append("/");
    }
    r.append(name);
    r
}

/// An optional text seen as characters.
pub open spec fn text_option(o: Option<String>) -> Option<Seq<char>> {
    match o {
        Some(s) => Some(s@),
        None => None,
    }
}

/// The application's data directory, given the platform's one if any.
pub fn app_data_dir(platform: Option<String>) -> (r: String)
    ensures
        r@ == app_dir_of(text_option(platform)),
{
    match platform {
        Some(p) => join(p.as_str(), "spotic"),
        None => join("./", "spotic"),
    }
}

/// The directory where the identity and the tokens are stored.
pub fn data_dir() -> (r: String)
    ensures
        exists|p: Option<Seq<char>>| r@ == app_dir_of(p),
{
    let platform = platform_data_dir();
    let ghost p = text_option(platform);
    let r = app_data_dir(platform);
    assert(r@ == app_dir_of(p));
    r
}

/// The file that holds the tokens.
pub fn tokens_path() -> (r: String)
    ensures
        exists|p: Option<Seq<char>>| r@ == joined(app_dir_of(p), "tokens.json"@),
{
    let dir = data_dir();
    join(dir.as_str(), "tokens.json")
}

/// The file that holds the client identity.
pub fn credentials_path() -> (r: String)
    ensures
        exists|p: Option<Seq<char>>| r@ == joined(app_dir_of(p), "credentials.json"@),
{
    let dir = data_dir();
    join(dir.as_str(), "credentials.json")
}

/// The long-lived identity of this application with the provider.
pub struct ClientCredentials {
    pub client_id: String,
}

impl ClientCredentials {
    pub fn new(client_id: String) -> (r: ClientCredentials)
        ensures
            r.client_id == client_id,
    {
        ClientCredentials { client_id }
    }
}

/// A hexadecimal digit, in lower case.
pub open spec fn hex_digit(d: nat) -> char {
    if d < 10 {
        ((d + '0' as nat) as u8) as char
    } else {
        ((d - 10 + 'a' as nat) as u8) as char
    }
}

/// How a JSON string writes one character: `"` and `\` with a backslash,
/// backspace, tab, line feed, form feed and carriage return by their letter,
/// other control characters as `\u00` and two hexadecimal digits, and anything
/// else as it is.
pub open spec fn escape_char(c: char) -> Seq<char> {
    if c == '"' {
        seq!['\\', '"']
    } else if c == '\\' {
        seq!['\\', '\\']
    } else if c == '\u{8}' {
        seq!['\\', 'b']
    } else if c == '\t' {
        seq!['\\', 't']
    } else if c == '\n' {
        seq!['\\', 'n']
    } else if c == '\u{c}' {
        seq!['\\', 'f']
    } else if c == '\r' {
        seq!['\\', 'r']
    } else if (c as nat) < 32 {
        seq!['\\', 'u', '0', '0', hex_digit(c as nat / 16), hex_digit(c as nat % 16)]
    } else {
        seq![c]
    }
}

/// The characters of `s`, each escaped as a JSON string writes it.
pub open spec fn json_escaped(s: Seq<char>) -> Seq<char>
    decreases s.len(),
{
    if s.len() == 0 {
        Seq::empty()
    } else {
        escape_char(s[0]) + json_escaped(s.drop_first())
    }
}

/// The JSON string literal for `s`: quoted and escaped.
pub open spec fn json_quoted(s: Seq<char>) -> Seq<char> {
    seq!['"'] + json_escaped(s) + seq!['"']
}

/// A JSON object with one member, written without whitespace.
pub open spec fn json_object1(key: Seq<char>, value: Seq<char>) -> Seq<char> {
    seq!['{'] + json_quoted(key) + seq![':'] + json_quoted(value) + seq!['}']
}

/// Relies on `serde_json::to_string` on a `str`: the quoted string with the
/// escapes of its `ESCAPE` table; writing a `str` into memory cannot fail.
#[verifier::external_body]
fn json_string(s: &str) -> (r: String)
    ensures
        r@ == json_quoted(s@),
{
    match serde_json::to_string(s) {
        Ok(t) => t,
        Err(_) => String::new(),
    }
}

/// The stored form of a client identity.
pub open spec fn credentials_json(client_id: Seq<char>) -> Seq<char> {
    json_object1("client_id"@, client_id)
}

/// Write a client identity as a JSON object with its `client_id`.
pub fn encode_credentials(c: &ClientCredentials) -> (r: String)
    ensures
        r@ == credentials_json(c.client_id@),
{
    let key = json_string("client_id");
    let value = json_string(c.client_id.as_str());
    let mut t = String::from_str("{");
    t.append(key.as_str());
    t.append(":");
    t.append(value.as_str());
    t.append("}");
    proof {
        reveal_strlit("{");
        reveal_strlit(":");
        reveal_strlit("}");
        assert(t@ =~= credentials_json(c.client_id@));
    }
    t
}

/// What `serde_json` finds under `key` in a text: the member's string when the
/// text is a JSON object whose member `key` is a string.
pub uninterp spec fn json_member_text_of(text: Seq<char>, key: Seq<char>) -> Option<Seq<char>>;

/// Relies on `serde_json::from_str::<Value>`, `Value::get` and `Value::as_str`:
/// the string member `key` of the JSON object that `text` holds, if it is one.
/// The empty text holds no JSON; an object of one member written as `to_string`
/// writes it holds that member.
#[verifier::external_body]
fn json_member_text(text: &str, key: &str) -> (r: Option<String>)
    ensures
        text_option(r) == json_member_text_of(text@, key@),
        text@.len() == 0 ==> r is None,
        forall|v: Seq<char>| #[trigger] json_object1(key@, v) == text@ ==> text_option(r) == Some(v),
{
    serde_json::from_str::<serde_json::Value>(text)
        .ok()
        .and_then(|doc| doc.get(key).and_then(|m| m.as_str()).map(String::from))
}

/// Read a client identity back from its stored form: the string member
/// `client_id` of a JSON object. Anything else is corrupt.
pub fn decode_credentials(text: &str) -> (r: Result<ClientCredentials, AuthError>)
    ensures
        r is Ok <==> json_member_text_of(text@, "client_id"@) is Some,
        r matches Ok(c) ==> json_member_text_of(text@, "client_id"@) == Some(c.client_id@),
        r is Err ==> r == Err::<ClientCredentials, AuthError>(AuthError::Corruption),
        text@.len() == 0 ==> r is Err,
        forall|id: Seq<char>| #[trigger] credentials_json(id) == text@ ==> (r matches Ok(c)
            && c.client_id@ == id),
{
    match json_member_text(text, "client_id") {
        None => Err(AuthError::Corruption),
        Some(id) => Ok(ClientCredentials { client_id: id }),
    }
}

/// What reading a stored file gave.
pub enum StoredFile {
    /// There is no such file.
    Absent,
    /// The file exists but could not be read.
    Unreadable,
    /// The file's text.
    Text(String),
}

/// What loading an identity from the text `t` of its file gives: the string
/// member `client_id` when there is one, else a corruption error. The stored form
/// of an identity loads back as that identity.
pub open spec fn loads_from_text(t: Seq<char>, r: Result<ClientCredentials, AuthError>) -> bool {
    &&& r is Ok <==> json_member_text_of(t, "client_id"@) is Some
    &&& r matches Ok(c) ==> json_member_text_of(t, "client_id"@) == Some(c.client_id@)
    &&& r is Err ==> r == Err::<ClientCredentials, AuthError>(AuthError::Corruption)
    &&& t.len() == 0 ==> r is Err
    &&& forall|id: Seq<char>| #[trigger] credentials_json(id) == t ==> (r matches Ok(c)
        && c.client_id@ == id)
}

/// Load the client identity from what reading its file gave: a missing file
/// is `NotFound`, an unreadable one `Storage`, and a text is decoded.
pub fn load_identity_from(file: StoredFile) -> (r: Result<ClientCredentials, AuthError>)
    ensures
        file is Absent ==> r == Err::<ClientCredentials, AuthError>(AuthError::NotFound),
        file is Unreadable ==> r == Err::<ClientCredentials, AuthError>(AuthError::Storage),
        file matches StoredFile::Text(t) ==> loads_from_text(t@, r),
{
    match file {
        StoredFile::Absent => Err(AuthError::NotFound),
        StoredFile::Unreadable => Err(AuthError::Storage),
        StoredFile::Text(t) => decode_credentials(t.as_str()),
    }
}

/// Saving an identity and loading it back gives the same identity: the text
/// that `encode_credentials` writes for it loads as that identity, never as an
/// error.
pub proof fn lemma_identity_round_trip(
    c: ClientCredentials,
    saved: Seq<char>,
    r: Result<ClientCredentials, AuthError>,
)
    requires
        saved == credentials_json(c.client_id@),
        loads_from_text(saved, r),
    ensures
        r matches Ok(d) && d.client_id@ == c.client_id@,
{
}

/// A stored identity file cut down to nothing loads as corrupt, not as missing.
pub proof fn lemma_truncated_identity_is_corrupt(r: Result<ClientCredentials, AuthError>)
    requires
        loads_from_text(Seq::empty(), r),
    ensures
        r == Err::<ClientCredentials, AuthError>(AuthError::Corruption),
{
}

} // verus!
