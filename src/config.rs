//! Looking up the signer's settings in the module's TOML configuration.
use vstd::prelude::*;
use vstd::string::*;
use vstd::utf8::encode_utf8;
use crate::error::ConfigError;

verus! {

#[verifier::external_type_specification]
#[verifier::external_body]
pub struct ExTomlValue(toml::Value);

#[verifier::external_type_specification]
#[verifier::external_body]
pub struct ExTomlError(toml::de::Error);

/// The top-level entries of a TOML document, or `None` where the text is not
/// one. Each entry is the value's text where the value is a string, and
/// `None` where it is of another type.
pub uninterp spec fn toml_top_level(text: Seq<char>) -> Option<Map<Seq<char>, Option<Seq<char>>>>;

/// The entries of a parsed TOML table, in the same form.
pub uninterp spec fn toml_entries(doc: toml::Value) -> Map<Seq<char>, Option<Seq<char>>>;

/// The most nesting marks that a configuration may hold.
pub const MAX_NESTING_MARKS: usize = 128;

/// Whether a byte opens a level of nesting in TOML: `[` (an array or a table
/// header), `{` (an inline table) or `.` (a dotted key).
pub open spec fn is_nesting_mark(b: u8) -> bool {
    b == 0x5b || b == 0x7b || b == 0x2e
}

/// How many nesting marks the bytes hold. Each level of nesting in a TOML
/// document needs at least one, so this bounds how deep a document nests.
pub open spec fn nesting_marks(b: Seq<u8>) -> nat
    decreases b.len(),
{
    if b.len() == 0 {
        0
    } else {
        nesting_marks(b.drop_last()) + if is_nesting_mark(b.last()) { 1nat } else { 0nat }
    }
}

/// Whether the parser may be handed this text: its nesting is bounded.
pub open spec fn parse_allowed(text: Seq<char>) -> bool {
    nesting_marks(encode_utf8(text)) <= MAX_NESTING_MARKS
}

/// The string under `field` in the configuration text, where there is one.
pub open spec fn field_of(text: Seq<char>, field: Seq<char>) -> Option<Seq<char>> {
    if !parse_allowed(text) {
        None
    } else {
        match toml_top_level(text) {
            None => None,
            Some(entries) => if entries.contains_key(field) {
                entries[field]
            } else {
                None
            },
        }
    }
}

/// The signer's executable and working directory that the configuration
/// text gives, where it gives both.
pub open spec fn settings_of(text: Seq<char>) -> Option<(Seq<char>, Seq<char>)> {
    match (field_of(text, "authenticator_path"@), field_of(text, "win_mnt"@)) {
        (Some(path), Some(mnt)) => Some((path, mnt)),
        _ => None,
    }
}

/// Relies on `toml::Value`'s `FromStr`, which parses a whole document. The
/// parser recurses once per level of nesting, so the text's nesting is
/// bounded here to keep it off the end of the stack.
#[verifier::external_body]
fn parse_document(text: &str) -> (r: Result<toml::Value, toml::de::Error>)
    requires
        parse_allowed(text@),
    ensures
        r is Ok <==> toml_top_level(text@) is Some,
        r matches Ok(doc) ==> toml_top_level(text@) == Some(toml_entries(doc)),
{
    text.parse::<toml::Value>()
}

/// Relies on `toml::Value::get`: the entry under `key` of a table, handed out
/// as its text where it is a string.
#[verifier::external_body]
fn table_entry(doc: &toml::Value, key: &str) -> (r: Option<Option<String>>)
    ensures
        r is Some <==> toml_entries(*doc).contains_key(key@),
        r matches Some(e) ==> toml_entries(*doc)[key@] == (match e {
            Some(s) => Some(s@),
            None => None,
        }),
{
    doc.get(key).map(
        |v| match v {
            toml::Value::String(s) => Some(s.clone()),
            _ => None,
        },
    )
}

/// Counts the nesting marks in `b`.
pub fn count_nesting_marks(b: &[u8]) -> (r: usize)
    ensures
        r == nesting_marks(b@),
{
    let mut n: usize = 0;
    let mut i: usize = 0;
    while i < b.len()
        invariant
            i <= b@.len(),
            n == nesting_marks(b@.subrange(0, i as int)),
            n <= i,
        decreases b@.len() - i,
    {
        assert(b@.subrange(0, i as int + 1).drop_last() =~= b@.subrange(0, i as int));
        if b[i] == 0x5b || b[i] == 0x7b || b[i] == 0x2e {
            n = n + 1;
        }
        i = i + 1;
    }
    assert(b@.subrange(0, b@.len() as int) =~= b@);
    n
}

/// The string under `field` in the configuration text: `TooNested` where the
/// text holds too many nesting marks to be parsed safely, `Toml` where it is
/// not a TOML document, `MissingField` where the field is absent,
/// `InvalidValueType` where its value is not a string.
pub fn config_value(text: &str, field: &str) -> (r: Result<String, ConfigError>)
    ensures
        !parse_allowed(text@) <==> r matches Err(ConfigError::TooNested),
        parse_allowed(text@) ==> (toml_top_level(text@) is None <==> r matches Err(ConfigError::Toml(_))),
        parse_allowed(text@) ==> match toml_top_level(text@) {
            None => true,
            Some(entries) => if !entries.contains_key(field@) {
                r matches Err(ConfigError::MissingField(f)) && f@ == field@
            } else if entries[field@] is None {
                r matches Err(ConfigError::InvalidValueType(f)) && f@ == field@
            } else {
                r matches Ok(s) && Some(s@) == entries[field@]
            },
        },
        r is Ok <==> field_of(text@, field@) is Some,
        r matches Ok(s) ==> field_of(text@, field@) == Some(s@),
{
    if count_nesting_marks(text.as_bytes()) > MAX_NESTING_MARKS {
        return Err(ConfigError::TooNested);
    }
    let doc = match parse_document(text) {
        Ok(doc) => doc,
        Err(e) => return Err(ConfigError::Toml(e)),
    };
    match table_entry(&doc, field) {
        None => Err(ConfigError::MissingField(field.to_owned())),
        Some(None) => Err(ConfigError::InvalidValueType(field.to_owned())),
        Some(Some(s)) => Ok(s),
    }
}

/// The signer's settings: where its executable is, and the directory it
/// runs in.
pub struct SignerSettings {
    pub authenticator_path: String,
    pub win_mnt: String,
}

/// Both settings, looked up in that order; the first that fails decides the
/// error.
pub fn signer_settings(text: &str) -> (r: Result<SignerSettings, ConfigError>)
    ensures
        r is Ok <==> settings_of(text@) is Some,
        r matches Ok(s) ==> settings_of(text@) == Some((s.authenticator_path@, s.win_mnt@)),
        !parse_allowed(text@) ==> r matches Err(ConfigError::TooNested),
        ({
            let path = "authenticator_path"@;
            let mnt = "win_mnt"@;
            parse_allowed(text@) ==> match toml_top_level(text@) {
                None => r matches Err(ConfigError::Toml(_)),
                Some(entries) => if !entries.contains_key(path) {
                    r matches Err(ConfigError::MissingField(f)) && f@ == path
                } else if entries[path] is None {
                    r matches Err(ConfigError::InvalidValueType(f)) && f@ == path
                } else if !entries.contains_key(mnt) {
                    r matches Err(ConfigError::MissingField(f)) && f@ == mnt
                } else if entries[mnt] is None {
                    r matches Err(ConfigError::InvalidValueType(f)) && f@ == mnt
                } else {
                    r is Ok
                },
            }
        }),
{
    let authenticator_path = config_value(text, "authenticator_path")?;
    let win_mnt = config_value(text, "win_mnt")?;
    Ok(SignerSettings { authenticator_path, win_mnt })
}

} // verus!
