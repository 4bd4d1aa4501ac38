//! Classifying a line of text as sensitive, so that diagnostic logs never
//! carry credentials or configuration payloads.
use vstd::prelude::*;
use vstd::string::StringSliceAdditionalSpecFns;
use vstd::utf8::encode_utf8;

verus! {

/// Start of an OpenAI-style API key.
pub const OPENAI_KEY_PREFIX: &'static str = "sk-";

/// Start of a Google API key.
pub const GOOGLE_KEY_PREFIX: &'static str = "AIza";

/// A generic mention of an API key, in any letter case.
pub const API_KEY_MARKER: &'static str = "api_key";

/// The key of a protocol message's type field.
pub const TYPE_KEY: &'static str = "\"type\"";

/// The type of a configuration message.
pub const CONFIG_VALUE: &'static str = "\"config\"";

/// The type of a configuration-change message.
pub const CHANGE_CONFIG_VALUE: &'static str = "\"change_config\"";

/// The byte between a key and its value.
pub const COLON: u8 = 58;

/// The text placed in the log instead of a sensitive line.
pub const REDACTED: &'static str = "[REDACTED SENSITIVE DATA]";

/// What `str::to_lowercase` makes of a text.
pub uninterp spec fn lower_of(s: Seq<char>) -> Seq<char>;

/// `needle` stands in `hay` from position `i` on.
pub open spec fn occurs_at(hay: Seq<u8>, needle: Seq<u8>, i: int) -> bool {
    0 <= i && i + needle.len() <= hay.len() && hay.subrange(i, i + needle.len()) == needle
}

/// `needle` stands somewhere in `hay`.
pub open spec fn contains_bytes(hay: Seq<u8>, needle: Seq<u8>) -> bool {
    exists|i: int| occurs_at(hay, needle, i)
}

/// The encoded text `hay` contains the marker `m`.
pub open spec fn has_marker(hay: Seq<u8>, m: &str) -> bool {
    contains_bytes(hay, m.spec_bytes())
}

/// `b` is JSON whitespace: space, tab, line feed or carriage return.
pub open spec fn is_space(b: u8) -> bool {
    b == 32 || b == 9 || b == 10 || b == 13
}

/// Every byte of `hay` from `from` up to `to` is whitespace (none when the
/// two are equal).
pub open spec fn spaces_between(hay: Seq<u8>, from: int, to: int) -> bool {
    0 <= from <= to <= hay.len() && forall|k: int| from <= k < to ==> is_space(#[trigger] hay[k])
}

/// A configuration message type stands in `hay` at `q`.
pub open spec fn config_value_at(hay: Seq<u8>, q: int) -> bool {
    occurs_at(hay, CONFIG_VALUE.spec_bytes(), q) || occurs_at(hay, CHANGE_CONFIG_VALUE.spec_bytes(), q)
}

/// A type field starts at `i`, with its colon at `p` and its value, a
/// configuration message type, at `q`; only whitespace lies between.
pub open spec fn config_field_via(hay: Seq<u8>, i: int, p: int, q: int) -> bool {
    &&& occurs_at(hay, TYPE_KEY.spec_bytes(), i)
    &&& spaces_between(hay, i + TYPE_KEY.spec_bytes().len(), p)
    &&& p < hay.len()
    &&& hay[p] == COLON
    &&& spaces_between(hay, p + 1, q)
    &&& config_value_at(hay, q)
}

/// A type field equal to `config` or `change_config` starts at `i`, with any
/// spacing around its colon.
pub open spec fn config_field_at(hay: Seq<u8>, i: int) -> bool {
    exists|p: int, q: int| config_field_via(hay, i, p, q)
}

/// `hay` holds a type field equal to `config` or `change_config`.
pub open spec fn has_config_field(hay: Seq<u8>) -> bool {
    exists|i: int| config_field_at(hay, i)
}

/// The sensitivity rule over a text's bytes and the bytes of its lower-case
/// form: a key prefix in the text as written; or, in any letter case, a
/// mention of `api_key` or a configuration message type with any spacing.
pub open spec fn sensitive_parts(raw: Seq<u8>, lowered: Seq<u8>) -> bool {
    has_marker(raw, OPENAI_KEY_PREFIX) || has_marker(raw, GOOGLE_KEY_PREFIX) || has_marker(
        lowered,
        API_KEY_MARKER,
    ) || has_config_field(lowered)
}

/// A text is sensitive when it carries a credential or a configuration payload.
pub open spec fn is_sensitive(text: Seq<char>) -> bool {
    sensitive_parts(encode_utf8(text), encode_utf8(lower_of(text)))
}

/// Relies on `str::to_lowercase`: its result depends on the characters alone.
#[verifier::external_body]
fn lowercase(s: &str) -> (r: String)
    ensures
        r@ == lower_of(s@),
{
    s.to_lowercase()
}

fn matches_at(hay: &[u8], needle: &[u8], i: usize) -> (r: bool)
    requires
        i + needle@.len() <= hay@.len(),
    ensures
        r == (hay@.subrange(i as int, i + needle@.len()) == needle@),
{
    let mut j: usize = 0;
    while j < needle.len()
        invariant
            j <= needle@.len(),
            i + needle@.len() <= hay.len(),
            forall|k: int| 0 <= k < j ==> hay@[i + k] == needle@[k],
        decreases needle@.len() - j,
    {
        if hay[i + j] != needle[j] {
            assert(hay@.subrange(i as int, i + needle@.len())[j as int] != needle@[j as int]);
            return false;
        }
        j = j + 1;
    }
    assert(hay@.subrange(i as int, i + needle@.len()) =~= needle@);
    true
}

/// Whether `needle` occurs in `hay`.
pub fn find_bytes(hay: &[u8], needle: &[u8]) -> (r: bool)
    ensures
        r == contains_bytes(hay@, needle@),
{
    if needle.len() > hay.len() {
        return false;
    }
    let last: usize = hay.len() - needle.len();
    let mut i: usize = 0;
    loop
        invariant
            i <= last,
            last == hay@.len() - needle@.len(),
            forall|k: int| 0 <= k < i ==> !occurs_at(hay@, needle@, k),
        decreases last - i,
    {
        if matches_at(hay, needle, i) {
            assert(occurs_at(hay@, needle@, i as int));
            return true;
        }
        if i == last {
            return false;
        }
        i = i + 1;
    }
}

/// Both configuration message types begin with a quote, which is no
/// whitespace.
proof fn lemma_values_start_with_quote()
    ensures
        CONFIG_VALUE.spec_bytes().len() > 0,
        CONFIG_VALUE.spec_bytes()[0] == 34,
        CHANGE_CONFIG_VALUE.spec_bytes().len() > 0,
        CHANGE_CONFIG_VALUE.spec_bytes()[0] == 34,
{
    reveal_strlit("\"config\"");
    reveal_strlit("\"change_config\"");
    vstd::string::is_ascii_spec_bytes(CONFIG_VALUE);
    vstd::string::is_ascii_spec_bytes(CHANGE_CONFIG_VALUE);
}

/// A run of whitespace that ends at a byte that is not whitespace, or at
/// the end, ends in one place only.
proof fn lemma_space_run_unique(hay: Seq<u8>, from: int, p: int, p2: int)
    requires
        spaces_between(hay, from, p),
        p == hay.len() || !is_space(hay[p]),
        spaces_between(hay, from, p2),
        p2 == hay.len() || !is_space(hay[p2]),
    ensures
        p == p2,
{
    if p < p2 {
        assert(is_space(hay[p]));
    } else if p2 < p {
        assert(is_space(hay[p2]));
    }
}

/// The end of the run of whitespace that starts at `from`.
fn skip_spaces(hay: &[u8], from: usize) -> (p: usize)
    requires
        from <= hay@.len(),
    ensures
        spaces_between(hay@, from as int, p as int),
        p == hay@.len() || !is_space(hay@[p as int]),
{
    let mut p: usize = from;
    while p < hay.len() && (hay[p] == 32 || hay[p] == 9 || hay[p] == 10 || hay[p] == 13)
        invariant
            spaces_between(hay@, from as int, p as int),
        decreases hay@.len() - p,
    {
        p = p + 1;
    }
    p
}

/// Whether `needle` stands in `hay` at `i`.
fn occurs_at_exec(hay: &[u8], needle: &[u8], i: usize) -> (r: bool)
    requires
        i <= hay@.len(),
    ensures
        r == occurs_at(hay@, needle@, i as int),
        r ==> i + needle@.len() <= hay.len(),
{
    needle.len() <= hay.len() - i && matches_at(hay, needle, i)
}

/// Whether a type field equal to `config` or `change_config` starts at `i`.
fn config_field_at_exec(hay: &[u8], i: usize) -> (r: bool)
    requires
        i <= hay@.len(),
    ensures
        r == config_field_at(hay@, i as int),
{
    let key = TYPE_KEY.as_bytes();
    if !occurs_at_exec(hay, key, i) {
        return false;
    }
    let p = skip_spaces(hay, i + key.len());
    if p >= hay.len() || hay[p] != COLON {
        assert forall|p2: int, q2: int| !config_field_via(hay@, i as int, p2, q2) by {
            if config_field_via(hay@, i as int, p2, q2) {
                lemma_space_run_unique(hay@, i + key@.len(), p as int, p2);
            }
        }
        return false;
    }
    let q = skip_spaces(hay, p + 1);
    let found = occurs_at_exec(hay, CONFIG_VALUE.as_bytes(), q) || occurs_at_exec(
        hay,
        CHANGE_CONFIG_VALUE.as_bytes(),
        q,
    );
    proof {
        if found {
            assert(config_field_via(hay@, i as int, p as int, q as int));
        } else {
            lemma_values_start_with_quote();
            assert forall|p2: int, q2: int| !config_field_via(hay@, i as int, p2, q2) by {
                if config_field_via(hay@, i as int, p2, q2) {
                    lemma_space_run_unique(hay@, i + key@.len(), p as int, p2);
                    if occurs_at(hay@, CONFIG_VALUE.spec_bytes(), q2) {
                        assert(hay@[q2] == hay@.subrange(q2, q2 + CONFIG_VALUE.spec_bytes().len())[0]);
                    } else {
                        assert(hay@[q2] == hay@.subrange(q2, q2 + CHANGE_CONFIG_VALUE.spec_bytes().len())[0]);
                    }
                    lemma_space_run_unique(hay@, p + 1, q as int, q2);
                }
            }
        }
    }
    found
}

/// Whether `hay` holds a type field equal to `config` or `change_config`.
pub fn find_config_field(hay: &[u8]) -> (r: bool)
    ensures
        r == has_config_field(hay@),
{
    let mut i: usize = 0;
    loop
        invariant
            i <= hay@.len(),
            forall|k: int| 0 <= k < i ==> !config_field_at(hay@, k),
        decreases hay@.len() - i,
    {
        if config_field_at_exec(hay, i) {
            return true;
        }
        if i == hay.len() {
            assert forall|k: int| !config_field_at(hay@, k) by {
                if k > i {
                    assert forall|p: int, q: int| !config_field_via(hay@, k, p, q) by {}
                }
            }
            return false;
        }
        i = i + 1;
    }
}

/// The sensitivity rule applied to a text and its lower-case form, as
/// produced by `str::to_lowercase`.
pub fn sensitive_in(text: &str, lowered: &str) -> (r: bool)
    ensures
        r == sensitive_parts(text.spec_bytes(), lowered.spec_bytes()),
{
    let raw = text.as_bytes();
    let low = lowered.as_bytes();
    find_bytes(raw, OPENAI_KEY_PREFIX.as_bytes()) || find_bytes(raw, GOOGLE_KEY_PREFIX.as_bytes())
        || find_bytes(low, API_KEY_MARKER.as_bytes()) || find_config_field(low)
}

/// Whether a line must be kept out of the diagnostic log.
pub fn contains_sensitive_data(text: &str) -> (r: bool)
    ensures
        r == is_sensitive(text@),
{
    let lowered = lowercase(text);
    sensitive_in(text, lowered.as_str())
}

/// What the diagnostic log shows of a line: the placeholder when the line is
/// sensitive, the line itself otherwise.
pub fn loggable(text: &str) -> (r: String)
    ensures
        r@ == (if is_sensitive(text@) {
            REDACTED@
        } else {
            text@
        }),
{
    if contains_sensitive_data(text) {
        REDACTED.to_owned()
    } else {
        text.to_owned()
    }
}

/// A text that carries a key prefix as written, or whose lower-case form
/// mentions `api_key` or holds a type field equal to `config` or
/// `change_config` (any whitespace before and after the colon), is
/// sensitive; a text with none of these is not.
pub proof fn law_markers_decide(text: Seq<char>, i: int, p: int, q: int)
    ensures
        has_marker(encode_utf8(text), OPENAI_KEY_PREFIX) ==> is_sensitive(text),
        has_marker(encode_utf8(text), GOOGLE_KEY_PREFIX) ==> is_sensitive(text),
        has_marker(encode_utf8(lower_of(text)), API_KEY_MARKER) ==> is_sensitive(text),
        config_field_via(encode_utf8(lower_of(text)), i, p, q) ==> is_sensitive(text),
        !has_marker(encode_utf8(text), OPENAI_KEY_PREFIX) && !has_marker(
            encode_utf8(text),
            GOOGLE_KEY_PREFIX,
        ) && !has_marker(encode_utf8(lower_of(text)), API_KEY_MARKER) && !has_config_field(
            encode_utf8(lower_of(text)),
        ) ==> !is_sensitive(text),
{
    if config_field_via(encode_utf8(lower_of(text)), i, p, q) {
        assert(config_field_at(encode_utf8(lower_of(text)), i));
    }
}

} // verus!
