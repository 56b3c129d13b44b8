//! Structural sanitizer: every piece of external data is treated as
//! untrusted text.
//!
//! Raw tool outputs, web content and file reads never reach the model as
//! literal text. They are first sanitized (length cap, control-character
//! stripping, injection-phrase blocklist) and then wrapped in a structural
//! envelope that the system prompt tells the model to treat as opaque data.

use vstd::prelude::*;
use crate::text::{chars_of, decimal, push_char, push_decimal};
use vstd::utf8::encode_utf8;
use crate::tool_error::ToolError;

verus! {

/// The default input limit, in bytes.
pub const DEFAULT_MAX_LEN: usize = 4096;

// ── Character filter ─────────────────────────────────────────────────────────

/// A character survives sanitization: printable ASCII (`' '` to `'~'`) or
/// one of the standard whitespace characters tab, line feed and carriage
/// return. Null bytes, DEL, C0/C1 controls and every non-ASCII character
/// (direction overrides included) are dropped.
pub open spec fn is_kept_char(c: char) -> bool {
    c == ' ' || c == '\t' || c == '\n' || c == '\r' || (' ' <= c && c < '\x7f')
}

/// `s` with every character that is not kept removed, order preserved.
pub open spec fn clean(s: Seq<char>) -> Seq<char>
    decreases s.len(),
{
    if s.len() == 0 {
        Seq::empty()
    } else if is_kept_char(s.last()) {
        clean(s.drop_last()).push(s.last())
    } else {
        clean(s.drop_last())
    }
}

fn is_kept(c: char) -> (b: bool)
    ensures
        b == is_kept_char(c),
{
    c == ' ' || c == '\t' || c == '\n' || c == '\r' || (' ' <= c && c < '\x7f')
}

// ── Injection phrases ────────────────────────────────────────────────────────

/// Phrases that commonly appear in indirect prompt injection attempts, all
/// in lower case. The list is conservative: false positives are preferred
/// over missed attacks.
pub open spec fn injection_phrases() -> Seq<Seq<char>> {
    seq![
        "ignore previous instructions"@,
        "ignore all previous"@,
        "disregard all"@,
        "forget everything"@,
        "you are now"@,
        "new instructions:"@,
        "system prompt:"@,
        "act as"@,
        "do not follow"@,
        "override your"@,
        "jailbreak"@,
    ]
}

/// The code of `c` after ASCII lower-casing (`'A'..='Z'` map to
/// `'a'..='z'`, every other character is unchanged).
pub open spec fn lower_code(c: char) -> u32 {
    if 'A' <= c && c <= 'Z' { (c as u32 + 32) as u32 } else { c as u32 }
}

/// The lower-cased `text` holds `phrase` starting at index `i`.
pub open spec fn phrase_at(text: Seq<char>, phrase: Seq<char>, i: int) -> bool {
    &&& 0 <= i
    &&& i + phrase.len() <= text.len()
    &&& forall|k: int| 0 <= k < phrase.len() ==> lower_code(#[trigger] text[i + k]) == phrase[k] as u32
}

/// The lower-cased `text` contains `phrase` somewhere.
pub open spec fn contains_phrase(text: Seq<char>, phrase: Seq<char>) -> bool {
    exists|i: int| phrase_at(text, phrase, i)
}

/// The lower-cased `text` contains one of the injection phrases.
pub open spec fn has_injection(text: Seq<char>) -> bool {
    exists|j: int| 0 <= j < injection_phrases().len() && contains_phrase(text, #[trigger] injection_phrases()[j])
}

/// The injection phrases, as the detector walks them.
fn injection_triggers() -> (v: Vec<&'static str>)
    ensures
        v@.len() == injection_phrases().len(),
        forall|j: int| 0 <= j < v@.len() ==> (#[trigger] v@[j])@ == injection_phrases()[j],
{
    let mut v: Vec<&'static str> = Vec::new();
    v.push("ignore previous instructions");
    v.push("ignore all previous");
    v.push("disregard all");
    v.push("forget everything");
    v.push("you are now");
    v.push("new instructions:");
    v.push("system prompt:");
    v.push("act as");
    v.push("do not follow");
    v.push("override your");
    v.push("jailbreak");
    v
}

fn lower_code_of(c: char) -> (r: u32)
    ensures
        r == lower_code(c),
{
    if 'A' <= c && c <= 'Z' { c as u32 + 32 } else { c as u32 }
}

/// Whether the lower-cased `text` holds `phrase` at `i`.
fn matches_at(text: &Vec<char>, phrase: &Vec<char>, i: usize) -> (b: bool)
    requires
        i + phrase@.len() <= text@.len(),
    ensures
        b == phrase_at(text@, phrase@, i as int),
{
    let n: usize = text.len();
    let mut k: usize = 0;
    while k < phrase.len()
        invariant
            i + phrase@.len() <= text@.len(),
            n == text@.len(),
            k <= phrase@.len(),
            forall|m: int| 0 <= m < k ==> lower_code(#[trigger] text@[i + m]) == phrase@[m] as u32,
        decreases phrase@.len() - k,
    {
        if lower_code_of(text[i + k]) != phrase[k] as u32 {
            assert(!(lower_code(text@[i + k as int]) == phrase@[k as int] as u32));
            return false;
        }
        k += 1;
    }
    true
}

/// Whether the lower-cased `text` contains `phrase`.
fn find_phrase(text: &Vec<char>, phrase: &Vec<char>) -> (b: bool)
    ensures
        b == contains_phrase(text@, phrase@),
{
    if phrase.len() > text.len() {
        assert(!contains_phrase(text@, phrase@));
        return false;
    }
    let last: usize = text.len() - phrase.len();
    let mut i: usize = 0;
    while i <= last
        invariant
            last == text@.len() - phrase@.len(),
            phrase@.len() <= text@.len(),
            forall|m: int| 0 <= m < i ==> !phrase_at(text@, phrase@, m),
        decreases last + 1 - i,
    {
        if matches_at(text, phrase, i) {
            return true;
        }
        if i == last {
            assert forall|m: int| !phrase_at(text@, phrase@, m) by {
                if 0 <= m && m < i {
                } else if m == i {
                } else {
                }
            }
            return false;
        }
        i += 1;
    }
    false
}

// ── The sanitizer ────────────────────────────────────────────────────────────

/// The outcome of sanitizing `input` under a limit of `limit` bytes: the
/// cleaned text, or the message of the invalid-parameters error.
pub open spec fn sanitize_spec(limit: usize, input: Seq<char>) -> Result<Seq<char>, Seq<char>> {
    let len = encode_utf8(input).len();
    if len > limit {
        Err(too_long_message(len, limit as nat))
    } else if has_injection(clean(input)) {
        Err(injection_message())
    } else {
        Ok(clean(input))
    }
}

/// The message for an input over the limit.
pub open spec fn too_long_message(len: nat, limit: nat) -> Seq<char> {
    "input length "@ + decimal(len) + " exceeds limit "@ + decimal(limit)
}

/// The message for an input that holds an injection phrase.
pub open spec fn injection_message() -> Seq<char> {
    "input rejected: potential prompt injection pattern detected"@
}

/// The opening tag of the output envelope, with its line break.
pub open spec fn envelope_open() -> Seq<char> {
    "<tool_output_data>\n"@
}

/// The closing tag of the output envelope, with the line break before it.
pub open spec fn envelope_close() -> Seq<char> {
    "\n</tool_output_data>"@
}

/// Sanitizes untrusted text before it reaches the model.
#[derive(Clone, Debug)]
pub struct DataSanitizer {
    max_len: usize,
}

impl DataSanitizer {
    /// The input limit in bytes.
    pub closed spec fn limit(&self) -> usize {
        self.max_len
    }

    /// A sanitizer with the default limit of 4096 bytes.
    pub fn new() -> (s: Self)
        ensures
            s.limit() == DEFAULT_MAX_LEN,
    {
        Self { max_len: DEFAULT_MAX_LEN }
    }

    /// A sanitizer with a limit of `max_len` bytes.
    pub fn with_max_len(max_len: usize) -> (s: Self)
        ensures
            s.limit() == max_len,
    {
        Self { max_len }
    }

    /// Removes dangerous characters and detects injection patterns.
    ///
    /// Rejects an input longer than the limit (in UTF-8 bytes) before looking
    /// at it; otherwise keeps only printable ASCII and standard whitespace,
    /// and rejects the result if its lower-cased form holds an injection
    /// phrase. Both rejections are invalid-parameters errors.
    pub fn sanitize_string(&self, input: &str) -> (r: Result<String, ToolError>)
        ensures
            match r {
                Ok(s) => sanitize_spec(self.limit(), input@) == Ok::<Seq<char>, Seq<char>>(s@),
                Err(e) => e matches ToolError::InvalidParams(m)
                    && sanitize_spec(self.limit(), input@) == Err::<Seq<char>, Seq<char>>(m@),
            },
    {
        // The byte length, through the byte view so that it is known to fit.
        let len: usize = input.as_bytes().len();
        if len > self.max_len {
            let mut msg = String::from_str("input length ");
            push_decimal(&mut msg, len as u64);
            msg.append(" exceeds limit ");
            push_decimal(&mut msg, self.max_len as u64);
            return Err(ToolError::InvalidParams(msg));
        }
        let mut cleaned = String::new();
        for c in it: input.chars()
            invariant
                it.seq() == input@,
                cleaned@ == clean(it.seq().take(it.index() as int)),
        {
            assert(it.seq().take(it.index() + 1).drop_last() =~= it.seq().take(it.index() as int));
            if is_kept(c) {
                push_char(&mut cleaned, c);
            }
        }
        assert(input@.take(input@.len() as int) =~= input@);
        proof {
            lemma_clean_chars_kept(input@);
        }
        self.detect_injection(cleaned.as_str())?;
        Ok(cleaned)
    }

    /// Wraps tool output so that the model receives it as opaque, labelled
    /// data: the first `4 * limit` characters of `raw` between the
    /// `<tool_output_data>` tags.
    ///
    /// The system prompt must instruct the model that content inside those
    /// tags is raw data from an external tool, never instructions.
    pub fn wrap_output(&self, raw: &str) -> (r: String)
        requires
            self.limit() * 4 <= usize::MAX,
        ensures
            r@ == wrap_spec(self.limit(), raw@),
    {
        let n: usize = raw.unicode_len();
        let cap: usize = self.max_len * 4;
        let take: usize = if n < cap { n } else { cap };
        let truncated = raw.substring_char(0, take);
        let mut out = String::from_str("<tool_output_data>\n");
        out.append(truncated);
        out.append("\n</tool_output_data>");
        out
    }

    /// Rejects `text` if its lower-cased form holds an injection phrase.
    ///
    /// It is applied only to text that the character filter has cleaned,
    /// which holds printable ASCII and tab, line feed and carriage return
    /// alone; on such text Unicode lower-casing is ASCII lower-casing, one
    /// character for one, which is what `lower_code` states. On other text
    /// the two differ (`'\u{212a}'`, the Kelvin sign, lower-cases to an
    /// ASCII `k`), so the precondition keeps the detector to the text it is
    /// given.
    fn detect_injection(&self, text: &str) -> (r: Result<(), ToolError>)
        requires
            forall|i: int| 0 <= i < text@.len() ==> is_kept_char(#[trigger] text@[i]),
        ensures
            r is Ok <==> !has_injection(text@),
            r matches Err(e) ==> e matches ToolError::InvalidParams(m) && m@ == injection_message(),
    {
        let chars = chars_of(text);
        let triggers = injection_triggers();
        let mut j: usize = 0;
        while j < triggers.len()
            invariant
                chars@ == text@,
                triggers@.len() == injection_phrases().len(),
                forall|m: int| 0 <= m < triggers@.len() ==> (#[trigger] triggers@[m])@ == injection_phrases()[m],
                j <= triggers@.len(),
                forall|m: int| 0 <= m < j ==> !contains_phrase(text@, #[trigger] injection_phrases()[m]),
            decreases triggers@.len() - j,
        {
            let phrase = chars_of(triggers[j]);
            if find_phrase(&chars, &phrase) {
                assert(contains_phrase(text@, injection_phrases()[j as int]));
                return Err(ToolError::InvalidParams(
                    String::from_str("input rejected: potential prompt injection pattern detected"),
                ));
            }
            j += 1;
        }
        Ok(())
    }
}

/// The envelope for `raw` under a limit of `limit`: the opening tag, the
/// first `4 * limit` characters of `raw`, and the closing tag.
pub open spec fn wrap_spec(limit: usize, raw: Seq<char>) -> Seq<char> {
    let cap = 4 * limit;
    envelope_open() + raw.take(if raw.len() < cap { raw.len() as int } else { cap }) + envelope_close()
}

/// Every character of `clean(s)` is a kept character.
pub proof fn lemma_clean_chars_kept(s: Seq<char>)
    ensures
        forall|i: int| 0 <= i < clean(s).len() ==> is_kept_char(#[trigger] clean(s)[i]),
    decreases s.len(),
{
    if s.len() > 0 {
        lemma_clean_chars_kept(s.drop_last());
        let prev = clean(s.drop_last());
        assert forall|i: int| 0 <= i < clean(s).len() implies is_kept_char(#[trigger] clean(s)[i]) by {
            if is_kept_char(s.last()) && i < prev.len() {
                assert(clean(s)[i] == prev[i]);
            }
        }
    }
}

} // verus!

verus! {

// ── Laws of the sanitizer ────────────────────────────────────────────────────

proof fn lemma_clean_len(s: Seq<char>)
    ensures
        clean(s).len() <= s.len(),
    decreases s.len(),
{
    if s.len() > 0 {
        lemma_clean_len(s.drop_last());
    }
}

proof fn lemma_clean_of_kept(s: Seq<char>)
    requires
        forall|i: int| 0 <= i < s.len() ==> is_kept_char(#[trigger] s[i]),
    ensures
        clean(s) == s,
    decreases s.len(),
{
    if s.len() > 0 {
        assert forall|i: int| 0 <= i < s.drop_last().len() implies is_kept_char(#[trigger] s.drop_last()[i]) by {
            assert(s.drop_last()[i] == s[i]);
        }
        lemma_clean_of_kept(s.drop_last());
        assert(is_kept_char(s[s.len() - 1]));
        assert(s.drop_last().push(s.last()) =~= s);
    }
}

proof fn lemma_encode_len_at_least_chars(s: Seq<char>)
    ensures
        s.len() <= encode_utf8(s).len(),
    decreases s.len(),
{
    if s.len() > 0 {
        lemma_encode_len_at_least_chars(s.drop_first());
    }
}

proof fn lemma_clean_byte_len(s: Seq<char>)
    ensures
        encode_utf8(clean(s)).len() == clean(s).len(),
        clean(s).len() <= encode_utf8(s).len(),
{
    lemma_clean_chars_kept(s);
    assert(vstd::utf8::is_ascii_chars(clean(s))) by {
        assert forall|i: int| 0 <= i < clean(s).len() implies '\0' <= #[trigger] clean(s)[i] <= '\u{7f}' by {
            assert(is_kept_char(clean(s)[i]));
        }
    }
    vstd::utf8::is_ascii_chars_encode_utf8(clean(s));
    lemma_clean_len(s);
    lemma_encode_len_at_least_chars(s);
}

/// Text that the sanitizer accepts holds only printable ASCII and the
/// standard whitespace characters tab, line feed and carriage return.
pub proof fn lemma_sanitized_is_printable(limit: usize, input: Seq<char>)
    ensures
        sanitize_spec(limit, input) matches Ok(s) ==> forall|i: int|
            0 <= i < s.len() ==> is_kept_char(#[trigger] s[i]),
{
    lemma_clean_chars_kept(input);
}

/// Text that the sanitizer accepts holds no injection phrase, in any letter
/// case.
pub proof fn lemma_sanitized_has_no_injection(limit: usize, input: Seq<char>)
    ensures
        sanitize_spec(limit, input) matches Ok(s) ==> !has_injection(s),
{
}

/// Text that the sanitizer accepts fits the limit: its UTF-8 encoding is at
/// most `limit` bytes long, and it is no longer than the input.
pub proof fn lemma_sanitized_within_limit(limit: usize, input: Seq<char>)
    ensures
        sanitize_spec(limit, input) matches Ok(s) ==> encode_utf8(s).len() <= limit
            && s.len() <= input.len(),
{
    lemma_clean_byte_len(input);
    lemma_clean_len(input);
}

/// Sanitizing is idempotent: text that the sanitizer accepts is accepted
/// again, unchanged, by a sanitizer with the same limit.
pub proof fn lemma_sanitize_idempotent(limit: usize, input: Seq<char>)
    ensures
        sanitize_spec(limit, input) matches Ok(s) ==> sanitize_spec(limit, s) == Ok::<Seq<char>, Seq<char>>(s),
{
    if sanitize_spec(limit, input) is Ok {
        let s = clean(input);
        lemma_clean_chars_kept(input);
        lemma_clean_of_kept(s);
        lemma_clean_byte_len(input);
    }
}

/// The envelope always opens and closes with the data tags, carries a
/// prefix of the raw text of at most `4 * limit` characters, and carries
/// the whole raw text when it is no longer than that.
pub proof fn lemma_wrap_envelope(limit: usize, raw: Seq<char>)
    ensures
        wrap_spec(limit, raw).subrange(0, envelope_open().len() as int) == envelope_open(),
        wrap_spec(limit, raw).subrange(
            wrap_spec(limit, raw).len() - envelope_close().len(),
            wrap_spec(limit, raw).len() as int,
        ) == envelope_close(),
        wrap_spec(limit, raw).len() <= envelope_open().len() + 4 * limit + envelope_close().len(),
        raw.len() <= 4 * limit ==> wrap_spec(limit, raw) == envelope_open() + raw + envelope_close(),
{
    let cap = 4 * limit;
    let t = raw.take(if raw.len() < cap { raw.len() as int } else { cap });
    let w = envelope_open() + t + envelope_close();
    assert(w.subrange(0, envelope_open().len() as int) =~= envelope_open());
    assert(w.subrange(w.len() - envelope_close().len(), w.len() as int) =~= envelope_close());
    if raw.len() <= cap {
        assert(t =~= raw);
    }
}

} // verus!

verus! {

/// An input longer than the limit is rejected whatever it holds, with the
/// length message; an input within the limit is rejected exactly when its
/// cleaned form holds an injection phrase.
pub proof fn lemma_rejection_reasons(limit: usize, input: Seq<char>)
    ensures
        encode_utf8(input).len() > limit ==> sanitize_spec(limit, input)
            == Err::<Seq<char>, Seq<char>>(too_long_message(encode_utf8(input).len(), limit as nat)),
        encode_utf8(input).len() <= limit ==> (sanitize_spec(limit, input) is Err <==> has_injection(clean(input))),
{
}

} // verus!

verus! {

/// The printable ASCII characters `' '` to `'~'`, and tab, line feed and
/// carriage return.
proof fn lemma_kept_char_is_printable_ascii(c: char)
    ensures
        is_kept_char(c) <==> ((' ' <= c && c <= '~') || c == '\t' || c == '\n' || c == '\r'),
{
}

/// The character filter keeps exactly the printable ASCII characters
/// (`' '` to `'~'`) and tab, line feed and carriage return, in order, and
/// drops every other character.
pub proof fn lemma_clean_keeps_exactly_printable_ascii(s: Seq<char>)
    ensures
        clean(s) == s.filter(|c: char| (' ' <= c && c <= '~') || c == '\t' || c == '\n' || c == '\r'),
    decreases s.len(),
{
    reveal(Seq::filter);
    let pred = |c: char| (' ' <= c && c <= '~') || c == '\t' || c == '\n' || c == '\r';
    if s.len() > 0 {
        lemma_clean_keeps_exactly_printable_ascii(s.drop_last());
        lemma_kept_char_is_printable_ascii(s.last());
        assert(pred(s.last()) == is_kept_char(s.last()));
    }
}

/// Text of printable ASCII and tab, line feed and carriage return that fits
/// the limit and holds no injection phrase comes back unchanged: markup
/// characters such as `<` and `>` included.
pub proof fn lemma_printable_text_passes_unchanged(limit: usize, s: Seq<char>)
    requires
        forall|i: int| 0 <= i < s.len() ==> ((' ' <= #[trigger] s[i] && s[i] <= '~') || s[i] == '\t' || s[i] == '\n' || s[i] == '\r'),
        encode_utf8(s).len() <= limit,
        !has_injection(s),
    ensures
        sanitize_spec(limit, s) == Ok::<Seq<char>, Seq<char>>(s),
{
    assert forall|i: int| 0 <= i < s.len() implies is_kept_char(#[trigger] s[i]) by {
        lemma_kept_char_is_printable_ascii(s[i]);
    }
    lemma_clean_of_kept(s);
}

} // verus!
