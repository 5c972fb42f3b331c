use vstd::prelude::*;

verus! {

/// `regex::Error`, as `regex::Regex::new` returns it; it is only carried to the
/// caller, which maps it to `SettingsError`.
#[verifier::external_type_specification]
#[verifier::external_body]
pub struct ExRegexError(regex::Error);

/// The pattern text that matches `s` literally, as `regex::escape` writes it.
pub uninterp spec fn regex_escaped(s: Seq<char>) -> Seq<char>;

/// Whether `regex::Regex::new` accepts the pattern (within its default size limit).
pub uninterp spec fn regex_compiles(pattern: Seq<char>) -> bool;

/// The haystack with the first match of the pattern replaced, as
/// `regex::Regex::replace` does it, with `$` expansion of the replacement.
pub uninterp spec fn regex_replace_first(
    pattern: Seq<char>,
    haystack: Seq<char>,
    replacement: Seq<char>,
) -> Seq<char>;

/// Relies on `regex::escape`: the text that, used as a pattern, matches `s`
/// literally.
#[verifier::external_body]
fn escape_pattern(s: &str) -> (r: String)
    ensures
        r@ == regex_escaped(s@),
{
    regex::escape(s)
}

/// Relies on `regex::Regex::new` and `regex::Regex::replace`: compiles the
/// pattern, failing only where it is invalid or too large, and replaces its
/// first match in `haystack`.
#[verifier::external_body]
fn replace_first_match(pattern: &str, haystack: &str, replacement: &str) -> (r: Result<
    String,
    regex::Error,
>)
    ensures
        match r {
            Ok(s) => regex_compiles(pattern@) && s@ == regex_replace_first(
                pattern@,
                haystack@,
                replacement@,
            ),
            Err(_) => !regex_compiles(pattern@),
        },
{
    let re = regex::Regex::new(pattern)?;
    Ok(re.replace(haystack, replacement).into_owned())
}

/// Why a configuration file could not be updated.
#[derive(Clone, Copy, Debug, PartialEq, Eq, Structural)]
pub enum SettingsError {
    /// The pattern that finds a key's line was refused.
    InvalidPattern,
}

/// `pat` occurs in `s`.
pub open spec fn contains_text(s: Seq<char>, pat: Seq<char>) -> bool {
    exists|i: int| 0 <= i && i + pat.len() <= s.len() && #[trigger] s.subrange(i, i + pat.len()) == pat
}

/// The line that sets `key` to `value`: `key = value`.
pub open spec fn assignment(key: Seq<char>, value: Seq<char>) -> Seq<char> {
    key + seq![' ', '=', ' '] + value
}

/// The pattern of a whole line that assigns `key`: `(?m)^<key>\s*=.*$`, with
/// the key escaped.
pub open spec fn key_line_pattern(key: Seq<char>) -> Seq<char> {
    seq!['(', '?', 'm', ')', '^'] + regex_escaped(key) + seq!['\\', 's', '*', '=', '.', '*', '$']
}

/// The file text after setting `key` to `value`: where `key = ` occurs, the
/// first line that assigns the key is replaced; otherwise the assignment is
/// appended on a new line. `None` where the line pattern is refused.
pub open spec fn with_setting(content: Seq<char>, key: Seq<char>, value: Seq<char>) -> Option<
    Seq<char>,
> {
    if contains_text(content, key + seq![' ', '=', ' ']) {
        if regex_compiles(key_line_pattern(key)) {
            Some(regex_replace_first(key_line_pattern(key), content, assignment(key, value)))
        } else {
            None
        }
    } else {
        Some(content + seq!['\n'] + assignment(key, value))
    }
}

/// The file text after applying each setting in turn.
pub open spec fn with_settings(content: Seq<char>, settings: Seq<(Seq<char>, Seq<char>)>) -> Option<
    Seq<char>,
>
    decreases settings.len(),
{
    if settings.len() == 0 {
        Some(content)
    } else {
        match with_setting(content, settings[0].0, settings[0].1) {
            Some(next) => with_settings(next, settings.drop_first()),
            None => None,
        }
    }
}

/// The text of each key and value.
pub open spec fn settings_text(settings: Seq<(String, String)>) -> Seq<(Seq<char>, Seq<char>)> {
    settings.map_values(|p: (String, String)| (p.0@, p.1@))
}

/// Whether `pat` occurs in `s`.
pub fn contains(s: &str, pat: &str) -> (r: bool)
    ensures
        r == contains_text(s@, pat@),
{
    let n = s.unicode_len();
    let m = pat.unicode_len();
    if m > n {
        return false;
    }
    let mut i: usize = 0;
    while i <= n - m
        invariant
            m <= n,
            n == s@.len(),
            m == pat@.len(),
            forall|j: int| 0 <= j < i ==> #[trigger] s@.subrange(j, j + m) != pat@,
        decreases n - m + 1 - i,
    {
        let mut k: usize = 0;
        let mut same = true;
        while k < m
            invariant
                i + m <= n,
                n == s@.len(),
                m == pat@.len(),
                k <= m,
                same == (forall|t: int| 0 <= t < k ==> s@[i + t] == pat@[t]),
            decreases m - k,
        {
            if s.get_char(i + k) != pat.get_char(k) {
                same = false;
            }
            k = k + 1;
        }
        if same {
            assert(s@.subrange(i as int, i + m) =~= pat@);
            return true;
        }
        assert(s@.subrange(i as int, i + m) != pat@) by {
            let t = choose|t: int| 0 <= t < m && s@[i + t] != pat@[t];
            assert(s@.subrange(i as int, i + m)[t] != pat@[t]);
        }
        i = i + 1;
    }
    false
}

/// Sets `key` to `value` in the text of a configuration file.
pub fn apply_setting(content: &str, key: &str, value: &str) -> (r: Result<String, SettingsError>)
    ensures
        match with_setting(content@, key@, value@) {
            Some(text) => r is Ok && r->Ok_0@ == text,
            None => r == Err::<String, SettingsError>(SettingsError::InvalidPattern),
        },
{
    proof {
        reveal_strlit(" = ");
        reveal_strlit("(?m)^");
        reveal_strlit("\\s*=.*$");
        reveal_strlit("\n");
    }
    let mut line = String::from_str(key);
    line.append(" = ");
    let probe = line.clone();
    assert(probe@ == key@ + seq![' ', '=', ' ']);
    line.append(value);
    assert(line@ =~= assignment(key@, value@));
    if contains(content, probe.as_str()) {
        let mut pattern = String::from_str("(?m)^");
        let escaped = escape_pattern(key);
        pattern.append(escaped.as_str());
        pattern.append("\\s*=.*$");
        assert(pattern@ =~= key_line_pattern(key@));
        match replace_first_match(pattern.as_str(), content, line.as_str()) {
            Ok(text) => Ok(text),
            Err(_) => Err(SettingsError::InvalidPattern),
        }
    } else {
        let mut text = String::from_str(content);
        text.append("\n");
        text.append(line.as_str());
        assert(text@ =~= content@ + seq!['\n'] + assignment(key@, value@));
        Ok(text)
    }
}

/// Applies each `(key, value)` setting, in order, to the text of a
/// configuration file.
pub fn apply_settings(content: &str, settings: &Vec<(String, String)>) -> (r: Result<
    String,
    SettingsError,
>)
    ensures
        match with_settings(content@, settings_text(settings@)) {
            Some(text) => r is Ok && r->Ok_0@ == text,
            None => r == Err::<String, SettingsError>(SettingsError::InvalidPattern),
        },
{
    let ghost all = settings_text(settings@);
    let mut text = String::from_str(content);
    let mut i: usize = 0;
    assert(all.subrange(0, all.len() as int) =~= all);
    while i < settings.len()
        invariant
            i <= settings@.len(),
            all == settings_text(settings@),
            with_settings(content@, all) == with_settings(text@, all.subrange(i as int, all.len() as int)),
        decreases settings.len() - i,
    {
        let (key, value) = (&settings[i].0, &settings[i].1);
        let ghost rest = all.subrange(i as int, all.len() as int);
        assert(rest[0] == (key@, value@));
        assert(rest.drop_first() =~= all.subrange(i + 1, all.len() as int));
        let next = apply_setting(text.as_str(), key.as_str(), value.as_str());
        match next {
            Ok(t) => {
                text = t;
            },
            Err(e) => {
                return Err(e);
            },
        }
        i = i + 1;
    }
    assert(all.subrange(i as int, all.len() as int) =~= Seq::<(Seq<char>, Seq<char>)>::empty());
    Ok(text)
}

} // verus!
