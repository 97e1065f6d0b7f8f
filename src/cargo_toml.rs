//! The package manifest: its version number and how it is advanced.
use vstd::prelude::*;
use vstd::string::*;
use crate::decimal::{append_decimal, dec};
use crate::remote::join2;

verus! {

/// What the package manifest says of the package.
#[derive(Debug, Clone)]
pub struct CargoToml {
    /// The name of the package.
    pub name: String,
    /// The description of the package, if it has one.
    pub description: Option<String>,
    /// The version of the package, as written in the manifest.
    pub version: String,
}

/// Why a version could not be advanced.
#[derive(PartialEq, Eq, Structural, Clone, Copy, Debug)]
pub enum VersionError {
    /// The version has no minor field: it holds no dot.
    MissingMinor,
    /// The version has no patch field: it holds one dot only.
    MissingPatch,
}

/// Why the manifest text could not be rewritten.
pub enum ManifestError {
    /// The pattern that finds the version line was refused.
    Pattern(regex::Error),
}

#[verifier::external_type_specification]
#[verifier::external_body]
pub struct ExRegexError(regex::Error);

/// The index of the first dot in `s` at or after `i`, or the length of `s`.
pub open spec fn dot_from(s: Seq<char>, i: int) -> int
    decreases s.len() - i,
{
    if i >= s.len() || i < 0 {
        s.len() as int
    } else if s[i] == '.' {
        i
    } else {
        dot_from(s, i + 1)
    }
}

pub open spec fn is_digit(c: char) -> bool {
    '0' <= c && c <= '9'
}

pub open spec fn digit_value(c: char) -> nat {
    ((c as u32) - ('0' as u32)) as nat
}

/// The number that the decimal digits `s` write.
pub open spec fn digits_value(s: Seq<char>) -> nat
    decreases s.len(),
{
    if s.len() == 0 {
        0
    } else {
        digits_value(s.drop_last()) * 10 + digit_value(s.last())
    }
}

pub open spec fn all_digits(s: Seq<char>) -> bool {
    forall|i: int| 0 <= i < s.len() ==> is_digit(#[trigger] s[i])
}

/// The value of a version field: the unsigned 32-bit number it writes (an
/// optional `+`, then one or more decimal digits), or 0 where it writes none.
pub open spec fn component_value(s: Seq<char>) -> u32 {
    let d = if s.len() > 0 && s[0] == '+' {
        s.skip(1)
    } else {
        s
    };
    if d.len() > 0 && all_digits(d) && digits_value(d) <= u32::MAX {
        digits_value(d) as u32
    } else {
        0
    }
}

/// The next version after `major.minor.patch`: the patch goes up by one; a
/// patch of 9 or more goes back to 0 and carries into the minor, which does
/// likewise into the major; the major wraps around at its largest value.
pub open spec fn bumped(major: u32, minor: u32, patch: u32) -> (u32, u32, u32) {
    if patch >= 9 {
        if minor >= 9 {
            (if major == u32::MAX {
                0
            } else {
                (major + 1) as u32
            }, 0, 0)
        } else {
            (major, (minor + 1) as u32, 0)
        }
    } else {
        (major, minor, (patch + 1) as u32)
    }
}

/// The text `major.minor.patch`.
pub open spec fn version_text(v: (u32, u32, u32)) -> Seq<char> {
    dec(v.0 as nat) + seq!['.'] + dec(v.1 as nat) + seq!['.'] + dec(v.2 as nat)
}

/// The version that follows `s`, read as dot-separated fields of which the
/// first three count, or why there is none.
pub open spec fn incremented(s: Seq<char>) -> Result<Seq<char>, VersionError> {
    let e0 = dot_from(s, 0);
    let e1 = dot_from(s, e0 + 1);
    let e2 = dot_from(s, e1 + 1);
    if e0 >= s.len() {
        Err(VersionError::MissingMinor)
    } else if e1 >= s.len() {
        Err(VersionError::MissingPatch)
    } else {
        Ok(
            version_text(
                bumped(
                    component_value(s.subrange(0, e0)),
                    component_value(s.subrange(e0 + 1, e1)),
                    component_value(s.subrange(e1 + 1, e2)),
                ),
            ),
        )
    }
}

/// The index of the first dot in `s` at or after `start`, or the length of `s`.
fn next_dot(s: &str, start: usize, n: usize) -> (r: usize)
    requires
        n == s@.len(),
        start <= n,
    ensures
        r == dot_from(s@, start as int),
        start <= r <= n,
{
    let mut i = start;
    while i < n
        invariant
            n == s@.len(),
            start <= i <= n,
            dot_from(s@, start as int) == dot_from(s@, i as int),
        decreases n - i,
    {
        if s.get_char(i) == '.' {
            return i;
        }
        i += 1;
    }
    i
}

proof fn lemma_digits_prefix(s: Seq<char>, i: int)
    requires
        0 <= i <= s.len(),
    ensures
        digits_value(s.take(i)) <= digits_value(s),
    decreases s.len(),
{
    if i < s.len() {
        lemma_digits_prefix(s.drop_last(), i);
        assert(s.drop_last().take(i) =~= s.take(i));
    } else {
        assert(s.take(i) =~= s);
    }
}

/// The value of a version field, as `component_value` gives it.
pub fn parse_component(t: &str) -> (r: u32)
    ensures
        r == component_value(t@),
{
    let n = t.unicode_len();
    let mut i: usize = 0;
    if n > 0 && t.get_char(0) == '+' {
        i = 1;
    }
    let start = i;
    let ghost d = t@.subrange(start as int, n as int);
    assert(d =~= if t@.len() > 0 && t@[0] == '+' { t@.skip(1) } else { t@ });
    if start == n {
        return 0;
    }
    let mut v: u64 = 0;
    while i < n
        invariant
            n == t@.len(),
            start <= i <= n,
            start < n,
            d == t@.subrange(start as int, n as int),
            d == (if t@.len() > 0 && t@[0] == '+' {
                t@.skip(1)
            } else {
                t@
            }),
            v == digits_value(t@.subrange(start as int, i as int)),
            v <= u32::MAX,
            forall|k: int| start <= k < i ==> is_digit(#[trigger] t@[k]),
        decreases n - i,
    {
        let c = t.get_char(i);
        if !('0' <= c && c <= '9') {
            assert(!is_digit(d[i - start]));
            return 0;
        }
        let ghost prev = t@.subrange(start as int, i as int);
        assert(t@.subrange(start as int, i + 1).drop_last() =~= prev);
        v = v * 10 + ((c as u32) - ('0' as u32)) as u64;
        if v > 0xffff_ffff {
            proof {
                if all_digits(d) {
                    assert(d.take(i + 1 - start) =~= t@.subrange(start as int, i + 1));
                    lemma_digits_prefix(d, i + 1 - start);
                }
            }
            return 0;
        }
        i += 1;
    }
    assert(t@.subrange(start as int, n as int) == d);
    assert(all_digits(d)) by {
        assert forall|k: int| 0 <= k < d.len() implies is_digit(#[trigger] d[k]) by {
            assert(d[k] == t@[start + k]);
        }
    }
    v as u32
}

/// The text of a version line of the manifest, `version = "<version>"`.
pub open spec fn version_line(version: Seq<char>) -> Seq<char> {
    "version = \""@ + version + "\""@
}

/// The pattern of the manifest's version line: a line that starts with
/// `version`, then `=`, then a quoted text, with any spaces between.
pub const VERSION_LINE_PATTERN: &'static str = "(?m)^version\\s*=\\s*\"[^\"]*\"";

/// What the leftmost match of the regular expression `pattern` in `haystack`
/// becomes when `replacement` is put in its place, taken literally.
pub uninterp spec fn regex_replace_first(
    pattern: Seq<char>,
    haystack: Seq<char>,
    replacement: Seq<char>,
) -> Seq<char>;

/// Relies on regex::Regex::new to compile `pattern`, and on Regex::replace
/// with regex::NoExpand to put `replacement`, taken literally, in place of the
/// leftmost match; the result depends on the three texts alone. `Regex::new`
/// fails only on invalid syntax or a pattern over its fixed default size
/// limit, neither of which holds of the version-line pattern.
#[verifier::external_body]
fn replace_first_match(pattern: &str, haystack: &str, replacement: &str) -> (r: Result<
    String,
    regex::Error,
>)
    ensures
        pattern@ == VERSION_LINE_PATTERN@ ==> r is Ok,
        r is Ok ==> r->Ok_0@ == regex_replace_first(pattern@, haystack@, replacement@),
{
    match regex::Regex::new(pattern) {
        Ok(re) => Ok(re.replace(haystack, regex::NoExpand(replacement)).into_owned()),
        Err(e) => Err(e),
    }
}

/// The manifest text `content` with its version line set to `version`: the
/// first line that matches the version-line pattern becomes
/// `version = "<version>"`.
pub fn rewrite_version_line(content: &str, version: &str) -> (r: Result<String, ManifestError>)
    ensures
        r is Ok,
        r is Ok ==> r->Ok_0@ == regex_replace_first(
            VERSION_LINE_PATTERN@,
            content@,
            version_line(version@),
        ),
{
    let line = crate::remote::join3("version = \"", version, "\"");
    match replace_first_match(VERSION_LINE_PATTERN, content, line.as_str()) {
        Ok(text) => Ok(text),
        Err(e) => Err(ManifestError::Pattern(e)),
    }
}

impl CargoToml {
    /// Advances the version: its first three dot-separated fields are read as
    /// numbers (0 where a field writes none), the patch goes up by one with a
    /// carry past 9, and the version becomes `major.minor.patch`. A version
    /// with fewer than three fields is left as it is and reported.
    pub fn increment_version(&mut self) -> (r: Result<(), VersionError>)
        ensures
            final(self).name == old(self).name,
            final(self).description == old(self).description,
            match incremented(old(self).version@) {
                Ok(v) => r is Ok && final(self).version@ == v,
                Err(e) => r == Err::<(), VersionError>(e) && final(self).version == old(
                    self,
                ).version,
            },
    {
        let s = self.version.as_str();
        let n = s.unicode_len();
        let e0 = next_dot(s, 0, n);
        if e0 == n {
            return Err(VersionError::MissingMinor);
        }
        let e1 = next_dot(s, e0 + 1, n);
        if e1 == n {
            return Err(VersionError::MissingPatch);
        }
        let e2 = next_dot(s, e1 + 1, n);
        let mut major = parse_component(s.substring_char(0, e0));
        let mut minor = parse_component(s.substring_char(e0 + 1, e1));
        let mut patch = parse_component(s.substring_char(e1 + 1, e2));
        if patch >= 9 {
            patch = 0;
            if minor >= 9 {
                minor = 0;
                major = major.wrapping_add(1);
            } else {
                minor += 1;
            }
        } else {
            patch += 1;
        }
        let mut text = String::new();
        append_decimal(&mut text, major as u64);
        text.append(".");
        append_decimal(&mut text, minor as u64);
        text.append(".");
        append_decimal(&mut text, patch as u64);
        proof {
            reveal_strlit(".");
        }
        assert(text@ =~= version_text((major, minor, patch)));
        self.version = text;
        Ok(())
    }

    /// The name of the tag that marks the current version, `v<version>`.
    pub fn tag_name(&self) -> (r: String)
        ensures
            r@ == "v"@ + self.version@,
    {
        join2("v", self.version.as_str())
    }

    /// The message of the tag that marks the current version, `Version <version>`.
    pub fn tag_message(&self) -> (r: String)
        ensures
            r@ == "Version "@ + self.version@,
    {
        join2("Version ", self.version.as_str())
    }
}

} // verus!
