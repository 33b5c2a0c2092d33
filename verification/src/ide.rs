//! Recognising IDEs by the identity that the platform reports for the active
//! window: process descriptions on Windows, bundle owner names on macOS and
//! `WM_CLASS` on Linux.

use vstd::prelude::*;
use crate::text::{lemma_trim_idempotent, spec_trim, trim_whitespace};

verus! {

#[verifier::external_type_specification]
#[verifier::external_body]
pub struct ExRegexSet(regex::RegexSet);

#[verifier::external_type_specification]
#[verifier::external_body]
pub struct ExRegexError(regex::Error);

/// The patterns that a `regex::RegexSet` holds, in the order they were given
/// (`RegexSet::patterns`).
pub uninterp spec fn regex_set_patterns(set: regex::RegexSet) -> Seq<Seq<char>>;

/// Whether `regex::RegexSet::new` accepts these patterns.
pub uninterp spec fn regex_set_builds(patterns: Seq<Seq<char>>) -> bool;

/// Whether a `regex::RegexSet` made by `RegexSet::new` from these patterns
/// (that is, with the default options)
/// matches somewhere in `haystack` (`RegexSet::is_match`).
pub uninterp spec fn regex_set_is_match(patterns: Seq<Seq<char>>, haystack: Seq<char>) -> bool;

/// Whether a `regex::RegexSet` was built with the default options, as
/// `RegexSet::new` builds it (a `RegexSetBuilder` can set others, such as
/// case-insensitivity, that the stored patterns do not show).
pub uninterp spec fn regex_set_default_options(set: regex::RegexSet) -> bool;

/// Calls `regex::RegexSet::new`. Trusted: the call succeeds exactly when the
/// patterns build (a fact of the patterns alone, named by `regex_set_builds`),
/// and the set it returns holds the given patterns in order, as the crate
/// stores them, built with the default options.
#[verifier::external_body]
fn new_regex_set(patterns: &[&str]) -> (r: Result<regex::RegexSet, regex::Error>)
    ensures
        r is Ok <==> regex_set_builds(patterns@.map_values(|p: &str| p@)),
        r matches Ok(set) ==> regex_set_patterns(set) == patterns@.map_values(|p: &str| p@),
        r matches Ok(set) ==> regex_set_default_options(set),
{
    regex::RegexSet::new(patterns)
}

/// Calls `regex::RegexSet::is_match` on a set built with the default options.
/// Trusted: the answer is the named result of matching the set's patterns,
/// under those options, against the haystack.
#[verifier::external_body]
fn regex_set_matches(set: &regex::RegexSet, haystack: &str) -> (r: bool)
    requires
        regex_set_default_options(*set),
    ensures
        r == regex_set_is_match(regex_set_patterns(*set), haystack@),
{
    set.is_match(haystack)
}

/// The IDE patterns. They are anchored, so that short names such as `code`
/// and `idea` do not match unrelated applications like `Decode` or
/// `IdeaBoard`, and case-insensitive.
pub open spec fn ide_patterns() -> Seq<Seq<char>> {
    seq![
        r"(?ix)^(?:microsoft[\s._-]*)?(?:visual[\s._-]*studio[\s._-]*code|vs[\s._-]*code|code)(?:[\s._-]*(?:insiders|oss))?(?:\.exe)?$"@,
        r"(?ix)^(?:vscodium|codium)(?:[\s._-]*insiders)?(?:\.exe)?$"@,
        r"(?ix)^(?:jetbrains[\s._-]*)?(?:intellij(?:[\s._-]*idea)?|idea(?:64)?|pycharm(?:64)?|webstorm(?:64)?|phpstorm(?:64)?|rubymine(?:64)?|clion(?:64)?|goland(?:64)?|rider(?:64)?|datagrip(?:64)?|dataspell(?:64)?|rustrover(?:64)?|android[\s._-]*studio|studio64|mps|aqua|fleet|appcode)(?:[\s._-]*(?:community|professional|ultimate|educational|preview|eap|ce|ue))?(?:\.exe)?$"@,
        r"(?ix)^jetbrains[\s._-]*air(?:[\s._-]*(?:preview|eap))?(?:\.exe)?$"@,
        r"(?ix)^(?:cursor|windsurf|kiro|trae|zed|zeditor|dev\.zed\.zed(?:-preview)?|lapce|pulsar|positron|void|antigravity)(?:[\s._-]*(?:insiders|next|preview))?(?:\.exe)?$"@,
        r"(?ix)^(?:microsoft[\s._-]*)?(?:visual[\s._-]*studio|devenv)(?:[\s._-]*20\d{2})?(?:\.exe)?$"@,
        r"(?ix)^(?:xcode|eclipse(?:[\s._-]*ide)?|apache[\s._-]*netbeans|netbeans|qt[\s._-]*creator|qtcreator|kdevelop|gnome[\s._-]*builder|org\.gnome\.builder|geany|kate|sublime[\s._-]*text|sublime_text|nova|spyder|thonny|wing(?:[\s._-]*ide)?|arduino(?:[\s._-]*ide)?|rstudio|dbeaver|sql[\s._-]*developer|sqldeveloper|neovide|goneovim|nvim[\s._-]*qt|macvim|emacs)(?:\.exe)?$"@,
        r"(?ix)^(?:unity(?:[\s._-]*editor)?|unrealeditor|unreal[\s._-]*editor|godot(?:[\s._-]*engine)?)(?:\.exe)?$"@,
    ]
}

/// Whether an application identity names an IDE: its trimmed form matches
/// one of the IDE patterns (and the patterns build).
pub open spec fn spec_is_ide(app_name: Seq<char>) -> bool {
    regex_set_builds(ide_patterns()) && regex_set_is_match(ide_patterns(), spec_trim(app_name))
}

/// The IDE patterns as string slices.
fn ide_pattern_list() -> (v: Vec<&'static str>)
    ensures
        v@.map_values(|p: &str| p@) == ide_patterns(),
{
    let mut v: Vec<&'static str> = Vec::new();
    v.push(r"(?ix)^(?:microsoft[\s._-]*)?(?:visual[\s._-]*studio[\s._-]*code|vs[\s._-]*code|code)(?:[\s._-]*(?:insiders|oss))?(?:\.exe)?$");
    v.push(r"(?ix)^(?:vscodium|codium)(?:[\s._-]*insiders)?(?:\.exe)?$");
    v.push(r"(?ix)^(?:jetbrains[\s._-]*)?(?:intellij(?:[\s._-]*idea)?|idea(?:64)?|pycharm(?:64)?|webstorm(?:64)?|phpstorm(?:64)?|rubymine(?:64)?|clion(?:64)?|goland(?:64)?|rider(?:64)?|datagrip(?:64)?|dataspell(?:64)?|rustrover(?:64)?|android[\s._-]*studio|studio64|mps|aqua|fleet|appcode)(?:[\s._-]*(?:community|professional|ultimate|educational|preview|eap|ce|ue))?(?:\.exe)?$");
    v.push(r"(?ix)^jetbrains[\s._-]*air(?:[\s._-]*(?:preview|eap))?(?:\.exe)?$");
    v.push(r"(?ix)^(?:cursor|windsurf|kiro|trae|zed|zeditor|dev\.zed\.zed(?:-preview)?|lapce|pulsar|positron|void|antigravity)(?:[\s._-]*(?:insiders|next|preview))?(?:\.exe)?$");
    v.push(r"(?ix)^(?:microsoft[\s._-]*)?(?:visual[\s._-]*studio|devenv)(?:[\s._-]*20\d{2})?(?:\.exe)?$");
    v.push(r"(?ix)^(?:xcode|eclipse(?:[\s._-]*ide)?|apache[\s._-]*netbeans|netbeans|qt[\s._-]*creator|qtcreator|kdevelop|gnome[\s._-]*builder|org\.gnome\.builder|geany|kate|sublime[\s._-]*text|sublime_text|nova|spyder|thonny|wing(?:[\s._-]*ide)?|arduino(?:[\s._-]*ide)?|rstudio|dbeaver|sql[\s._-]*developer|sqldeveloper|neovide|goneovim|nvim[\s._-]*qt|macvim|emacs)(?:\.exe)?$");
    v.push(r"(?ix)^(?:unity(?:[\s._-]*editor)?|unrealeditor|unreal[\s._-]*editor|godot(?:[\s._-]*engine)?)(?:\.exe)?$");
    assert(v@.map_values(|p: &str| p@) =~= ide_patterns());
    v
}

/// The IDE patterns failed to build into a regex set.
pub enum PatternError {
    /// `regex::RegexSet::new` refused the patterns.
    InvalidPatterns,
}

/// The IDE patterns, built once so that the active window can be checked
/// repeatedly.
pub struct IdeMatcher {
    set: regex::RegexSet,
}

impl IdeMatcher {
    #[verifier::type_invariant]
    spec fn holds_ide_patterns(self) -> bool {
        &&& regex_set_patterns(self.set) == ide_patterns()
        &&& regex_set_default_options(self.set)
    }

    /// Builds the IDE patterns; fails exactly when the regex crate refuses them.
    pub fn new() -> (r: Result<IdeMatcher, PatternError>)
        ensures
            r is Ok <==> regex_set_builds(ide_patterns()),
    {
        let patterns: Vec<&'static str> = ide_pattern_list();
        match new_regex_set(patterns.as_slice()) {
            Ok(set) => Ok(IdeMatcher { set }),
            Err(_) => Err(PatternError::InvalidPatterns),
        }
    }

    /// Whether the application identity, with surrounding whitespace removed,
    /// matches one of the IDE patterns.
    pub fn matches(&self, app_name: &str) -> (r: bool)
        ensures
            r == regex_set_is_match(ide_patterns(), spec_trim(app_name@)),
    {
        proof {
            use_type_invariant(self);
        }
        let trimmed: String = trim_whitespace(app_name);
        regex_set_matches(&self.set, trimmed.as_str())
    }
}

/// Whether the application identity reported for the active window names an
/// IDE, ignoring ASCII case and surrounding whitespace. Answers `false` when
/// the IDE patterns cannot be built.
pub fn is_ide(app_name: &str) -> (r: bool)
    ensures
        r == spec_is_ide(app_name@),
{
    match IdeMatcher::new() {
        Ok(matcher) => matcher.matches(app_name),
        Err(_) => false,
    }
}

/// Whether a name is an IDE does not depend on whitespace around it: the
/// name and its trimmed form get the same answer.
pub proof fn lemma_is_ide_ignores_surrounding_whitespace(app_name: Seq<char>)
    ensures
        spec_is_ide(spec_trim(app_name)) == spec_is_ide(app_name),
{
    lemma_trim_idempotent(app_name);
}

/// `word` stands in `pattern` at `k` as a name: it follows `(?:`, `|`, `^`
/// or a separator class, and is followed by `|`, `(`, `)`, `[` or `$`.
pub open spec fn names_word_at(pattern: Seq<char>, word: Seq<char>, k: int) -> bool {
    &&& 1 <= k
    &&& k + word.len() < pattern.len()
    &&& pattern.subrange(k, k + word.len()) == word
    &&& (pattern[k - 1] == ':' || pattern[k - 1] == '|' || pattern[k - 1] == '^' || pattern[k - 1]
        == '*')
    &&& ({
        let next = pattern[k + word.len()];
        next == '|' || next == ')' || next == '(' || next == '[' || next == '$'
    })
}

/// Some pattern of the list names `word`.
pub open spec fn patterns_name(patterns: Seq<Seq<char>>, word: Seq<char>) -> bool {
    exists|p: int, k: int| 0 <= p < patterns.len() && #[trigger] names_word_at(patterns[p], word, k)
}

/// The IDE patterns are eight, and each is anchored at both ends and
/// case-insensitive: it begins with `(?ix)^` and ends with `$`, so that a
/// name matches only as a whole and in any letter case.
pub proof fn lemma_ide_patterns_anchored_and_case_insensitive()
    ensures
        ide_patterns().len() == 8,
        forall|p: int|
            0 <= p < ide_patterns().len() ==> (#[trigger] ide_patterns()[p]).subrange(0, 6)
                == "(?ix)^"@ && ide_patterns()[p].last() == '$',
{
    reveal_strlit(r"(?ix)^(?:microsoft[\s._-]*)?(?:visual[\s._-]*studio[\s._-]*code|vs[\s._-]*code|code)(?:[\s._-]*(?:insiders|oss))?(?:\.exe)?$");
    reveal_strlit(r"(?ix)^(?:vscodium|codium)(?:[\s._-]*insiders)?(?:\.exe)?$");
    reveal_strlit(r"(?ix)^(?:jetbrains[\s._-]*)?(?:intellij(?:[\s._-]*idea)?|idea(?:64)?|pycharm(?:64)?|webstorm(?:64)?|phpstorm(?:64)?|rubymine(?:64)?|clion(?:64)?|goland(?:64)?|rider(?:64)?|datagrip(?:64)?|dataspell(?:64)?|rustrover(?:64)?|android[\s._-]*studio|studio64|mps|aqua|fleet|appcode)(?:[\s._-]*(?:community|professional|ultimate|educational|preview|eap|ce|ue))?(?:\.exe)?$");
    reveal_strlit(r"(?ix)^jetbrains[\s._-]*air(?:[\s._-]*(?:preview|eap))?(?:\.exe)?$");
    reveal_strlit(r"(?ix)^(?:cursor|windsurf|kiro|trae|zed|zeditor|dev\.zed\.zed(?:-preview)?|lapce|pulsar|positron|void|antigravity)(?:[\s._-]*(?:insiders|next|preview))?(?:\.exe)?$");
    reveal_strlit(r"(?ix)^(?:microsoft[\s._-]*)?(?:visual[\s._-]*studio|devenv)(?:[\s._-]*20\d{2})?(?:\.exe)?$");
    reveal_strlit(r"(?ix)^(?:xcode|eclipse(?:[\s._-]*ide)?|apache[\s._-]*netbeans|netbeans|qt[\s._-]*creator|qtcreator|kdevelop|gnome[\s._-]*builder|org\.gnome\.builder|geany|kate|sublime[\s._-]*text|sublime_text|nova|spyder|thonny|wing(?:[\s._-]*ide)?|arduino(?:[\s._-]*ide)?|rstudio|dbeaver|sql[\s._-]*developer|sqldeveloper|neovide|goneovim|nvim[\s._-]*qt|macvim|emacs)(?:\.exe)?$");
    reveal_strlit(r"(?ix)^(?:unity(?:[\s._-]*editor)?|unrealeditor|unreal[\s._-]*editor|godot(?:[\s._-]*engine)?)(?:\.exe)?$");
    reveal_strlit("(?ix)^");
    assert forall|p: int| 0 <= p < ide_patterns().len() implies (#[trigger] ide_patterns()[p]).subrange(0, 6) == "(?ix)^"@ && ide_patterns()[p].last() == '$' by {
        assert(ide_patterns()[0].subrange(0, 6) =~= "(?ix)^"@);
        assert(ide_patterns()[1].subrange(0, 6) =~= "(?ix)^"@);
        assert(ide_patterns()[2].subrange(0, 6) =~= "(?ix)^"@);
        assert(ide_patterns()[3].subrange(0, 6) =~= "(?ix)^"@);
        assert(ide_patterns()[4].subrange(0, 6) =~= "(?ix)^"@);
        assert(ide_patterns()[5].subrange(0, 6) =~= "(?ix)^"@);
        assert(ide_patterns()[6].subrange(0, 6) =~= "(?ix)^"@);
        assert(ide_patterns()[7].subrange(0, 6) =~= "(?ix)^"@);
    }
}

proof fn lemma_ide_patterns_name_part_0()
    ensures
        patterns_name(ide_patterns(), "code"@),
        patterns_name(ide_patterns(), "vscodium"@),
        patterns_name(ide_patterns(), "codium"@),
        patterns_name(ide_patterns(), "intellij"@),
        patterns_name(ide_patterns(), "idea"@),
        patterns_name(ide_patterns(), "pycharm"@),
        patterns_name(ide_patterns(), "webstorm"@),
        patterns_name(ide_patterns(), "phpstorm"@),
        patterns_name(ide_patterns(), "rubymine"@),
        patterns_name(ide_patterns(), "clion"@),
        patterns_name(ide_patterns(), "goland"@),
        patterns_name(ide_patterns(), "rider"@),
        patterns_name(ide_patterns(), "datagrip"@),
        patterns_name(ide_patterns(), "dataspell"@),
        patterns_name(ide_patterns(), "rustrover"@),
        patterns_name(ide_patterns(), "studio64"@),
        patterns_name(ide_patterns(), "mps"@),
        patterns_name(ide_patterns(), "aqua"@),
{
    reveal_strlit(r"(?ix)^(?:microsoft[\s._-]*)?(?:visual[\s._-]*studio[\s._-]*code|vs[\s._-]*code|code)(?:[\s._-]*(?:insiders|oss))?(?:\.exe)?$");
    reveal_strlit(r"(?ix)^(?:vscodium|codium)(?:[\s._-]*insiders)?(?:\.exe)?$");
    reveal_strlit(r"(?ix)^(?:jetbrains[\s._-]*)?(?:intellij(?:[\s._-]*idea)?|idea(?:64)?|pycharm(?:64)?|webstorm(?:64)?|phpstorm(?:64)?|rubymine(?:64)?|clion(?:64)?|goland(?:64)?|rider(?:64)?|datagrip(?:64)?|dataspell(?:64)?|rustrover(?:64)?|android[\s._-]*studio|studio64|mps|aqua|fleet|appcode)(?:[\s._-]*(?:community|professional|ultimate|educational|preview|eap|ce|ue))?(?:\.exe)?$");
    reveal_strlit("code");
    assert(ide_patterns()[0].subrange(59, 63) =~= "code"@);
    assert(names_word_at(ide_patterns()[0], "code"@, 59));
    reveal_strlit("vscodium");
    assert(ide_patterns()[1].subrange(9, 17) =~= "vscodium"@);
    assert(names_word_at(ide_patterns()[1], "vscodium"@, 9));
    reveal_strlit("codium");
    assert(ide_patterns()[1].subrange(18, 24) =~= "codium"@);
    assert(names_word_at(ide_patterns()[1], "codium"@, 18));
    reveal_strlit("intellij");
    assert(ide_patterns()[2].subrange(31, 39) =~= "intellij"@);
    assert(names_word_at(ide_patterns()[2], "intellij"@, 31));
    reveal_strlit("idea");
    assert(ide_patterns()[2].subrange(50, 54) =~= "idea"@);
    assert(names_word_at(ide_patterns()[2], "idea"@, 50));
    reveal_strlit("pycharm");
    assert(ide_patterns()[2].subrange(69, 76) =~= "pycharm"@);
    assert(names_word_at(ide_patterns()[2], "pycharm"@, 69));
    reveal_strlit("webstorm");
    assert(ide_patterns()[2].subrange(84, 92) =~= "webstorm"@);
    assert(names_word_at(ide_patterns()[2], "webstorm"@, 84));
    reveal_strlit("phpstorm");
    assert(ide_patterns()[2].subrange(100, 108) =~= "phpstorm"@);
    assert(names_word_at(ide_patterns()[2], "phpstorm"@, 100));
    reveal_strlit("rubymine");
    assert(ide_patterns()[2].subrange(116, 124) =~= "rubymine"@);
    assert(names_word_at(ide_patterns()[2], "rubymine"@, 116));
    reveal_strlit("clion");
    assert(ide_patterns()[2].subrange(132, 137) =~= "clion"@);
    assert(names_word_at(ide_patterns()[2], "clion"@, 132));
    reveal_strlit("goland");
    assert(ide_patterns()[2].subrange(145, 151) =~= "goland"@);
    assert(names_word_at(ide_patterns()[2], "goland"@, 145));
    reveal_strlit("rider");
    assert(ide_patterns()[2].subrange(159, 164) =~= "rider"@);
    assert(names_word_at(ide_patterns()[2], "rider"@, 159));
    reveal_strlit("datagrip");
    assert(ide_patterns()[2].subrange(172, 180) =~= "datagrip"@);
    assert(names_word_at(ide_patterns()[2], "datagrip"@, 172));
    reveal_strlit("dataspell");
    assert(ide_patterns()[2].subrange(188, 197) =~= "dataspell"@);
    assert(names_word_at(ide_patterns()[2], "dataspell"@, 188));
    reveal_strlit("rustrover");
    assert(ide_patterns()[2].subrange(205, 214) =~= "rustrover"@);
    assert(names_word_at(ide_patterns()[2], "rustrover"@, 205));
    reveal_strlit("studio64");
    assert(ide_patterns()[2].subrange(244, 252) =~= "studio64"@);
    assert(names_word_at(ide_patterns()[2], "studio64"@, 244));
    reveal_strlit("mps");
    assert(ide_patterns()[2].subrange(253, 256) =~= "mps"@);
    assert(names_word_at(ide_patterns()[2], "mps"@, 253));
    reveal_strlit("aqua");
    assert(ide_patterns()[2].subrange(257, 261) =~= "aqua"@);
    assert(names_word_at(ide_patterns()[2], "aqua"@, 257));
}

proof fn lemma_ide_patterns_name_part_1()
    ensures
        patterns_name(ide_patterns(), "fleet"@),
        patterns_name(ide_patterns(), "appcode"@),
        patterns_name(ide_patterns(), "air"@),
        patterns_name(ide_patterns(), "cursor"@),
        patterns_name(ide_patterns(), "windsurf"@),
        patterns_name(ide_patterns(), "kiro"@),
        patterns_name(ide_patterns(), "trae"@),
        patterns_name(ide_patterns(), "zed"@),
        patterns_name(ide_patterns(), "zeditor"@),
        patterns_name(ide_patterns(), "lapce"@),
        patterns_name(ide_patterns(), "pulsar"@),
        patterns_name(ide_patterns(), "positron"@),
        patterns_name(ide_patterns(), "void"@),
        patterns_name(ide_patterns(), "antigravity"@),
        patterns_name(ide_patterns(), "devenv"@),
        patterns_name(ide_patterns(), "xcode"@),
        patterns_name(ide_patterns(), "eclipse"@),
        patterns_name(ide_patterns(), "netbeans"@),
{
    reveal_strlit(r"(?ix)^(?:jetbrains[\s._-]*)?(?:intellij(?:[\s._-]*idea)?|idea(?:64)?|pycharm(?:64)?|webstorm(?:64)?|phpstorm(?:64)?|rubymine(?:64)?|clion(?:64)?|goland(?:64)?|rider(?:64)?|datagrip(?:64)?|dataspell(?:64)?|rustrover(?:64)?|android[\s._-]*studio|studio64|mps|aqua|fleet|appcode)(?:[\s._-]*(?:community|professional|ultimate|educational|preview|eap|ce|ue))?(?:\.exe)?$");
    reveal_strlit(r"(?ix)^jetbrains[\s._-]*air(?:[\s._-]*(?:preview|eap))?(?:\.exe)?$");
    reveal_strlit(r"(?ix)^(?:cursor|windsurf|kiro|trae|zed|zeditor|dev\.zed\.zed(?:-preview)?|lapce|pulsar|positron|void|antigravity)(?:[\s._-]*(?:insiders|next|preview))?(?:\.exe)?$");
    reveal_strlit(r"(?ix)^(?:microsoft[\s._-]*)?(?:visual[\s._-]*studio|devenv)(?:[\s._-]*20\d{2})?(?:\.exe)?$");
    reveal_strlit(r"(?ix)^(?:xcode|eclipse(?:[\s._-]*ide)?|apache[\s._-]*netbeans|netbeans|qt[\s._-]*creator|qtcreator|kdevelop|gnome[\s._-]*builder|org\.gnome\.builder|geany|kate|sublime[\s._-]*text|sublime_text|nova|spyder|thonny|wing(?:[\s._-]*ide)?|arduino(?:[\s._-]*ide)?|rstudio|dbeaver|sql[\s._-]*developer|sqldeveloper|neovide|goneovim|nvim[\s._-]*qt|macvim|emacs)(?:\.exe)?$");
    reveal_strlit("fleet");
    assert(ide_patterns()[2].subrange(262, 267) =~= "fleet"@);
    assert(names_word_at(ide_patterns()[2], "fleet"@, 262));
    reveal_strlit("appcode");
    assert(ide_patterns()[2].subrange(268, 275) =~= "appcode"@);
    assert(names_word_at(ide_patterns()[2], "appcode"@, 268));
    reveal_strlit("air");
    assert(ide_patterns()[3].subrange(23, 26) =~= "air"@);
    assert(names_word_at(ide_patterns()[3], "air"@, 23));
    reveal_strlit("cursor");
    assert(ide_patterns()[4].subrange(9, 15) =~= "cursor"@);
    assert(names_word_at(ide_patterns()[4], "cursor"@, 9));
    reveal_strlit("windsurf");
    assert(ide_patterns()[4].subrange(16, 24) =~= "windsurf"@);
    assert(names_word_at(ide_patterns()[4], "windsurf"@, 16));
    reveal_strlit("kiro");
    assert(ide_patterns()[4].subrange(25, 29) =~= "kiro"@);
    assert(names_word_at(ide_patterns()[4], "kiro"@, 25));
    reveal_strlit("trae");
    assert(ide_patterns()[4].subrange(30, 34) =~= "trae"@);
    assert(names_word_at(ide_patterns()[4], "trae"@, 30));
    reveal_strlit("zed");
    assert(ide_patterns()[4].subrange(35, 38) =~= "zed"@);
    assert(names_word_at(ide_patterns()[4], "zed"@, 35));
    reveal_strlit("zeditor");
    assert(ide_patterns()[4].subrange(39, 46) =~= "zeditor"@);
    assert(names_word_at(ide_patterns()[4], "zeditor"@, 39));
    reveal_strlit("lapce");
    assert(ide_patterns()[4].subrange(74, 79) =~= "lapce"@);
    assert(names_word_at(ide_patterns()[4], "lapce"@, 74));
    reveal_strlit("pulsar");
    assert(ide_patterns()[4].subrange(80, 86) =~= "pulsar"@);
    assert(names_word_at(ide_patterns()[4], "pulsar"@, 80));
    reveal_strlit("positron");
    assert(ide_patterns()[4].subrange(87, 95) =~= "positron"@);
    assert(names_word_at(ide_patterns()[4], "positron"@, 87));
    reveal_strlit("void");
    assert(ide_patterns()[4].subrange(96, 100) =~= "void"@);
    assert(names_word_at(ide_patterns()[4], "void"@, 96));
    reveal_strlit("antigravity");
    assert(ide_patterns()[4].subrange(101, 112) =~= "antigravity"@);
    assert(names_word_at(ide_patterns()[4], "antigravity"@, 101));
    reveal_strlit("devenv");
    assert(ide_patterns()[5].subrange(52, 58) =~= "devenv"@);
    assert(names_word_at(ide_patterns()[5], "devenv"@, 52));
    reveal_strlit("xcode");
    assert(ide_patterns()[6].subrange(9, 14) =~= "xcode"@);
    assert(names_word_at(ide_patterns()[6], "xcode"@, 9));
    reveal_strlit("eclipse");
    assert(ide_patterns()[6].subrange(15, 22) =~= "eclipse"@);
    assert(names_word_at(ide_patterns()[6], "eclipse"@, 15));
    reveal_strlit("netbeans");
    assert(ide_patterns()[6].subrange(53, 61) =~= "netbeans"@);
    assert(names_word_at(ide_patterns()[6], "netbeans"@, 53));
}

proof fn lemma_ide_patterns_name_part_2()
    ensures
        patterns_name(ide_patterns(), "qtcreator"@),
        patterns_name(ide_patterns(), "kdevelop"@),
        patterns_name(ide_patterns(), "geany"@),
        patterns_name(ide_patterns(), "kate"@),
        patterns_name(ide_patterns(), "sublime_text"@),
        patterns_name(ide_patterns(), "nova"@),
        patterns_name(ide_patterns(), "spyder"@),
        patterns_name(ide_patterns(), "thonny"@),
        patterns_name(ide_patterns(), "wing"@),
        patterns_name(ide_patterns(), "arduino"@),
        patterns_name(ide_patterns(), "rstudio"@),
        patterns_name(ide_patterns(), "dbeaver"@),
        patterns_name(ide_patterns(), "sqldeveloper"@),
        patterns_name(ide_patterns(), "neovide"@),
        patterns_name(ide_patterns(), "goneovim"@),
        patterns_name(ide_patterns(), "macvim"@),
        patterns_name(ide_patterns(), "emacs"@),
        patterns_name(ide_patterns(), "unity"@),
{
    reveal_strlit(r"(?ix)^(?:xcode|eclipse(?:[\s._-]*ide)?|apache[\s._-]*netbeans|netbeans|qt[\s._-]*creator|qtcreator|kdevelop|gnome[\s._-]*builder|org\.gnome\.builder|geany|kate|sublime[\s._-]*text|sublime_text|nova|spyder|thonny|wing(?:[\s._-]*ide)?|arduino(?:[\s._-]*ide)?|rstudio|dbeaver|sql[\s._-]*developer|sqldeveloper|neovide|goneovim|nvim[\s._-]*qt|macvim|emacs)(?:\.exe)?$");
    reveal_strlit(r"(?ix)^(?:unity(?:[\s._-]*editor)?|unrealeditor|unreal[\s._-]*editor|godot(?:[\s._-]*engine)?)(?:\.exe)?$");
    reveal_strlit("qtcreator");
    assert(ide_patterns()[6].subrange(89, 98) =~= "qtcreator"@);
    assert(names_word_at(ide_patterns()[6], "qtcreator"@, 89));
    reveal_strlit("kdevelop");
    assert(ide_patterns()[6].subrange(99, 107) =~= "kdevelop"@);
    assert(names_word_at(ide_patterns()[6], "kdevelop"@, 99));
    reveal_strlit("geany");
    assert(ide_patterns()[6].subrange(149, 154) =~= "geany"@);
    assert(names_word_at(ide_patterns()[6], "geany"@, 149));
    reveal_strlit("kate");
    assert(ide_patterns()[6].subrange(155, 159) =~= "kate"@);
    assert(names_word_at(ide_patterns()[6], "kate"@, 155));
    reveal_strlit("sublime_text");
    assert(ide_patterns()[6].subrange(180, 192) =~= "sublime_text"@);
    assert(names_word_at(ide_patterns()[6], "sublime_text"@, 180));
    reveal_strlit("nova");
    assert(ide_patterns()[6].subrange(193, 197) =~= "nova"@);
    assert(names_word_at(ide_patterns()[6], "nova"@, 193));
    reveal_strlit("spyder");
    assert(ide_patterns()[6].subrange(198, 204) =~= "spyder"@);
    assert(names_word_at(ide_patterns()[6], "spyder"@, 198));
    reveal_strlit("thonny");
    assert(ide_patterns()[6].subrange(205, 211) =~= "thonny"@);
    assert(names_word_at(ide_patterns()[6], "thonny"@, 205));
    reveal_strlit("wing");
    assert(ide_patterns()[6].subrange(212, 216) =~= "wing"@);
    assert(names_word_at(ide_patterns()[6], "wing"@, 212));
    reveal_strlit("arduino");
    assert(ide_patterns()[6].subrange(233, 240) =~= "arduino"@);
    assert(names_word_at(ide_patterns()[6], "arduino"@, 233));
    reveal_strlit("rstudio");
    assert(ide_patterns()[6].subrange(257, 264) =~= "rstudio"@);
    assert(names_word_at(ide_patterns()[6], "rstudio"@, 257));
    reveal_strlit("dbeaver");
    assert(ide_patterns()[6].subrange(265, 272) =~= "dbeaver"@);
    assert(names_word_at(ide_patterns()[6], "dbeaver"@, 265));
    reveal_strlit("sqldeveloper");
    assert(ide_patterns()[6].subrange(294, 306) =~= "sqldeveloper"@);
    assert(names_word_at(ide_patterns()[6], "sqldeveloper"@, 294));
    reveal_strlit("neovide");
    assert(ide_patterns()[6].subrange(307, 314) =~= "neovide"@);
    assert(names_word_at(ide_patterns()[6], "neovide"@, 307));
    reveal_strlit("goneovim");
    assert(ide_patterns()[6].subrange(315, 323) =~= "goneovim"@);
    assert(names_word_at(ide_patterns()[6], "goneovim"@, 315));
    reveal_strlit("macvim");
    assert(ide_patterns()[6].subrange(339, 345) =~= "macvim"@);
    assert(names_word_at(ide_patterns()[6], "macvim"@, 339));
    reveal_strlit("emacs");
    assert(ide_patterns()[6].subrange(346, 351) =~= "emacs"@);
    assert(names_word_at(ide_patterns()[6], "emacs"@, 346));
    reveal_strlit("unity");
    assert(ide_patterns()[7].subrange(9, 14) =~= "unity"@);
    assert(names_word_at(ide_patterns()[7], "unity"@, 9));
}

proof fn lemma_ide_patterns_name_part_3()
    ensures
        patterns_name(ide_patterns(), "unrealeditor"@),
        patterns_name(ide_patterns(), "godot"@),
        patterns_name(ide_patterns(), "visual"@),
        patterns_name(ide_patterns(), "studio"@),
        patterns_name(ide_patterns(), "android"@),
        patterns_name(ide_patterns(), "creator"@),
        patterns_name(ide_patterns(), "builder"@),
        patterns_name(ide_patterns(), "sublime"@),
        patterns_name(ide_patterns(), "developer"@),
        patterns_name(ide_patterns(), "unreal"@),
        patterns_name(ide_patterns(), "editor"@),
        patterns_name(ide_patterns(), "insiders"@),
        patterns_name(ide_patterns(), "oss"@),
{
    reveal_strlit(r"(?ix)^(?:microsoft[\s._-]*)?(?:visual[\s._-]*studio[\s._-]*code|vs[\s._-]*code|code)(?:[\s._-]*(?:insiders|oss))?(?:\.exe)?$");
    reveal_strlit(r"(?ix)^(?:jetbrains[\s._-]*)?(?:intellij(?:[\s._-]*idea)?|idea(?:64)?|pycharm(?:64)?|webstorm(?:64)?|phpstorm(?:64)?|rubymine(?:64)?|clion(?:64)?|goland(?:64)?|rider(?:64)?|datagrip(?:64)?|dataspell(?:64)?|rustrover(?:64)?|android[\s._-]*studio|studio64|mps|aqua|fleet|appcode)(?:[\s._-]*(?:community|professional|ultimate|educational|preview|eap|ce|ue))?(?:\.exe)?$");
    reveal_strlit(r"(?ix)^(?:xcode|eclipse(?:[\s._-]*ide)?|apache[\s._-]*netbeans|netbeans|qt[\s._-]*creator|qtcreator|kdevelop|gnome[\s._-]*builder|org\.gnome\.builder|geany|kate|sublime[\s._-]*text|sublime_text|nova|spyder|thonny|wing(?:[\s._-]*ide)?|arduino(?:[\s._-]*ide)?|rstudio|dbeaver|sql[\s._-]*developer|sqldeveloper|neovide|goneovim|nvim[\s._-]*qt|macvim|emacs)(?:\.exe)?$");
    reveal_strlit(r"(?ix)^(?:unity(?:[\s._-]*editor)?|unrealeditor|unreal[\s._-]*editor|godot(?:[\s._-]*engine)?)(?:\.exe)?$");
    reveal_strlit("unrealeditor");
    assert(ide_patterns()[7].subrange(34, 46) =~= "unrealeditor"@);
    assert(names_word_at(ide_patterns()[7], "unrealeditor"@, 34));
    reveal_strlit("godot");
    assert(ide_patterns()[7].subrange(68, 73) =~= "godot"@);
    assert(names_word_at(ide_patterns()[7], "godot"@, 68));
    reveal_strlit("visual");
    assert(ide_patterns()[0].subrange(31, 37) =~= "visual"@);
    assert(names_word_at(ide_patterns()[0], "visual"@, 31));
    reveal_strlit("studio");
    assert(ide_patterns()[0].subrange(45, 51) =~= "studio"@);
    assert(names_word_at(ide_patterns()[0], "studio"@, 45));
    reveal_strlit("android");
    assert(ide_patterns()[2].subrange(222, 229) =~= "android"@);
    assert(names_word_at(ide_patterns()[2], "android"@, 222));
    reveal_strlit("creator");
    assert(ide_patterns()[6].subrange(81, 88) =~= "creator"@);
    assert(names_word_at(ide_patterns()[6], "creator"@, 81));
    reveal_strlit("builder");
    assert(ide_patterns()[6].subrange(121, 128) =~= "builder"@);
    assert(names_word_at(ide_patterns()[6], "builder"@, 121));
    reveal_strlit("sublime");
    assert(ide_patterns()[6].subrange(160, 167) =~= "sublime"@);
    assert(names_word_at(ide_patterns()[6], "sublime"@, 160));
    reveal_strlit("developer");
    assert(ide_patterns()[6].subrange(284, 293) =~= "developer"@);
    assert(names_word_at(ide_patterns()[6], "developer"@, 284));
    reveal_strlit("unreal");
    assert(ide_patterns()[7].subrange(47, 53) =~= "unreal"@);
    assert(names_word_at(ide_patterns()[7], "unreal"@, 47));
    reveal_strlit("editor");
    assert(ide_patterns()[7].subrange(25, 31) =~= "editor"@);
    assert(names_word_at(ide_patterns()[7], "editor"@, 25));
    reveal_strlit("insiders");
    assert(ide_patterns()[0].subrange(98, 106) =~= "insiders"@);
    assert(names_word_at(ide_patterns()[0], "insiders"@, 98));
    reveal_strlit("oss");
    assert(ide_patterns()[0].subrange(107, 110) =~= "oss"@);
    assert(names_word_at(ide_patterns()[0], "oss"@, 107));
}

/// The IDE patterns name every supported editor and IDE family, each as a
/// whole alternative: VS Code and VSCodium, the JetBrains IDEs, the AI-first
/// editors, Visual Studio, the established desktop IDEs and the game engine
/// editors.
pub proof fn lemma_ide_patterns_name_supported_ides()
    ensures
        patterns_name(ide_patterns(), "code"@),
        patterns_name(ide_patterns(), "vscodium"@),
        patterns_name(ide_patterns(), "codium"@),
        patterns_name(ide_patterns(), "intellij"@),
        patterns_name(ide_patterns(), "idea"@),
        patterns_name(ide_patterns(), "pycharm"@),
        patterns_name(ide_patterns(), "webstorm"@),
        patterns_name(ide_patterns(), "phpstorm"@),
        patterns_name(ide_patterns(), "rubymine"@),
        patterns_name(ide_patterns(), "clion"@),
        patterns_name(ide_patterns(), "goland"@),
        patterns_name(ide_patterns(), "rider"@),
        patterns_name(ide_patterns(), "datagrip"@),
        patterns_name(ide_patterns(), "dataspell"@),
        patterns_name(ide_patterns(), "rustrover"@),
        patterns_name(ide_patterns(), "studio64"@),
        patterns_name(ide_patterns(), "mps"@),
        patterns_name(ide_patterns(), "aqua"@),
        patterns_name(ide_patterns(), "fleet"@),
        patterns_name(ide_patterns(), "appcode"@),
        patterns_name(ide_patterns(), "air"@),
        patterns_name(ide_patterns(), "cursor"@),
        patterns_name(ide_patterns(), "windsurf"@),
        patterns_name(ide_patterns(), "kiro"@),
        patterns_name(ide_patterns(), "trae"@),
        patterns_name(ide_patterns(), "zed"@),
        patterns_name(ide_patterns(), "zeditor"@),
        patterns_name(ide_patterns(), "lapce"@),
        patterns_name(ide_patterns(), "pulsar"@),
        patterns_name(ide_patterns(), "positron"@),
        patterns_name(ide_patterns(), "void"@),
        patterns_name(ide_patterns(), "antigravity"@),
        patterns_name(ide_patterns(), "devenv"@),
        patterns_name(ide_patterns(), "xcode"@),
        patterns_name(ide_patterns(), "eclipse"@),
        patterns_name(ide_patterns(), "netbeans"@),
        patterns_name(ide_patterns(), "qtcreator"@),
        patterns_name(ide_patterns(), "kdevelop"@),
        patterns_name(ide_patterns(), "geany"@),
        patterns_name(ide_patterns(), "kate"@),
        patterns_name(ide_patterns(), "sublime_text"@),
        patterns_name(ide_patterns(), "nova"@),
        patterns_name(ide_patterns(), "spyder"@),
        patterns_name(ide_patterns(), "thonny"@),
        patterns_name(ide_patterns(), "wing"@),
        patterns_name(ide_patterns(), "arduino"@),
        patterns_name(ide_patterns(), "rstudio"@),
        patterns_name(ide_patterns(), "dbeaver"@),
        patterns_name(ide_patterns(), "sqldeveloper"@),
        patterns_name(ide_patterns(), "neovide"@),
        patterns_name(ide_patterns(), "goneovim"@),
        patterns_name(ide_patterns(), "macvim"@),
        patterns_name(ide_patterns(), "emacs"@),
        patterns_name(ide_patterns(), "unity"@),
        patterns_name(ide_patterns(), "unrealeditor"@),
        patterns_name(ide_patterns(), "godot"@),
        patterns_name(ide_patterns(), "visual"@),
        patterns_name(ide_patterns(), "studio"@),
        patterns_name(ide_patterns(), "android"@),
        patterns_name(ide_patterns(), "creator"@),
        patterns_name(ide_patterns(), "builder"@),
        patterns_name(ide_patterns(), "sublime"@),
        patterns_name(ide_patterns(), "developer"@),
        patterns_name(ide_patterns(), "unreal"@),
        patterns_name(ide_patterns(), "editor"@),
        patterns_name(ide_patterns(), "insiders"@),
        patterns_name(ide_patterns(), "oss"@),
{
    lemma_ide_patterns_name_part_0();
    lemma_ide_patterns_name_part_1();
    lemma_ide_patterns_name_part_2();
    lemma_ide_patterns_name_part_3();
}

} // verus!
