//! Major and minor modes, and the registry that picks a major mode for a
//! file from its name.

use vstd::prelude::*;
use std::collections::HashMap;
use tree_sitter::Language;
use std::any::Any;
use crate::strs::{has_suffix, str_ends_with, str_equal, str_starts_with};

verus! {

/// How a mode indents text.
#[derive(Debug, Clone, Copy, PartialEq, Eq, Structural)]
pub enum IndentStyle {
    Spaces(usize),
    Tabs,
}

/// Key combination to command name.
pub type KeybindingMap = HashMap<String, String>;

/// The behaviour of one file type; a buffer has exactly one.
pub trait MajorMode: Send + Sync {
    /// The name that `name` gives. A mode verified with Verus defines it;
    /// for any other mode it is an unknown value.
    open spec fn spec_name(&self) -> Seq<char> {
        vstd::pervasive::arbitrary()
    }

    /// The patterns that `file_patterns` gives, in order. A mode verified
    /// with Verus defines it; for any other mode it is an unknown value.
    open spec fn spec_file_patterns(&self) -> Seq<Seq<char>> {
        vstd::pervasive::arbitrary()
    }

    /// The mode's name, such as "rust".
    fn name(&self) -> (n: &str)
        ensures
            n@ == self.spec_name(),
    ;

    /// The file name patterns the mode applies to, such as "*.rs".
    fn file_patterns(&self) -> (p: &[&str])
        ensures
            p@.len() == self.spec_file_patterns().len(),
            forall|k: int| 0 <= k < p@.len() ==> (#[trigger] p@[k])@ == self.spec_file_patterns()[k],
    ;

    /// The grammar used to parse buffers in this mode, if any.
    fn grammar(&self) -> (g: Option<&Language>)
        default_ensures
            g is None,
    {
        None
    }

    /// How the mode indents.
    fn indent_style(&self) -> IndentStyle;

    /// The mode's key bindings.
    fn keybindings(&self) -> (m: KeybindingMap)
        default_ensures
            m@ == Map::<String, String>::empty(),
    {
        HashMap::new()
    }
}

/// A stackable layer of behaviour; a buffer has any number of them. `S` is
/// the state handed to the activation hooks.
pub trait MinorMode<S = ()>: Send + Sync {
    /// The mode's name.
    fn name(&self) -> &str;

    /// The mode's key bindings, which take precedence over the major mode's.
    fn keybindings(&self) -> (m: KeybindingMap)
        default_ensures
            m@ == Map::<String, String>::empty(),
    {
        HashMap::new()
    }

    /// Called when the mode is switched on for a buffer.
    fn on_activate(&mut self, buffer_id: usize, state: &mut S);

    /// Called when the mode is switched off for a buffer.
    fn on_deactivate(&mut self, buffer_id: usize, state: &mut S);
}

/// The fallback major mode for text with no more specific mode.
#[derive(Debug)]
pub struct PlainTextMode;

impl MajorMode for PlainTextMode {
    open spec fn spec_name(&self) -> Seq<char> {
        "plain-text"@
    }

    open spec fn spec_file_patterns(&self) -> Seq<Seq<char>> {
        seq!["*.txt"@]
    }

    fn name(&self) -> (n: &str)
        ensures
            n@ == "plain-text"@,
    {
        "plain-text"
    }

    fn file_patterns(&self) -> (p: &[&str])
        ensures
            p@.len() == 1,
            p@[0]@ == "*.txt"@,
    {
        let pats: &[&str] = &["*.txt"];
        pats
    }

    fn grammar(&self) -> (g: Option<&Language>)
        ensures
            g is None,
    {
        None
    }

    fn indent_style(&self) -> (s: IndentStyle)
        ensures
            s == IndentStyle::Spaces(4),
    {
        IndentStyle::Spaces(4)
    }

    fn keybindings(&self) -> (m: KeybindingMap)
        ensures
            m@ == Map::<String, String>::empty(),
    {
        HashMap::new()
    }
}

/// The plain-text mode, boxed as a major mode.
pub open spec fn plain_text_box() -> Box<dyn MajorMode> {
    Box::new(PlainTextMode)
}

impl PlainTextMode {
    pub fn new() -> Self {
        Self
    }
}

impl Default for PlainTextMode {
    fn default() -> Self {
        Self::new()
    }
}

/// A registered major mode, as the registry sees it: its name and its file
/// patterns.
pub struct ModeEntry {
    pub name: Seq<char>,
    pub patterns: Seq<Seq<char>>,
}

/// A file path matches a pattern: a pattern that starts with `*` matches
/// every path that ends with the rest of it; any other pattern matches only
/// itself.
pub open spec fn pattern_matches(path: Seq<char>, pattern: Seq<char>) -> bool {
    if pattern.len() > 0 && pattern[0] == '*' {
        has_suffix(path, pattern.skip(1))
    } else {
        path == pattern
    }
}

/// `s` ends with `suffix` exactly when `s` is some text followed by `suffix`.
pub proof fn suffix_is_a_tail(s: Seq<char>, suffix: Seq<char>)
    ensures
        has_suffix(s, suffix) <==> exists|pre: Seq<char>| s == pre + suffix,
{
    if has_suffix(s, suffix) {
        let pre = s.subrange(0, s.len() - suffix.len());
        assert(s =~= pre + suffix);
    }
    if exists|pre: Seq<char>| s == pre + suffix {
        let pre = choose|pre: Seq<char>| s == pre + suffix;
        assert(s.subrange(s.len() - suffix.len(), s.len() as int) =~= suffix);
    }
}

/// A pattern `*rest` matches exactly the paths that end with `rest`: some
/// text followed by `rest`.
pub proof fn star_pattern_matches(path: Seq<char>, rest: Seq<char>)
    ensures
        pattern_matches(path, seq!['*'] + rest) <==> exists|pre: Seq<char>| path == pre + rest,
{
    assert((seq!['*'] + rest).skip(1) =~= rest);
    suffix_is_a_tail(path, rest);
}

/// A pattern `*.ext` matches exactly the paths made of some text, a dot,
/// and `ext`; so a path whose char before its last `ext.len()` chars is not
/// a dot is never matched, even if it ends with `ext`.
pub proof fn extension_pattern_matches(path: Seq<char>, ext: Seq<char>)
    ensures
        pattern_matches(path, seq!['*', '.'] + ext) <==> exists|pre: Seq<char>| path == pre + seq![
            '.',
        ] + ext,
        path.len() > ext.len() && path[path.len() - ext.len() - 1] != '.' ==> !pattern_matches(
            path,
            seq!['*', '.'] + ext,
        ),
        path.len() <= ext.len() ==> !pattern_matches(path, seq!['*', '.'] + ext),
{
    assert(seq!['*', '.'] + ext =~= seq!['*'] + (seq!['.'] + ext));
    star_pattern_matches(path, seq!['.'] + ext);
    if pattern_matches(path, seq!['*', '.'] + ext) {
        let pre = choose|pre: Seq<char>| path == pre + (seq!['.'] + ext);
        assert(pre + (seq!['.'] + ext) =~= pre + seq!['.'] + ext);
        assert(path == pre + seq!['.'] + ext);
    }
    if exists|pre: Seq<char>| path == pre + seq!['.'] + ext {
        let pre = choose|pre: Seq<char>| path == pre + seq!['.'] + ext;
        assert(pre + (seq!['.'] + ext) =~= pre + seq!['.'] + ext);
        assert(path == pre + (seq!['.'] + ext));
        assert(path[pre.len() as int] == '.');
    }
}

/// A pattern that does not start with `*` matches only the identical path.
pub proof fn plain_pattern_matches(path: Seq<char>, pattern: Seq<char>)
    requires
        pattern.len() == 0 || pattern[0] != '*',
    ensures
        pattern_matches(path, pattern) <==> path == pattern,
{
}

/// The entry claims the path: it is not the plain-text fallback, and one of
/// its patterns matches the path.
pub open spec fn entry_matches(e: ModeEntry, path: Seq<char>) -> bool {
    &&& e.name != "plain-text"@
    &&& exists|j: int| 0 <= j < e.patterns.len() && pattern_matches(path, #[trigger] e.patterns[j])
}

/// The name of the first entry that claims the path, or "plain-text" when
/// none does.
pub open spec fn mode_name_for(entries: Seq<ModeEntry>, path: Seq<char>) -> Seq<char>
    decreases entries.len(),
{
    if entries.len() == 0 {
        "plain-text"@
    } else if entry_matches(entries[0], path) {
        entries[0].name
    } else {
        mode_name_for(entries.drop_first(), path)
    }
}

/// File-type assignment: the mode named for a path is the first registered
/// mode that claims it, and "plain-text" when no registered mode claims it.
pub proof fn mode_name_is_first_claimant(entries: Seq<ModeEntry>, path: Seq<char>)
    ensures
        (forall|k: int| 0 <= k < entries.len() ==> !entry_matches(#[trigger] entries[k], path))
            ==> mode_name_for(entries, path) == "plain-text"@,
        forall|k: int|
            0 <= k < entries.len() && entry_matches(#[trigger] entries[k], path) && (forall|j: int|
                0 <= j < k ==> !entry_matches(#[trigger] entries[j], path)) ==> mode_name_for(
                entries,
                path,
            ) == entries[k].name,
    decreases entries.len(),
{
    if entries.len() > 0 {
        let rest = entries.drop_first();
        mode_name_is_first_claimant(rest, path);
        assert forall|k: int| 0 <= k < rest.len() implies rest[k] == entries[k + 1] by {}
        if !entry_matches(entries[0], path) {
            assert forall|k: int|
                0 < k < entries.len() && entry_matches(#[trigger] entries[k], path) && (forall|j: int|
                    0 <= j < k ==> !entry_matches(#[trigger] entries[j], path)) implies mode_name_for(
                rest,
                path,
            ) == entries[k].name by {
                assert(rest[k - 1] == entries[k]);
                assert forall|j: int| 0 <= j < k - 1 implies !entry_matches(
                    #[trigger] rest[j],
                    path,
                ) by {
                    assert(rest[j] == entries[j + 1]);
                }
            }
            if forall|k: int| 0 <= k < entries.len() ==> !entry_matches(#[trigger] entries[k], path) {
                assert forall|k: int| 0 <= k < rest.len() implies !entry_matches(
                    #[trigger] rest[k],
                    path,
                ) by {
                    assert(rest[k] == entries[k + 1]);
                }
            }
        }
    }
}

/// Registration makes a mode available: once registered (as `register`
/// appends it) after modes none of which claims a path, a mode not named
/// "plain-text" is the mode named for every path that one of its patterns
/// matches.
pub proof fn registered_mode_is_found(entries: Seq<ModeEntry>, e: ModeEntry, path: Seq<char>)
    requires
        forall|k: int| 0 <= k < entries.len() ==> !entry_matches(#[trigger] entries[k], path),
        e.name != "plain-text"@,
        exists|j: int| 0 <= j < e.patterns.len() && pattern_matches(path, #[trigger] e.patterns[j]),
    ensures
        mode_name_for(entries.push(e), path) == e.name,
{
    let all = entries.push(e);
    mode_name_is_first_claimant(all, path);
    assert(all[entries.len() as int] == e);
    assert forall|j: int| 0 <= j < entries.len() implies !entry_matches(#[trigger] all[j], path) by {
        assert(all[j] == entries[j]);
    }
}

struct MajorModeInfo {
    name: String,
    file_patterns: Vec<String>,
}

/// The registry of known major modes, in the order they were registered.
pub struct MajorModeRegistry {
    modes: Vec<MajorModeInfo>,
}

pub open spec fn entry_of(name: Seq<char>, patterns: Seq<String>) -> ModeEntry {
    ModeEntry { name, patterns: patterns.map_values(|p: String| p@) }
}

impl View for MajorModeRegistry {
    type V = Seq<ModeEntry>;

    closed spec fn view(&self) -> Seq<ModeEntry> {
        self.modes@.map_values(|m: MajorModeInfo| entry_of(m.name@, m.file_patterns@))
    }
}

impl MajorModeRegistry {
    /// A registry that knows only the plain-text fallback, for "*.txt".
    pub fn new() -> (r: Self)
        ensures
            r@ == seq![ModeEntry { name: "plain-text"@, patterns: seq!["*.txt"@] }],
    {
        let mut registry = Self { modes: Vec::new() };
        let mut pats: Vec<String> = Vec::new();
        pats.push(String::from_str("*.txt"));
        registry.register_info("plain-text", pats);
        assert(pats@.map_values(|p: String| p@) =~= seq!["*.txt"@]);
        assert(registry@ =~= seq![ModeEntry { name: "plain-text"@, patterns: seq!["*.txt"@] }]);
        registry
    }

    /// Registers a major mode under its name and file patterns; it comes
    /// after every mode registered before. Any boxed mode is accepted, a
    /// `Box<dyn MajorMode>` among them.
    pub fn register<M: MajorMode + ?Sized>(&mut self, mode: Box<M>)
        ensures
            final(self)@ == old(self)@.push(
                ModeEntry { name: mode.spec_name(), patterns: mode.spec_file_patterns() },
            ),
    {
        let name = String::from_str(mode.name());
        let pats = mode.file_patterns();
        let mut patterns: Vec<String> = Vec::new();
        let mut i: usize = 0;
        while i < pats.len()
            invariant
                i <= pats@.len(),
                pats@.len() == mode.spec_file_patterns().len(),
                forall|k: int| 0 <= k < pats@.len() ==> (#[trigger] pats@[k])@ == mode.spec_file_patterns()[k],
                patterns@.len() == i,
                patterns@.map_values(|p: String| p@) == mode.spec_file_patterns().take(i as int),
            decreases pats@.len() - i,
        {
            let pat = String::from_str(pats[i]);
            assert(pat@ == mode.spec_file_patterns()[i as int]);
            let ghost before = patterns@;
            patterns.push(pat);
            assert(patterns@ == before.push(pat));
            i = i + 1;
            let ghost now = patterns@.map_values(|p: String| p@);
            let ghost was = before.map_values(|p: String| p@);
            let ghost want = mode.spec_file_patterns().take(i as int);
            assert forall|k: int| 0 <= k < i implies #[trigger] now[k] == want[k] by {
                if k < i - 1 {
                    assert(patterns@[k] == before[k]);
                    assert(was[k] == mode.spec_file_patterns().take(i - 1)[k]);
                }
            }
            assert(patterns@.map_values(|p: String| p@) =~= mode.spec_file_patterns().take(i as int));
        }
        assert(mode.spec_file_patterns().take(i as int) =~= mode.spec_file_patterns());
        self.register_info(name.as_str(), patterns);
    }

    /// Registers a mode given by its name and file patterns.
    pub fn register_info(&mut self, name: &str, file_patterns: Vec<String>)
        ensures
            final(self)@ == old(self)@.push(entry_of(name@, file_patterns@)),
    {
        self.modes.push(MajorModeInfo { name: String::from_str(name), file_patterns });
        assert(self@ =~= old(self)@.push(entry_of(name@, file_patterns@)));
    }

    /// The name of the major mode for a file: the first registered mode other
    /// than the plain-text fallback that has a pattern matching the path, or
    /// "plain-text" when there is none.
    pub fn mode_name_for_file(&self, file_path: &str) -> (n: &str)
        ensures
            n@ == mode_name_for(self@, file_path@),
    {
        let ghost entries = self@;
        let mut i: usize = 0;
        assert(entries.skip(0) =~= entries);
        while i < self.modes.len()
            invariant
                entries == self@,
                i <= entries.len(),
                mode_name_for(entries, file_path@) == mode_name_for(entries.skip(i as int), file_path@),
            decreases entries.len() - i,
        {
            let mode_info = &self.modes[i];
            assert(entries[i as int] == entry_of(mode_info.name@, mode_info.file_patterns@));
            assert(entries.skip(i as int).drop_first() =~= entries.skip(i + 1));
            if !str_equal(mode_info.name.as_str(), "plain-text") {
                let mut j: usize = 0;
                while j < mode_info.file_patterns.len()
                    invariant
                        entries == self@,
                        i < entries.len(),
                        entries[i as int] == entry_of(mode_info.name@, mode_info.file_patterns@),
                        mode_info.name@ != "plain-text"@,
                        mode_name_for(entries, file_path@) == mode_name_for(
                            entries.skip(i as int),
                            file_path@,
                        ),
                        j <= mode_info.file_patterns@.len(),
                        forall|k: int|
                            0 <= k < j ==> !pattern_matches(
                                file_path@,
                                #[trigger] mode_info.file_patterns@[k]@,
                            ),
                    decreases mode_info.file_patterns@.len() - j,
                {
                    if Self::matches_pattern(file_path, mode_info.file_patterns[j].as_str()) {
                        assert(entry_matches(entries[i as int], file_path@)) by {
                            let e = entries[i as int];
                            assert(e.patterns[j as int] == mode_info.file_patterns@[j as int]@);
                        }
                        assert(entries.skip(i as int)[0] == entries[i as int]);
                        return mode_info.name.as_str();
                    }
                    j = j + 1;
                }
                assert(!entry_matches(entries[i as int], file_path@)) by {
                    let e = entries[i as int];
                    assert forall|k: int| 0 <= k < e.patterns.len() implies !pattern_matches(
                        file_path@,
                        #[trigger] e.patterns[k],
                    ) by {
                        assert(e.patterns[k] == mode_info.file_patterns@[k]@);
                    }
                }
            }
            i = i + 1;
        }
        assert(entries.skip(i as int) =~= Seq::<ModeEntry>::empty());
        "plain-text"
    }

    /// A major mode instance for a file. Every file gets the plain-text mode:
    /// the registry keeps each registered mode's name and patterns, not a way
    /// to build a new instance of it, as a `MajorMode` method that returned a
    /// boxed `MajorMode` would make the trait refer to itself, which the
    /// verifier does not accept. `mode_name_for_file` names the mode that
    /// the patterns pick.
    pub fn mode_for_file(&self, _file_path: &str) -> (m: Box<dyn MajorMode>)
        ensures
            m == plain_text_box(),
    {
        let m: Box<dyn MajorMode> = Box::new(PlainTextMode::new());
        return m;
    }

    /// Whether a file path matches a pattern: "*.ext" matches paths ending in
    /// ".ext", "*suffix" matches paths ending in "suffix", and any other
    /// pattern matches only the identical path.
    pub fn matches_pattern(file_path: &str, pattern: &str) -> (b: bool)
        ensures
            b == pattern_matches(file_path@, pattern@),
    {
        proof {
            reveal_strlit("*.");
            reveal_strlit("*");
            reveal_strlit(".");
        }
        let n = pattern.unicode_len();
        if str_starts_with(pattern, "*.") {
            assert(pattern@.subrange(0, 2) == seq!['*', '.']);
            assert(pattern@[0] == pattern@.subrange(0, 2)[0]);
            assert(pattern@[1] == pattern@.subrange(0, 2)[1]);
            let extension = pattern.substring_char(2, n);
            let dotted = String::from_str(".").concat(extension);
            assert(dotted@ =~= pattern@.skip(1));
            str_ends_with(file_path, dotted.as_str())
        } else if str_starts_with(pattern, "*") {
            assert(pattern@[0] == pattern@.subrange(0, 1)[0]);
            let suffix = pattern.substring_char(1, n);
            assert(suffix@ =~= pattern@.skip(1));
            str_ends_with(file_path, suffix)
        } else {
            assert(!(pattern@.len() > 0 && pattern@[0] == '*')) by {
                assert("*"@ =~= seq!['*']);
                if pattern@.len() > 0 && pattern@[0] == '*' {
                    assert(pattern@.subrange(0, 1) =~= seq!['*']);
                }
            }
            str_equal(file_path, pattern)
        }
    }

    /// The names of all registered modes, in registration order.
    pub fn registered_modes(&self) -> (names: Vec<&str>)
        ensures
            names@.len() == self@.len(),
            forall|k: int| 0 <= k < names@.len() ==> (#[trigger] names@[k])@ == self@[k].name,
    {
        let mut names: Vec<&str> = Vec::new();
        let mut i: usize = 0;
        while i < self.modes.len()
            invariant
                i <= self.modes@.len(),
                names@.len() == i,
                forall|k: int| 0 <= k < i ==> (#[trigger] names@[k])@ == self@[k].name,
            decreases self.modes@.len() - i,
        {
            names.push(self.modes[i].name.as_str());
            i = i + 1;
        }
        names
    }
}

impl Default for MajorModeRegistry {
    fn default() -> (r: Self)
        ensures
            r@ == seq![ModeEntry { name: "plain-text"@, patterns: seq!["*.txt"@] }],
    {
        Self::new()
    }
}

} // verus!
