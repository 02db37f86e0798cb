//! Detection of registered commands after a trigger phrase.

use std::collections::HashMap;
use vstd::prelude::*;

verus! {

/// A command that was recognised in a text.
#[derive(Clone, Debug)]
pub struct Command {
    /// Name under which the command was registered.
    pub name: String,
    /// Parameters taken from the text.
    pub parameters: HashMap<String, String>,
}

/// Settings of a [`CommandDetector`].
#[derive(Clone, Debug)]
pub struct CommandDetectorConfig {
    /// Phrase that has to occur before a command is looked for.
    pub trigger_word: String,
    /// Least confidence, in percent, at which a command counts.
    pub min_confidence_percent: u8,
}

impl CommandDetectorConfig {
    /// The settings that `default` gives.
    pub open spec fn is_default(&self) -> bool {
        &&& self.trigger_word@ == "hey computer"@
        &&& self.min_confidence_percent == 70
    }
}

impl Default for CommandDetectorConfig {
    fn default() -> (config: Self)
        ensures
            config.is_default(),
    {
        CommandDetectorConfig {
            trigger_word: "hey computer".to_string(),
            min_confidence_percent: 70,
        }
    }
}

/// The lowercase form of `text`, as `str::to_lowercase` gives it.
pub uninterp spec fn lowercase(text: Seq<char>) -> Seq<char>;

/// `str::to_lowercase`: the result is the lowercase form of the argument, a
/// function of its characters alone.
#[verifier::external_body]
fn to_lowercase(text: &str) -> (lower: String)
    ensures
        lower@ == lowercase(text@),
{
    text.to_lowercase()
}

/// `needle` occurs in `haystack` as a run of consecutive characters.
pub open spec fn occurs_in(needle: Seq<char>, haystack: Seq<char>) -> bool {
    exists|at: int|
        0 <= at && at + needle.len() <= haystack.len() && #[trigger] haystack.subrange(
            at,
            at + needle.len(),
        ) == needle
}

/// `str::contains` with a string pattern: whether the pattern matches a
/// sub-slice of the string.
#[verifier::external_body]
fn contains(haystack: &str, needle: &str) -> (found: bool)
    ensures
        found == occurs_in(needle@, haystack@),
{
    haystack.contains(needle)
}

/// A registered command: its name and the phrases that call for it.
pub type Registration = (Seq<char>, Seq<Seq<char>>);

/// The characters of each string.
pub open spec fn texts(strings: Seq<String>) -> Seq<Seq<char>> {
    strings.map_values(|s: String| s@)
}

/// The characters of each string slice.
pub open spec fn slice_texts(strings: Seq<&str>) -> Seq<Seq<char>> {
    strings.map_values(|s: &str| s@)
}

/// The names of the registered commands, in order of registration.
pub open spec fn names(commands: Seq<Registration>) -> Seq<Seq<char>> {
    commands.map_values(|c: Registration| c.0)
}

/// One of `phrases`, in lowercase, occurs in `lower_text`.
pub open spec fn any_occurs(phrases: Seq<Seq<char>>, lower_text: Seq<char>) -> bool {
    exists|j: int|
        0 <= j < phrases.len() && occurs_in(lowercase(#[trigger] phrases[j]), lower_text)
}

/// The name of the first of `commands` with a phrase in `lower_text`.
pub open spec fn first_match(commands: Seq<Registration>, lower_text: Seq<char>) -> Option<
    Seq<char>,
>
    decreases commands.len(),
{
    if commands.len() == 0 {
        None
    } else if any_occurs(commands[0].1, lower_text) {
        Some(commands[0].0)
    } else {
        first_match(commands.drop_first(), lower_text)
    }
}

/// The command that `text` calls for: none unless the trigger phrase occurs,
/// otherwise the first registered command one of whose phrases occurs, all
/// compared in lowercase.
pub open spec fn detection(trigger: Seq<char>, commands: Seq<Registration>, text: Seq<char>)
    -> Option<Seq<char>> {
    if occurs_in(lowercase(trigger), lowercase(text)) {
        first_match(commands, lowercase(text))
    } else {
        None
    }
}

/// `commands` after `name` has been registered with `phrases`: a command of
/// that name gets the new phrases and keeps its place, a new one goes last.
pub open spec fn with_command(
    commands: Seq<Registration>,
    name: Seq<char>,
    phrases: Seq<Seq<char>>,
) -> Seq<Registration> {
    if names(commands).contains(name) {
        commands.update(names(commands).index_of(name), (name, phrases))
    } else {
        commands.push((name, phrases))
    }
}

/// The commands every detector starts with.
pub open spec fn default_commands() -> Seq<Registration> {
    seq![
        ("volume up"@, seq!["increase volume"@, "louder"@, "turn it up"@]),
        ("volume down"@, seq!["decrease volume"@, "quieter"@, "turn it down"@]),
    ]
}

struct Entry {
    name: String,
    patterns: Vec<String>,
}

/// Finds registered commands in transcribed text.
pub struct CommandDetector {
    config: CommandDetectorConfig,
    command_patterns: Vec<Entry>,
}

spec fn registrations(entries: Seq<Entry>) -> Seq<Registration> {
    entries.map_values(|e: Entry| (e.name@, texts(e.patterns@)))
}

impl CommandDetector {
    #[verifier::type_invariant]
    spec fn well_formed(&self) -> bool {
        names(registrations(self.command_patterns@)).no_duplicates()
    }

    /// The registered commands, in order of registration.
    pub closed spec fn registered(&self) -> Seq<Registration> {
        registrations(self.command_patterns@)
    }

    /// The settings the detector was made with.
    pub closed spec fn settings(&self) -> CommandDetectorConfig {
        self.config
    }

    /// A detector with the default settings and the default commands.
    pub fn new() -> (detector: Self)
        ensures
            detector.settings().is_default(),
            detector.registered() == default_commands(),
    {
        Self::with_config(CommandDetectorConfig::default())
    }

    /// A detector with the given settings and the default commands.
    pub fn with_config(config: CommandDetectorConfig) -> (detector: Self)
        ensures
            detector.settings() == config,
            detector.registered() == default_commands(),
    {
        let mut detector = CommandDetector { config, command_patterns: Vec::new() };
        assert(detector.registered() =~= Seq::<Registration>::empty());
        detector.register_command("volume up", vec!["increase volume", "louder", "turn it up"]);
        let ghost up = detector.registered();
        assert(!names(Seq::<Registration>::empty()).contains("volume up"@));
        assert(up == seq![
            ("volume up"@, seq!["increase volume"@, "louder"@, "turn it up"@]),
        ]) by {
            assert(slice_texts(seq!["increase volume", "louder", "turn it up"]) =~= seq![
                "increase volume"@,
                "louder"@,
                "turn it up"@,
            ]);
        }
        detector.register_command(
            "volume down",
            vec!["decrease volume", "quieter", "turn it down"],
        );
        proof {
            reveal_strlit("volume up");
            reveal_strlit("volume down");
            assert("volume up"@.len() != "volume down"@.len());
            assert(!names(up).contains("volume down"@));
            assert(slice_texts(seq!["decrease volume", "quieter", "turn it down"]) =~= seq![
                "decrease volume"@,
                "quieter"@,
                "turn it down"@,
            ]);
            assert(detector.registered() =~= default_commands());
        }
        detector
    }

    /// The settings the detector was made with.
    pub fn config(&self) -> (config: &CommandDetectorConfig)
        ensures
            *config == self.settings(),
    {
        &self.config
    }

    /// Registers `command` with the phrases that call for it. A command that
    /// is registered already gets the new phrases in place of its old ones.
    #[verifier::loop_isolation(false)]
    pub fn register_command(&mut self, command: &str, patterns: Vec<&str>)
        ensures
            final(self).registered() == with_command(
                old(self).registered(),
                command@,
                slice_texts(patterns@),
            ),
            final(self).settings() == old(self).settings(),
    {
        proof {
            use_type_invariant(&*self);
        }
        let mut phrases: Vec<String> = Vec::new();
        let mut i: usize = 0;
        while i < patterns.len()
            invariant
                i <= patterns@.len(),
                phrases@.len() == i,
                forall|n: int| 0 <= n < i ==> (#[trigger] phrases@[n])@ == patterns@[n]@,
            decreases patterns@.len() - i,
        {
            phrases.push(patterns[i].to_owned());
            i += 1;
        }
        assert(texts(phrases@) =~= slice_texts(patterns@));
        let name = command.to_owned();
        let mut entries: Vec<Entry> = Vec::new();
        core::mem::swap(&mut self.command_patterns, &mut entries);
        let ghost before = registrations(entries@);
        let mut k: usize = 0;
        let mut found = false;
        while k < entries.len() && !found
            invariant
                k <= entries@.len(),
                before == registrations(entries@),
                forall|j: int| 0 <= j < k ==> names(before)[j] != name@,
                found ==> k < entries@.len() && names(before)[k as int] == name@,
            decreases entries@.len() - k + (if found { 0int } else { 1int }),
        {
            if entries[k].name == name {
                found = true;
            } else {
                k += 1;
            }
        }
        if found {
            assert(names(before).contains(name@));
            assert(names(before).index_of(name@) == k);
            entries.set(k, Entry { name, patterns: phrases });
            assert(registrations(entries@) =~= before.update(
                k as int,
                (command@, slice_texts(patterns@)),
            ));
            assert(names(registrations(entries@)) =~= names(before));
        } else {
            assert(!names(before).contains(name@));
            entries.push(Entry { name, patterns: phrases });
            assert(registrations(entries@) =~= before.push((command@, slice_texts(patterns@))));
            assert(names(registrations(entries@)) =~= names(before).push(command@));
        }
        assert(names(registrations(entries@)).no_duplicates());
        self.command_patterns = entries;
    }

    /// Looks for a command in `text`.
    ///
    /// Nothing is found unless the trigger phrase occurs in the text. If it
    /// does, the registered commands are tried in order of registration, and
    /// the first one of whose phrases occurs in the text is returned, without
    /// parameters. Letter case is ignored throughout.
    #[verifier::loop_isolation(false)]
    pub fn detect(&self, text: &str) -> (found: Option<Command>)
        ensures
            match found {
                Some(command) => {
                    &&& detection(self.settings().trigger_word@, self.registered(), text@) == Some(
                        command.name@,
                    )
                    &&& command.parameters@ == Map::<String, String>::empty()
                },
                None => detection(self.settings().trigger_word@, self.registered(), text@) is None,
            },
    {
        let lower = to_lowercase(text);
        let trigger = to_lowercase(self.config.trigger_word.as_str());
        if !contains(lower.as_str(), trigger.as_str()) {
            return None;
        }
        let ghost commands = self.registered();
        assert(commands.subrange(0, commands.len() as int) =~= commands);
        let mut i: usize = 0;
        while i < self.command_patterns.len()
            invariant
                i <= self.command_patterns@.len(),
                first_match(commands, lower@) == first_match(
                    commands.subrange(i as int, commands.len() as int),
                    lower@,
                ),
            decreases self.command_patterns@.len() - i,
        {
            let entry = &self.command_patterns[i];
            let ghost rest = commands.subrange(i as int, commands.len() as int);
            assert(rest[0] == commands[i as int]);
            assert(rest[0].1 == texts(entry.patterns@));
            assert(rest[0].0 == entry.name@);
            let mut j: usize = 0;
            while j < entry.patterns.len()
                invariant
                    j <= entry.patterns@.len(),
                    forall|n: int|
                        0 <= n < j ==> !occurs_in(
                            lowercase(#[trigger] texts(entry.patterns@)[n]),
                            lower@,
                        ),
                decreases entry.patterns@.len() - j,
            {
                let phrase = to_lowercase(entry.patterns[j].as_str());
                if contains(lower.as_str(), phrase.as_str()) {
                    assert(texts(entry.patterns@)[j as int] == entry.patterns@[j as int]@);
                    assert(any_occurs(rest[0].1, lower@));
                    return Some(Command { name: entry.name.clone(), parameters: HashMap::new() });
                }
                assert(texts(entry.patterns@)[j as int] == entry.patterns@[j as int]@);
                j += 1;
            }
            assert(!any_occurs(rest[0].1, lower@));
            assert(rest.drop_first() =~= commands.subrange(i as int + 1, commands.len() as int));
            i += 1;
        }
        None
    }
}

} // verus!
