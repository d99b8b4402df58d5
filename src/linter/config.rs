use vstd::prelude::*;

use crate::reporting::Level;

verus! {

/// The level a configuration gives a rule.
#[derive(Clone, Copy, Debug, PartialEq, Eq, Hash, Structural)]
pub enum LinterLevel {
    Off,
    Help,
    Note,
    Warning,
    Error,
}

impl LinterLevel {
    pub open spec fn spec_to_level(self) -> Level {
        match self {
            LinterLevel::Off => Level::Off,
            LinterLevel::Help => Level::Help,
            LinterLevel::Note => Level::Note,
            LinterLevel::Warning => Level::Warning,
            LinterLevel::Error => Level::Error,
        }
    }

    /// The issue level of the same name.
    #[verifier::when_used_as_spec(spec_to_level)]
    pub fn to_level(self) -> (r: Level)
        ensures
            r == self.spec_to_level(),
    {
        match self {
            LinterLevel::Off => Level::Off,
            LinterLevel::Help => Level::Help,
            LinterLevel::Note => Level::Note,
            LinterLevel::Warning => Level::Warning,
            LinterLevel::Error => Level::Error,
        }
    }
}

/// A language version, `major.minor.patch`.
#[derive(Clone, Copy, Debug, PartialEq, Eq, Hash, Structural)]
pub struct PhpVersion {
    pub major: u8,
    pub minor: u8,
    pub patch: u8,
}

impl PhpVersion {
    /// The version as one number that orders versions.
    pub open spec fn number(self) -> int {
        self.major * 65536 + self.minor * 256 + self.patch
    }

    pub fn new(major: u8, minor: u8, patch: u8) -> (r: PhpVersion)
        ensures
            r.major == major && r.minor == minor && r.patch == patch,
    {
        PhpVersion { major, minor, patch }
    }

    /// `self` is `other` or a later version.
    pub fn is_at_least(self, other: PhpVersion) -> (r: bool)
        ensures
            r == (self.number() >= other.number()),
    {
        if self.major != other.major {
            self.major > other.major
        } else if self.minor != other.minor {
            self.minor > other.minor
        } else {
            self.patch >= other.patch
        }
    }
}

/// The configuration of one rule, by the rule's name: the level it reports
/// at, if given. Rule options are carried by the configuration loader.
#[derive(Clone, Debug, PartialEq, Eq)]
pub struct LinterRuleConfiguration {
    pub name: String,
    pub level: Option<LinterLevel>,
}

/// Which rules are registered and how each is configured.
#[derive(Clone, Debug, PartialEq, Eq)]
pub struct LinterConfiguration {
    /// Whether the built-in rule set is enabled; absent means enabled.
    pub default_plugins: Option<bool>,
    /// Named plugin sets to enable.
    pub plugins: Vec<String>,
    pub rules: Vec<LinterRuleConfiguration>,
}

/// `plugins` names `name`.
pub open spec fn names_plugin(plugins: Seq<String>, name: Seq<char>) -> bool {
    exists|i: int| 0 <= i < plugins.len() && (#[trigger] plugins[i])@ == name
}

/// Whether `plugins` names `name`.
pub fn has_plugin(plugins: &Vec<String>, name: &String) -> (r: bool)
    ensures
        r == names_plugin(plugins@, name@),
{
    let mut i: usize = 0;
    while i < plugins.len()
        invariant
            i <= plugins.len(),
            forall|j: int| 0 <= j < i ==> (#[trigger] plugins@[j])@ != name@,
        decreases plugins.len() - i,
    {
        if plugins[i] == *name {
            return true;
        }
        i = i + 1;
    }
    false
}

impl LinterConfiguration {
    /// No plugins named, the built-in set enabled, no rule configured.
    pub fn new() -> (r: LinterConfiguration)
        ensures
            r.default_plugins is None,
            r.plugins@.len() == 0,
            r.rules@.len() == 0,
    {
        LinterConfiguration { default_plugins: None, plugins: Vec::new(), rules: Vec::new() }
    }

    /// The plugin set `name` is enabled: by the built-in set, or by name.
    pub open spec fn enables(&self, name: Seq<char>) -> bool {
        self.default_plugins != Some(false) || names_plugin(self.plugins@, name)
    }
}

/// The level a rule runs at: the configured level where one is given for the
/// rule's name (the first such entry), else the rule's default level.
pub open spec fn configured_level(name: Seq<char>, default: Level, config: Seq<LinterRuleConfiguration>) -> Level
    decreases config.len(),
{
    if config.len() == 0 {
        default
    } else if config[0].name@ == name && config[0].level is Some {
        config[0].level->Some_0.spec_to_level()
    } else {
        configured_level(name, default, config.drop_first())
    }
}

/// The level a rule runs at under `config`.
pub fn effective_level(name: &String, default: Level, config: &Vec<LinterRuleConfiguration>) -> (r: Level)
    ensures
        r == configured_level(name@, default, config@),
{
    let mut i: usize = 0;
    proof {
        assert(config@.subrange(0, config.len() as int) =~= config@);
    }
    while i < config.len()
        invariant
            i <= config.len(),
            configured_level(name@, default, config@) == configured_level(
                name@,
                default,
                config@.subrange(i as int, config.len() as int),
            ),
        decreases config.len() - i,
    {
        let ghost rest = config@.subrange(i as int, config.len() as int);
        proof {
            assert(rest[0] == config@[i as int]);
            assert(rest.drop_first() =~= config@.subrange(i + 1, config.len() as int));
        }
        if config[i].name == *name && config[i].level.is_some() {
            return config[i].level.unwrap().to_level();
        }
        i = i + 1;
    }
    proof {
        assert(config@.subrange(i as int, config.len() as int) =~= Seq::<LinterRuleConfiguration>::empty());
    }
    default
}

} // verus!
