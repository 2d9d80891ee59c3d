//! What a run is asked to do: which categories, in which order, in
//! parallel or not, with labels or without, and with which logo.

use vstd::prelude::*;
use vstd::slice::slice_to_vec;
use crate::modules::ModuleKind;
use crate::tokens::opt_str_view;

verus! {

/// The logo that is shown when none is asked for.
pub const DEFAULT_ASCII_LOGO: &'static str =
    "  ____          _   _     _    \n |  _ \\ __ _ ___| |_| |__ (_)___\n | |_) / _` / __| __| '_ \\| / __|\n |  _ < (_| \\__ \\ |_| | | | \\__ \\\n |_| \\_\\__,_|___/\\__|_| |_|_|___/";

/// Which logo to show beside the results.
#[derive(Debug, Clone, Default, PartialEq, Eq)]
pub struct LogoConfig {
    /// The logo's text; where there is none, the logo of the distribution
    /// is looked up.
    pub ascii_art: Option<String>,
}

impl View for LogoConfig {
    type V = Option<Seq<char>>;

    open spec fn view(&self) -> Option<Seq<char>> {
        opt_str_view(self.ascii_art)
    }
}

/// The view of an optional logo configuration.
pub open spec fn logo_view(logo: Option<LogoConfig>) -> Option<Option<Seq<char>>> {
    match logo {
        Some(l) => Some(l@),
        None => None,
    }
}

/// The views of the strings of `names`.
pub open spec fn names_view(names: Seq<String>) -> Seq<Seq<char>> {
    Seq::new(names.len(), |i: int| names[i]@)
}

/// A resolved configuration; it does not change during a run.
#[derive(Debug, Clone)]
pub struct Config {
    modules: Vec<ModuleKind>,
    parallel: bool,
    values_only: bool,
    logo: Option<LogoConfig>,
}

/// The mathematical value of a [`Config`].
pub struct ConfigView {
    pub modules: Seq<ModuleKind>,
    pub parallel: bool,
    pub values_only: bool,
    pub logo: Option<Option<Seq<char>>>,
}

impl View for Config {
    type V = ConfigView;

    closed spec fn view(&self) -> ConfigView {
        ConfigView {
            modules: self.modules@,
            parallel: self.parallel,
            values_only: self.values_only,
            logo: logo_view(self.logo),
        }
    }
}

impl Config {
    /// A builder that starts from the defaults: every category, in
    /// parallel, with labels, and with the default logo.
    pub fn builder() -> (b: ConfigBuilder)
        ensures
            b@ == ConfigBuilder::initial(),
    {
        ConfigBuilder::default()
    }

    /// The categories to run, in order.
    pub fn modules(&self) -> (kinds: &[ModuleKind])
        ensures
            kinds@ == self@.modules,
    {
        self.modules.as_slice()
    }

    /// Whether the probes run in parallel.
    pub fn parallel(&self) -> (b: bool)
        ensures
            b == self@.parallel,
    {
        self.parallel
    }

    /// Whether only values are shown, without labels.
    pub fn values_only(&self) -> (b: bool)
        ensures
            b == self@.values_only,
    {
        self.values_only
    }

    /// The logo configuration, if a logo is to be shown.
    pub fn logo(&self) -> (l: Option<&LogoConfig>)
        ensures
            match l {
                Some(c) => self@.logo == Some(c@),
                None => self@.logo is None,
            },
    {
        self.logo.as_ref()
    }
}

/// What building a configuration gave: the configuration, and the names
/// that were asked for and name no category.
#[derive(Debug, Clone)]
pub struct BuildOutcome {
    pub config: Config,
    pub unknown_modules: Vec<String>,
}

/// Collects the settings of a configuration.
#[derive(Debug, Clone)]
pub struct ConfigBuilder {
    modules: Vec<ModuleKind>,
    explicit_modules: bool,
    parallel: bool,
    values_only: bool,
    logo: Option<LogoConfig>,
    unknown_modules: Vec<String>,
}

/// The mathematical value of a [`ConfigBuilder`].
pub struct ConfigBuilderView {
    pub modules: Seq<ModuleKind>,
    pub explicit_modules: bool,
    pub parallel: bool,
    pub values_only: bool,
    pub logo: Option<Option<Seq<char>>>,
    pub unknown_modules: Seq<Seq<char>>,
}

impl View for ConfigBuilder {
    type V = ConfigBuilderView;

    closed spec fn view(&self) -> ConfigBuilderView {
        ConfigBuilderView {
            modules: self.modules@,
            explicit_modules: self.explicit_modules,
            parallel: self.parallel,
            values_only: self.values_only,
            logo: logo_view(self.logo),
            unknown_modules: names_view(self.unknown_modules@),
        }
    }
}

/// The categories that `names` name, in the order of the names.
pub open spec fn known_kinds(names: Seq<Seq<char>>) -> Seq<ModuleKind>
    decreases names.len(),
{
    if names.len() == 0 {
        Seq::empty()
    } else {
        match ModuleKind::parsed(names.last()) {
            Some(kind) => known_kinds(names.drop_last()).push(kind),
            None => known_kinds(names.drop_last()),
        }
    }
}

/// Those of `names` that name no category, in the order of the names.
pub open spec fn unknown_names(names: Seq<Seq<char>>) -> Seq<Seq<char>>
    decreases names.len(),
{
    if names.len() == 0 {
        Seq::empty()
    } else {
        match ModuleKind::parsed(names.last()) {
            Some(_) => unknown_names(names.drop_last()),
            None => unknown_names(names.drop_last()).push(names.last()),
        }
    }
}

impl ConfigBuilder {
    /// The settings that a builder starts from.
    pub open spec fn initial() -> ConfigBuilderView {
        ConfigBuilderView {
            modules: ModuleKind::all_kinds(),
            explicit_modules: false,
            parallel: true,
            values_only: false,
            logo: Some(Some(DEFAULT_ASCII_LOGO@)),
            unknown_modules: Seq::empty(),
        }
    }

    /// Asks for exactly `modules`, in that order.
    pub fn with_modules(self, modules: Vec<ModuleKind>) -> (b: ConfigBuilder)
        ensures
            b@ == (ConfigBuilderView { modules: modules@, explicit_modules: true, ..self@ }),
    {
        ConfigBuilder {
            modules,
            explicit_modules: true,
            parallel: self.parallel,
            values_only: self.values_only,
            logo: self.logo,
            unknown_modules: self.unknown_modules,
        }
    }

    /// Asks for the categories that `names` name, in the order of the
    /// names and whatever their case, and keeps the names that name none.
    pub fn with_module_names(self, names: Vec<String>) -> (b: ConfigBuilder)
        ensures
            b@ == (ConfigBuilderView {
                modules: known_kinds(names_view(names@)),
                explicit_modules: true,
                unknown_modules: self@.unknown_modules + unknown_names(names_view(names@)),
                ..self@
            }),
    {
        let mut parsed: Vec<ModuleKind> = Vec::new();
        let mut unknown = self.unknown_modules;
        let ghost before = names_view(unknown@);
        let ghost all = names_view(names@);
        let mut i: usize = 0;
        proof {
            assert(all.take(0) =~= Seq::<Seq<char>>::empty());
            assert(names_view(unknown@) =~= before + unknown_names(all.take(0)));
        }
        while i < names.len()
            invariant
                i <= names.len(),
                all == names_view(names@),
                parsed@ == known_kinds(all.take(i as int)),
                names_view(unknown@) == before + unknown_names(all.take(i as int)),
            decreases names.len() - i,
        {
            proof {
                assert(all.take(i + 1).drop_last() =~= all.take(i as int));
                assert(all.take(i + 1).last() == names@[i as int]@);
            }
            let ghost old_unknown = names_view(unknown@);
            match ModuleKind::parse(names[i].as_str()) {
                Ok(kind) => {
                    parsed.push(kind);
                },
                Err(_) => {
                    let name = names[i].clone();
                    unknown.push(name);
                    proof {
                        assert(names_view(unknown@) =~= old_unknown.push(names@[i as int]@));
                        assert(names_view(unknown@) =~= before + unknown_names(all.take(i + 1)));
                    }
                },
            }
            i += 1;
        }
        proof {
            assert(all.take(i as int) =~= all);
        }
        ConfigBuilder {
            modules: parsed,
            explicit_modules: true,
            parallel: self.parallel,
            values_only: self.values_only,
            logo: self.logo,
            unknown_modules: unknown,
        }
    }

    /// Turns parallel execution on or off.
    pub fn parallel(self, enabled: bool) -> (b: ConfigBuilder)
        ensures
            b@ == (ConfigBuilderView { parallel: enabled, ..self@ }),
    {
        ConfigBuilder {
            modules: self.modules,
            explicit_modules: self.explicit_modules,
            parallel: enabled,
            values_only: self.values_only,
            logo: self.logo,
            unknown_modules: self.unknown_modules,
        }
    }

    /// Turns output without labels on or off.
    pub fn values_only(self, enabled: bool) -> (b: ConfigBuilder)
        ensures
            b@ == (ConfigBuilderView { values_only: enabled, ..self@ }),
    {
        ConfigBuilder {
            modules: self.modules,
            explicit_modules: self.explicit_modules,
            parallel: self.parallel,
            values_only: enabled,
            logo: self.logo,
            unknown_modules: self.unknown_modules,
        }
    }

    /// Asks for the logo `logo`.
    pub fn with_logo_ascii(self, logo: String) -> (b: ConfigBuilder)
        ensures
            b@ == (ConfigBuilderView { logo: Some(Some(logo@)), ..self@ }),
    {
        ConfigBuilder {
            modules: self.modules,
            explicit_modules: self.explicit_modules,
            parallel: self.parallel,
            values_only: self.values_only,
            logo: Some(LogoConfig { ascii_art: Some(logo) }),
            unknown_modules: self.unknown_modules,
        }
    }

    /// Asks for no logo at all.
    pub fn without_logo(self) -> (b: ConfigBuilder)
        ensures
            b@ == (ConfigBuilderView { logo: None, ..self@ }),
    {
        ConfigBuilder {
            modules: self.modules,
            explicit_modules: self.explicit_modules,
            parallel: self.parallel,
            values_only: self.values_only,
            logo: None,
            unknown_modules: self.unknown_modules,
        }
    }

    /// The configuration that was asked for, and the names that name no
    /// category.
    pub fn build(self) -> (out: BuildOutcome)
        ensures
            out.config@ == (ConfigView {
                modules: self@.modules,
                parallel: self@.parallel,
                values_only: self@.values_only,
                logo: self@.logo,
            }),
            names_view(out.unknown_modules@) == self@.unknown_modules,
    {
        BuildOutcome {
            config: Config {
                modules: self.modules,
                parallel: self.parallel,
                values_only: self.values_only,
                logo: self.logo,
            },
            unknown_modules: self.unknown_modules,
        }
    }
}

impl Default for ConfigBuilder {
    /// The builder with the default settings.
    fn default() -> (b: Self)
        ensures
            b@ == ConfigBuilder::initial(),
    {
        let b = ConfigBuilder {
            modules: slice_to_vec(ModuleKind::all()),
            explicit_modules: false,
            parallel: true,
            values_only: false,
            logo: Some(LogoConfig { ascii_art: Some(DEFAULT_ASCII_LOGO.to_owned()) }),
            unknown_modules: Vec::new(),
        };
        proof {
            assert(names_view(b.unknown_modules@) =~= Seq::<Seq<char>>::empty());
        }
        b
    }
}

} // verus!
