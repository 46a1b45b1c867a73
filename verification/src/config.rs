//! Layered configuration: settings that are kept in files, given on the
//! command line, merged, and turned into capabilities.
//!
//! Three layers are kept on the host: one for all applications, one for an
//! application, one for a profile of an application. The more specific
//! layer wins for a setting that holds one value; mounts add up across
//! layers when layers are loaded, and are replaced when a layer is saved.

use vstd::prelude::*;
use crate::aspects::settings::{
    is_timezone, parse_locale, parse_mount, timezone_known, CPUShares, Locale, LocaleView, Memory,
    Mount, MountView, Network, Timezone,
};
use crate::aspects::{same_contributions, Aspect};
use crate::cli::{single_flag, CliInput, Flag, FlagAction, FlagView};
use crate::error::{Error, ErrorView};

verus! {

/// The settings of one layer, each present or absent.
#[derive(Debug)]
pub struct Config {
    /// Directories of the host to mount into the container.
    pub mounts: Option<Vec<Mount>>,
    /// The timezone inside the container.
    pub timezone: Option<Timezone>,
    /// The memory limit.
    pub memory: Option<Memory>,
    /// The share of processor time.
    pub cpu_shares: Option<CPUShares>,
    /// The network mode.
    pub network: Option<Network>,
    /// The locale inside the container.
    pub locale: Option<Locale>,
}

/// A [`Config`] with its texts as character sequences.
pub struct ConfigView {
    pub mounts: Option<Seq<MountView>>,
    pub timezone: Option<Seq<char>>,
    pub memory: Option<Seq<char>>,
    pub cpu_shares: Option<Seq<char>>,
    pub network: Option<Seq<char>>,
    pub locale: Option<LocaleView>,
}

impl DeepView for Config {
    type V = ConfigView;

    open spec fn deep_view(&self) -> ConfigView {
        ConfigView {
            mounts: self.mounts.deep_view(),
            timezone: match self.timezone {
                Some(v) => Some(v.0@),
                None => None,
            },
            memory: match self.memory {
                Some(v) => Some(v.0@),
                None => None,
            },
            cpu_shares: match self.cpu_shares {
                Some(v) => Some(v.0@),
                None => None,
            },
            network: match self.network {
                Some(v) => Some(v.mode@),
                None => None,
            },
            locale: self.locale.deep_view(),
        }
    }
}

/// The layer in which every setting is absent.
pub open spec fn empty_config() -> ConfigView {
    ConfigView {
        mounts: None,
        timezone: None,
        memory: None,
        cpu_shares: None,
        network: None,
        locale: None,
    }
}

/// Two optional lists merged: `right` behind `left`, or in its place where
/// `overwrite` is set; an absent list counts as empty, and an empty outcome
/// is absent.
pub open spec fn merged_list<T>(left: Option<Seq<T>>, right: Option<Seq<T>>, overwrite: bool)
    -> Option<Seq<T>> {
    let base = match left {
        Some(v) => v,
        None => Seq::empty(),
    };
    let all = match right {
        Some(v) => if overwrite {
            v
        } else {
            base + v
        },
        None => base,
    };
    if all.len() > 0 {
        Some(all)
    } else {
        None
    }
}

/// A setting of one value merged: that of `right` where it is present,
/// else that of `left`.
pub open spec fn merged_value<T>(left: Option<T>, right: Option<T>) -> Option<T> {
    match right {
        Some(v) => Some(v),
        None => left,
    }
}

/// The layer `other` merged into the layer `base`.
pub open spec fn merged(base: ConfigView, other: ConfigView, overwrite: bool) -> ConfigView {
    ConfigView {
        mounts: merged_list(base.mounts, other.mounts, overwrite),
        timezone: merged_value(base.timezone, other.timezone),
        memory: merged_value(base.memory, other.memory),
        cpu_shares: merged_value(base.cpu_shares, other.cpu_shares),
        network: merged_value(base.network, other.network),
        locale: merged_value(base.locale, other.locale),
    }
}

/// A layer as it is read: all settings absent where there is no file.
pub open spec fn layer(stored: Option<ConfigView>) -> ConfigView {
    match stored {
        Some(c) => c,
        None => empty_config(),
    }
}

/// The settings in effect for a profile of an application: the three
/// layers merged in ascending priority, mounts adding up.
pub open spec fn loaded(
    global: Option<ConfigView>,
    application: Option<ConfigView>,
    profile: Option<ConfigView>,
) -> ConfigView {
    merged(merged(layer(global), layer(application), false), layer(profile), false)
}

/// The layer that is written when `new` is saved over the stored layer:
/// mounts of `new` replace those stored.
pub open spec fn saved(stored: Option<ConfigView>, new: ConfigView) -> ConfigView {
    merged(layer(stored), new, true)
}

/// Saving is idempotent: saving the same settings over what a save has
/// written writes the same layer again. Mounts do not pile up.
pub proof fn lemma_save_idempotent(stored: Option<ConfigView>, new: ConfigView)
    ensures
        saved(Some(saved(stored, new)), new) == saved(stored, new),
{
    let once = saved(stored, new);
    let twice = saved(Some(once), new);
    match new.mounts {
        Some(v) => {
            assert(twice.mounts == once.mounts);
        },
        None => {
            match once.mounts {
                Some(w) => {
                    assert(w.len() > 0);
                },
                None => {
                    assert(Seq::<MountView>::empty().len() == 0);
                },
            }
            assert(twice.mounts == once.mounts);
        },
    }
}

/// A save with mounts writes exactly those mounts, whatever was stored.
pub proof fn lemma_save_replaces_mounts(stored: Option<ConfigView>, new: ConfigView)
    requires
        new.mounts is Some,
        new.mounts->0.len() > 0,
    ensures
        saved(stored, new).mounts == new.mounts,
        saved(Some(saved(stored, new)), new).mounts == new.mounts,
{
}

/// Where no layer has a file, every setting is absent.
pub proof fn lemma_load_nothing()
    ensures
        loaded(None, None, None) == empty_config(),
{
    assert(Seq::<MountView>::empty().len() == 0);
    assert((Seq::<MountView>::empty() + Seq::<MountView>::empty()).len() == 0);
}

/// Where no profile is selected, the settings in effect are those of the
/// layer for all applications with those of the application merged in: no
/// mount counts twice.
pub proof fn lemma_load_without_profile(global: Option<ConfigView>, application: Option<ConfigView>)
    ensures
        loaded(global, application, None) == merged(layer(global), layer(application), false),
{
    let both = merged(layer(global), layer(application), false);
    match both.mounts {
        Some(v) => {
            assert(v + Seq::<MountView>::empty() =~= v);
        },
        None => {
            assert((Seq::<MountView>::empty() + Seq::<MountView>::empty()).len() == 0);
        },
    }
}

/// Mounts add up across layers in ascending priority: those of the less
/// specific layer come first.
pub proof fn lemma_merge_appends_mounts(base: ConfigView, other: ConfigView)
    requires
        base.mounts is Some,
        other.mounts is Some,
        base.mounts->0.len() + other.mounts->0.len() > 0,
    ensures
        merged(base, other, false).mounts == Some(base.mounts->0 + other.mounts->0),
{
}

/// The elements of an optional list.
pub open spec fn opt_seq<T>(o: Option<Vec<T>>) -> Option<Seq<T>> {
    match o {
        Some(v) => Some(v@),
        None => None,
    }
}

/// Merges two optional lists: `right` goes behind `left`, or takes its
/// place where `overwrite` is set. An absent list counts as empty; an empty
/// outcome is absent. Each element of the outcome is a clone of the element
/// in its place.
pub fn merge<T: Clone>(left: &Option<Vec<T>>, right: &Option<Vec<T>>, overwrite: bool) -> (r:
    Option<Vec<T>>)
    ensures
        match merged_list(opt_seq(*left), opt_seq(*right), overwrite) {
            Some(all) => {
                &&& r is Some
                &&& r->0@.len() == all.len()
                &&& forall|i: int| 0 <= i < all.len() ==> cloned::<T>(all[i], #[trigger] r->0@[i])
            },
            None => r is None,
        },
{
    let mut new: Vec<T> = Vec::new();
    if let Some(v) = left {
        new = v.clone();
    }
    if let Some(v) = right {
        if overwrite {
            new = v.clone();
        } else {
            let mut more = v.clone();
            new.append(&mut more);
        }
    }
    if new.len() > 0 {
        Some(new)
    } else {
        None
    }
}

/// The mounts that the given texts are written for, or the error for the
/// first text that is not a mount.
pub open spec fn parse_mounts(values: Seq<String>) -> Result<Seq<MountView>, ErrorView>
    decreases values.len(),
{
    if values.len() == 0 {
        Ok(Seq::empty())
    } else {
        match parse_mounts(values.drop_last()) {
            Err(e) => Err(e),
            Ok(before) => match parse_mount(values.last()@) {
                Some(m) => Ok(before.push(m)),
                None => Err(ErrorView::InvalidMount(values.last()@)),
            },
        }
    }
}

/// The error for the first text that is not a mount stays, whatever
/// follows.
pub proof fn lemma_parse_mounts_error_stays(values: Seq<String>, n: int)
    requires
        0 <= n <= values.len(),
        parse_mounts(values.take(n)) is Err,
    ensures
        parse_mounts(values) == parse_mounts(values.take(n)),
    decreases values.len() - n,
{
    if n < values.len() {
        assert(values.take(n + 1).drop_last() =~= values.take(n));
        lemma_parse_mounts_error_stays(values, n + 1);
    } else {
        assert(values.take(n) =~= values);
    }
}

/// The layer that the command line `input` is written for, given whether
/// the timezone database knows the timezone it names: the first setting
/// that is malformed, in the order mounts, timezone, locale, is refused
/// with its own error.
pub open spec fn parse_config(input: &CliInput, known_timezone: bool) -> Result<
    ConfigView,
    ErrorView,
> {
    let mounts = match input.mounts {
        Some(values) => parse_mounts(values@),
        None => Ok(Seq::empty()),
    };
    match mounts {
        Err(e) => Err(e),
        Ok(ms) => if input.timezone is Some && !known_timezone {
            Err(ErrorView::InvalidTimezone(input.timezone->0@))
        } else if input.locale is Some && parse_locale(input.locale->0@) is None {
            Err(ErrorView::InvalidLocale(input.locale->0@))
        } else {
            Ok(
                ConfigView {
                    mounts: match input.mounts {
                        Some(_) => Some(ms),
                        None => None,
                    },
                    timezone: input.timezone.deep_view(),
                    memory: input.memory.deep_view(),
                    cpu_shares: input.cpu_shares.deep_view(),
                    network: input.network.deep_view(),
                    locale: match input.locale {
                        Some(l) => parse_locale(l@),
                        None => None,
                    },
                },
            )
        },
    }
}

/// The view of a result that holds a layer.
pub open spec fn config_result_view(r: Result<Config, Error>) -> Result<ConfigView, ErrorView> {
    match r {
        Ok(c) => Ok(c.deep_view()),
        Err(e) => Err(e.deep_view()),
    }
}

/// Parses each text as a mount.
fn mounts_from(values: &Vec<String>) -> (r: Result<Vec<Mount>, Error>)
    ensures
        match parse_mounts(values@) {
            Ok(ms) => r is Ok && r->Ok_0.deep_view() == ms,
            Err(e) => r is Err && r->Err_0.deep_view() == e,
        },
{
    let mut out: Vec<Mount> = Vec::new();
    let mut i: usize = 0;
    proof {
        assert(values@.take(0) =~= Seq::<String>::empty());
        assert(out.deep_view() =~= Seq::<MountView>::empty());
    }
    while i < values.len()
        invariant
            i <= values@.len(),
            parse_mounts(values@.take(i as int)) == Ok::<Seq<MountView>, ErrorView>(
                out.deep_view(),
            ),
        decreases values@.len() - i,
    {
        let ghost before = out.deep_view();
        proof {
            assert(values@.take(i + 1).drop_last() =~= values@.take(i as int));
            assert(values@.take(i + 1).last() == values@[i as int]);
        }
        match Mount::try_from(&values[i]) {
            Ok(m) => {
                let ghost mv = m.deep_view();
                out.push(m);
                assert(out.deep_view() =~= before.push(mv));
            },
            Err(e) => {
                proof {
                    lemma_parse_mounts_error_stays(values@, i + 1);
                }
                return Err(e);
            },
        }
        i += 1;
    }
    proof {
        assert(values@.take(values@.len() as int) =~= values@);
    }
    Ok(out)
}

impl Clone for Config {
    fn clone(&self) -> (r: Self)
        ensures
            r.deep_view() == self.deep_view(),
    {
        let mounts = match &self.mounts {
            Some(v) => {
                let copy = v.clone();
                assert(copy.deep_view() =~= v.deep_view());
                Some(copy)
            },
            None => None,
        };
        Config {
            mounts,
            timezone: match &self.timezone {
                Some(v) => Some(v.clone()),
                None => None,
            },
            memory: match &self.memory {
                Some(v) => Some(v.clone()),
                None => None,
            },
            cpu_shares: match &self.cpu_shares {
                Some(v) => Some(v.clone()),
                None => None,
            },
            network: match &self.network {
                Some(v) => Some(v.clone()),
                None => None,
            },
            locale: match &self.locale {
                Some(v) => Some(v.clone()),
                None => None,
            },
        }
    }
}

impl Config {
    /// The layer in which every setting is absent.
    pub fn empty() -> (r: Config)
        ensures
            r.deep_view() == empty_config(),
    {
        Config {
            mounts: None,
            timezone: None,
            memory: None,
            cpu_shares: None,
            network: None,
            locale: None,
        }
    }

    /// A layer as it is read from its file: all settings absent where
    /// there is no file.
    pub fn load_layer(stored: Option<Config>) -> (r: Config)
        ensures
            r.deep_view() == layer(stored.deep_view()),
    {
        match stored {
            Some(c) => c,
            None => Config::empty(),
        }
    }

    /// The settings in effect for an application, given what the files of
    /// the three layers hold: `None` for a file that does not exist, and
    /// for the layer of the profile also where no profile is selected. The
    /// layers are merged in ascending priority; their mounts add up, the
    /// less specific first.
    pub fn load(global: Option<Config>, application: Option<Config>, profile: Option<Config>) -> (r:
        Config)
        ensures
            r.deep_view() == loaded(
                global.deep_view(),
                application.deep_view(),
                profile.deep_view(),
            ),
    {
        let global_config = Config::load_layer(global);
        let app_config = Config::load_layer(application);
        let profile_config = Config::load_layer(profile);
        global_config.merge(&app_config, false).merge(&profile_config, false)
    }

    /// The layer to write when these settings are saved over what the
    /// layer's file holds, `None` where the file does not exist. Mounts of
    /// these settings replace the stored ones.
    pub fn save(&self, stored: Option<Config>) -> (r: Config)
        ensures
            r.deep_view() == saved(stored.deep_view(), self.deep_view()),
    {
        let existing_config = Config::load_layer(stored);
        existing_config.merge(self, true)
    }

    /// These settings with those of `other` merged in: a setting of
    /// `other` that is present wins; mounts of `other` go behind these, or
    /// replace them where `overwrite` is set.
    pub fn merge(&self, other: &Config, overwrite: bool) -> (r: Config)
        ensures
            r.deep_view() == merged(self.deep_view(), other.deep_view(), overwrite),
    {
        let mounts = merge(&self.mounts, &other.mounts, overwrite);
        proof {
            let all = merged_list(opt_seq(self.mounts), opt_seq(other.mounts), overwrite);
            let views = merged_list(
                self.mounts.deep_view(),
                other.mounts.deep_view(),
                overwrite,
            );
            match all {
                Some(a) => {
                    assert(mounts->0.deep_view() =~= views->0);
                },
                None => {},
            }
        }
        let timezone = match &other.timezone {
            Some(v) => Some(v.clone()),
            None => match &self.timezone {
                Some(v) => Some(v.clone()),
                None => None,
            },
        };
        let memory = match &other.memory {
            Some(v) => Some(v.clone()),
            None => match &self.memory {
                Some(v) => Some(v.clone()),
                None => None,
            },
        };
        let cpu_shares = match &other.cpu_shares {
            Some(v) => Some(v.clone()),
            None => match &self.cpu_shares {
                Some(v) => Some(v.clone()),
                None => None,
            },
        };
        let network = match &other.network {
            Some(v) => Some(v.clone()),
            None => match &self.network {
                Some(v) => Some(v.clone()),
                None => None,
            },
        };
        let locale = match &other.locale {
            Some(v) => Some(v.clone()),
            None => match &self.locale {
                Some(v) => Some(v.clone()),
                None => None,
            },
        };
        Config { mounts, timezone, memory, cpu_shares, network, locale }
    }

    /// Whether `aspects` are the capabilities of these settings: one for
    /// each mount, in their order, then one for each of timezone, memory
    /// limit, share of processor time, network mode and locale that is
    /// present, in this order.
    pub open spec fn has_aspects(&self, aspects: Seq<Aspect>) -> bool {
        let mounts = match self.mounts {
            Some(v) => v@,
            None => Seq::empty(),
        };
        let timezone_at = mounts.len() as int;
        let memory_at = timezone_at + if self.timezone is Some {
            1int
        } else {
            0int
        };
        let cpu_shares_at = memory_at + if self.memory is Some {
            1int
        } else {
            0int
        };
        let network_at = cpu_shares_at + if self.cpu_shares is Some {
            1int
        } else {
            0int
        };
        let locale_at = network_at + if self.network is Some {
            1int
        } else {
            0int
        };
        let end = locale_at + if self.locale is Some {
            1int
        } else {
            0int
        };
        &&& aspects.len() == end
        &&& forall|i: int|
            0 <= i < mounts.len() ==> same_contributions(&*(#[trigger] aspects[i]).inner, &mounts[i])
        &&& self.timezone matches Some(v) ==> same_contributions(&*aspects[timezone_at].inner, &v)
        &&& self.memory matches Some(v) ==> same_contributions(&*aspects[memory_at].inner, &v)
        &&& self.cpu_shares matches Some(v) ==> same_contributions(
            &*aspects[cpu_shares_at].inner,
            &v,
        )
        &&& self.network matches Some(v) ==> same_contributions(&*aspects[network_at].inner, &v)
        &&& self.locale matches Some(v) ==> same_contributions(&*aspects[locale_at].inner, &v)
    }

    /// The capabilities of these settings: one for each mount, then one
    /// for each other setting that is present, in the order of the fields.
    pub fn get_aspects(&self) -> (r: Vec<Aspect>)
        ensures
            self.has_aspects(r@),
    {
        let mut aspects: Vec<Aspect> = Vec::new();
        if let Some(mounts) = &self.mounts {
            let mut i: usize = 0;
            while i < mounts.len()
                invariant
                    i <= mounts@.len(),
                    aspects@.len() == i,
                    forall|j: int|
                        0 <= j < i ==> same_contributions(
                            &*(#[trigger] aspects@[j]).inner,
                            &mounts@[j],
                        ),
                decreases mounts@.len() - i,
            {
                aspects.push(mounts[i].clone().aspect());
                i += 1;
            }
        }
        let ghost with_mounts = aspects@;
        if let Some(timezone) = &self.timezone {
            aspects.push(timezone.clone().aspect());
        }
        if let Some(memory) = &self.memory {
            aspects.push(memory.clone().aspect());
        }
        if let Some(cpu_shares) = &self.cpu_shares {
            aspects.push(cpu_shares.clone().aspect());
        }
        if let Some(network) = &self.network {
            aspects.push(network.clone().aspect());
        }
        if let Some(locale) = &self.locale {
            aspects.push(locale.clone().aspect());
        }
        proof {
            assert forall|i: int| 0 <= i < with_mounts.len() implies (#[trigger] aspects@[i])
                == with_mounts[i] by {}
        }
        aspects
    }

    /// The layer that the command line `input` is written for, given
    /// whether the timezone database knows the timezone it names.
    pub fn from_input(input: &CliInput, known_timezone: bool) -> (r: Result<Config, Error>)
        ensures
            config_result_view(r) == parse_config(input, known_timezone),
    {
        let mounts = match &input.mounts {
            Some(values) => match mounts_from(values) {
                Ok(ms) => Some(ms),
                Err(e) => {
                    return Err(e);
                },
            },
            None => None,
        };
        let timezone = match &input.timezone {
            Some(tz) => match Timezone::from_lookup(tz, known_timezone) {
                Ok(t) => Some(t),
                Err(e) => {
                    return Err(e);
                },
            },
            None => None,
        };
        let memory = match &input.memory {
            Some(v) => Some(Memory(v.clone())),
            None => None,
        };
        let cpu_shares = match &input.cpu_shares {
            Some(v) => Some(CPUShares(v.clone())),
            None => None,
        };
        let network = match &input.network {
            Some(v) => Some(Network { mode: v.clone() }),
            None => None,
        };
        let locale = match &input.locale {
            Some(l) => match Locale::try_from(l) {
                Ok(parsed) => Some(parsed),
                Err(e) => {
                    return Err(e);
                },
            },
            None => None,
        };
        Ok(Config { mounts, timezone, memory, cpu_shares, network, locale })
    }

    /// The layer that the command line `input` is written for. A mount
    /// without its separator, a timezone that the timezone database does
    /// not know and a locale without its separators are refused, each with
    /// its own error.
    pub fn try_from(input: &CliInput) -> (r: Result<Config, Error>)
        ensures
            config_result_view(r) == parse_config(
                input,
                input.timezone is Some && timezone_known(input.timezone->0@),
            ),
    {
        let known = match &input.timezone {
            Some(tz) => is_timezone(tz.as_str()),
            None => false,
        };
        Config::from_input(input, known)
    }
}


/// The name of the flag that adds a mount.
pub const MOUNT_FLAG: &'static str = "mount";

/// The help text of the flag that adds a mount.
pub const MOUNT_HELP: &'static str =
    "specify a local path to be mapped into the container filesystem at runtime";

/// The name of the flag that sets the timezone.
pub const TIMEZONE_FLAG: &'static str = "timezone";

/// The help text of the flag that sets the timezone.
pub const TIMEZONE_HELP: &'static str = "specify the timezone to be built into the container image";

/// The name of the flag that sets the memory limit.
pub const MEMORY_FLAG: &'static str = "memory";

/// The help text of the flag that sets the memory limit.
pub const MEMORY_HELP: &'static str = "specify the runtime memory resource limit";

/// The name of the flag that sets the share of processor time.
pub const CPU_SHARES_FLAG: &'static str = "cpu-shares";

/// The help text of the flag that sets the share of processor time.
pub const CPU_SHARES_HELP: &'static str =
    "specify the runtime proportion of cpu cycles for the container";

/// The name of the flag that sets the network mode.
pub const NETWORK_FLAG: &'static str = "network";

/// The help text of the flag that sets the network mode.
pub const NETWORK_HELP: &'static str =
    "specify the runtime network mode for the container (default: bridge)";

/// The name of the flag that sets the locale.
pub const LOCALE_FLAG: &'static str = "locale";

/// The help text of the flag that sets the locale.
pub const LOCALE_HELP: &'static str =
    "specify the locale in the form <language>_<territory>.<codeset> for the container (default: en_US.UTF8)";

/// The flags of the settings: `-m`/`--mount`, which may be given more than
/// once, `-t`/`--timezone`, `--memory`, `--cpu-shares`, `--network` and
/// `--locale`.
pub open spec fn cli_flags() -> Seq<FlagView> {
    seq![
        FlagView {
            short: Some('m'),
            action: FlagAction::Repeated,
            ..single_flag(MOUNT_FLAG@, MOUNT_FLAG@, MOUNT_HELP@)
        },
        FlagView { short: Some('t'), ..single_flag(TIMEZONE_FLAG@, TIMEZONE_FLAG@, TIMEZONE_HELP@) },
        single_flag(MEMORY_FLAG@, MEMORY_FLAG@, MEMORY_HELP@),
        single_flag(CPU_SHARES_FLAG@, CPU_SHARES_FLAG@, CPU_SHARES_HELP@),
        single_flag(NETWORK_FLAG@, NETWORK_FLAG@, NETWORK_HELP@),
        single_flag(LOCALE_FLAG@, LOCALE_FLAG@, LOCALE_HELP@),
    ]
}

/// The flags through which the settings are given on the command line.
pub fn cli_args() -> (r: Vec<Flag>)
    ensures
        r.deep_view() == cli_flags(),
{
    let mut mount = Flag::single(MOUNT_FLAG, MOUNT_FLAG, MOUNT_HELP);
    mount.short = Some('m');
    mount.action = FlagAction::Repeated;
    let mut timezone = Flag::single(TIMEZONE_FLAG, TIMEZONE_FLAG, TIMEZONE_HELP);
    timezone.short = Some('t');
    let mut flags: Vec<Flag> = Vec::new();
    flags.push(mount);
    flags.push(timezone);
    flags.push(Flag::single(MEMORY_FLAG, MEMORY_FLAG, MEMORY_HELP));
    flags.push(Flag::single(CPU_SHARES_FLAG, CPU_SHARES_FLAG, CPU_SHARES_HELP));
    flags.push(Flag::single(NETWORK_FLAG, NETWORK_FLAG, NETWORK_HELP));
    flags.push(Flag::single(LOCALE_FLAG, LOCALE_FLAG, LOCALE_HELP));
    assert(flags.deep_view() =~= cli_flags());
    flags
}

} // verus!
