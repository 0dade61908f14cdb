//! The settings that every planner shares.

use vstd::prelude::*;
use vstd::string::StringExecFns;

verus! {

/// Which distribution of Nix is installed.
#[derive(Clone, Copy, Debug, PartialEq, Eq, Structural)]
pub enum Distribution {
    DeterminateNix,
    Nix,
}

/// The init system that starts the daemon.
#[derive(Clone, Copy, Debug, PartialEq, Eq, Structural)]
pub enum InitSystem {
    /// No init system takes care of the daemon.
    NoInit,
    Systemd,
    Launchd,
}

/// Where an install keeps its scratch files.
pub const SCRATCH_DIR: &'static str = "/nix/temp-install-dir";

/// Settings common to all planners.
#[derive(Debug)]
pub struct CommonSettings {
    /// Whether Determinate Nix is installed instead of upstream Nix.
    pub determinate_nix: bool,
    /// The name of the build group.
    pub nix_build_group_name: String,
    /// The id of the build group.
    pub nix_build_group_id: u32,
    /// The prefix of the build users' names; the user's number follows it.
    pub nix_build_user_prefix: String,
    /// How many build users there are.
    pub nix_build_user_count: u32,
    /// The id below the first build user's id.
    pub nix_build_user_id_base: u32,
}

impl CommonSettings {
    /// The distribution these settings select.
    pub open spec fn spec_distribution(&self) -> Distribution {
        if self.determinate_nix {
            Distribution::DeterminateNix
        } else {
            Distribution::Nix
        }
    }

    /// The distribution these settings select.
    pub fn distribution(&self) -> (distribution: Distribution)
        ensures
            distribution == self.spec_distribution(),
    {
        if self.determinate_nix {
            Distribution::DeterminateNix
        } else {
            Distribution::Nix
        }
    }
}

/// The value of one setting.
#[derive(Debug)]
pub enum SettingValue {
    Bool(bool),
    Number(u32),
    Text(String),
}

/// The view of a [`SettingValue`].
pub enum SettingValueView {
    Bool(bool),
    Number(u32),
    Text(Seq<char>),
}

impl View for SettingValue {
    type V = SettingValueView;

    open spec fn view(&self) -> SettingValueView {
        match self {
            SettingValue::Bool(flag) => SettingValueView::Bool(*flag),
            SettingValue::Number(number) => SettingValueView::Number(*number),
            SettingValue::Text(text) => SettingValueView::Text(text@),
        }
    }
}

impl Clone for SettingValue {
    fn clone(&self) -> (copy: Self)
        ensures
            copy@ == self@,
    {
        match self {
            SettingValue::Bool(flag) => SettingValue::Bool(*flag),
            SettingValue::Number(number) => SettingValue::Number(*number),
            SettingValue::Text(text) => SettingValue::Text(text.clone()),
        }
    }
}

impl SettingValue {
    /// Whether two values are the same.
    pub fn same(&self, other: &SettingValue) -> (same: bool)
        ensures
            same == (self@ == other@),
    {
        match (self, other) {
            (SettingValue::Bool(left), SettingValue::Bool(right)) => *left == *right,
            (SettingValue::Number(left), SettingValue::Number(right)) => *left == *right,
            (SettingValue::Text(left), SettingValue::Text(right)) => *left == *right,
            _ => false,
        }
    }
}

/// One setting: a key and its value.
#[derive(Debug)]
pub struct Setting {
    pub key: String,
    pub value: SettingValue,
}

/// The view of a [`Setting`].
pub struct SettingView {
    pub key: Seq<char>,
    pub value: SettingValueView,
}

impl View for Setting {
    type V = SettingView;

    open spec fn view(&self) -> SettingView {
        SettingView { key: self.key@, value: self.value@ }
    }
}

impl DeepView for Setting {
    type V = SettingView;

    open spec fn deep_view(&self) -> SettingView {
        self@
    }
}

impl Clone for Setting {
    fn clone(&self) -> (copy: Self)
        ensures
            copy@ == self@,
    {
        Setting { key: self.key.clone(), value: self.value.clone() }
    }
}

/// The value that a list of settings gives `key`: that of the last entry
/// with this key, as in a map that was filled in the list's order.
pub open spec fn lookup(settings: Seq<SettingView>, key: Seq<char>) -> Option<SettingValueView>
    decreases settings.len(),
{
    if settings.len() == 0 {
        None
    } else if settings.last().key == key {
        Some(settings.last().value)
    } else {
        lookup(settings.drop_last(), key)
    }
}

/// Whether `setting` says something that `default` does not: the default
/// has no value for its key, or another one.
pub open spec fn differs(default: Seq<SettingView>, setting: SettingView) -> bool {
    lookup(default, setting.key) != Some(setting.value)
}

/// The settings of `configured` that differ from `default`, in order.
pub open spec fn changed(default: Seq<SettingView>, configured: Seq<SettingView>) -> Seq<
    SettingView,
> {
    configured.filter(|setting: SettingView| differs(default, setting))
}

/// Whether no key occurs twice in `settings`.
pub open spec fn no_key_twice(settings: Seq<SettingView>) -> bool {
    forall|i: int, j: int|
        0 <= i < j < settings.len() ==> (#[trigger] settings[i]).key != (
        #[trigger] settings[j]).key
}

/// The settings that differ from the default are among the configured
/// ones, in their order: where no key occurs twice in those, none does in
/// these.
pub proof fn lemma_changed_keeps_keys_apart(
    default: Seq<SettingView>,
    configured: Seq<SettingView>,
)
    requires
        no_key_twice(configured),
    ensures
        no_key_twice(changed(default, configured)),
    decreases configured.len(),
{
    let keep = |setting: SettingView| differs(default, setting);
    reveal(Seq::filter);
    if configured.len() > 0 {
        let before = configured.drop_last();
        lemma_changed_keeps_keys_apart(default, before);
        let kept = before.filter(keep);
        assert forall|i: int| 0 <= i < kept.len() implies (#[trigger] kept[i]).key
            != configured.last().key by {
            before.lemma_filter_contains_rev(keep, kept[i]);
            let at = choose|at: int| 0 <= at < before.len() && before[at] == kept[i];
            assert(configured[at] == kept[i]);
            assert(configured[configured.len() - 1] == configured.last());
        }
    }
}

/// Whether `settings` gives `setting.key` the value `setting.value`.
pub fn holds(settings: &Vec<Setting>, setting: &Setting) -> (holds: bool)
    ensures
        holds == !differs(settings.deep_view(), setting@),
{
    let mut i: usize = settings.len();
    assert(settings.deep_view().take(i as int) =~= settings.deep_view());
    while i > 0
        invariant
            i <= settings.len(),
            lookup(settings.deep_view(), setting@.key) == lookup(
                settings.deep_view().take(i as int),
                setting@.key,
            ),
        decreases i,
    {
        let ghost upto = settings.deep_view().take(i as int);
        i -= 1;
        assert(upto.last() == settings[i as int]@);
        assert(upto.drop_last() =~= settings.deep_view().take(i as int));
        if settings[i].key == setting.key {
            return settings[i].value.same(&setting.value);
        }
    }
    assert(settings.deep_view().take(0) =~= Seq::<SettingView>::empty());
    false
}

/// The settings of `configured` that differ from `default`, in order.
pub fn changed_settings(default: &Vec<Setting>, configured: &Vec<Setting>) -> (settings: Vec<
    Setting,
>)
    ensures
        settings.deep_view() == changed(default.deep_view(), configured.deep_view()),
{
    let ghost keep = |setting: SettingView| differs(default.deep_view(), setting);
    let mut settings: Vec<Setting> = Vec::new();
    let mut i: usize = 0;
    assert(configured.deep_view().take(0) =~= Seq::<SettingView>::empty());
    assert(settings.deep_view() =~= Seq::<SettingView>::empty());
    while i < configured.len()
        invariant
            i <= configured.len(),
            keep == |setting: SettingView| differs(default.deep_view(), setting),
            settings.deep_view() == configured.deep_view().take(i as int).filter(keep),
        decreases configured.len() - i,
    {
        let ghost before = settings.deep_view();
        let ghost seen = configured.deep_view().take(i as int);
        proof {
            let next = configured.deep_view().take(i + 1);
            assert(next.drop_last() =~= seen);
            assert(next.last() == configured[i as int]@);
            reveal(Seq::filter);
            assert(next.filter(keep) == if keep(next.last()) {
                seen.filter(keep).push(next.last())
            } else {
                seen.filter(keep)
            });
        }
        if !holds(default, &configured[i]) {
            settings.push(configured[i].clone());
            assert(settings.deep_view() =~= before.push(configured[i as int]@));
        }
        i += 1;
    }
    assert(configured.deep_view().take(i as int) =~= configured.deep_view());
    settings
}

/// A setting with a truth value.
pub fn bool_setting(key: &str, value: bool) -> (setting: Setting)
    ensures
        setting@ == (SettingView { key: key@, value: SettingValueView::Bool(value) }),
{
    Setting { key: String::from_str(key), value: SettingValue::Bool(value) }
}

/// A setting with a number.
pub fn number_setting(key: &str, value: u32) -> (setting: Setting)
    ensures
        setting@ == (SettingView { key: key@, value: SettingValueView::Number(value) }),
{
    Setting { key: String::from_str(key), value: SettingValue::Number(value) }
}

/// A setting with a text.
pub fn text_setting(key: &str, value: &str) -> (setting: Setting)
    ensures
        setting@ == (SettingView { key: key@, value: SettingValueView::Text(value@) }),
{
    Setting { key: String::from_str(key), value: SettingValue::Text(String::from_str(value)) }
}

impl CommonSettings {
    /// The settings as keys and values, one per field, in the order of the
    /// fields.
    pub open spec fn spec_settings(&self) -> Seq<SettingView> {
        seq![
            SettingView {
                key: "determinate_nix"@,
                value: SettingValueView::Bool(self.determinate_nix),
            },
            SettingView {
                key: "nix_build_group_name"@,
                value: SettingValueView::Text(self.nix_build_group_name@),
            },
            SettingView {
                key: "nix_build_group_id"@,
                value: SettingValueView::Number(self.nix_build_group_id),
            },
            SettingView {
                key: "nix_build_user_prefix"@,
                value: SettingValueView::Text(self.nix_build_user_prefix@),
            },
            SettingView {
                key: "nix_build_user_count"@,
                value: SettingValueView::Number(self.nix_build_user_count),
            },
            SettingView {
                key: "nix_build_user_id_base"@,
                value: SettingValueView::Number(self.nix_build_user_id_base),
            },
        ]
    }

    /// Every field has a key of its own.
    pub proof fn lemma_settings_have_their_own_keys(&self)
        ensures
            no_key_twice(self.spec_settings()),
    {
        reveal_strlit("determinate_nix");
        reveal_strlit("nix_build_group_name");
        reveal_strlit("nix_build_group_id");
        reveal_strlit("nix_build_user_prefix");
        reveal_strlit("nix_build_user_count");
        reveal_strlit("nix_build_user_id_base");
        let settings = self.spec_settings();
        assert forall|i: int, j: int| 0 <= i < j < settings.len() implies (
        #[trigger] settings[i]).key != (#[trigger] settings[j]).key by {
            // The keys differ in length, but for two of twenty characters.
            assert(settings[0].key.len() == 15);
            assert(settings[1].key.len() == 20);
            assert(settings[2].key.len() == 18);
            assert(settings[3].key.len() == 21);
            assert(settings[4].key.len() == 20);
            assert(settings[5].key.len() == 22);
            assert(settings[1].key[10] == 'g' && settings[4].key[10] == 'u');
        }
    }

    /// The settings as keys and values.
    pub fn settings(&self) -> (settings: Vec<Setting>)
        ensures
            settings.deep_view() == self.spec_settings(),
            no_key_twice(settings.deep_view()),
    {
        proof {
            self.lemma_settings_have_their_own_keys();
        }
        let mut settings: Vec<Setting> = Vec::new();
        settings.push(bool_setting("determinate_nix", self.determinate_nix));
        settings.push(text_setting("nix_build_group_name", self.nix_build_group_name.as_str()));
        settings.push(number_setting("nix_build_group_id", self.nix_build_group_id));
        settings.push(text_setting("nix_build_user_prefix", self.nix_build_user_prefix.as_str()));
        settings.push(number_setting("nix_build_user_count", self.nix_build_user_count));
        settings.push(number_setting("nix_build_user_id_base", self.nix_build_user_id_base));
        assert(settings.deep_view() =~= self.spec_settings());
        settings
    }
}

} // verus!
