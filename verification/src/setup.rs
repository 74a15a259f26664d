//! The decisions of the set-up: what the quick and the advanced way write
//! into the settings record, and which compose profiles result.

use crate::config::{Config, ConfigView};
use crate::gitpod::Gitpod;
use crate::services::{
    has_profile, offers_profile, profiles_of, selected_profiles, OptionalService,
    OptionalServiceView,
};
use crate::text::{insert_sorted, same, sorted_unique, strictly_sorted};
use vstd::prelude::*;

verus! {

/// The password that every account gets where none is chosen.
pub const DEFAULT_PASSWORD: &'static str = "password";

/// The two ways to set the environment up.
#[derive(Clone, Copy, Debug, PartialEq, Eq, Structural)]
pub enum SetupMethod {
    /// A basic site with fixed settings, nothing asked.
    Quick,
    /// Every setting is asked for.
    Advanced,
}

/// The settings that the advanced way offers to switch on.
#[derive(Clone, Copy, Debug, PartialEq, Eq, Structural)]
pub enum Setting {
    /// Seed the database with test users and games.
    SetupDatabase,
    /// Limit request rates as the production site does.
    EnableRateLimiting,
}

/// The method that is taken without asking: the quick one where nobody can
/// be asked, none otherwise.
pub fn method_without_prompt(noninteractive: bool) -> (r: Option<SetupMethod>)
    ensures
        r == if noninteractive {
            Some(SetupMethod::Quick)
        } else {
            None::<SetupMethod>
        },
{
    if noninteractive {
        Some(SetupMethod::Quick)
    } else {
        None
    }
}

/// The settings that are switched on when the choice is first shown: both on
/// a first set-up, only the rate limiting when services are added later.
pub open spec fn initial_settings_of(first_setup: bool) -> Seq<Setting> {
    if first_setup {
        seq![Setting::SetupDatabase, Setting::EnableRateLimiting]
    } else {
        seq![Setting::EnableRateLimiting]
    }
}

/// The settings that are switched on when the choice is first shown.
pub fn initial_settings(first_setup: bool) -> (r: Vec<Setting>)
    ensures
        r@ == initial_settings_of(first_setup),
{
    let mut list: Vec<Setting> = Vec::new();
    if first_setup {
        list.push(Setting::SetupDatabase);
    }
    list.push(Setting::EnableRateLimiting);
    assert(list@ =~= initial_settings_of(first_setup));
    list
}

/// Whether `setting` is among the chosen ones.
pub fn is_chosen(options: &Vec<Setting>, setting: Setting) -> (r: bool)
    ensures
        r == options@.contains(setting),
{
    let mut i: usize = 0;
    while i < options.len()
        invariant
            i <= options.len(),
            forall|k: int| 0 <= k < i ==> options@[k] != setting,
        decreases options.len() - i,
    {
        if options[i] == setting {
            return true;
        }
        i += 1;
    }
    false
}

/// Whether the passwords are asked for: only where the database is seeded.
pub fn asks_for_passwords(options: &Vec<Setting>) -> (r: bool)
    ensures
        r == options@.contains(Setting::SetupDatabase),
{
    is_chosen(options, Setting::SetupDatabase)
}

/// Whether the user has to confirm the default API tokens: where the
/// database is seeded and one of the two passwords is not the default one.
pub open spec fn confirms_api_tokens(
    options: Seq<Setting>,
    su_password: Seq<char>,
    password: Seq<char>,
) -> bool {
    options.contains(Setting::SetupDatabase) && (password != DEFAULT_PASSWORD@ || su_password
        != DEFAULT_PASSWORD@)
}

/// Whether the default API tokens are created: never without a seeded
/// database; with default passwords always; else where the user confirmed.
pub open spec fn creates_api_tokens(
    options: Seq<Setting>,
    su_password: Seq<char>,
    password: Seq<char>,
    confirmed: bool,
) -> bool {
    options.contains(Setting::SetupDatabase) && (if password != DEFAULT_PASSWORD@ || su_password
        != DEFAULT_PASSWORD@ {
        confirmed
    } else {
        true
    })
}

/// Whether the user has to confirm the default API tokens.
pub fn asks_about_api_tokens(options: &Vec<Setting>, su_password: &str, password: &str) -> (r:
    bool)
    ensures
        r == confirms_api_tokens(options@, su_password@, password@),
{
    is_chosen(options, Setting::SetupDatabase) && (!same(password, DEFAULT_PASSWORD) || !same(
        su_password,
        DEFAULT_PASSWORD,
    ))
}

/// Whether the default API tokens are created; `confirmed` is the user's
/// answer and counts only where [`asks_about_api_tokens`] holds.
pub fn setup_api_tokens(
    options: &Vec<Setting>,
    su_password: &str,
    password: &str,
    confirmed: bool,
) -> (r: bool)
    ensures
        r == creates_api_tokens(options@, su_password@, password@, confirmed),
{
    if !is_chosen(options, Setting::SetupDatabase) {
        false
    } else if asks_about_api_tokens(options, su_password, password) {
        confirmed
    } else {
        true
    }
}

/// The record after a quick set-up: default passwords, API tokens, rate
/// limiting and a seeded database; the other fields as they were.
pub open spec fn quick_setup_of(config: ConfigView) -> ConfigView {
    ConfigView {
        quick_setup: Some(true),
        password: Some(DEFAULT_PASSWORD@),
        su_password: Some(DEFAULT_PASSWORD@),
        setup_api_tokens: Some(true),
        enable_rate_limiting: Some(true),
        setup_database: Some(true),
        ..config
    }
}

/// The record after an advanced set-up with the given services, settings and
/// answers. The passwords count only where the database is seeded; else both
/// are the default one. What depends on a service is derived from the
/// services: the e-mails are mocked unless the e-mail service was chosen.
pub open spec fn advanced_setup_of(
    config: ConfigView,
    services: Seq<OptionalServiceView>,
    options: Seq<Setting>,
    su_password: Seq<char>,
    password: Seq<char>,
    confirmed: bool,
) -> ConfigView {
    let seeded = options.contains(Setting::SetupDatabase);
    let su = if seeded {
        su_password
    } else {
        DEFAULT_PASSWORD@
    };
    let plain = if seeded {
        password
    } else {
        DEFAULT_PASSWORD@
    };
    ConfigView {
        quick_setup: Some(false),
        setup_api_tokens: Some(creates_api_tokens(options, su, plain, confirmed)),
        setup_database: Some(seeded),
        enable_rate_limiting: Some(options.contains(Setting::EnableRateLimiting)),
        su_password: Some(su),
        password: Some(plain),
        setup_bbppairings: Some(offers_profile(services, "swiss-pairings"@)),
        mock_email: Some(!offers_profile(services, "email"@)),
        enable_monitoring: Some(offers_profile(services, "monitoring"@)),
        lila_ws_container: Some(
            if offers_profile(services, "lila-ws-build"@) {
                "build"@
            } else {
                "image"@
            },
        ),
        ..config
    }
}

/// The profiles that a set-up brings together, before they are put in
/// order: those of the chosen services; those that the record held, unless
/// this is a first set-up; and `quick` or `base`, by the method.
pub open spec fn profile_pool(
    services: Seq<OptionalServiceView>,
    existing: Option<Seq<Seq<char>>>,
    first_setup: bool,
    quick: bool,
) -> Seq<Seq<char>> {
    profiles_of(services) + (match existing {
        Some(held) if !first_setup => held,
        _ => Seq::empty(),
    }) + seq![
        if quick {
            "quick"@
        } else {
            "base"@
        },
    ]
}

/// The compose profiles of a set-up: the profiles of [`profile_pool`] in
/// ascending order, each once.
pub fn compose_profiles(
    services: &Vec<OptionalService>,
    existing: &Option<Vec<String>>,
    first_setup: bool,
    quick: bool,
) -> (r: Vec<String>)
    ensures
        strictly_sorted(r.deep_view()),
        r.deep_view().to_set() == profile_pool(
            services.deep_view(),
            existing.deep_view(),
            first_setup,
            quick,
        ).to_set(),
{
    let chosen = selected_profiles(services);
    let mut out = sorted_unique(&chosen);
    let ghost first = profiles_of(services.deep_view());
    let ghost second = match existing.deep_view() {
        Some(held) if !first_setup => held,
        _ => Seq::<Seq<char>>::empty(),
    };
    match existing {
        Some(held) => {
            if !first_setup {
                let mut i: usize = 0;
                proof {
                    assert((first + held.deep_view().take(0)) =~= first);
                }
                while i < held.len()
                    invariant
                        i <= held.len(),
                        strictly_sorted(out.deep_view()),
                        out.deep_view().to_set() == (first + held.deep_view().take(
                            i as int,
                        )).to_set(),
                    decreases held.len() - i,
                {
                    insert_sorted(&mut out, held[i].as_str());
                    proof {
                        let h = held.deep_view();
                        assert(first + h.take(i + 1) =~= (first + h.take(i as int)).push(
                            h[i as int],
                        ));
                        (first + h.take(i as int)).lemma_push_to_set_commute(h[i as int]);
                    }
                    i += 1;
                }
                proof {
                    assert(held.deep_view().take(held.len() as int) =~= held.deep_view());
                }
            } else {
                proof {
                    assert(first + second =~= first);
                }
            }
        },
        None => {
            proof {
                assert(first + second =~= first);
            }
        },
    }
    assert(out.deep_view().to_set() == (first + second).to_set());
    let method = if quick {
        "quick"
    } else {
        "base"
    };
    insert_sorted(&mut out, method);
    proof {
        assert(first + second + seq![method@] =~= (first + second).push(method@));
        (first + second).lemma_push_to_set_commute(method@);
    }
    out
}

impl Config {
    /// Writes the settings of a quick set-up into the record.
    pub fn apply_quick_setup(&mut self)
        ensures
            final(self)@ == quick_setup_of(old(self)@),
    {
        self.quick_setup = Some(true);
        self.password = Some(String::from_str(DEFAULT_PASSWORD));
        self.su_password = Some(String::from_str(DEFAULT_PASSWORD));
        self.setup_api_tokens = Some(true);
        self.enable_rate_limiting = Some(true);
        self.setup_database = Some(true);
    }

    /// Writes the settings of an advanced set-up into the record: the chosen
    /// settings, the passwords, and what follows from the chosen services.
    /// `confirmed` is the answer to the question about the API tokens.
    pub fn apply_advanced_setup(
        &mut self,
        services: &Vec<OptionalService>,
        options: &Vec<Setting>,
        su_password: &str,
        password: &str,
        confirmed: bool,
    )
        ensures
            final(self)@ == advanced_setup_of(
                old(self)@,
                services.deep_view(),
                options@,
                su_password@,
                password@,
                confirmed,
            ),
    {
        let seeded = is_chosen(options, Setting::SetupDatabase);
        let su = if seeded {
            su_password
        } else {
            DEFAULT_PASSWORD
        };
        let plain = if seeded {
            password
        } else {
            DEFAULT_PASSWORD
        };
        self.quick_setup = Some(false);
        self.setup_api_tokens = Some(setup_api_tokens(options, su, plain, confirmed));
        self.setup_database = Some(seeded);
        self.enable_rate_limiting = Some(is_chosen(options, Setting::EnableRateLimiting));
        self.su_password = Some(String::from_str(su));
        self.password = Some(String::from_str(plain));
        self.setup_bbppairings = Some(has_profile(services, "swiss-pairings"));
        self.mock_email = Some(!has_profile(services, "email"));
        self.enable_monitoring = Some(has_profile(services, "monitoring"));
        self.lila_ws_container = Some(
            if has_profile(services, "lila-ws-build") {
                String::from_str("build")
            } else {
                String::from_str("image")
            },
        );
    }

    /// Sets the compose profiles to those of this set-up, see
    /// [`compose_profiles`]; the other fields stay.
    pub fn set_compose_profiles(
        &mut self,
        services: &Vec<OptionalService>,
        first_setup: bool,
        quick: bool,
    )
        ensures
            final(self)@.compose_profiles is Some,
            strictly_sorted(final(self)@.compose_profiles->Some_0),
            final(self)@.compose_profiles->Some_0.to_set() == profile_pool(
                services.deep_view(),
                old(self)@.compose_profiles,
                first_setup,
                quick,
            ).to_set(),
            final(self)@ == (ConfigView {
                compose_profiles: final(self)@.compose_profiles,
                ..old(self)@
            }),
    {
        let profiles = compose_profiles(services, &self.compose_profiles, first_setup, quick);
        self.compose_profiles = Some(profiles);
    }

    /// Sets the site's domain and address to those of the Gitpod workspace.
    pub fn use_gitpod(&mut self, gitpod: &Gitpod)
        ensures
            final(self)@ == (ConfigView {
                lila_domain: Some(gitpod@.domain),
                lila_url: Some(gitpod@.url),
                ..old(self)@
            }),
    {
        self.lila_domain = Some(gitpod.domain.clone());
        self.lila_url = Some(gitpod.url.clone());
    }
}

/// A setting as the user is offered it.
#[derive(Debug)]
pub struct SettingChoice {
    pub setting: Setting,
    /// The name under which the setting is shown.
    pub label: String,
    /// A word of explanation.
    pub hint: String,
}

/// The mathematical value of a [`SettingChoice`].
pub struct SettingChoiceView {
    pub setting: Setting,
    pub label: Seq<char>,
    pub hint: Seq<char>,
}

impl View for SettingChoice {
    type V = SettingChoiceView;

    open spec fn view(&self) -> SettingChoiceView {
        SettingChoiceView { setting: self.setting, label: self.label@, hint: self.hint@ }
    }
}

impl DeepView for SettingChoice {
    type V = SettingChoiceView;

    open spec fn deep_view(&self) -> SettingChoiceView {
        self@
    }
}

/// The settings on offer. Seeding the database is recommended on a first
/// set-up and is a re-seeding later.
pub open spec fn setting_choices_of(first_setup: bool) -> Seq<SettingChoiceView> {
    seq![
        SettingChoiceView {
            setting: Setting::SetupDatabase,
            label: if first_setup {
                "Seed the database with test users, games, etc. (Recommended)"@
            } else {
                "Re-seed the database with test users, games, etc."@
            },
            hint: ""@,
        },
        SettingChoiceView {
            setting: Setting::EnableRateLimiting,
            label: "Enable rate limiting"@,
            hint: "To be prod-like. Can be disabled for development/testing purposes"@,
        },
    ]
}

/// The settings on offer.
pub fn setting_choices(first_setup: bool) -> (r: Vec<SettingChoice>)
    ensures
        r.deep_view() == setting_choices_of(first_setup),
{
    let mut list: Vec<SettingChoice> = Vec::new();
    list.push(
        SettingChoice {
            setting: Setting::SetupDatabase,
            label: if first_setup {
                String::from_str("Seed the database with test users, games, etc. (Recommended)")
            } else {
                String::from_str("Re-seed the database with test users, games, etc.")
            },
            hint: String::from_str(""),
        },
    );
    list.push(
        SettingChoice {
            setting: Setting::EnableRateLimiting,
            label: String::from_str("Enable rate limiting"),
            hint: String::from_str(
                "To be prod-like. Can be disabled for development/testing purposes",
            ),
        },
    );
    assert(list.deep_view() =~= setting_choices_of(first_setup));
    list
}

/// The question for the password of one kind of user.
pub open spec fn password_question(user_type: Seq<char>) -> Seq<char> {
    "Choose a password for "@ + user_type + " users (blank for 'password')"@
}

/// The question for the password of `user_type` users.
pub fn password_prompt(user_type: &str) -> (r: String)
    ensures
        r@ == password_question(user_type@),
{
    let mut question = String::from_str("Choose a password for ");
    question.append(user_type);
    question.append(" users (blank for 'password')");
    question
}

} // verus!
