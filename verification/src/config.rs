//! The settings record and its rendering as an environment file.

use crate::text::{join, joined, to_upper, upper, upper_char};
use vstd::prelude::*;

verus! {

/// A setting's value: one of the three shapes a setting can take.
#[derive(Debug)]
pub enum Value {
    /// A yes/no setting.
    Flag(bool),
    /// A free-text setting.
    Text(String),
    /// A list-valued setting.
    List(Vec<String>),
}

/// The mathematical value of a [`Value`].
pub enum ValueView {
    Flag(bool),
    Text(Seq<char>),
    List(Seq<Seq<char>>),
}

impl View for Value {
    type V = ValueView;

    open spec fn view(&self) -> ValueView {
        match self {
            Value::Flag(b) => ValueView::Flag(*b),
            Value::Text(s) => ValueView::Text(s@),
            Value::List(items) => ValueView::List(items.deep_view()),
        }
    }
}

impl ValueView {
    /// The text that stands for the value in an environment file: `true` or
    /// `false` for a flag, a text as it is, a list's items joined by commas.
    pub open spec fn rendered(self) -> Seq<char> {
        match self {
            ValueView::Flag(b) => if b {
                "true"@
            } else {
                "false"@
            },
            ValueView::Text(s) => s,
            ValueView::List(items) => joined(items, ","@),
        }
    }
}

impl Value {
    /// The text that stands for the value in an environment file.
    pub fn render(&self) -> (r: String)
        ensures
            r@ == self@.rendered(),
    {
        match self {
            Value::Flag(b) => if *b {
                String::from_str("true")
            } else {
                String::from_str("false")
            },
            Value::Text(s) => s.clone(),
            Value::List(items) => join(items, ","),
        }
    }
}

/// One field of a settings record: its name and, where it is set, its value.
#[derive(Debug)]
pub struct Entry {
    /// The field's name, in lower snake case.
    pub name: String,
    /// The field's value; `None` where the field is not set.
    pub value: Option<Value>,
}

/// The mathematical value of an [`Entry`].
pub struct EntryView {
    pub name: Seq<char>,
    pub value: Option<ValueView>,
}

impl View for Entry {
    type V = EntryView;

    open spec fn view(&self) -> EntryView {
        EntryView {
            name: self.name@,
            value: match self.value {
                Some(v) => Some(v@),
                None => None,
            },
        }
    }
}

impl DeepView for Entry {
    type V = EntryView;

    open spec fn deep_view(&self) -> EntryView {
        self@
    }
}

/// The line `NAME=value`, the name in upper case.
pub open spec fn env_line(name: Seq<char>, value: Seq<char>) -> Seq<char> {
    upper(name) + "="@ + value
}

impl EntryView {
    /// The lines the entry contributes: its one line where it is set, none
    /// where it is not.
    pub open spec fn lines(self) -> Seq<Seq<char>> {
        match self.value {
            Some(v) => seq![env_line(self.name, v.rendered())],
            None => Seq::empty(),
        }
    }
}

/// The lines of the entries that are set, in the entries' order.
pub open spec fn lines_of(entries: Seq<EntryView>) -> Seq<Seq<char>>
    decreases entries.len(),
{
    if entries.len() == 0 {
        Seq::empty()
    } else {
        lines_of(entries.drop_last()) + entries.last().lines()
    }
}

/// The environment file of the entries: their lines, separated by line
/// breaks.
pub open spec fn flattened(entries: Seq<EntryView>) -> Seq<char> {
    joined(lines_of(entries), "\n"@)
}

/// The line `NAME=value` for a value that is there, the empty string for one
/// that is not.
pub fn to_env_line(name: &str, value: Option<&str>) -> (r: String)
    ensures
        r@ == match value {
            Some(v) => env_line(name@, v@),
            None => Seq::empty(),
        },
{
    match value {
        Some(v) => {
            let mut line = to_upper(name);
            line.append("=");
            line.append(v);
            line
        },
        None => String::new(),
    }
}

/// Renders the entries as an environment file: one `NAME=value` line for each
/// entry that is set, in the order given, and nothing for the others.
pub fn flatten(entries: &Vec<Entry>) -> (r: String)
    ensures
        r@ == flattened(entries.deep_view()),
{
    let mut lines: Vec<String> = Vec::new();
    let mut i: usize = 0;
    while i < entries.len()
        invariant
            i <= entries.len(),
            lines.deep_view() == lines_of(entries.deep_view().take(i as int)),
        decreases entries.len() - i,
    {
        let ghost before = lines.deep_view();
        let entry = &entries[i];
        proof {
            let all = entries.deep_view();
            assert(all.take(i + 1).drop_last() =~= all.take(i as int));
            assert(all.take(i + 1).last() == entry@);
        }
        match &entry.value {
            Some(v) => {
                let text = v.render();
                let line = to_env_line(entry.name.as_str(), Some(text.as_str()));
                lines.push(line);
                assert(lines.deep_view() =~= before + entry@.lines());
            },
            None => {
                assert(lines.deep_view() =~= before + entry@.lines());
            },
        }
        i += 1;
    }
    proof {
        assert(entries.deep_view().take(entries.len() as int) =~= entries.deep_view());
    }
    join(&lines, "\n")
}

/// Whether `line` is a line of the field `name`: the name in upper case and
/// `=` begin it.
pub open spec fn is_line_of(line: Seq<char>, name: Seq<char>) -> bool {
    (upper(name) + "="@).is_prefix_of(line)
}

/// How many of the lines are lines of the field `name`.
pub open spec fn lines_for(lines: Seq<Seq<char>>, name: Seq<char>) -> nat
    decreases lines.len(),
{
    if lines.len() == 0 {
        0
    } else {
        lines_for(lines.drop_last(), name) + if is_line_of(lines.last(), name) {
            1nat
        } else {
            0nat
        }
    }
}

/// How many of the entries are set.
pub open spec fn set_count(entries: Seq<EntryView>) -> nat
    decreases entries.len(),
{
    if entries.len() == 0 {
        0
    } else {
        set_count(entries.drop_last()) + if entries.last().value is Some {
            1nat
        } else {
            0nat
        }
    }
}

/// The characters of a field name: lower-case letters, digits and the
/// underscore.
pub open spec fn is_name_char(c: char) -> bool {
    ('a' <= c && c <= 'z') || ('0' <= c && c <= '9') || c == '_'
}

/// Whether `name` is written in lower snake case.
pub open spec fn is_field_name(name: Seq<char>) -> bool {
    forall|i: int| 0 <= i < name.len() ==> is_name_char(#[trigger] name[i])
}

/// Whether the entries are the fields of one record: each name in lower snake
/// case, no name used twice.
pub open spec fn well_named(entries: Seq<EntryView>) -> bool {
    &&& forall|i: int| 0 <= i < entries.len() ==> is_field_name(#[trigger] entries[i].name)
    &&& forall|i: int, j: int|
        0 <= i < j < entries.len() ==> #[trigger] entries[i].name != #[trigger] entries[j].name
}

/// A line is a line of the field it was written for, and of no other field.
pub proof fn lemma_line_names_its_field(name: Seq<char>, value: Seq<char>, other: Seq<char>)
    requires
        is_field_name(name),
        is_field_name(other),
    ensures
        is_line_of(env_line(name, value), other) <==> name == other,
{
    reveal_strlit("=");
    let line = env_line(name, value);
    let key = upper(other) + "="@;
    if name == other {
        assert(line.subrange(0, key.len() as int) =~= key);
    }
    if is_line_of(line, other) {
        assert(line.subrange(0, key.len() as int) == key);
        if other.len() < name.len() {
            let k = other.len() as int;
            assert(key[k] == '=');
            assert(line.subrange(0, key.len() as int)[k] == line[k]);
            assert(line[k] == upper_char(name[k]));
            assert(is_name_char(name[k]));
        } else if other.len() > name.len() {
            let k = name.len() as int;
            assert(line[k] == '=');
            assert(line.subrange(0, key.len() as int)[k] == line[k]);
            assert(key[k] == upper_char(other[k]));
            assert(is_name_char(other[k]));
        } else {
            assert forall|k: int| 0 <= k < name.len() implies name[k] == other[k] by {
                assert(line.subrange(0, key.len() as int)[k] == line[k]);
                assert(line[k] == upper_char(name[k]));
                assert(key[k] == upper_char(other[k]));
                assert(is_name_char(name[k]));
                assert(is_name_char(other[k]));
            }
            assert(name =~= other);
        }
    }
}

/// Counting the lines of a field goes part by part.
proof fn lemma_lines_for_add(a: Seq<Seq<char>>, b: Seq<Seq<char>>, name: Seq<char>)
    ensures
        lines_for(a + b, name) == lines_for(a, name) + lines_for(b, name),
    decreases b.len(),
{
    if b.len() == 0 {
        assert(a + b =~= a);
    } else {
        assert((a + b).drop_last() =~= a + b.drop_last());
        assert((a + b).last() == b.last());
        lemma_lines_for_add(a, b.drop_last(), name);
    }
}

/// How many lines an entry contributes to the field `name`.
proof fn lemma_lines_for_entry(entry: EntryView, name: Seq<char>)
    requires
        is_field_name(entry.name),
        is_field_name(name),
    ensures
        lines_for(entry.lines(), name) == if entry.value is Some && entry.name == name {
            1nat
        } else {
            0nat
        },
{
    match entry.value {
        Some(v) => {
            lemma_line_names_its_field(entry.name, v.rendered(), name);
            let lines = entry.lines();
            assert(lines.drop_last() =~= Seq::<Seq<char>>::empty());
            assert(lines_for(lines.drop_last(), name) == 0);
        },
        None => {},
    }
}

/// A field that is not among the entries has no line among theirs.
proof fn lemma_no_line_for_other_name(entries: Seq<EntryView>, name: Seq<char>)
    requires
        is_field_name(name),
        forall|i: int| 0 <= i < entries.len() ==> is_field_name(#[trigger] entries[i].name),
        forall|i: int| 0 <= i < entries.len() ==> (#[trigger] entries[i]).name != name,
    ensures
        lines_for(lines_of(entries), name) == 0,
    decreases entries.len(),
{
    if entries.len() > 0 {
        let init = entries.drop_last();
        assert forall|i: int| 0 <= i < init.len() implies is_field_name(
            #[trigger] init[i].name,
        ) by {
            assert(init[i] == entries[i]);
        }
        assert forall|i: int| 0 <= i < init.len() implies (#[trigger] init[i]).name != name by {
            assert(init[i] == entries[i]);
        }
        lemma_no_line_for_other_name(init, name);
        assert(entries.last() == entries[entries.len() - 1]);
        lemma_lines_for_entry(entries.last(), name);
        lemma_lines_for_add(lines_of(init), entries.last().lines(), name);
    }
}

/// Flattening gives exactly one line for each entry that is set and no line
/// for an entry that is not: there are as many lines as entries that are set,
/// and each field has one line of its own or none.
pub proof fn lemma_one_line_per_set_entry(entries: Seq<EntryView>)
    requires
        well_named(entries),
    ensures
        lines_of(entries).len() == set_count(entries),
        forall|i: int|
            0 <= i < entries.len() ==> lines_for(lines_of(entries), #[trigger] entries[i].name)
                == if entries[i].value is Some {
                1nat
            } else {
                0nat
            },
    decreases entries.len(),
{
    if entries.len() > 0 {
        let init = entries.drop_last();
        let last = entries.last();
        assert(last == entries[entries.len() - 1]);
        assert forall|i: int| 0 <= i < init.len() implies init[i] == entries[i] by {}
        assert(well_named(init)) by {
            assert forall|i: int| 0 <= i < init.len() implies is_field_name(
                #[trigger] init[i].name,
            ) by {
                assert(init[i] == entries[i]);
            }
            assert forall|i: int, j: int| 0 <= i < j < init.len() implies #[trigger] init[i].name
                != #[trigger] init[j].name by {
                assert(init[i] == entries[i]);
                assert(init[j] == entries[j]);
            }
        }
        lemma_one_line_per_set_entry(init);
        assert forall|i: int| 0 <= i < entries.len() implies lines_for(
            lines_of(entries),
            #[trigger] entries[i].name,
        ) == if entries[i].value is Some {
            1nat
        } else {
            0nat
        } by {
            let name = entries[i].name;
            lemma_lines_for_add(lines_of(init), last.lines(), name);
            lemma_lines_for_entry(last, name);
            if i < init.len() {
                assert(init[i] == entries[i]);
                assert(entries[i].name != entries[entries.len() - 1].name);
            } else {
                assert forall|k: int| 0 <= k < init.len() implies (#[trigger] init[k]).name
                    != name by {
                    assert(init[k] == entries[k]);
                    assert(entries[k].name != entries[entries.len() - 1].name);
                }
                lemma_no_line_for_other_name(init, name);
            }
        }
    }
}

/// The choices made during set-up. A field that is `None` has not been
/// decided yet.
#[derive(Debug)]
pub struct Config {
    pub quick_setup: Option<bool>,
    pub compose_profiles: Option<Vec<String>>,
    pub lila_ws_container: Option<String>,
    pub setup_database: Option<bool>,
    pub setup_bbppairings: Option<bool>,
    pub mock_email: Option<bool>,
    pub enable_monitoring: Option<bool>,
    pub enable_rate_limiting: Option<bool>,
    pub su_password: Option<String>,
    pub password: Option<String>,
    pub setup_api_tokens: Option<bool>,
    pub lila_domain: Option<String>,
    pub lila_url: Option<String>,
}

/// The mathematical value of a [`Config`].
pub struct ConfigView {
    pub quick_setup: Option<bool>,
    pub compose_profiles: Option<Seq<Seq<char>>>,
    pub lila_ws_container: Option<Seq<char>>,
    pub setup_database: Option<bool>,
    pub setup_bbppairings: Option<bool>,
    pub mock_email: Option<bool>,
    pub enable_monitoring: Option<bool>,
    pub enable_rate_limiting: Option<bool>,
    pub su_password: Option<Seq<char>>,
    pub password: Option<Seq<char>>,
    pub setup_api_tokens: Option<bool>,
    pub lila_domain: Option<Seq<char>>,
    pub lila_url: Option<Seq<char>>,
}

impl View for Config {
    type V = ConfigView;

    open spec fn view(&self) -> ConfigView {
        ConfigView {
            quick_setup: self.quick_setup,
            compose_profiles: self.compose_profiles.deep_view(),
            lila_ws_container: self.lila_ws_container.deep_view(),
            setup_database: self.setup_database,
            setup_bbppairings: self.setup_bbppairings,
            mock_email: self.mock_email,
            enable_monitoring: self.enable_monitoring,
            enable_rate_limiting: self.enable_rate_limiting,
            su_password: self.su_password.deep_view(),
            password: self.password.deep_view(),
            setup_api_tokens: self.setup_api_tokens,
            lila_domain: self.lila_domain.deep_view(),
            lila_url: self.lila_url.deep_view(),
        }
    }
}

/// The entry of a yes/no field.
pub open spec fn flag_entry(name: Seq<char>, value: Option<bool>) -> EntryView {
    EntryView {
        name,
        value: match value {
            Some(b) => Some(ValueView::Flag(b)),
            None => None,
        },
    }
}

/// The entry of a free-text field.
pub open spec fn text_entry(name: Seq<char>, value: Option<Seq<char>>) -> EntryView {
    EntryView {
        name,
        value: match value {
            Some(s) => Some(ValueView::Text(s)),
            None => None,
        },
    }
}

/// The entry of a list-valued field.
pub open spec fn list_entry(name: Seq<char>, value: Option<Seq<Seq<char>>>) -> EntryView {
    EntryView {
        name,
        value: match value {
            Some(items) => Some(ValueView::List(items)),
            None => None,
        },
    }
}

impl ConfigView {
    /// The record with no field set.
    pub open spec fn unset() -> ConfigView {
        ConfigView {
            quick_setup: None,
            compose_profiles: None,
            lila_ws_container: None,
            setup_database: None,
            setup_bbppairings: None,
            mock_email: None,
            enable_monitoring: None,
            enable_rate_limiting: None,
            su_password: None,
            password: None,
            setup_api_tokens: None,
            lila_domain: None,
            lila_url: None,
        }
    }

    /// The record's fields in the order of their declaration.
    pub open spec fn entries(self) -> Seq<EntryView> {
        seq![
            flag_entry("quick_setup"@, self.quick_setup),
            list_entry("compose_profiles"@, self.compose_profiles),
            text_entry("lila_ws_container"@, self.lila_ws_container),
            flag_entry("setup_database"@, self.setup_database),
            flag_entry("setup_bbppairings"@, self.setup_bbppairings),
            flag_entry("mock_email"@, self.mock_email),
            flag_entry("enable_monitoring"@, self.enable_monitoring),
            flag_entry("enable_rate_limiting"@, self.enable_rate_limiting),
            text_entry("su_password"@, self.su_password),
            text_entry("password"@, self.password),
            flag_entry("setup_api_tokens"@, self.setup_api_tokens),
            text_entry("lila_domain"@, self.lila_domain),
            text_entry("lila_url"@, self.lila_url),
        ]
    }

    /// The record's environment file.
    pub open spec fn env_text(self) -> Seq<char> {
        flattened(self.entries())
    }
}

impl Entry {
    /// The entry of a yes/no field.
    pub fn flag(name: &str, value: &Option<bool>) -> (r: Entry)
        ensures
            r@ == flag_entry(name@, *value),
    {
        Entry {
            name: String::from_str(name),
            value: match value {
                Some(b) => Some(Value::Flag(*b)),
                None => None,
            },
        }
    }

    /// The entry of a free-text field.
    pub fn text(name: &str, value: &Option<String>) -> (r: Entry)
        ensures
            r@ == text_entry(name@, value.deep_view()),
    {
        Entry {
            name: String::from_str(name),
            value: match value {
                Some(s) => Some(Value::Text(s.clone())),
                None => None,
            },
        }
    }

    /// The entry of a list-valued field.
    pub fn list(name: &str, value: &Option<Vec<String>>) -> (r: Entry)
        ensures
            r@ == list_entry(name@, value.deep_view()),
    {
        Entry {
            name: String::from_str(name),
            value: match value {
                Some(items) => {
                    let copy = items.clone();
                    assert(copy.deep_view() =~= items.deep_view());
                    Some(Value::List(copy))
                },
                None => None,
            },
        }
    }
}

impl Default for Config {
    /// The record with no field set.
    fn default() -> (r: Self)
        ensures
            r@ == ConfigView::unset(),
    {
        Config {
            quick_setup: None,
            compose_profiles: None,
            lila_ws_container: None,
            setup_database: None,
            setup_bbppairings: None,
            mock_email: None,
            enable_monitoring: None,
            enable_rate_limiting: None,
            su_password: None,
            password: None,
            setup_api_tokens: None,
            lila_domain: None,
            lila_url: None,
        }
    }
}

impl Config {
    /// The record's fields in the order of their declaration, each with its
    /// name and its value.
    pub fn entries(&self) -> (r: Vec<Entry>)
        ensures
            r.deep_view() == self@.entries(),
    {
        let mut entries: Vec<Entry> = Vec::new();
        entries.push(Entry::flag("quick_setup", &self.quick_setup));
        entries.push(Entry::list("compose_profiles", &self.compose_profiles));
        entries.push(Entry::text("lila_ws_container", &self.lila_ws_container));
        entries.push(Entry::flag("setup_database", &self.setup_database));
        entries.push(Entry::flag("setup_bbppairings", &self.setup_bbppairings));
        entries.push(Entry::flag("mock_email", &self.mock_email));
        entries.push(Entry::flag("enable_monitoring", &self.enable_monitoring));
        entries.push(Entry::flag("enable_rate_limiting", &self.enable_rate_limiting));
        entries.push(Entry::text("su_password", &self.su_password));
        entries.push(Entry::text("password", &self.password));
        entries.push(Entry::flag("setup_api_tokens", &self.setup_api_tokens));
        entries.push(Entry::text("lila_domain", &self.lila_domain));
        entries.push(Entry::text("lila_url", &self.lila_url));
        assert(entries.deep_view() =~= self@.entries());
        entries
    }

    /// The record as an environment file: for each field that is set, in the
    /// order of declaration, the line `NAME=value` with the field's name in
    /// upper case; nothing for a field that is not set.
    pub fn to_env(&self) -> (r: String)
        ensures
            r@ == self@.env_text(),
    {
        flatten(&self.entries())
    }
}

/// The fields of a settings record are named in lower snake case, each
/// under a name of its own.
pub proof fn lemma_fields_well_named(config: ConfigView)
    ensures
        well_named(config.entries()),
{
    reveal_strlit("quick_setup");
    reveal_strlit("compose_profiles");
    reveal_strlit("lila_ws_container");
    reveal_strlit("setup_database");
    reveal_strlit("setup_bbppairings");
    reveal_strlit("mock_email");
    reveal_strlit("enable_monitoring");
    reveal_strlit("enable_rate_limiting");
    reveal_strlit("su_password");
    reveal_strlit("password");
    reveal_strlit("setup_api_tokens");
    reveal_strlit("lila_domain");
    reveal_strlit("lila_url");
    let entries = config.entries();
    assert(is_field_name(entries[0].name));
    assert(is_field_name(entries[1].name));
    assert(is_field_name(entries[2].name));
    assert(is_field_name(entries[3].name));
    assert(is_field_name(entries[4].name));
    assert(is_field_name(entries[5].name));
    assert(is_field_name(entries[6].name));
    assert(is_field_name(entries[7].name));
    assert(is_field_name(entries[8].name));
    assert(is_field_name(entries[9].name));
    assert(is_field_name(entries[10].name));
    assert(is_field_name(entries[11].name));
    assert(is_field_name(entries[12].name));
    assert(entries.len() == 13);
    assert forall|i: int| 0 <= i < entries.len() implies is_field_name(
        #[trigger] entries[i].name,
    ) by {
        assert(0 <= i < 13);
    }
    assert forall|i: int, j: int| 0 <= i < j < entries.len() implies #[trigger] entries[i].name
        != #[trigger] entries[j].name by {
        let a = entries[i].name;
        let b = entries[j].name;
        assert(a.len() != b.len() || a[0] != b[0]);
    }
}

/// Rendering a settings record gives exactly one line for each field that is
/// set and no line for a field that is not.
pub proof fn lemma_one_line_per_set_field(config: ConfigView)
    ensures
        lines_of(config.entries()).len() == set_count(config.entries()),
        forall|i: int|
            0 <= i < config.entries().len() ==> lines_for(
                lines_of(config.entries()),
                #[trigger] config.entries()[i].name,
            ) == if config.entries()[i].value is Some {
                1nat
            } else {
                0nat
            },
{
    lemma_fields_well_named(config);
    lemma_one_line_per_set_entry(config.entries());
}

/// The keys under which the fields stand in the environment file.
pub proof fn lemma_env_keys()
    ensures
        upper("quick_setup"@) == "QUICK_SETUP"@,
        upper("compose_profiles"@) == "COMPOSE_PROFILES"@,
        upper("lila_ws_container"@) == "LILA_WS_CONTAINER"@,
        upper("setup_database"@) == "SETUP_DATABASE"@,
        upper("setup_bbppairings"@) == "SETUP_BBPPAIRINGS"@,
        upper("mock_email"@) == "MOCK_EMAIL"@,
        upper("enable_monitoring"@) == "ENABLE_MONITORING"@,
        upper("enable_rate_limiting"@) == "ENABLE_RATE_LIMITING"@,
        upper("su_password"@) == "SU_PASSWORD"@,
        upper("password"@) == "PASSWORD"@,
        upper("setup_api_tokens"@) == "SETUP_API_TOKENS"@,
        upper("lila_domain"@) == "LILA_DOMAIN"@,
        upper("lila_url"@) == "LILA_URL"@,
{
    reveal_strlit("quick_setup");
    reveal_strlit("QUICK_SETUP");
    assert(upper("quick_setup"@) =~= "QUICK_SETUP"@);
    reveal_strlit("compose_profiles");
    reveal_strlit("COMPOSE_PROFILES");
    assert(upper("compose_profiles"@) =~= "COMPOSE_PROFILES"@);
    reveal_strlit("lila_ws_container");
    reveal_strlit("LILA_WS_CONTAINER");
    assert(upper("lila_ws_container"@) =~= "LILA_WS_CONTAINER"@);
    reveal_strlit("setup_database");
    reveal_strlit("SETUP_DATABASE");
    assert(upper("setup_database"@) =~= "SETUP_DATABASE"@);
    reveal_strlit("setup_bbppairings");
    reveal_strlit("SETUP_BBPPAIRINGS");
    assert(upper("setup_bbppairings"@) =~= "SETUP_BBPPAIRINGS"@);
    reveal_strlit("mock_email");
    reveal_strlit("MOCK_EMAIL");
    assert(upper("mock_email"@) =~= "MOCK_EMAIL"@);
    reveal_strlit("enable_monitoring");
    reveal_strlit("ENABLE_MONITORING");
    assert(upper("enable_monitoring"@) =~= "ENABLE_MONITORING"@);
    reveal_strlit("enable_rate_limiting");
    reveal_strlit("ENABLE_RATE_LIMITING");
    assert(upper("enable_rate_limiting"@) =~= "ENABLE_RATE_LIMITING"@);
    reveal_strlit("su_password");
    reveal_strlit("SU_PASSWORD");
    assert(upper("su_password"@) =~= "SU_PASSWORD"@);
    reveal_strlit("password");
    reveal_strlit("PASSWORD");
    assert(upper("password"@) =~= "PASSWORD"@);
    reveal_strlit("setup_api_tokens");
    reveal_strlit("SETUP_API_TOKENS");
    assert(upper("setup_api_tokens"@) =~= "SETUP_API_TOKENS"@);
    reveal_strlit("lila_domain");
    reveal_strlit("LILA_DOMAIN");
    assert(upper("lila_domain"@) =~= "LILA_DOMAIN"@);
    reveal_strlit("lila_url");
    reveal_strlit("LILA_URL");
    assert(upper("lila_url"@) =~= "LILA_URL"@);
}

} // verus!
