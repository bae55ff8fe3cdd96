//! Data model: panels, panel roles, guild configuration, and the partial
//! update record used by the edit wizard.
use vstd::prelude::*;

verus! {

/// How a posted panel presents its roles: one button per role, or a single
/// multi-select menu with a confirm button.
#[derive(Debug, Clone, Copy, PartialEq, Eq, Structural)]
pub enum PanelStyle {
    Button,
    SelectMenu,
}

impl PanelStyle {
    /// The storage token for this style.
    pub open spec fn spec_as_str(self) -> Seq<char> {
        match self {
            PanelStyle::Button => "button"@,
            PanelStyle::SelectMenu => "select_menu"@,
        }
    }

    /// Which style a storage token denotes; anything but the select-menu
    /// token falls back to the button style.
    pub open spec fn spec_from_str(s: Seq<char>) -> PanelStyle {
        if s == "select_menu"@ {
            PanelStyle::SelectMenu
        } else {
            PanelStyle::Button
        }
    }

    /// The other style.
    pub open spec fn spec_toggle(self) -> PanelStyle {
        match self {
            PanelStyle::Button => PanelStyle::SelectMenu,
            PanelStyle::SelectMenu => PanelStyle::Button,
        }
    }

    pub fn as_str(&self) -> (r: &'static str)
        ensures
            r@ == self.spec_as_str(),
    {
        match self {
            PanelStyle::Button => "button",
            PanelStyle::SelectMenu => "select_menu",
        }
    }

    pub fn from_str(s: &str) -> (r: Self)
        ensures
            r == Self::spec_from_str(s@),
    {
        if str_eq(s, "select_menu") {
            PanelStyle::SelectMenu
        } else {
            PanelStyle::Button
        }
    }

    pub fn display_name(&self) -> (r: &'static str)
        ensures
            self is Button ==> r@ == "Button"@,
            self is SelectMenu ==> r@ == "Select Menu"@,
    {
        match self {
            PanelStyle::Button => "Button",
            PanelStyle::SelectMenu => "Select Menu",
        }
    }

    pub fn toggle(&self) -> (r: Self)
        ensures
            r == self.spec_toggle(),
    {
        match self {
            PanelStyle::Button => PanelStyle::SelectMenu,
            PanelStyle::SelectMenu => PanelStyle::Button,
        }
    }

    /// Toggling twice returns to the starting style.
    pub proof fn lemma_toggle_involutive(s: PanelStyle)
        ensures
            s.spec_toggle().spec_toggle() == s,
    {
    }

    /// `as_str` and `from_str` are inverse on the two styles.
    pub proof fn lemma_str_round_trip(s: PanelStyle)
        ensures
            Self::spec_from_str(s.spec_as_str()) == s,
    {
        reveal_strlit("button");
        reveal_strlit("select_menu");
        assert("button"@.len() == 6);
        assert("select_menu"@.len() == 11);
    }
}

impl Default for PanelStyle {
    fn default() -> (r: Self)
        ensures
            r == PanelStyle::Button,
    {
        PanelStyle::Button
    }
}

/// A guild's configured set of self-assignable roles, with its display
/// style, color and posting location.  Timestamps are seconds since the
/// Unix epoch.
#[derive(Debug, Clone)]
pub struct Panel {
    pub id: u128,
    pub guild_id: i64,
    pub name: String,
    pub description: Option<String>,
    pub style: PanelStyle,
    pub color: i32,
    pub channel_id: Option<i64>,
    pub message_id: Option<i64>,
    pub created_at: i64,
    pub updated_at: i64,
}

impl Panel {
    /// Posted state is all-or-nothing: a panel has a message exactly when
    /// it has a channel.
    pub open spec fn wf(self) -> bool {
        self.message_id is Some <==> self.channel_id is Some
    }

    pub fn is_posted(&self) -> (r: bool)
        ensures
            r == (self.message_id is Some),
    {
        self.message_id.is_some()
    }
}

/// One role entry within a panel.
#[derive(Debug, Clone)]
pub struct PanelRole {
    pub id: u128,
    pub panel_id: u128,
    pub role_id: i64,
    pub label: String,
    pub emoji: Option<String>,
    pub description: Option<String>,
    pub position: i32,
    pub created_at: i64,
}

/// Per-guild settings; absent rows mean "no audit channel configured".
#[derive(Debug, Clone)]
pub struct GuildConfig {
    pub guild_id: i64,
    pub audit_channel_id: Option<i64>,
    pub created_at: i64,
    pub updated_at: i64,
}

/// A partial update of a panel: `Some` overwrites a field, `None` leaves
/// it untouched.  The doubly optional fields distinguish clearing a value
/// (`Some(None)`) from not changing it (`None`).
#[derive(Debug, Clone)]
pub struct PanelUpdate {
    pub name: Option<String>,
    pub description: Option<Option<String>>,
    pub style: Option<PanelStyle>,
    pub color: Option<i32>,
    pub channel_id: Option<Option<i64>>,
    pub message_id: Option<Option<i64>>,
}

impl Default for PanelUpdate {
    /// An update that changes nothing.
    fn default() -> (r: Self)
        ensures
            r.name is None,
            r.description is None,
            r.style is None,
            r.color is None,
            r.channel_id is None,
            r.message_id is None,
    {
        PanelUpdate {
            name: None,
            description: None,
            style: None,
            color: None,
            channel_id: None,
            message_id: None,
        }
    }
}

/// The panel that results from applying an update, leaving untouched every
/// field the update does not set.
pub fn apply_update(panel: &Panel, update: &PanelUpdate, now: i64) -> (p: Panel)
    ensures
        p.id == panel.id,
        p.guild_id == panel.guild_id,
        p.created_at == panel.created_at,
        p.updated_at == now,
        p.name@ == match update.name {
            Some(ref n) => n@,
            None => panel.name@,
        },
        p.description == if update.description is Some {
            update.description->0
        } else {
            panel.description
        },
        p.style == match update.style {
            Some(s) => s,
            None => panel.style,
        },
        p.color == match update.color {
            Some(c) => c,
            None => panel.color,
        },
        p.channel_id == if update.channel_id is Some {
            update.channel_id->0
        } else {
            panel.channel_id
        },
        p.message_id == if update.message_id is Some {
            update.message_id->0
        } else {
            panel.message_id
        },
        panel.wf() && update.channel_id is None && update.message_id is None ==> p.wf(),
        (update.channel_id matches Some(c) && update.message_id matches Some(m) && (c is Some
            <==> m is Some)) ==> p.wf(),
{
    Panel {
        id: panel.id,
        guild_id: panel.guild_id,
        name: match update.name {
            Some(ref n) => n.clone(),
            None => panel.name.clone(),
        },
        description: match update.description {
            Some(ref d) => clone_opt_string(d),
            None => clone_opt_string(&panel.description),
        },
        style: match update.style {
            Some(s) => s,
            None => panel.style,
        },
        color: match update.color {
            Some(c) => c,
            None => panel.color,
        },
        channel_id: match update.channel_id {
            Some(c) => c,
            None => panel.channel_id,
        },
        message_id: match update.message_id {
            Some(m) => m,
            None => panel.message_id,
        },
        created_at: panel.created_at,
        updated_at: now,
    }
}

/// Clones an optional string.
pub fn clone_opt_string(o: &Option<String>) -> (r: Option<String>)
    ensures
        r == *o,
{
    match o {
        Some(s) => Some(s.clone()),
        None => None,
    }
}

/// Compares two string slices character by character.
pub fn str_eq(a: &str, b: &str) -> (r: bool)
    ensures
        r == (a@ == b@),
{
    let a_len = a.unicode_len();
    let b_len = b.unicode_len();
    if a_len != b_len {
        assert(a@ != b@);
        return false;
    }
    let mut i: usize = 0;
    while i < a_len
        invariant
            a_len == a@.len(),
            b_len == b@.len(),
            a_len == b_len,
            i <= a_len,
            forall|j: int| 0 <= j < i ==> a@[j] == b@[j],
        decreases a_len - i,
    {
        if a.get_char(i) != b.get_char(i) {
            assert(a@[i as int] != b@[i as int]);
            return false;
        }
        i = i + 1;
    }
    assert(a@ =~= b@);
    true
}

} // verus!
