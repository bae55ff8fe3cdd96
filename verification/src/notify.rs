//! Error notification pipeline: severity metadata, the notification value
//! producers enqueue, the FIFO queue model, and the consumer decision that
//! either renders a webhook embed (with the platform's truncation budgets)
//! or discards when no webhook is configured.
use vstd::prelude::*;

use crate::text::dec_str;
use crate::text::truncate_spec;
use crate::text::u64_to_string;

verus! {

/// Description budget of a webhook embed.
pub const MAX_DESCRIPTION_LEN: usize = 4096;

/// Budget of each field value of a webhook embed.
pub const MAX_FIELD_VALUE_LEN: usize = 1024;

/// Minimum spacing between two webhook deliveries, in milliseconds.
pub const MIN_DELIVERY_GAP_MS: u64 = 100;

/// How severe a reported failure is.
#[derive(Debug, Clone, Copy, PartialEq, Eq, Structural)]
pub enum ErrorSeverity {
    Warning,
    Error,
    Critical,
}

impl ErrorSeverity {
    /// The embed color of this severity.
    pub open spec fn spec_color(self) -> u32 {
        match self {
            ErrorSeverity::Warning => 0xFFA500,
            ErrorSeverity::Error => 0xFF0000,
            ErrorSeverity::Critical => 0x8B0000,
        }
    }

    pub fn color(&self) -> (r: u32)
        ensures
            r == self.spec_color(),
    {
        match self {
            ErrorSeverity::Warning => 0xFFA500,
            ErrorSeverity::Error => 0xFF0000,
            ErrorSeverity::Critical => 0x8B0000,
        }
    }

    /// The marker glyph of this severity.
    pub open spec fn spec_emoji(self) -> Seq<char> {
        match self {
            ErrorSeverity::Warning => "⚠️"@,
            ErrorSeverity::Error => "❌"@,
            ErrorSeverity::Critical => "🚨"@,
        }
    }

    pub fn emoji(&self) -> (r: &'static str)
        ensures
            r@ == self.spec_emoji(),
    {
        match self {
            ErrorSeverity::Warning => "⚠️",
            ErrorSeverity::Error => "❌",
            ErrorSeverity::Critical => "🚨",
        }
    }

    /// The English name of this severity.
    pub open spec fn spec_label(self) -> Seq<char> {
        match self {
            ErrorSeverity::Warning => "Warning"@,
            ErrorSeverity::Error => "Error"@,
            ErrorSeverity::Critical => "Critical"@,
        }
    }

    pub fn label(&self) -> (r: &'static str)
        ensures
            r@ == self.spec_label(),
    {
        match self {
            ErrorSeverity::Warning => "Warning",
            ErrorSeverity::Error => "Error",
            ErrorSeverity::Critical => "Critical",
        }
    }
}

/// One failure report, queued by a producer and consumed exactly once.
#[derive(Debug, Clone)]
pub struct ErrorNotification {
    pub severity: ErrorSeverity,
    pub title: String,
    pub description: String,
    pub source: Option<String>,
    pub guild_id: Option<u64>,
    pub user_id: Option<u64>,
    pub additional_info: Vec<(String, String)>,
}

impl ErrorNotification {
    pub fn new(severity: ErrorSeverity, title: String, description: String) -> (n: Self)
        ensures
            n.severity == severity,
            n.title == title,
            n.description == description,
            n.source is None,
            n.guild_id is None,
            n.user_id is None,
            n.additional_info@ =~= Seq::<(String, String)>::empty(),
    {
        ErrorNotification {
            severity,
            title,
            description,
            source: None,
            guild_id: None,
            user_id: None,
            additional_info: Vec::new(),
        }
    }

    pub fn with_source(self, source: String) -> (n: Self)
        ensures
            n == (Self { source: Some(source), ..self }),
    {
        Self { source: Some(source), ..self }
    }

    pub fn with_guild(self, guild_id: u64) -> (n: Self)
        ensures
            n == (Self { guild_id: Some(guild_id), ..self }),
    {
        Self { guild_id: Some(guild_id), ..self }
    }

    pub fn with_user(self, user_id: u64) -> (n: Self)
        ensures
            n == (Self { user_id: Some(user_id), ..self }),
    {
        Self { user_id: Some(user_id), ..self }
    }

    pub fn with_info(self, name: String, value: String) -> (n: Self)
        ensures
            n.severity == self.severity,
            n.title == self.title,
            n.description == self.description,
            n.source == self.source,
            n.guild_id == self.guild_id,
            n.user_id == self.user_id,
            n.additional_info@ == self.additional_info@.push((name, value)),
    {
        let mut n = self;
        n.additional_info.push((name, value));
        n
    }
}

/// `text` cut to `max_len` characters, the last three replaced by a
/// truncation marker when the budget is exceeded.
pub open spec fn truncate_field_spec(s: Seq<char>, max_len: int) -> Seq<char>
    recommends
        max_len >= 3,
{
    if s.len() <= max_len {
        s
    } else {
        s.subrange(0, max_len - 3) + "..."@
    }
}

/// Enforces a field budget: text within the budget passes unchanged,
/// longer text is cut and marked.
pub fn truncate_field(text: &str, max_len: usize) -> (r: String)
    requires
        max_len >= 3,
    ensures
        r@ == truncate_field_spec(text@, max_len as int),
        r@.len() <= max_len,
{
    if text.unicode_len() <= max_len {
        String::from_str(text)
    } else {
        let mut s = String::from_str(text.substring_char(0, max_len - 3));
        s.append("...");
        proof {
            reveal_strlit("...");
        }
        s
    }
}

/// One field of a webhook embed.
#[derive(Debug, Clone)]
pub struct EmbedFieldModel {
    pub name: String,
    pub value: String,
    pub inline: bool,
}

/// The embed body a delivered notification renders to.
#[derive(Debug, Clone)]
pub struct WebhookEmbedModel {
    pub title: String,
    pub description: String,
    pub color: u32,
    pub fields: Vec<EmbedFieldModel>,
    pub footer_text: String,
    pub timestamp: String,
}

/// How many tag fields (source, guild, user) precede the detail fields.
pub open spec fn tag_field_count(n: ErrorNotification) -> int {
    (if n.source is Some {
        1int
    } else {
        0int
    }) + (if n.guild_id is Some {
        1int
    } else {
        0int
    }) + (if n.user_id is Some {
        1int
    } else {
        0int
    })
}

/// A value set in backticks.
pub open spec fn backticked(s: Seq<char>) -> Seq<char> {
    "`"@ + s + "`"@
}

/// Everything the embed of a notification must satisfy: severity-coded
/// title and color, the description cut to its budget, one inline tag
/// field per present tag, and every detail pair carried over in order with
/// its value cut to the field budget.
pub open spec fn embed_wf(e: WebhookEmbedModel, n: ErrorNotification, timestamp: Seq<char>) -> bool {
    &&& e.title@ == n.severity.spec_emoji() + " "@ + n.severity.spec_label() + " - "@ + n.title@
    &&& e.description@ == truncate_field_spec(n.description@, MAX_DESCRIPTION_LEN as int)
    &&& e.color == n.severity.spec_color()
    &&& e.footer_text@ == "Role Panel Bot Error Logger"@
    &&& e.timestamp@ == timestamp
    &&& e.fields@.len() == tag_field_count(n) + n.additional_info@.len()
    &&& (n.source is Some ==> e.fields@[0].name@ == "📍 Source"@ && e.fields@[0].value@
        == backticked(n.source.unwrap()@) && e.fields@[0].inline)
    &&& (n.guild_id is Some ==> {
        let i = if n.source is Some {
            1int
        } else {
            0int
        };
        e.fields@[i].name@ == "🏠 Guild ID"@ && e.fields@[i].value@ == backticked(
            dec_str(n.guild_id.unwrap() as nat),
        ) && e.fields@[i].inline
    })
    &&& (n.user_id is Some ==> {
        let i = (if n.source is Some {
            1int
        } else {
            0int
        }) + (if n.guild_id is Some {
            1int
        } else {
            0int
        });
        e.fields@[i].name@ == "👤 User ID"@ && e.fields@[i].value@ == backticked(
            dec_str(n.user_id.unwrap() as nat),
        ) && e.fields@[i].inline
    })
    &&& (forall|i: int|
        0 <= i < n.additional_info@.len() ==> {
            let f = #[trigger] e.fields@[tag_field_count(n) + i];
            f.name == n.additional_info@[i].0 && f.value@ == truncate_field_spec(
                n.additional_info@[i].1@,
                MAX_FIELD_VALUE_LEN as int,
            ) && !f.inline
        })
}

fn backtick(s: &str) -> (r: String)
    ensures
        r@ == backticked(s@),
{
    let mut out = String::from_str("`");
    out.append(s);
    out.append("`");
    out
}

/// Renders the webhook embed of one notification.
#[verifier::loop_isolation(false)]
pub fn build_embed(n: &ErrorNotification, timestamp: String) -> (e: WebhookEmbedModel)
    ensures
        embed_wf(e, *n, timestamp@),
{
    let mut title = String::from_str(n.severity.emoji());
    title.append(" ");
    title.append(n.severity.label());
    title.append(" - ");
    title.append(n.title.as_str());

    let mut fields: Vec<EmbedFieldModel> = Vec::new();
    match &n.source {
        Some(source) => {
            fields.push(
                EmbedFieldModel {
                    name: String::from_str("📍 Source"),
                    value: backtick(source.as_str()),
                    inline: true,
                },
            );
        },
        None => {},
    }
    match n.guild_id {
        Some(guild_id) => {
            let rendered = u64_to_string(guild_id);
            fields.push(
                EmbedFieldModel {
                    name: String::from_str("🏠 Guild ID"),
                    value: backtick(rendered.as_str()),
                    inline: true,
                },
            );
        },
        None => {},
    }
    match n.user_id {
        Some(user_id) => {
            let rendered = u64_to_string(user_id);
            fields.push(
                EmbedFieldModel {
                    name: String::from_str("👤 User ID"),
                    value: backtick(rendered.as_str()),
                    inline: true,
                },
            );
        },
        None => {},
    }
    let ghost tag_fields = fields@;
    let mut i: usize = 0;
    while i < n.additional_info.len()
        invariant
            tag_fields.len() == tag_field_count(*n),
            i <= n.additional_info@.len(),
            fields@.len() == tag_fields.len() + i,
            fields@.subrange(0, tag_fields.len() as int) =~= tag_fields,
            forall|j: int|
                0 <= j < i ==> {
                    let f = #[trigger] fields@[tag_fields.len() + j];
                    f.name == n.additional_info@[j].0 && f.value@ == truncate_field_spec(
                        n.additional_info@[j].1@,
                        MAX_FIELD_VALUE_LEN as int,
                    ) && !f.inline
                },
        decreases n.additional_info@.len() - i,
    {
        let pair = &n.additional_info[i];
        fields.push(
            EmbedFieldModel {
                name: pair.0.clone(),
                value: truncate_field(pair.1.as_str(), MAX_FIELD_VALUE_LEN),
                inline: false,
            },
        );
        i = i + 1;
    }

    proof {
        assert(fields@.subrange(0, tag_fields.len() as int) == tag_fields);
        let si: int = if n.source is Some {
            1
        } else {
            0
        };
        if n.source is Some {
            assert(fields@[0] == tag_fields[0]);
        }
        if n.guild_id is Some {
            assert(fields@[si] == tag_fields[si]);
        }
        if n.user_id is Some {
            let gi: int = si + if n.guild_id is Some {
                1int
            } else {
                0int
            };
            assert(fields@[gi] == tag_fields[gi]);
        }
    }
    WebhookEmbedModel {
        title,
        description: truncate_field(n.description.as_str(), MAX_DESCRIPTION_LEN),
        color: n.severity.color(),
        fields,
        footer_text: String::from_str("Role Panel Bot Error Logger"),
        timestamp,
    }
}

/// What the consumer does with one notification.
#[derive(Debug, Clone)]
pub enum ConsumerAction {
    /// No webhook configured: log locally and drop.
    Discard,
    /// Deliver this embed to the webhook.
    Deliver(WebhookEmbedModel),
}

/// The consumer decision for one notification.  Without a configured
/// webhook every input is discarded after a local log line; with one, the
/// rendered embed is delivered.  Total on every input either way.
pub fn consume_notification(
    n: &ErrorNotification,
    webhook_configured: bool,
    timestamp: String,
) -> (r: ConsumerAction)
    ensures
        !webhook_configured ==> r is Discard,
        webhook_configured ==> (r matches ConsumerAction::Deliver(e) && embed_wf(
            e,
            *n,
            timestamp@,
        )),
{
    if webhook_configured {
        ConsumerAction::Deliver(build_embed(n, timestamp))
    } else {
        ConsumerAction::Discard
    }
}

/// The pending notifications, oldest first.  Producers append; the single
/// consumer drains from the front, so delivery follows enqueue order.
#[derive(Debug)]
pub struct NotificationQueue {
    items: Vec<ErrorNotification>,
}

impl NotificationQueue {
    /// The queued notifications, in enqueue order.
    pub closed spec fn pending(self) -> Seq<ErrorNotification> {
        self.items@
    }

    pub fn new() -> (q: Self)
        ensures
            q.pending() =~= Seq::<ErrorNotification>::empty(),
    {
        NotificationQueue { items: Vec::new() }
    }

    pub fn len(&self) -> (r: usize)
        ensures
            r == self.pending().len(),
    {
        self.items.len()
    }

    /// Appends a notification; nothing already queued moves.
    pub fn enqueue(&mut self, n: ErrorNotification)
        ensures
            final(self).pending() == old(self).pending().push(n),
    {
        self.items.push(n);
    }

    /// Removes and returns the oldest notification: strictly first-in,
    /// first-out.
    pub fn dequeue(&mut self) -> (r: Option<ErrorNotification>)
        ensures
            old(self).pending().len() == 0 ==> r is None && final(self).pending() == old(
                self,
            ).pending(),
            old(self).pending().len() > 0 ==> (r matches Some(n) && n == old(self).pending().first()
                && final(self).pending() == old(self).pending().drop_first()),
    {
        if self.items.len() == 0 {
            None
        } else {
            let n = self.items.remove(0);
            proof {
                assert(self.items@ =~= old(self).items@.drop_first());
            }
            Some(n)
        }
    }
}

} // verus!
