//! Notification routing: which configured webhook backends receive a status
//! change, and the exact payload each one is handed. Delivery itself is
//! fire-and-forget outbound I/O and stays outside the library; a delivery
//! error never reaches task state.

use vstd::prelude::*;
use crate::config::{Config, DiscordConfig, SlackConfig};
use crate::task::{clone_opt_string, Message, Notification, TaskStatus};

verus! {

/// The human-readable heading used for a status.
pub open spec fn status_title(s: TaskStatus) -> Seq<char> {
    match s {
        TaskStatus::Waiting => "Waiting for Live"@,
        TaskStatus::Recording => "Recording"@,
        TaskStatus::Done => "Done"@,
        TaskStatus::Failed => "Failed"@,
    }
}

/// The Discord embed colour used for a status.
pub open spec fn discord_color(s: TaskStatus) -> u32 {
    match s {
        TaskStatus::Waiting => 0xebd045,
        TaskStatus::Recording => 0x58b9ff,
        TaskStatus::Done => 0x45eb45,
        TaskStatus::Failed => 0xeb4545,
    }
}

/// The Slack attachment colour used for a status.
pub open spec fn slack_color(s: TaskStatus) -> Seq<char> {
    match s {
        TaskStatus::Waiting => "#ebd045"@,
        TaskStatus::Recording => "#58b9ff"@,
        TaskStatus::Done => "#45eb45"@,
        TaskStatus::Failed => "#eb4545"@,
    }
}

/// The short link to a video.
pub open spec fn youtu_link(id: Seq<char>) -> Seq<char> {
    "https://youtu.be/"@ + id
}

/// The link to a channel.
pub open spec fn channel_link(channel_id: Seq<char>) -> Seq<char> {
    "https://www.youtube.com/channel/"@ + channel_id
}

/// The embed description: the title as a markdown link to the video.
pub open spec fn discord_description(title: Seq<char>, id: Seq<char>) -> Seq<char> {
    "["@ + title + "]("@ + youtu_link(id) + ")"@
}

/// Two parts joined by a dash, as Slack texts are.
pub open spec fn dash_joined(a: Seq<char>, b: Seq<char>) -> Seq<char> {
    a + " - "@ + b
}

fn status_title_of(s: TaskStatus) -> (r: String)
    ensures
        r@ == status_title(s),
{
    match s {
        TaskStatus::Waiting => "Waiting for Live".to_owned(),
        TaskStatus::Recording => "Recording".to_owned(),
        TaskStatus::Done => "Done".to_owned(),
        TaskStatus::Failed => "Failed".to_owned(),
    }
}

fn discord_color_of(s: TaskStatus) -> (r: u32)
    ensures
        r == discord_color(s),
{
    match s {
        TaskStatus::Waiting => 0xebd045,
        TaskStatus::Recording => 0x58b9ff,
        TaskStatus::Done => 0x45eb45,
        TaskStatus::Failed => 0xeb4545,
    }
}

fn slack_color_of(s: TaskStatus) -> (r: String)
    ensures
        r@ == slack_color(s),
{
    match s {
        TaskStatus::Waiting => "#ebd045".to_owned(),
        TaskStatus::Recording => "#58b9ff".to_owned(),
        TaskStatus::Done => "#45eb45".to_owned(),
        TaskStatus::Failed => "#eb4545".to_owned(),
    }
}

fn youtu_link_of(id: &String) -> (r: String)
    ensures
        r@ == youtu_link(id@),
{
    let mut s = "https://youtu.be/".to_owned();
    s.append(id.as_str());
    s
}

fn channel_link_of(channel_id: &String) -> (r: String)
    ensures
        r@ == channel_link(channel_id@),
{
    let mut s = "https://www.youtube.com/channel/".to_owned();
    s.append(channel_id.as_str());
    s
}

fn discord_description_of(title: &String, id: &String) -> (r: String)
    ensures
        r@ == discord_description(title@, id@),
{
    let mut s = "[".to_owned();
    s.append(title.as_str());
    s.append("](");
    let link = youtu_link_of(id);
    s.append(link.as_str());
    s.append(")");
    s
}

fn dash_joined_of(a: &String, b: &String) -> (r: String)
    ensures
        r@ == dash_joined(a@, b@),
{
    let mut s = a.clone();
    s.append(" - ");
    s.append(b.as_str());
    s
}

/// Whether a status is among the configured ones to notify on.
fn contains_status(v: &Vec<TaskStatus>, s: TaskStatus) -> (r: bool)
    ensures
        r == v@.contains(s),
{
    let mut i: usize = 0;
    while i < v.len()
        invariant
            i <= v@.len(),
            forall|k: int| 0 <= k < i ==> v@[k] != s,
        decreases v@.len() - i,
    {
        if v[i] == s {
            assert(v@[i as int] == s);
            return true;
        }
        i = i + 1;
    }
    false
}

/// A config that names a webhook, directly or through a file holding it.
pub trait HasWebhookUrl {
    spec fn spec_webhook_url(&self) -> Option<Seq<char>>;

    spec fn spec_webhook_url_file(&self) -> Option<Seq<char>>;

    fn webhook_url(&self) -> (r: Option<&String>)
        ensures
            (match r {
                Some(s) => self.spec_webhook_url() == Some(s@),
                None => self.spec_webhook_url() is None,
            }),
    ;

    fn webhook_url_file(&self) -> (r: Option<&String>)
        ensures
            (match r {
                Some(s) => self.spec_webhook_url_file() == Some(s@),
                None => self.spec_webhook_url_file() is None,
            }),
    ;
}

impl HasWebhookUrl for DiscordConfig {
    open spec fn spec_webhook_url(&self) -> Option<Seq<char>> {
        Some(self.webhook_url@)
    }

    open spec fn spec_webhook_url_file(&self) -> Option<Seq<char>> {
        None
    }

    fn webhook_url(&self) -> (r: Option<&String>) {
        Some(&self.webhook_url)
    }

    fn webhook_url_file(&self) -> (r: Option<&String>) {
        None
    }
}

impl HasWebhookUrl for SlackConfig {
    open spec fn spec_webhook_url(&self) -> Option<Seq<char>> {
        Some(self.webhook_url@)
    }

    open spec fn spec_webhook_url_file(&self) -> Option<Seq<char>> {
        None
    }

    fn webhook_url(&self) -> (r: Option<&String>) {
        Some(&self.webhook_url)
    }

    fn webhook_url_file(&self) -> (r: Option<&String>) {
        None
    }
}

/// Where the webhook URL is to be taken from: a file (read at send time,
/// prioritized), the configured URL, or nowhere.
pub enum WebhookUrlSource {
    FromFile(String),
    FromUrl(String),
    Missing,
}

/// Picks the webhook URL source for a config: the file option wins over the
/// direct URL; with neither, it is missing.
pub fn webhook_url_source<C: HasWebhookUrl>(cfg: &C) -> (r: WebhookUrlSource)
    ensures
        (match cfg.spec_webhook_url_file() {
            Some(f) => r matches WebhookUrlSource::FromFile(s) && s@ == f,
            None => (match cfg.spec_webhook_url() {
                Some(u) => r matches WebhookUrlSource::FromUrl(s) && s@ == u,
                None => r is Missing,
            }),
        }),
{
    if let Some(file) = cfg.webhook_url_file() {
        return WebhookUrlSource::FromFile(file.clone());
    }
    if let Some(url) = cfg.webhook_url() {
        return WebhookUrlSource::FromUrl(url.clone());
    }
    WebhookUrlSource::Missing
}

/// A notifier whose outbound calls go to a webhook named by its config.
pub trait WebhookNotifier {
    type Config: HasWebhookUrl;

    /// Picks the webhook URL source from the config, prioritizing the file
    /// option over the direct URL.
    fn get_webhook_url(cfg: &Self::Config) -> (r: WebhookUrlSource)
        ensures
            (match cfg.spec_webhook_url_file() {
                Some(f) => r matches WebhookUrlSource::FromFile(s) && s@ == f,
                None => (match cfg.spec_webhook_url() {
                    Some(u) => r matches WebhookUrlSource::FromUrl(s) && s@ == u,
                    None => r is Missing,
                }),
            }),
    {
        webhook_url_source(cfg)
    }
}

/// The Discord embed a notification becomes.
pub struct DiscordEmbed {
    pub title: String,
    pub description: String,
    pub color: u32,
    pub author_name: String,
    pub author_url: String,
    pub author_icon_url: Option<String>,
    pub thumbnail_url: String,
}

/// The Slack attachment a notification becomes.
pub struct SlackAttachment {
    pub fallback: String,
    pub color: String,
    pub pretext: String,
    pub title: String,
    pub title_link: String,
    pub image_url: String,
}

/// One backend's payload.
pub enum WebhookPayload {
    Discord(DiscordEmbed),
    Slack(SlackAttachment),
}

/// One outbound webhook call for the runtime to perform: where to post and
/// what.
pub struct OutboundWebhook {
    pub url: String,
    pub payload: WebhookPayload,
}

/// A notification backend: given the configuration snapshot and a
/// notification, it either produces the outbound call or skips it.
pub trait Notifier {
    /// Whether this backend delivers this notification under this
    /// configuration.
    spec fn spec_sends(&self, cfg: Config, n: Notification) -> bool;

    /// What the produced outbound call must look like.
    spec fn spec_payload(&self, cfg: Config, n: Notification, o: OutboundWebhook) -> bool;

    fn send_notification(&self, cfg: &Config, n: &Notification) -> (r: Option<OutboundWebhook>)
        ensures
            (r is Some) == self.spec_sends(*cfg, *n),
            (match r {
                Some(o) => self.spec_payload(*cfg, *n, o),
                None => true,
            }),
    ;
}

/// The Discord backend.
pub struct Discord {
}

impl Discord {
    pub fn new() -> (r: Self) {
        Discord {  }
    }
}

impl Notifier for Discord {
    /// Delivers exactly when a Discord webhook is configured and the
    /// notification's status is among its configured statuses.
    open spec fn spec_sends(&self, cfg: Config, n: Notification) -> bool {
        match cfg.notifier {
            Some(nc) => match nc.discord {
                Some(dc) => dc.notify_on@.contains(n.status),
                None => false,
            },
            None => false,
        }
    }

    /// The call posts to the configured webhook an embed titled and coloured
    /// by the status, describing the video as a link, authored by the
    /// channel, with the channel picture and the video thumbnail.
    open spec fn spec_payload(&self, cfg: Config, n: Notification, o: OutboundWebhook) -> bool {
        match cfg.notifier {
            Some(nc) => match nc.discord {
                Some(dc) => {
                    &&& o.url@ == dc.webhook_url@
                    &&& o.payload matches WebhookPayload::Discord(e) && {
                        &&& e.title@ == status_title(n.status)
                        &&& e.description@ == discord_description(n.task.title@, n.task.video_id@)
                        &&& e.color == discord_color(n.status)
                        &&& e.author_name@ == n.task.channel_name@
                        &&& e.author_url@ == channel_link(n.task.channel_id@)
                        &&& e.author_icon_url == n.task.channel_picture
                        &&& e.thumbnail_url@ == n.task.video_picture@
                    }
                },
                None => false,
            },
            None => false,
        }
    }

    fn send_notification(&self, cfg: &Config, n: &Notification) -> (r: Option<OutboundWebhook>) {
        let dc = match &cfg.notifier {
            Some(nc) => match &nc.discord {
                Some(dc) => dc,
                None => {
                    return None;
                },
            },
            None => {
                return None;
            },
        };
        if !contains_status(&dc.notify_on, n.status) {
            return None;
        }
        let embed = DiscordEmbed {
            title: status_title_of(n.status),
            description: discord_description_of(&n.task.title, &n.task.video_id),
            color: discord_color_of(n.status),
            author_name: n.task.channel_name.clone(),
            author_url: channel_link_of(&n.task.channel_id),
            author_icon_url: clone_opt_string(&n.task.channel_picture),
            thumbnail_url: n.task.video_picture.clone(),
        };
        Some(OutboundWebhook { url: dc.webhook_url.clone(), payload: WebhookPayload::Discord(embed) })
    }
}

impl WebhookNotifier for Discord {
    type Config = DiscordConfig;
}

/// The Slack backend.
pub struct Slack {
}

impl Slack {
    pub fn new() -> (r: Self) {
        Slack {  }
    }
}

impl Notifier for Slack {
    /// Delivers exactly when a Slack webhook is configured and the
    /// notification's status is among its configured statuses.
    open spec fn spec_sends(&self, cfg: Config, n: Notification) -> bool {
        match cfg.notifier {
            Some(nc) => match nc.slack {
                Some(sc) => sc.notify_on@.contains(n.status),
                None => false,
            },
            None => false,
        }
    }

    /// The call posts to the configured webhook an attachment coloured by
    /// the status, whose pretext is the status title, whose title joins the
    /// channel and video titles, linking and picturing the video.
    open spec fn spec_payload(&self, cfg: Config, n: Notification, o: OutboundWebhook) -> bool {
        match cfg.notifier {
            Some(nc) => match nc.slack {
                Some(sc) => {
                    &&& o.url@ == sc.webhook_url@
                    &&& o.payload matches WebhookPayload::Slack(a) && {
                        &&& a.fallback@ == dash_joined(status_title(n.status), n.task.title@)
                        &&& a.color@ == slack_color(n.status)
                        &&& a.pretext@ == status_title(n.status)
                        &&& a.title@ == dash_joined(n.task.channel_name@, n.task.title@)
                        &&& a.title_link@ == youtu_link(n.task.video_id@)
                        &&& a.image_url@ == n.task.video_picture@
                    }
                },
                None => false,
            },
            None => false,
        }
    }

    fn send_notification(&self, cfg: &Config, n: &Notification) -> (r: Option<OutboundWebhook>) {
        let sc = match &cfg.notifier {
            Some(nc) => match &nc.slack {
                Some(sc) => sc,
                None => {
                    return None;
                },
            },
            None => {
                return None;
            },
        };
        if !contains_status(&sc.notify_on, n.status) {
            return None;
        }
        let pretext = status_title_of(n.status);
        let attachment = SlackAttachment {
            fallback: dash_joined_of(&pretext, &n.task.title),
            color: slack_color_of(n.status),
            pretext,
            title: dash_joined_of(&n.task.channel_name, &n.task.title),
            title_link: youtu_link_of(&n.task.video_id),
            image_url: n.task.video_picture.clone(),
        };
        Some(
            OutboundWebhook { url: sc.webhook_url.clone(), payload: WebhookPayload::Slack(attachment) },
        )
    }
}

impl WebhookNotifier for Slack {
    type Config = SlackConfig;
}

/// The closed set of notification backends, dispatched in a fixed order.
pub struct NotificationSystem {
    pub discord: Discord,
    pub slack: Slack,
}

impl NotificationSystem {
    pub fn new() -> (r: Self) {
        NotificationSystem { discord: Discord::new(), slack: Slack::new() }
    }

    /// Routes one bus message: a status change yields the outbound calls of
    /// exactly the backends that deliver it, Discord first, then Slack; any
    /// other message yields nothing.
    pub fn handle_message(&self, cfg: &Config, m: &Message) -> (r: Vec<OutboundWebhook>)
        ensures
            (match m {
                Message::ToNotify(n) => {
                    let ds = self.discord.spec_sends(*cfg, *n);
                    let ss = self.slack.spec_sends(*cfg, *n);
                    &&& r@.len() == (if ds {
                        1int
                    } else {
                        0int
                    }) + (if ss {
                        1int
                    } else {
                        0int
                    })
                    &&& ds ==> self.discord.spec_payload(*cfg, *n, r@[0])
                    &&& ss ==> self.slack.spec_payload(
                        *cfg,
                        *n,
                        r@[if ds {
                            1int
                        } else {
                            0int
                        }],
                    )
                },
                Message::ToRecord(_) => r@ == Seq::<OutboundWebhook>::empty(),
            }),
    {
        let mut out: Vec<OutboundWebhook> = Vec::new();
        let n = match m {
            Message::ToNotify(n) => n,
            Message::ToRecord(_) => {
                return out;
            },
        };
        if let Some(o) = self.discord.send_notification(cfg, n) {
            out.push(o);
        }
        if let Some(o) = self.slack.send_notification(cfg, n) {
            out.push(o);
        }
        out
    }
}

} // verus!
